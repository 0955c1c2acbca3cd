//! The status report of an object: which of its metadata must be there and
//! how the report is laid out, line by line.

use vstd::prelude::*;
use vstd::string::*;
use crate::text::{
    decimal_text, pair_texts, push_decimal, push_signed, signed_text, text_less, text_precedes,
};
use crate::util::{
    names_object, object_at, object_of_path, opt_text, request_fault, RequestError, UrlParts,
};

verus! {

#[verifier::external_type_specification]
#[verifier::external_body]
pub struct ExOffsetDateTime(time::OffsetDateTime);

#[verifier::external_type_specification]
#[verifier::external_body]
pub struct ExStorageClass(tame_gcs::common::StorageClass);

/// What the object store tells of an object, as far as the report shows it.
pub struct ObjectStat {
    /// When the object was created.
    pub time_created: Option<time::OffsetDateTime>,
    /// When the object was last changed.
    pub updated: Option<time::OffsetDateTime>,
    /// The object's storage class.
    pub storage_class: Option<tame_gcs::common::StorageClass>,
    /// The length of the object's content in bytes.
    pub size: Option<u64>,
    /// The type of the object's content.
    pub content_type: Option<String>,
    /// The metadata that users gave the object, key and value, in the order
    /// of the keys.
    pub metadata: Vec<(String, String)>,
    /// The CRC32C checksum of the content.
    pub crc32c: Option<String>,
    /// The MD5 hash of the content.
    pub md5_hash: Option<String>,
    /// The entity tag of the object.
    pub etag: Option<String>,
    /// The generation of the object's content.
    pub generation: Option<i64>,
    /// The generation of the object's metadata.
    pub metageneration: Option<i64>,
}

/// A part of the metadata that every report shows.
#[derive(Clone, Copy, Debug, PartialEq, Eq, Structural)]
pub enum StatField {
    TimeCreated,
    Updated,
    StorageClass,
    Size,
    Crc32c,
    Md5Hash,
    Etag,
    Generation,
    Metageneration,
}

/// Why there is no report.
#[derive(Clone, Copy, Debug, PartialEq, Eq, Structural)]
pub enum StatError {
    /// The object store did not tell this part.
    Missing(StatField),
    /// This time cannot be written as a date of RFC 2822.
    Unprintable(StatField),
    /// The user's metadata is no map: a key is out of order or occurs twice.
    Unordered,
}

/// A text between the escape sequences that switch cyan on and off.
pub open spec fn cyan(text: Seq<char>) -> Seq<char> {
    seq!['\x1b', '[', '3', '6', 'm'] + text + seq!['\x1b', '[', '0', 'm']
}

/// `Colour::paint` of `ansi_term` for cyan, written out as a string: the
/// text between the escape sequence that selects color 36 and the one that
/// resets all styles.
#[verifier::external_body]
fn paint_cyan(text: &str) -> (r: String)
    ensures
        r@ == cyan(text@),
{
    ansi_term::Color::Cyan.paint(text).to_string()
}

/// A time written as a date of RFC 2822, as `OffsetDateTime::format` of
/// `time` writes it, or `None` for a time that the format cannot express.
pub uninterp spec fn rfc2822_text(at: time::OffsetDateTime) -> Option<Seq<char>>;

/// `OffsetDateTime::format` of `time` with the format of RFC 2822. The
/// contract only gives the outcome a name: it depends on the time alone.
#[verifier::external_body]
fn rfc2822(at: time::OffsetDateTime) -> (r: Option<String>)
    ensures
        opt_text(r) == rfc2822_text(at),
{
    at.format(&time::format_description::well_known::Rfc2822).ok()
}

/// The name of a storage class as `tame_gcs` writes it.
pub uninterp spec fn storage_class_text(class: tame_gcs::common::StorageClass) -> Seq<char>;

/// `Display` of `tame_gcs`'s `StorageClass`. The contract only gives the
/// text a name: it depends on the class alone.
#[verifier::external_body]
fn storage_class_name(class: tame_gcs::common::StorageClass) -> (r: String)
    ensures
        r@ == storage_class_text(class),
{
    class.to_string()
}

/// The keys of the entries stand in strictly rising order, so that no key
/// occurs twice.
pub open spec fn keys_rise(entries: Seq<(Seq<char>, Seq<char>)>) -> bool {
    forall|i: int| 0 <= i < entries.len() - 1 ==> text_less(#[trigger] entries[i].0, entries[i + 1].0)
}

/// The entries of the user's metadata that a report shows, in order.
pub open spec fn shown_entries(stat: &ObjectStat) -> Seq<(Seq<char>, Seq<char>)> {
    pair_texts(stat.metadata@)
}

impl ObjectStat {
    /// The user's metadata is a map: its entries are in the order of their
    /// keys and no key occurs twice.
    pub open spec fn wf(&self) -> bool {
        keys_rise(shown_entries(self))
    }

    /// Whether the user's metadata is a map.
    pub fn is_well_formed(&self) -> (r: bool)
        ensures
            r == self.wf(),
    {
        let n: usize = self.metadata.len();
        if n < 2 {
            return true;
        }
        let mut i: usize = 0;
        while i < n - 1
            invariant
                2 <= n == self.metadata@.len(),
                i <= n - 1,
                forall|j: int|
                    0 <= j < i ==> text_less(
                        #[trigger] shown_entries(self)[j].0,
                        shown_entries(self)[j + 1].0,
                    ),
            decreases n - 1 - i,
        {
            if !text_precedes(self.metadata[i].0.as_str(), self.metadata[i + 1].0.as_str()) {
                assert(!text_less(shown_entries(self)[i as int].0, shown_entries(self)[i + 1].0));
                return false;
            }
            i = i + 1;
        }
        true
    }
}

/// The texts of a list of lines.
pub open spec fn texts(lines: Seq<String>) -> Seq<Seq<char>> {
    Seq::new(lines.len(), |i: int| lines[i]@)
}

/// The first part that a report needs besides the two times and that the
/// metadata lacks, in the order of the report.
pub open spec fn first_missing(stat: &ObjectStat) -> Option<StatField> {
    if stat.storage_class is None {
        Some(StatField::StorageClass)
    } else if stat.size is None {
        Some(StatField::Size)
    } else if stat.crc32c is None {
        Some(StatField::Crc32c)
    } else if stat.md5_hash is None {
        Some(StatField::Md5Hash)
    } else if stat.etag is None {
        Some(StatField::Etag)
    } else if stat.generation is None {
        Some(StatField::Generation)
    } else if stat.metageneration is None {
        Some(StatField::Metageneration)
    } else {
        None
    }
}

/// The line of the report for one entry of the user's metadata.
pub open spec fn metadata_line(entry: (Seq<char>, Seq<char>)) -> Seq<char> {
    "        "@ + entry.0 + ":\t\t"@ + entry.1
}

/// The lines of a report, for metadata that lacks nothing: the title, the
/// two times as they are written, the storage class, the length and type of
/// the content, the user's metadata entry by entry, the two hashes, the
/// entity tag and the two generations.
pub open spec fn report_lines(
    title: Seq<char>,
    created: Seq<char>,
    updated: Seq<char>,
    stat: &ObjectStat,
) -> Seq<Seq<char>> {
    seq![
        title,
        "    Creation time:\t"@ + created,
        "    Update time:\t"@ + updated,
        "    Storage class:\t"@ + storage_class_text(stat.storage_class.unwrap()),
        "    Content-Length:\t"@ + decimal_text(stat.size.unwrap() as nat),
        "    Content-Type:\t"@ + match stat.content_type {
            Some(t) => t@,
            None => "None"@,
        },
    ] + Seq::new(shown_entries(stat).len(), |i: int| metadata_line(shown_entries(stat)[i])) + seq![
        "    Hash (crc32c):\t"@ + stat.crc32c.unwrap()@,
        "    Hash (md5):\t\t"@ + stat.md5_hash.unwrap()@,
        "    ETag:\t\t"@ + stat.etag.unwrap()@,
        "    Generation:\t\t"@ + signed_text(stat.generation.unwrap() as int),
        "    Metageneration:\t"@ + signed_text(stat.metageneration.unwrap() as int),
    ]
}

proof fn lemma_report_lines(
    title: Seq<char>,
    created: Seq<char>,
    updated: Seq<char>,
    stat: &ObjectStat,
)
    ensures
        ({
            let want = report_lines(title, created, updated, stat);
            let m = shown_entries(stat).len() as int;
            &&& want.len() == 11 + m
            &&& forall|i: int|
                0 <= i < m ==> #[trigger] want[6 + i] == metadata_line(shown_entries(stat)[i])
            &&& want[6 + m] == "    Hash (crc32c):\t"@ + stat.crc32c.unwrap()@
            &&& want[7 + m] == "    Hash (md5):\t\t"@ + stat.md5_hash.unwrap()@
            &&& want[8 + m] == "    ETag:\t\t"@ + stat.etag.unwrap()@
            &&& want[9 + m] == "    Generation:\t\t"@ + signed_text(stat.generation.unwrap() as int)
            &&& want[10 + m] == "    Metageneration:\t"@ + signed_text(
                stat.metageneration.unwrap() as int,
            )
        }),
{
    let m = shown_entries(stat).len() as int;
    let middle = Seq::new(shown_entries(stat).len(), |i: int| metadata_line(shown_entries(stat)[i]));
    assert(middle.len() == m);
    assert forall|i: int| 0 <= i < m implies #[trigger] report_lines(
        title,
        created,
        updated,
        stat,
    )[6 + i] == metadata_line(shown_entries(stat)[i]) by {
        assert(middle[i] == metadata_line(shown_entries(stat)[i]));
    }
}

fn labelled(label: &str, value: &str) -> (r: String)
    ensures
        r@ == label@ + value@,
{
    let mut r = String::from_str(label);
    r.append(value);
    r
}

/// Why the metadata gives no report once the two times are written, if it
/// gives none: the user's metadata must be a map, and the other parts must
/// be there.
pub open spec fn layout_fault(stat: &ObjectStat) -> Option<StatError> {
    if !stat.wf() {
        Some(StatError::Unordered)
    } else {
        match first_missing(stat) {
            Some(field) => Some(StatError::Missing(field)),
            None => None,
        }
    }
}

/// Lays out a report under a title, with the two times already written.
pub fn layout(title: String, created: &str, updated: &str, stat: &ObjectStat) -> (r: Result<
    Vec<String>,
    StatError,
>)
    ensures
        match layout_fault(stat) {
            Some(e) => r == Err::<Vec<String>, StatError>(e),
            None => r matches Ok(lines) && texts(lines@) == report_lines(
                title@,
                created@,
                updated@,
                stat,
            ),
        },
{
    if !stat.is_well_formed() {
        return Err(StatError::Unordered);
    }
    let class: tame_gcs::common::StorageClass = match stat.storage_class {
        Some(c) => c,
        None => {
            return Err(StatError::Missing(StatField::StorageClass));
        },
    };
    let size: u64 = match stat.size {
        Some(n) => n,
        None => {
            return Err(StatError::Missing(StatField::Size));
        },
    };
    let crc32c: &String = match &stat.crc32c {
        Some(t) => t,
        None => {
            return Err(StatError::Missing(StatField::Crc32c));
        },
    };
    let md5_hash: &String = match &stat.md5_hash {
        Some(t) => t,
        None => {
            return Err(StatError::Missing(StatField::Md5Hash));
        },
    };
    let etag: &String = match &stat.etag {
        Some(t) => t,
        None => {
            return Err(StatError::Missing(StatField::Etag));
        },
    };
    let generation: i64 = match stat.generation {
        Some(n) => n,
        None => {
            return Err(StatError::Missing(StatField::Generation));
        },
    };
    let metageneration: i64 = match stat.metageneration {
        Some(n) => n,
        None => {
            return Err(StatError::Missing(StatField::Metageneration));
        },
    };
    let ghost want = report_lines(title@, created@, updated@, stat);
    proof {
        lemma_report_lines(title@, created@, updated@, stat);
    }
    let mut lines: Vec<String> = Vec::new();
    lines.push(title);
    lines.push(labelled("    Creation time:\t", created));
    lines.push(labelled("    Update time:\t", updated));
    lines.push(labelled("    Storage class:\t", storage_class_name(class).as_str()));
    let mut length = String::from_str("    Content-Length:\t");
    push_decimal(&mut length, size);
    lines.push(length);
    lines.push(
        match &stat.content_type {
            Some(t) => labelled("    Content-Type:\t", t.as_str()),
            None => labelled("    Content-Type:\t", "None"),
        },
    );
    let entries: &Vec<(String, String)> = &stat.metadata;
    let mut i: usize = 0;
    while i < entries.len()
        invariant
            i <= entries@.len(),
            pair_texts(entries@) == shown_entries(stat),
            want == report_lines(title@, created@, updated@, stat),
            want.len() == 11 + entries@.len(),
            lines@.len() == 6 + i,
            forall|j: int| 0 <= j < lines@.len() ==> (#[trigger] lines@[j])@ == want[j],
        decreases entries@.len() - i,
    {
        let mut line = String::from_str("        ");
        line.append(entries[i].0.as_str());
        line.append(":\t\t");
        line.append(entries[i].1.as_str());
        proof {
            lemma_report_lines(title@, created@, updated@, stat);
            assert(pair_texts(entries@)[i as int] == (entries@[i as int].0@, entries@[i as int].1@));
            assert(line@ == metadata_line(shown_entries(stat)[i as int]));
            assert(want[6 + i] == line@);
        }
        lines.push(line);
        i = i + 1;
    }
    lines.push(labelled("    Hash (crc32c):\t", crc32c.as_str()));
    lines.push(labelled("    Hash (md5):\t\t", md5_hash.as_str()));
    lines.push(labelled("    ETag:\t\t", etag.as_str()));
    let mut line = String::from_str("    Generation:\t\t");
    push_signed(&mut line, generation);
    lines.push(line);
    let mut line = String::from_str("    Metageneration:\t");
    push_signed(&mut line, metageneration);
    lines.push(line);
    proof {
        let m = entries@.len() as int;
        assert(lines@.len() == want.len());
        assert forall|j: int| 0 <= j < want.len() implies texts(lines@)[j] == want[j] by {
            if j < 6 + m {
            } else if j == 6 + m {
            } else if j == 7 + m {
            } else if j == 8 + m {
            } else if j == 9 + m {
            } else {
                assert(j == 10 + m);
            }
        }
        assert(texts(lines@) =~= want);
    }
    Ok(lines)
}

/// Why the metadata gives no report, if it gives none. The parts are looked
/// at in the order of the report: each time must be there and must be a
/// date that RFC 2822 can express; then the user's metadata must be a map
/// and the other parts must be there.
pub open spec fn report_fault(stat: &ObjectStat) -> Option<StatError> {
    match stat.time_created {
        None => Some(StatError::Missing(StatField::TimeCreated)),
        Some(created) => if rfc2822_text(created) is None {
            Some(StatError::Unprintable(StatField::TimeCreated))
        } else {
            match stat.updated {
                None => Some(StatError::Missing(StatField::Updated)),
                Some(updated) => if rfc2822_text(updated) is None {
                    Some(StatError::Unprintable(StatField::Updated))
                } else {
                    layout_fault(stat)
                },
            }
        },
    }
}

/// Lays out the report on the object at `url`: the URL in cyan, then the
/// object's metadata line by line. The times are written as dates of RFC
/// 2822. The parts are looked at in the order of the report; the first one
/// that is missing, or cannot be written, fails the report.
pub fn report(url: &str, stat: &ObjectStat) -> (r: Result<Vec<String>, StatError>)
    ensures
        match report_fault(stat) {
            Some(e) => r == Err::<Vec<String>, StatError>(e),
            None => r matches Ok(lines) && texts(lines@) == report_lines(
                cyan(url@),
                rfc2822_text(stat.time_created.unwrap()).unwrap(),
                rfc2822_text(stat.updated.unwrap()).unwrap(),
                stat,
            ),
        },
{
    let created: String = match stat.time_created {
        Some(at) => match rfc2822(at) {
            Some(text) => text,
            None => {
                return Err(StatError::Unprintable(StatField::TimeCreated));
            },
        },
        None => {
            return Err(StatError::Missing(StatField::TimeCreated));
        },
    };
    let updated: String = match stat.updated {
        Some(at) => match rfc2822(at) {
            Some(text) => text,
            None => {
                return Err(StatError::Unprintable(StatField::Updated));
            },
        },
        None => {
            return Err(StatError::Missing(StatField::Updated));
        },
    };
    layout(paint_cyan(url), created.as_str(), updated.as_str(), stat)
}

impl StatField {
    /// The name of the part in the object store's metadata.
    pub open spec fn spec_name(self) -> Seq<char> {
        match self {
            StatField::TimeCreated => "time_created"@,
            StatField::Updated => "updated"@,
            StatField::StorageClass => "storage_class"@,
            StatField::Size => "size"@,
            StatField::Crc32c => "crc32c"@,
            StatField::Md5Hash => "md5_hash"@,
            StatField::Etag => "etag"@,
            StatField::Generation => "generation"@,
            StatField::Metageneration => "metageneration"@,
        }
    }

    pub fn name(self) -> (r: &'static str)
        ensures
            r@ == self.spec_name(),
    {
        match self {
            StatField::TimeCreated => "time_created",
            StatField::Updated => "updated",
            StatField::StorageClass => "storage_class",
            StatField::Size => "size",
            StatField::Crc32c => "crc32c",
            StatField::Md5Hash => "md5_hash",
            StatField::Etag => "etag",
            StatField::Generation => "generation",
            StatField::Metageneration => "metageneration",
        }
    }
}

/// The request by which the object store `obj` is asked for the metadata of
/// the named object, or the reason why there is none: what `Object::get` of
/// `tame_gcs` makes of the two names, without optional parameters.
pub uninterp spec fn get_request(
    obj: tame_gcs::objects::Object,
    bucket: Seq<char>,
    object: Seq<char>,
) -> Result<tame_gcs::http::Request<std::io::Empty>, tame_gcs::Error>;

/// `Object::get` of `tame_gcs` without optional parameters, for the names as
/// `BucketName::try_from` and `ObjectName::try_from` read them. The contract
/// only gives the outcome a name: it depends on the store and the two names
/// alone.
#[verifier::external_body]
fn object_get(obj: &tame_gcs::objects::Object, bucket: &str, object: &str) -> (r: Result<
    tame_gcs::http::Request<std::io::Empty>,
    tame_gcs::Error,
>)
    ensures
        r == get_request(*obj, bucket@, object@),
{
    let bucket = tame_gcs::BucketName::try_from(bucket)?;
    let object = tame_gcs::ObjectName::try_from(object)?;
    obj.get(&(&bucket, &object), None)
}

/// The request that asks for the metadata of the object at a URL: the one
/// that the object store makes for the bucket and the object that the URL
/// names. A URL that names no object has none.
pub fn request(obj: &tame_gcs::objects::Object, url: &UrlParts) -> (r: Result<
    tame_gcs::http::Request<std::io::Empty>,
    RequestError,
>)
    ensures
        match r {
            Ok(_) => names_object(url),
            Err(e) => request_fault(e, url),
        },
        names_object(url) ==> match get_request(
            *obj,
            opt_text(url.host).unwrap(),
            object_of_path(url.path@).unwrap(),
        ) {
            Ok(request) => r matches Ok(found) && found == request,
            Err(e) => r matches Err(RequestError::Refused(found)) && found == e,
        },
{
    let target = match object_at(url) {
        Ok(target) => target,
        Err(e) => {
            return Err(RequestError::Address(e));
        },
    };
    match object_get(obj, target.bucket.as_str(), target.object.as_str()) {
        Ok(request) => Ok(request),
        Err(e) => Err(RequestError::Refused(e)),
    }
}

} // verus!
