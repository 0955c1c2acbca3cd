//! Copies between the local disk and the object store: where a path lies and
//! what a copy between two paths has to do.

use vstd::prelude::*;
use vstd::string::*;
use crate::text::{has_prefix, str_starts_with};
use crate::util::{
    gs_url_to_object_id, names_bucket, object_of_path, opt_text, parse_url, url_fault, url_parts,
    GsUrl, UrlError, UrlParts,
};

verus! {

#[verifier::external_type_specification]
#[verifier::external_body]
pub struct ExPredefinedAcl(tame_gcs::common::PredefinedAcl);

#[verifier::external_type_specification]
#[verifier::external_body]
#[verifier::reject_recursive_types(B)]
pub struct ExMultipart<B>(tame_gcs::objects::Multipart<B>);

/// A predefined access control list for an uploaded object.
#[derive(Clone, Copy, Debug, PartialEq, Eq, Structural)]
pub enum Acl {
    ProjectPrivate,
    Private,
    PublicRead,
    AuthenticatedRead,
    BucketOwnerRead,
    BucketOwnerFullControl,
}

/// One end of a copy.
pub enum DataPath {
    /// A bucket, and possibly an object in it.
    Gs(GsUrl),
    /// A path on the local disk.
    Local(String),
}

/// Why a text names no end of a copy.
pub enum PathError {
    /// The text starts like an object-store URL but is no URL.
    InvalidUrl(url::ParseError),
    /// The URL names no bucket.
    Url(UrlError),
}

/// The start of every object-store URL.
pub open spec fn gs_prefix() -> Seq<char> {
    seq!['g', 's', ':', '/', '/']
}

/// `r` is what the parsed URL `parts` gives as an end of a copy: the bucket
/// and object it names, or the reason why it names none.
pub open spec fn locates(r: Result<DataPath, PathError>, parts: UrlParts) -> bool {
    match r {
        Ok(DataPath::Gs(id)) => {
            &&& names_bucket(&parts)
            &&& opt_text(parts.host) == Some(id.spec_bucket())
            &&& id.spec_object() == object_of_path(parts.path@)
            &&& id.wf()
        },
        Ok(DataPath::Local(_)) => false,
        Err(PathError::InvalidUrl(_)) => false,
        Err(PathError::Url(e)) => url_fault(e, &parts),
    }
}

impl DataPath {
    #[inline]
    pub fn is_local(&self) -> (r: bool)
        ensures
            r == (self is Local),
    {
        match self {
            DataPath::Local(_) => true,
            DataPath::Gs(_) => false,
        }
    }

    /// The end of a copy that a parsed object-store URL names.
    pub fn from_url(parts: &UrlParts) -> (r: Result<DataPath, PathError>)
        ensures
            locates(r, *parts),
    {
        match gs_url_to_object_id(parts) {
            Ok(id) => Ok(DataPath::Gs(id)),
            Err(e) => Err(PathError::Url(e)),
        }
    }

    /// Reads one end of a copy. A text that starts with `gs://` must be a URL
    /// that names a bucket; any other text is a local path, taken as it is.
    pub fn try_from(s: String) -> (r: Result<DataPath, PathError>)
        ensures
            !has_prefix(s@, gs_prefix()) ==> (r matches Ok(DataPath::Local(p)) && p == s),
            has_prefix(s@, gs_prefix()) ==> match url_parts(s@) {
                None => r matches Err(PathError::InvalidUrl(_)),
                Some(found) => exists|parts: UrlParts| parts.parts() == found && locates(r, parts),
            },
    {
        proof {
            reveal_strlit("gs://");
            assert("gs://"@ =~= gs_prefix());
        }
        if str_starts_with(s.as_str(), "gs://") {
            match parse_url(s.as_str()) {
                Ok(parts) => DataPath::from_url(&parts),
                Err(e) => Err(PathError::InvalidUrl(e)),
            }
        } else {
            Ok(DataPath::Local(s))
        }
    }
}

/// What a copy has to do.
pub enum CopyPlan {
    /// Read a local file and insert it into a bucket.
    Upload {
        /// The local file to read.
        source: String,
        /// The bucket to insert into.
        bucket: String,
        /// The name of the new object, where the destination gives one.
        name: Option<String>,
        /// The content encoding recorded with the object.
        content_encoding: String,
        /// The predefined access control list to apply, if any.
        predefined_acl: Option<Acl>,
    },
    /// Download an object and write it to a local file.
    Download {
        /// The bucket to read from.
        bucket: String,
        /// The object to download.
        object: String,
        /// The local file to write.
        destination: String,
    },
}

/// Why two paths allow no copy.
#[derive(Clone, Copy, Debug, PartialEq, Eq, Structural)]
pub enum CopyError {
    /// Source and destination are both on the local disk.
    BothLocal,
    /// Source and destination are both in the object store.
    BothRemote,
    /// The source names a bucket but no object.
    MissingSourceObject,
}

/// The content encoding recorded with every uploaded object.
pub open spec fn upload_encoding() -> Seq<char> {
    seq!['i', 'd', 'e', 'n', 't', 'i', 't', 'y']
}

/// The copy that leads from `src` to `dst`. Exactly one of the two must be
/// local. An upload takes the object's name from the destination and records
/// the content encoding `identity`; a download needs the source to name an
/// object.
pub fn plan(src: &DataPath, dst: &DataPath, predefined_acl: Option<Acl>) -> (r: Result<
    CopyPlan,
    CopyError,
>)
    ensures
        match (*src, *dst) {
            (DataPath::Local(_), DataPath::Local(_)) => r == Err::<CopyPlan, CopyError>(
                CopyError::BothLocal,
            ),
            (DataPath::Gs(_), DataPath::Gs(_)) => r == Err::<CopyPlan, CopyError>(
                CopyError::BothRemote,
            ),
            (DataPath::Local(from), DataPath::Gs(to)) => {
                &&& r matches Ok(
                    CopyPlan::Upload { source, bucket, name, content_encoding, predefined_acl: acl },
                )
                &&& source@ == from@
                &&& bucket@ == to.spec_bucket()
                &&& opt_text(name) == to.spec_object()
                &&& content_encoding@ == upload_encoding()
                &&& acl == predefined_acl
            },
            (DataPath::Gs(from), DataPath::Local(to)) => match from.spec_object() {
                None => r == Err::<CopyPlan, CopyError>(CopyError::MissingSourceObject),
                Some(o) => {
                    &&& r matches Ok(CopyPlan::Download { bucket, object, destination })
                    &&& bucket@ == from.spec_bucket()
                    &&& object@ == o
                    &&& destination@ == to@
                },
            },
        },
{
    match (src, dst) {
        (DataPath::Local(_), DataPath::Local(_)) => Err(CopyError::BothLocal),
        (DataPath::Gs(_), DataPath::Gs(_)) => Err(CopyError::BothRemote),
        (DataPath::Local(from), DataPath::Gs(to)) => {
            proof {
                reveal_strlit("identity");
                assert("identity"@ =~= upload_encoding());
            }
            let name: Option<String> = match to.object() {
                Some(o) => Some(o.clone()),
                None => None,
            };
            Ok(
                CopyPlan::Upload {
                    source: from.clone(),
                    bucket: to.bucket().clone(),
                    name,
                    content_encoding: String::from_str("identity"),
                    predefined_acl,
                },
            )
        },
        (DataPath::Gs(from), DataPath::Local(to)) => match from.object() {
            None => Err(CopyError::MissingSourceObject),
            Some(o) => Ok(
                CopyPlan::Download {
                    bucket: from.bucket().clone(),
                    object: o.clone(),
                    destination: to.clone(),
                },
            ),
        },
    }
}

impl CopyError {
    /// The error as a sentence.
    pub open spec fn spec_message(self) -> Seq<char> {
        match self {
            CopyError::BothLocal => "source and destination are both located on local disk"@,
            CopyError::BothRemote => "source and destination are both located on gcs"@,
            CopyError::MissingSourceObject => "must provide a full object name to copy from"@,
        }
    }

    pub fn message(self) -> (r: &'static str)
        ensures
            r@ == self.spec_message(),
    {
        match self {
            CopyError::BothLocal => "source and destination are both located on local disk",
            CopyError::BothRemote => "source and destination are both located on gcs",
            CopyError::MissingSourceObject => "must provide a full object name to copy from",
        }
    }
}

/// The predefined access control list of `tame_gcs` that stands for one of
/// the library's.
pub uninterp spec fn predefined_acl(acl: Acl) -> tame_gcs::common::PredefinedAcl;

/// The predefined access control list of `tame_gcs` of the same name. The
/// contract gives it a name and says that no other of the library's lists
/// has the same.
#[verifier::external_body]
fn predefined(acl: Acl) -> (r: tame_gcs::common::PredefinedAcl)
    ensures
        r == predefined_acl(acl),
        forall|other: Acl| r == #[trigger] predefined_acl(other) ==> other == acl,
{
    match acl {
        Acl::ProjectPrivate => tame_gcs::common::PredefinedAcl::ProjectPrivate,
        Acl::Private => tame_gcs::common::PredefinedAcl::Private,
        Acl::PublicRead => tame_gcs::common::PredefinedAcl::PublicRead,
        Acl::AuthenticatedRead => tame_gcs::common::PredefinedAcl::AuthenticatedRead,
        Acl::BucketOwnerRead => tame_gcs::common::PredefinedAcl::BucketOwnerRead,
        Acl::BucketOwnerFullControl => tame_gcs::common::PredefinedAcl::BucketOwnerFullControl,
    }
}

/// The request by which the object store `obj` is asked for the content of
/// the named object, or the reason why there is none: what
/// `Object::download` of `tame_gcs` makes of the two names, without optional
/// parameters.
pub uninterp spec fn download_request(
    obj: tame_gcs::objects::Object,
    bucket: Seq<char>,
    object: Seq<char>,
) -> Result<tame_gcs::http::Request<std::io::Empty>, tame_gcs::Error>;

/// `Object::download` of `tame_gcs` without optional parameters, for the
/// names as `BucketName::try_from` and `ObjectName::try_from` read them. The
/// contract only gives the outcome a name: it depends on the store and the
/// two names alone.
#[verifier::external_body]
fn object_download(obj: &tame_gcs::objects::Object, bucket: &str, object: &str) -> (r: Result<
    tame_gcs::http::Request<std::io::Empty>,
    tame_gcs::Error,
>)
    ensures
        r == download_request(*obj, bucket@, object@),
{
    let bucket = tame_gcs::BucketName::try_from(bucket)?;
    let object = tame_gcs::ObjectName::try_from(object)?;
    obj.download(&(&bucket, &object), None)
}

/// The longest content, in bytes, that one upload carries. The length of the
/// whole request body, which the object store reckons from it, then fits in
/// 64 bits.
pub const MAX_UPLOAD_LENGTH: u64 = 4611686018427387904;

/// Whether the object store `obj` makes a request that inserts content of
/// this length into the bucket, under this name, content encoding and
/// predefined access control list: whether `Object::insert_multipart` of
/// `tame_gcs` accepts them.
pub uninterp spec fn upload_accepted(
    obj: tame_gcs::objects::Object,
    bucket: Seq<char>,
    name: Option<Seq<char>>,
    content_encoding: Seq<char>,
    acl: Option<tame_gcs::common::PredefinedAcl>,
    length: u64,
) -> bool;

/// `Object::insert_multipart` of `tame_gcs`, for the bucket as
/// `BucketName::try_from` reads it, with metadata that holds the name and the
/// content encoding and nothing else, and with no other optional parameter
/// than the predefined access control list. Whether it accepts depends on
/// these alone, not on the content; the request wraps the content and is not
/// named. It adds the length to that of the metadata without a check.
#[verifier::external_body]
fn object_insert<B>(
    obj: &tame_gcs::objects::Object,
    bucket: &str,
    name: Option<String>,
    content_encoding: String,
    acl: Option<tame_gcs::common::PredefinedAcl>,
    content: B,
    length: u64,
) -> (r: Result<tame_gcs::http::Request<tame_gcs::objects::Multipart<B>>, tame_gcs::Error>)
    requires
        length <= MAX_UPLOAD_LENGTH,
    ensures
        (r is Ok) <==> upload_accepted(
            *obj,
            bucket@,
            opt_text(name),
            content_encoding@,
            acl,
            length,
        ),
{
    let bucket = tame_gcs::BucketName::try_from(bucket)?;
    let metadata = tame_gcs::objects::Metadata {
        name,
        content_encoding: Some(content_encoding),
        ..Default::default()
    };
    let optional = acl.map(|predefined_acl| tame_gcs::objects::InsertObjectOptional {
        predefined_acl: Some(predefined_acl),
        ..Default::default()
    });
    obj.insert_multipart(&bucket, content, length, &metadata, optional)
}

/// Why there is no request for an upload.
#[derive(Debug)]
pub enum UploadError {
    /// The content is longer than one upload carries.
    TooLong,
    /// The object store made no request.
    Refused(tame_gcs::Error),
}

/// The predefined access control list of `tame_gcs` that stands for an
/// optional one of the library's.
pub open spec fn opt_predefined(acl: Option<Acl>) -> Option<tame_gcs::common::PredefinedAcl> {
    match acl {
        Some(acl) => Some(predefined_acl(acl)),
        None => None,
    }
}

impl CopyPlan {
    /// The request that carries out a download: the one that the object
    /// store makes for the plan's bucket and object. An upload has none.
    pub fn download_request(&self, obj: &tame_gcs::objects::Object) -> (r: Option<
        Result<tame_gcs::http::Request<std::io::Empty>, tame_gcs::Error>,
    >)
        ensures
            match *self {
                CopyPlan::Download { bucket, object, .. } => r == Some(
                    download_request(*obj, bucket@, object@),
                ),
                CopyPlan::Upload { .. } => r is None,
            },
    {
        match self {
            CopyPlan::Download { bucket, object, .. } => Some(
                object_download(obj, bucket.as_str(), object.as_str()),
            ),
            CopyPlan::Upload { .. } => None,
        }
    }

    /// The request that carries out an upload of `length` bytes of content:
    /// the one that the object store makes for the plan's bucket, name,
    /// content encoding and access control list, around the content. Content
    /// that is too long has none, and neither has a download.
    pub fn upload_request<B>(&self, obj: &tame_gcs::objects::Object, content: B, length: u64) -> (r:
        Option<Result<tame_gcs::http::Request<tame_gcs::objects::Multipart<B>>, UploadError>>)
        ensures
            match *self {
                CopyPlan::Upload { bucket, name, content_encoding, predefined_acl, .. } => {
                    &&& r matches Some(made)
                    &&& (made matches Err(UploadError::TooLong)) <==> length > MAX_UPLOAD_LENGTH
                    &&& (made is Ok) <==> length <= MAX_UPLOAD_LENGTH && upload_accepted(
                        *obj,
                        bucket@,
                        opt_text(name),
                        content_encoding@,
                        opt_predefined(predefined_acl),
                        length,
                    )
                },
                CopyPlan::Download { .. } => r is None,
            },
    {
        match self {
            CopyPlan::Upload { bucket, name, content_encoding, predefined_acl, .. } => {
                if length > MAX_UPLOAD_LENGTH {
                    return Some(Err(UploadError::TooLong));
                }
                let acl = match predefined_acl {
                    Some(acl) => Some(predefined(*acl)),
                    None => None,
                };
                Some(
                    match object_insert(
                        obj,
                        bucket.as_str(),
                        name.clone(),
                        content_encoding.clone(),
                        acl,
                        content,
                        length,
                    ) {
                        Ok(request) => Ok(request),
                        Err(e) => Err(UploadError::Refused(e)),
                    },
                )
            },
            CopyPlan::Download { .. } => None,
        }
    }
}

} // verus!
