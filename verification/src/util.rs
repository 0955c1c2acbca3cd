//! Addresses of buckets and objects: what a `gs://` URL names, and which
//! bucket and object names the object store accepts.

use vstd::prelude::*;
use vstd::string::*;
use vstd::utf8::encode_utf8;
use crate::text::{has_infix, has_prefix, str_eq};

verus! {

#[verifier::external_type_specification]
#[verifier::external_body]
pub struct ExGcsError(tame_gcs::Error);

#[verifier::external_type_specification]
#[verifier::external_body]
pub struct ExUrlParseError(url::ParseError);

#[verifier::external_type_specification]
#[verifier::external_body]
pub struct ExObject(tame_gcs::objects::Object);

#[verifier::external_type_specification]
#[verifier::external_body]
pub struct ExEmpty(std::io::Empty);

/// The character at position `i` may stand there in a bucket name: a lower
/// case ASCII letter or a digit anywhere, a dash, an underscore or a dot
/// anywhere but at either end.
pub open spec fn bucket_char_ok(s: Seq<char>, i: int) -> bool {
    let c = s[i];
    ('a' <= c && c <= 'z') || ('0' <= c && c <= '9') || ((c == '-' || c == '_' || c == '.') && 0 < i
        && i < s.len() - 1)
}

/// The bucket names that the object store's naming rules accept: 3 to 63
/// characters, each allowed at its place, not starting with `goog` and
/// holding neither `google` nor `g00gle`.
pub open spec fn valid_bucket_name(s: Seq<char>) -> bool {
    &&& 3 <= s.len() <= 63
    &&& forall|i: int| 0 <= i < s.len() ==> #[trigger] bucket_char_ok(s, i)
    &&& !has_prefix(s, seq!['g', 'o', 'o', 'g'])
    &&& !has_infix(s, seq!['g', 'o', 'o', 'g', 'l', 'e'])
    &&& !has_infix(s, seq!['g', '0', '0', 'g', 'l', 'e'])
}

/// A character that may stand in an object name: no line break, none of
/// `# [ ] * ?`, and no control character from U+007F to U+0084 or from
/// U+0086 to U+009F.
pub open spec fn object_char_ok(c: char) -> bool {
    &&& c != '\r' && c != '\n'
    &&& c != '#' && c != '[' && c != ']' && c != '*' && c != '?'
    &&& !('\u{7F}' <= c && c <= '\u{84}')
    &&& !('\u{86}' <= c && c <= '\u{9F}')
}

/// The object names that the object store's naming rules accept: 1 to 1024
/// bytes of UTF-8, not `.` and not `...`, only allowed characters, and not
/// starting with `.well-known/acme-challenge`.
pub open spec fn valid_object_name(s: Seq<char>) -> bool {
    &&& 1 <= encode_utf8(s).len() <= 1024
    &&& s != seq!['.']
    &&& s != seq!['.', '.', '.']
    &&& forall|i: int| 0 <= i < s.len() ==> object_char_ok(#[trigger] s[i])
    &&& !has_prefix(s, ".well-known/acme-challenge"@)
}

/// `tame_gcs::BucketName::try_from` on a string slice. It accepts exactly
/// the names of `valid_bucket_name` and says why it refuses another.
#[verifier::external_body]
fn check_bucket_name(name: &str) -> (r: Result<(), tame_gcs::Error>)
    ensures
        r is Ok <==> valid_bucket_name(name@),
{
    match tame_gcs::BucketName::try_from(name) {
        Ok(_) => Ok(()),
        Err(e) => Err(e),
    }
}

/// `tame_gcs::ObjectName::try_from` on a string slice. It accepts exactly
/// the names of `valid_object_name`.
#[verifier::external_body]
fn object_name_accepted(name: &str) -> (ok: bool)
    ensures
        ok == valid_object_name(name@),
{
    tame_gcs::ObjectName::try_from(name).is_ok()
}

/// What addressing reads of a parsed URL.
pub struct UrlParts {
    /// The scheme, lower-cased, without the colon.
    pub scheme: String,
    /// The host, where the URL has one.
    pub host: Option<String>,
    /// The path, percent-encoded.
    pub path: String,
}

/// The scheme, host and path that `url::Url::parse` finds in a text, or
/// `None` where it refuses the text.
pub uninterp spec fn url_parts(text: Seq<char>) -> Option<(Seq<char>, Option<Seq<char>>, Seq<char>)>;

/// The view of an optional string.
pub open spec fn opt_text(s: Option<String>) -> Option<Seq<char>> {
    match s {
        Some(t) => Some(t@),
        None => None,
    }
}

impl UrlParts {
    /// The three parts as character sequences.
    pub open spec fn parts(&self) -> (Seq<char>, Option<Seq<char>>, Seq<char>) {
        (self.scheme@, opt_text(self.host), self.path@)
    }

    /// Parses an absolute URL and keeps its scheme, host and path.
    pub fn parse(text: &str) -> (r: Result<UrlParts, url::ParseError>)
        ensures
            match r {
                Ok(p) => url_parts(text@) == Some(p.parts()),
                Err(_) => url_parts(text@) is None,
            },
    {
        parse_url(text)
    }
}

/// `url::Url::parse`, with the scheme, the host and the path of the parsed
/// URL copied out by `scheme`, `host_str` and `path`. The contract only gives
/// the outcome a name: parsing depends on the text alone.
#[verifier::external_body]
pub(crate) fn parse_url(text: &str) -> (r: Result<UrlParts, url::ParseError>)
    ensures
        match r {
            Ok(p) => url_parts(text@) == Some(p.parts()),
            Err(_) => url_parts(text@) is None,
        },
{
    let url = url::Url::parse(text)?;
    Ok(
        UrlParts {
            scheme: url.scheme().to_owned(),
            host: url.host_str().map(String::from),
            path: url.path().to_owned(),
        },
    )
}

/// A bucket, and possibly an object in it.
pub struct GsUrl {
    bucket_name: String,
    obj_name: Option<String>,
}

/// Why a URL names no bucket.
pub enum UrlError {
    /// The scheme is not `gs`; the scheme found is given.
    InvalidScheme(String),
    /// The URL has no host, so no bucket.
    NoBucket,
    /// The host is not an acceptable bucket name; the reason is given.
    InvalidBucket(tame_gcs::Error),
}

impl GsUrl {
    /// The bucket's name.
    pub closed spec fn spec_bucket(&self) -> Seq<char> {
        self.bucket_name@
    }

    /// The object's name, where there is one.
    pub closed spec fn spec_object(&self) -> Option<Seq<char>> {
        opt_text(self.obj_name)
    }

    /// Both names are acceptable to the object store.
    pub open spec fn wf(&self) -> bool {
        &&& valid_bucket_name(self.spec_bucket())
        &&& self.spec_object() matches Some(o) ==> valid_object_name(o)
    }

    pub fn bucket(&self) -> (r: &String)
        ensures
            r@ == self.spec_bucket(),
    {
        &self.bucket_name
    }

    pub fn object(&self) -> (r: Option<&String>)
        ensures
            match r {
                Some(o) => self.spec_object() == Some(o@),
                None => self.spec_object() is None,
            },
    {
        self.obj_name.as_ref()
    }
}

/// The object name that a URL's path gives: the path without its leading
/// slash, where that is an acceptable object name.
pub open spec fn object_of_path(path: Seq<char>) -> Option<Seq<char>> {
    let name = if path.len() == 0 {
        path
    } else {
        path.skip(1)
    };
    if valid_object_name(name) {
        Some(name)
    } else {
        None
    }
}

/// The scheme of object-store URLs.
pub open spec fn gs_scheme() -> Seq<char> {
    seq!['g', 's']
}

/// The URL names a bucket: its scheme is `gs` and its host is an acceptable
/// bucket name.
pub open spec fn names_bucket(url: &UrlParts) -> bool {
    &&& url.scheme@ == gs_scheme()
    &&& url.host matches Some(h) && valid_bucket_name(h@)
}

/// The URL names an object: it names a bucket, and its path gives an object
/// name.
pub open spec fn names_object(url: &UrlParts) -> bool {
    names_bucket(url) && object_of_path(url.path@) is Some
}

/// `e` says truly why the URL names no bucket. The scheme is judged first,
/// then the host.
pub open spec fn url_fault(e: UrlError, url: &UrlParts) -> bool {
    match e {
        UrlError::InvalidScheme(s) => url.scheme@ != gs_scheme() && s@ == url.scheme@,
        UrlError::NoBucket => url.scheme@ == gs_scheme() && url.host is None,
        UrlError::InvalidBucket(_) => {
            &&& url.scheme@ == gs_scheme()
            &&& url.host matches Some(h) && !valid_bucket_name(h@)
        },
    }
}

/// Converts the parts of a `gs://<bucket_name>/<object_name>` URL into a
/// bucket and object identifier. The host is the bucket; the path, without
/// its leading slash, is the object, and is left out where it is not an
/// acceptable object name.
pub fn gs_url_to_object_id(url: &UrlParts) -> (r: Result<GsUrl, UrlError>)
    ensures
        match r {
            Ok(id) => {
                &&& names_bucket(url)
                &&& opt_text(url.host) == Some(id.spec_bucket())
                &&& id.spec_object() == object_of_path(url.path@)
                &&& id.wf()
            },
            Err(e) => url_fault(e, url),
        },
{
    proof {
        reveal_strlit("gs");
        assert("gs"@ =~= gs_scheme());
    }
    if !str_eq(url.scheme.as_str(), "gs") {
        return Err(UrlError::InvalidScheme(url.scheme.clone()));
    }
    let bucket_name: &String = match &url.host {
        Some(h) => h,
        None => {
            return Err(UrlError::NoBucket);
        },
    };
    let path: &str = url.path.as_str();
    let n: usize = path.unicode_len();
    let object_name: &str = if n == 0 {
        path
    } else {
        path.substring_char(1, n)
    };
    if let Err(e) = check_bucket_name(bucket_name.as_str()) {
        return Err(UrlError::InvalidBucket(e));
    }
    let obj_name: Option<String> = if object_name_accepted(object_name) {
        Some(String::from_str(object_name))
    } else {
        None
    };
    Ok(GsUrl { bucket_name: bucket_name.clone(), obj_name })
}

/// A bucket and an object in it.
pub struct ObjectRef {
    /// The bucket's name.
    pub bucket: String,
    /// The object's name.
    pub object: String,
}

/// Why a URL names no object.
pub enum ObjectError {
    /// The URL names no bucket.
    Url(UrlError),
    /// The URL names a bucket, but its path is no acceptable object name.
    MissingObject,
}

impl GsUrl {
    /// The object that the identifier names, where it names one.
    pub fn object_ref(&self) -> (r: Option<ObjectRef>)
        ensures
            match self.spec_object() {
                Some(o) => r matches Some(found) && found.bucket@ == self.spec_bucket()
                    && found.object@ == o,
                None => r is None,
            },
    {
        match &self.obj_name {
            Some(o) => Some(ObjectRef { bucket: self.bucket_name.clone(), object: o.clone() }),
            None => None,
        }
    }
}

/// `e` says truly why the URL names no object.
pub open spec fn object_fault(e: ObjectError, url: &UrlParts) -> bool {
    match e {
        ObjectError::Url(e) => url_fault(e, url),
        ObjectError::MissingObject => names_bucket(url) && object_of_path(url.path@) is None,
    }
}

/// The object that the parts of a `gs://<bucket_name>/<object_name>` URL
/// name, for the operations that need one.
pub fn object_at(url: &UrlParts) -> (r: Result<ObjectRef, ObjectError>)
    ensures
        match r {
            Ok(found) => {
                &&& names_object(url)
                &&& opt_text(url.host) == Some(found.bucket@)
                &&& object_of_path(url.path@) == Some(found.object@)
            },
            Err(e) => object_fault(e, url),
        },
{
    match gs_url_to_object_id(url) {
        Ok(id) => match id.object_ref() {
            Some(found) => Ok(found),
            None => Err(ObjectError::MissingObject),
        },
        Err(e) => Err(ObjectError::Url(e)),
    }
}

impl UrlError {
    /// The error as a sentence, where the error does not bring its own.
    pub open spec fn spec_message(&self) -> Option<Seq<char>> {
        match self {
            UrlError::InvalidScheme(scheme) => Some("invalid url scheme: "@ + scheme@),
            UrlError::NoBucket => Some("no bucket specified"@),
            UrlError::InvalidBucket(_) => None,
        }
    }

    pub fn message(&self) -> (r: Option<String>)
        ensures
            opt_text(r) == self.spec_message(),
    {
        match self {
            UrlError::InvalidScheme(scheme) => {
                let mut text = String::from_str("invalid url scheme: ");
                text.append(scheme.as_str());
                Some(text)
            },
            UrlError::NoBucket => Some(String::from_str("no bucket specified")),
            UrlError::InvalidBucket(_) => None,
        }
    }
}

impl ObjectError {
    /// The error as a sentence, where the error does not bring its own.
    pub open spec fn spec_message(&self) -> Option<Seq<char>> {
        match self {
            ObjectError::Url(e) => e.spec_message(),
            ObjectError::MissingObject => Some("invalid object name specified"@),
        }
    }

    pub fn message(&self) -> (r: Option<String>)
        ensures
            opt_text(r) == self.spec_message(),
    {
        match self {
            ObjectError::Url(e) => e.message(),
            ObjectError::MissingObject => Some(String::from_str("invalid object name specified")),
        }
    }
}

/// Why there is no request for the object at a URL.
pub enum RequestError {
    /// The URL names no object.
    Address(ObjectError),
    /// The request could not be put together.
    Refused(tame_gcs::Error),
}

/// `e` says truly why there is no request for the object at the URL. A
/// request is refused only for a URL that names an object.
pub open spec fn request_fault(e: RequestError, url: &UrlParts) -> bool {
    match e {
        RequestError::Address(e) => object_fault(e, url),
        RequestError::Refused(_) => names_object(url),
    }
}

} // verus!
