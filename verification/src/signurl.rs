//! Signed URLs: the method a URL is signed for, the duration it stays valid,
//! what is handed to the signer, and when signing is refused.

use vstd::prelude::*;
use vstd::string::*;
use vstd::utf8::encode_utf8;
use crate::text::{decimal_text, decimal_u64, has_infix, has_prefix, pair_texts, parse_decimal_u64};
use crate::transport::ROOM_FOR_HEADERS;
use crate::util::{opt_text, GsUrl};

verus! {

/// The HTTP method a signed URL is valid for, or the marker for a resumable
/// upload.
#[derive(Clone, Copy, Debug, PartialEq, Eq, Structural)]
pub enum Method {
    Get,
    Post,
    Put,
    Delete,
    Head,
    Options,
    Connect,
    Patch,
    Trace,
    Resumable,
}

/// How long a signed URL stays valid, in whole seconds.
#[derive(Clone, Copy, Debug, PartialEq, Eq, Structural)]
pub struct Dur {
    pub secs: u64,
}

/// Why a duration text was refused.
#[derive(Clone, Debug)]
pub enum DurError {
    /// The text before the unit is not an unsigned decimal number.
    InvalidNumber,
    /// The unit is none of `s`, `m`, `h`, `d` (in either case).
    UnknownSuffix(String),
    /// The duration does not fit in 64 bits of seconds.
    TooLong,
}

/// Whether a character is alphabetic in the sense of Unicode, as
/// `char::is_alphabetic` reports it.
pub uninterp spec fn alphabetic(c: char) -> bool;

/// A letter of ASCII, in either case.
pub open spec fn ascii_letter(c: char) -> bool {
    ('a' <= c && c <= 'z') || ('A' <= c && c <= 'Z')
}

/// A character with which the unit of a duration may begin: among the
/// characters of ASCII the letters, among all others those that Unicode
/// calls alphabetic.
pub open spec fn letter(c: char) -> bool {
    if c <= '\x7f' {
        ascii_letter(c)
    } else {
        alphabetic(c)
    }
}

/// `char::is_alphabetic` of std. The contract gives the answer a name, for
/// the same character always gets the same answer, and says what it is for
/// the characters of ASCII: the letters are alphabetic and nothing else is.
#[verifier::external_body]
fn is_alphabetic(c: char) -> (r: bool)
    ensures
        r == alphabetic(c),
        c <= '\x7f' ==> r == ascii_letter(c),
{
    c.is_alphabetic()
}

/// The position of the first letter of `s` at or after `from`, or the length
/// of `s` where there is none.
pub open spec fn first_alphabetic(s: Seq<char>, from: int) -> int
    decreases s.len() - from,
{
    if from < 0 || from >= s.len() {
        s.len() as int
    } else if letter(s[from]) {
        from
    } else {
        first_alphabetic(s, from + 1)
    }
}

/// The number of seconds in one unit, for the units a duration may carry.
pub open spec fn unit_seconds(suffix: Seq<char>) -> Option<nat> {
    if suffix.len() != 1 {
        None
    } else if suffix[0] == 's' || suffix[0] == 'S' {
        Some(1)
    } else if suffix[0] == 'm' || suffix[0] == 'M' {
        Some(60)
    } else if suffix[0] == 'h' || suffix[0] == 'H' {
        Some(3600)
    } else if suffix[0] == 'd' || suffix[0] == 'D' {
        Some(86400)
    } else {
        None
    }
}

/// `r` is the reading of a duration whose number is written `number` and
/// whose unit is written `suffix`. The number is judged first.
pub open spec fn reads_as(r: Result<Dur, DurError>, number: Seq<char>, suffix: Seq<char>) -> bool {
    match (decimal_u64(number), unit_seconds(suffix)) {
        (None, _) => r == Err::<Dur, DurError>(DurError::InvalidNumber),
        (Some(_), None) => r matches Err(DurError::UnknownSuffix(t)) && t@ == suffix,
        (Some(n), Some(unit)) => if n * unit <= u64::MAX {
            r == Ok::<Dur, DurError>(Dur { secs: (n * unit) as u64 })
        } else {
            r == Err::<Dur, DurError>(DurError::TooLong)
        },
    }
}

/// The unit that a duration text carries: everything from its first
/// alphabetic character on, or hours where it has none.
pub open spec fn suffix_of(s: Seq<char>) -> Seq<char> {
    let k = first_alphabetic(s, 0);
    if k == s.len() {
        seq!['h']
    } else {
        s.skip(k)
    }
}

impl Dur {
    /// Reads a duration from its number and its unit.
    pub fn from_parts(number: &str, suffix: &str) -> (r: Result<Dur, DurError>)
        ensures
            reads_as(r, number@, suffix@),
    {
        let n: u64 = match parse_decimal_u64(number) {
            Some(n) => n,
            None => {
                return Err(DurError::InvalidNumber);
            },
        };
        let unit: u64 = if suffix.unicode_len() != 1 {
            0
        } else {
            let c: char = suffix.get_char(0);
            if c == 's' || c == 'S' {
                1
            } else if c == 'm' || c == 'M' {
                60
            } else if c == 'h' || c == 'H' {
                3600
            } else if c == 'd' || c == 'D' {
                86400
            } else {
                0
            }
        };
        if unit == 0 {
            return Err(DurError::UnknownSuffix(String::from_str(suffix)));
        }
        match n.checked_mul(unit) {
            Some(secs) => Ok(Dur { secs }),
            None => Err(DurError::TooLong),
        }
    }

    /// Reads a duration such as `30s`, `5m`, `2h` or `1d`. The number runs up
    /// to the first alphabetic character; the rest is the unit. A text without
    /// a unit counts hours.
    pub fn from_str(src: &str) -> (r: Result<Dur, DurError>)
        ensures
            reads_as(r, src@.take(first_alphabetic(src@, 0)), suffix_of(src@)),
    {
        let n: usize = src.unicode_len();
        let mut k: usize = 0;
        while k < n && !is_alphabetic(src.get_char(k))
            invariant
                n == src@.len(),
                k <= n,
                first_alphabetic(src@, 0) == first_alphabetic(src@, k as int),
            decreases n - k,
        {
            k = k + 1;
        }
        let number: &str = src.substring_char(0, k);
        if k == n {
            proof {
                reveal_strlit("h");
                assert("h"@ =~= seq!['h']);
            }
            Dur::from_parts(number, "h")
        } else {
            Dur::from_parts(number, src.substring_char(k, n))
        }
    }
}

#[verifier::external_type_specification]
#[verifier::external_body]
pub struct ExServiceAccount(tame_gcs::signing::ServiceAccount);

#[verifier::external_type_specification]
#[verifier::external_body]
pub struct ExSignedUrlOptional<'a>(tame_gcs::signed_url::SignedUrlOptional<'a>);

/// An HTTP request method.
#[derive(Clone, Copy, Debug, PartialEq, Eq, Structural)]
pub enum HttpMethod {
    Get,
    Post,
    Put,
    Delete,
    Head,
    Options,
    Connect,
    Patch,
    Trace,
}

impl HttpMethod {
    /// The method's name as it stands in a request line.
    pub open spec fn spec_name(self) -> Seq<char> {
        match self {
            HttpMethod::Get => seq!['G', 'E', 'T'],
            HttpMethod::Post => seq!['P', 'O', 'S', 'T'],
            HttpMethod::Put => seq!['P', 'U', 'T'],
            HttpMethod::Delete => seq!['D', 'E', 'L', 'E', 'T', 'E'],
            HttpMethod::Head => seq!['H', 'E', 'A', 'D'],
            HttpMethod::Options => seq!['O', 'P', 'T', 'I', 'O', 'N', 'S'],
            HttpMethod::Connect => seq!['C', 'O', 'N', 'N', 'E', 'C', 'T'],
            HttpMethod::Patch => seq!['P', 'A', 'T', 'C', 'H'],
            HttpMethod::Trace => seq!['T', 'R', 'A', 'C', 'E'],
        }
    }

    pub fn name(self) -> (r: &'static str)
        ensures
            r@ == self.spec_name(),
    {
        proof {
            reveal_strlit("GET");
            reveal_strlit("POST");
            reveal_strlit("PUT");
            reveal_strlit("DELETE");
            reveal_strlit("HEAD");
            reveal_strlit("OPTIONS");
            reveal_strlit("CONNECT");
            reveal_strlit("PATCH");
            reveal_strlit("TRACE");
        }
        let r: &'static str = match self {
            HttpMethod::Get => "GET",
            HttpMethod::Post => "POST",
            HttpMethod::Put => "PUT",
            HttpMethod::Delete => "DELETE",
            HttpMethod::Head => "HEAD",
            HttpMethod::Options => "OPTIONS",
            HttpMethod::Connect => "CONNECT",
            HttpMethod::Patch => "PATCH",
            HttpMethod::Trace => "TRACE",
        };
        assert(r@ =~= self.spec_name());
        r
    }
}

impl Method {
    /// The HTTP method that the URL is signed for. The start of a resumable
    /// upload is a POST.
    pub open spec fn spec_http(self) -> HttpMethod {
        match self {
            Method::Get => HttpMethod::Get,
            Method::Post => HttpMethod::Post,
            Method::Put => HttpMethod::Put,
            Method::Delete => HttpMethod::Delete,
            Method::Head => HttpMethod::Head,
            Method::Options => HttpMethod::Options,
            Method::Connect => HttpMethod::Connect,
            Method::Patch => HttpMethod::Patch,
            Method::Trace => HttpMethod::Trace,
            Method::Resumable => HttpMethod::Post,
        }
    }

    pub fn http(self) -> (r: HttpMethod)
        ensures
            r == self.spec_http(),
    {
        match self {
            Method::Get => HttpMethod::Get,
            Method::Post => HttpMethod::Post,
            Method::Put => HttpMethod::Put,
            Method::Delete => HttpMethod::Delete,
            Method::Head => HttpMethod::Head,
            Method::Options => HttpMethod::Options,
            Method::Connect => HttpMethod::Connect,
            Method::Patch => HttpMethod::Patch,
            Method::Trace => HttpMethod::Trace,
            Method::Resumable => HttpMethod::Post,
        }
    }

    /// Whether the URL starts a resumable upload.
    pub fn is_resumable(self) -> (r: bool)
        ensures
            r == (self == Method::Resumable),
    {
        match self {
            Method::Resumable => true,
            _ => false,
        }
    }
}

/// A byte that may stand in a header value: a tab, or anything from the
/// space on but the delete character.
pub open spec fn header_byte_ok(b: u8) -> bool {
    (b >= 32 && b != 127) || b == 9
}

/// The texts that can be header values: every byte of their UTF-8 form may
/// stand in one.
pub open spec fn valid_header_text(s: Seq<char>) -> bool {
    forall|i: int| 0 <= i < encode_utf8(s).len() ==> header_byte_ok(#[trigger] encode_utf8(s)[i])
}

/// The longest time, in seconds, for which a URL can be signed: seven days.
pub const MAX_SIGNED_SECS: u64 = 604800;

/// Everything that the signer is handed besides the key.
pub struct SignRequest {
    /// The bucket that holds the object.
    pub bucket: String,
    /// The object that the URL gives access to.
    pub object: String,
    /// The HTTP method that the URL is valid for.
    pub method: HttpMethod,
    /// The content type that the URL is valid for, if it is bound to one.
    pub content_type: Option<String>,
    /// Whether the URL starts a resumable upload.
    pub resumable: bool,
    /// How long the URL stays valid, in seconds.
    pub secs: u64,
}

/// Why no URL was signed.
pub enum SignError {
    /// The service account key cannot be read.
    InvalidKey(tame_gcs::Error),
    /// The content type cannot be a header value.
    InvalidContentType,
    /// The address names a bucket but no object.
    MissingObject,
    /// The URL would be valid for no time at all.
    ZeroDuration,
    /// The signer refused the request.
    Refused(tame_gcs::Error),
}

/// The headers that are signed besides the host: the content type, where the
/// URL is bound to one, and the marker that starts a resumable upload.
pub open spec fn signed_headers(content_type: Option<Seq<char>>, resumable: bool) -> Seq<
    (Seq<char>, Seq<char>),
> {
    let bound = match content_type {
        Some(t) => seq![("content-type"@, t)],
        None => Seq::<(Seq<char>, Seq<char>)>::empty(),
    };
    if resumable {
        bound.push(("x-goog-resumable"@, "start"@))
    } else {
        bound
    }
}

impl SignRequest {
    /// The headers to sign besides the host.
    pub fn headers(&self) -> (r: Vec<(String, String)>)
        ensures
            pair_texts(r@) == signed_headers(opt_text(self.content_type), self.resumable),
    {
        let mut r: Vec<(String, String)> = Vec::new();
        match &self.content_type {
            Some(t) => {
                r.push((String::from_str("content-type"), t.clone()));
            },
            None => {},
        }
        if self.resumable {
            r.push((String::from_str("x-goog-resumable"), String::from_str("start")));
        }
        assert(pair_texts(r@) =~= signed_headers(opt_text(self.content_type), self.resumable));
        r
    }
}

/// `r` is what the signer is to be handed for these inputs, or the reason
/// why it is handed nothing. The content type is judged first, then the
/// address, then the duration.
pub open spec fn prepares(
    r: Result<SignRequest, SignError>,
    id: &GsUrl,
    method: Method,
    content_type: Option<Seq<char>>,
    duration: Dur,
) -> bool {
    if content_type matches Some(t) && !valid_header_text(t) {
        r matches Err(SignError::InvalidContentType)
    } else if id.spec_object() is None {
        r matches Err(SignError::MissingObject)
    } else if duration.secs == 0 {
        r matches Err(SignError::ZeroDuration)
    } else {
        &&& r matches Ok(request)
        &&& request.bucket@ == id.spec_bucket()
        &&& Some(request.object@) == id.spec_object()
        &&& request.method == method.spec_http()
        &&& opt_text(request.content_type) == content_type
        &&& request.resumable == (method == Method::Resumable)
        &&& request.secs == duration.secs
    }
}

/// `HeaderValue::from_str` of `http`: it accepts exactly the texts whose
/// bytes may all stand in a header value.
#[verifier::external_body]
fn header_value_accepted(text: &str) -> (ok: bool)
    ensures
        ok == valid_header_text(text@),
{
    tame_gcs::http::HeaderValue::from_str(text).is_ok()
}

/// Puts together what the signer is handed. Signing needs a content type
/// that can be a header value, an address with an object, and a duration of
/// at least one second.
pub fn prepare(id: &GsUrl, method: Method, content_type: Option<&str>, duration: Dur) -> (r: Result<
    SignRequest,
    SignError,
>)
    ensures
        prepares(
            r,
            id,
            method,
            match content_type {
                Some(t) => Some(t@),
                None => None,
            },
            duration,
        ),
{
    let content_type: Option<String> = match content_type {
        Some(t) => {
            if !header_value_accepted(t) {
                return Err(SignError::InvalidContentType);
            }
            Some(String::from_str(t))
        },
        None => None,
    };
    let object: String = match id.object() {
        Some(o) => o.clone(),
        None => {
            return Err(SignError::MissingObject);
        },
    };
    if duration.secs == 0 {
        return Err(SignError::ZeroDuration);
    }
    Ok(
        SignRequest {
            bucket: id.bucket().clone(),
            object,
            method: method.http(),
            content_type,
            resumable: method.is_resumable(),
            secs: duration.secs,
        },
    )
}

/// Whether a credentials document holds a service account's key that can be
/// read: whether `ServiceAccount::load_json` of `tame_gcs` accepts its bytes.
pub uninterp spec fn key_loads(key_json: Seq<u8>) -> bool;

/// `ServiceAccount::load_json` of `tame_gcs`: reads the key and the account
/// from a service account's credentials document. The contract only gives
/// the verdict a name: it depends on the bytes alone.
#[verifier::external_body]
fn load_account(key_json: &[u8]) -> (r: Result<tame_gcs::signing::ServiceAccount, tame_gcs::Error>)
    ensures
        (r is Ok) <==> key_loads(key_json@),
{
    tame_gcs::signing::ServiceAccount::load_json(key_json)
}

/// The name of the method that the signer's options hold.
pub uninterp spec fn options_method(options: tame_gcs::signed_url::SignedUrlOptional<'static>) -> Seq<
    char,
>;

/// The headers that the signer's options hold: for each header name, in
/// lower case, the text of its value.
pub uninterp spec fn options_headers(
    options: tame_gcs::signed_url::SignedUrlOptional<'static>,
) -> Map<Seq<char>, Seq<char>>;

/// The host, and the port if one is given, under which the signer's options
/// address the object store.
pub uninterp spec fn options_authority(
    options: tame_gcs::signed_url::SignedUrlOptional<'static>,
) -> Seq<char>;

/// The headers that options hold by default: none.
pub open spec fn no_headers() -> Map<Seq<char>, Seq<char>> {
    Map::empty()
}

/// The host of the object store.
pub open spec fn store_host() -> Seq<char> {
    "storage.googleapis.com"@
}

/// No character of the text is an upper case ASCII letter.
pub open spec fn no_upper_case(s: Seq<char>) -> bool {
    forall|i: int| 0 <= i < s.len() ==> !('A' <= #[trigger] s[i] && s[i] <= 'Z')
}

/// A character that may stand in the name of a method or of a header: a
/// letter or digit of ASCII, or one of ``! # $ % & ' * + - . ^ _ ` | ~``.
pub open spec fn token_char(c: char) -> bool {
    ||| ascii_letter(c)
    ||| ('0' <= c && c <= '9')
    ||| c == '!' || c == '#' || c == '$' || c == '%' || c == '&' || c == '\''
    ||| c == '*' || c == '+' || c == '-' || c == '.' || c == '^' || c == '_'
    ||| c == '`' || c == '|' || c == '~'
}

/// A text that can name a method: one or more characters, each of which may
/// stand in such a name.
pub open spec fn method_token(s: Seq<char>) -> bool {
    s.len() >= 1 && forall|i: int| 0 <= i < s.len() ==> token_char(#[trigger] s[i])
}

/// A text that names a header as it is kept: 1 to 65535 characters, each of
/// which may stand in such a name, none of them in upper case.
pub open spec fn header_token(s: Seq<char>) -> bool {
    &&& 1 <= s.len() <= 65535
    &&& forall|i: int| 0 <= i < s.len() ==> token_char(#[trigger] s[i])
    &&& no_upper_case(s)
}

/// The map from name to value that a list of headers with different names
/// makes; of two headers with one name the later one counts.
pub open spec fn headers_as_map(headers: Seq<(Seq<char>, Seq<char>)>) -> Map<Seq<char>, Seq<char>>
    decreases headers.len(),
{
    if headers.len() == 0 {
        Map::empty()
    } else {
        headers_as_map(headers.drop_last()).insert(headers.last().0, headers.last().1)
    }
}

/// The options hold what the request asks for: its method and its headers,
/// and no other header; and they address the object store.
pub open spec fn options_hold(
    options: tame_gcs::signed_url::SignedUrlOptional<'static>,
    request: &SignRequest,
) -> bool {
    &&& options_method(options) == request.method.spec_name()
    &&& options_headers(options) == headers_as_map(
        signed_headers(opt_text(request.content_type), request.resumable),
    )
    &&& options_authority(options) == store_host()
}

/// The signer's options as `tame_gcs` sets them by default, for the method
/// that `Method::from_bytes` of `http` reads from the name. It reads every
/// name that can name a method and no other. The method it reads is written
/// as the name is; the default holds no header and addresses the object
/// store.
#[verifier::external_body]
fn sign_options(method: &str) -> (r: Result<
    tame_gcs::signed_url::SignedUrlOptional<'static>,
    tame_gcs::Error,
>)
    ensures
        (r is Ok) <==> method_token(method@),
        r matches Ok(options) ==> options_method(options) == method@,
        r matches Ok(options) ==> options_headers(options) == no_headers(),
        r matches Ok(options) ==> options_authority(options) == store_host(),
{
    let method = tame_gcs::http::Method::from_bytes(method.as_bytes()).map_err(
        tame_gcs::http::Error::from,
    )?;
    Ok(tame_gcs::signed_url::SignedUrlOptional { method, ..Default::default() })
}

/// `HeaderMap::try_insert` of `http` on the options' headers, with the name
/// and the value read by `HeaderName::from_bytes` and `HeaderValue::from_str`.
/// The header takes the place of any that the options held under that name;
/// nothing else changes. A name is kept as it is written where it is written
/// in lower case. A name and a value that can be read are taken wherever the
/// options hold few headers.
#[verifier::external_body]
fn options_with_header(
    options: tame_gcs::signed_url::SignedUrlOptional<'static>,
    name: &str,
    value: &str,
) -> (r: Result<tame_gcs::signed_url::SignedUrlOptional<'static>, tame_gcs::Error>)
    requires
        no_upper_case(name@),
    ensures
        r matches Ok(with) ==> options_method(with) == options_method(options),
        r matches Ok(with) ==> options_authority(with) == options_authority(options),
        r matches Ok(with) ==> options_headers(with) == options_headers(options).insert(
            name@,
            value@,
        ),
        header_token(name@) && valid_header_text(value@) && options_headers(options).dom().finite()
            && options_headers(options).dom().len() < ROOM_FOR_HEADERS ==> r is Ok,
{
    let name = tame_gcs::http::HeaderName::from_bytes(name.as_bytes()).map_err(
        tame_gcs::http::Error::from,
    )?;
    let value = tame_gcs::http::HeaderValue::from_str(value)?;
    let mut options = options;
    options.headers.try_insert(name, value).map_err(tame_gcs::http::Error::from)?;
    Ok(options)
}

/// What every signed URL looks like: it addresses the object store over
/// HTTPS, says for how many seconds it is valid, and carries a signature.
pub open spec fn signed_url_shape(url: Seq<char>, secs: u64) -> bool {
    &&& has_prefix(url, "https://storage.googleapis.com/"@)
    &&& has_infix(url, "X-Goog-Expires="@ + decimal_text(secs as nat))
    &&& has_infix(url, "X-Goog-Signature="@)
}

/// `UrlSigner::generate` of `tame_gcs`, with the signer that it builds on
/// `ring`, for the request's bucket and object and a URL that stays valid as
/// long as the request asks. It is handed options that hold the request's
/// method and headers and address the object store. The URL carries the time
/// of signing, so its text is not claimed, only its shape; a duration of
/// more than seven days is refused.
#[verifier::external_body]
fn generate(
    account: &tame_gcs::signing::ServiceAccount,
    request: &SignRequest,
    options: tame_gcs::signed_url::SignedUrlOptional<'static>,
) -> (r: Result<String, tame_gcs::Error>)
    requires
        options_hold(options, request),
    ensures
        request.secs > MAX_SIGNED_SECS ==> r is Err,
        r matches Ok(url) ==> signed_url_shape(url@, request.secs),
{
    let mut options = options;
    options.duration = std::time::Duration::from_secs(request.secs);
    let bucket = tame_gcs::BucketName::try_from(request.bucket.as_str())?;
    let object = tame_gcs::ObjectName::try_from(request.object.as_str())?;
    let signer = tame_gcs::signed_url::UrlSigner::with_ring();
    let url = signer.generate(account, &(&bucket, &object), options)?;
    Ok(String::from(url))
}

/// The content type of the request, if it has one, can be a header value.
pub open spec fn content_type_fits(request: &SignRequest) -> bool {
    request.content_type matches Some(t) ==> valid_header_text(t@)
}

proof fn lemma_method_names(method: HttpMethod)
    ensures
        method_token(method.spec_name()),
{
}

proof fn lemma_signed_headers(content_type: Option<Seq<char>>, resumable: bool)
    ensures
        signed_headers(content_type, resumable).len() <= 2,
        forall|i: int|
            0 <= i < signed_headers(content_type, resumable).len() ==> header_token(
                #[trigger] signed_headers(content_type, resumable)[i].0,
            ),
        forall|i: int|
            0 <= i < signed_headers(content_type, resumable).len() && (content_type matches Some(t)
                ==> valid_header_text(t)) ==> valid_header_text(
                #[trigger] signed_headers(content_type, resumable)[i].1,
            ),
{
    reveal_strlit("content-type");
    reveal_strlit("x-goog-resumable");
    reveal_strlit("start");
    assert(header_token("content-type"@));
    assert(header_token("x-goog-resumable"@));
    assert(vstd::utf8::is_ascii_chars("start"@));
    vstd::utf8::is_ascii_chars_encode_utf8("start"@);
    assert(valid_header_text("start"@)) by {
        assert forall|i: int| 0 <= i < encode_utf8("start"@).len() implies header_byte_ok(
            #[trigger] encode_utf8("start"@)[i],
        ) by {
            assert("start"@[i] as u8 == encode_utf8("start"@)[i]);
        }
    }
}

proof fn lemma_headers_as_map_small(headers: Seq<(Seq<char>, Seq<char>)>)
    ensures
        headers_as_map(headers).dom().finite(),
        headers_as_map(headers).dom().len() <= headers.len(),
    decreases headers.len(),
{
    if headers.len() > 0 {
        lemma_headers_as_map_small(headers.drop_last());
    }
}

/// The signer's options for a request: they hold the request's method and
/// its headers, and no other header. There are options for every request
/// whose content type can be a header value.
pub fn options_for(request: &SignRequest) -> (r: Result<
    tame_gcs::signed_url::SignedUrlOptional<'static>,
    tame_gcs::Error,
>)
    ensures
        r matches Ok(options) ==> options_hold(options, request),
        content_type_fits(request) ==> r is Ok,
{
    proof {
        lemma_method_names(request.method);
    }
    let mut options = sign_options(request.method.name())?;
    let headers = request.headers();
    let ghost want = signed_headers(opt_text(request.content_type), request.resumable);
    proof {
        lemma_signed_headers(opt_text(request.content_type), request.resumable);
        assert(want.take(0) =~= Seq::<(Seq<char>, Seq<char>)>::empty());
    }
    let mut i: usize = 0;
    while i < headers.len()
        invariant
            i <= headers@.len(),
            pair_texts(headers@) == want,
            want.len() <= 2,
            forall|j: int| 0 <= j < want.len() ==> header_token(#[trigger] want[j].0),
            content_type_fits(request) ==> forall|j: int|
                0 <= j < want.len() ==> valid_header_text(#[trigger] want[j].1),
            options_method(options) == request.method.spec_name(),
            options_authority(options) == store_host(),
            options_headers(options) == headers_as_map(want.take(i as int)),
        decreases headers@.len() - i,
    {
        proof {
            assert(pair_texts(headers@)[i as int] == (headers@[i as int].0@, headers@[i as int].1@));
            assert(header_token(want[i as int].0));
            assert(content_type_fits(request) ==> valid_header_text(want[i as int].1));
            assert(want.take(i + 1).drop_last() =~= want.take(i as int));
            assert(want.take(i + 1).last() == want[i as int]);
            lemma_headers_as_map_small(want.take(i as int));
        }
        options = options_with_header(options, headers[i].0.as_str(), headers[i].1.as_str())?;
        i = i + 1;
    }
    proof {
        assert(want.take(i as int) =~= want);
    }
    Ok(options)
}

/// Signs what `prepare` has put together: hands the signer the options for
/// the request. The signer refuses a duration of more than seven days; what
/// else it accepts, and the URL, are its own.
pub fn sign(account: &tame_gcs::signing::ServiceAccount, request: &SignRequest) -> (r: Result<
    String,
    SignError,
>)
    ensures
        r matches Err(e) ==> e is Refused,
        request.secs > MAX_SIGNED_SECS ==> r is Err,
        r matches Ok(url) ==> signed_url_shape(url@, request.secs),
{
    let options = match options_for(request) {
        Ok(options) => options,
        Err(e) => {
            return Err(SignError::Refused(e));
        },
    };
    match generate(account, request, options) {
        Ok(url) => Ok(url),
        Err(e) => Err(SignError::Refused(e)),
    }
}

/// What the request itself makes of an attempt to sign: the error that
/// `prepare` finds in it, if it finds one.
pub open spec fn prepare_fault(
    id: &GsUrl,
    content_type: Option<Seq<char>>,
    duration: Dur,
) -> Option<SignError> {
    if content_type matches Some(t) && !valid_header_text(t) {
        Some(SignError::InvalidContentType)
    } else if id.spec_object() is None {
        Some(SignError::MissingObject)
    } else if duration.secs == 0 {
        Some(SignError::ZeroDuration)
    } else {
        None
    }
}

/// Signs a URL for an object with a service account's key: reads the key,
/// puts the request together and hands both to the signer. The key is judged
/// first, then the request as `prepare` judges it; a request that passes is
/// handed to the signer, which refuses more than seven days. A URL is signed
/// only for a key that can be read, an address with an object, and at least
/// one second and at most seven days.
pub fn sign_url(
    key_json: &[u8],
    id: &GsUrl,
    method: Method,
    content_type: Option<&str>,
    duration: Dur,
) -> (r: Result<String, SignError>)
    ensures
        (r matches Err(SignError::InvalidKey(_))) <==> !key_loads(key_json@),
        key_loads(key_json@) ==> match prepare_fault(
            id,
            match content_type {
                Some(t) => Some(t@),
                None => None,
            },
            duration,
        ) {
            Some(SignError::InvalidContentType) => r matches Err(SignError::InvalidContentType),
            Some(SignError::MissingObject) => r matches Err(SignError::MissingObject),
            Some(SignError::ZeroDuration) => r matches Err(SignError::ZeroDuration),
            Some(_) => false,
            None => {
                &&& (r is Ok || r matches Err(SignError::Refused(_)))
                &&& duration.secs > MAX_SIGNED_SECS ==> r is Err
                &&& r matches Ok(url) ==> signed_url_shape(url@, duration.secs)
            },
        },
{
    let account = match load_account(key_json) {
        Ok(account) => account,
        Err(e) => {
            return Err(SignError::InvalidKey(e));
        },
    };
    match prepare(id, method, content_type, duration) {
        Ok(request) => sign(&account, &request),
        Err(e) => Err(e),
    }
}

impl DurError {
    /// The error as a sentence.
    pub open spec fn spec_message(&self) -> Seq<char> {
        match self {
            DurError::InvalidNumber => "invalid number in duration"@,
            DurError::UnknownSuffix(suffix) => "unknown duration suffix '"@ + suffix@ + "'"@,
            DurError::TooLong => "duration too long"@,
        }
    }

    pub fn message(&self) -> (r: String)
        ensures
            r@ == self.spec_message(),
    {
        match self {
            DurError::InvalidNumber => String::from_str("invalid number in duration"),
            DurError::UnknownSuffix(suffix) => {
                let mut text = String::from_str("unknown duration suffix '");
                text.append(suffix.as_str());
                text.append("'");
                text
            },
            DurError::TooLong => String::from_str("duration too long"),
        }
    }
}

impl SignError {
    /// The error as a sentence, where the error does not bring its own.
    pub open spec fn spec_message(&self) -> Option<Seq<char>> {
        match self {
            SignError::InvalidContentType => Some("content type is no valid header value"@),
            SignError::MissingObject => Some("must have a valid object name"@),
            SignError::ZeroDuration => Some("duration must be longer than zero"@),
            SignError::InvalidKey(_) => None,
            SignError::Refused(_) => None,
        }
    }

    pub fn message(&self) -> (r: Option<&'static str>)
        ensures
            match r {
                Some(text) => self.spec_message() == Some(text@),
                None => self.spec_message() is None,
            },
    {
        match self {
            SignError::InvalidContentType => Some("content type is no valid header value"),
            SignError::MissingObject => Some("must have a valid object name"),
            SignError::ZeroDuration => Some("duration must be longer than zero"),
            SignError::InvalidKey(_) => None,
            SignError::Refused(_) => None,
        }
    }
}

/// What the signer is handed follows from the inputs alone and tells them
/// apart: for one address, the same method, content type and duration give
/// the same request, and a change of any of the three changes the request.
pub proof fn law_prepared_request_follows_inputs(
    first: SignRequest,
    second: SignRequest,
    id: &GsUrl,
    first_method: Method,
    second_method: Method,
    first_type: Option<Seq<char>>,
    second_type: Option<Seq<char>>,
    first_duration: Dur,
    second_duration: Dur,
)
    requires
        prepares(Ok(first), id, first_method, first_type, first_duration),
        prepares(Ok(second), id, second_method, second_type, second_duration),
    ensures
        first.bucket@ == second.bucket@,
        first.object@ == second.object@,
        (first_method == second_method && first_type == second_type && first_duration
            == second_duration) <==> (first.method == second.method && first.resumable
            == second.resumable && opt_text(first.content_type) == opt_text(second.content_type)
            && first.secs == second.secs),
        (first_method == second_method && first_type == second_type) ==> signed_headers(
            opt_text(first.content_type),
            first.resumable,
        ) == signed_headers(opt_text(second.content_type), second.resumable),
{
}

} // verus!
