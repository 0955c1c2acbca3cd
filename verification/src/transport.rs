//! The transport adapter's bookkeeping: which request methods the transport
//! carries, and how a message body is gathered into one buffer.

use vstd::prelude::*;
use vstd::string::*;
use crate::text::str_eq;

verus! {

#[verifier::external_type_specification]
#[verifier::external_body]
pub struct ExBytesMut(bytes::BytesMut);

#[verifier::external_type_specification]
#[verifier::external_body]
pub struct ExBytes(bytes::Bytes);

#[verifier::external_type_specification]
#[verifier::external_body]
pub struct ExHeaderValue(tame_gcs::http::HeaderValue);

#[verifier::external_type_specification]
#[verifier::external_body]
#[verifier::reject_recursive_types(T)]
pub struct ExHeaderMap<T>(tame_gcs::http::HeaderMap<T>);

/// A number of header names below which headers always take one more
/// name. (Headers grow in steps up to 32768 places and refuse to grow
/// further; below this number no step is ever refused.)
pub const ROOM_FOR_HEADERS: usize = 4096;

/// The bytes that a growable buffer holds, in order.
pub uninterp spec fn buffered(buf: bytes::BytesMut) -> Seq<u8>;

/// The bytes that a finished buffer holds, in order.
pub uninterp spec fn frozen(buf: bytes::Bytes) -> Seq<u8>;

/// `bytes::BytesMut::with_capacity`: a buffer that holds nothing yet. The
/// allocation behind it refuses more than `isize::MAX` bytes.
#[verifier::external_body]
fn buffer_with_capacity(capacity: usize) -> (buf: bytes::BytesMut)
    requires
        capacity <= isize::MAX,
    ensures
        buffered(buf) == Seq::<u8>::empty(),
{
    bytes::BytesMut::with_capacity(capacity)
}

/// `bytes::BytesMut::len`: the number of bytes held.
#[verifier::external_body]
fn buffer_len(buf: &bytes::BytesMut) -> (n: usize)
    ensures
        n == buffered(*buf).len(),
{
    buf.len()
}

/// `bytes::BytesMut::extend_from_slice`: the bytes of `chunk` are appended
/// behind those held so far. The buffer grows as needed, up to `isize::MAX`
/// bytes.
#[verifier::external_body]
fn buffer_extend(buf: &mut bytes::BytesMut, chunk: &[u8])
    requires
        buffered(*old(buf)).len() + chunk@.len() <= isize::MAX,
    ensures
        buffered(*final(buf)) == buffered(*old(buf)) + chunk@,
{
    buf.extend_from_slice(chunk)
}

/// `bytes::BytesMut::freeze`: the same bytes, no longer growable.
#[verifier::external_body]
fn buffer_freeze(buf: bytes::BytesMut) -> (done: bytes::Bytes)
    ensures
        frozen(done) == buffered(buf),
{
    buf.freeze()
}

/// The length that headers declare for the body of their message, as
/// `tame_gcs::util::get_content_length` reads it: the value of the first
/// `Content-Length` header, where there is one and it is a number.
pub uninterp spec fn declared_length(headers: tame_gcs::http::HeaderMap) -> Option<usize>;

/// `tame_gcs::util::get_content_length`. The contract only gives the answer
/// a name: it depends on the headers alone.
#[verifier::external_body]
fn content_length(headers: &tame_gcs::http::HeaderMap) -> (declared: Option<usize>)
    ensures
        declared == declared_length(*headers),
{
    tame_gcs::util::get_content_length(headers)
}

/// A request method that the transport carries.
#[derive(Clone, Copy, Debug, PartialEq, Eq, Structural)]
pub enum TransportMethod {
    Get,
    Post,
    Delete,
    Patch,
    Put,
}

/// Why the transport adapter gave up on a message.
#[derive(Debug)]
pub enum TransportError {
    /// The request asks for a method that the transport does not carry.
    UnsupportedMethod(String),
    /// Reading the body failed.
    ReadFailed,
    /// The body ended before the declared number of bytes had arrived.
    Truncated { declared: usize, received: usize },
    /// The body is larger than one buffer can hold.
    TooLarge,
}

/// The transport method that a method name stands for. Names are matched
/// exactly, in upper case.
pub open spec fn method_named(name: Seq<char>) -> Option<TransportMethod> {
    if name == seq!['G', 'E', 'T'] {
        Some(TransportMethod::Get)
    } else if name == seq!['P', 'O', 'S', 'T'] {
        Some(TransportMethod::Post)
    } else if name == seq!['D', 'E', 'L', 'E', 'T', 'E'] {
        Some(TransportMethod::Delete)
    } else if name == seq!['P', 'A', 'T', 'C', 'H'] {
        Some(TransportMethod::Patch)
    } else if name == seq!['P', 'U', 'T'] {
        Some(TransportMethod::Put)
    } else {
        None
    }
}

/// Picks the transport method for a request, or fails at once where the
/// transport does not carry the method.
pub fn transport_method(name: &str) -> (r: Result<TransportMethod, TransportError>)
    ensures
        match method_named(name@) {
            Some(m) => r matches Ok(found) && found == m,
            None => r matches Err(TransportError::UnsupportedMethod(n)) && n@ == name@,
        },
{
    proof {
        reveal_strlit("GET");
        reveal_strlit("POST");
        reveal_strlit("DELETE");
        reveal_strlit("PATCH");
        reveal_strlit("PUT");
        assert("GET"@ =~= seq!['G', 'E', 'T']);
        assert("POST"@ =~= seq!['P', 'O', 'S', 'T']);
        assert("DELETE"@ =~= seq!['D', 'E', 'L', 'E', 'T', 'E']);
        assert("PATCH"@ =~= seq!['P', 'A', 'T', 'C', 'H']);
        assert("PUT"@ =~= seq!['P', 'U', 'T']);
    }
    if str_eq(name, "GET") {
        Ok(TransportMethod::Get)
    } else if str_eq(name, "POST") {
        Ok(TransportMethod::Post)
    } else if str_eq(name, "DELETE") {
        Ok(TransportMethod::Delete)
    } else if str_eq(name, "PATCH") {
        Ok(TransportMethod::Patch)
    } else if str_eq(name, "PUT") {
        Ok(TransportMethod::Put)
    } else {
        Err(TransportError::UnsupportedMethod(String::from_str(name)))
    }
}

/// A message body while it arrives: the bytes gathered so far and the length
/// that the message's headers declared, if they declared one.
pub struct BodyBuffer {
    declared: Option<usize>,
    data: bytes::BytesMut,
}

impl BodyBuffer {
    /// The bytes gathered so far.
    pub closed spec fn bytes(&self) -> Seq<u8> {
        buffered(self.data)
    }

    /// The declared length of the whole body.
    pub closed spec fn declared(&self) -> Option<usize> {
        self.declared
    }

    /// An empty buffer for a body of the declared length. The declared length
    /// only sizes the first allocation.
    pub fn new(declared: Option<usize>) -> (b: BodyBuffer)
        ensures
            b.bytes() == Seq::<u8>::empty(),
            b.declared() == declared,
    {
        let hint: usize = match declared {
            Some(n) => if n <= isize::MAX as usize {
                n
            } else {
                0
            },
            None => 0,
        };
        BodyBuffer { declared, data: buffer_with_capacity(hint) }
    }

    /// An empty buffer for the body of a message with these headers, of the
    /// length that the headers declare.
    pub fn for_headers(headers: &tame_gcs::http::HeaderMap) -> (b: BodyBuffer)
        ensures
            b.bytes() == Seq::<u8>::empty(),
            b.declared() == declared_length(*headers),
    {
        BodyBuffer::new(content_length(headers))
    }

    /// The number of bytes gathered so far.
    pub fn len(&self) -> (n: usize)
        ensures
            n == self.bytes().len(),
    {
        buffer_len(&self.data)
    }

    /// Appends one chunk of the body. A chunk that would take the body past
    /// what one buffer can hold is refused and leaves the buffer as it was.
    pub fn accept(&mut self, chunk: &[u8]) -> (r: Result<(), TransportError>)
        ensures
            final(self).declared() == old(self).declared(),
            old(self).bytes().len() + chunk@.len() <= isize::MAX ==> (r is Ok && final(self).bytes()
                == old(self).bytes() + chunk@),
            old(self).bytes().len() + chunk@.len() > isize::MAX ==> (r matches Err(
                TransportError::TooLarge,
            ) && final(self).bytes() == old(self).bytes()),
    {
        let held: usize = buffer_len(&self.data);
        if held > isize::MAX as usize || chunk.len() > isize::MAX as usize - held {
            return Err(TransportError::TooLarge);
        }
        buffer_extend(&mut self.data, chunk);
        Ok(())
    }

    /// Ends a request body: whatever has been gathered is the body.
    pub fn into_request_body(self) -> (body: bytes::Bytes)
        ensures
            frozen(body) == self.bytes(),
    {
        buffer_freeze(self.data)
    }

    /// Ends a response body at the end of the stream. A body that stayed
    /// short of its declared length is refused.
    pub fn into_response_body(self) -> (r: Result<bytes::Bytes, TransportError>)
        ensures
            match self.declared() {
                Some(n) if self.bytes().len() < n => r matches Err(
                    TransportError::Truncated { declared, received },
                ) && declared == n && received == self.bytes().len(),
                _ => r matches Ok(body) && frozen(body) == self.bytes(),
            },
    {
        let received: usize = buffer_len(&self.data);
        match self.declared {
            Some(declared) => {
                if received < declared {
                    return Err(TransportError::Truncated { declared, received });
                }
            },
            None => {},
        }
        Ok(buffer_freeze(self.data))
    }
}

/// What one read of a body stream delivered.
pub enum StreamItem {
    /// The next bytes of the body.
    Chunk(Vec<u8>),
    /// The read failed.
    Failed,
}

/// The bytes that the items before position `upto` delivered, in order.
pub open spec fn joined(items: Seq<StreamItem>, upto: int) -> Seq<u8>
    decreases upto,
{
    if upto <= 0 {
        Seq::<u8>::empty()
    } else {
        joined(items, upto - 1) + match items[upto - 1] {
            StreamItem::Chunk(c) => c@,
            StreamItem::Failed => Seq::<u8>::empty(),
        }
    }
}

/// Every item before position `upto` delivered bytes.
pub open spec fn all_chunks(items: Seq<StreamItem>, upto: int) -> bool {
    forall|i: int| 0 <= i < upto ==> #[trigger] items[i] is Chunk
}

/// Gathers a response body from everything its stream delivered up to the
/// end of the stream. The body is all chunks in order, however many reads it
/// took. The first failed read fails the whole body, and so does a stream
/// that ends before the declared length has arrived.
pub fn collect_response(declared: Option<usize>, items: &Vec<StreamItem>) -> (r: Result<
    bytes::Bytes,
    TransportError,
>)
    ensures
        match r {
            Ok(body) => {
                &&& all_chunks(items@, items@.len() as int)
                &&& frozen(body) == joined(items@, items@.len() as int)
                &&& declared matches Some(n) ==> n <= frozen(body).len()
            },
            Err(TransportError::ReadFailed) => exists|k: int|
                0 <= k < items@.len() && all_chunks(items@, k) && #[trigger] items@[k] is Failed,
            Err(TransportError::TooLarge) => exists|k: int|
                0 <= k < items@.len() && all_chunks(items@, k + 1) && #[trigger] joined(
                    items@,
                    k + 1,
                ).len() > isize::MAX,
            Err(TransportError::Truncated { declared: n, received }) => {
                &&& all_chunks(items@, items@.len() as int)
                &&& declared == Some(n)
                &&& received == joined(items@, items@.len() as int).len()
                &&& received < n
            },
            Err(TransportError::UnsupportedMethod(_)) => false,
        },
{
    let mut buffer = BodyBuffer::new(declared);
    let mut i: usize = 0;
    while i < items.len()
        invariant
            i <= items@.len(),
            buffer.declared() == declared,
            buffer.bytes() == joined(items@, i as int),
            all_chunks(items@, i as int),
        decreases items@.len() - i,
    {
        match &items[i] {
            StreamItem::Chunk(chunk) => {
                match buffer.accept(chunk.as_slice()) {
                    Ok(()) => {},
                    Err(_) => {
                        proof {
                            let k = i as int;
                            assert(joined(items@, k + 1) == joined(items@, k) + chunk@);
                            assert(all_chunks(items@, k + 1));
                        }
                        return Err(TransportError::TooLarge);
                    },
                }
            },
            StreamItem::Failed => {
                return Err(TransportError::ReadFailed);
            },
        }
        i = i + 1;
    }
    buffer.into_response_body()
}

impl TransportError {
    /// The error as a sentence.
    pub open spec fn spec_message(&self) -> Seq<char> {
        match self {
            TransportError::UnsupportedMethod(name) => "'"@ + name@ + "' not implemented"@,
            TransportError::ReadFailed => "failed to read the body"@,
            TransportError::Truncated { declared, received } => "body ended after "@
                + crate::text::decimal_text(*received as nat) + " of "@
                + crate::text::decimal_text(*declared as nat) + " bytes"@,
            TransportError::TooLarge => "body too large"@,
        }
    }

    pub fn message(&self) -> (r: String)
        ensures
            r@ == self.spec_message(),
    {
        match self {
            TransportError::UnsupportedMethod(name) => {
                let mut text = String::from_str("'");
                text.append(name.as_str());
                text.append("' not implemented");
                text
            },
            TransportError::ReadFailed => String::from_str("failed to read the body"),
            TransportError::Truncated { declared, received } => {
                let mut text = String::from_str("body ended after ");
                crate::text::push_decimal(&mut text, *received as u64);
                text.append(" of ");
                crate::text::push_decimal(&mut text, *declared as u64);
                text.append(" bytes");
                text
            },
            TransportError::TooLarge => String::from_str("body too large"),
        }
    }
}

} // verus!
