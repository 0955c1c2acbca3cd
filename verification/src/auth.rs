//! The token side of an execution: asking the token provider, handing it the
//! token endpoint's response, and putting the token into a request. The
//! provider keeps its own cache of tokens and reads the clock, so what it
//! answers is known only when it answers; each function here reports the
//! answer to the execution and says what the execution made of it.

use vstd::prelude::*;
use vstd::utf8::encode_utf8;
use crate::executor::{initial, next, Action, Event, Execution, Phase};
use crate::transport::ROOM_FOR_HEADERS;

verus! {

#[verifier::external_type_specification]
#[verifier::external_body]
#[verifier::reject_recursive_types(P)]
pub struct ExCachedTokenProvider<P>(tame_oauth::token_cache::CachedTokenProvider<P>);

#[verifier::external_type_specification]
#[verifier::external_body]
pub struct ExTokenProviderInner(tame_oauth::gcp::TokenProviderWrapperInner);

#[verifier::external_type_specification]
#[verifier::external_body]
pub struct ExToken(tame_oauth::Token);

#[verifier::external_type_specification]
#[verifier::external_body]
pub struct ExTokenOrRequest(tame_oauth::gcp::TokenOrRequest);

#[verifier::external_type_specification]
#[verifier::external_body]
pub struct ExOauthError(tame_oauth::Error);

#[verifier::external_type_specification]
#[verifier::external_body]
#[verifier::reject_recursive_types(T)]
pub struct ExRequest<T>(tame_gcs::http::Request<T>);

#[verifier::external_type_specification]
#[verifier::external_body]
#[verifier::reject_recursive_types(T)]
pub struct ExResponse<T>(tame_gcs::http::Response<T>);

/// What the token provider answered.
pub enum Acquired {
    /// A token that has not expired.
    Token(tame_oauth::Token),
    /// The request to send to the token endpoint, and the hash under which
    /// the provider registers the response.
    Mint { request: tame_gcs::http::Request<Vec<u8>>, scope_hash: u64 },
    /// The provider failed.
    Failed(tame_oauth::Error),
}

impl Acquired {
    /// The event that this answer is to an execution.
    pub open spec fn event(&self) -> Event {
        match self {
            Acquired::Token(_) => Event::TokenCached,
            Acquired::Mint { scope_hash, .. } => Event::TokenPending { scope_hash: *scope_hash },
            Acquired::Failed(_) => Event::ProviderFailed,
        }
    }
}

/// `TokenProvider::get_token` of `tame_oauth`, on the cached provider, for
/// the scope that gives full control over the object store. The answer
/// depends on the provider's cache and on the clock: nothing is claimed of
/// it.
#[verifier::external_body]
fn provider_get_token(provider: &tame_oauth::gcp::TokenProviderWrapper) -> Result<
    tame_oauth::gcp::TokenOrRequest,
    tame_oauth::Error,
> {
    tame_oauth::gcp::TokenProvider::get_token(provider, &[tame_gcs::Scopes::FullControl])
}

/// Tells the two variants of `tame_oauth`'s `TokenOrRequest` apart and moves
/// their fields over.
#[verifier::external_body]
fn split_answer(answer: tame_oauth::gcp::TokenOrRequest) -> Acquired {
    match answer {
        tame_oauth::gcp::TokenOrRequest::Token(token) => Acquired::Token(token),
        tame_oauth::gcp::TokenOrRequest::Request { request, scope_hash, .. } => Acquired::Mint {
            request,
            scope_hash,
        },
    }
}

/// `TokenProvider::parse_token_response` of `tame_oauth`, on the cached
/// provider, for an execution that waits for its token response to be
/// registered: the response is handed over under the hash that the
/// execution holds. The token's expiry is reckoned from the clock: nothing
/// is claimed of the result.
#[verifier::external_body]
#[allow(unused_variables)]
fn provider_parse_token_response(
    provider: &tame_oauth::gcp::TokenProviderWrapper,
    pending: &Execution,
    scope_hash: u64,
    response: tame_gcs::http::Response<bytes::Bytes>,
) -> Result<tame_oauth::Token, tame_oauth::Error>
    requires
        pending.phase == Phase::RegisterToken,
        pending.scope_hash == Some(scope_hash),
{
    tame_oauth::gcp::TokenProvider::parse_token_response(provider, scope_hash, response)
}

/// The value of the authorization header that carries a token, as
/// `tame_oauth` writes it, or the reason why the token has none.
pub uninterp spec fn bearer(token: tame_oauth::Token) -> Result<
    tame_gcs::http::HeaderValue,
    tame_oauth::Error,
>;

/// The kind of a token, such as `Bearer`.
pub uninterp spec fn token_kind(token: tame_oauth::Token) -> Seq<char>;

/// The text of a token, by which the bearer is known.
pub uninterp spec fn token_text(token: tame_oauth::Token) -> Seq<char>;

/// The bytes of a header value.
pub uninterp spec fn value_bytes(value: tame_gcs::http::HeaderValue) -> Seq<u8>;

/// What headers hold: for each header name, in lower case, the bytes of its
/// value; of several values under one name, the first.
pub uninterp spec fn header_bytes(headers: tame_gcs::http::HeaderMap) -> Map<Seq<char>, Seq<u8>>;

/// The number of different names that headers hold.
pub uninterp spec fn header_names(headers: tame_gcs::http::HeaderMap) -> nat;

/// What the authorization header says for a token: the kind, a space, the
/// text.
pub open spec fn authorization_text(token: tame_oauth::Token) -> Seq<char> {
    token_kind(token) + seq![' '] + token_text(token)
}

/// The conversion of a `tame_oauth` token into the value of an
/// authorization header: the token's kind, a space and its text. It fails
/// where these hold a byte that no header value may hold. The contract gives
/// the outcome a name, which depends on the token alone, and says which
/// bytes the value has.
#[verifier::external_body]
fn bearer_value(token: tame_oauth::Token) -> (r: Result<
    tame_gcs::http::HeaderValue,
    tame_oauth::Error,
>)
    ensures
        r == bearer(token),
        r matches Ok(value) ==> value_bytes(value) == encode_utf8(
            token_kind(token) + seq![' '] + token_text(token),
        ),
{
    token.try_into()
}

/// The name of the authorization header.
pub open spec fn authorization_name() -> Seq<char> {
    "authorization"@
}

/// `HeaderMap::try_insert` of `http`, for the authorization header: the
/// value takes the place of any that the headers held under that name, and
/// nothing else changes. Headers that hold few names always take it.
#[verifier::external_body]
fn set_authorization(headers: tame_gcs::http::HeaderMap, value: tame_gcs::http::HeaderValue) -> (r:
    Option<tame_gcs::http::HeaderMap>)
    ensures
        r matches Some(with) ==> header_bytes(with) == header_bytes(headers).insert(
            authorization_name(),
            value_bytes(value),
        ),
        header_names(headers) < ROOM_FOR_HEADERS ==> r is Some,
{
    let mut headers = headers;
    match headers.try_insert(tame_gcs::http::header::AUTHORIZATION, value) {
        Ok(_) => Some(headers),
        Err(_) => None,
    }
}

/// Starts an execution by asking the provider for a token with full control
/// over the object store. The execution has taken the answer as its first
/// event.
pub fn acquire(provider: &tame_oauth::gcp::TokenProviderWrapper) -> (r: (
    Execution,
    Action,
    Acquired,
))
    ensures
        (r.0, r.1) == next(initial(), r.2.event()),
{
    let (mut run, _) = Execution::start();
    let answer: Acquired = match provider_get_token(provider) {
        Ok(found) => split_answer(found),
        Err(e) => Acquired::Failed(e),
    };
    let event: Event = match &answer {
        Acquired::Token(_) => Event::TokenCached,
        Acquired::Mint { scope_hash, .. } => Event::TokenPending { scope_hash: *scope_hash },
        Acquired::Failed(_) => Event::ProviderFailed,
    };
    let action = run.step(event);
    (run, action, answer)
}

/// What became of the token endpoint's response.
pub enum Registered {
    /// The provider took this token from it.
    Token(tame_oauth::Token),
    /// The provider found no token in it.
    Rejected(tame_oauth::Error),
    /// The execution was not waiting for a response: the provider has not
    /// seen it.
    NotExpected,
}

impl Registered {
    /// The event that this outcome is to an execution.
    pub open spec fn event(&self) -> Event {
        match self {
            Registered::Token(_) => Event::TokenAccepted,
            Registered::Rejected(_) => Event::TokenRejected,
            Registered::NotExpected => Event::TokenRejected,
        }
    }
}

/// Hands the token endpoint's response to the provider, under the hash that
/// came with the token request, and reports the outcome to the execution.
/// The provider sees the response only where the execution waits for it.
pub fn register(
    run: &mut Execution,
    provider: &tame_oauth::gcp::TokenProviderWrapper,
    response: tame_gcs::http::Response<bytes::Bytes>,
) -> (r: (Action, Registered))
    ensures
        (*final(run), r.0) == next(*old(run), r.1.event()),
        r.1 is NotExpected <==> !(old(run).phase == Phase::RegisterToken && old(run).scope_hash
            is Some),
{
    let expected: Option<u64> = match run.phase {
        Phase::RegisterToken => run.scope_hash,
        _ => None,
    };
    match expected {
        Some(scope_hash) => match provider_parse_token_response(provider, &*run, scope_hash, response) {
            Ok(token) => {
                let action = run.step(Event::TokenAccepted);
                (action, Registered::Token(token))
            },
            Err(e) => {
                let action = run.step(Event::TokenRejected);
                (action, Registered::Rejected(e))
            },
        },
        None => {
            let action = run.step(Event::TokenRejected);
            (action, Registered::NotExpected)
        },
    }
}

/// What became of the headers that were to carry the token.
pub enum Attached {
    /// The headers, with the token in the authorization header.
    Headers(tame_gcs::http::HeaderMap),
    /// The token cannot be written as a header value.
    Unencodable(tame_oauth::Error),
    /// The headers cannot take one more.
    HeadersFull,
    /// The execution was not waiting for a token to be attached.
    NotExpected,
}

impl Attached {
    /// The event that this outcome is to an execution.
    pub open spec fn event(&self) -> Event {
        match self {
            Attached::Headers(_) => Event::TokenAttached,
            _ => Event::TokenNotAttachable,
        }
    }
}

/// `r` is what attaching `token` makes of `headers`. A token that has no header
/// value is refused for that reason. The value of any other token, which is
/// the token's kind, a space and its text, takes the place of whatever the
/// headers held as authorization, and nothing else changes; headers that
/// are refused are full.
pub open spec fn attaches(
    r: Attached,
    token: tame_oauth::Token,
    headers: tame_gcs::http::HeaderMap,
) -> bool {
    match bearer(token) {
        Err(e) => r matches Attached::Unencodable(found) && found == e,
        Ok(_) => match r {
            Attached::Headers(with) => header_bytes(with) == header_bytes(headers).insert(
                authorization_name(),
                encode_utf8(authorization_text(token)),
            ),
            Attached::HeadersFull => header_names(headers) >= ROOM_FOR_HEADERS,
            _ => false,
        },
    }
}

/// Puts the token into the authorization header of a request's headers and
/// reports the outcome to the execution. Nothing is done where the
/// execution does not wait for it.
pub fn attach(run: &mut Execution, token: tame_oauth::Token, headers: tame_gcs::http::HeaderMap) -> (r: (
    Action,
    Attached,
))
    ensures
        (*final(run), r.0) == next(*old(run), r.1.event()),
        r.1 is NotExpected <==> old(run).phase != Phase::Attach,
        old(run).phase == Phase::Attach ==> attaches(r.1, token, headers),
{
    match run.phase {
        Phase::Attach => {},
        _ => {
            let action = run.step(Event::TokenNotAttachable);
            return (action, Attached::NotExpected);
        },
    }
    let value = match bearer_value(token) {
        Ok(value) => value,
        Err(e) => {
            let action = run.step(Event::TokenNotAttachable);
            return (action, Attached::Unencodable(e));
        },
    };
    match set_authorization(headers, value) {
        Some(with) => {
            let action = run.step(Event::TokenAttached);
            (action, Attached::Headers(with))
        },
        None => {
            let action = run.step(Event::TokenNotAttachable);
            (action, Attached::HeadersFull)
        },
    }
}

} // verus!
