use gsutil::auth::{acquire, attach, register, Acquired, Attached, Registered};
use gsutil::executor::{Action, Event, ExecError, Execution, Phase, Stage};

fn run(events: &[Event]) -> (Execution, Vec<Action>) {
    let (mut execution, first) = Execution::start();
    let mut actions = vec![first];
    for event in events {
        actions.push(execution.step(*event));
    }
    (execution, actions)
}

#[test]
fn execution_starts_by_asking_the_provider() {
    let (execution, action) = Execution::start();
    assert_eq!(execution.phase, Phase::AcquireToken);
    assert_eq!(execution.scope_hash, None);
    assert_eq!(action, Action::AskProvider);
    assert!(!execution.ended());
}

#[test]
fn request_without_cached_token_mints_once_then_dispatches_once() {
    let (execution, actions) = run(&[
        Event::TokenPending { scope_hash: 42 },
        Event::TokenResponseArrived,
        Event::TokenAccepted,
        Event::TokenAttached,
        Event::ResponseArrived,
        Event::ResponseDecoded,
    ]);
    assert_eq!(
        actions,
        vec![
            Action::AskProvider,
            Action::SendTokenRequest,
            Action::ParseTokenResponse { scope_hash: 42 },
            Action::AttachToken,
            Action::SendRequest,
            Action::DecodeResponse,
            Action::Succeed,
        ]
    );
    assert_eq!(execution.phase, Phase::Done);
    assert!(execution.ended());
    assert_eq!(
        actions.iter().filter(|a| **a == Action::SendTokenRequest).count(),
        1
    );
    assert_eq!(actions.iter().filter(|a| **a == Action::SendRequest).count(), 1);
}

#[test]
fn request_with_cached_token_mints_nothing() {
    let (execution, actions) = run(&[
        Event::TokenCached,
        Event::TokenAttached,
        Event::ResponseArrived,
        Event::ResponseDecoded,
    ]);
    assert_eq!(
        actions,
        vec![
            Action::AskProvider,
            Action::AttachToken,
            Action::SendRequest,
            Action::DecodeResponse,
            Action::Succeed,
        ]
    );
    assert_eq!(execution.phase, Phase::Done);
    assert_eq!(execution.scope_hash, None);
}

#[test]
fn every_failure_ends_the_execution() {
    let cases: Vec<(Vec<Event>, ExecError)> = vec![
        (vec![Event::ProviderFailed], ExecError::Provider),
        (
            vec![
                Event::TokenPending { scope_hash: 1 },
                Event::TokenRoundTripFailed(Stage::Create),
            ],
            ExecError::Mint(Stage::Create),
        ),
        (
            vec![
                Event::TokenPending { scope_hash: 1 },
                Event::TokenRoundTripFailed(Stage::Send),
            ],
            ExecError::Mint(Stage::Send),
        ),
        (
            vec![
                Event::TokenPending { scope_hash: 1 },
                Event::TokenRoundTripFailed(Stage::Convert),
            ],
            ExecError::Mint(Stage::Convert),
        ),
        (
            vec![
                Event::TokenPending { scope_hash: 1 },
                Event::TokenResponseArrived,
                Event::TokenRejected,
            ],
            ExecError::TokenResponse,
        ),
        (
            vec![Event::TokenCached, Event::TokenNotAttachable],
            ExecError::Attach,
        ),
        (
            vec![
                Event::TokenCached,
                Event::TokenAttached,
                Event::RoundTripFailed(Stage::Send),
            ],
            ExecError::Transport(Stage::Send),
        ),
        (
            vec![
                Event::TokenCached,
                Event::TokenAttached,
                Event::ResponseArrived,
                Event::ResponseRejected,
            ],
            ExecError::Api,
        ),
    ];
    for (events, error) in cases {
        let (mut execution, actions) = run(&events);
        assert_eq!(actions.last(), Some(&Action::Fail(error)), "{:?}", events);
        assert_eq!(execution.phase, Phase::Failed);
        assert!(execution.ended());
        // nothing is retried
        assert_eq!(execution.step(Event::TokenCached), Action::Halt);
        assert_eq!(execution.step(Event::ResponseArrived), Action::Halt);
        assert_eq!(execution.phase, Phase::Failed);
    }
}

#[test]
fn event_out_of_order_fails_the_execution() {
    let (execution, actions) = run(&[Event::ResponseArrived]);
    assert_eq!(actions.last(), Some(&Action::Fail(ExecError::OutOfOrder)));
    assert_eq!(execution.phase, Phase::Failed);

    let (execution, actions) = run(&[Event::TokenCached, Event::TokenCached]);
    assert_eq!(actions.last(), Some(&Action::Fail(ExecError::OutOfOrder)));
    assert_eq!(execution.phase, Phase::Failed);

    let (_, actions) = run(&[
        Event::TokenPending { scope_hash: 1 },
        Event::TokenResponseArrived,
        Event::TokenResponseArrived,
    ]);
    assert_eq!(actions.last(), Some(&Action::Fail(ExecError::OutOfOrder)));
}

#[test]
fn finished_execution_asks_for_nothing_more() {
    let (mut execution, _) = run(&[
        Event::TokenCached,
        Event::TokenAttached,
        Event::ResponseArrived,
        Event::ResponseDecoded,
    ]);
    assert_eq!(execution.step(Event::TokenPending { scope_hash: 9 }), Action::Halt);
    assert_eq!(execution.step(Event::ResponseDecoded), Action::Halt);
    assert_eq!(execution.phase, Phase::Done);
    assert_eq!(execution.scope_hash, None);
}

fn provider() -> tame_oauth::gcp::TokenProviderWrapper {
    tame_oauth::gcp::TokenProviderWrapper::wrap(
        tame_oauth::gcp::TokenProviderWrapperInner::Metadata(
            tame_oauth::gcp::metadata_server::MetadataServerProviderInner::new(None),
        ),
    )
}

fn token_response(status: u16, body: &str) -> tame_gcs::http::Response<bytes::Bytes> {
    tame_gcs::http::Response::builder()
        .status(status)
        .body(bytes::Bytes::copy_from_slice(body.as_bytes()))
        .unwrap()
}

fn mint(
    provider: &tame_oauth::gcp::TokenProviderWrapper,
    response: tame_gcs::http::Response<bytes::Bytes>,
) -> (Execution, Action, Registered) {
    let (mut execution, action, answer) = acquire(provider);
    assert_eq!(action, Action::SendTokenRequest);
    assert_eq!(execution.phase, Phase::MintToken);
    let scope_hash = match answer {
        Acquired::Mint { scope_hash, .. } => scope_hash,
        _ => panic!("expected a token request"),
    };
    assert_eq!(execution.scope_hash, Some(scope_hash));
    assert_eq!(
        execution.step(Event::TokenResponseArrived),
        Action::ParseTokenResponse { scope_hash }
    );
    let (action, registered) = register(&mut execution, provider, response);
    (execution, action, registered)
}

#[test]
fn provider_without_token_describes_the_request_to_send() {
    let provider = provider();
    let (execution, action, answer) = acquire(&provider);
    assert_eq!(action, Action::SendTokenRequest);
    assert_eq!(execution.phase, Phase::MintToken);
    match answer {
        Acquired::Mint { request, scope_hash } => {
            assert_eq!(execution.scope_hash, Some(scope_hash));
            assert_eq!(request.method(), tame_gcs::http::Method::GET);
            assert_eq!(
                request.uri().to_string(),
                "http://metadata.google.internal/computeMetadata/v1/instance/service-accounts/default/token?scopes=https://www.googleapis.com/auth/devstorage.full_control"
            );
            assert_eq!(
                request.headers().get("Metadata-Flavor").map(|v| v.as_bytes()),
                Some(&b"Google"[..])
            );
            assert!(request.body().is_empty());
        }
        _ => panic!("expected a token request"),
    }
}

#[test]
fn well_formed_token_response_yields_the_token() {
    let provider = provider();
    let before = std::time::SystemTime::now();
    let (execution, action, registered) = mint(
        &provider,
        token_response(
            200,
            "{\"access_token\":\"abc123\",\"token_type\":\"Bearer\",\"expires_in\":3600}",
        ),
    );
    let after = std::time::SystemTime::now();
    assert_eq!(action, Action::AttachToken);
    assert_eq!(execution.phase, Phase::Attach);
    match registered {
        Registered::Token(token) => {
            assert_eq!(token.access_token, "abc123");
            assert_eq!(token.token_type, "Bearer");
            assert_eq!(token.expires_in, Some(3600));
            let expiry = token.expires_in_timestamp.unwrap();
            let lifetime = std::time::Duration::from_secs(3600);
            assert!(expiry >= before + lifetime);
            assert!(expiry <= after + lifetime);
        }
        _ => panic!("expected a token"),
    }
}

#[test]
fn malformed_token_response_is_rejected() {
    for body in ["", "not json", "{\"access_token\":\"abc123\"}", "{\"expires_in\":3600}"] {
        let (execution, action, registered) = mint(&provider(), token_response(200, body));
        assert_eq!(action, Action::Fail(ExecError::TokenResponse), "{:?}", body);
        assert_eq!(execution.phase, Phase::Failed);
        assert!(matches!(registered, Registered::Rejected(_)));
    }
}

#[test]
fn token_response_with_error_status_is_rejected() {
    for status in [199, 300, 400, 401, 403, 404, 500] {
        let (execution, action, registered) = mint(
            &provider(),
            token_response(
                status,
                "{\"access_token\":\"abc123\",\"token_type\":\"Bearer\",\"expires_in\":3600}",
            ),
        );
        assert_eq!(action, Action::Fail(ExecError::TokenResponse), "{}", status);
        assert_eq!(execution.phase, Phase::Failed);
        match registered {
            Registered::Rejected(tame_oauth::Error::HttpStatus(found)) => {
                assert_eq!(found.as_u16(), status)
            }
            _ => panic!("expected a rejection by status"),
        }
    }
}

#[test]
fn rejected_token_response_leaves_nothing_in_the_cache() {
    let provider = provider();
    let (_, _, registered) = mint(&provider, token_response(500, "{}"));
    assert!(matches!(registered, Registered::Rejected(_)));
    let (_, action, answer) = acquire(&provider);
    assert_eq!(action, Action::SendTokenRequest);
    assert!(matches!(answer, Acquired::Mint { .. }));
}

#[test]
fn cached_token_is_handed_out_without_a_round_trip() {
    let provider = provider();
    let (_, _, registered) = mint(
        &provider,
        token_response(
            200,
            "{\"access_token\":\"abc123\",\"token_type\":\"Bearer\",\"expires_in\":3600}",
        ),
    );
    assert!(matches!(registered, Registered::Token(_)));

    for _ in 0..2 {
        let (execution, action, answer) = acquire(&provider);
        assert_eq!(action, Action::AttachToken);
        assert_eq!(execution.phase, Phase::Attach);
        assert_eq!(execution.scope_hash, None);
        match answer {
            Acquired::Token(token) => assert_eq!(token.access_token, "abc123"),
            _ => panic!("expected the cached token"),
        }
    }
}

#[test]
fn expired_token_is_minted_afresh() {
    let provider = provider();
    let (_, _, registered) = mint(
        &provider,
        token_response(
            200,
            "{\"access_token\":\"abc123\",\"token_type\":\"Bearer\",\"expires_in\":0}",
        ),
    );
    assert!(matches!(registered, Registered::Token(_)));
    let (execution, action, answer) = acquire(&provider);
    assert_eq!(action, Action::SendTokenRequest);
    assert_eq!(execution.phase, Phase::MintToken);
    assert!(matches!(answer, Acquired::Mint { .. }));
}

#[test]
fn token_of_one_provider_is_not_handed_out_by_another() {
    let first = provider();
    let second = provider();
    let (_, _, registered) = mint(
        &first,
        token_response(
            200,
            "{\"access_token\":\"abc123\",\"token_type\":\"Bearer\",\"expires_in\":3600}",
        ),
    );
    assert!(matches!(registered, Registered::Token(_)));
    let (_, action, answer) = acquire(&second);
    assert_eq!(action, Action::SendTokenRequest);
    assert!(matches!(answer, Acquired::Mint { .. }));
}

#[test]
fn response_is_not_registered_out_of_turn() {
    let provider = provider();
    let (mut execution, _, _) = acquire(&provider);
    // the token request has not been answered yet
    let (action, registered) = register(
        &mut execution,
        &provider,
        token_response(
            200,
            "{\"access_token\":\"abc123\",\"token_type\":\"Bearer\",\"expires_in\":3600}",
        ),
    );
    assert!(matches!(registered, Registered::NotExpected));
    assert_eq!(action, Action::Fail(ExecError::OutOfOrder));
    assert_eq!(execution.phase, Phase::Failed);
    // the provider has not seen the response
    let (_, action, _) = acquire(&provider);
    assert_eq!(action, Action::SendTokenRequest);
}

fn token(access_token: &str) -> tame_oauth::Token {
    tame_oauth::Token {
        access_token: access_token.to_owned(),
        refresh_token: String::new(),
        token_type: "Bearer".to_owned(),
        expires_in: Some(3600),
        expires_in_timestamp: None,
    }
}

fn headers() -> tame_gcs::http::HeaderMap {
    let mut headers = tame_gcs::http::HeaderMap::new();
    headers.insert("x-kept", tame_gcs::http::HeaderValue::from_static("yes"));
    headers
}

fn attaching() -> Execution {
    let (mut execution, _) = Execution::start();
    assert_eq!(execution.step(Event::TokenCached), Action::AttachToken);
    execution
}

#[test]
fn token_is_attached_as_authorization_header() {
    let mut execution = attaching();
    let (action, attached) = attach(&mut execution, token("abc123"), headers());
    assert_eq!(action, Action::SendRequest);
    assert_eq!(execution.phase, Phase::Dispatch);
    match attached {
        Attached::Headers(with) => {
            assert_eq!(
                with.get("authorization").map(|v| v.as_bytes()),
                Some(&b"Bearer abc123"[..])
            );
            assert_eq!(with.get("x-kept").map(|v| v.as_bytes()), Some(&b"yes"[..]));
            assert_eq!(with.len(), 2);
        }
        _ => panic!("expected the headers with the token"),
    }
}

#[test]
fn authorization_is_the_kind_a_space_and_the_text_of_the_token() {
    let mut execution = attaching();
    let mut other = token("s3cr3t");
    other.token_type = "MAC".to_owned();
    let (_, attached) = attach(&mut execution, other, tame_gcs::http::HeaderMap::new());
    match attached {
        Attached::Headers(with) => {
            assert_eq!(
                with.get("authorization").map(|v| v.as_bytes()),
                Some(&b"MAC s3cr3t"[..])
            );
            assert_eq!(with.len(), 1);
        }
        _ => panic!("expected the headers with the token"),
    }
}

#[test]
fn attached_token_replaces_an_earlier_authorization() {
    let mut execution = attaching();
    let mut headers = headers();
    headers.append(
        "authorization",
        tame_gcs::http::HeaderValue::from_static("Bearer old"),
    );
    headers.append(
        "authorization",
        tame_gcs::http::HeaderValue::from_static("Bearer older"),
    );
    let (_, attached) = attach(&mut execution, token("new"), headers);
    match attached {
        Attached::Headers(with) => {
            let values: Vec<&[u8]> = with
                .get_all("authorization")
                .iter()
                .map(|v| v.as_bytes())
                .collect();
            assert_eq!(values, vec![&b"Bearer new"[..]]);
            assert_eq!(with.get("x-kept").map(|v| v.as_bytes()), Some(&b"yes"[..]));
        }
        _ => panic!("expected the headers with the token"),
    }
}

#[test]
fn headers_with_room_always_take_the_token() {
    let mut headers = tame_gcs::http::HeaderMap::with_capacity(24000);
    for i in 0..(gsutil::transport::ROOM_FOR_HEADERS - 1) {
        headers.insert(
            tame_gcs::http::HeaderName::from_bytes(format!("x-h{}", i).as_bytes()).unwrap(),
            tame_gcs::http::HeaderValue::from_static("v"),
        );
    }
    assert_eq!(headers.keys_len(), gsutil::transport::ROOM_FOR_HEADERS - 1);
    let mut execution = attaching();
    let (action, attached) = attach(&mut execution, token("abc123"), headers);
    assert_eq!(action, Action::SendRequest);
    match attached {
        Attached::Headers(with) => {
            assert_eq!(with.keys_len(), gsutil::transport::ROOM_FOR_HEADERS)
        }
        _ => panic!("expected the headers with the token"),
    }
}

#[test]
fn full_headers_fail_the_execution() {
    let mut headers = tame_gcs::http::HeaderMap::new();
    let mut i = 0;
    loop {
        let name = tame_gcs::http::HeaderName::from_bytes(format!("x-h{}", i).as_bytes()).unwrap();
        if headers
            .try_insert(name, tame_gcs::http::HeaderValue::from_static("v"))
            .is_err()
        {
            break;
        }
        i += 1;
    }
    assert!(headers.keys_len() >= gsutil::transport::ROOM_FOR_HEADERS);
    let mut execution = attaching();
    let (action, attached) = attach(&mut execution, token("abc123"), headers);
    assert_eq!(action, Action::Fail(ExecError::Attach));
    assert_eq!(execution.phase, Phase::Failed);
    assert!(matches!(attached, Attached::HeadersFull));
}

#[test]
fn token_that_is_no_header_value_fails_the_execution() {
    let mut execution = attaching();
    let (action, attached) = attach(&mut execution, token("abc\n123"), headers());
    assert_eq!(action, Action::Fail(ExecError::Attach));
    assert_eq!(execution.phase, Phase::Failed);
    assert!(matches!(attached, Attached::Unencodable(_)));
}

#[test]
fn token_is_not_attached_out_of_turn() {
    let (mut execution, _) = Execution::start();
    let (action, attached) = attach(&mut execution, token("abc123"), headers());
    assert_eq!(action, Action::Fail(ExecError::OutOfOrder));
    assert_eq!(execution.phase, Phase::Failed);
    assert!(matches!(attached, Attached::NotExpected));
}

#[test]
fn executor_end_to_end_with_a_minted_token() {
    let provider = provider();
    // no cached token: one round trip to the token endpoint
    let (mut execution, action, registered) = mint(
        &provider,
        token_response(
            200,
            "{\"access_token\":\"abc123\",\"token_type\":\"Bearer\",\"expires_in\":3600}",
        ),
    );
    assert_eq!(action, Action::AttachToken);
    let token = match registered {
        Registered::Token(token) => token,
        _ => panic!("expected a token"),
    };
    // one authenticated round trip
    let request = gsutil::stat::request(
        &tame_gcs::objects::Object::default(),
        &gsutil::util::UrlParts::parse("gs://bucket-a/obj.txt").unwrap(),
    )
    .ok()
    .unwrap();
    let (mut parts, body) = request.into_parts();
    let (action, attached) = attach(&mut execution, token, std::mem::take(&mut parts.headers));
    assert_eq!(action, Action::SendRequest);
    match attached {
        Attached::Headers(with) => parts.headers = with,
        _ => panic!("expected the headers with the token"),
    }
    let request = tame_gcs::http::Request::from_parts(parts, body);
    assert_eq!(request.method(), tame_gcs::http::Method::GET);
    assert_eq!(
        request.uri().to_string(),
        "https://storage.googleapis.com/storage/v1/b/bucket-a/o/obj.txt?alt=json&prettyPrint=false"
    );
    assert_eq!(
        request.headers().get("authorization").map(|v| v.as_bytes()),
        Some(&b"Bearer abc123"[..])
    );
    assert_eq!(execution.step(Event::ResponseArrived), Action::DecodeResponse);
    // the mocked answer of the object store
    let response = tame_gcs::http::Response::builder()
        .status(200)
        .header("content-type", "application/json")
        .body(bytes::Bytes::from_static(
            b"{\"name\":\"obj.txt\",\"bucket\":\"bucket-a\",\"size\":\"37\",\"contentType\":\"text/plain\"}",
        ))
        .unwrap();
    let decoded: tame_gcs::objects::GetObjectResponse =
        tame_gcs::ApiResponse::try_from_parts(response).unwrap();
    assert_eq!(execution.step(Event::ResponseDecoded), Action::Succeed);
    assert_eq!(execution.phase, Phase::Done);
    assert_eq!(decoded.metadata.name.as_deref(), Some("obj.txt"));
    assert_eq!(decoded.metadata.bucket.as_deref(), Some("bucket-a"));
    assert_eq!(decoded.metadata.size, Some(37));
    assert_eq!(decoded.metadata.content_type.as_deref(), Some("text/plain"));
    // the next execution finds the token
    let (_, action, _) = acquire(&provider);
    assert_eq!(action, Action::AttachToken);
}

#[test]
fn attach_reports_why_a_token_has_no_header_value() {
    let mut execution = attaching();
    let (_, attached) = attach(&mut execution, token("abc\u{7f}"), headers());
    match attached {
        Attached::Unencodable(tame_oauth::Error::Http(_)) => {}
        _ => panic!("expected the token to be refused"),
    }
}
