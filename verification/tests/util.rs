use gsutil::util::{gs_url_to_object_id, object_at, ObjectError, UrlError, UrlParts};

fn parts(scheme: &str, host: Option<&str>, path: &str) -> UrlParts {
    UrlParts {
        scheme: scheme.to_owned(),
        host: host.map(|h| h.to_owned()),
        path: path.to_owned(),
    }
}

#[test]
fn url_parse_copies_scheme_host_and_path() {
    let url = UrlParts::parse("gs://bucket-a/obj.txt").unwrap();
    assert_eq!(url.scheme, "gs");
    assert_eq!(url.host.as_deref(), Some("bucket-a"));
    assert_eq!(url.path, "/obj.txt");
}

#[test]
fn url_parse_lowers_the_scheme_and_encodes_the_path() {
    let url = UrlParts::parse("GS://bucket-a/dir/a b").unwrap();
    assert_eq!(url.scheme, "gs");
    assert_eq!(url.path, "/dir/a%20b");
}

#[test]
fn url_parse_refuses_a_relative_url() {
    assert!(UrlParts::parse("bucket-a/obj.txt").is_err());
    assert!(UrlParts::parse("").is_err());
}

#[test]
fn url_without_path_has_empty_path() {
    let url = UrlParts::parse("gs://bucket-a").unwrap();
    assert_eq!(url.path, "");
    assert_eq!(url.host.as_deref(), Some("bucket-a"));
}

#[test]
fn url_without_host_has_no_host() {
    let url = UrlParts::parse("gs:bucket-a/obj.txt").unwrap();
    assert_eq!(url.scheme, "gs");
    assert_eq!(url.host, None);
}

#[test]
fn object_id_of_bucket_and_object() {
    let id = gs_url_to_object_id(&UrlParts::parse("gs://bucket-a/obj.txt").unwrap())
        .ok()
        .unwrap();
    assert_eq!(id.bucket(), "bucket-a");
    assert_eq!(id.object().map(|o| o.as_str()), Some("obj.txt"));
}

#[test]
fn object_id_keeps_nested_object_names() {
    let id = gs_url_to_object_id(&parts("gs", Some("bucket-a"), "/dir/sub/obj.txt"))
        .ok()
        .unwrap();
    assert_eq!(id.object().map(|o| o.as_str()), Some("dir/sub/obj.txt"));
}

#[test]
fn object_id_of_bucket_only() {
    let id = gs_url_to_object_id(&UrlParts::parse("gs://bucket-a").unwrap())
        .ok()
        .unwrap();
    assert_eq!(id.bucket(), "bucket-a");
    assert!(id.object().is_none());

    let id = gs_url_to_object_id(&parts("gs", Some("bucket-a"), "/"))
        .ok()
        .unwrap();
    assert!(id.object().is_none());
}

#[test]
fn object_id_drops_an_unacceptable_object_name() {
    for path in ["/.", "/...", "/a#b", "/a[b", "/a]b", "/a*b", "/a?b", "/a\rb", "/a\nb", "/a\u{7f}b"] {
        let id = gs_url_to_object_id(&parts("gs", Some("bucket-a"), path))
            .ok()
            .unwrap();
        assert!(id.object().is_none(), "{:?}", path);
    }
    let id = gs_url_to_object_id(&parts(
        "gs",
        Some("bucket-a"),
        "/.well-known/acme-challenge/token",
    ))
    .ok()
    .unwrap();
    assert!(id.object().is_none());
}

#[test]
fn object_name_length_is_counted_in_bytes() {
    let longest = format!("/{}", "a".repeat(1024));
    let id = gs_url_to_object_id(&parts("gs", Some("bucket-a"), &longest))
        .ok()
        .unwrap();
    assert_eq!(id.object().map(|o| o.len()), Some(1024));

    let too_long = format!("/{}", "a".repeat(1025));
    let id = gs_url_to_object_id(&parts("gs", Some("bucket-a"), &too_long))
        .ok()
        .unwrap();
    assert!(id.object().is_none());

    // 512 characters of two bytes each fit, 513 do not
    let wide = format!("/{}", "\u{e9}".repeat(512));
    let id = gs_url_to_object_id(&parts("gs", Some("bucket-a"), &wide))
        .ok()
        .unwrap();
    assert!(id.object().is_some());
    let wider = format!("/{}", "\u{e9}".repeat(513));
    let id = gs_url_to_object_id(&parts("gs", Some("bucket-a"), &wider))
        .ok()
        .unwrap();
    assert!(id.object().is_none());
}

#[test]
fn object_name_may_hold_two_dots() {
    let id = gs_url_to_object_id(&parts("gs", Some("bucket-a"), "/.."))
        .ok()
        .unwrap();
    assert_eq!(id.object().map(|o| o.as_str()), Some(".."));
}

#[test]
fn object_id_skips_the_first_character_of_the_path() {
    let id = gs_url_to_object_id(&parts("gs", Some("bucket-a"), "\u{e9}obj"))
        .ok()
        .unwrap();
    assert_eq!(id.object().map(|o| o.as_str()), Some("obj"));
}

#[test]
fn other_scheme_is_refused() {
    match gs_url_to_object_id(&UrlParts::parse("https://bucket-a/obj.txt").unwrap()) {
        Err(UrlError::InvalidScheme(s)) => assert_eq!(s, "https"),
        _ => panic!("expected an invalid scheme"),
    }
    match gs_url_to_object_id(&parts("gss", Some("bucket-a"), "/obj")) {
        Err(UrlError::InvalidScheme(s)) => assert_eq!(s, "gss"),
        _ => panic!("expected an invalid scheme"),
    }
    match gs_url_to_object_id(&parts("g", Some("bucket-a"), "/obj")) {
        Err(UrlError::InvalidScheme(s)) => assert_eq!(s, "g"),
        _ => panic!("expected an invalid scheme"),
    }
}

#[test]
fn missing_host_is_refused() {
    assert!(matches!(
        gs_url_to_object_id(&UrlParts::parse("gs:bucket-a/obj.txt").unwrap()),
        Err(UrlError::NoBucket)
    ));
}

fn bucket_error(name: &str) -> tame_gcs::Error {
    match gs_url_to_object_id(&parts("gs", Some(name), "/obj")) {
        Err(UrlError::InvalidBucket(e)) => e,
        _ => panic!("expected {:?} to be refused", name),
    }
}

#[test]
fn bucket_name_length_is_limited() {
    assert_eq!(
        bucket_error("no"),
        tame_gcs::Error::InvalidCharacterCount { len: 2, min: 3, max: 63 }
    );
    assert_eq!(
        bucket_error(&"a".repeat(64)),
        tame_gcs::Error::InvalidCharacterCount { len: 64, min: 3, max: 63 }
    );
    assert!(gs_url_to_object_id(&parts("gs", Some("abc"), "/obj")).is_ok());
    assert!(gs_url_to_object_id(&parts("gs", Some(&"a".repeat(63)), "/obj")).is_ok());
}

#[test]
fn bucket_name_characters_are_limited() {
    assert_eq!(bucket_error("uhOH"), tame_gcs::Error::InvalidCharacter(2, 'O'));
    assert_eq!(bucket_error(".uh.oh"), tame_gcs::Error::InvalidCharacter(0, '.'));
    assert_eq!(bucket_error("uh.oh."), tame_gcs::Error::InvalidCharacter(5, '.'));
    assert_eq!(bucket_error("_uhoh"), tame_gcs::Error::InvalidCharacter(0, '_'));
    assert_eq!(bucket_error("uhoh-"), tame_gcs::Error::InvalidCharacter(4, '-'));
    assert_eq!(bucket_error("uh oh"), tame_gcs::Error::InvalidCharacter(2, ' '));
    assert_eq!(bucket_error("uh\u{e9}oh"), tame_gcs::Error::InvalidCharacter(2, '\u{e9}'));
    assert!(gs_url_to_object_id(&parts("gs", Some("uh.oh"), "/obj")).is_ok());
    assert!(gs_url_to_object_id(&parts("gs", Some("u-h_o.h9"), "/obj")).is_ok());
    assert!(gs_url_to_object_id(&parts("gs", Some("0ab"), "/obj")).is_ok());
}

#[test]
fn bucket_name_may_not_claim_the_vendor() {
    assert_eq!(bucket_error("googuhoh"), tame_gcs::Error::InvalidPrefix("goog"));
    assert_eq!(bucket_error("uhohg00gleuhoh"), tame_gcs::Error::InvalidSequence("google"));
    assert_eq!(bucket_error("uhohgoogle"), tame_gcs::Error::InvalidSequence("google"));
    assert!(gs_url_to_object_id(&parts("gs", Some("agoog"), "/obj")).is_ok());
    assert!(gs_url_to_object_id(&parts("gs", Some("goo-g"), "/obj")).is_ok());
}

#[test]
fn object_at_needs_an_object() {
    let found = object_at(&UrlParts::parse("gs://bucket-a/obj.txt").unwrap())
        .ok()
        .unwrap();
    assert_eq!(found.bucket, "bucket-a");
    assert_eq!(found.object, "obj.txt");

    assert!(matches!(
        object_at(&UrlParts::parse("gs://bucket-a").unwrap()),
        Err(ObjectError::MissingObject)
    ));
    assert!(matches!(
        object_at(&UrlParts::parse("gs://bucket-a/").unwrap()),
        Err(ObjectError::MissingObject)
    ));
    assert!(matches!(
        object_at(&UrlParts::parse("http://bucket-a/obj").unwrap()),
        Err(ObjectError::Url(UrlError::InvalidScheme(_)))
    ));
    assert!(matches!(
        object_at(&parts("gs", None, "/obj")),
        Err(ObjectError::Url(UrlError::NoBucket))
    ));
    assert!(matches!(
        object_at(&parts("gs", Some("no"), "/obj")),
        Err(ObjectError::Url(UrlError::InvalidBucket(_)))
    ));
}
