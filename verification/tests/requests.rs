use gsutil::cp::{plan, Acl, DataPath, UploadError, MAX_UPLOAD_LENGTH};
use gsutil::util::{ObjectError, RequestError, UrlError, UrlParts};

fn store() -> tame_gcs::objects::Object {
    tame_gcs::objects::Object::default()
}

fn url(text: &str) -> UrlParts {
    UrlParts::parse(text).unwrap()
}

fn path(text: &str) -> DataPath {
    match DataPath::try_from(text.to_owned()) {
        Ok(p) => p,
        Err(_) => panic!("{:?} is no path", text),
    }
}

#[test]
fn delete_request_addresses_the_object() {
    let request = gsutil::rm::request(&store(), &url("gs://bucket-a/dir/obj.txt"))
        .ok()
        .unwrap();
    assert_eq!(request.method(), tame_gcs::http::Method::DELETE);
    assert_eq!(
        request.uri().to_string(),
        "https://storage.googleapis.com/storage/v1/b/bucket-a/o/dir%2Fobj.txt?prettyPrint=false"
    );
}

#[test]
fn delete_request_needs_an_object() {
    assert!(matches!(
        gsutil::rm::request(&store(), &url("gs://bucket-a")),
        Err(RequestError::Address(ObjectError::MissingObject))
    ));
    assert!(matches!(
        gsutil::rm::request(&store(), &url("https://bucket-a/obj.txt")),
        Err(RequestError::Address(ObjectError::Url(UrlError::InvalidScheme(_))))
    ));
    assert!(matches!(
        gsutil::rm::request(&store(), &url("gs://no/obj.txt")),
        Err(RequestError::Address(ObjectError::Url(UrlError::InvalidBucket(_))))
    ));
    assert!(matches!(
        gsutil::rm::request(&store(), &url("gs:obj.txt")),
        Err(RequestError::Address(ObjectError::Url(UrlError::NoBucket)))
    ));
}

#[test]
fn metadata_request_addresses_the_object() {
    let request = gsutil::stat::request(&store(), &url("gs://bucket-a/obj.txt"))
        .ok()
        .unwrap();
    assert_eq!(request.method(), tame_gcs::http::Method::GET);
    assert_eq!(
        request.uri().to_string(),
        "https://storage.googleapis.com/storage/v1/b/bucket-a/o/obj.txt?alt=json&prettyPrint=false"
    );
}

#[test]
fn metadata_request_needs_an_object() {
    assert!(matches!(
        gsutil::stat::request(&store(), &url("gs://bucket-a/")),
        Err(RequestError::Address(ObjectError::MissingObject))
    ));
    assert!(matches!(
        gsutil::stat::request(&store(), &url("file:///bucket-a/obj.txt")),
        Err(RequestError::Address(ObjectError::Url(UrlError::InvalidScheme(_))))
    ));
}

#[test]
fn download_plan_gives_a_download_request() {
    let plan = plan(&path("gs://bucket-a/obj.txt"), &path("out.txt"), None)
        .ok()
        .unwrap();
    let request = plan.download_request(&store()).unwrap().unwrap();
    assert_eq!(request.method(), tame_gcs::http::Method::GET);
    assert_eq!(
        request.uri().to_string(),
        "https://storage.googleapis.com/storage/v1/b/bucket-a/o/obj.txt?alt=media&prettyPrint=false"
    );
    assert!(plan.upload_request(&store(), std::io::empty(), 0).is_none());
}

#[test]
fn upload_plan_gives_an_upload_request() {
    let plan = plan(
        &path("in.txt"),
        &path("gs://bucket-a/dir/obj.txt"),
        Some(Acl::PublicRead),
    )
    .ok()
    .unwrap();
    assert!(plan.download_request(&store()).is_none());
    let content = std::io::Cursor::new(b"hello".to_vec());
    let mut request = plan.upload_request(&store(), content, 5).unwrap().unwrap();
    assert_eq!(request.method(), tame_gcs::http::Method::POST);
    assert_eq!(
        request.uri().to_string(),
        "https://storage.googleapis.com/upload/storage/v1/b/bucket-a/o?uploadType=multipart&prettyPrint=false&predefinedAcl=publicRead"
    );
    let mut body = String::new();
    std::io::Read::read_to_string(request.body_mut(), &mut body).unwrap();
    assert!(body.contains("\"name\":\"dir/obj.txt\""), "{}", body);
    assert!(body.contains("\"contentEncoding\":\"identity\""), "{}", body);
    assert!(body.contains("hello"), "{}", body);
    assert_eq!(
        request
            .headers()
            .get("content-length")
            .and_then(|v| v.to_str().ok())
            .and_then(|v| v.parse::<usize>().ok()),
        Some(body.len())
    );
}

#[test]
fn every_predefined_acl_keeps_its_name() {
    let cases = [
        (Acl::ProjectPrivate, "projectPrivate"),
        (Acl::Private, "private"),
        (Acl::PublicRead, "publicRead"),
        (Acl::AuthenticatedRead, "authenticatedRead"),
        (Acl::BucketOwnerRead, "bucketOwnerRead"),
        (Acl::BucketOwnerFullControl, "bucketOwnerFullControl"),
    ];
    for (acl, name) in cases {
        let plan = plan(&path("in.txt"), &path("gs://bucket-a/obj.txt"), Some(acl))
            .ok()
            .unwrap();
        let request = plan
            .upload_request(&store(), std::io::empty(), 0)
            .unwrap()
            .unwrap();
        assert!(
            request
                .uri()
                .to_string()
                .ends_with(&format!("predefinedAcl={}", name)),
            "{}",
            request.uri()
        );
    }
}

#[test]
fn upload_without_a_name_is_refused() {
    let plan = plan(&path("in.txt"), &path("gs://bucket-a"), None)
        .ok()
        .unwrap();
    assert!(matches!(
        plan.upload_request(&store(), std::io::empty(), 0),
        Some(Err(UploadError::Refused(tame_gcs::Error::InvalidLength { .. })))
    ));
}

#[test]
fn upload_of_too_much_is_refused() {
    assert_eq!(MAX_UPLOAD_LENGTH, 1 << 62);
    let plan = plan(&path("in.txt"), &path("gs://bucket-a/obj.txt"), None)
        .ok()
        .unwrap();
    assert!(matches!(
        plan.upload_request(&store(), std::io::empty(), MAX_UPLOAD_LENGTH + 1),
        Some(Err(UploadError::TooLong))
    ));
    assert!(matches!(
        plan.upload_request(&store(), std::io::empty(), u64::MAX),
        Some(Err(UploadError::TooLong))
    ));
    let request = plan
        .upload_request(&store(), std::io::empty(), MAX_UPLOAD_LENGTH)
        .unwrap()
        .unwrap();
    let declared = request
        .headers()
        .get("content-length")
        .and_then(|v| v.to_str().ok())
        .and_then(|v| v.parse::<u64>().ok())
        .unwrap();
    assert!(declared > MAX_UPLOAD_LENGTH);
}
