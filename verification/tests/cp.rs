use gsutil::cp::{plan, Acl, CopyError, CopyPlan, DataPath, PathError};
use gsutil::util::UrlError;

fn path(text: &str) -> DataPath {
    match DataPath::try_from(text.to_owned()) {
        Ok(p) => p,
        Err(_) => panic!("{:?} is no path", text),
    }
}

#[test]
fn local_path_is_taken_as_it_is() {
    match path("some/dir/file.txt") {
        DataPath::Local(p) => assert_eq!(p, "some/dir/file.txt"),
        DataPath::Gs(_) => panic!("expected a local path"),
    }
    match path("gs:/not-quite") {
        DataPath::Local(p) => assert_eq!(p, "gs:/not-quite"),
        DataPath::Gs(_) => panic!("expected a local path"),
    }
    match path("GS://bucket-a/obj") {
        DataPath::Local(p) => assert_eq!(p, "GS://bucket-a/obj"),
        DataPath::Gs(_) => panic!("expected a local path"),
    }
    match path("") {
        DataPath::Local(p) => assert_eq!(p, ""),
        DataPath::Gs(_) => panic!("expected a local path"),
    }
}

#[test]
fn is_local_tells_the_two_apart() {
    assert!(path("file.txt").is_local());
    assert!(!path("gs://bucket-a/obj.txt").is_local());
}

#[test]
fn gs_path_names_bucket_and_object() {
    match path("gs://bucket-a/dir/obj.txt") {
        DataPath::Gs(id) => {
            assert_eq!(id.bucket(), "bucket-a");
            assert_eq!(id.object().map(|o| o.as_str()), Some("dir/obj.txt"));
        }
        DataPath::Local(_) => panic!("expected an object-store path"),
    }
}

#[test]
fn gs_path_must_be_a_url() {
    assert!(matches!(
        DataPath::try_from("gs://[::1/obj".to_owned()),
        Err(PathError::InvalidUrl(_))
    ));
    assert!(matches!(
        DataPath::try_from("gs://bucket a/obj".to_owned()),
        Err(PathError::InvalidUrl(_))
    ));
}

#[test]
fn gs_path_without_anything_names_no_bucket() {
    match DataPath::try_from("gs://".to_owned()) {
        Err(PathError::Url(UrlError::NoBucket)) => {}
        Err(PathError::Url(UrlError::InvalidBucket(_))) => {}
        _ => panic!("expected a URL without a bucket"),
    }
}

#[test]
fn gs_path_must_name_a_bucket() {
    assert!(matches!(
        DataPath::try_from("gs://no/obj".to_owned()),
        Err(PathError::Url(UrlError::InvalidBucket(_)))
    ));
}

#[test]
fn copy_between_two_local_paths_is_refused() {
    assert_eq!(
        plan(&path("a.txt"), &path("b.txt"), None).err(),
        Some(CopyError::BothLocal)
    );
}

#[test]
fn copy_between_two_objects_is_refused() {
    assert_eq!(
        plan(&path("gs://bucket-a/a"), &path("gs://bucket-b/b"), None).err(),
        Some(CopyError::BothRemote)
    );
}

#[test]
fn upload_takes_its_name_from_the_destination() {
    match plan(
        &path("a.txt"),
        &path("gs://bucket-a/dir/b.txt"),
        Some(Acl::PublicRead),
    ) {
        Ok(CopyPlan::Upload {
            source,
            bucket,
            name,
            content_encoding,
            predefined_acl,
        }) => {
            assert_eq!(source, "a.txt");
            assert_eq!(bucket, "bucket-a");
            assert_eq!(name.as_deref(), Some("dir/b.txt"));
            assert_eq!(content_encoding, "identity");
            assert_eq!(predefined_acl, Some(Acl::PublicRead));
        }
        _ => panic!("expected an upload"),
    }
}

#[test]
fn upload_to_a_bare_bucket_has_no_name() {
    match plan(&path("a.txt"), &path("gs://bucket-a"), None) {
        Ok(CopyPlan::Upload {
            name,
            predefined_acl,
            ..
        }) => {
            assert_eq!(name, None);
            assert_eq!(predefined_acl, None);
        }
        _ => panic!("expected an upload"),
    }
}

#[test]
fn download_names_object_and_destination() {
    match plan(&path("gs://bucket-a/dir/a.txt"), &path("out/a.txt"), None) {
        Ok(CopyPlan::Download {
            bucket,
            object,
            destination,
        }) => {
            assert_eq!(bucket, "bucket-a");
            assert_eq!(object, "dir/a.txt");
            assert_eq!(destination, "out/a.txt");
        }
        _ => panic!("expected a download"),
    }
}

#[test]
fn download_needs_an_object() {
    assert_eq!(
        plan(&path("gs://bucket-a"), &path("out/a.txt"), None).err(),
        Some(CopyError::MissingSourceObject)
    );
}
