//! The removal of an object.

use vstd::prelude::*;
use crate::util::{
    names_object, object_at, object_of_path, opt_text, request_fault, RequestError, UrlParts,
};

verus! {

/// The request by which the object store `obj` is asked to delete the named
/// object, or the reason why there is none: what `Object::delete` of
/// `tame_gcs` makes of the two names, without optional parameters.
pub uninterp spec fn delete_request(
    obj: tame_gcs::objects::Object,
    bucket: Seq<char>,
    object: Seq<char>,
) -> Result<tame_gcs::http::Request<std::io::Empty>, tame_gcs::Error>;

/// `Object::delete` of `tame_gcs` without optional parameters, for the names
/// as `BucketName::try_from` and `ObjectName::try_from` read them. The
/// contract only gives the outcome a name: it depends on the store and the
/// two names alone.
#[verifier::external_body]
fn object_delete(obj: &tame_gcs::objects::Object, bucket: &str, object: &str) -> (r: Result<
    tame_gcs::http::Request<std::io::Empty>,
    tame_gcs::Error,
>)
    ensures
        r == delete_request(*obj, bucket@, object@),
{
    let bucket = tame_gcs::BucketName::try_from(bucket)?;
    let object = tame_gcs::ObjectName::try_from(object)?;
    obj.delete(&(&bucket, &object), None)
}

/// The request that deletes the object at a URL: the one that the object
/// store makes for the bucket and the object that the URL names. A URL that
/// names no object has none.
pub fn request(obj: &tame_gcs::objects::Object, url: &UrlParts) -> (r: Result<
    tame_gcs::http::Request<std::io::Empty>,
    RequestError,
>)
    ensures
        match r {
            Ok(_) => names_object(url),
            Err(e) => request_fault(e, url),
        },
        names_object(url) ==> match delete_request(
            *obj,
            opt_text(url.host).unwrap(),
            object_of_path(url.path@).unwrap(),
        ) {
            Ok(request) => r matches Ok(found) && found == request,
            Err(e) => r matches Err(RequestError::Refused(found)) && found == e,
        },
{
    let target = match object_at(url) {
        Ok(target) => target,
        Err(e) => {
            return Err(RequestError::Address(e));
        },
    };
    match object_delete(obj, target.bucket.as_str(), target.object.as_str()) {
        Ok(request) => Ok(request),
        Err(e) => Err(RequestError::Refused(e)),
    }
}

} // verus!
