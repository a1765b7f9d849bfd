use boxes_store::errors::{from_decoder_error, DecodeFailure, EndpointError, HttpStatus};

#[test]
fn missing_domain_field_maps_to_errno_100() {
    let e = from_decoder_error(DecodeFailure::MissingField("domain".to_owned()));
    assert_eq!(e.status, 400);
    assert_eq!(e.body.code, 400);
    assert_eq!(e.body.errno, 100);
    assert_eq!(e.body.error, "Bad Request");
}

#[test]
fn missing_tunnel_configured_field_maps_to_errno_101() {
    let e = from_decoder_error(DecodeFailure::MissingField("tunnel_configured".to_owned()));
    assert_eq!(e.status, 400);
    assert_eq!(e.body.code, 400);
    assert_eq!(e.body.errno, 101);
    assert_eq!(e.body.error, "Bad Request");
}

#[test]
fn any_other_missing_field_maps_to_errno_400() {
    let e = from_decoder_error(DecodeFailure::MissingField("local_ip".to_owned()));
    assert_eq!(e.status, 400);
    assert_eq!(e.body.code, 400);
    assert_eq!(e.body.errno, 400);
    assert_eq!(e.body.error, "Bad Request");
}

#[test]
fn malformed_body_maps_to_errno_400() {
    let e = from_decoder_error(DecodeFailure::Malformed);
    assert_eq!(e.status, 400);
    assert_eq!(e.body.code, 400);
    assert_eq!(e.body.errno, 400);
    assert_eq!(e.body.error, "Bad Request");
}

#[test]
fn with_builds_the_body_from_the_status() {
    let status = HttpStatus {
        code: 404,
        reason: Some("Not Found".to_owned()),
    };
    let e = EndpointError::with(status, 42);
    assert_eq!(e.status, 404);
    assert_eq!(e.body.code, 404);
    assert_eq!(e.body.errno, 42);
    assert_eq!(e.body.error, "Not Found");
}

#[test]
fn bad_request_carries_its_canonical_reason() {
    let status = HttpStatus::bad_request();
    assert_eq!(status.code, 400);
    assert_eq!(status.reason.as_deref(), Some("Bad Request"));
}
