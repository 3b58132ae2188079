use opensubsonic::binary::{
    is_json_content_type, refuse_text, resolve_binary, NO_ERROR_OBJECT_BINARY, UNEXPECTED_SUCCESS,
};
use opensubsonic::Error;

#[test]
fn content_types_that_name_json() {
    for ct in [
        "application/json",
        "application/json; charset=utf-8",
        "Application/JSON",
        "text/json",
        "TEXT/Json;charset=UTF-8",
        "x application/json y",
    ] {
        assert!(is_json_content_type(ct), "{}", ct);
    }
    for ct in [
        "",
        "image/jpeg",
        "audio/mpeg",
        "application/jso",
        "json",
        "application/xml",
        "text-json",
        "application/ json",
        "applicatıon/json",
    ] {
        assert!(!is_json_content_type(ct), "{}", ct);
    }
}

#[test]
fn bytes_pass_unchanged_when_the_content_type_is_binary() {
    let body = vec![0u8, 159, 146, 150, 255, b'{'];
    assert_eq!(resolve_binary("image/png", body.clone()).unwrap(), body);
    assert_eq!(resolve_binary("", body.clone()).unwrap(), body);
    let json_looking = br#"{"subsonic-response":{"status":"failed","error":{"code":70}}}"#.to_vec();
    assert_eq!(resolve_binary("audio/mpeg", json_looking.clone()).unwrap(), json_looking);
}

#[test]
fn failure_envelope_on_a_binary_endpoint_is_the_api_error() {
    let body = br#"{"subsonic-response":{"status":"failed","version":"1.16.1","error":{"code":70,"message":"Cover art not found"}}}"#.to_vec();
    match resolve_binary("application/json; charset=utf-8", body) {
        Err(Error::Api(e)) => {
            assert_eq!(e.code, 70);
            assert_eq!(e.message, "Cover art not found");
        }
        other => panic!("expected an API error, got {:?}", other),
    }
}

#[test]
fn failure_without_error_object_on_a_binary_endpoint() {
    match resolve_binary("text/json", br#"{"subsonic-response":{"status":"failed"}}"#.to_vec()) {
        Err(Error::Api(e)) => {
            assert_eq!(e.code, 0);
            assert_eq!(e.message, NO_ERROR_OBJECT_BINARY);
            assert_eq!(e.message, "Unknown API error on binary endpoint");
        }
        other => panic!("expected an API error, got {:?}", other),
    }
}

#[test]
fn success_envelope_on_a_binary_endpoint_is_a_parse_error() {
    match resolve_binary("application/json", br#"{"subsonic-response":{"status":"ok"}}"#.to_vec()) {
        Err(Error::Parse(m)) => {
            assert_eq!(m, UNEXPECTED_SUCCESS);
            assert_eq!(m, "Expected binary response but got JSON with status=ok");
        }
        other => panic!("expected a parse error, got {:?}", other),
    }
}

#[test]
fn unreadable_json_on_a_binary_endpoint_is_a_parse_error_with_the_text() {
    match resolve_binary("application/json", b"not json".to_vec()) {
        Err(Error::Parse(m)) => assert!(m.ends_with(": not json")),
        other => panic!("expected a parse error, got {:?}", other),
    }
    match refuse_text(r#"{"x":1}"#) {
        Error::Parse(m) => assert_eq!(m, r#"missing field `subsonic-response`: {"x":1}"#),
        other => panic!("expected a parse error, got {:?}", other),
    }
}

#[test]
fn body_bytes_are_read_as_utf8() {
    let body = "{\"subsonic-response\":{\"status\":\"failed\",\"error\":{\"code\":50,\"message\":\"données privées\"}}}"
        .as_bytes()
        .to_vec();
    match resolve_binary("application/json", body) {
        Err(Error::Api(e)) => assert_eq!(e.message, "données privées"),
        other => panic!("expected an API error, got {:?}", other),
    }
}
