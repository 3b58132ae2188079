use opensubsonic::envelope::{
    decode_document, decode_response, parse_envelope, read_envelope, ApiErrorResponse, Defect,
    Payload, SubsonicResponse, NO_ERROR_OBJECT,
};
use opensubsonic::json::Json;
use opensubsonic::{Error, SubsonicErrorCode};

fn text(s: &str) -> Json {
    Json::Str(s.to_string())
}

fn object(members: Vec<(&str, Json)>) -> Json {
    Json::Object(members.into_iter().map(|(k, v)| (k.to_string(), v)).collect())
}

fn wrapped(inner: Vec<(&str, Json)>) -> Json {
    object(vec![("subsonic-response", object(inner))])
}

fn parse_message(r: Result<Payload, Error>) -> String {
    match r {
        Err(Error::Parse(m)) => m,
        other => panic!("expected a parse error, got {:?}", other),
    }
}

#[test]
fn parse_ok_response() {
    let json = r#"{
            "subsonic-response": {
                "status": "ok",
                "version": "1.16.1",
                "type": "navidrome",
                "serverVersion": "0.49.3",
                "openSubsonic": true
            }
        }"#;
    let response = parse_envelope(json).unwrap();
    assert_eq!(response.status, "ok");
    assert_eq!(response.version.as_deref(), Some("1.16.1"));
    assert_eq!(response.server_type.as_deref(), Some("navidrome"));
    assert!(response.error.is_none());
}

#[test]
fn parse_error_response() {
    let json = r#"{
            "subsonic-response": {
                "status": "failed",
                "version": "1.16.1",
                "error": {
                    "code": 40,
                    "message": "Wrong username or password"
                }
            }
        }"#;
    let response = parse_envelope(json).unwrap();
    assert_eq!(response.status, "failed");
    let err = response.error.unwrap();
    assert_eq!(err.code, 40);
    assert_eq!(err.message.as_deref(), Some("Wrong username or password"));
}

#[test]
fn parse_envelope_reads_every_field() {
    let json = r#"{"subsonic-response":{"status":"ok","version":"1.16.1","type":"navidrome",
        "serverVersion":"0.49.3","openSubsonic":true,"license":{"valid":true},"n":[1,-2,3.5]}}"#;
    let response = parse_envelope(json).unwrap();
    let expected = SubsonicResponse {
        status: "ok".to_string(),
        version: Some("1.16.1".to_string()),
        server_type: Some("navidrome".to_string()),
        server_version: Some("0.49.3".to_string()),
        open_subsonic: Some(true),
        error: None,
        data: Payload {
            fields: vec![
                ("license".to_string(), object(vec![("valid", Json::Bool(true))])),
                (
                    "n".to_string(),
                    Json::Array(vec![
                        Json::Number("1".to_string()),
                        Json::Number("-2".to_string()),
                        Json::Number("3.5".to_string()),
                    ]),
                ),
            ],
        },
    };
    assert_eq!(response, expected);
}

#[test]
fn failed_envelope_gives_the_api_error() {
    let r = decode_response(
        r#"{"subsonic-response":{"status":"failed","error":{"code":40,"message":"Wrong username or password"}}}"#,
    );
    match r {
        Err(Error::Api(e)) => {
            assert_eq!(e.code, 40);
            assert_eq!(e.message, "Wrong username or password");
            assert_eq!(e.error_code(), Some(SubsonicErrorCode::WrongCredentials));
        }
        other => panic!("expected an API error, got {:?}", other),
    }
}

#[test]
fn success_envelope_gives_the_payload_without_envelope_fields() {
    let payload = decode_response(
        r#"{"subsonic-response":{"status":"ok","version":"1.16.1","type":"x","serverVersion":"2",
            "openSubsonic":false,"error":null,"license":{"valid":true}}}"#,
    )
    .unwrap();
    assert_eq!(payload.fields.len(), 1);
    assert_eq!(payload.get("license"), Some(&object(vec![("valid", Json::Bool(true))])));
    for name in ["status", "version", "type", "serverVersion", "openSubsonic", "error"] {
        assert!(payload.get(name).is_none());
    }
}

#[test]
fn payload_keeps_the_order_of_the_members_it_is_given() {
    let doc = wrapped(vec![
        ("zeta", Json::Null),
        ("status", text("ok")),
        ("alpha", Json::Bool(false)),
        ("version", text("1")),
        ("mid", text("m")),
    ]);
    let payload = decode_document(&doc, "raw").unwrap();
    let names: Vec<&str> = payload.fields.iter().map(|(k, _)| k.as_str()).collect();
    assert_eq!(names, vec!["zeta", "alpha", "mid"]);
}

#[test]
fn failure_without_error_object_is_code_zero() {
    let r = decode_response(r#"{"subsonic-response":{"status":"failed"}}"#);
    match r {
        Err(Error::Api(e)) => {
            assert_eq!(e.code, 0);
            assert_eq!(e.message, NO_ERROR_OBJECT);
            assert_eq!(e.message, "Unknown API error (status != ok but no error object)");
            assert_eq!(e.error_code(), Some(SubsonicErrorCode::Generic));
        }
        other => panic!("expected an API error, got {:?}", other),
    }
}

#[test]
fn any_status_but_ok_is_a_failure() {
    for status in ["failed", "OK", "", "okay"] {
        let doc = wrapped(vec![
            ("status", text(status)),
            ("error", object(vec![("code", Json::Number("70".to_string()))])),
            ("song", Json::Null),
        ]);
        match decode_document(&doc, "") {
            Err(Error::Api(e)) => {
                assert_eq!(e.code, 70);
                assert_eq!(e.message, "");
            }
            other => panic!("expected an API error, got {:?}", other),
        }
    }
}

#[test]
fn error_object_is_ignored_on_success() {
    let doc = wrapped(vec![
        ("status", text("ok")),
        ("error", object(vec![("code", Json::Number("40".to_string()))])),
        ("x", Json::Null),
    ]);
    let payload = decode_document(&doc, "").unwrap();
    assert_eq!(payload.fields, vec![("x".to_string(), Json::Null)]);
}

#[test]
fn malformed_json_is_a_parse_error_with_the_raw_text() {
    let raw = "<html>502 Bad Gateway</html>";
    let m = parse_message(decode_response(raw));
    assert!(m.ends_with(": <html>502 Bad Gateway</html>"));
    assert!(m.len() > raw.len() + 2);
}

#[test]
fn missing_top_level_key_is_a_parse_error_with_the_raw_text() {
    let raw = r#"{"other":{"status":"ok"}}"#;
    let m = parse_message(decode_response(raw));
    assert_eq!(m, format!("missing field `subsonic-response`: {}", raw));
}

#[test]
fn every_defect_is_found() {
    let n = |s: &str| Json::Number(s.to_string());
    let cases: Vec<(Json, Defect)> = vec![
        (Json::Array(vec![]), Defect::NotAnObject),
        (Json::Null, Defect::NotAnObject),
        (object(vec![("x", Json::Null)]), Defect::MissingEnvelope),
        (object(vec![("subsonic-response", text("ok"))]), Defect::EnvelopeNotObject),
        (wrapped(vec![("version", text("1"))]), Defect::MissingStatus),
        (wrapped(vec![("status", n("1"))]), Defect::BadStatus),
        (wrapped(vec![("status", Json::Null)]), Defect::BadStatus),
        (wrapped(vec![("status", text("ok")), ("version", n("1"))]), Defect::BadVersion),
        (wrapped(vec![("status", text("ok")), ("type", Json::Bool(true))]), Defect::BadServerType),
        (
            wrapped(vec![("status", text("ok")), ("serverVersion", Json::Array(vec![]))]),
            Defect::BadServerVersion,
        ),
        (
            wrapped(vec![("status", text("ok")), ("openSubsonic", text("true"))]),
            Defect::BadOpenSubsonic,
        ),
        (wrapped(vec![("status", text("ok")), ("error", text("boom"))]), Defect::BadError),
        (wrapped(vec![("status", text("ok")), ("error", Json::Array(vec![]))]), Defect::BadError),
        (
            wrapped(vec![("status", text("failed")), ("error", object(vec![]))]),
            Defect::MissingCode,
        ),
        (
            wrapped(vec![("status", text("failed")), ("error", object(vec![("code", text("40"))]))]),
            Defect::BadCode,
        ),
        (
            wrapped(vec![("status", text("failed")), ("error", object(vec![("code", n("40.0"))]))]),
            Defect::BadCode,
        ),
        (
            wrapped(vec![
                ("status", text("failed")),
                ("error", object(vec![("code", n("2147483648"))])),
            ]),
            Defect::BadCode,
        ),
        (
            wrapped(vec![
                ("status", text("failed")),
                ("error", object(vec![("code", n("40")), ("message", n("1"))])),
            ]),
            Defect::BadMessage,
        ),
    ];
    for (doc, defect) in cases {
        assert_eq!(read_envelope(&doc), Err(defect), "{:?}", doc);
        let m = parse_message(decode_document(&doc, "the text"));
        assert_eq!(m, format!("{}: the text", defect.as_str()));
    }
}

#[test]
fn the_first_defect_in_reading_order_is_reported() {
    let doc = wrapped(vec![
        ("error", text("bad")),
        ("openSubsonic", text("bad")),
        ("version", Json::Bool(true)),
        ("status", text("ok")),
    ]);
    assert_eq!(read_envelope(&doc), Err(Defect::BadVersion));
}

#[test]
fn error_codes_at_the_edges_of_32_bits() {
    for (code, expected) in [("2147483647", i32::MAX), ("-2147483648", i32::MIN), ("0", 0)] {
        let doc = wrapped(vec![
            ("status", text("failed")),
            (
                "error",
                object(vec![("code", Json::Number(code.to_string())), ("message", Json::Null)]),
            ),
        ]);
        let response = read_envelope(&doc).unwrap();
        assert_eq!(response.error, Some(ApiErrorResponse { code: expected, message: None }));
    }
}

#[test]
fn into_result_parts_success_from_failure() {
    let ok = read_envelope(&wrapped(vec![("status", text("ok")), ("a", Json::Null)])).unwrap();
    assert_eq!(ok.into_result("fallback").unwrap().fields, vec![("a".to_string(), Json::Null)]);
    let failed = read_envelope(&wrapped(vec![("status", text("failed"))])).unwrap();
    let e = failed.into_result("fallback").unwrap_err();
    assert_eq!((e.code, e.message.as_str()), (0, "fallback"));
}

#[test]
fn unknown_error_codes_are_kept() {
    let r = decode_response(r#"{"subsonic-response":{"status":"failed","error":{"code":1234,"message":"?"}}}"#);
    match r {
        Err(Error::Api(e)) => {
            assert_eq!(e.code, 1234);
            assert_eq!(e.error_code(), None);
        }
        other => panic!("expected an API error, got {:?}", other),
    }
}

#[test]
fn json_numbers_and_nesting_come_through_the_parser() {
    let payload = decode_response(
        r#"{"subsonic-response":{"status":"ok","a":{"b":[{"c":"d"},null,18446744073709551615,-0.5e3]}}}"#,
    )
    .unwrap();
    let expected = object(vec![(
        "b",
        Json::Array(vec![
            object(vec![("c", text("d"))]),
            Json::Null,
            Json::Number("18446744073709551615".to_string()),
            Json::Number("-500.0".to_string()),
        ]),
    )]);
    assert_eq!(payload.get("a"), Some(&expected));
    assert_eq!(payload.get("a").unwrap().get("b").unwrap().clone(), expected.get("b").unwrap().duplicate());
}
