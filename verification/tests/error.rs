use opensubsonic::{Error, SubsonicApiError, SubsonicErrorCode};

const ALL: [(i32, SubsonicErrorCode, &str); 9] = [
    (0, SubsonicErrorCode::Generic, "Generic error"),
    (10, SubsonicErrorCode::MissingParameter, "Missing parameter"),
    (20, SubsonicErrorCode::ClientMustUpgrade, "Client must upgrade"),
    (30, SubsonicErrorCode::ServerMustUpgrade, "Server must upgrade"),
    (40, SubsonicErrorCode::WrongCredentials, "Wrong credentials"),
    (41, SubsonicErrorCode::TokenAuthNotSupported, "Token auth not supported"),
    (50, SubsonicErrorCode::NotAuthorized, "Not authorized"),
    (60, SubsonicErrorCode::TrialExpired, "Trial expired"),
    (70, SubsonicErrorCode::NotFound, "Not found"),
];

#[test]
fn known_codes_map_both_ways() {
    for (n, code, words) in ALL {
        assert_eq!(SubsonicErrorCode::from_code(n), Some(code));
        assert_eq!(code.code(), n);
        assert_eq!(code.as_str(), words);
        assert_eq!(code.to_string(), words);
    }
}

#[test]
fn other_codes_are_unknown() {
    for n in [-1, 1, 9, 11, 42, 49, 51, 71, 100, i32::MAX, i32::MIN] {
        assert_eq!(SubsonicErrorCode::from_code(n), None);
    }
}

#[test]
fn api_error_text() {
    let known = SubsonicApiError { code: 40, message: "Wrong username or password".to_string() };
    assert_eq!(known.error_code(), Some(SubsonicErrorCode::WrongCredentials));
    assert_eq!(
        known.to_string(),
        "Subsonic API error 40: Wrong username or password (Wrong credentials)"
    );
    let unknown = SubsonicApiError { code: -7, message: "odd".to_string() };
    assert_eq!(unknown.error_code(), None);
    assert_eq!(unknown.to_string(), "Subsonic API error -7: odd");
}

#[test]
fn error_text_of_each_variant() {
    assert_eq!(Error::Http("timed out".to_string()).to_string(), "HTTP error: timed out");
    assert_eq!(
        Error::Api(SubsonicApiError { code: 70, message: "gone".to_string() }).to_string(),
        "Subsonic API error 70: gone (Not found)"
    );
    assert_eq!(Error::Parse("bad".to_string()).to_string(), "Parse error: bad");
    assert_eq!(
        Error::Url(url::ParseError::EmptyHost).to_string(),
        "URL error: empty host"
    );
    assert_eq!(Error::Other("plain".to_string()).to_string(), "plain");
}

#[test]
fn url_errors_convert() {
    let e: Error = url::ParseError::InvalidPort.into();
    assert!(matches!(e, Error::Url(url::ParseError::InvalidPort)));
}
