use opensubsonic::request::{assemble_url, request_path};
use opensubsonic::{Auth, Client, Error};

#[test]
fn build_url_contains_required_params() {
    let client = Client::new("https://music.example.com", "admin", Auth::token("pass")).unwrap();
    let url = client.build_url("ping", &[]).unwrap();
    let query: String = url.query().unwrap().to_string();

    assert_eq!(url.path(), "/rest/ping");
    assert!(query.contains("u=admin"));
    assert!(query.contains("v=1.16.1"));
    assert!(query.contains("c=opensubsonic-rs"));
    assert!(query.contains("f=json"));
    // Token auth params.
    assert!(query.contains("t="));
    assert!(query.contains("s="));
}

#[test]
fn build_url_preserves_base_path() {
    // When the base URL has a sub-path (e.g. /music), it must be preserved.
    let client =
        Client::new("https://host.example.com/music", "admin", Auth::token("pass")).unwrap();
    let url = client.build_url("ping", &[]).unwrap();

    assert_eq!(url.path(), "/music/rest/ping");
}

#[test]
fn build_url_preserves_base_path_with_trailing_slash() {
    let client =
        Client::new("https://host.example.com/music/", "admin", Auth::token("pass")).unwrap();
    let url = client.build_url("getArtists", &[]).unwrap();

    assert_eq!(url.path(), "/music/rest/getArtists");
}

#[test]
fn build_url_with_extra_params() {
    let client = Client::new("https://music.example.com", "admin", Auth::plain("pass")).unwrap();
    let url = client.build_url("getAlbum", &[("id", "42")]).unwrap();
    let query = url.query().unwrap().to_string();

    assert!(query.contains("id=42"));
    assert!(query.contains("p=enc%3A70617373") || query.contains("p=enc:70617373"));
}

#[test]
fn builder_methods() {
    let client = Client::new("https://example.com", "u", Auth::token("p"))
        .unwrap()
        .with_client_name("my-app")
        .with_api_version("1.15.0");

    assert_eq!(client.client_name(), "my-app");
    assert_eq!(client.api_version(), "1.15.0");
}

#[test]
fn new_client_has_the_defaults() {
    let client = Client::new("https://example.com/base", "someone", Auth::plain("pw")).unwrap();
    assert_eq!(client.base_url().as_str(), "https://example.com/base");
    assert_eq!(client.username(), "someone");
    assert_eq!(client.client_name(), "opensubsonic-rs");
    assert_eq!(client.api_version(), "1.16.1");
    assert!(matches!(client.auth(), Auth::Plain { password } if password == "pw"));
}

#[test]
fn new_client_rejects_a_relative_url() {
    let r = Client::new("not a url", "u", Auth::token("p"));
    assert!(matches!(r, Err(Error::Url(url::ParseError::RelativeUrlWithoutBase))));
}

#[test]
fn plain_url_is_exact() {
    let client = Client::new("https://host/music/", "admin", Auth::plain("pass")).unwrap();
    let url = client.build_url("getArtists", &[("musicFolderId", "7")]).unwrap();
    assert_eq!(url.path(), "/music/rest/getArtists");
    assert_eq!(
        url.as_str(),
        "https://host/music/rest/getArtists?u=admin&p=enc%3A70617373&v=1.16.1&c=opensubsonic-rs&f=json&musicFolderId=7"
    );
}

#[test]
fn token_url_with_a_fixed_salt_is_exact_and_repeatable() {
    let client = Client::new("https://host/music", "admin", Auth::token("sesame")).unwrap();
    let credentials = Auth::token("sesame").params_with_salt("c19b2d");
    let first = client.build_url_with("ping", &credentials, &[("id", "1"), ("id", "2")]).unwrap();
    let second = client.build_url_with("ping", &credentials, &[("id", "1"), ("id", "2")]).unwrap();
    assert_eq!(first.as_str(), second.as_str());
    assert_eq!(
        first.as_str(),
        "https://host/music/rest/ping?u=admin&t=26719a1196d2a940705a59634eb18eab&s=c19b2d&v=1.16.1&c=opensubsonic-rs&f=json&id=1&id=2"
    );
}

#[test]
fn query_pairs_come_in_the_fixed_order() {
    let client = Client::new("https://h/", "me", Auth::plain("a"))
        .unwrap()
        .with_client_name("app")
        .with_api_version("1.2.3");
    let credentials = client.auth().params_with_salt("");
    let pairs = client.query_pairs(&credentials, &[("x", "1"), ("x", "2"), ("y", "")]);
    let expected: Vec<(String, String)> = [
        ("u", "me"),
        ("p", "enc:61"),
        ("v", "1.2.3"),
        ("c", "app"),
        ("f", "json"),
        ("x", "1"),
        ("x", "2"),
        ("y", ""),
    ]
    .iter()
    .map(|(k, v)| (k.to_string(), v.to_string()))
    .collect();
    assert_eq!(pairs, expected);
}

#[test]
fn values_are_percent_encoded_by_the_url_library() {
    let client = Client::new("https://h", "a b", Auth::plain("x")).unwrap();
    let url = client.build_url("search3", &[("query", "été & hiver")]).unwrap();
    assert_eq!(
        url.query(),
        Some("u=a+b&p=enc%3A78&v=1.16.1&c=opensubsonic-rs&f=json&query=%C3%A9t%C3%A9+%26+hiver")
    );
}

#[test]
fn request_path_appends_to_the_base_path() {
    assert_eq!(request_path("/", "ping"), "/rest/ping");
    assert_eq!(request_path("/music", "ping"), "/music/rest/ping");
    assert_eq!(request_path("/music/", "ping"), "/music/rest/ping");
    assert_eq!(request_path("", "ping"), "/rest/ping");
    assert_eq!(request_path("/a/b//", "hls.m3u8"), "/a/b//rest/hls.m3u8");
}

#[test]
fn assemble_url_keeps_existing_query_and_fragment() {
    let base = url::Url::parse("https://h/x?old=1#frag").unwrap();
    let pairs = vec![("a".to_string(), "b".to_string())];
    let url = assemble_url(&base, "ping", &pairs).unwrap();
    assert_eq!(url.as_str(), "https://h/x/rest/ping?old=1&a=b#frag");
}

#[test]
fn a_request_that_cannot_fit_in_a_url_is_refused() {
    // A URL holds at most 4 GiB, and a byte of a value may take three bytes of it.
    let client = Client::new("https://h/", "u", Auth::plain("p")).unwrap();
    let huge = "a".repeat(1_431_655_766);
    match client.build_url("ping", &[("x", huge.as_str())]) {
        Err(Error::Other(m)) => assert_eq!(m, "request URL too long"),
        Err(other) => panic!("expected the refusal, got {:?}", other),
        Ok(_) => panic!("expected the refusal, got a URL"),
    }
    let pairs = vec![("x".to_string(), huge)];
    assert!(assemble_url(client.base_url(), "ping", &pairs).is_none());
}
