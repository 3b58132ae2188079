use opensubsonic::json::{find_member, Json};
use opensubsonic::{Auth, Client};

fn sample() -> Json {
    Json::Object(vec![
        ("a".to_string(), Json::Number("1".to_string())),
        ("b".to_string(), Json::Array(vec![Json::Null, Json::Bool(true), Json::Str("x".to_string())])),
        ("a".to_string(), Json::Number("2".to_string())),
        ("".to_string(), Json::Object(vec![])),
    ])
}

#[test]
fn get_finds_the_first_member_of_a_name() {
    let j = sample();
    assert_eq!(j.get("a"), Some(&Json::Number("1".to_string())));
    assert_eq!(j.get(""), Some(&Json::Object(vec![])));
    assert_eq!(j.get("c"), None);
    assert_eq!(j.get("A"), None);
}

#[test]
fn get_on_what_is_no_object_finds_nothing() {
    for j in [
        Json::Null,
        Json::Bool(true),
        Json::Number("1".to_string()),
        Json::Str("a".to_string()),
        Json::Array(vec![sample()]),
    ] {
        assert_eq!(j.get("a"), None);
    }
}

#[test]
fn find_member_in_a_list_of_members() {
    let members = vec![
        ("x".to_string(), Json::Null),
        ("y".to_string(), Json::Bool(false)),
    ];
    assert_eq!(find_member(&members, "y"), Some(&Json::Bool(false)));
    assert_eq!(find_member(&members, "z"), None);
    assert_eq!(find_member(&Vec::new(), "x"), None);
}

#[test]
fn duplicate_and_clone_copy_the_whole_value() {
    let j = sample();
    assert_eq!(j.duplicate(), j);
    assert_eq!(j.clone(), j);
    assert_eq!(Json::Null.duplicate(), Json::Null);
}

#[test]
fn the_base_url_is_held_as_the_url_library_normalises_it() {
    let client = Client::new("HTTPS://Example.COM:443/Music/../m", "u", Auth::plain("p")).unwrap();
    assert_eq!(client.base_url().as_str(), "https://example.com/m");
    assert_eq!(client.build_url("ping", &[]).unwrap().path(), "/m/rest/ping");
}
