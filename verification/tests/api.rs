use opensubsonic::api::call::{missing, Expect, Method, Params, Request};
use opensubsonic::api::transcoding::{decode_posted, decode_posted_document};
use opensubsonic::data::ClientInfo;
use opensubsonic::envelope::{decode_response, Payload};
use opensubsonic::json::Json;
use opensubsonic::{AlbumListType, Auth, Client, Error, JukeboxAction};

fn client() -> Client {
    Client::new("https://host/music", "admin", Auth::plain("pass")).unwrap()
}

fn pairs(list: &[(&str, &str)]) -> Params {
    Params { pairs: list.iter().map(|(k, v)| (k.to_string(), v.to_string())).collect() }
}

fn object(members: Vec<(&str, Json)>) -> Json {
    Json::Object(members.into_iter().map(|(k, v)| (k.to_string(), v)).collect())
}

fn parse_message<T: std::fmt::Debug>(r: Result<T, Error>) -> String {
    match r {
        Err(Error::Parse(m)) => m,
        other => panic!("expected a parse error, got {:?}", other),
    }
}

#[test]
fn album_list_type_names() {
    let all = [
        (AlbumListType::Random, "random"),
        (AlbumListType::Newest, "newest"),
        (AlbumListType::Highest, "highest"),
        (AlbumListType::Frequent, "frequent"),
        (AlbumListType::Recent, "recent"),
        (AlbumListType::AlphabeticalByName, "alphabeticalByName"),
        (AlbumListType::AlphabeticalByArtist, "alphabeticalByArtist"),
        (AlbumListType::Starred, "starred"),
        (AlbumListType::ByYear, "byYear"),
        (AlbumListType::ByGenre, "byGenre"),
    ];
    for (kind, name) in all {
        assert_eq!(kind.as_str(), name);
    }
}

#[test]
fn jukebox_action_names() {
    let all = [
        (JukeboxAction::Get, "get"),
        (JukeboxAction::Status, "status"),
        (JukeboxAction::SetQueue, "set"),
        (JukeboxAction::Start, "start"),
        (JukeboxAction::Stop, "stop"),
        (JukeboxAction::Skip, "skip"),
        (JukeboxAction::Add, "add"),
        (JukeboxAction::Clear, "clear"),
        (JukeboxAction::Remove, "remove"),
        (JukeboxAction::Shuffle, "shuffle"),
        (JukeboxAction::SetGain, "setGain"),
    ];
    for (action, name) in all {
        assert_eq!(action.as_str(), name);
    }
}

#[test]
fn params_builder_keeps_order_and_duplicates() {
    let mut p = Params::new();
    p.text("a", "x y");
    p.number("n", -5);
    p.long("l", 9_000_000_000);
    p.flag("f", true);
    p.opt_text("skip", None);
    p.opt_text("t", Some(""));
    p.opt_int("i", Some(0));
    p.opt_int("skip", None);
    p.opt_long("w", Some(i64::MIN));
    p.opt_long("skip", None);
    p.opt_flag("b", Some(false));
    p.opt_flag("skip", None);
    p.each_text("id", &["1", "2", "1"]);
    p.each_text("none", &[]);
    p.each_int("idx", &[3, -4]);
    p.each_long("folder", &[5, 6]);
    let expected = pairs(&[
        ("a", "x y"),
        ("n", "-5"),
        ("l", "9000000000"),
        ("f", "true"),
        ("t", ""),
        ("i", "0"),
        ("w", "-9223372036854775808"),
        ("b", "false"),
        ("id", "1"),
        ("id", "2"),
        ("id", "1"),
        ("idx", "3"),
        ("idx", "-4"),
        ("folder", "5"),
        ("folder", "6"),
    ]);
    assert_eq!(p, expected);
    let borrowed = p.as_pairs();
    assert_eq!(borrowed.len(), 15);
    assert_eq!(borrowed[0], ("a", "x y"));
    assert_eq!(borrowed[14], ("folder", "6"));
}

#[test]
fn ping_has_no_parameters_and_no_result() {
    let call = client().ping();
    assert_eq!(
        call,
        Request { method: Method::Get, endpoint: "ping", params: pairs(&[]), expects: Expect::Nothing }
    );
}

#[test]
fn get_album_list_sends_its_parameters_in_order() {
    let call = client().get_album_list(
        AlbumListType::ByYear,
        Some(20),
        None,
        Some(1990),
        Some(1999),
        None,
        Some("3"),
    );
    assert_eq!(call.endpoint, "getAlbumList");
    assert_eq!(
        call.params,
        pairs(&[
            ("type", "byYear"),
            ("size", "20"),
            ("fromYear", "1990"),
            ("toYear", "1999"),
            ("musicFolderId", "3"),
        ])
    );
    assert_eq!(call.expects, Expect::ListIn("albumList", "album"));
}

#[test]
fn update_user_sends_every_role_that_is_given() {
    let call = client().update_user(
        "bob",
        Some("pw"),
        None,
        Some(false),
        Some(true),
        None,
        None,
        None,
        None,
        None,
        None,
        None,
        None,
        None,
        Some(true),
        None,
        Some(320),
        &[1, 2],
    );
    assert_eq!(call.endpoint, "updateUser");
    assert_eq!(
        call.params,
        pairs(&[
            ("username", "bob"),
            ("password", "pw"),
            ("ldapAuthenticated", "false"),
            ("adminRole", "true"),
            ("shareRole", "true"),
            ("maxBitRate", "320"),
            ("musicFolderId", "1"),
            ("musicFolderId", "2"),
        ])
    );
    assert_eq!(call.expects, Expect::Nothing);
}

#[test]
fn create_user_sends_the_three_mandatory_parameters_first() {
    let call = client().create_user(
        "bob", "pw", "b@x", None, None, None, None, None, None, None, None, None, None, None,
        None, Some(false), &[],
    );
    assert_eq!(call.endpoint, "createUser");
    assert_eq!(
        call.params,
        pairs(&[
            ("username", "bob"),
            ("password", "pw"),
            ("email", "b@x"),
            ("videoConversionRole", "false"),
        ])
    );
}

#[test]
fn star_sends_each_id_under_its_name() {
    let call = client().star(&["s1", "s2"], &["al"], &["ar1", "ar2"]);
    assert_eq!(call.endpoint, "star");
    assert_eq!(
        call.params,
        pairs(&[("id", "s1"), ("id", "s2"), ("albumId", "al"), ("artistId", "ar1"), ("artistId", "ar2")])
    );
}

#[test]
fn create_bookmark_renders_the_position() {
    let call = client().create_bookmark("7", 123456789012, Some("here"));
    assert_eq!(
        call.params,
        pairs(&[("id", "7"), ("position", "123456789012"), ("comment", "here")])
    );
}

#[test]
fn binary_endpoints_expect_bytes() {
    assert_eq!(client().download("9").expects, Expect::Bytes);
    assert_eq!(client().get_avatar("bob").params, pairs(&[("username", "bob")]));
    let stream = client().stream("1", Some(128), Some("mp3"), None, Some(true));
    assert_eq!(stream.endpoint, "stream");
    assert_eq!(stream.expects, Expect::Bytes);
    assert_eq!(
        stream.params,
        pairs(&[("id", "1"), ("maxBitRate", "128"), ("format", "mp3"), ("estimateContentLength", "true")])
    );
}

#[test]
fn jukebox_control_expects_the_playlist_only_for_get() {
    let get = client().jukebox_control(JukeboxAction::Get, None, None, &[], None);
    assert_eq!(get.params, pairs(&[("action", "get")]));
    assert_eq!(get.expects, Expect::Required("jukeboxPlaylist"));
    let gain = client().jukebox_control(JukeboxAction::SetGain, Some(1), Some(2), &["a", "b"], Some("0.5"));
    assert_eq!(
        gain.params,
        pairs(&[("action", "setGain"), ("index", "1"), ("offset", "2"), ("id", "a"), ("id", "b"), ("gain", "0.5")])
    );
    assert_eq!(gain.expects, Expect::Required("jukeboxStatus"));
}

#[test]
fn url_functions_build_the_url_at_once() {
    let c = client();
    assert_eq!(
        c.stream_url("5", Some(320), None).unwrap().as_str(),
        "https://host/music/rest/stream?u=admin&p=enc%3A70617373&v=1.16.1&c=opensubsonic-rs&f=json&id=5&maxBitRate=320"
    );
    assert_eq!(
        c.hls_url("5", Some("128"), Some("1")).unwrap().as_str(),
        "https://host/music/rest/hls.m3u8?u=admin&p=enc%3A70617373&v=1.16.1&c=opensubsonic-rs&f=json&id=5&bitRate=128&audioTrack=1"
    );
    assert_eq!(
        c.cover_art_url("al-1", Some(300)).unwrap().as_str(),
        "https://host/music/rest/getCoverArt?u=admin&p=enc%3A70617373&v=1.16.1&c=opensubsonic-rs&f=json&id=al-1&size=300"
    );
    assert_eq!(
        c.get_transcode_stream_url("5", None, Some("opus")).unwrap().as_str(),
        "https://host/music/rest/getTranscodeStream?u=admin&p=enc%3A70617373&v=1.16.1&c=opensubsonic-rs&f=json&id=5&format=opus"
    );
}

#[test]
fn url_of_a_call() {
    let c = client();
    let call = c.get_artists(Some("2"));
    assert_eq!(
        c.url_of(&call).unwrap().as_str(),
        "https://host/music/rest/getArtists?u=admin&p=enc%3A70617373&v=1.16.1&c=opensubsonic-rs&f=json&musicFolderId=2"
    );
}

#[test]
fn extract_a_required_member() {
    let payload = decode_response(r#"{"subsonic-response":{"status":"ok","license":{"valid":true}}}"#).unwrap();
    let call = client().get_license();
    assert_eq!(call.expects.extract(&payload).unwrap(), object(vec![("valid", Json::Bool(true))]));
    let missing_one = client().token_info();
    assert_eq!(parse_message(missing_one.expects.extract(&payload)), "Missing 'tokenInfo' in response");
    assert!(matches!(missing("x"), Error::Parse(m) if m == "Missing 'x' in response"));
}

#[test]
fn extract_a_list_or_nothing() {
    let payload = decode_response(
        r#"{"subsonic-response":{"status":"ok","genres":{"genre":[{"value":"Rock"}]},"shares":{},"users":7,
            "openSubsonicExtensions":[{"name":"x","versions":[1]}]}}"#,
    )
    .unwrap();
    let c = client();
    let genres = c.get_genres().expects.extract(&payload).unwrap();
    assert_eq!(genres, Json::Array(vec![object(vec![("value", Json::Str("Rock".to_string()))])]));
    assert_eq!(c.get_shares().expects.extract(&payload).unwrap(), Json::Array(vec![]));
    assert_eq!(c.get_users().expects.extract(&payload).unwrap(), Json::Array(vec![]));
    assert_eq!(c.get_videos().expects.extract(&payload).unwrap(), Json::Array(vec![]));
    assert!(matches!(c.get_open_subsonic_extensions().expects.extract(&payload).unwrap(), Json::Array(v) if v.len() == 1));
    let empty = Payload { fields: vec![] };
    assert_eq!(c.get_open_subsonic_extensions().expects.extract(&empty).unwrap(), Json::Array(vec![]));
    assert_eq!(c.get_lyrics(None, None).expects.extract(&empty).unwrap(), Json::Object(vec![]));
    assert_eq!(c.ping().expects.extract(&payload).unwrap(), Json::Null);
    assert_eq!(Expect::Bytes.extract(&payload).unwrap(), Json::Null);
}

#[test]
fn transcode_decision_is_posted_with_client_information() {
    let info = ClientInfo {
        name: "app".to_string(),
        platform: "linux".to_string(),
        max_audio_bitrate: None,
        max_transcoding_audio_bitrate: None,
        direct_play_profiles: vec![],
        transcoding_profiles: vec![],
        codec_profiles: vec![],
    };
    let c = client();
    let posted = c.get_transcode_decision("1", Some(320), Some("mp3"), Some(&info));
    assert_eq!(posted.method, Method::Post);
    assert_eq!(posted.endpoint, "getTranscodeDecision");
    assert_eq!(posted.params, pairs(&[("id", "1"), ("maxBitRate", "320"), ("format", "mp3")]));
    assert_eq!(posted.expects, Expect::Required("transcodeDecision"));
    let plain = c.get_transcode_decision("1", None, None, None);
    assert_eq!(plain.method, Method::Get);
    assert_eq!(plain.params, pairs(&[("id", "1")]));
}

#[test]
fn posted_answers_are_read_like_any_other() {
    let ok = decode_posted(
        r#"{"subsonic-response":{"status":"ok","transcodeDecision":{"canDirectPlay":true}}}"#,
        "transcodeDecision",
    )
    .unwrap();
    assert_eq!(ok, object(vec![("canDirectPlay", Json::Bool(true))]));

    assert_eq!(
        parse_message(decode_posted(r#"{"subsonic-response":{"status":"ok"}}"#, "transcodeDecision")),
        "Missing 'transcodeDecision' in response"
    );
    assert_eq!(
        parse_message(decode_posted(r#"{"status":"ok"}"#, "transcodeDecision")),
        r#"missing field `subsonic-response`: {"status":"ok"}"#
    );
    assert_eq!(
        parse_message(decode_posted("[]", "transcodeDecision")),
        "expected a JSON object: []"
    );
    assert!(parse_message(decode_posted("nope", "transcodeDecision")).ends_with(": nope"));

    let doc = object(vec![(
        "subsonic-response",
        object(vec![("status", Json::Str("ok".to_string())), ("a", Json::Null)]),
    )]);
    assert_eq!(decode_posted_document(&doc, "", "a").unwrap(), Json::Null);
    assert_eq!(
        parse_message(decode_posted_document(&doc, "", "status")),
        "Missing 'status' in response"
    );
}

#[test]
fn posted_failures_are_the_api_error() {
    let with_error =
        r#"{"subsonic-response":{"status":"failed","error":{"code":40,"message":"no"}}}"#;
    match decode_posted(with_error, "transcodeDecision") {
        Err(Error::Api(e)) => assert_eq!((e.code, e.message.as_str()), (40, "no")),
        other => panic!("expected an API error, got {:?}", other),
    }
    match decode_posted(r#"{"subsonic-response":{"status":"failed"}}"#, "transcodeDecision") {
        Err(Error::Api(e)) => {
            assert_eq!(e.code, 0);
            assert_eq!(e.message, "Unknown API error (status != ok but no error object)");
        }
        other => panic!("expected an API error, got {:?}", other),
    }
}

#[test]
fn posted_answers_with_members_of_the_wrong_kind_are_parse_errors() {
    let cases = [
        (r#"{"subsonic-response":"ok"}"#, "`subsonic-response` is not an object"),
        (r#"{"subsonic-response":{"error":{"code":40}}}"#, "missing field `status`"),
        (r#"{"subsonic-response":{"status":5}}"#, "`status` is not a string"),
        (
            r#"{"subsonic-response":{"status":"failed","error":{"code":"40"}}}"#,
            "`code` is not a 32-bit integer",
        ),
        (
            r#"{"subsonic-response":{"status":"failed","error":{"code":4294967336}}}"#,
            "`code` is not a 32-bit integer",
        ),
        (
            r#"{"subsonic-response":{"status":"failed","error":{"code":40,"message":7}}}"#,
            "`message` is not a string",
        ),
    ];
    for (text, words) in cases {
        assert_eq!(
            parse_message(decode_posted(text, "transcodeDecision")),
            format!("{}: {}", words, text)
        );
    }
}

#[test]
fn a_body_is_read_alike_whether_posted_or_not() {
    let bodies = [
        r#"{"subsonic-response":{"status":"ok","transcodeDecision":{"canTranscode":false}}}"#,
        r#"{"subsonic-response":{"status":"ok","other":1}}"#,
        r#"{"subsonic-response":{"status":"failed","error":{"code":70,"message":"gone"}}}"#,
        r#"{"subsonic-response":{"status":"failed"}}"#,
        r#"{"subsonic-response":{"status":"failed","error":{"code":1.5}}}"#,
        r#"{"status":"ok"}"#,
        "not json",
    ];
    let expects = Expect::Required("transcodeDecision");
    for body in bodies {
        let posted = decode_posted(body, "transcodeDecision");
        let plain = decode_response(body).and_then(|payload| expects.extract(&payload));
        match (posted, plain) {
            (Ok(a), Ok(b)) => assert_eq!(a, b),
            (Err(Error::Api(a)), Err(Error::Api(b))) => {
                assert_eq!((a.code, a.message), (b.code, b.message))
            }
            (Err(Error::Parse(a)), Err(Error::Parse(b))) => assert_eq!(a, b),
            (a, b) => panic!("{} is read as {:?} when posted and as {:?} otherwise", body, a, b),
        }
    }
}
