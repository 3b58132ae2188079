use opensubsonic::text::{
    bool_to_text, chars_of, i32_to_decimal, i64_to_decimal, parse_integer, str_eq,
};

#[test]
fn decimal_rendering_matches_the_standard_library() {
    for n in [0i64, 1, 9, 10, 11, 99, 100, 12345, -1, -9, -10, -12345, i64::MAX, i64::MIN, i64::MIN + 1] {
        assert_eq!(i64_to_decimal(n), n.to_string());
    }
    for n in [0i32, 7, -7, 42, i32::MAX, i32::MIN] {
        assert_eq!(i32_to_decimal(n), n.to_string());
    }
    assert_eq!(i64_to_decimal(-9223372036854775808), "-9223372036854775808");
    assert_eq!(i32_to_decimal(2147483647), "2147483647");
}

#[test]
fn truth_values_are_words() {
    assert_eq!(bool_to_text(true), "true");
    assert_eq!(bool_to_text(false), "false");
}

#[test]
fn integers_are_read_back() {
    for n in [0i64, 5, 10, 40, -1, -40, 2147483647, -2147483648, i64::MAX, i64::MIN] {
        assert_eq!(parse_integer(&n.to_string()), Some(n));
        assert_eq!(parse_integer(&i64_to_decimal(n)), Some(n));
    }
    assert_eq!(parse_integer("007"), Some(7));
    assert_eq!(parse_integer("-0"), Some(0));
}

#[test]
fn what_is_no_integer_is_not_read() {
    for s in ["", "-", "+1", "1.0", "1e3", " 1", "1 ", "--1", "1-", "0x10", "٣", "9223372036854775808", "-9223372036854775809", "99999999999999999999999999"] {
        assert_eq!(parse_integer(s), None, "{:?}", s);
    }
}

#[test]
fn chars_of_gives_every_character() {
    assert_eq!(chars_of(""), Vec::<char>::new());
    assert_eq!(chars_of("aé漢🎵"), vec!['a', 'é', '漢', '🎵']);
}

#[test]
fn str_eq_compares_the_characters() {
    assert!(str_eq("", ""));
    assert!(str_eq("status", "status"));
    assert!(str_eq("données 漢🎵", "données 漢🎵"));
    for (a, b) in [
        ("", "a"),
        ("a", ""),
        ("status", "statuS"),
        ("status", "statu"),
        ("statu", "status"),
        ("ok", "ko"),
        ("é", "e"),
        ("e\u{301}", "é"),
    ] {
        assert!(!str_eq(a, b), "{:?} {:?}", a, b);
    }
}
