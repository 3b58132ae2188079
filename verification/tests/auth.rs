use md5::{Digest, Md5};
use opensubsonic::auth::{compute_token, generate_salt};
use opensubsonic::hex::hex_encode;
use opensubsonic::Auth;

#[test]
fn token_auth_produces_correct_params() {
    let auth = Auth::token("sesame");
    let params = auth.params();
    assert_eq!(params.len(), 2);
    assert_eq!(params[0].0, "t");
    assert_eq!(params[1].0, "s");
    // Salt should be 12 hex chars.
    assert_eq!(params[1].1.len(), 12);
    assert!(params[1].1.chars().all(|c| c.is_ascii_hexdigit()));
    // Token should be a 32-char hex MD5 digest.
    assert_eq!(params[0].1.len(), 32);
    assert!(params[0].1.chars().all(|c| c.is_ascii_hexdigit()));
}

#[test]
fn token_auth_matches_known_md5() {
    let salt = "abcdef012345";
    let token = compute_token("sesame", salt);
    let mut hasher = Md5::new();
    hasher.update(b"sesameabcdef012345");
    let expected = hex_encode(&hasher.finalize());
    assert_eq!(token, expected);
}

#[test]
fn plain_auth_hex_encodes_password() {
    let auth = Auth::plain("sesame");
    let params = auth.params();
    assert_eq!(params.len(), 1);
    assert_eq!(params[0].0, "p");
    assert_eq!(params[0].1, "enc:736573616d65");
}

#[test]
fn salt_is_random_per_call() {
    let auth = Auth::token("password");
    let p1 = auth.params();
    let p2 = auth.params();
    // Extremely unlikely to collide.
    assert_ne!(p1[1].1, p2[1].1);
}

#[test]
fn token_is_the_md5_of_password_and_salt() {
    // md5("sesame" + "c19b2d") as the protocol's documentation gives it.
    assert_eq!(compute_token("sesame", "c19b2d"), "26719a1196d2a940705a59634eb18eab");
}

#[test]
fn token_is_deterministic_and_lower_hex() {
    let a = compute_token("pässword", "0123456789ab");
    let b = compute_token("pässword", "0123456789ab");
    assert_eq!(a, b);
    assert_eq!(a.len(), 32);
    assert!(a.chars().all(|c| matches!(c, '0'..='9' | 'a'..='f')));
}

#[test]
fn params_with_salt_uses_the_given_salt() {
    let params = Auth::token("sesame").params_with_salt("c19b2d");
    assert_eq!(params.len(), 2);
    assert_eq!(params[0], ("t", "26719a1196d2a940705a59634eb18eab".to_string()));
    assert_eq!(params[1], ("s", "c19b2d".to_string()));
    let plain = Auth::plain("sesame").params_with_salt("c19b2d");
    assert_eq!(plain, vec![("p", "enc:736573616d65".to_string())]);
}

#[test]
fn a_thousand_salts_do_not_collide() {
    let mut seen = std::collections::HashSet::new();
    for _ in 0..1000 {
        let salt = generate_salt();
        assert_eq!(salt.len(), 12);
        assert!(salt.chars().all(|c| matches!(c, '0'..='9' | 'a'..='f')));
        assert!(seen.insert(salt));
    }
}

#[test]
fn hex_encode_known_values() {
    assert_eq!(hex_encode(&[]), "");
    assert_eq!(hex_encode(&[0x00, 0x0f, 0xa0, 0xff]), "000fa0ff");
    assert_eq!(hex_encode(b"sesame"), "736573616d65");
}
