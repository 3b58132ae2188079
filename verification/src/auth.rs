//! Per-request credentials.
//!
//! The protocol knows two ways to prove who is calling. With a token, the
//! password never travels: each request carries a fresh random salt and the
//! MD5 digest of password and salt. In the legacy way the password travels
//! hex-encoded.

use vstd::prelude::*;
use vstd::string::StringExecFns;
use vstd::utf8::encode_utf8;
use crate::hex::{hex_encode, hex_text, is_lower_hex};

verus! {

/// The MD5 digest of a message.
pub uninterp spec fn md5_hash(message: Seq<u8>) -> Seq<u8>;

/// `Md5::digest` of the `md-5` crate: the sixteen bytes of the MD5 digest of
/// `message`. The digest itself is not spelled out here; it is a function of
/// the message alone.
#[verifier::external_body]
fn md5_digest(message: &[u8]) -> (digest: [u8; 16])
    ensures
        digest@ == md5_hash(message@),
{
    <md5::Md5 as md5::Digest>::digest(message).into()
}

/// `thread_rng().gen()` of the `rand` crate: six bytes from the thread's
/// random number generator. Nothing is promised of them.
#[verifier::external_body]
fn random_bytes() -> (bytes: [u8; 6]) {
    rand::Rng::gen(&mut rand::thread_rng())
}

/// The name and the value of a parameter, as mathematical values.
pub open spec fn pair_view(p: (&'static str, String)) -> (Seq<char>, Seq<char>) {
    (p.0@, p.1@)
}

/// The names and values of a list of parameters.
pub open spec fn pairs_view(v: Seq<(&'static str, String)>) -> Seq<(Seq<char>, Seq<char>)> {
    Seq::new(v.len(), |i: int| pair_view(v[i]))
}

/// The token for `password` and `salt`: the hexadecimal text of the MD5
/// digest of the password's bytes followed by the salt's.
pub open spec fn token_text(password: Seq<char>, salt: Seq<char>) -> Seq<char> {
    hex_text(md5_hash(encode_utf8(password) + encode_utf8(salt)))
}

/// What a token authenticator sends for `password` under `salt`.
pub open spec fn token_params(password: Seq<char>, salt: Seq<char>) -> Seq<(Seq<char>, Seq<char>)> {
    seq![("t"@, token_text(password, salt)), ("s"@, salt)]
}

/// What a plain authenticator sends for `password`.
pub open spec fn plain_params(password: Seq<char>) -> Seq<(Seq<char>, Seq<char>)> {
    seq![("p"@, "enc:"@ + hex_text(encode_utf8(password)))]
}

/// Whether `salt` is the hexadecimal text of six bytes.
pub open spec fn is_salt(salt: Seq<char>) -> bool {
    exists|bytes: Seq<u8>| bytes.len() == 6 && salt == #[trigger] hex_text(bytes)
}

/// The token is a function of password and salt: the same two give the same
/// token.
pub proof fn lemma_token_is_deterministic(
    password: Seq<char>,
    salt: Seq<char>,
    other_password: Seq<char>,
    other_salt: Seq<char>,
)
    requires
        password == other_password,
        salt == other_salt,
    ensures
        token_text(password, salt) == token_text(other_password, other_salt),
        token_params(password, salt) == token_params(other_password, other_salt),
{
}

/// How a client proves its identity.
#[derive(Debug, Clone)]
pub enum Auth {
    /// Salted token: `t = md5(password + salt)` and `s = salt`.
    Token {
        /// The password, kept to sign each request.
        password: String,
    },
    /// Hex-encoded password: `p = enc:<hex>`.
    Plain {
        /// The password.
        password: String,
    },
}

/// Computes `md5(password + salt)` and returns its hexadecimal text.
pub fn compute_token(password: &str, salt: &str) -> (token: String)
    ensures
        token@ == token_text(password@, salt@),
        token@.len() == 32,
        forall|i: int| 0 <= i < 32 ==> is_lower_hex(#[trigger] token@[i]),
{
    let mut message: Vec<u8> = Vec::new();
    message.extend_from_slice(password.as_bytes());
    message.extend_from_slice(salt.as_bytes());
    assert(message@ =~= encode_utf8(password@) + encode_utf8(salt@));
    let digest = md5_digest(message.as_slice());
    hex_encode(digest.as_slice())
}

/// Draws a fresh salt: six random bytes as twelve hexadecimal characters.
pub fn generate_salt() -> (salt: String)
    ensures
        is_salt(salt@),
        salt@.len() == 12,
        forall|i: int| 0 <= i < 12 ==> is_lower_hex(#[trigger] salt@[i]),
{
    let bytes = random_bytes();
    hex_encode(bytes.as_slice())
}

impl Auth {
    /// The password that this authenticator signs with.
    pub open spec fn secret(self) -> Seq<char> {
        match self {
            Auth::Token { password } => password@,
            Auth::Plain { password } => password@,
        }
    }

    /// What this authenticator sends when it draws `salt`. The salt plays no
    /// part in the plain strategy.
    pub open spec fn params_under(self, salt: Seq<char>) -> Seq<(Seq<char>, Seq<char>)> {
        match self {
            Auth::Token { password } => token_params(password@, salt),
            Auth::Plain { password } => plain_params(password@),
        }
    }

    /// Token authentication with `password`.
    pub fn token(password: &str) -> (auth: Auth)
        ensures
            auth matches Auth::Token { password: p } && p@ == password@,
    {
        Auth::Token { password: String::from_str(password) }
    }

    /// Plain authentication with `password`.
    pub fn plain(password: &str) -> (auth: Auth)
        ensures
            auth matches Auth::Plain { password: p } && p@ == password@,
    {
        Auth::Plain { password: String::from_str(password) }
    }

    /// The parameters of one request under a salt that the caller chose.
    pub fn params_with_salt(&self, salt: &str) -> (params: Vec<(&'static str, String)>)
        ensures
            pairs_view(params@) == self.params_under(salt@),
    {
        match self {
            Auth::Token { password } => {
                let token = compute_token(password.as_str(), salt);
                let params = vec![("t", token), ("s", String::from_str(salt))];
                assert(pairs_view(params@) =~= self.params_under(salt@));
                params
            },
            Auth::Plain { password } => {
                let hex = hex_encode(password.as_str().as_bytes());
                let params = vec![("p", String::from_str("enc:").concat(hex.as_str()))];
                assert(pairs_view(params@) =~= self.params_under(salt@));
                params
            },
        }
    }

    /// The parameters of one request. A token authenticator draws a fresh
    /// salt for each call.
    pub fn params(&self) -> (params: Vec<(&'static str, String)>)
        ensures
            exists|salt: Seq<char>|
                is_salt(salt) && pairs_view(params@) == #[trigger] self.params_under(salt),
            self is Plain ==> pairs_view(params@) == plain_params(self.secret()),
            self is Token ==> params@.len() == 2 && params@[0].0@ == "t"@ && params@[1].0@ == "s"@
                && is_salt(params@[1].1@) && params@[0].1@ == token_text(
                self.secret(),
                params@[1].1@,
            ),
    {
        let salt = generate_salt();
        let params = self.params_with_salt(salt.as_str());
        proof {
            let sent = pairs_view(params@);
            assert(sent == self.params_under(salt@));
            if self is Token {
                assert(sent.len() == 2);
                assert(sent[0] == pair_view(params@[0]));
                assert(sent[1] == pair_view(params@[1]));
            }
        }
        params
    }
}

} // verus!
