//! Errors: what the server reports in its envelope, and what can go wrong on
//! the way there.

use vstd::prelude::*;
use vstd::string::StringExecFns;
use vstd::std_specs::convert::FromSpecImpl;
use crate::text::{decimal_text, i32_to_decimal};

verus! {

/// The conditions that the protocol gives a number to.
#[derive(Debug, Clone, Copy, PartialEq, Eq, Structural)]
pub enum SubsonicErrorCode {
    /// A generic error (0).
    Generic,
    /// A required parameter is missing (10).
    MissingParameter,
    /// Incompatible protocol version: the client must upgrade (20).
    ClientMustUpgrade,
    /// Incompatible protocol version: the server must upgrade (30).
    ServerMustUpgrade,
    /// Wrong username or password (40).
    WrongCredentials,
    /// Token authentication is not supported for this account (41).
    TokenAuthNotSupported,
    /// The user is not authorized for the operation (50).
    NotAuthorized,
    /// The trial period of the server is over (60).
    TrialExpired,
    /// The requested data was not found (70).
    NotFound,
}

impl SubsonicErrorCode {
    /// The number that the protocol gives to this condition.
    pub open spec fn number(self) -> int {
        match self {
            SubsonicErrorCode::Generic => 0,
            SubsonicErrorCode::MissingParameter => 10,
            SubsonicErrorCode::ClientMustUpgrade => 20,
            SubsonicErrorCode::ServerMustUpgrade => 30,
            SubsonicErrorCode::WrongCredentials => 40,
            SubsonicErrorCode::TokenAuthNotSupported => 41,
            SubsonicErrorCode::NotAuthorized => 50,
            SubsonicErrorCode::TrialExpired => 60,
            SubsonicErrorCode::NotFound => 70,
        }
    }

    /// The condition that `code` stands for, if it stands for one.
    pub open spec fn known(code: int) -> Option<SubsonicErrorCode> {
        if code == 0 {
            Some(SubsonicErrorCode::Generic)
        } else if code == 10 {
            Some(SubsonicErrorCode::MissingParameter)
        } else if code == 20 {
            Some(SubsonicErrorCode::ClientMustUpgrade)
        } else if code == 30 {
            Some(SubsonicErrorCode::ServerMustUpgrade)
        } else if code == 40 {
            Some(SubsonicErrorCode::WrongCredentials)
        } else if code == 41 {
            Some(SubsonicErrorCode::TokenAuthNotSupported)
        } else if code == 50 {
            Some(SubsonicErrorCode::NotAuthorized)
        } else if code == 60 {
            Some(SubsonicErrorCode::TrialExpired)
        } else if code == 70 {
            Some(SubsonicErrorCode::NotFound)
        } else {
            None
        }
    }

    /// The words that describe this condition.
    pub open spec fn words(self) -> Seq<char> {
        match self {
            SubsonicErrorCode::Generic => "Generic error"@,
            SubsonicErrorCode::MissingParameter => "Missing parameter"@,
            SubsonicErrorCode::ClientMustUpgrade => "Client must upgrade"@,
            SubsonicErrorCode::ServerMustUpgrade => "Server must upgrade"@,
            SubsonicErrorCode::WrongCredentials => "Wrong credentials"@,
            SubsonicErrorCode::TokenAuthNotSupported => "Token auth not supported"@,
            SubsonicErrorCode::NotAuthorized => "Not authorized"@,
            SubsonicErrorCode::TrialExpired => "Trial expired"@,
            SubsonicErrorCode::NotFound => "Not found"@,
        }
    }

    /// Converts a numeric error code to the condition it stands for; `None`
    /// for a number that the protocol does not define.
    pub fn from_code(code: i32) -> (known: Option<SubsonicErrorCode>)
        ensures
            known == Self::known(code as int),
            known matches Some(c) ==> c.number() == code,
    {
        match code {
            0 => Some(SubsonicErrorCode::Generic),
            10 => Some(SubsonicErrorCode::MissingParameter),
            20 => Some(SubsonicErrorCode::ClientMustUpgrade),
            30 => Some(SubsonicErrorCode::ServerMustUpgrade),
            40 => Some(SubsonicErrorCode::WrongCredentials),
            41 => Some(SubsonicErrorCode::TokenAuthNotSupported),
            50 => Some(SubsonicErrorCode::NotAuthorized),
            60 => Some(SubsonicErrorCode::TrialExpired),
            70 => Some(SubsonicErrorCode::NotFound),
            _ => None,
        }
    }

    /// The number that the protocol gives to this condition.
    pub fn code(self) -> (n: i32)
        ensures
            n == self.number(),
    {
        match self {
            SubsonicErrorCode::Generic => 0,
            SubsonicErrorCode::MissingParameter => 10,
            SubsonicErrorCode::ClientMustUpgrade => 20,
            SubsonicErrorCode::ServerMustUpgrade => 30,
            SubsonicErrorCode::WrongCredentials => 40,
            SubsonicErrorCode::TokenAuthNotSupported => 41,
            SubsonicErrorCode::NotAuthorized => 50,
            SubsonicErrorCode::TrialExpired => 60,
            SubsonicErrorCode::NotFound => 70,
        }
    }

    /// The words that describe this condition.
    pub fn as_str(self) -> (s: &'static str)
        ensures
            s@ == self.words(),
    {
        match self {
            SubsonicErrorCode::Generic => "Generic error",
            SubsonicErrorCode::MissingParameter => "Missing parameter",
            SubsonicErrorCode::ClientMustUpgrade => "Client must upgrade",
            SubsonicErrorCode::ServerMustUpgrade => "Server must upgrade",
            SubsonicErrorCode::WrongCredentials => "Wrong credentials",
            SubsonicErrorCode::TokenAuthNotSupported => "Token auth not supported",
            SubsonicErrorCode::NotAuthorized => "Not authorized",
            SubsonicErrorCode::TrialExpired => "Trial expired",
            SubsonicErrorCode::NotFound => "Not found",
        }
    }

    /// The words that describe this condition, as an owned string.
    pub fn to_string(&self) -> (s: String)
        ensures
            s@ == self.words(),
    {
        String::from_str(self.as_str())
    }
}

/// Every condition is found again from its number.
pub proof fn lemma_code_round_trip(c: SubsonicErrorCode)
    ensures
        SubsonicErrorCode::known(c.number()) == Some(c),
{
}

/// A number stands for at most one condition, and that condition has the
/// number.
pub proof fn lemma_known_has_number(code: int)
    ensures
        SubsonicErrorCode::known(code) matches Some(c) ==> c.number() == code,
{
}

/// An error that the server reported inside the response body.
#[derive(Debug, Clone)]
pub struct SubsonicApiError {
    /// The numeric error code.
    pub code: i32,
    /// What the server said about it.
    pub message: String,
}

impl SubsonicApiError {
    /// The text of this error: number and message, and the condition's words
    /// in brackets where the number is a known one.
    pub open spec fn text(self) -> Seq<char> {
        let head = "Subsonic API error "@ + decimal_text(self.code as int) + ": "@ + self.message@;
        match SubsonicErrorCode::known(self.code as int) {
            Some(c) => head + " ("@ + c.words() + ")"@,
            None => head,
        }
    }

    /// Reads the numeric code as a known condition.
    pub fn error_code(&self) -> (known: Option<SubsonicErrorCode>)
        ensures
            known == SubsonicErrorCode::known(self.code as int),
    {
        SubsonicErrorCode::from_code(self.code)
    }

    /// The text of this error.
    pub fn to_string(&self) -> (s: String)
        ensures
            s@ == self.text(),
    {
        let mut s = String::from_str("Subsonic API error ");
        s.append(i32_to_decimal(self.code).as_str());
        s.append(": ");
        s.append(self.message.as_str());
        if let Some(known) = self.error_code() {
            s.append(" (");
            s.append(known.as_str());
            s.append(")");
        }
        s
    }
}

/// Everything that can go wrong in a call.
#[derive(Debug)]
pub enum Error {
    /// The request failed at the transport level; the text is the
    /// transport's own account of it.
    Http(String),
    /// The server answered with a failure envelope.
    Api(SubsonicApiError),
    /// The server's answer could not be read.
    Parse(String),
    /// The base URL could not be parsed.
    Url(url::ParseError),
    /// Any other error.
    Other(String),
}

/// The words that the `url` crate has for one of its parse errors.
pub uninterp spec fn url_error_words(e: url::ParseError) -> Seq<char>;

/// `Display` of `url::ParseError`: the fixed description of the variant,
/// which depends on the error alone.
#[verifier::external_body]
fn url_error_text(e: &url::ParseError) -> (s: String)
    ensures
        s@ == url_error_words(*e),
{
    e.to_string()
}

impl Error {
    /// The text of this error: a heading that tells the kind, then what the
    /// error holds. An API error and any other error stand without heading.
    pub open spec fn text(self) -> Seq<char> {
        match self {
            Error::Http(m) => "HTTP error: "@ + m@,
            Error::Api(e) => e.text(),
            Error::Parse(m) => "Parse error: "@ + m@,
            Error::Url(e) => "URL error: "@ + url_error_words(e),
            Error::Other(m) => m@,
        }
    }

    /// The text of this error.
    pub fn to_string(&self) -> (s: String)
        ensures
            s@ == self.text(),
    {
        match self {
            Error::Http(m) => String::from_str("HTTP error: ").concat(m.as_str()),
            Error::Api(e) => e.to_string(),
            Error::Parse(m) => String::from_str("Parse error: ").concat(m.as_str()),
            Error::Url(e) => String::from_str("URL error: ").concat(url_error_text(e).as_str()),
            Error::Other(m) => m.clone(),
        }
    }
}

impl From<url::ParseError> for Error {
    fn from(err: url::ParseError) -> (e: Error) {
        Error::Url(err)
    }
}

impl FromSpecImpl<url::ParseError> for Error {
    open spec fn obeys_from_spec() -> bool {
        true
    }

    open spec fn from_spec(err: url::ParseError) -> Error {
        Error::Url(err)
    }
}

} // verus!
