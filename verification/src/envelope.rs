//! The envelope that every answer of the server is wrapped in.
//!
//! An answer is one JSON object with the single member `subsonic-response`,
//! whose value holds the status, some facts about the server, the error of a
//! failed call and, beside these, the members that make up the payload.

use vstd::prelude::*;
use vstd::string::StringExecFns;
use crate::error::{Error, SubsonicApiError};
use crate::json::{
    find_member, found_view, lemma_members_view, member, members_view, parse_json, parsed_json,
    Json, JsonValue,
};
use crate::text::{integer_in_i64, parse_integer, str_eq};

verus! {

/// What can be wrong with a JSON document that should be an envelope.
#[derive(Debug, Clone, Copy, PartialEq, Eq, Structural)]
pub enum Defect {
    /// The document is no object.
    NotAnObject,
    /// The object has no member `subsonic-response`.
    MissingEnvelope,
    /// `subsonic-response` is no object.
    EnvelopeNotObject,
    /// The envelope has no member `status`.
    MissingStatus,
    /// `status` is no string.
    BadStatus,
    /// `version` is neither a string nor null.
    BadVersion,
    /// `type` is neither a string nor null.
    BadServerType,
    /// `serverVersion` is neither a string nor null.
    BadServerVersion,
    /// `openSubsonic` is neither a boolean nor null.
    BadOpenSubsonic,
    /// `error` is neither an object nor null.
    BadError,
    /// `error` has no member `code`.
    MissingCode,
    /// `code` is no integer of 32 bits.
    BadCode,
    /// `message` is neither a string nor null.
    BadMessage,
}

impl Defect {
    /// The words that describe this defect.
    pub open spec fn words(self) -> Seq<char> {
        match self {
            Defect::NotAnObject => "expected a JSON object"@,
            Defect::MissingEnvelope => "missing field `subsonic-response`"@,
            Defect::EnvelopeNotObject => "`subsonic-response` is not an object"@,
            Defect::MissingStatus => "missing field `status`"@,
            Defect::BadStatus => "`status` is not a string"@,
            Defect::BadVersion => "`version` is not a string"@,
            Defect::BadServerType => "`type` is not a string"@,
            Defect::BadServerVersion => "`serverVersion` is not a string"@,
            Defect::BadOpenSubsonic => "`openSubsonic` is not a boolean"@,
            Defect::BadError => "`error` is not an object"@,
            Defect::MissingCode => "missing field `code`"@,
            Defect::BadCode => "`code` is not a 32-bit integer"@,
            Defect::BadMessage => "`message` is not a string"@,
        }
    }

    /// The words that describe this defect.
    pub fn as_str(self) -> (s: &'static str)
        ensures
            s@ == self.words(),
    {
        match self {
            Defect::NotAnObject => "expected a JSON object",
            Defect::MissingEnvelope => "missing field `subsonic-response`",
            Defect::EnvelopeNotObject => "`subsonic-response` is not an object",
            Defect::MissingStatus => "missing field `status`",
            Defect::BadStatus => "`status` is not a string",
            Defect::BadVersion => "`version` is not a string",
            Defect::BadServerType => "`type` is not a string",
            Defect::BadServerVersion => "`serverVersion` is not a string",
            Defect::BadOpenSubsonic => "`openSubsonic` is not a boolean",
            Defect::BadError => "`error` is not an object",
            Defect::MissingCode => "missing field `code`",
            Defect::BadCode => "`code` is not a 32-bit integer",
            Defect::BadMessage => "`message` is not a string",
        }
    }
}

/// Whether `name` is one of the envelope's own members, which are no part of
/// the payload.
pub open spec fn is_envelope_field(name: Seq<char>) -> bool {
    name == "status"@ || name == "version"@ || name == "type"@ || name == "serverVersion"@ || name
        == "openSubsonic"@ || name == "error"@
}

/// The members of the envelope that make up the payload: all but the
/// envelope's own, in their order.
pub open spec fn payload_of(inner: Seq<(Seq<char>, JsonValue)>) -> Seq<(Seq<char>, JsonValue)>
    decreases inner.len(),
{
    if inner.len() == 0 {
        Seq::empty()
    } else if is_envelope_field(inner[0].0) {
        payload_of(inner.drop_first())
    } else {
        seq![inner[0]] + payload_of(inner.drop_first())
    }
}

/// No member of the payload has one of the envelope's own names.
pub proof fn lemma_payload_excludes_envelope(inner: Seq<(Seq<char>, JsonValue)>, name: Seq<char>)
    requires
        is_envelope_field(name),
    ensures
        member(payload_of(inner), name) is None,
    decreases inner.len(),
{
    if inner.len() > 0 {
        lemma_payload_excludes_envelope(inner.drop_first(), name);
        if !is_envelope_field(inner[0].0) {
            let rest = payload_of(inner.drop_first());
            assert((seq![inner[0]] + rest).drop_first() =~= rest);
        }
    }
}

/// Every other member of the envelope is found in the payload, with its
/// value.
pub proof fn lemma_payload_keeps_others(inner: Seq<(Seq<char>, JsonValue)>, name: Seq<char>)
    requires
        !is_envelope_field(name),
    ensures
        member(payload_of(inner), name) == member(inner, name),
    decreases inner.len(),
{
    if inner.len() > 0 {
        lemma_payload_keeps_others(inner.drop_first(), name);
        if !is_envelope_field(inner[0].0) {
            let rest = payload_of(inner.drop_first());
            assert((seq![inner[0]] + rest).drop_first() =~= rest);
        }
    }
}

/// An optional string: absent or null for none. The outer `None` says that
/// the member holds something else.
pub open spec fn optional_text(found: Option<JsonValue>) -> Option<Option<Seq<char>>> {
    match found {
        None => Some(None),
        Some(JsonValue::Null) => Some(None),
        Some(JsonValue::Str(s)) => Some(Some(s)),
        Some(_) => None,
    }
}

/// An optional boolean: absent or null for none. The outer `None` says that
/// the member holds something else.
pub open spec fn optional_flag(found: Option<JsonValue>) -> Option<Option<bool>> {
    match found {
        None => Some(None),
        Some(JsonValue::Null) => Some(None),
        Some(JsonValue::Bool(b)) => Some(Some(b)),
        Some(_) => None,
    }
}

/// The number of an error code: an integer of 32 bits.
pub open spec fn code_of(found: JsonValue) -> Option<i32> {
    match found {
        JsonValue::Number(text) => match integer_in_i64(text) {
            Some(v) => if i32::MIN <= v <= i32::MAX {
                Some(v as i32)
            } else {
                None
            },
            None => None,
        },
        _ => None,
    }
}

/// The error object of an envelope, as mathematical value.
pub ghost struct ReportedError {
    pub code: i32,
    pub message: Option<Seq<char>>,
}

/// An envelope, as mathematical value.
pub ghost struct EnvelopeView {
    pub status: Seq<char>,
    pub version: Option<Seq<char>>,
    pub server_type: Option<Seq<char>>,
    pub server_version: Option<Seq<char>>,
    pub open_subsonic: Option<bool>,
    pub error: Option<ReportedError>,
    pub data: Seq<(Seq<char>, JsonValue)>,
}

/// The error object that an envelope holds under `error`, if any.
pub open spec fn reported_error(found: Option<JsonValue>) -> Result<Option<ReportedError>, Defect> {
    match found {
        None => Ok(None),
        Some(JsonValue::Null) => Ok(None),
        Some(JsonValue::Object(members)) => match member(members, "code"@) {
            None => Err(Defect::MissingCode),
            Some(code) => match code_of(code) {
                None => Err(Defect::BadCode),
                Some(code) => match optional_text(member(members, "message"@)) {
                    None => Err(Defect::BadMessage),
                    Some(message) => Ok(Some(ReportedError { code, message })),
                },
            },
        },
        Some(_) => Err(Defect::BadError),
    }
}

/// The envelope that the members of `subsonic-response` make up.
pub open spec fn envelope_of_members(inner: Seq<(Seq<char>, JsonValue)>) -> Result<
    EnvelopeView,
    Defect,
> {
    match member(inner, "status"@) {
        None => Err(Defect::MissingStatus),
        Some(JsonValue::Str(status)) => match optional_text(member(inner, "version"@)) {
            None => Err(Defect::BadVersion),
            Some(version) => match optional_text(member(inner, "type"@)) {
                None => Err(Defect::BadServerType),
                Some(server_type) => match optional_text(member(inner, "serverVersion"@)) {
                    None => Err(Defect::BadServerVersion),
                    Some(server_version) => match optional_flag(member(inner, "openSubsonic"@)) {
                        None => Err(Defect::BadOpenSubsonic),
                        Some(open_subsonic) => match reported_error(member(inner, "error"@)) {
                            Err(defect) => Err(defect),
                            Ok(error) => Ok(
                                EnvelopeView {
                                    status,
                                    version,
                                    server_type,
                                    server_version,
                                    open_subsonic,
                                    error,
                                    data: payload_of(inner),
                                },
                            ),
                        },
                    },
                },
            },
        },
        Some(_) => Err(Defect::BadStatus),
    }
}

/// The envelope that a JSON document holds.
pub open spec fn envelope_of(doc: JsonValue) -> Result<EnvelopeView, Defect> {
    match doc {
        JsonValue::Object(top) => match member(top, "subsonic-response"@) {
            None => Err(Defect::MissingEnvelope),
            Some(JsonValue::Object(inner)) => envelope_of_members(inner),
            Some(_) => Err(Defect::EnvelopeNotObject),
        },
        _ => Err(Defect::NotAnObject),
    }
}

/// The characters of an optional string.
pub open spec fn text_view(text: Option<String>) -> Option<Seq<char>> {
    match text {
        Some(s) => Some(s@),
        None => None,
    }
}

/// The error object of a failed call, as the server sent it.
#[derive(Debug, Clone, PartialEq)]
pub struct ApiErrorResponse {
    /// The numeric error code.
    pub code: i32,
    /// What the server said about it, if anything.
    pub message: Option<String>,
}

impl View for ApiErrorResponse {
    type V = ReportedError;

    open spec fn view(&self) -> ReportedError {
        ReportedError { code: self.code, message: text_view(self.message) }
    }
}

/// The payload of an answer: the members of the envelope that are not the
/// envelope's own, by name.
#[derive(Debug, Clone, PartialEq)]
pub struct Payload {
    /// The members, in the order of the envelope.
    pub fields: Vec<(String, Json)>,
}

impl View for Payload {
    type V = Seq<(Seq<char>, JsonValue)>;

    open spec fn view(&self) -> Seq<(Seq<char>, JsonValue)> {
        members_view(self.fields@)
    }
}

impl Payload {
    /// The member of this name, if there is one.
    pub fn get(&self, name: &str) -> (found: Option<&Json>)
        ensures
            found_view(found) == member(self@, name@),
    {
        find_member(&self.fields, name)
    }
}

/// The contents of `subsonic-response`.
#[derive(Debug, Clone, PartialEq)]
pub struct SubsonicResponse {
    /// `ok` or `failed`.
    pub status: String,
    /// The protocol version that the server speaks.
    pub version: Option<String>,
    /// The kind of server.
    pub server_type: Option<String>,
    /// The version of the server's software.
    pub server_version: Option<String>,
    /// Whether the server knows the OpenSubsonic extensions.
    pub open_subsonic: Option<bool>,
    /// The error of a failed call.
    pub error: Option<ApiErrorResponse>,
    /// All other members: the payload.
    pub data: Payload,
}

impl View for SubsonicResponse {
    type V = EnvelopeView;

    open spec fn view(&self) -> EnvelopeView {
        EnvelopeView {
            status: self.status@,
            version: text_view(self.version),
            server_type: text_view(self.server_type),
            server_version: text_view(self.server_version),
            open_subsonic: self.open_subsonic,
            error: match self.error {
                Some(e) => Some(e@),
                None => None,
            },
            data: self.data@,
        }
    }
}

fn is_envelope_name(name: &str) -> (r: bool)
    ensures
        r == is_envelope_field(name@),
{
    str_eq(name, "status") || str_eq(name, "version") || str_eq(name, "type") || str_eq(
        name,
        "serverVersion",
    ) || str_eq(name, "openSubsonic") || str_eq(name, "error")
}

fn read_optional_text(found: Option<&Json>) -> (r: Option<Option<String>>)
    ensures
        match optional_text(found_view(found)) {
            Some(text) => r matches Some(t) && text_view(t) == text,
            None => r is None,
        },
{
    match found {
        None => Some(None),
        Some(Json::Null) => Some(None),
        Some(Json::Str(s)) => Some(Some(s.clone())),
        Some(_) => None,
    }
}

fn read_optional_flag(found: Option<&Json>) -> (r: Option<Option<bool>>)
    ensures
        r == optional_flag(found_view(found)),
{
    match found {
        None => Some(None),
        Some(Json::Null) => Some(None),
        Some(Json::Bool(b)) => Some(Some(*b)),
        Some(_) => None,
    }
}

fn read_code(found: &Json) -> (r: Option<i32>)
    ensures
        r == code_of(found@),
{
    match found {
        Json::Number(text) => match parse_integer(text.as_str()) {
            Some(v) => if -2147483648 <= v && v <= 2147483647 {
                Some(v as i32)
            } else {
                None
            },
            None => None,
        },
        _ => None,
    }
}

fn read_error(found: Option<&Json>) -> (r: Result<Option<ApiErrorResponse>, Defect>)
    ensures
        match reported_error(found_view(found)) {
            Ok(Some(e)) => r matches Ok(Some(x)) && x@ == e,
            Ok(None) => r matches Ok(None),
            Err(d) => r == Err::<Option<ApiErrorResponse>, Defect>(d),
        },
{
    match found {
        None => Ok(None),
        Some(Json::Null) => Ok(None),
        Some(Json::Object(members)) => {
            let code = match find_member(members, "code") {
                None => {
                    return Err(Defect::MissingCode);
                },
                Some(code) => match read_code(code) {
                    None => {
                        return Err(Defect::BadCode);
                    },
                    Some(code) => code,
                },
            };
            match read_optional_text(find_member(members, "message")) {
                None => Err(Defect::BadMessage),
                Some(message) => Ok(Some(ApiErrorResponse { code, message })),
            }
        },
        Some(_) => Err(Defect::BadError),
    }
}

/// Copies the members that make up the payload.
fn read_payload(members: &Vec<(String, Json)>) -> (payload: Payload)
    ensures
        payload@ == payload_of(members_view(members@)),
{
    let ghost all = members_view(members@);
    proof {
        lemma_members_view(members@);
    }
    let mut fields: Vec<(String, Json)> = Vec::new();
    let mut i: usize = 0;
    proof {
        assert(all.skip(0) =~= all);
        assert(members_view(fields@) =~= Seq::empty());
        assert(members_view(fields@) + payload_of(all) =~= payload_of(all));
    }
    while i < members.len()
        invariant
            i <= members.len(),
            all == members_view(members@),
            all.len() == members.len(),
            forall|k: int|
                0 <= k < all.len() ==> (#[trigger] all[k]) == (members[k].0@, members[k].1@),
            members_view(fields@) + payload_of(all.skip(i as int)) == payload_of(all),
        decreases members.len() - i,
    {
        let ghost before = fields@;
        proof {
            assert(all.skip(i as int).drop_first() =~= all.skip(i + 1));
            assert(all.skip(i as int)[0] == all[i as int]);
        }
        if !is_envelope_name(members[i].0.as_str()) {
            fields.push((members[i].0.clone(), members[i].1.duplicate()));
            proof {
                assert(fields@.drop_last() =~= before);
                assert(members_view(fields@) == members_view(fields@.drop_last()).push(
                    (fields@.last().0@, fields@.last().1@),
                ));
                assert(members_view(fields@) + payload_of(all.skip(i + 1)) =~= members_view(before)
                    + payload_of(all.skip(i as int)));
            }
        }
        i += 1;
    }
    proof {
        assert(payload_of(all.skip(i as int)) =~= Seq::empty());
        assert(members_view(fields@) + Seq::empty() =~= members_view(fields@));
    }
    Payload { fields }
}

fn read_members(inner: &Vec<(String, Json)>) -> (r: Result<SubsonicResponse, Defect>)
    ensures
        match envelope_of_members(members_view(inner@)) {
            Ok(env) => r matches Ok(e) && e@ == env,
            Err(d) => r matches Err(x) && x == d,
        },
{
    let status = match find_member(inner, "status") {
        None => {
            return Err(Defect::MissingStatus);
        },
        Some(Json::Str(status)) => status.clone(),
        Some(_) => {
            return Err(Defect::BadStatus);
        },
    };
    let version = match read_optional_text(find_member(inner, "version")) {
        None => {
            return Err(Defect::BadVersion);
        },
        Some(version) => version,
    };
    let server_type = match read_optional_text(find_member(inner, "type")) {
        None => {
            return Err(Defect::BadServerType);
        },
        Some(server_type) => server_type,
    };
    let server_version = match read_optional_text(find_member(inner, "serverVersion")) {
        None => {
            return Err(Defect::BadServerVersion);
        },
        Some(server_version) => server_version,
    };
    let open_subsonic = match read_optional_flag(find_member(inner, "openSubsonic")) {
        None => {
            return Err(Defect::BadOpenSubsonic);
        },
        Some(open_subsonic) => open_subsonic,
    };
    let error = match read_error(find_member(inner, "error")) {
        Err(defect) => {
            return Err(defect);
        },
        Ok(error) => error,
    };
    let data = read_payload(inner);
    Ok(
        SubsonicResponse {
            status,
            version,
            server_type,
            server_version,
            open_subsonic,
            error,
            data,
        },
    )
}

/// Reads the envelope that a JSON document holds.
pub fn read_envelope(doc: &Json) -> (r: Result<SubsonicResponse, Defect>)
    ensures
        match envelope_of(doc@) {
            Ok(env) => r matches Ok(e) && e@ == env,
            Err(d) => r matches Err(x) && x == d,
        },
{
    match doc {
        Json::Object(top) => match find_member(top, "subsonic-response") {
            None => Err(Defect::MissingEnvelope),
            Some(Json::Object(inner)) => read_members(inner),
            Some(_) => Err(Defect::EnvelopeNotObject),
        },
        _ => Err(Defect::NotAnObject),
    }
}

/// What is said of a failed call whose envelope holds no error object.
pub const NO_ERROR_OBJECT: &'static str = "Unknown API error (status != ok but no error object)";

/// The failure that an envelope reports: `None` where its status is `ok`;
/// else the code and message of its error object, or code 0 and `fallback`
/// where it holds none.
pub open spec fn failure_of(env: EnvelopeView, fallback: Seq<char>) -> Option<(i32, Seq<char>)> {
    if env.status == "ok"@ {
        None
    } else {
        match env.error {
            Some(e) => Some(
                (
                    e.code,
                    match e.message {
                        Some(m) => m,
                        None => Seq::empty(),
                    },
                ),
            ),
            None => Some((0i32, fallback)),
        }
    }
}

/// Whether `whole` ends with `tail`.
pub open spec fn ends_with(whole: Seq<char>, tail: Seq<char>) -> bool {
    whole.len() >= tail.len() && whole.subrange(whole.len() - tail.len(), whole.len() as int)
        == tail
}

/// Whether `e` is the parse error for a text that is no JSON document: some
/// message of the parser, a colon, and the text itself.
pub open spec fn is_unreadable(e: Error, text: Seq<char>) -> bool {
    e matches Error::Parse(m) && ends_with(m@, ": "@ + text)
}

/// Whether `e` is the parse error for a document with the defect `d`: the
/// defect's words, a colon, and the text itself.
pub open spec fn is_malformed(e: Error, d: Defect, text: Seq<char>) -> bool {
    e matches Error::Parse(m) && m@ == d.words() + ": "@ + text
}

/// Whether `e` is the API error with this code and message.
pub open spec fn is_api_error(e: Error, failure: (i32, Seq<char>)) -> bool {
    e matches Error::Api(a) && a.code == failure.0 && a.message@ == failure.1
}

/// Whether `r` is what decoding gives for the text of an answer, `doc` being
/// what the JSON parser made of the text.
pub open spec fn decodes_to(
    doc: Option<JsonValue>,
    text: Seq<char>,
    r: Result<Payload, Error>,
) -> bool {
    match doc {
        None => r matches Err(e) && is_unreadable(e, text),
        Some(doc) => match envelope_of(doc) {
            Err(d) => r matches Err(e) && is_malformed(e, d, text),
            Ok(env) => match failure_of(env, NO_ERROR_OBJECT@) {
                Some(failure) => r matches Err(e) && is_api_error(e, failure),
                None => r matches Ok(p) && p@ == env.data,
            },
        },
    }
}

/// The parse error for the text of an answer: what is wrong, a colon, and
/// the text itself.
pub fn parse_error(reason: &str, text: &str) -> (e: Error)
    ensures
        e matches Error::Parse(m) && m@ == reason@ + ": "@ + text@,
        is_unreadable(e, text@),
{
    let mut m = String::from_str(reason);
    m.append(": ");
    m.append(text);
    proof {
        let tail = ": "@ + text@;
        assert(m@ =~= reason@ + tail);
        assert(m@.subrange(m@.len() - tail.len(), m@.len() as int) =~= tail);
    }
    Error::Parse(m)
}

impl SubsonicResponse {
    /// Parts success from failure: the payload where the status is `ok`,
    /// else the error. A failure without an error object is given code 0 and
    /// `fallback` as its message.
    pub fn into_result(self, fallback: &str) -> (r: Result<Payload, SubsonicApiError>)
        ensures
            match failure_of(self@, fallback@) {
                Some(failure) => r matches Err(e) && e.code == failure.0 && e.message@ == failure.1,
                None => r matches Ok(p) && p@ == self@.data,
            },
    {
        if str_eq(self.status.as_str(), "ok") {
            return Ok(self.data);
        }
        match self.error {
            Some(e) => {
                let message = match e.message {
                    Some(m) => m,
                    None => String::new(),
                };
                Err(SubsonicApiError { code: e.code, message })
            },
            None => Err(SubsonicApiError { code: 0, message: String::from_str(fallback) }),
        }
    }
}

/// Decodes an answer that the JSON parser has read: the payload of a
/// successful call, the server's error for a failed one, a parse error for a
/// document that is no envelope. `text` is the answer as it came.
pub fn decode_document(doc: &Json, text: &str) -> (r: Result<Payload, Error>)
    ensures
        decodes_to(Some(doc@), text@, r),
{
    match read_envelope(doc) {
        Err(defect) => Err(parse_error(defect.as_str(), text)),
        Ok(envelope) => match envelope.into_result(NO_ERROR_OBJECT) {
            Ok(payload) => Ok(payload),
            Err(e) => Err(Error::Api(e)),
        },
    }
}

/// Reads the text of an answer as an envelope.
pub fn parse_envelope(text: &str) -> (r: Result<SubsonicResponse, Error>)
    ensures
        match parsed_json(text@) {
            None => r matches Err(e) && is_unreadable(e, text@),
            Some(doc) => match envelope_of(doc) {
                Err(d) => r matches Err(e) && is_malformed(e, d, text@),
                Ok(env) => r matches Ok(x) && x@ == env,
            },
        },
{
    match parse_json(text) {
        Err(reason) => Err(parse_error(reason.as_str(), text)),
        Ok(doc) => match read_envelope(&doc) {
            Err(defect) => Err(parse_error(defect.as_str(), text)),
            Ok(envelope) => Ok(envelope),
        },
    }
}

/// Decodes the text of an answer.
pub fn decode_response(text: &str) -> (r: Result<Payload, Error>)
    ensures
        decodes_to(parsed_json(text@), text@, r),
{
    match parse_json(text) {
        Err(reason) => Err(parse_error(reason.as_str(), text)),
        Ok(doc) => decode_document(&doc, text),
    }
}

} // verus!
