//! The guard of the binary endpoints.
//!
//! Cover art, audio and avatars come as raw bytes. Some servers report an
//! error on these endpoints by sending a JSON envelope in place of the bytes,
//! without an HTTP error status. The guard tells the two apart by the content
//! type and turns such an envelope into the error it reports.

use vstd::prelude::*;
use vstd::string::StringExecFns;
use crate::envelope::{
    envelope_of, failure_of, is_api_error, is_malformed, is_unreadable, parse_error,
    read_envelope,
};
use crate::error::Error;
use crate::json::{parse_json, parsed_json, Json, JsonValue};
use crate::text::chars_of;

verus! {

/// What `String::from_utf8_lossy` makes of a run of bytes.
pub uninterp spec fn lossy_text(bytes: Seq<u8>) -> Seq<char>;

/// `String::from_utf8_lossy` of the standard library: the bytes read as
/// UTF-8, with the replacement character for what is no UTF-8.
#[verifier::external_body]
fn text_of_bytes(bytes: &[u8]) -> (text: String)
    ensures
        text@ == lossy_text(bytes@),
{
    String::from_utf8_lossy(bytes).into_owned()
}

/// What is said of a failed call on a binary endpoint whose envelope holds no
/// error object.
pub const NO_ERROR_OBJECT_BINARY: &'static str = "Unknown API error on binary endpoint";

/// What is said of an envelope that reports success where bytes were due.
pub const UNEXPECTED_SUCCESS: &'static str = "Expected binary response but got JSON with status=ok";

/// The lowercase form of an ASCII letter; any other character is left alone.
pub open spec fn lowered(c: char) -> char {
    if 'A' <= c && c <= 'Z' {
        ((c as int) + 32) as char
    } else {
        c
    }
}

/// Whether `needle` stands at position `at` of `hay`, letters of `hay` taken
/// in lowercase.
pub open spec fn occurs_at(hay: Seq<char>, needle: Seq<char>, at: int) -> bool {
    0 <= at && at + needle.len() <= hay.len() && forall|j: int|
        0 <= j < needle.len() ==> lowered(#[trigger] hay[at + j]) == needle[j]
}

/// Whether `needle` stands somewhere in `hay`, letters of `hay` taken in
/// lowercase.
pub open spec fn mentions(hay: Seq<char>, needle: Seq<char>) -> bool {
    exists|at: int| occurs_at(hay, needle, at)
}

/// Whether a content type names JSON: `application/json` or `text/json`, in
/// any case, anywhere in it.
pub open spec fn names_json(content_type: Seq<char>) -> bool {
    mentions(content_type, "application/json"@) || mentions(content_type, "text/json"@)
}

fn lower(c: char) -> (l: char)
    ensures
        l == lowered(c),
{
    if 'A' <= c && c <= 'Z' {
        ((c as u8) + 32) as char
    } else {
        c
    }
}

fn matches_at(hay: &Vec<char>, needle: &Vec<char>, at: usize) -> (r: bool)
    requires
        at + needle.len() <= hay.len(),
    ensures
        r == occurs_at(hay@, needle@, at as int),
{
    let mut j: usize = 0;
    while j < needle.len()
        invariant
            j <= needle.len(),
            at + needle.len() <= hay.len(),
            forall|k: int| 0 <= k < j ==> lowered(#[trigger] hay@[at + k]) == needle@[k],
        decreases needle.len() - j,
    {
        if lower(hay[at + j]) != needle[j] {
            return false;
        }
        j += 1;
    }
    true
}

fn finds(hay: &Vec<char>, needle: &Vec<char>) -> (r: bool)
    ensures
        r == mentions(hay@, needle@),
{
    if needle.len() > hay.len() {
        return false;
    }
    let last = hay.len() - needle.len();
    let mut at: usize = 0;
    while at <= last
        invariant
            at <= last + 1,
            last == hay.len() - needle.len(),
            needle.len() <= hay.len(),
            forall|k: int| 0 <= k < at ==> !occurs_at(hay@, needle@, k),
        decreases last + 1 - at,
    {
        if matches_at(hay, needle, at) {
            return true;
        }
        at += 1;
    }
    false
}

/// Whether a content type names JSON.
pub fn is_json_content_type(content_type: &str) -> (r: bool)
    ensures
        r == names_json(content_type@),
{
    let hay = chars_of(content_type);
    let long = chars_of("application/json");
    let short = chars_of("text/json");
    finds(&hay, &long) || finds(&hay, &short)
}

/// Whether `e` is the error that a JSON body on a binary endpoint stands
/// for, `doc` being what the JSON parser made of the body's text: the
/// server's error where the envelope reports a failure, a parse error in
/// every other case, success too.
pub open spec fn refuses_as(doc: Option<JsonValue>, text: Seq<char>, e: Error) -> bool {
    match doc {
        None => is_unreadable(e, text),
        Some(doc) => match envelope_of(doc) {
            Err(d) => is_malformed(e, d, text),
            Ok(env) => match failure_of(env, NO_ERROR_OBJECT_BINARY@) {
                Some(failure) => is_api_error(e, failure),
                None => e matches Error::Parse(m) && m@ == UNEXPECTED_SUCCESS@,
            },
        },
    }
}

/// The error that a JSON body on a binary endpoint stands for, once the JSON
/// parser has read it.
pub fn refuse_document(doc: &Json, text: &str) -> (e: Error)
    ensures
        refuses_as(Some(doc@), text@, e),
{
    match read_envelope(doc) {
        Err(defect) => parse_error(defect.as_str(), text),
        Ok(envelope) => match envelope.into_result(NO_ERROR_OBJECT_BINARY) {
            Ok(_) => Error::Parse(String::from_str(UNEXPECTED_SUCCESS)),
            Err(e) => Error::Api(e),
        },
    }
}

/// The error that a JSON body on a binary endpoint stands for.
pub fn refuse_text(text: &str) -> (e: Error)
    ensures
        refuses_as(parsed_json(text@), text@, e),
{
    match parse_json(text) {
        Err(reason) => parse_error(reason.as_str(), text),
        Ok(doc) => refuse_document(&doc, text),
    }
}

/// Whether `r` is what the guard gives for a response with this content type
/// and body: the bytes as they came unless the content type names JSON, else
/// the error that the body stands for.
pub open spec fn resolves_to(
    content_type: Seq<char>,
    body: Seq<u8>,
    r: Result<Vec<u8>, Error>,
) -> bool {
    if names_json(content_type) {
        r matches Err(e) && refuses_as(parsed_json(lossy_text(body)), lossy_text(body), e)
    } else {
        r matches Ok(bytes) && bytes@ == body
    }
}

/// Guards a binary endpoint: hands the body on unless the content type says
/// that it is a JSON envelope, which is turned into the error it reports.
pub fn resolve_binary(content_type: &str, body: Vec<u8>) -> (r: Result<Vec<u8>, Error>)
    ensures
        resolves_to(content_type@, body@, r),
{
    if is_json_content_type(content_type) {
        let text = text_of_bytes(body.as_slice());
        Err(refuse_text(text.as_str()))
    } else {
        Ok(body)
    }
}

/// A response whose content type names JSON is never handed on as bytes; a
/// failure envelope in it comes out as the server's error.
pub proof fn lemma_json_body_is_refused(
    content_type: Seq<char>,
    body: Seq<u8>,
    r: Result<Vec<u8>, Error>,
)
    requires
        names_json(content_type),
        resolves_to(content_type, body, r),
    ensures
        r is Err,
        match parsed_json(lossy_text(body)) {
            Some(doc) => match envelope_of(doc) {
                Ok(envelope) => envelope.status != "ok"@ ==> is_api_error(
                    r->Err_0,
                    failure_of(envelope, NO_ERROR_OBJECT_BINARY@)->Some_0,
                ),
                Err(_) => true,
            },
            None => true,
        },
{
}

} // verus!
