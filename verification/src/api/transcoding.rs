//! Transcoding decisions and streams.

use vstd::prelude::*;
use url::Url;
use crate::api::call::{
    asks, missing, missing_text, one, opt_int, opt_text, Expect, ExpectView, Method, Params,
    Request, RequestView,
};
use crate::auth::is_salt;
use crate::client::Client;
use crate::error::Error;
use crate::data::transcoding::ClientInfo;
use crate::envelope::{
    decode_document, decodes_to, envelope_of, failure_of, is_api_error, is_malformed,
    is_unreadable, parse_error, Payload, NO_ERROR_OBJECT,
};
use crate::json::{member, parse_json, parsed_json, Json, JsonValue};

verus! {

impl Client {
    /// Get a transcoded stream URL (OpenSubsonic extension).
    pub fn get_transcode_stream_url(
        &self,
        id: &str,
        max_bit_rate: Option<i32>,
        format: Option<&str>,
    ) -> (r: Result<Url, Error>)
        ensures
            exists|salt: Seq<char>|
                is_salt(salt) && #[trigger] self@.builds(
                    "getTranscodeStream"@,
                    self@.credentials(salt),
                    one("id"@, id@)
                        + opt_int("maxBitRate"@, max_bit_rate)
                        + opt_text("format"@, format),
                    r,
                ),
    {
        let mut params = Params::new();
        params.text("id", id);
        params.opt_int("maxBitRate", max_bit_rate);
        params.opt_text("format", format);
        assert(params@ =~= one("id"@, id@)
            + opt_int("maxBitRate"@, max_bit_rate)
            + opt_text("format"@, format));
        let pairs = params.as_pairs();
        self.build_url("getTranscodeStream", pairs.as_slice())
    }

    /// Get a transcoded stream as raw bytes (OpenSubsonic extension):
    /// the call of `getTranscodeStream`.
    pub fn get_transcode_stream(
        &self,
        id: &str,
        max_bit_rate: Option<i32>,
        format: Option<&str>,
    ) -> (call: Request)
        ensures
            call@ == asks(
                "getTranscodeStream"@,
                one("id"@, id@)
                    + opt_int("maxBitRate"@, max_bit_rate)
                    + opt_text("format"@, format),
                ExpectView::Bytes,
            ),
    {
        let mut params = Params::new();
        params.text("id", id);
        params.opt_int("maxBitRate", max_bit_rate);
        params.opt_text("format", format);
        assert(params@ =~= one("id"@, id@)
            + opt_int("maxBitRate"@, max_bit_rate)
            + opt_text("format"@, format));
        Request::get("getTranscodeStream", params, Expect::Bytes)
    }

    /// Get a transcode decision for a song: the call of
    /// `getTranscodeDecision`. With client information the call is sent with
    /// `POST`, the information being its JSON body; the answer is read as that
    /// of any other call.
    pub fn get_transcode_decision(
        &self,
        id: &str,
        max_bit_rate: Option<i32>,
        format: Option<&str>,
        client_info: Option<&ClientInfo>,
    ) -> (call: Request)
        ensures
            call@ == (RequestView {
                method: if client_info is Some {
                    Method::Post
                } else {
                    Method::Get
                },
                ..asks(
                    "getTranscodeDecision"@,
                    one("id"@, id@) + opt_int("maxBitRate"@, max_bit_rate) + opt_text(
                        "format"@,
                        format,
                    ),
                    ExpectView::Required("transcodeDecision"@),
                )
            }),
    {
        let mut params = Params::new();
        params.text("id", id);
        params.opt_int("maxBitRate", max_bit_rate);
        params.opt_text("format", format);
        assert(params@ =~= one("id"@, id@) + opt_int("maxBitRate"@, max_bit_rate) + opt_text(
            "format"@,
            format,
        ));
        let method = match client_info {
            Some(_) => Method::Post,
            None => Method::Get,
        };
        Request {
            method,
            endpoint: "getTranscodeDecision",
            params,
            expects: Expect::Required("transcodeDecision"),
        }
    }
}

/// Whether `r` is what reading the answer of a posted call gives, `doc`
/// being what the JSON parser made of the text and `field` the member that
/// holds the result. The envelope is read as that of every other call; the
/// result is the member of that name in the payload, which must be there.
pub open spec fn posted_decodes_to(
    doc: Option<JsonValue>,
    text: Seq<char>,
    field: Seq<char>,
    r: Result<Json, Error>,
) -> bool {
    match doc {
        None => r matches Err(e) && is_unreadable(e, text),
        Some(doc) => match envelope_of(doc) {
            Err(d) => r matches Err(e) && is_malformed(e, d, text),
            Ok(env) => match failure_of(env, NO_ERROR_OBJECT@) {
                Some(failure) => r matches Err(e) && is_api_error(e, failure),
                None => match member(env.data, field) {
                    Some(v) => r matches Ok(j) && j@ == v,
                    None => r matches Err(Error::Parse(m)) && m@ == missing_text(field),
                },
            },
        },
    }
}

/// A body is read alike whether its call was posted or not: where decoding
/// gives a payload, the posted reading gives the member of the payload or its
/// absence; where decoding gives an API error, the posted reading gives the
/// error with that code and message; where decoding gives a parse error, so
/// does the posted reading, with the same words for a document that was
/// read.
pub proof fn lemma_posted_reads_alike(
    doc: Option<JsonValue>,
    text: Seq<char>,
    field: Seq<char>,
    posted: Result<Json, Error>,
    plain: Result<Payload, Error>,
)
    requires
        posted_decodes_to(doc, text, field, posted),
        decodes_to(doc, text, plain),
    ensures
        plain matches Ok(payload) ==> match ExpectView::Required(field).result_in(payload@) {
            Ok(v) => posted matches Ok(j) && j@ == v,
            Err(words) => posted matches Err(Error::Parse(m)) && m@ == words,
        },
        plain matches Err(e) ==> (e is Api || e is Parse) && posted is Err,
        plain matches Err(Error::Api(a)) ==> posted matches Err(Error::Api(b)) && b.code == a.code
            && b.message@ == a.message@,
        plain matches Err(Error::Parse(m)) ==> posted is Err && is_unreadable(posted->Err_0, text)
            && (doc is Some ==> posted->Err_0->Parse_0@ == m@),
{
    if let Some(d) = doc {
        if let Err(defect) = envelope_of(d) {
            // the words of a defect end with the text, as those of the parser do
            let tail = ": "@ + text;
            let whole = defect.words() + ": "@ + text;
            assert(whole.subrange(whole.len() - tail.len(), whole.len() as int) =~= tail);
        }
    }
}

/// Reads the answer of a posted call, once the JSON parser has read it: the
/// envelope is decoded, and the member named `field` is taken out of the
/// payload.
pub fn decode_posted_document(doc: &Json, text: &str, field: &str) -> (r: Result<Json, Error>)
    ensures
        posted_decodes_to(Some(doc@), text@, field@, r),
{
    match decode_document(doc, text) {
        Err(e) => Err(e),
        Ok(payload) => match payload.get(field) {
            Some(v) => Ok(v.duplicate()),
            None => Err(missing(field)),
        },
    }
}

/// Reads the text of a posted call's answer.
pub fn decode_posted(text: &str, field: &str) -> (r: Result<Json, Error>)
    ensures
        match parsed_json(text@) {
            None => r matches Err(e) && is_unreadable(e, text@),
            Some(doc) => match envelope_of(doc) {
                Err(d) => r matches Err(e) && is_malformed(e, d, text@),
                Ok(env) => match failure_of(env, NO_ERROR_OBJECT@) {
                    Some(failure) => r matches Err(e) && is_api_error(e, failure),
                    None => match member(env.data, field@) {
                        Some(v) => r matches Ok(j) && j@ == v,
                        None => r matches Err(Error::Parse(m)) && m@ == missing_text(field@),
                    },
                },
            },
        },
{
    match parse_json(text) {
        Err(reason) => Err(parse_error(reason.as_str(), text)),
        Ok(doc) => decode_posted_document(&doc, text, field),
    }
}

} // verus!
