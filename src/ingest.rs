use vstd::prelude::*;

use base64::Engine;

use crate::outcome::{SaveOutcome, StatusCode};

verus! {

/// The bytes that standard, padded base64 text decodes to, or `None` when the
/// text is not valid base64.
pub uninterp spec fn base64_decoding(text: Seq<char>) -> Option<Seq<u8>>;

/// Relies on base64's `Engine::decode` with the `STANDARD` engine: the result
/// depends on the text alone; on failure, the error's text.
#[verifier::external_body]
fn decode_standard_base64(text: &str) -> (r: Result<Vec<u8>, String>)
    ensures
        match r {
            Ok(bytes) => base64_decoding(text@) == Some(bytes@),
            Err(_) => base64_decoding(text@) is None,
        },
{
    base64::engine::general_purpose::STANDARD.decode(text).map_err(|e| e.to_string())
}

pub open spec fn incorrect_data_message(reason: Seq<char>) -> Seq<char> {
    "Incorrect data: "@ + reason
}

pub open spec fn incorrect_url_message(reason: Seq<char>) -> Seq<char> {
    "Incorrect url: "@ + reason
}

/// The outcome of a payload that could not be decoded, for the given reason:
/// `(BadRequest, "Incorrect data: <reason>")`.
pub fn undecodable_payload(reason: String) -> (r: SaveOutcome)
    ensures
        r@ == (StatusCode::BadRequest, incorrect_data_message(reason@)),
{
    SaveOutcome { status: StatusCode::BadRequest, message: String::from_str("Incorrect data: ").concat(reason.as_str()) }
}

/// The outcome of a source URL that could not be fetched:
/// `(BadRequest, "Incorrect url: <reason>")`.
pub fn fetch_failure(reason: String) -> (r: SaveOutcome)
    ensures
        r@ == (StatusCode::BadRequest, incorrect_url_message(reason@)),
{
    SaveOutcome { status: StatusCode::BadRequest, message: String::from_str("Incorrect url: ").concat(reason.as_str()) }
}

/// The content of a JSON upload, whose `data` field holds the image as
/// standard base64: its decoding, or a `BadRequest` when it is not base64.
pub fn decode_json_payload(data: &str) -> (r: Result<Vec<u8>, SaveOutcome>)
    ensures
        match r {
            Ok(bytes) => base64_decoding(data@) == Some(bytes@),
            Err(o) => base64_decoding(data@) is None && o.status == StatusCode::BadRequest
                && exists|reason: Seq<char>| o.message@ == incorrect_data_message(reason),
        },
{
    match decode_standard_base64(data) {
        Ok(bytes) => Ok(bytes),
        Err(reason) => Err(undecodable_payload(reason)),
    }
}

} // verus!
