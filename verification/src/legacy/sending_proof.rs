//! The sending proof, from what the wire answers to what the caller gets.

use vstd::prelude::*;

use super::error::{LegacyApiError, LegacyResult};
use super::models::SendingProof;
use super::base64::{base64_decode, decode};
use vstd::utf8::encode_utf8;

verus! {

/// Reads the sending-proof route's answer: `{ content }` with the PDF in
/// base64, or `{ message }` when the e-mail has no delivery status yet.
///
/// The message branch is not an error -- it means "ask again later". The PDF
/// is decoded for the caller, and the raw base64 stays reachable; base64 that
/// does not decode is a refusal carrying that base64, never a corrupt PDF.
pub fn read_sending_proof(content: Option<String>, message: Option<String>) -> (proof: LegacyResult<
    SendingProof,
>)
    ensures
        match content {
            None => proof matches Ok(p) && p.pdf is None && p.content_base64 is None && p.message
                == message,
            Some(text) => match base64_decode(encode_utf8(text@)) {
                Some(bytes) => proof matches Ok(p) && p.pdf matches Some(pdf) && pdf@ == bytes
                    && p.content_base64 == Some(text) && p.message is None,
                None => proof matches Err(error) && error.status == 200 && error.http_status
                    == 200 && error.message@ == "o comprovante veio com base64 ilegível"@
                    && error.body == Some(text),
            },
        },
{
    let content = match content {
        Some(content) => content,
        None => return Ok(SendingProof { pdf: None, content_base64: None, message }),
    };
    match decode(content.as_str()) {
        Some(pdf) => Ok(SendingProof { pdf: Some(pdf), content_base64: Some(content), message: None }),
        None => Err(
            LegacyApiError {
                status: 200,
                http_status: 200,
                message: String::from_str("o comprovante veio com base64 ilegível"),
                body: Some(content),
            },
        ),
    }
}

} // verus!
