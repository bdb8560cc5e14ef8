//! What a refusal from the legacy gateway looks like on this side.

use vstd::prelude::*;

use crate::json::{json_parse, parse_json, JsonValue};
use crate::text::{decimal, push_decimal};

verus! {

/// A refusal from the legacy gateway.
///
/// The gateway has two ways of saying no: an HTTP status carrying a
/// `{ statusCode, message }` body, and -- in the templates family -- an HTTP
/// 200 whose real code hides inside the `{ data, statusCode }` envelope. Both
/// arrive here, so a caller has one type to match on.
#[derive(Debug, Clone, PartialEq, Eq)]
pub struct LegacyApiError {
    /// The code that matters: the `statusCode` the body carries -- the
    /// envelope's inner one when the refusal came wrapped, or the refusal
    /// body's own when it is a non-negative integer that fits in a `u16` --
    /// and the HTTP status only when the body carries none.
    pub status: u16,
    /// What the wire said. `200` when the envelope hid a 404, `0` when the
    /// call never reached the gateway.
    pub http_status: u16,
    /// What went wrong, in the gateway's own words when it gave any.
    pub message: String,
    /// The body exactly as it came. `None` when there was no answer to read.
    pub body: Option<String>,
}

/// What every call in the legacy area returns.
pub type LegacyResult<T> = core::result::Result<T, LegacyApiError>;

/// The line a [`LegacyApiError`] prints: both codes, then the message.
pub open spec fn legacy_error_line(status: u16, http_status: u16, message: Seq<char>) -> Seq<
    char,
> {
    "aronline legado: "@ + decimal(status as nat) + " (http "@ + decimal(http_status as nat)
        + "): "@ + message
}

impl LegacyApiError {
    /// The error the SDK raises on its own, without an answer to quote.
    pub fn local(status: u16, http_status: u16, message: String) -> (error: Self)
        ensures
            error == (LegacyApiError { status, http_status, message, body: None }),
    {
        LegacyApiError { status, http_status, message, body: None }
    }

    /// The body parsed as JSON, or `None` when there is no body or it is not
    /// JSON at all.
    pub fn body_json(&self) -> (parsed: Option<JsonValue>)
        ensures
            parsed == match self.body {
                Some(body) => match json_parse(body@) {
                    Ok(value) => Some(value),
                    Err(_) => None,
                },
                None => None,
            },
    {
        match &self.body {
            Some(body) => match parse_json(body.as_str()) {
                Ok(value) => Some(value),
                Err(_) => None,
            },
            None => None,
        }
    }

    /// `aronline legado: <status> (http <http_status>): <message>`.
    pub fn to_string(&self) -> (line: String)
        ensures
            line@ == legacy_error_line(self.status, self.http_status, self.message@),
    {
        let mut line = String::from_str("aronline legado: ");
        push_decimal(&mut line, self.status as u64);
        line.append(" (http ");
        push_decimal(&mut line, self.http_status as u64);
        line.append("): ");
        line.append(self.message.as_str());
        line
    }
}

} // verus!
