//! The verified core of the AR Online SDK.
//!
//! Everything the SDK decides stands here with its contract: which route a
//! call takes and what it sends, how an id is escaped into a path, how a
//! refusal is read -- from the /v3 catalog body or from the legacy gateway's
//! `{ statusCode, message }` and `{ data, statusCode }` -- and how the sending
//! proof's base64 is decoded. The wire itself, and the JSON shapes read with
//! serde, live around it.

mod client;
mod encoding;
mod error;
mod json;
pub mod legacy;
mod models;
mod text;
mod transport;
mod url;

pub use client::{ClientBuilder, IntoText};
pub use encoding::{encode, encode_segment};
pub use error::{is_refusal, to_api_error, ApiError, ErrorBody, ErrorDetail};
pub use json::{parse_json, position_of, JsonValue};
pub use models::{
    AllowlistEntry, BehindTable, Channel, Freshness, Tag, Template, TemplateVariable, VersionInfo,
};
pub use transport::{Endpoint, V3Request, V3Route, DEFAULT_BASE_URL, DEFAULT_TIMEOUT_SECS};
pub use url::{build_url, trim_trailing_slash};
