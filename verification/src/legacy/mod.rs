//! The legacy gateway of AR Online.
//!
//! A second surface with its own address, its own credential and its own error
//! type. Three things work differently from /v3, and all three are the old
//! contract rather than a defect: the credential is the gateway's JWT sent raw
//! in `authorization` with no `Bearer`; success is not the HTTP status -- the
//! templates family answers 200 carrying the real code inside the body; and a
//! date is a `String` with no offset.

pub mod base64;
mod error;
mod models;
mod sending_proof;
mod transport;

pub use models::{
    Anexo, CanalSms, EnvioResponse, EnvioValidation, FinalizarReguaResult, FullHistory,
    FullLastStatus, GwTemplateType, LegacyField, SendingProof, SmsTypeSend, StatusCarta,
    StatusEmail, StatusEvent, StatusVoz, StatusWhatsapp, UpdateGwTemplate, WebhookChannel,
    WebhookMetadata, WebhookPayloadV1,
};
pub use error::{LegacyApiError, LegacyResult};
pub use transport::{
    envelope_error, missing_envelope, read_envelope, refusal, refusal_from, status_code,
    unwrap_envelope, Enveloped, LegacyEndpoint,
    LegacyRequest, LegacyRoute, LegacyShape, DEFAULT_LEGACY_BASE_URL,
};
pub use sending_proof::read_sending_proof;
