//! The shapes the legacy gateway answers, and the ones it takes.
//!
//! The field names are the gateway's, Portuguese and all: an English rendition
//! invented here would create names that exist in no documentation anywhere.
//! Dates stay `String`: `"18/07/2026 01:01:32"` carries no offset, so it does
//! not name an unambiguous instant.

use vstd::prelude::*;

verus! {

/// A field of the old contract that may not be there.
///
/// The gateway says "this has not happened yet" in four ways -- `""`, `null`,
/// a key that vanishes, and `{}`. `Option` collapses "the key came as `null`"
/// and "the key was not in the response" into one `None`, and those are
/// different facts on this API; this keeps all three states.
#[derive(Debug, Clone, PartialEq, Eq)]
pub enum LegacyField<T> {
    /// The key was not in the response.
    Missing,
    /// The key was there, carrying `null`.
    Null,
    /// The key was there, carrying a value.
    Present(T),
}

impl<T> LegacyField<T> {
    /// The value, when there is one: `None` for both flavours of absence.
    pub open spec fn spec_value(self) -> Option<T> {
        match self {
            LegacyField::Present(value) => Some(value),
            _ => None,
        }
    }

    /// The value, when there is one. `None` for both flavours of absence.
    pub fn value(&self) -> (value: Option<&T>)
        ensures
            match value {
                Some(v) => self.spec_value() == Some(*v),
                None => self.spec_value() is None,
            },
    {
        match self {
            LegacyField::Present(value) => Some(value),
            LegacyField::Missing => None,
            LegacyField::Null => None,
        }
    }

    /// The value, taking ownership.
    pub fn into_value(self) -> (value: Option<T>)
        ensures
            value == self.spec_value(),
    {
        match self {
            LegacyField::Present(value) => Some(value),
            LegacyField::Missing => None,
            LegacyField::Null => None,
        }
    }

    /// Whether the key was absent from the response.
    pub fn is_missing(&self) -> (missing: bool)
        ensures
            missing == (*self is Missing),
    {
        match self {
            LegacyField::Missing => true,
            _ => false,
        }
    }

    /// Whether the key was there carrying `null`.
    pub fn is_null(&self) -> (null: bool)
        ensures
            null == (*self is Null),
    {
        match self {
            LegacyField::Null => true,
            _ => false,
        }
    }
}

impl<T> Default for LegacyField<T> {
    /// `Missing`: the default is what a key that was not in the response
    /// reads as.
    fn default() -> (field: Self)
        ensures
            field is Missing,
    {
        LegacyField::Missing
    }
}

/// An attachment, carried inline as base64.
#[derive(Debug, Clone, PartialEq, Eq)]
pub struct Anexo {
    /// The file name the recipient sees.
    pub name: String,
    /// The file's bytes, base64-encoded.
    pub base64: String,
}

/// Question and answer gate on the notification's page.
#[derive(Debug, Clone, Default, PartialEq, Eq)]
pub struct EnvioValidation {
    /// What the recipient is asked.
    pub question: Option<String>,
    /// The answer that opens the page.
    pub reply: Option<String>,
}

/// When the SMS goes out.
#[derive(Debug, Clone, Copy, PartialEq, Eq)]
pub enum SmsTypeSend {
    /// `"1"`, the gateway's default: only if the e-mail is not sent/delivered.
    SomenteSeFalhar,
    /// `"2"`: always, regardless of the e-mail.
    Sempre,
}

impl SmsTypeSend {
    /// The value that travels on the wire.
    pub open spec fn wire(self) -> Seq<char> {
        match self {
            SmsTypeSend::SomenteSeFalhar => "1"@,
            SmsTypeSend::Sempre => "2"@,
        }
    }

    /// The value that travels on the wire.
    pub fn as_str(self) -> (wire: &'static str)
        ensures
            wire@ == self.wire(),
    {
        match self {
            SmsTypeSend::SomenteSeFalhar => "1",
            SmsTypeSend::Sempre => "2",
        }
    }
}

/// The SMS leg of a send.
#[derive(Debug, Clone, Default, PartialEq, Eq)]
pub struct CanalSms {
    /// The mobile number, digits only.
    pub number: Option<String>,
    /// When it goes out. The gateway defaults to [`SmsTypeSend::SomenteSeFalhar`].
    pub type_send: Option<SmsTypeSend>,
    /// Up to 140 characters; `{SHORT_LINK}` is expanded by the gateway.
    pub custom_message: Option<String>,
}

/// What a send answers: the one handle for every later question.
#[derive(Debug, Clone, PartialEq, Eq)]
pub struct EnvioResponse {
    /// The notification's uuid.
    pub id_email: String,
}

/// What finalizing the ladder answers.
#[derive(Debug, Clone, PartialEq, Eq)]
pub struct FinalizarReguaResult {
    /// The gateway's sentence, when it sends one.
    pub message: Option<String>,
}

/// One status event: the label and when it happened.
#[derive(Debug, Clone, PartialEq, Eq)]
pub struct StatusEvent {
    /// The stage's name.
    pub label: String,
    /// `dd/mm/aaaa hh:mm:ss`, Brasília time.
    pub date_time: String,
}

/// Every channel's status history.
#[derive(Debug, Clone, PartialEq, Eq, Default)]
pub struct FullHistory {
    /// The e-mail's stages, in order.
    pub email: Vec<StatusEvent>,
    /// The SMS's stages, in order.
    pub sms: Vec<StatusEvent>,
    /// The `WhatsApp` message's stages, in order.
    pub whatsapp: Vec<StatusEvent>,
    /// The call's stages, in order.
    pub voz: Vec<StatusEvent>,
    /// The letter's stages, in order.
    pub carta: Vec<StatusEvent>,
}

/// Each channel's latest status.
#[derive(Debug, Clone, PartialEq, Eq, Default)]
pub struct FullLastStatus {
    /// The e-mail's current stage.
    pub email: Option<StatusEvent>,
    /// The SMS's current stage.
    pub sms: Option<StatusEvent>,
    /// The `WhatsApp` message's current stage.
    pub whatsapp: Option<StatusEvent>,
    /// The call's current stage.
    pub voz: Option<StatusEvent>,
    /// The letter's current stage.
    pub carta: Option<StatusEvent>,
}

/// The legacy type codes the template list filters by.
///
/// An unknown code answers an empty list, not an error -- an enum moves that
/// mistake to compile time.
#[derive(Debug, Clone, Copy, PartialEq, Eq, Hash)]
pub enum GwTemplateType {
    /// `1`
    WhatsApp,
    /// `2`
    Email,
    /// `3`
    Sms,
    /// `4`
    Carta,
}

impl GwTemplateType {
    /// Every code, in the order the gateway numbers them.
    pub const ALL: [GwTemplateType; 4] = [
        GwTemplateType::WhatsApp,
        GwTemplateType::Email,
        GwTemplateType::Sms,
        GwTemplateType::Carta,
    ];

    /// The value that travels in the query string.
    pub open spec fn wire(self) -> Seq<char> {
        match self {
            GwTemplateType::WhatsApp => "1"@,
            GwTemplateType::Email => "2"@,
            GwTemplateType::Sms => "3"@,
            GwTemplateType::Carta => "4"@,
        }
    }

    /// The value that travels in the query string.
    pub fn as_str(self) -> (wire: &'static str)
        ensures
            wire@ == self.wire(),
    {
        match self {
            GwTemplateType::WhatsApp => "1",
            GwTemplateType::Email => "2",
            GwTemplateType::Sms => "3",
            GwTemplateType::Carta => "4",
        }
    }
}

/// The proof of sending.
///
/// The wire answers `{ content }` with the PDF in base64, or `{ message }`
/// when the e-mail has no delivery status yet. The message branch is not an
/// error: it means "ask again later".
#[derive(Debug, Clone, PartialEq, Eq)]
pub struct SendingProof {
    /// The proof, decoded. `None` while the gateway only has a message.
    pub pdf: Option<Vec<u8>>,
    /// The base64 exactly as the gateway sent it.
    pub content_base64: Option<String>,
    /// The gateway's sentence when the proof is not available yet.
    pub message: Option<String>,
}

/// Status do AR-Email.
///
/// `date_send` and `date_delivery` come as `""` until they happen, while
/// `date_reading` and `date_acceptance` come as `null`.
#[derive(Debug, Clone, PartialEq, Eq)]
pub struct StatusEmail {
    /// `""` until it goes out.
    pub date_send: String,
    /// `""` until the recipient's server accepts it.
    pub date_delivery: String,
    /// `null` until it is read.
    pub date_reading: Option<String>,
    /// `null` until the recipient's server accepts it.
    pub date_acceptance: Option<String>,
    /// Whether the send failed.
    pub error: bool,
    /// Climbs with the stage reached: `Processado`, `Enviado`, `Entregue`, `Lido`.
    pub description: String,
    /// Filled in when `error` is on.
    pub failure_reason: Option<String>,
    /// The long form of the failure, when the gateway sends one.
    pub failure_reason_description: LegacyField<String>,
    /// Your own reference, echoed back from the send.
    pub custom_id: Option<String>,
    /// The notification's uuid.
    pub id_email: String,
}

/// Status do AR-WhatsApp. The dates that have not happened vanish from the
/// response instead of coming null.
#[derive(Debug, Clone, PartialEq, Eq)]
pub struct StatusWhatsapp {
    /// The stage reached.
    pub description: String,
    /// When it went out.
    pub date_sent: LegacyField<String>,
    /// When the provider delivered it.
    pub date_delivery: LegacyField<String>,
    /// When the recipient answered.
    pub date_response: LegacyField<String>,
    /// When the recipient opened the link.
    pub date_access_link: LegacyField<String>,
    /// Whether the send failed.
    pub error: bool,
    /// Filled in when `error` is on.
    pub failure_reason: Option<String>,
    /// Always `None` on this route.
    pub custom_id: Option<String>,
    /// The notification's uuid.
    pub id_email: String,
}

/// Status do AR-Voz. An unknown uuid answers 200 carrying only
/// `description`, and that is not an error.
#[derive(Debug, Clone, PartialEq, Eq)]
pub struct StatusVoz {
    /// The stage reached, or the sentence for a uuid with no voice record.
    pub description: String,
    /// When the call went out.
    pub date_sent: LegacyField<String>,
    /// When the call was answered.
    pub date_success_call: LegacyField<String>,
    /// When the call failed.
    pub date_failure_call: LegacyField<String>,
    /// The recording's link.
    pub link_call: LegacyField<String>,
}

/// Status do AR-Cartas.
#[derive(Debug, Clone, PartialEq, Eq)]
pub struct StatusCarta {
    /// The stage reached.
    pub description: String,
    /// Whether the send failed.
    pub error: bool,
    /// When the letter entered processing.
    pub date_processing: LegacyField<String>,
    /// When it was prepared -- the provider calls this `datePrepared`.
    pub date_preparation: LegacyField<String>,
    /// When the Correios took it.
    pub date_sent: LegacyField<String>,
    /// When it arrived -- the provider calls this `dateDelivered`.
    pub date_delivery: LegacyField<String>,
    /// The Correios tracking code.
    pub sro: LegacyField<String>,
    /// The signed link to the delivery receipt.
    pub link_ar_carta_comprovante: LegacyField<String>,
    /// The public Correios tracking page.
    pub link_rastreio: LegacyField<String>,
}

/// The channels a webhook event names.
#[derive(Debug, Clone, Copy, PartialEq, Eq, Hash)]
pub enum WebhookChannel {
    /// AR-Email.
    Email,
    /// AR-SMS.
    Sms,
    /// AR-WhatsApp.
    Whatsapp,
    /// AR-Voz.
    Voz,
    /// AR-Cartas.
    Carta,
}

/// The default webhook payload. On failure events the three dates come
/// `null` together.
#[derive(Debug, Clone, PartialEq, Eq)]
pub struct WebhookPayloadV1 {
    /// The notification's uuid -- the same `idEmail` a send answers.
    pub notification_id: String,
    /// Which channel the event is about.
    pub channel: String,
    /// The stage reached.
    pub description: String,
    /// When it went out.
    pub date_sent: Option<String>,
    /// When it was delivered.
    pub date_delivery: Option<String>,
    /// When it was read.
    pub date_read: Option<String>,
    /// When the event itself was recorded.
    pub log_date: String,
}

/// How a v2 webhook delivery describes itself.
#[derive(Debug, Clone, PartialEq, Eq)]
pub struct WebhookMetadata {
    /// Always `v2` on this payload.
    pub webhook_version: String,
    /// Delivery attempt -- up to 4 with the retry schedule.
    pub attempt: i64,
}

/// What `LegacyTemplates::update` changes -- the two fields the gateway lets
/// you edit.
#[derive(Debug, Clone, Default, PartialEq, Eq)]
pub struct UpdateGwTemplate {
    /// The new name.
    pub nome: Option<String>,
    /// Whether everyone in the entity may use it.
    pub compartilhado_com_entidade: Option<bool>,
}

} // verus!
