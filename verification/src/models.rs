//! The shapes /v3 answers.
//!
//! The field names are the API's, which is also Rust's convention -- the two
//! agree on `snake_case`, so nothing is renamed in the middle.

use vstd::prelude::*;

verus! {

/// A channel accepted by the template filter.
///
/// The list is closed on the server: a value outside it answers 400
/// `invalid_value`, never a silent empty list. An enum moves that refusal to
/// compile time.
#[derive(Debug, Clone, Copy, PartialEq, Eq, Hash)]
pub enum Channel {
    /// `email`
    Email,
    /// `sms`
    Sms,
    /// `whatsapp`
    WhatsApp,
    /// `voice`
    Voice,
    /// `letter`
    Letter,
}

impl Channel {
    /// Every channel, in the order the API documents them.
    pub const ALL: [Channel; 5] = [
        Channel::Email,
        Channel::Sms,
        Channel::WhatsApp,
        Channel::Voice,
        Channel::Letter,
    ];

    /// The value that travels on the wire.
    pub open spec fn wire(self) -> Seq<char> {
        match self {
            Channel::Email => "email"@,
            Channel::Sms => "sms"@,
            Channel::WhatsApp => "whatsapp"@,
            Channel::Voice => "voice"@,
            Channel::Letter => "letter"@,
        }
    }

    /// The value that travels on the wire.
    pub fn as_str(self) -> (wire: &'static str)
        ensures
            wire@ == self.wire(),
    {
        match self {
            Channel::Email => "email",
            Channel::Sms => "sms",
            Channel::WhatsApp => "whatsapp",
            Channel::Voice => "voice",
            Channel::Letter => "letter",
        }
    }

    /// The value that travels on the wire, as an owned `String` -- what the
    /// channel prints as.
    pub fn to_string(self) -> (wire: String)
        ensures
            wire@ == self.wire(),
    {
        self.as_str().to_owned()
    }
}

/// An allowed recipient.
#[derive(Debug, Clone, PartialEq, Eq)]
pub struct AllowlistEntry {
    /// The entry's id.
    pub id: String,
    /// Who is allowed.
    pub recipient: String,
    /// ISO 8601 with the real offset.
    pub created_at: String,
}

/// A table whose copy is past the threshold.
#[derive(Debug, Clone, PartialEq, Eq)]
pub struct BehindTable {
    /// The legacy table, `schema.table`.
    pub legacy: String,
    /// How far behind it is.
    pub lag_seconds: i64,
}

/// How far behind the copy is, measured by the database clock.
#[derive(Debug, Clone, PartialEq, Eq)]
pub struct Freshness {
    /// When the measurement was taken.
    pub refreshed_at: Option<String>,
    /// The newest read mark across every tracked table.
    pub last_load_at: Option<String>,
    /// `None` when no table carries a read mark yet -- which is not zero lag.
    pub worst_lag_seconds: Option<i64>,
    /// How many tables the loader watches.
    pub tables_tracked: i64,
    /// Never loaded is its own count: it is not lag, and the fix is another.
    pub tables_never_loaded: i64,
    /// Past the threshold, worst first.
    pub behind: Vec<BehindTable>,
}

/// A label.
#[derive(Debug, Clone, PartialEq, Eq)]
pub struct Tag {
    /// The label's id.
    pub id: String,
    /// What it is called.
    pub name: String,
    /// Its colour, when it has one.
    pub color: Option<String>,
    /// ISO 8601 with the real offset.
    pub created_at: String,
}

/// A placeholder a template expects to be filled in.
#[derive(Debug, Clone, PartialEq, Eq)]
pub struct TemplateVariable {
    /// The placeholder's name.
    pub name: String,
    /// Where the provider puts it. `None` when the channel has no components.
    pub component: Option<String>,
    /// The provider's type for it; the wire calls this `type`.
    pub kind: Option<String>,
}

/// A message template.
#[derive(Debug, Clone, PartialEq, Eq)]
pub struct Template {
    /// The public UUID. The internal id never leaves the API.
    pub id: String,
    /// The template's name.
    pub name: String,
    /// The channel it belongs to.
    pub channel: String,
    /// Only channels that carry a subject fill this in.
    pub subject: Option<String>,
    /// The message body, with its placeholders.
    pub body: String,
    /// Whether it is in use.
    pub active: bool,
    /// How the provider knows it.
    pub provider_identifier: Option<String>,
    /// A flat list -- the provider's component nesting stays in the mirror.
    pub variables: Vec<TemplateVariable>,
    /// ISO 8601 with the real offset, e.g. `2024-10-12T14:11:13-03:00`.
    pub created_at: String,
    /// `None` while it has never been changed.
    pub updated_at: Option<String>,
}

/// The running version, the migration it needs and the environment.
#[derive(Debug, Clone, PartialEq, Eq)]
pub struct VersionInfo {
    /// The application's version.
    pub version: String,
    /// The lowest migration this version needs applied.
    pub min_migration: String,
    /// `production`, `staging` or `local`.
    pub environment: String,
}

} // verus!
