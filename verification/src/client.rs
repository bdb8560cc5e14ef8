//! The builder of a client: two addresses, two credentials, one timeout.

use vstd::prelude::*;

use core::time::Duration;

use crate::legacy::{LegacyEndpoint, DEFAULT_LEGACY_BASE_URL};
use crate::transport::{Endpoint, DEFAULT_BASE_URL, DEFAULT_TIMEOUT_SECS};
use crate::url::trim_trailing_slashes;

verus! {

/// Text that can become an owned `String`: a `&str` or a `String` itself.
pub trait IntoText {
    /// The text this holds.
    spec fn text(&self) -> Seq<char>;

    /// The owned `String` with this text.
    fn into_text(self) -> (text: String)
        ensures
            text@ == self.text(),
    ;
}

impl<'a> IntoText for &'a str {
    open spec fn text(&self) -> Seq<char> {
        (**self)@
    }

    fn into_text(self) -> (text: String) {
        self.to_owned()
    }
}

impl<'a> IntoText for &'a String {
    open spec fn text(&self) -> Seq<char> {
        (**self)@
    }

    fn into_text(self) -> (text: String) {
        self.as_str().to_owned()
    }
}

impl IntoText for String {
    open spec fn text(&self) -> Seq<char> {
        (*self)@
    }

    fn into_text(self) -> (text: String) {
        self
    }
}

/// The `Duration` of so many seconds, as `Duration::from_secs` makes it.
pub uninterp spec fn seconds(secs: u64) -> Duration;

/// `Duration::from_secs`.
///
/// Trusted: the result is the duration `std` builds from this many seconds.
#[verifier::external_body]
fn duration_from_secs(secs: u64) -> (duration: Duration)
    ensures
        duration == seconds(secs),
{
    Duration::from_secs(secs)
}

/// The view of an optional owned text.
pub open spec fn text_of(text: Option<String>) -> Option<Seq<char>> {
    match text {
        Some(t) => Some(t@),
        None => None,
    }
}

/// Builds a client.
///
/// The default points at production with no credential, which is enough for
/// the version route. Each credential is optional: give the one for the
/// surface you are going to use. Each address is its own, and neither
/// credential ever travels to the other's address.
pub struct ClientBuilder {
    base_url: String,
    token: Option<String>,
    legacy_base_url: String,
    legacy_token: Option<String>,
    timeout: Duration,
}

impl ClientBuilder {
    /// Where /v3 calls go.
    pub closed spec fn spec_base_url(self) -> Seq<char> {
        self.base_url@
    }

    /// The /v3 token, when given.
    pub closed spec fn spec_token(self) -> Option<Seq<char>> {
        text_of(self.token)
    }

    /// Where legacy calls go.
    pub closed spec fn spec_legacy_base_url(self) -> Seq<char> {
        self.legacy_base_url@
    }

    /// The gateway's token, when given.
    pub closed spec fn spec_legacy_token(self) -> Option<Seq<char>> {
        text_of(self.legacy_token)
    }

    /// How long a call waits, on both surfaces.
    pub closed spec fn spec_timeout(self) -> Duration {
        self.timeout
    }

    /// The RS256 token issued by AR Online. Every /v3 route except the
    /// version refuses with 401 without it.
    pub fn token<T: IntoText>(self, token: T) -> (built: Self)
        ensures
            built.spec_token() == Some(token.text()),
            built.spec_base_url() == self.spec_base_url(),
            built.spec_legacy_base_url() == self.spec_legacy_base_url(),
            built.spec_legacy_token() == self.spec_legacy_token(),
            built.spec_timeout() == self.spec_timeout(),
    {
        ClientBuilder { token: Some(token.into_text()), ..self }
    }

    /// The gateway's JWT -- the credential of the legacy area, sent raw.
    pub fn legacy_token<T: IntoText>(self, token: T) -> (built: Self)
        ensures
            built.spec_legacy_token() == Some(token.text()),
            built.spec_base_url() == self.spec_base_url(),
            built.spec_token() == self.spec_token(),
            built.spec_legacy_base_url() == self.spec_legacy_base_url(),
            built.spec_timeout() == self.spec_timeout(),
    {
        ClientBuilder { legacy_token: Some(token.into_text()), ..self }
    }

    /// Where to call. Defaults to [`DEFAULT_BASE_URL`].
    pub fn base_url<T: IntoText>(self, base_url: T) -> (built: Self)
        ensures
            built.spec_base_url() == base_url.text(),
            built.spec_token() == self.spec_token(),
            built.spec_legacy_base_url() == self.spec_legacy_base_url(),
            built.spec_legacy_token() == self.spec_legacy_token(),
            built.spec_timeout() == self.spec_timeout(),
    {
        ClientBuilder { base_url: base_url.into_text(), ..self }
    }

    /// Where the legacy gateway is. Defaults to [`DEFAULT_LEGACY_BASE_URL`],
    /// independently of the /v3 address.
    pub fn legacy_base_url<T: IntoText>(self, base_url: T) -> (built: Self)
        ensures
            built.spec_legacy_base_url() == base_url.text(),
            built.spec_base_url() == self.spec_base_url(),
            built.spec_token() == self.spec_token(),
            built.spec_legacy_token() == self.spec_legacy_token(),
            built.spec_timeout() == self.spec_timeout(),
    {
        ClientBuilder { legacy_base_url: base_url.into_text(), ..self }
    }

    /// How long a call waits. Applies to both surfaces.
    pub fn timeout(self, timeout: Duration) -> (built: Self)
        ensures
            built.spec_timeout() == timeout,
            built.spec_base_url() == self.spec_base_url(),
            built.spec_token() == self.spec_token(),
            built.spec_legacy_base_url() == self.spec_legacy_base_url(),
            built.spec_legacy_token() == self.spec_legacy_token(),
    {
        ClientBuilder { timeout, ..self }
    }

    /// How long a call waits.
    pub fn wait(&self) -> (timeout: Duration)
        ensures
            timeout == self.spec_timeout(),
    {
        self.timeout
    }

    /// The two surfaces the client talks to: /v3 at its address with its
    /// token, the gateway at its own address with its own token. Trailing
    /// slashes of an address are dropped.
    pub fn endpoints(&self) -> (endpoints: (Endpoint, LegacyEndpoint))
        ensures
            endpoints.0.base() == trim_trailing_slashes(self.spec_base_url()),
            endpoints.0.credential() == self.spec_token(),
            endpoints.1.base() == trim_trailing_slashes(self.spec_legacy_base_url()),
            endpoints.1.credential() == self.spec_legacy_token(),
    {
        (
            Endpoint::new(self.base_url.as_str(), self.token.clone()),
            LegacyEndpoint::new(self.legacy_base_url.as_str(), self.legacy_token.clone()),
        )
    }
}

impl Default for ClientBuilder {
    /// Production addresses, no credential, a thirty-second timeout.
    fn default() -> (built: Self)
        ensures
            built.spec_base_url() == DEFAULT_BASE_URL@,
            built.spec_token() is None,
            built.spec_legacy_base_url() == DEFAULT_LEGACY_BASE_URL@,
            built.spec_legacy_token() is None,
            built.spec_timeout() == seconds(DEFAULT_TIMEOUT_SECS),
    {
        ClientBuilder {
            base_url: DEFAULT_BASE_URL.to_owned(),
            token: None,
            legacy_base_url: DEFAULT_LEGACY_BASE_URL.to_owned(),
            legacy_token: None,
            timeout: duration_from_secs(DEFAULT_TIMEOUT_SECS),
        }
    }
}

} // verus!
