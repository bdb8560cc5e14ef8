//! What the legacy transport decides before and after the wire.
//!
//! Two things make it a different transport from the /v3 one rather than a
//! flag on it: the credential goes raw in `authorization` -- no `Bearer` --
//! and success is not the HTTP status. Each route says which reading its
//! answer gets: plain JSON, the `{ data, statusCode }` envelope, or a file.

use vstd::prelude::*;

use super::error::LegacyApiError;
use super::models::GwTemplateType;
use crate::encoding::{encode_segment, percent_encode_text};
use crate::json::{json_parse, parse_json, position_of, JsonValue};
use crate::text::{decimal, push_decimal};
use crate::url::{build_url, pairs_view, trim_trailing_slash, trim_trailing_slashes, url_of};

verus! {

/// Where the legacy gateway lives; independent of the /v3 address.
pub const DEFAULT_LEGACY_BASE_URL: &'static str = "https://api.ar-online.com.br";

/// How a route's answer is read.
#[derive(Debug, Clone, Copy, PartialEq, Eq)]
pub enum LegacyShape {
    /// JSON that refuses with an HTTP status.
    Json,
    /// The templates family's `{ data, statusCode }` envelope, which answers
    /// HTTP 200 even on error.
    Envelope,
    /// A file -- the laudo.
    Binary,
}

/// A legacy route, one per function of the legacy area. Every id is the
/// notification's uuid, or a template's.
#[derive(Debug, Clone, PartialEq, Eq)]
pub enum LegacyRoute {
    /// `POST /gw/email`, the multichannel send despite the name.
    Send,
    /// `GET /gw/email/{id}`.
    StatusEmail(String),
    /// `GET /gw/sms/{id}`.
    StatusSms(String),
    /// `GET /gw/whatsapp/{id}`.
    StatusWhatsapp(String),
    /// `GET /gw/voz/{id}`.
    StatusVoz(String),
    /// `GET /gw/carta/{id}`.
    StatusCarta(String),
    /// `GET /gw/full/{id}`.
    StatusFull(String),
    /// `GET /gw/sending-proof/{id}`.
    SendingProof(String),
    /// `GET /gw/email/laudo/{id}`, the one route that answers a file.
    Laudo(String),
    /// `GET /regua-notificacao/finalizar/{id}`: a GET with a side effect, as
    /// the old contract has it.
    FinalizarRegua(String),
    /// `GET /gw/templates`, optionally filtered by type code.
    TemplateList(Option<GwTemplateType>),
    /// `GET /gw/templates/{id}`.
    TemplateGet(String),
    /// `PUT /gw/templates/{id}`.
    TemplateUpdate(String),
    /// `DELETE /gw/templates/{id}`.
    TemplateDeactivate(String),
    /// `PATCH /gw/templates/{id}/status`.
    TemplateSetStatus(String),
}

impl LegacyRoute {
    /// The HTTP method.
    pub open spec fn spec_method(self) -> Seq<char> {
        match self {
            LegacyRoute::Send => "POST"@,
            LegacyRoute::TemplateUpdate(_) => "PUT"@,
            LegacyRoute::TemplateDeactivate(_) => "DELETE"@,
            LegacyRoute::TemplateSetStatus(_) => "PATCH"@,
            _ => "GET"@,
        }
    }

    /// The path, the id percent-encoded as one segment.
    pub open spec fn spec_path(self) -> Seq<char> {
        match self {
            LegacyRoute::Send => "/gw/email"@,
            LegacyRoute::StatusEmail(id) => "/gw/email/"@ + percent_encode_text(id@),
            LegacyRoute::StatusSms(id) => "/gw/sms/"@ + percent_encode_text(id@),
            LegacyRoute::StatusWhatsapp(id) => "/gw/whatsapp/"@ + percent_encode_text(id@),
            LegacyRoute::StatusVoz(id) => "/gw/voz/"@ + percent_encode_text(id@),
            LegacyRoute::StatusCarta(id) => "/gw/carta/"@ + percent_encode_text(id@),
            LegacyRoute::StatusFull(id) => "/gw/full/"@ + percent_encode_text(id@),
            LegacyRoute::SendingProof(id) => "/gw/sending-proof/"@ + percent_encode_text(id@),
            LegacyRoute::Laudo(id) => "/gw/email/laudo/"@ + percent_encode_text(id@),
            LegacyRoute::FinalizarRegua(id) => "/regua-notificacao/finalizar/"@
                + percent_encode_text(id@),
            LegacyRoute::TemplateList(_) => "/gw/templates"@,
            LegacyRoute::TemplateGet(id) => "/gw/templates/"@ + percent_encode_text(id@),
            LegacyRoute::TemplateUpdate(id) => "/gw/templates/"@ + percent_encode_text(id@),
            LegacyRoute::TemplateDeactivate(id) => "/gw/templates/"@ + percent_encode_text(id@),
            LegacyRoute::TemplateSetStatus(id) => "/gw/templates/"@ + percent_encode_text(id@)
                + "/status"@,
        }
    }

    /// The query: the type code, when the template list has one.
    pub open spec fn spec_query(self) -> Seq<(Seq<char>, Seq<char>)> {
        match self {
            LegacyRoute::TemplateList(Some(kind)) => seq![("type"@, kind.wire())],
            _ => Seq::empty(),
        }
    }

    /// How the answer is read.
    pub open spec fn spec_shape(self) -> LegacyShape {
        match self {
            LegacyRoute::Laudo(_) => LegacyShape::Binary,
            LegacyRoute::TemplateList(_) => LegacyShape::Envelope,
            LegacyRoute::TemplateGet(_) => LegacyShape::Envelope,
            LegacyRoute::TemplateUpdate(_) => LegacyShape::Envelope,
            LegacyRoute::TemplateDeactivate(_) => LegacyShape::Envelope,
            LegacyRoute::TemplateSetStatus(_) => LegacyShape::Envelope,
            _ => LegacyShape::Json,
        }
    }

    /// The HTTP method.
    pub fn method(&self) -> (method: &'static str)
        ensures
            method@ == self.spec_method(),
            is_write(*self) ==> method@ != "GET"@,
            !is_write(*self) ==> method@ == "GET"@,
    {
        proof {
            reveal_strlit("GET");
            reveal_strlit("POST");
            reveal_strlit("PUT");
            reveal_strlit("DELETE");
            reveal_strlit("PATCH");
            assert("POST"@.len() != "GET"@.len());
            assert("PUT"@[0] != "GET"@[0]);
            assert("DELETE"@.len() != "GET"@.len());
            assert("PATCH"@.len() != "GET"@.len());
        }
        match self {
            LegacyRoute::Send => "POST",
            LegacyRoute::TemplateUpdate(_) => "PUT",
            LegacyRoute::TemplateDeactivate(_) => "DELETE",
            LegacyRoute::TemplateSetStatus(_) => "PATCH",
            _ => "GET",
        }
    }

    /// How the answer is read.
    pub fn shape(&self) -> (shape: LegacyShape)
        ensures
            shape == LegacyShape::Binary <==> self is Laudo,
            shape == LegacyShape::Envelope <==> is_template_route(*self),
            shape == self.spec_shape(),
    {
        match self {
            LegacyRoute::Laudo(_) => LegacyShape::Binary,
            LegacyRoute::TemplateList(_) => LegacyShape::Envelope,
            LegacyRoute::TemplateGet(_) => LegacyShape::Envelope,
            LegacyRoute::TemplateUpdate(_) => LegacyShape::Envelope,
            LegacyRoute::TemplateDeactivate(_) => LegacyShape::Envelope,
            LegacyRoute::TemplateSetStatus(_) => LegacyShape::Envelope,
            _ => LegacyShape::Json,
        }
    }

    /// The path.
    pub fn path(&self) -> (path: String)
        ensures
            path@ == self.spec_path(),
    {
        match self {
            LegacyRoute::Send => String::from_str("/gw/email"),
            LegacyRoute::StatusEmail(id) => under("/gw/email/", id),
            LegacyRoute::StatusSms(id) => under("/gw/sms/", id),
            LegacyRoute::StatusWhatsapp(id) => under("/gw/whatsapp/", id),
            LegacyRoute::StatusVoz(id) => under("/gw/voz/", id),
            LegacyRoute::StatusCarta(id) => under("/gw/carta/", id),
            LegacyRoute::StatusFull(id) => under("/gw/full/", id),
            LegacyRoute::SendingProof(id) => under("/gw/sending-proof/", id),
            LegacyRoute::Laudo(id) => under("/gw/email/laudo/", id),
            LegacyRoute::FinalizarRegua(id) => under("/regua-notificacao/finalizar/", id),
            LegacyRoute::TemplateList(_) => String::from_str("/gw/templates"),
            LegacyRoute::TemplateGet(id) => under("/gw/templates/", id),
            LegacyRoute::TemplateUpdate(id) => under("/gw/templates/", id),
            LegacyRoute::TemplateDeactivate(id) => under("/gw/templates/", id),
            LegacyRoute::TemplateSetStatus(id) => {
                let mut path = under("/gw/templates/", id);
                path.append("/status");
                path
            },
        }
    }
}

/// The routes that change something on the gateway: the send and the three
/// template writes. Every other route only reads.
pub open spec fn is_write(route: LegacyRoute) -> bool {
    ||| route is Send
    ||| route is TemplateUpdate
    ||| route is TemplateDeactivate
    ||| route is TemplateSetStatus
}

/// The five routes under `/gw/templates`.
pub open spec fn is_template_route(route: LegacyRoute) -> bool {
    ||| route is TemplateList
    ||| route is TemplateGet
    ||| route is TemplateUpdate
    ||| route is TemplateDeactivate
    ||| route is TemplateSetStatus
}

/// Each legacy route's method: the send is a POST, the template writes are
/// PUT, DELETE and PATCH, and every route that only reads -- the statuses,
/// the sending proof, the laudo, the regua, the template list and one
/// template -- is a GET.
pub proof fn law_methods_of_the_legacy_routes(route: LegacyRoute)
    ensures
        route.spec_method() == match route {
            LegacyRoute::Send => "POST"@,
            LegacyRoute::StatusEmail(_) => "GET"@,
            LegacyRoute::StatusSms(_) => "GET"@,
            LegacyRoute::StatusWhatsapp(_) => "GET"@,
            LegacyRoute::StatusVoz(_) => "GET"@,
            LegacyRoute::StatusCarta(_) => "GET"@,
            LegacyRoute::StatusFull(_) => "GET"@,
            LegacyRoute::SendingProof(_) => "GET"@,
            LegacyRoute::Laudo(_) => "GET"@,
            LegacyRoute::FinalizarRegua(_) => "GET"@,
            LegacyRoute::TemplateList(_) => "GET"@,
            LegacyRoute::TemplateGet(_) => "GET"@,
            LegacyRoute::TemplateUpdate(_) => "PUT"@,
            LegacyRoute::TemplateDeactivate(_) => "DELETE"@,
            LegacyRoute::TemplateSetStatus(_) => "PATCH"@,
        },
{
}

/// One template's address serves three calls, told apart by the method
/// alone: reading it is a GET, and neither writing it nor deactivating it is.
pub proof fn law_one_template_address_three_methods(id: String)
    ensures
        LegacyRoute::TemplateGet(id).spec_path() == LegacyRoute::TemplateUpdate(id).spec_path(),
        LegacyRoute::TemplateGet(id).spec_path() == LegacyRoute::TemplateDeactivate(
            id,
        ).spec_path(),
        LegacyRoute::TemplateGet(id).spec_method() == "GET"@,
        LegacyRoute::TemplateGet(id).spec_method() != LegacyRoute::TemplateUpdate(id).spec_method(),
        LegacyRoute::TemplateGet(id).spec_method() != LegacyRoute::TemplateDeactivate(
            id,
        ).spec_method(),
        LegacyRoute::TemplateUpdate(id).spec_method() != LegacyRoute::TemplateDeactivate(
            id,
        ).spec_method(),
{
    reveal_strlit("GET");
    reveal_strlit("PUT");
    reveal_strlit("DELETE");
    assert("PUT"@[0] != "GET"@[0]);
    assert("DELETE"@.len() != "GET"@.len());
    assert("DELETE"@.len() != "PUT"@.len());
}

/// How each legacy route's answer is read: the laudo is the one file, the
/// five `/gw/templates` routes answer inside `{ data, statusCode }`, and
/// every other route -- the sending proof among them -- answers plain JSON.
pub proof fn law_shapes_of_the_legacy_routes(route: LegacyRoute)
    ensures
        route.spec_shape() == match route {
            LegacyRoute::Send => LegacyShape::Json,
            LegacyRoute::StatusEmail(_) => LegacyShape::Json,
            LegacyRoute::StatusSms(_) => LegacyShape::Json,
            LegacyRoute::StatusWhatsapp(_) => LegacyShape::Json,
            LegacyRoute::StatusVoz(_) => LegacyShape::Json,
            LegacyRoute::StatusCarta(_) => LegacyShape::Json,
            LegacyRoute::StatusFull(_) => LegacyShape::Json,
            LegacyRoute::SendingProof(_) => LegacyShape::Json,
            LegacyRoute::Laudo(_) => LegacyShape::Binary,
            LegacyRoute::FinalizarRegua(_) => LegacyShape::Json,
            LegacyRoute::TemplateList(_) => LegacyShape::Envelope,
            LegacyRoute::TemplateGet(_) => LegacyShape::Envelope,
            LegacyRoute::TemplateUpdate(_) => LegacyShape::Envelope,
            LegacyRoute::TemplateDeactivate(_) => LegacyShape::Envelope,
            LegacyRoute::TemplateSetStatus(_) => LegacyShape::Envelope,
        },
        route.spec_shape() == LegacyShape::Binary <==> route is Laudo,
        route.spec_shape() == LegacyShape::Envelope <==> is_template_route(route),
{
}

/// The sending proof is read as the notification's statuses are, as JSON,
/// never as the laudo's file, though both concern one notification's proof.
pub proof fn law_sending_proof_is_json_not_a_file(id: String)
    ensures
        LegacyRoute::SendingProof(id).spec_shape() == LegacyRoute::StatusFull(id).spec_shape(),
        LegacyRoute::SendingProof(id).spec_shape() != LegacyRoute::Laudo(id).spec_shape(),
{
}

/// `prefix` followed by the id, percent-encoded as one segment.
fn under(prefix: &str, id: &String) -> (path: String)
    ensures
        path@ == prefix@ + percent_encode_text(id@),
{
    let mut path = String::from_str(prefix);
    path.append(encode_segment(id.as_str()).as_str());
    path
}

/// The request that goes out: method, where, and the raw credential.
#[derive(Debug, Clone, PartialEq, Eq)]
pub struct LegacyRequest {
    /// The HTTP method.
    pub method: &'static str,
    /// The absolute URL.
    pub url: String,
    /// The gateway's JWT, raw -- no `Bearer`.
    pub authorization: String,
}

/// The address and credential of the legacy gateway.
#[derive(Debug, Clone, PartialEq, Eq)]
pub struct LegacyEndpoint {
    base_url: String,
    token: Option<String>,
}

/// The sentence of a call refused for want of the gateway's credential.
pub open spec fn missing_credential_message(path: Seq<char>) -> Seq<char> {
    path + " exige o token do gateway; construa o cliente com Client::builder().legacy_token(…)"@
}

impl LegacyEndpoint {
    /// The address calls go to, without trailing slashes.
    pub closed spec fn base(self) -> Seq<char> {
        self.base_url@
    }

    /// The gateway's credential, when the client was given one.
    pub closed spec fn credential(self) -> Option<Seq<char>> {
        match self.token {
            Some(token) => Some(token@),
            None => None,
        }
    }

    /// An endpoint at `base_url` -- trailing slashes dropped -- carrying `token`.
    pub fn new(base_url: &str, token: Option<String>) -> (endpoint: Self)
        ensures
            endpoint.base() == trim_trailing_slashes(base_url@),
            endpoint.credential() == match token {
                Some(t) => Some(t@),
                None => None::<Seq<char>>,
            },
    {
        LegacyEndpoint { base_url: trim_trailing_slash(base_url), token }
    }

    /// The address calls go to.
    pub fn base_url(&self) -> (base: &str)
        ensures
            base@ == self.base(),
    {
        self.base_url.as_str()
    }

    /// The absolute URL of a path, each query value percent-encoded.
    pub fn url(&self, path: &str, query: &[(&str, &str)]) -> (url: String)
        ensures
            url@ == url_of(self.base(), path@, pairs_view(query@)),
    {
        build_url(self.base_url.as_str(), path, query)
    }

    /// The request a route makes.
    ///
    /// Every legacy route needs the credential -- the gateway has no open
    /// route -- so a client without it is refused here, before the socket,
    /// with a 401 that names the builder method that is missing and an HTTP
    /// status of zero: there was no wire.
    pub fn prepare(&self, route: &LegacyRoute) -> (prepared: Result<LegacyRequest, LegacyApiError>)
        ensures
            self.credential() is None <==> prepared is Err,
            prepared matches Err(error) ==> {
                &&& error.status == 401
                &&& error.http_status == 0
                &&& error.message@ == missing_credential_message(route.spec_path())
                &&& error.body is None
            },
            prepared matches Ok(request) ==> (request.method@ == "GET"@ <==> !is_write(*route)),
            prepared matches Ok(request) ==> {
                &&& request.method@ == route.spec_method()
                &&& request.url@ == url_of(self.base(), route.spec_path(), route.spec_query())
                &&& request.authorization@ == self.credential().unwrap()
            },
    {
        let path = route.path();
        let authorization = match &self.token {
            Some(token) => token.clone(),
            None => {
                let mut message = path;
                message.append(
                    " exige o token do gateway; construa o cliente com Client::builder().legacy_token(…)",
                );
                return Err(LegacyApiError::local(401, 0, message));
            },
        };
        let url = match route {
            LegacyRoute::TemplateList(Some(kind)) => {
                let query = vec![("type", kind.as_str())];
                let url = self.url(path.as_str(), query.as_slice());
                proof {
                    assert(pairs_view(query@) =~= route.spec_query());
                }
                url
            },
            _ => {
                let query: Vec<(&str, &str)> = Vec::new();
                let url = self.url(path.as_str(), query.as_slice());
                proof {
                    assert(pairs_view(query@) =~= route.spec_query());
                }
                url
            },
        };
        Ok(LegacyRequest { method: route.method(), url, authorization })
    }
}

/// The `statusCode` member of a body as a `u16`, or `fallback` when there is
/// none, it is not a non-negative integer, or it does not fit.
pub open spec fn status_code_or(value: JsonValue, fallback: u16) -> u16 {
    match value.member("statusCode"@) {
        Some(code) => match code.unsigned() {
            Some(n) => if n <= u16::MAX {
                n as u16
            } else {
                fallback
            },
            None => fallback,
        },
        None => fallback,
    }
}

/// The `statusCode` member of a body as a `u16`, or `fallback`.
pub fn status_code(value: &JsonValue, fallback: u16) -> (code: u16)
    ensures
        code == status_code_or(*value, fallback),
{
    match value.get("statusCode") {
        Some(code) => match code.as_u64() {
            Some(n) => if n <= 65535 {
                n as u16
            } else {
                fallback
            },
            None => fallback,
        },
        None => fallback,
    }
}

/// The sentence of a refusal whose body did not say what went wrong.
pub open spec fn no_sentence_message(http_status: u16) -> Seq<char> {
    "o gateway respondeu "@ + decimal(http_status as nat) + " sem o corpo de erro esperado"@
}

/// The sentence a refusal's `message` member carries, when it carries one.
pub open spec fn message_sentence(value: JsonValue) -> Option<Seq<char>> {
    match value.member("message"@) {
        Some(field) => field.sentence_of(),
        None => None,
    }
}

/// An HTTP-level refusal, `{ statusCode, message }` or whatever a proxy sent,
/// read from the body as the parser made it out (`None` when it is not JSON).
///
/// The code is the body's `statusCode` when it is a `u16`, the HTTP status
/// otherwise; the message is the body's `message`, a sentence or a list of
/// them, or a sentence naming the status; the body travels along untouched.
pub fn refusal_from(http_status: u16, body: String, parsed: Option<JsonValue>) -> (error: LegacyApiError)
    ensures
        error.status == match parsed {
            Some(value) => status_code_or(value, http_status),
            None => http_status,
        },
        error.http_status == http_status,
        error.message@ == match parsed {
            Some(value) => match message_sentence(value) {
                Some(line) => line,
                None => no_sentence_message(http_status),
            },
            None => no_sentence_message(http_status),
        },
        error.body == Some(body),
{
    let status = match &parsed {
        Some(value) => status_code(value, http_status),
        None => http_status,
    };
    let sentence = match &parsed {
        Some(value) => match value.get("message") {
            Some(field) => field.sentence(),
            None => None,
        },
        None => None,
    };
    let message = match sentence {
        Some(line) => line,
        None => {
            let mut line = String::from_str("o gateway respondeu ");
            push_decimal(&mut line, http_status as u64);
            line.append(" sem o corpo de erro esperado");
            line
        },
    };
    LegacyApiError { status, http_status, message, body: Some(body) }
}

/// An HTTP-level refusal: the body is parsed with `serde_json` and read by
/// [`refusal_from`].
pub fn refusal(http_status: u16, body: String) -> (error: LegacyApiError)
    ensures
        error.status == match json_parse(body@) {
            Ok(value) => status_code_or(value, http_status),
            Err(_) => http_status,
        },
        error.http_status == http_status,
        error.message@ == match json_parse(body@) {
            Ok(value) => match message_sentence(value) {
                Some(line) => line,
                None => no_sentence_message(http_status),
            },
            Err(_) => no_sentence_message(http_status),
        },
        error.body == Some(body),
{
    let parsed = match parse_json(body.as_str()) {
        Ok(value) => Some(value),
        Err(_) => None,
    };
    refusal_from(http_status, body, parsed)
}

/// What an envelope that said yes carries: the inner code and `data`.
#[derive(Debug, PartialEq, Eq)]
pub struct Enveloped {
    /// The envelope's `statusCode`, or the HTTP status when it has none.
    pub status: u16,
    /// The `data` member, for the route to read as its own shape.
    pub data: JsonValue,
}

/// The sentence of an answer that is not the JSON the route promises.
pub open spec fn not_json_message(path: Seq<char>, failure: Seq<char>) -> Seq<char> {
    "a resposta de "@ + path + " não é o JSON que a rota promete: "@ + failure
}

/// The sentence of an answer without the `{ data, statusCode }` envelope.
pub open spec fn missing_envelope_message(path: Seq<char>) -> Seq<char> {
    path + " respondeu sem o envelope { data, statusCode } que a família promete"@
}

/// The sentence of an envelope that refused without saying why.
pub open spec fn refused_inside_message(inner: u16) -> Seq<char> {
    "o gateway recusou com "@ + decimal(inner as nat)
}

/// The family's error sentence, which sits inside `data`:
/// `{ "error": "Template não encontrado" }`.
pub open spec fn envelope_sentence(data: JsonValue) -> Option<Seq<char>> {
    match data.member("error"@) {
        Some(field) => field.sentence_of(),
        None => None,
    }
}

impl LegacyApiError {
    /// A 2xx that is not the JSON the route promises: the parser's sentence,
    /// and the body as it came.
    pub fn not_json(path: &str, status: u16, text: &str, failure: &str) -> (error: Self)
        ensures
            error.status == status,
            error.http_status == status,
            error.message@ == not_json_message(path@, failure@),
            error.body matches Some(body) && body@ == text@,
    {
        let mut message = String::from_str("a resposta de ");
        message.append(path);
        message.append(" não é o JSON que a rota promete: ");
        message.append(failure);
        LegacyApiError { status, http_status: status, message, body: Some(text.to_owned()) }
    }

    /// An envelope that said yes around a `data` that is not the route's
    /// shape: the inner code, the wire's code, the parser's sentence.
    pub fn bad_data(path: &str, inner: u16, status: u16, text: &str, failure: &str) -> (error: Self)
        ensures
            error.status == inner,
            error.http_status == status,
            error.message@ == "o `data` de "@ + path@ + " não tem a forma que a rota promete: "@
                + failure@,
            error.body matches Some(body) && body@ == text@,
    {
        let mut message = String::from_str("o `data` de ");
        message.append(path);
        message.append(" não tem a forma que a rota promete: ");
        message.append(failure);
        LegacyApiError { status: inner, http_status: status, message, body: Some(text.to_owned()) }
    }

    /// The answer stopped halfway through its body.
    pub fn interrupted(status: u16, path: &str, failure: &str) -> (error: Self)
        ensures
            error.status == status,
            error.http_status == status,
            error.message@ == "a resposta de "@ + path@ + " foi interrompida no meio: "@ + failure@,
            error.body is None,
    {
        let mut message = String::from_str("a resposta de ");
        message.append(path);
        message.append(" foi interrompida no meio: ");
        message.append(failure);
        LegacyApiError::local(status, status, message)
    }

    /// The gateway was never reached: timeout, refused connection.
    pub fn unreachable(base_url: &str, failure: &str) -> (error: Self)
        ensures
            error.status == 0,
            error.http_status == 0,
            error.message@ == "não foi possível falar com "@ + base_url@ + ": "@ + failure@,
            error.body is None,
    {
        let mut message = String::from_str("não foi possível falar com ");
        message.append(base_url);
        message.append(": ");
        message.append(failure);
        LegacyApiError::local(0, 0, message)
    }

    /// The request could not even be put together -- an address that is not
    /// a URL, say. Nothing left the machine.
    pub fn cannot_build(failure: &str) -> (error: Self)
        ensures
            error.status == 0,
            error.http_status == 0,
            error.message@ == "não consegui montar a chamada: "@ + failure@,
            error.body is None,
    {
        let mut message = String::from_str("não consegui montar a chamada: ");
        message.append(failure);
        LegacyApiError::local(0, 0, message)
    }

    /// The body to send could not be put into JSON.
    pub fn cannot_encode_body(path: &str, failure: &str) -> (error: Self)
        ensures
            error.status == 0,
            error.http_status == 0,
            error.message@ == "não consegui montar o corpo de "@ + path@ + ": "@ + failure@,
            error.body is None,
    {
        let mut message = String::from_str("não consegui montar o corpo de ");
        message.append(path);
        message.append(": ");
        message.append(failure);
        LegacyApiError::local(0, 0, message)
    }
}

/// An answer without the `{ data, statusCode }` envelope the family promises.
pub fn missing_envelope(path: &str, status: u16, text: &str) -> (error: LegacyApiError)
    ensures
        error.status == status,
        error.http_status == status,
        error.message@ == missing_envelope_message(path@),
        error.body matches Some(body) && body@ == text@,
{
    let mut message = String::from_str(path);
    message.append(" respondeu sem o envelope { data, statusCode } que a família promete");
    LegacyApiError { status, http_status: status, message, body: Some(text.to_owned()) }
}

/// The family's error sentence, which sits inside `data`:
/// `{ "error": "Template não encontrado" }`. Anything else stays raw on the
/// error, for the caller.
pub fn envelope_error(data: &JsonValue) -> (sentence: Option<String>)
    ensures
        match sentence {
            Some(line) => envelope_sentence(*data) == Some(line@),
            None => envelope_sentence(*data) is None,
        },
{
    match data.get("error") {
        Some(field) => field.sentence(),
        None => None,
    }
}

/// Reads the `{ data, statusCode }` envelope of a 2xx answer, as the parser
/// made it out.
///
/// The code that matters is the inner one: an envelope whose `statusCode` is
/// 400 or more is a refusal even when the wire said 200, with the family's
/// `error` sentence from inside `data`. Without an inner code the HTTP status
/// stands. An answer that is not JSON, not an object, or has no `data` is a
/// refusal too, carrying the body as it came.
pub fn read_envelope(path: &str, status: u16, text: &str, parsed: Result<JsonValue, String>) -> (read: Result<Enveloped, LegacyApiError>)
    ensures
        match parsed {
            Err(failure) => read matches Err(error) && error.status == status && error.http_status
                == status && error.message@ == not_json_message(path@, failure@),
            Ok(value) => match value.member("data"@) {
                None => read matches Err(error) && error.status == status && error.http_status
                    == status && error.message@ == missing_envelope_message(path@),
                Some(data) => {
                    let inner = status_code_or(value, status);
                    if inner >= 400 {
                        read matches Err(error) && error.status == inner && error.http_status
                            == status && error.message@ == match envelope_sentence(data) {
                            Some(line) => line,
                            None => refused_inside_message(inner),
                        }
                    } else {
                        read matches Ok(enveloped) && enveloped.status == inner && enveloped.data
                            == data
                    }
                },
            },
        },
        read matches Err(error) ==> error.body matches Some(body) && body@ == text@,
{
    let value = match parsed {
        Err(failure) => return Err(LegacyApiError::not_json(path, status, text, failure.as_str())),
        Ok(value) => value,
    };
    let inner = status_code(&value, status);
    let mut entries = match value {
        JsonValue::Object(entries) => entries,
        _ => return Err(missing_envelope(path, status, text)),
    };
    let index = match position_of(&entries, "data") {
        Some(index) => index,
        None => return Err(missing_envelope(path, status, text)),
    };
    let (_, data) = entries.remove(index);
    if inner >= 400 {
        let message = match envelope_error(&data) {
            Some(line) => line,
            None => {
                let mut line = String::from_str("o gateway recusou com ");
                push_decimal(&mut line, inner as u64);
                line
            },
        };
        return Err(
            LegacyApiError { status: inner, http_status: status, message, body: Some(text.to_owned()) },
        );
    }
    Ok(Enveloped { status: inner, data })
}

/// Reads the envelope of a 2xx answer: the body is parsed with `serde_json`
/// and read by [`read_envelope`].
pub fn unwrap_envelope(path: &str, status: u16, text: &str) -> (read: Result<Enveloped, LegacyApiError>)
    ensures
        match json_parse(text@) {
            Err(failure) => read matches Err(error) && error.status == status && error.http_status
                == status && error.message@ == not_json_message(path@, failure),
            Ok(value) => match value.member("data"@) {
                None => read matches Err(error) && error.status == status && error.http_status
                    == status && error.message@ == missing_envelope_message(path@),
                Some(data) => {
                    let inner = status_code_or(value, status);
                    if inner >= 400 {
                        read matches Err(error) && error.status == inner && error.http_status
                            == status && error.message@ == match envelope_sentence(data) {
                            Some(line) => line,
                            None => refused_inside_message(inner),
                        }
                    } else {
                        read matches Ok(enveloped) && enveloped.status == inner && enveloped.data
                            == data
                    }
                },
            },
        },
        read matches Err(error) ==> error.body matches Some(body) && body@ == text@,
{
    read_envelope(path, status, text, parse_json(text))
}

} // verus!
