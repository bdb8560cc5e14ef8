//! What a refusal from the /v3 API looks like on this side.

use vstd::prelude::*;

use crate::text::{decimal, push_decimal, string_is};

verus! {

/// One field-level complaint inside a validation error.
#[derive(Debug, Clone, PartialEq, Eq)]
pub struct ErrorDetail {
    /// The field the complaint is about.
    pub field: String,
    /// The catalog code for this field.
    pub code: String,
    /// What is wrong with it, in pt-BR.
    pub message: String,
}

/// The `error` object of a refusal, as far as the API filled it in.
///
/// A body that is not the catalog's envelope reads as this with every field
/// absent.
#[derive(Debug, Clone, PartialEq, Eq, Default)]
pub struct ErrorBody {
    /// The catalog code.
    pub code: Option<String>,
    /// What the API said.
    pub message: Option<String>,
    /// The request's id, when the body carries it.
    pub request_id: Option<String>,
    /// The field at fault.
    pub field: Option<String>,
    /// One entry per rejected field.
    pub details: Vec<ErrorDetail>,
}

/// A refusal from the API.
///
/// Every call returns it in the `Err` arm, so a failed call cannot be mistaken
/// for a good one. `request_id` is a first-class field on purpose: it is the
/// first thing support asks for.
///
/// The `Retry-After` delay, which the API sends as seconds on 429 and 503, is
/// read where the response is: its number is a floating-point value.
#[derive(Debug, Clone, PartialEq, Eq)]
pub struct ApiError {
    /// The HTTP status. Zero when the API was never reached.
    pub status: u16,
    /// The catalog code -- `not_found`, `forbidden`, `rate_limited`, ...
    pub code: String,
    /// What the API said, in pt-BR.
    pub message: String,
    /// From the error body, or from the `X-Request-Id` header when absent.
    pub request_id: Option<String>,
    /// The field at fault, when the refusal is about one.
    pub field: Option<String>,
    /// One entry per rejected field, on validation errors.
    pub details: Vec<ErrorDetail>,
}

/// Whether a status is a refusal: 4xx and 5xx are answers that say no.
pub open spec fn is_refusal_status(status: u16) -> bool {
    status >= 400
}

/// Whether a response with this status is a refusal.
pub fn is_refusal(status: u16) -> (refused: bool)
    ensures
        refused <==> 400 <= status,
        refused == is_refusal_status(status),
{
    status >= 400
}

/// The refusals are exactly the statuses from 400 up: every 4xx and every
/// 5xx, 400 itself included, says no, and no 1xx, 2xx or 3xx does. Raising
/// a status never turns a refusal back into an answer.
pub proof fn law_refusals_are_4xx_and_5xx(status: u16, higher: u16)
    ensures
        status < 400 ==> !is_refusal_status(status),
        400 <= status ==> is_refusal_status(status),
        is_refusal_status(status) && status <= higher ==> is_refusal_status(higher),
        !is_refusal_status(status) && higher <= status ==> !is_refusal_status(higher),
{
}

/// The line an [`ApiError`] prints: code, status, message, and the request id
/// when there is one.
pub open spec fn api_error_line(
    code: Seq<char>,
    status: u16,
    message: Seq<char>,
    request_id: Option<Seq<char>>,
) -> Seq<char> {
    let head = "aronline: "@ + code + " ("@ + decimal(status as nat) + "): "@ + message;
    match request_id {
        Some(id) => head + " [request_id="@ + id + "]"@,
        None => head,
    }
}

/// The message of a refusal whose body did not say anything.
pub open spec fn missing_body_message(status: u16) -> Seq<char> {
    "a API respondeu "@ + decimal(status as nat) + " sem o corpo de erro esperado"@
}

/// The view of an optional text.
pub open spec fn opt_view(text: Option<String>) -> Option<Seq<char>> {
    match text {
        Some(t) => Some(t@),
        None => None,
    }
}

impl ApiError {
    /// Builds the error the SDK raises when it never reached the API.
    pub fn local(status: u16, code: &str, message: String) -> (error: Self)
        ensures
            error.status == status,
            error.code@ == code@,
            error.message == message,
            error.request_id is None,
            error.field is None,
            error.details@.len() == 0,
    {
        ApiError {
            status,
            code: code.to_owned(),
            message,
            request_id: None,
            field: None,
            details: Vec::new(),
        }
    }

    /// Whether the API said this is worth trying again: 429 and 503.
    pub fn is_retryable(&self) -> (retryable: bool)
        ensures
            retryable == (self.status == 429 || self.status == 503),
    {
        self.status == 429 || self.status == 503
    }

    /// `aronline: <code> (<status>): <message>`, followed by
    /// ` [request_id=<id>]` when there is one.
    pub fn to_string(&self) -> (line: String)
        ensures
            line@ == api_error_line(
                self.code@,
                self.status,
                self.message@,
                opt_view(self.request_id),
            ),
    {
        let mut line = String::from_str("aronline: ");
        line.append(self.code.as_str());
        line.append(" (");
        push_decimal(&mut line, self.status as u64);
        line.append("): ");
        line.append(self.message.as_str());
        match &self.request_id {
            Some(id) => {
                line.append(" [request_id=");
                line.append(id.as_str());
                line.append("]");
            },
            None => {},
        }
        line
    }

    /// A route that needs the token was called on a client built without one.
    /// Refused here, before the socket: a 401 round trip teaches nothing that
    /// the missing token does not already say.
    pub fn unauthenticated(path: &str) -> (error: Self)
        ensures
            error.status == 401,
            error.code@ == "unauthenticated"@,
            error.message@ == path@ + " exige um token; construa o cliente com Client::builder().token(…)"@,
            error.request_id is None,
            error.field is None,
            error.details@.len() == 0,
    {
        let mut message = String::from_str(path);
        message.append(" exige um token; construa o cliente com Client::builder().token(…)");
        ApiError::local(401, "unauthenticated", message)
    }

    /// The API was never reached: timeout, refused connection, bad address.
    pub fn unreachable(base_url: &str, failure: &str) -> (error: Self)
        ensures
            error.status == 0,
            error.code@ == "unreachable"@,
            error.message@ == "não foi possível falar com "@ + base_url@ + ": "@ + failure@,
            error.request_id is None,
            error.field is None,
            error.details@.len() == 0,
    {
        let mut message = String::from_str("não foi possível falar com ");
        message.append(base_url);
        message.append(": ");
        message.append(failure);
        ApiError::local(0, "unreachable", message)
    }

    /// The answer stopped halfway through its body.
    pub fn interrupted(status: u16, path: &str, failure: &str) -> (error: Self)
        ensures
            error.status == status,
            error.code@ == "unreachable"@,
            error.message@ == "a resposta de "@ + path@ + " foi interrompida no meio: "@ + failure@,
            error.request_id is None,
            error.field is None,
            error.details@.len() == 0,
    {
        let mut message = String::from_str("a resposta de ");
        message.append(path);
        message.append(" foi interrompida no meio: ");
        message.append(failure);
        ApiError::local(status, "unreachable", message)
    }

    /// A 2xx that is not the JSON the route promises is something other than
    /// the API answering, and it fails like any other refusal.
    pub fn invalid_response(status: u16, request_id: Option<String>) -> (error: Self)
        ensures
            error.status == status,
            error.code@ == "invalid_response"@,
            error.message@ == "a resposta não é o JSON que a rota promete — algo respondeu no lugar da API"@,
            error.request_id == request_id,
            error.field is None,
            error.details@.len() == 0,
    {
        ApiError {
            status,
            code: String::from_str("invalid_response"),
            message: String::from_str(
                "a resposta não é o JSON que a rota promete — algo respondeu no lugar da API",
            ),
            request_id,
            field: None,
            details: Vec::new(),
        }
    }

    /// What an enveloped route answers when the body is not `{"data": ...}`:
    /// an `invalid_response` on a 200 is reworded to name the missing
    /// envelope; any other failure passes through untouched.
    pub fn envelope_failure(path: &str, failure: Self) -> (error: Self)
        ensures
            if failure.code@ == "invalid_response"@ && failure.status == 200 {
                &&& error.status == 200
                &&& error.code@ == "invalid_response"@
                &&& error.message@ == path@ + " respondeu sem o envelope 'data' que a rota promete"@
                &&& error.request_id is None
                &&& error.field is None
                &&& error.details@.len() == 0
            } else {
                error == failure
            },
    {
        if string_is(&failure.code, "invalid_response") && failure.status == 200 {
            let mut message = String::from_str(path);
            message.append(" respondeu sem o envelope 'data' que a rota promete");
            ApiError::local(200, "invalid_response", message)
        } else {
            failure
        }
    }
}

/// Turns a refused response into an [`ApiError`].
///
/// A refusal that does not carry the envelope is still a refusal: its code is
/// `invalid_response` and its message says which status came without a body.
/// The request id is the body's, or the header's when the body has none.
pub fn to_api_error(status: u16, body: ErrorBody, request_id: Option<String>) -> (error: ApiError)
    ensures
        error.status == status,
        error.code@ == match body.code {
            Some(code) => code@,
            None => "invalid_response"@,
        },
        error.message@ == match body.message {
            Some(message) => message@,
            None => missing_body_message(status),
        },
        error.request_id == match body.request_id {
            Some(id) => Some(id),
            None => request_id,
        },
        error.field == body.field,
        error.details == body.details,
{
    let code = match body.code {
        Some(code) => code,
        None => String::from_str("invalid_response"),
    };
    let message = match body.message {
        Some(message) => message,
        None => {
            let mut message = String::from_str("a API respondeu ");
            push_decimal(&mut message, status as u64);
            message.append(" sem o corpo de erro esperado");
            message
        },
    };
    let request_id = match body.request_id {
        Some(id) => Some(id),
        None => request_id,
    };
    ApiError { status, code, message, request_id, field: body.field, details: body.details }
}

} // verus!
