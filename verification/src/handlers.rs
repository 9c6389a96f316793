//! The handlers of the endpoints. Each takes what it needs of the request
//! and gives a response, or an error that the dispatcher turns into one.

use crate::config::{Config, ConfigView};
use crate::exchange::{TokenExchange, TokenExchangeView};
use crate::json::{encode_member, json_member_text};
use crate::request::{FormEntry, FormEntryView, Params, Request};
use crate::response::{
    bad_request_response, internal_error_response, json_response, ok_response,
    unprocessable_response, Response, ResponseView,
};
use vstd::prelude::*;
use vstd::string::*;

verus! {

/// Why a handler gave no response of its own.
#[derive(Clone, Copy, Debug, PartialEq, Eq, Structural)]
pub enum HandlerError {
    /// The request lacks a query parameter that the handler cannot do
    /// without.
    MissingParameter,
    /// The body of the request could not be read as a form.
    MalformedBody,
    /// A configured value that the handler needs is not set.
    ConfigurationMissing,
    /// The response body could not be written as JSON.
    Encoding,
}

/// The response that stands for an error: a missing parameter is the
/// client's mistake and is answered with 400; everything else is answered
/// with 500.
pub open spec fn surfaced(error: HandlerError) -> ResponseView {
    match error {
        HandlerError::MissingParameter => bad_request_response(),
        _ => internal_error_response(),
    }
}

/// Turns an error into the response that the client gets.
pub fn surface(error: HandlerError) -> (r: Response)
    ensures
        r@ == surfaced(error),
{
    match error {
        HandlerError::MissingParameter => Response::bad_request(),
        _ => Response::internal_error(),
    }
}

/// A response, or the error in its place, as contracts see it.
pub open spec fn outcome_view(outcome: Result<Response, HandlerError>) -> Result<
    ResponseView,
    HandlerError,
> {
    match outcome {
        Ok(response) => Ok(response@),
        Err(error) => Err(error),
    }
}

/// The greeting at the root.
pub open spec fn greeting() -> Seq<char> {
    "Hello from Workers!"@
}

/// The handler of the root: the greeting, whatever the request holds.
pub fn root() -> (r: Response)
    ensures
        r@ == ok_response(greeting()),
{
    Response::ok("Hello from Workers!".to_owned())
}

/// The name of the query parameter that carries the authorization code.
pub open spec fn code_key() -> Seq<char> {
    "code"@
}

/// The name of the query parameter that carries the caller's state.
pub open spec fn state_key() -> Seq<char> {
    "state"@
}

/// The body that confirms a login.
pub open spec fn login_body(code: Seq<char>, state: Seq<char>) -> Seq<char> {
    "We are logged in with "@ + code + " and "@ + state + "."@
}

/// What completing a login gives: the response for the client, and the
/// exchange that is to run apart from it.
pub struct Login {
    pub response: Response,
    pub task: TokenExchange,
}

/// What completing a login gives, as contracts see it.
pub struct LoginView {
    pub response: ResponseView,
    pub task: TokenExchangeView,
}

impl View for Login {
    type V = LoginView;

    open spec fn view(&self) -> LoginView {
        LoginView { response: self.response@, task: self.task@ }
    }
}

/// What the login handler makes of the query parameters: with `code` and
/// `state` both there, the confirmation and an exchange that starts with
/// the code; else the error.
pub open spec fn login_outcome(query: Map<Seq<char>, Seq<char>>) -> Result<LoginView, HandlerError> {
    if query.contains_key(code_key()) && query.contains_key(state_key()) {
        Ok(
            LoginView {
                response: ok_response(login_body(query[code_key()], query[state_key()])),
                task: TokenExchangeView::Started { code: query[code_key()] },
            },
        )
    } else {
        Err(HandlerError::MissingParameter)
    }
}

/// The result of the login handler as contracts see it.
pub open spec fn login_view(outcome: Result<Login, HandlerError>) -> Result<LoginView, HandlerError> {
    match outcome {
        Ok(login) => Ok(login@),
        Err(error) => Err(error),
    }
}

/// The handler that completes a login. The response does not wait for the
/// exchange and says nothing of how it will end.
pub fn finalize_login(req: &Request) -> (r: Result<Login, HandlerError>)
    ensures
        login_view(r) == login_outcome(req@.query),
{
    let code = match req.query.get("code") {
        Some(code) => code,
        None => {
            return Err(HandlerError::MissingParameter);
        },
    };
    let state = match req.query.get("state") {
        Some(state) => state,
        None => {
            return Err(HandlerError::MissingParameter);
        },
    };
    let mut body = "We are logged in with ".to_owned();
    body.append(code.as_str());
    body.append(" and ");
    body.append(state.as_str());
    body.append(".");
    Ok(Login { response: Response::ok(body), task: TokenExchange::start(code.as_str()) })
}

/// The name of the route parameter that says which form field is wanted.
pub open spec fn field_key() -> Seq<char> {
    "field"@
}

/// The response to a form field that is a plain value, given how the JSON
/// object came out.
pub open spec fn field_outcome(encoded: Option<Seq<char>>) -> Result<ResponseView, HandlerError> {
    match encoded {
        Some(text) => Ok(json_response(text)),
        None => Err(HandlerError::Encoding),
    }
}

/// What the form handler makes of a request.
///
/// Without a `field` route parameter the request is bad. A body that could
/// not be read as a form is an error. Else the form is asked for the field
/// that the parameter names: a plain value is echoed as a JSON object with
/// that one member, a file is refused with 422, and a form without the
/// field is a bad request.
pub open spec fn form_outcome(
    form: Option<Map<Seq<char>, FormEntryView>>,
    params: Map<Seq<char>, Seq<char>>,
) -> Result<ResponseView, HandlerError> {
    if !params.contains_key(field_key()) {
        Ok(bad_request_response())
    } else {
        let name = params[field_key()];
        match form {
            None => Err(HandlerError::MalformedBody),
            Some(fields) => if !fields.contains_key(name) {
                Ok(bad_request_response())
            } else {
                match fields[name] {
                    FormEntryView::Field(value) => field_outcome(json_member_text(name, value)),
                    FormEntryView::File { .. } => Ok(unprocessable_response()),
                }
            },
        }
    }
}

/// The response to a form field that is a plain value, once the JSON object
/// has been written or has failed to be.
pub fn field_reply(encoded: Result<String, serde_json::Error>) -> (r: Result<
    Response,
    HandlerError,
>)
    ensures
        outcome_view(r) == field_outcome(
            match encoded {
                Ok(text) => Some(text@),
                Err(_) => None,
            },
        ),
{
    match encoded {
        Ok(text) => Ok(Response::json(text)),
        Err(_) => Err(HandlerError::Encoding),
    }
}

/// The handler that echoes one field of a form.
pub fn form_field(req: &Request, params: &Params) -> (r: Result<Response, HandlerError>)
    ensures
        outcome_view(r) == form_outcome(req@.form, params@),
{
    let name = match params.get("field") {
        Some(name) => name,
        None => {
            return Ok(Response::bad_request());
        },
    };
    let form = match &req.form {
        Some(form) => form,
        None => {
            return Err(HandlerError::MalformedBody);
        },
    };
    match form.get(name.as_str()) {
        Some(FormEntry::Field(value)) => field_reply(encode_member(name.as_str(), value.as_str())),
        Some(FormEntry::File(_)) => Ok(Response::unprocessable()),
        None => Ok(Response::bad_request()),
    }
}

/// What the version handler makes of the configuration: the version string
/// as the body, or the error where none is configured.
pub open spec fn version_outcome(config: ConfigView) -> Result<ResponseView, HandlerError> {
    match config.version {
        Some(version) => Ok(ok_response(version)),
        None => Err(HandlerError::ConfigurationMissing),
    }
}

/// The handler that reports the configured version.
pub fn worker_version(config: &Config) -> (r: Result<Response, HandlerError>)
    ensures
        outcome_view(r) == version_outcome(config@),
{
    match config.version() {
        Some(version) => Ok(Response::ok(version.to_owned())),
        None => Err(HandlerError::ConfigurationMissing),
    }
}

} // verus!
