use edge_login::config::Config;
use edge_login::dict::Dict;
use edge_login::exchange::TokenExchange;
use edge_login::handlers::{
    field_reply, finalize_login, form_field, root, surface, worker_version, HandlerError,
};
use edge_login::method::Method;
use edge_login::request::{Attachment, Form, FormEntry, Params, Request};
use edge_login::response::{Body, Response};

fn field_params(name: &str) -> Params {
    Dict::new().with("field", name.to_string())
}

fn header(response: &Response, name: &str) -> Option<String> {
    response.headers().get(name).cloned()
}

#[test]
fn root_gives_the_greeting() {
    let response = root();
    assert_eq!(response.status(), 200);
    assert!(response.is_success());
    assert_eq!(response.text(), "Hello from Workers!");
    assert_eq!(response.body(), &Body::Text("Hello from Workers!".to_string()));
    assert_eq!(header(&response, "content-type").as_deref(), Some("text/plain; charset=utf-8"));
}

#[test]
fn form_field_echoes_a_plain_value_as_json() {
    let form: Form = Dict::new().with("name", FormEntry::Field("Ada".to_string()));
    let req = Request::new(Method::Post, "/form/name").with_form(form);
    let response = form_field(&req, &field_params("name")).expect("a response");
    assert_eq!(response.status(), 200);
    assert_eq!(response.text(), "{\"name\":\"Ada\"}");
    assert_eq!(response.body(), &Body::Json("{\"name\":\"Ada\"}".to_string()));
    assert_eq!(header(&response, "content-type").as_deref(), Some("application/json"));
}

#[test]
fn form_field_json_escapes_what_json_must_escape() {
    let form: Form = Dict::new().with("q\"k", FormEntry::Field("a\\b\n\"c\"".to_string()));
    let req = Request::new(Method::Post, "/form/x").with_form(form);
    let response = form_field(&req, &field_params("q\"k")).expect("a response");
    assert_eq!(response.text(), "{\"q\\\"k\":\"a\\\\b\\n\\\"c\\\"\"}");
    let parsed: serde_json::Value = serde_json::from_str(response.text()).expect("valid JSON");
    assert_eq!(parsed["q\"k"].as_str(), Some("a\\b\n\"c\""));
}

#[test]
fn form_field_refuses_a_file() {
    let file = Attachment { name: "photo.png".to_string(), size: 12 };
    let form: Form = Dict::new().with("name", FormEntry::File(file));
    let req = Request::new(Method::Post, "/form/name").with_form(form);
    let response = form_field(&req, &field_params("name")).expect("a response");
    assert_eq!(response.status(), 422);
    assert!(!response.is_success());
    assert_eq!(response.text(), "`field` param in form shouldn't be a File");
    assert!(response.headers().is_empty());
}

#[test]
fn form_field_without_the_field_is_a_bad_request() {
    let req = Request::new(Method::Post, "/form/name").with_form(Dict::new());
    let response = form_field(&req, &field_params("name")).expect("a response");
    assert_eq!(response.status(), 400);
    assert_eq!(response.text(), "Bad Request");

    let form: Form = Dict::new().with("other", FormEntry::Field("x".to_string()));
    let req = Request::new(Method::Post, "/form/name").with_form(form);
    let response = form_field(&req, &field_params("name")).expect("a response");
    assert_eq!(response.status(), 400);
}

#[test]
fn form_field_without_the_route_parameter_is_a_bad_request() {
    let form: Form = Dict::new().with("name", FormEntry::Field("Ada".to_string()));
    let req = Request::new(Method::Post, "/form/name").with_form(form);
    let response = form_field(&req, &Dict::new()).expect("a response");
    assert_eq!(response.status(), 400);
    let unread = Request::new(Method::Post, "/form/name");
    let response = form_field(&unread, &Dict::new()).expect("the body is not looked at");
    assert_eq!(response.status(), 400);
}

#[test]
fn form_field_with_an_unreadable_body_is_an_error() {
    let req = Request::new(Method::Post, "/form/name");
    assert_eq!(form_field(&req, &field_params("name")), Err(HandlerError::MalformedBody));
}

#[test]
fn form_field_takes_the_value_given_last() {
    let form: Form = Dict::new()
        .with("name", FormEntry::Field("Ada".to_string()))
        .with("name", FormEntry::Field("Grace".to_string()));
    let req = Request::new(Method::Post, "/form/name").with_form(form);
    let response = form_field(&req, &field_params("name")).expect("a response");
    assert_eq!(response.text(), "{\"name\":\"Grace\"}");
}

#[test]
fn field_reply_turns_the_encoding_into_a_response() {
    let response = field_reply(Ok("{\"a\":\"b\"}".to_string())).expect("a response");
    assert_eq!(response.status(), 200);
    assert_eq!(response.body(), &Body::Json("{\"a\":\"b\"}".to_string()));
    let failure = serde_json::from_str::<serde_json::Value>("{").expect_err("not JSON");
    assert_eq!(field_reply(Err(failure)), Err(HandlerError::Encoding));
}

#[test]
fn finalize_login_confirms_and_starts_the_exchange() {
    let req = Request::new(Method::Get, "/finalize_login")
        .with_query("code", "ABC")
        .with_query("state", "XYZ");
    let login = finalize_login(&req).ok().expect("both parameters are there");
    assert_eq!(login.response.status(), 200);
    assert_eq!(login.response.text(), "We are logged in with ABC and XYZ.");
    assert!(login.task == TokenExchange::Started { code: "ABC".to_string() });
}

#[test]
fn finalize_login_takes_the_parameter_given_last() {
    let req = Request::new(Method::Get, "/finalize_login")
        .with_query("code", "old")
        .with_query("state", "s")
        .with_query("code", "new");
    let login = finalize_login(&req).ok().expect("both parameters are there");
    assert_eq!(login.response.text(), "We are logged in with new and s.");
    assert!(login.task == TokenExchange::Started { code: "new".to_string() });
}

#[test]
fn finalize_login_needs_code_and_state() {
    let none = Request::new(Method::Get, "/finalize_login");
    assert!(matches!(finalize_login(&none), Err(HandlerError::MissingParameter)));
    let only_code = Request::new(Method::Get, "/finalize_login").with_query("code", "ABC");
    assert!(matches!(finalize_login(&only_code), Err(HandlerError::MissingParameter)));
    let only_state = Request::new(Method::Get, "/finalize_login").with_query("state", "XYZ");
    assert!(matches!(finalize_login(&only_state), Err(HandlerError::MissingParameter)));
}

#[test]
fn worker_version_reports_the_configured_version() {
    let config = Config::new("id", "secret").with_version("0.0.18");
    let response = worker_version(&config).expect("a version is configured");
    assert_eq!(response.status(), 200);
    assert_eq!(response.text(), "0.0.18");
    assert_eq!(worker_version(&Config::new("id", "secret")), Err(HandlerError::ConfigurationMissing));
}

#[test]
fn errors_surface_as_responses() {
    let missing = surface(HandlerError::MissingParameter);
    assert_eq!((missing.status(), missing.text()), (400, "Bad Request"));
    for error in [
        HandlerError::MalformedBody,
        HandlerError::ConfigurationMissing,
        HandlerError::Encoding,
    ] {
        let response = surface(error);
        assert_eq!((response.status(), response.text()), (500, "INTERNAL SERVER ERROR"));
        assert!(!response.is_success());
    }
}

#[test]
fn error_responses_need_an_error_status() {
    let made = Response::error("gone".to_string(), 410).expect("410 reports an error");
    assert_eq!((made.status(), made.text()), (410, "gone"));
    assert!(made.headers().is_empty());
    assert!(Response::error("x".to_string(), 400).is_some());
    assert!(Response::error("x".to_string(), 599).is_some());
    assert_eq!(Response::error("x".to_string(), 399), None);
    assert_eq!(Response::error("x".to_string(), 600), None);
    assert_eq!(Response::error("x".to_string(), 200), None);
}

#[test]
fn fixed_responses_have_their_status_and_text() {
    assert_eq!((Response::not_found().status(), Response::not_found().text()), (404, "Not Found"));
    assert_eq!(Response::bad_request().status(), 400);
    assert_eq!(Response::unprocessable().status(), 422);
    assert_eq!(Response::internal_error().status(), 500);
    let ok = Response::ok("fine".to_string());
    assert_eq!((ok.status(), ok.text()), (200, "fine"));
    let json = Response::json("[]".to_string());
    assert_eq!(json.body(), &Body::Json("[]".to_string()));
}

#[test]
fn config_keeps_what_it_was_given() {
    let config = Config::new("id", "secret");
    assert_eq!(config.client_id(), "id");
    assert_eq!(config.client_secret(), "secret");
    assert_eq!(config.version(), None);
    let config = config.with_version("1").with_version("2");
    assert_eq!(config.version(), Some("2"));
    assert_eq!(config.client_id(), "id");
}
