use edge_login::config::Config;
use edge_login::dict::Dict;
use edge_login::exchange::TokenExchange;
use edge_login::method::Method;
use edge_login::request::{Attachment, Form, FormEntry, Request};
use edge_login::router::Router;
use edge_login::site::{handle, site_router, Endpoint};

fn config() -> Config {
    Config::new("my-id", "my-secret").with_version("0.0.18")
}

#[test]
fn site_has_its_four_routes() {
    let router = site_router();
    assert_eq!(router.len(), 4);
    assert_eq!(router.handler(0), Some(&Endpoint::Root));
    assert_eq!(router.handler(1), Some(&Endpoint::FinalizeLogin));
    assert_eq!(router.handler(2), Some(&Endpoint::FormField));
    assert_eq!(router.handler(3), Some(&Endpoint::WorkerVersion));
}

#[test]
fn get_root_greets_whatever_the_request_holds() {
    let router = site_router();
    let plain = Request::new(Method::Get, "/");
    let form: Form = Dict::new().with("name", FormEntry::Field("Ada".to_string()));
    let busy = Request::new(Method::Get, "/")
        .with_query("code", "ABC")
        .with_query("x", "y")
        .with_form(form);
    for req in [plain, busy] {
        let reply = router.dispatch(&req, &config());
        assert_eq!(reply.response.status(), 200);
        assert_eq!(reply.response.text(), "Hello from Workers!");
        assert!(reply.task.is_none());
    }
}

#[test]
fn post_form_name_echoes_the_field() {
    let form: Form = Dict::new().with("name", FormEntry::Field("Ada".to_string()));
    let req = Request::new(Method::Post, "/form/name").with_form(form);
    let reply = site_router().dispatch(&req, &config());
    assert_eq!(reply.response.status(), 200);
    assert_eq!(reply.response.text(), "{\"name\":\"Ada\"}");
    assert!(reply.task.is_none());
}

#[test]
fn post_form_name_with_a_file_is_unprocessable() {
    let file = Attachment { name: "cv.pdf".to_string(), size: 1024 };
    let form: Form = Dict::new().with("name", FormEntry::File(file));
    let req = Request::new(Method::Post, "/form/name").with_form(form);
    let reply = site_router().dispatch(&req, &config());
    assert_eq!(reply.response.status(), 422);
}

#[test]
fn post_form_name_with_an_empty_form_is_a_bad_request() {
    let req = Request::new(Method::Post, "/form/name").with_form(Dict::new());
    let reply = site_router().dispatch(&req, &config());
    assert_eq!(reply.response.status(), 400);
    assert_eq!(reply.response.text(), "Bad Request");
}

#[test]
fn post_form_with_an_unreadable_body_is_answered_with_500() {
    let req = Request::new(Method::Post, "/form/name");
    let reply = site_router().dispatch(&req, &config());
    assert_eq!(reply.response.status(), 500);
    assert_eq!(reply.response.text(), "INTERNAL SERVER ERROR");
}

#[test]
fn get_finalize_login_confirms_and_hands_out_the_exchange() {
    let req = Request::new(Method::Get, "/finalize_login")
        .with_query("code", "ABC")
        .with_query("state", "XYZ");
    let reply = site_router().dispatch(&req, &config());
    assert_eq!(reply.response.status(), 200);
    assert_eq!(reply.response.text(), "We are logged in with ABC and XYZ.");
    assert!(reply.task == Some(TokenExchange::Started { code: "ABC".to_string() }));
}

#[test]
fn get_finalize_login_without_parameters_is_no_success() {
    let req = Request::new(Method::Get, "/finalize_login");
    let reply = site_router().dispatch(&req, &config());
    assert!(!reply.response.is_success());
    assert_eq!(reply.response.status(), 400);
    assert!(reply.task.is_none());
}

#[test]
fn get_worker_version_reports_the_version() {
    let req = Request::new(Method::Get, "/worker-version");
    let reply = site_router().dispatch(&req, &config());
    assert_eq!((reply.response.status(), reply.response.text()), (200, "0.0.18"));
    let bare = Config::new("my-id", "my-secret");
    let reply = site_router().dispatch(&req, &bare);
    assert_eq!(reply.response.status(), 500);
}

#[test]
fn other_requests_are_not_found() {
    let router = site_router();
    let cases = [
        (Method::Get, "/nowhere"),
        (Method::Post, "/"),
        (Method::Get, "/form/name"),
        (Method::Put, "/form/name"),
        (Method::Post, "/form"),
        (Method::Post, "/form/name/more"),
        (Method::Get, "/Finalize_Login"),
        (Method::Get, "/finalize_login/"),
        (Method::Delete, "/worker-version"),
        (Method::Get, "//"),
    ];
    for (method, path) in cases {
        let reply = router.dispatch(&Request::new(method, path), &config());
        assert_eq!(reply.response.status(), 404, "{:?} {}", method, path);
        assert_eq!(reply.response.text(), "Not Found");
        assert!(reply.task.is_none());
    }
}

#[test]
fn dispatch_calls_the_first_registered_handler() {
    let mut router: Router<Endpoint> = Router::new();
    router.register(Method::Get, "/:anything", Endpoint::WorkerVersion);
    router.register(Method::Get, "/finalize_login", Endpoint::FinalizeLogin);
    let req = Request::new(Method::Get, "/finalize_login")
        .with_query("code", "ABC")
        .with_query("state", "XYZ");
    let reply = router.dispatch(&req, &config());
    assert_eq!(reply.response.text(), "0.0.18");
    assert!(reply.task.is_none());
    let empty: Router<Endpoint> = Router::new();
    assert_eq!(empty.dispatch(&req, &config()).response.status(), 404);
}

#[test]
fn handle_calls_the_endpoint() {
    let req = Request::new(Method::Get, "/anything");
    let reply = handle(Endpoint::Root, &req, &Dict::new(), &config());
    assert_eq!(reply.response.text(), "Hello from Workers!");
    let reply = handle(Endpoint::FormField, &req, &Dict::new(), &config());
    assert_eq!(reply.response.status(), 400);
    let reply = handle(Endpoint::FinalizeLogin, &req, &Dict::new(), &config());
    assert_eq!(reply.response.status(), 400);
    let reply = handle(Endpoint::WorkerVersion, &req, &Dict::new(), &config());
    assert_eq!(reply.response.text(), "0.0.18");
}

#[test]
fn path_without_its_leading_slash_is_read_as_if_it_had_one() {
    let router = site_router();
    let reply = router.dispatch(&Request::new(Method::Get, ""), &config());
    assert_eq!(reply.response.text(), "Hello from Workers!");
    let reply = router.dispatch(&Request::new(Method::Get, "worker-version"), &config());
    assert_eq!(reply.response.text(), "0.0.18");
}
