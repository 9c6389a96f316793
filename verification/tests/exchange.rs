use edge_login::config::Config;
use edge_login::dict::Dict;
use edge_login::exchange::{
    parse_answer, Action, Cause, Event, GrantField, OutboundRequest, TokenExchange,
    TokenExchangeResult,
};
use edge_login::method::Method;
use edge_login::request::Params;

fn config() -> Config {
    Config::new("my-id", "my-secret")
}

fn answer() -> Params {
    Dict::new()
        .with("access_token", "tok".to_string())
        .with("token_type", "bearer".to_string())
        .with("scope", "read".to_string())
}

fn entries(params: &Params) -> Vec<(String, String)> {
    let mut out = Vec::new();
    let mut i = 0;
    while let Some((key, value)) = params.entry(i) {
        out.push((key.clone(), value.clone()));
        i += 1;
    }
    out
}

fn pair(key: &str, value: &str) -> (String, String) {
    (key.to_string(), value.to_string())
}

fn sent() -> TokenExchange {
    let (built, _) = TokenExchange::start("ABC").step(Event::Resume, &config());
    let (sent, _) = built.step(Event::Resume, &config());
    sent
}

#[test]
fn token_request_carries_the_three_parameters() {
    let request = OutboundRequest::for_code("ABC", &config());
    assert_eq!(request.method, Method::Put);
    assert_eq!(request.url, "https://github.com/login/oauth/access_token");
    assert_eq!(
        entries(&request.query),
        vec![pair("client_id", "my-id"), pair("client_secret", "my-secret"), pair("code", "ABC")]
    );
    assert_eq!(entries(&request.headers), vec![pair("Accept", "application/json")]);
}

#[test]
fn token_request_target_is_the_address_with_the_query() {
    let request = OutboundRequest::for_code("ABC", &config());
    assert_eq!(
        request.target(),
        "https://github.com/login/oauth/access_token?client_id=my-id&client_secret=my-secret&code=ABC"
    );
}

#[test]
fn target_without_parameters_is_the_address() {
    let request = OutboundRequest {
        method: Method::Get,
        url: "https://example.com/x".to_string(),
        query: Dict::new(),
        headers: Dict::new(),
    };
    assert_eq!(request.target(), "https://example.com/x");
    let one = OutboundRequest {
        method: Method::Get,
        url: "https://example.com/x".to_string(),
        query: Dict::new().with("a", "1".to_string()),
        headers: Dict::new(),
    };
    assert_eq!(one.target(), "https://example.com/x?a=1");
}

#[test]
fn grant_fields_have_their_names() {
    assert_eq!(GrantField::AccessToken.name(), "access_token");
    assert_eq!(GrantField::TokenType.name(), "token_type");
    assert_eq!(GrantField::Scope.name(), "scope");
}

#[test]
fn answer_with_all_fields_is_a_success() {
    assert_eq!(
        parse_answer(&answer()),
        TokenExchangeResult::Success {
            access_token: "tok".to_string(),
            token_type: "bearer".to_string(),
            scope: "read".to_string(),
        }
    );
}

#[test]
fn answer_names_the_first_missing_field() {
    let missing = |field| TokenExchangeResult::Failure { cause: Cause::MissingField(field) };
    assert_eq!(parse_answer(&Dict::new()), missing(GrantField::AccessToken));
    let params: Params = Dict::new().with("access_token", "tok".to_string());
    assert_eq!(parse_answer(&params), missing(GrantField::TokenType));
    let params = params.with("token_type", "bearer".to_string());
    assert_eq!(parse_answer(&params), missing(GrantField::Scope));
    let params: Params = Dict::new().with("scope", "read".to_string());
    assert_eq!(parse_answer(&params), missing(GrantField::AccessToken));
}

#[test]
fn exchange_succeeds_on_an_answer_with_all_fields() {
    let task = TokenExchange::start("ABC");
    assert!(!task.is_done());

    let (task, action) = task.step(Event::Resume, &config());
    assert!(action == Action::Continue);
    assert!(task == TokenExchange::RequestBuilt { request: OutboundRequest::for_code("ABC", &config()) });

    let (task, action) = task.step(Event::Resume, &config());
    assert!(action == Action::Send(OutboundRequest::for_code("ABC", &config())));
    assert!(task == TokenExchange::Sent);

    let (task, action) = task.step(Event::Response { params: answer() }, &config());
    assert!(action == Action::Continue);
    assert!(
        task == TokenExchange::Succeeded {
            access_token: "tok".to_string(),
            token_type: "bearer".to_string(),
            scope: "read".to_string(),
        }
    );

    let (task, action) = task.step(Event::Resume, &config());
    assert!(
        action
            == Action::Record(TokenExchangeResult::Success {
                access_token: "tok".to_string(),
                token_type: "bearer".to_string(),
                scope: "read".to_string(),
            })
    );
    assert!(task.is_done());
}

#[test]
fn exchange_fails_on_a_transport_error() {
    let (task, action) =
        sent().step(Event::TransportError { detail: "connection reset".to_string() }, &config());
    assert!(action == Action::Continue);
    assert!(task == TokenExchange::Failed { cause: Cause::Transport("connection reset".to_string()) });
    let (task, action) = task.step(Event::Resume, &config());
    assert!(
        action
            == Action::Record(TokenExchangeResult::Failure {
                cause: Cause::Transport("connection reset".to_string()),
            })
    );
    assert!(task.is_done());
}

#[test]
fn exchange_fails_on_an_answer_that_lacks_a_field() {
    let params: Params = Dict::new().with("access_token", "tok".to_string());
    let (task, action) = sent().step(Event::Response { params }, &config());
    assert!(action == Action::Continue);
    assert!(task == TokenExchange::Failed { cause: Cause::MissingField(GrantField::TokenType) });
}

#[test]
fn done_stays_done() {
    for event in [
        Event::Resume,
        Event::Response { params: answer() },
        Event::TransportError { detail: "late".to_string() },
    ] {
        let (task, action) = TokenExchange::Done.step(event, &config());
        assert!(task.is_done());
        assert!(action == Action::Nothing);
    }
}

#[test]
fn events_that_do_not_fit_change_nothing() {
    let (task, action) =
        TokenExchange::start("ABC").step(Event::Response { params: answer() }, &config());
    assert!(action == Action::Nothing);
    assert!(task == TokenExchange::start("ABC"));

    let (task, action) = sent().step(Event::Resume, &config());
    assert!(action == Action::Nothing);
    assert!(task == TokenExchange::Sent);

    let failed = TokenExchange::Failed { cause: Cause::Transport("x".to_string()) };
    let (task, action) = failed.clone().step(Event::Response { params: answer() }, &config());
    assert!(action == Action::Nothing);
    assert!(task == failed);
}

#[test]
fn exchange_records_one_result_however_it_is_driven() {
    let events = vec![
        Event::Response { params: answer() },
        Event::Resume,
        Event::Resume,
        Event::Resume,
        Event::TransportError { detail: "down".to_string() },
        Event::Response { params: answer() },
        Event::Resume,
        Event::Resume,
        Event::Response { params: answer() },
        Event::Resume,
    ];
    let mut task = TokenExchange::start("ABC");
    let mut recorded = 0;
    for event in events {
        let (next, action) = task.step(event, &config());
        task = next;
        if let Action::Record(result) = action {
            recorded += 1;
            assert_eq!(
                result,
                TokenExchangeResult::Failure { cause: Cause::Transport("down".to_string()) }
            );
        }
    }
    assert_eq!(recorded, 1);
    assert!(task.is_done());
}
