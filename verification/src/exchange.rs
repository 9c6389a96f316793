//! The exchange of an authorization code for an access token.
//!
//! The exchange runs apart from the request that started it. It is written
//! as a state machine: `step` takes the state and what has just happened and
//! gives the next state and what is to be done outside. The caller sends the
//! one request and hands back what came of it; the exchange never waits
//! itself.
//!
//! ```text
//! Started -> RequestBuilt -> Sent -> Succeeded | Failed -> Done
//! ```

use crate::config::{Config, ConfigView};
use crate::dict::Dict;
use crate::method::Method;
use crate::request::Params;
use vstd::prelude::*;
use vstd::string::*;

verus! {

/// A request to be sent to another server.
///
/// It carries the client secret among its parameters and so has no `Debug`.
#[derive(Clone, PartialEq, Eq)]
pub struct OutboundRequest {
    pub method: Method,
    /// The address without the query.
    pub url: String,
    /// The query parameters, in the order in which they are sent.
    pub query: Params,
    pub headers: Params,
}

/// An outbound request as contracts see it.
pub struct OutboundRequestView {
    pub method: Method,
    pub url: Seq<char>,
    pub query: Seq<(Seq<char>, Seq<char>)>,
    pub headers: Seq<(Seq<char>, Seq<char>)>,
}

impl View for OutboundRequest {
    type V = OutboundRequestView;

    open spec fn view(&self) -> OutboundRequestView {
        OutboundRequestView {
            method: self.method,
            url: self.url@,
            query: self.query.entries(),
            headers: self.headers.entries(),
        }
    }
}

/// The address of the identity provider's token endpoint.
pub open spec fn token_endpoint() -> Seq<char> {
    "https://github.com/login/oauth/access_token"@
}

/// The request that exchanges `code`: a PUT to the token endpoint with the
/// client's identifier, its secret and the code as parameters, asking for a
/// JSON answer.
pub open spec fn token_request(code: Seq<char>, config: ConfigView) -> OutboundRequestView {
    OutboundRequestView {
        method: Method::Put,
        url: token_endpoint(),
        query: seq![
            ("client_id"@, config.client_id),
            ("client_secret"@, config.client_secret),
            ("code"@, code),
        ],
        headers: seq![("Accept"@, "application/json"@)],
    }
}

/// Parameters written as a query string: `name=value`, joined by `&`.
pub open spec fn query_text(entries: Seq<(Seq<char>, Seq<char>)>) -> Seq<char>
    decreases entries.len(),
{
    if entries.len() == 0 {
        Seq::empty()
    } else {
        let pair = entries.last().0 + "="@ + entries.last().1;
        if entries.len() == 1 {
            pair
        } else {
            query_text(entries.drop_last()) + "&"@ + pair
        }
    }
}

/// The address with the parameters behind it.
pub open spec fn target_text(url: Seq<char>, entries: Seq<(Seq<char>, Seq<char>)>) -> Seq<char> {
    if entries.len() == 0 {
        url
    } else {
        url + "?"@ + query_text(entries)
    }
}

impl OutboundRequest {
    /// The request that exchanges `code` for a token.
    pub fn for_code(code: &str, config: &Config) -> (r: OutboundRequest)
        ensures
            r@ == token_request(code@, config@),
    {
        let query = Dict::new().with("client_id", config.client_id().to_owned()).with(
            "client_secret",
            config.client_secret().to_owned(),
        ).with("code", code.to_owned());
        let headers = Dict::new().with("Accept", "application/json".to_owned());
        let r = OutboundRequest {
            method: Method::Put,
            url: "https://github.com/login/oauth/access_token".to_owned(),
            query,
            headers,
        };
        assert(r@.query =~= token_request(code@, config@).query);
        assert(r@.headers =~= token_request(code@, config@).headers);
        r
    }

    /// The address with the query parameters behind it, as it is requested.
    /// Names and values are written as they are.
    pub fn target(&self) -> (r: String)
        ensures
            r@ == target_text(self@.url, self@.query),
    {
        let mut r = self.url.clone();
        let count = self.query.len();
        if count == 0 {
            return r;
        }
        r.append("?");
        let ghost head = r@;
        let mut i: usize = 0;
        assert(self@.query.take(0) == Seq::<(Seq<char>, Seq<char>)>::empty());
        while i < count
            invariant
                i <= count,
                count == self@.query.len(),
                head == self@.url + "?"@,
                r@ == head + query_text(self@.query.take(i as int)),
            decreases count - i,
        {
            let ghost before = self@.query.take(i as int);
            let ghost now = self@.query.take(i + 1);
            assert(now.drop_last() == before);
            assert(now.last() == self@.query[i as int]);
            match self.query.entry(i) {
                Some((key, value)) => {
                    if i > 0 {
                        r.append("&");
                    }
                    r.append(key.as_str());
                    r.append("=");
                    r.append(value.as_str());
                    let ghost pair = key@ + "="@ + value@;
                    if i > 0 {
                        assert(r@ == head + (query_text(before) + "&"@ + pair));
                    } else {
                        assert(r@ == head + pair);
                    }
                },
                None => {},
            }
            i += 1;
        }
        assert(self@.query.take(count as int) == self@.query);
        r
    }
}

/// The three values that the provider's answer must carry.
#[derive(Clone, Copy, Debug, PartialEq, Eq, Structural)]
pub enum GrantField {
    AccessToken,
    TokenType,
    Scope,
}

/// The name of a field among the parameters of the provider's answer.
pub open spec fn field_name(field: GrantField) -> Seq<char> {
    match field {
        GrantField::AccessToken => "access_token"@,
        GrantField::TokenType => "token_type"@,
        GrantField::Scope => "scope"@,
    }
}

impl GrantField {
    /// The name of the field among the parameters of the provider's answer.
    pub fn name(self) -> (r: &'static str)
        ensures
            r@ == field_name(self),
    {
        match self {
            GrantField::AccessToken => "access_token",
            GrantField::TokenType => "token_type",
            GrantField::Scope => "scope",
        }
    }
}

/// Why an exchange failed.
#[derive(Clone, Debug, PartialEq, Eq)]
pub enum Cause {
    /// The request did not get through; the text says what the transport
    /// reported.
    Transport(String),
    /// The answer came without this field.
    MissingField(GrantField),
}

/// A cause as contracts see it.
pub enum CauseView {
    Transport(Seq<char>),
    MissingField(GrantField),
}

impl View for Cause {
    type V = CauseView;

    open spec fn view(&self) -> CauseView {
        match self {
            Cause::Transport(detail) => CauseView::Transport(detail@),
            Cause::MissingField(field) => CauseView::MissingField(*field),
        }
    }
}

/// What an exchange came to. It is made once for each exchange and only
/// ever written to the log.
#[derive(Clone, Debug, PartialEq, Eq)]
pub enum TokenExchangeResult {
    Success { access_token: String, token_type: String, scope: String },
    Failure { cause: Cause },
}

/// A result as contracts see it.
pub enum TokenExchangeResultView {
    Success { access_token: Seq<char>, token_type: Seq<char>, scope: Seq<char> },
    Failure { cause: CauseView },
}

impl View for TokenExchangeResult {
    type V = TokenExchangeResultView;

    open spec fn view(&self) -> TokenExchangeResultView {
        match self {
            TokenExchangeResult::Success {
                access_token,
                token_type,
                scope,
            } => TokenExchangeResultView::Success {
                access_token: access_token@,
                token_type: token_type@,
                scope: scope@,
            },
            TokenExchangeResult::Failure { cause } => TokenExchangeResultView::Failure {
                cause: cause@,
            },
        }
    }
}

/// What the parameters of the provider's answer hold: a success with the
/// three values exactly as given where all three are there, else a failure
/// that names the first one missing.
pub open spec fn read_answer(params: Map<Seq<char>, Seq<char>>) -> TokenExchangeResultView {
    if !params.contains_key(field_name(GrantField::AccessToken)) {
        TokenExchangeResultView::Failure {
            cause: CauseView::MissingField(GrantField::AccessToken),
        }
    } else if !params.contains_key(field_name(GrantField::TokenType)) {
        TokenExchangeResultView::Failure { cause: CauseView::MissingField(GrantField::TokenType) }
    } else if !params.contains_key(field_name(GrantField::Scope)) {
        TokenExchangeResultView::Failure { cause: CauseView::MissingField(GrantField::Scope) }
    } else {
        TokenExchangeResultView::Success {
            access_token: params[field_name(GrantField::AccessToken)],
            token_type: params[field_name(GrantField::TokenType)],
            scope: params[field_name(GrantField::Scope)],
        }
    }
}

/// Reads the token and what belongs to it out of the parameters of the
/// provider's answer.
pub fn parse_answer(params: &Params) -> (r: TokenExchangeResult)
    ensures
        r@ == read_answer(params@),
{
    let access_token = match params.get("access_token") {
        Some(value) => value.clone(),
        None => {
            return TokenExchangeResult::Failure {
                cause: Cause::MissingField(GrantField::AccessToken),
            };
        },
    };
    let token_type = match params.get("token_type") {
        Some(value) => value.clone(),
        None => {
            return TokenExchangeResult::Failure {
                cause: Cause::MissingField(GrantField::TokenType),
            };
        },
    };
    let scope = match params.get("scope") {
        Some(value) => value.clone(),
        None => {
            return TokenExchangeResult::Failure { cause: Cause::MissingField(GrantField::Scope) };
        },
    };
    TokenExchangeResult::Success { access_token, token_type, scope }
}

/// An exchange in one of its states.
#[derive(Clone, PartialEq, Eq)]
pub enum TokenExchange {
    /// Nothing has been done yet; the code is at hand.
    Started { code: String },
    /// The request to the provider is made up and not yet sent.
    RequestBuilt { request: OutboundRequest },
    /// The request is on its way; the exchange waits for what comes of it.
    Sent,
    /// The provider answered with a token.
    Succeeded { access_token: String, token_type: String, scope: String },
    /// The request did not get through, or the answer lacked a field.
    Failed { cause: Cause },
    /// The result is recorded. Nothing follows.
    Done,
}

/// An exchange as contracts see it.
pub enum TokenExchangeView {
    Started { code: Seq<char> },
    RequestBuilt { request: OutboundRequestView },
    Sent,
    Succeeded { access_token: Seq<char>, token_type: Seq<char>, scope: Seq<char> },
    Failed { cause: CauseView },
    Done,
}

impl View for TokenExchange {
    type V = TokenExchangeView;

    open spec fn view(&self) -> TokenExchangeView {
        match self {
            TokenExchange::Started { code } => TokenExchangeView::Started { code: code@ },
            TokenExchange::RequestBuilt { request } => TokenExchangeView::RequestBuilt {
                request: request@,
            },
            TokenExchange::Sent => TokenExchangeView::Sent,
            TokenExchange::Succeeded {
                access_token,
                token_type,
                scope,
            } => TokenExchangeView::Succeeded {
                access_token: access_token@,
                token_type: token_type@,
                scope: scope@,
            },
            TokenExchange::Failed { cause } => TokenExchangeView::Failed { cause: cause@ },
            TokenExchange::Done => TokenExchangeView::Done,
        }
    }
}

/// What happened outside since the last step.
#[derive(Clone, Debug, PartialEq, Eq)]
pub enum Event {
    /// Nothing; the exchange is asked to go on.
    Resume,
    /// An answer came. These are the query parameters of the address that
    /// the answer was finally served from.
    Response { params: Params },
    /// The request did not get through.
    TransportError { detail: String },
}

/// An event as contracts see it.
pub enum EventView {
    Resume,
    Response { params: Map<Seq<char>, Seq<char>> },
    TransportError { detail: Seq<char> },
}

impl View for Event {
    type V = EventView;

    open spec fn view(&self) -> EventView {
        match self {
            Event::Resume => EventView::Resume,
            Event::Response { params } => EventView::Response { params: params@ },
            Event::TransportError { detail } => EventView::TransportError { detail: detail@ },
        }
    }
}

/// What the caller is to do after a step.
#[derive(Clone, PartialEq, Eq)]
pub enum Action {
    /// Step again with `Event::Resume`.
    Continue,
    /// Send the request, wait for what comes of it, and step with that.
    Send(OutboundRequest),
    /// Write the result to the log, and step again with `Event::Resume`.
    Record(TokenExchangeResult),
    /// Nothing: the event did not fit the state, or the exchange is done.
    Nothing,
}

/// An action as contracts see it.
pub enum ActionView {
    Continue,
    Send(OutboundRequestView),
    Record(TokenExchangeResultView),
    Nothing,
}

impl View for Action {
    type V = ActionView;

    open spec fn view(&self) -> ActionView {
        match self {
            Action::Continue => ActionView::Continue,
            Action::Send(request) => ActionView::Send(request@),
            Action::Record(result) => ActionView::Record(result@),
            Action::Nothing => ActionView::Nothing,
        }
    }
}

/// The state that an answer with these parameters leads to.
pub open spec fn after_answer(params: Map<Seq<char>, Seq<char>>) -> TokenExchangeView {
    match read_answer(params) {
        TokenExchangeResultView::Success {
            access_token,
            token_type,
            scope,
        } => TokenExchangeView::Succeeded { access_token, token_type, scope },
        TokenExchangeResultView::Failure { cause } => TokenExchangeView::Failed { cause },
    }
}

/// One step of the exchange: the next state and what the caller is to do.
/// An event that does not fit the state changes nothing.
pub open spec fn next(state: TokenExchangeView, event: EventView, config: ConfigView) -> (
    TokenExchangeView,
    ActionView,
) {
    match (state, event) {
        (TokenExchangeView::Started { code }, EventView::Resume) => (
            TokenExchangeView::RequestBuilt { request: token_request(code, config) },
            ActionView::Continue,
        ),
        (TokenExchangeView::RequestBuilt { request }, EventView::Resume) => (
            TokenExchangeView::Sent,
            ActionView::Send(request),
        ),
        (TokenExchangeView::Sent, EventView::Response { params }) => (
            after_answer(params),
            ActionView::Continue,
        ),
        (TokenExchangeView::Sent, EventView::TransportError { detail }) => (
            TokenExchangeView::Failed { cause: CauseView::Transport(detail) },
            ActionView::Continue,
        ),
        (
            TokenExchangeView::Succeeded { access_token, token_type, scope },
            EventView::Resume,
        ) => (
            TokenExchangeView::Done,
            ActionView::Record(
                TokenExchangeResultView::Success { access_token, token_type, scope },
            ),
        ),
        (TokenExchangeView::Failed { cause }, EventView::Resume) => (
            TokenExchangeView::Done,
            ActionView::Record(TokenExchangeResultView::Failure { cause }),
        ),
        _ => (state, ActionView::Nothing),
    }
}

impl TokenExchange {
    /// An exchange for `code`, not yet begun.
    pub fn start(code: &str) -> (r: TokenExchange)
        ensures
            r@ == (TokenExchangeView::Started { code: code@ }),
    {
        TokenExchange::Started { code: code.to_owned() }
    }

    /// Whether the exchange is over.
    pub fn is_done(&self) -> (r: bool)
        ensures
            r == (self@ is Done),
    {
        match self {
            TokenExchange::Done => true,
            _ => false,
        }
    }

    /// Takes one step.
    pub fn step(self, event: Event, config: &Config) -> (r: (TokenExchange, Action))
        ensures
            (r.0@, r.1@) == next(self@, event@, config@),
    {
        match self {
            TokenExchange::Started { code } => match event {
                Event::Resume => {
                    let request = OutboundRequest::for_code(code.as_str(), config);
                    (TokenExchange::RequestBuilt { request }, Action::Continue)
                },
                _ => (TokenExchange::Started { code }, Action::Nothing),
            },
            TokenExchange::RequestBuilt { request } => match event {
                Event::Resume => (TokenExchange::Sent, Action::Send(request)),
                _ => (TokenExchange::RequestBuilt { request }, Action::Nothing),
            },
            TokenExchange::Sent => match event {
                Event::Response { params } => {
                    let state = match parse_answer(&params) {
                        TokenExchangeResult::Success {
                            access_token,
                            token_type,
                            scope,
                        } => TokenExchange::Succeeded { access_token, token_type, scope },
                        TokenExchangeResult::Failure { cause } => TokenExchange::Failed { cause },
                    };
                    (state, Action::Continue)
                },
                Event::TransportError { detail } => (
                    TokenExchange::Failed { cause: Cause::Transport(detail) },
                    Action::Continue,
                ),
                Event::Resume => (TokenExchange::Sent, Action::Nothing),
            },
            TokenExchange::Succeeded { access_token, token_type, scope } => match event {
                Event::Resume => (
                    TokenExchange::Done,
                    Action::Record(TokenExchangeResult::Success { access_token, token_type, scope }),
                ),
                _ => (
                    TokenExchange::Succeeded { access_token, token_type, scope },
                    Action::Nothing,
                ),
            },
            TokenExchange::Failed { cause } => match event {
                Event::Resume => (
                    TokenExchange::Done,
                    Action::Record(TokenExchangeResult::Failure { cause }),
                ),
                _ => (TokenExchange::Failed { cause }, Action::Nothing),
            },
            TokenExchange::Done => (TokenExchange::Done, Action::Nothing),
        }
    }
}

/// The exchange driven through a series of events: the state it ends in
/// and the actions it asked for, one for each event.
pub open spec fn run(state: TokenExchangeView, events: Seq<EventView>, config: ConfigView) -> (
    TokenExchangeView,
    Seq<ActionView>,
)
    decreases events.len(),
{
    if events.len() == 0 {
        (state, Seq::empty())
    } else {
        let (reached, actions) = run(state, events.drop_last(), config);
        let (state, action) = next(reached, events.last(), config);
        (state, actions.push(action))
    }
}

/// How many of the actions record a result.
pub open spec fn records(actions: Seq<ActionView>) -> nat
    decreases actions.len(),
{
    if actions.len() == 0 {
        0
    } else if actions.last() is Record {
        records(actions.drop_last()) + 1
    } else {
        records(actions.drop_last())
    }
}

/// Nothing follows `Done`: whatever happens, the exchange stays done and
/// asks for nothing.
pub proof fn lemma_done_is_final(event: EventView, config: ConfigView)
    ensures
        next(TokenExchangeView::Done, event, config) == (
            TokenExchangeView::Done,
            ActionView::Nothing,
        ),
{
}

/// The request is sent in one step only, the one from `RequestBuilt` to
/// `Sent`, and it is the request for the code that the exchange began with.
pub proof fn lemma_one_request(state: TokenExchangeView, event: EventView, config: ConfigView)
    ensures
        next(state, event, config).1 is Send <==> state is RequestBuilt && event is Resume,
        forall|code: Seq<char>|
            state == (TokenExchangeView::Started { code }) && event is Resume ==> next(
                next(state, event, config).0,
                EventView::Resume,
                config,
            ).1 == ActionView::Send(token_request(code, config)),
{
}

/// However an exchange is driven, it records at most one result, and once
/// it has recorded one it is done.
pub proof fn lemma_result_is_recorded_once(
    state: TokenExchangeView,
    events: Seq<EventView>,
    config: ConfigView,
)
    ensures
        records(run(state, events, config).1) <= 1,
        records(run(state, events, config).1) == 1 ==> run(state, events, config).0 is Done,
        state is Done ==> records(run(state, events, config).1) == 0,
        state is Done ==> run(state, events, config).0 is Done,
    decreases events.len(),
{
    if events.len() > 0 {
        lemma_result_is_recorded_once(state, events.drop_last(), config);
        let (reached, actions) = run(state, events.drop_last(), config);
        let (last, action) = next(reached, events.last(), config);
        assert(actions.push(action).drop_last() == actions);
        assert(actions.push(action).last() == action);
    }
}

/// An answer that carries the three fields brings the exchange from its
/// start through `Succeeded` to `Done`, and the result that is recorded
/// holds the three values exactly as the answer gave them.
pub proof fn lemma_answer_with_all_fields_succeeds(
    code: Seq<char>,
    config: ConfigView,
    params: Map<Seq<char>, Seq<char>>,
)
    requires
        params.contains_key(field_name(GrantField::AccessToken)),
        params.contains_key(field_name(GrantField::TokenType)),
        params.contains_key(field_name(GrantField::Scope)),
    ensures
        ({
            let started = TokenExchangeView::Started { code };
            let built = next(started, EventView::Resume, config).0;
            let sent = next(built, EventView::Resume, config).0;
            let answered = next(sent, EventView::Response { params }, config).0;
            let result = TokenExchangeResultView::Success {
                access_token: params[field_name(GrantField::AccessToken)],
                token_type: params[field_name(GrantField::TokenType)],
                scope: params[field_name(GrantField::Scope)],
            };
            &&& sent is Sent
            &&& answered == (TokenExchangeView::Succeeded {
                access_token: params[field_name(GrantField::AccessToken)],
                token_type: params[field_name(GrantField::TokenType)],
                scope: params[field_name(GrantField::Scope)],
            })
            &&& next(answered, EventView::Resume, config) == (
                TokenExchangeView::Done,
                ActionView::Record(result),
            )
        }),
{
}

/// An answer that lacks one of the three fields brings the exchange to
/// `Failed`, with the first missing field as the cause.
pub proof fn lemma_answer_without_a_field_fails(
    params: Map<Seq<char>, Seq<char>>,
    config: ConfigView,
)
    requires
        !params.contains_key(field_name(GrantField::AccessToken)) || !params.contains_key(
            field_name(GrantField::TokenType),
        ) || !params.contains_key(field_name(GrantField::Scope)),
    ensures
        next(TokenExchangeView::Sent, EventView::Response { params }, config).0 is Failed,
        next(TokenExchangeView::Sent, EventView::Response { params }, config).1
            == ActionView::Continue,
{
}

/// A request that does not get through brings the exchange from its start
/// through `Failed` to `Done`; the failure is recorded with what the
/// transport reported, and nothing else comes of it.
pub proof fn lemma_transport_error_fails(code: Seq<char>, config: ConfigView, detail: Seq<char>)
    ensures
        ({
            let started = TokenExchangeView::Started { code };
            let built = next(started, EventView::Resume, config).0;
            let sent = next(built, EventView::Resume, config).0;
            let failed = next(sent, EventView::TransportError { detail }, config).0;
            &&& failed == (TokenExchangeView::Failed { cause: CauseView::Transport(detail) })
            &&& next(failed, EventView::Resume, config) == (
                TokenExchangeView::Done,
                ActionView::Record(
                    TokenExchangeResultView::Failure { cause: CauseView::Transport(detail) },
                ),
            )
        }),
{
}

} // verus!
