//! Request routing and the login-completion flow of an HTTP edge handler.
//!
//! A request is routed by its method and path to one of a few endpoints.
//! One of them completes an OAuth2 login: it answers at once and hands out
//! an exchange of the authorization code for an access token, which the
//! caller runs apart from the response.
//!
//! Nothing here does I/O. The caller turns the runtime's request into a
//! [`request::Request`], calls [`router::Router::dispatch`], sends the
//! response, and drives [`exchange::TokenExchange::step`].

pub mod config;
pub mod dict;
pub mod exchange;
pub mod handlers;
pub mod json;
pub mod method;
pub mod pattern;
pub mod request;
pub mod response;
pub mod router;
pub mod site;
pub mod text;
