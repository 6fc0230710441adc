//! A verified protocol engine for a credentialed professional-network data API.
//!
//! The library models the request/response protocol of the upstream service:
//! the login/verify handshake, the response-envelope codec, the URL routing of
//! `fetch`, the two pagination strategies (page windows and opaque cursors),
//! and the one-shot token-refresh policy. All HTTP transport is left to the
//! caller, which drives the state machines defined here.

pub mod api;
pub mod auth;
pub mod client;
pub mod error;
pub mod inbox;
pub mod json;
pub mod paging;
pub mod refresh;
pub mod strutil;
pub mod types;
pub mod urlparse;

pub use api::{FetchResponse, InboxData, LoginResponse, LoginResponseType, VerifyResponse};
pub use error::{FetchError, HttpError, LoginError, RequestError, VerifyError};
pub use json::JsonValue;
pub use auth::{login, verify};
pub use client::{Client, FetchSession};
pub use refresh::RefreshPolicy;
pub use types::LoginResult;
