//! The authentication handshake: decoding login and verification replies.
//!
//! The handshake has at most two steps. A login reply either carries a
//! session token at once, or asks for an out-of-band verification code; a
//! verification reply carries the token. Each step is one HTTP POST made by
//! the caller; any transport error or error envelope aborts the handshake.

use vstd::prelude::*;
use crate::api::{
    spec_classify_login, spec_classify_verify, classify_login, classify_verify, LoginResponse,
    LoginResponseType, VerifyResponse,
};
use crate::error::{LoginError, RequestError, VerifyError};
use crate::json::{parse_json, parsed_json, JsonValue};
use crate::types::LoginResult;

verus! {

/// What a login reply resolves to: a token or a code request on a decoded
/// envelope, the upstream's error verbatim on an error envelope, and the
/// undecodable body, kept with its status, otherwise.
pub open spec fn spec_login_outcome(p: Option<JsonValue>, status: u16, body: String) -> Result<
    LoginResult,
    LoginError,
> {
    match p {
        None => Err(LoginError::Request(RequestError::ParseError { status, body })),
        Some(v) => match spec_classify_login(v) {
            None => Err(LoginError::Request(RequestError::ParseError { status, body })),
            Some(LoginResponse::Error { message }) => Err(
                LoginError::Request(RequestError::Api(message)),
            ),
            Some(
                LoginResponse::Success {
                    success: LoginResponseType::WithToken { login_token, message },
                },
            ) => Ok(LoginResult::GotToken { login_token }),
            Some(
                LoginResponse::Success { success: LoginResponseType::NeedCode { email, message } },
            ) => Ok(LoginResult::NeedCode { message }),
        },
    }
}

/// Resolves an already-parsed login reply.
pub fn login_outcome(parsed: Option<JsonValue>, status: u16, body: String) -> (r: Result<
    LoginResult,
    LoginError,
>)
    ensures
        r == spec_login_outcome(parsed, status, body),
{
    match parsed {
        None => Err(LoginError::Request(RequestError::ParseError { status, body })),
        Some(v) => match classify_login(&v) {
            None => Err(LoginError::Request(RequestError::ParseError { status, body })),
            Some(LoginResponse::Error { message }) => Err(
                LoginError::Request(RequestError::Api(message)),
            ),
            Some(
                LoginResponse::Success {
                    success: LoginResponseType::WithToken { login_token, message },
                },
            ) => Ok(LoginResult::GotToken { login_token }),
            Some(
                LoginResponse::Success { success: LoginResponseType::NeedCode { email, message } },
            ) => Ok(LoginResult::NeedCode { message }),
        },
    }
}

/// Decodes the body of a login reply.
pub fn login(status: u16, body: String) -> (r: Result<LoginResult, LoginError>)
    ensures
        r == spec_login_outcome(parsed_json(body@), status, body),
{
    let parsed = parse_json(body.as_str());
    login_outcome(parsed, status, body)
}

/// What a verification reply resolves to: the session token on a decoded
/// envelope, the upstream's error verbatim on an error envelope, and the
/// undecodable body, kept with its status, otherwise.
pub open spec fn spec_verify_outcome(p: Option<JsonValue>, status: u16, body: String) -> Result<
    String,
    VerifyError,
> {
    match p {
        None => Err(VerifyError::Request(RequestError::ParseError { status, body })),
        Some(v) => match spec_classify_verify(v) {
            None => Err(VerifyError::Request(RequestError::ParseError { status, body })),
            Some(VerifyResponse::Error { message }) => Err(
                VerifyError::Request(RequestError::Api(message)),
            ),
            Some(VerifyResponse::Success { login_token, message }) => Ok(login_token),
        },
    }
}

/// Resolves an already-parsed verification reply.
pub fn verify_outcome(parsed: Option<JsonValue>, status: u16, body: String) -> (r: Result<
    String,
    VerifyError,
>)
    ensures
        r == spec_verify_outcome(parsed, status, body),
{
    match parsed {
        None => Err(VerifyError::Request(RequestError::ParseError { status, body })),
        Some(v) => match classify_verify(&v) {
            None => Err(VerifyError::Request(RequestError::ParseError { status, body })),
            Some(VerifyResponse::Error { message }) => Err(
                VerifyError::Request(RequestError::Api(message)),
            ),
            Some(VerifyResponse::Success { login_token, message }) => Ok(login_token),
        },
    }
}

/// Decodes the body of a verification reply.
pub fn verify(status: u16, body: String) -> (r: Result<String, VerifyError>)
    ensures
        r == spec_verify_outcome(parsed_json(body@), status, body),
{
    let parsed = parse_json(body.as_str());
    verify_outcome(parsed, status, body)
}

} // verus!
