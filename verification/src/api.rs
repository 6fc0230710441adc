//! The wire protocol: response envelopes, their decoding, and request bodies.
//!
//! Every reply of the upstream API is a JSON object with a `status` member of
//! `"success"` or `"error"`. The classifiers below turn a parsed document
//! into the envelope for its endpoint, strictly: a success envelope whose
//! payload does not match the expected shape is no envelope at all.

use vstd::prelude::*;
use vstd::string::StringExecFns;
use crate::error::{HttpError, RequestError};
use crate::json::{spec_get, JsonValue};
use crate::strutil::str_eq;

verus! {

broadcast use vstd::string::group_string_axioms;

/// The decoded reply of the login endpoint.
#[derive(Debug, Clone, PartialEq)]
pub enum LoginResponse {
    Success { success: LoginResponseType },
    Error { message: String },
}

/// The two shapes a successful login reply can take: a session token at
/// once, or a request for an out-of-band verification code. A reply that
/// carries a token is read as `WithToken` even when it also carries the
/// members of `NeedCode`: the alternatives are tried in this order.
#[derive(Debug, Clone, PartialEq)]
pub enum LoginResponseType {
    WithToken { login_token: String, message: String },
    NeedCode { email: String, message: String },
}

/// The decoded reply of the verification endpoint.
#[derive(Debug, Clone, PartialEq)]
pub enum VerifyResponse {
    Success { login_token: String, message: Option<String> },
    Error { message: String },
}

/// The decoded reply of any fetch endpoint: an opaque payload, or the
/// upstream's own error message.
#[derive(Debug, PartialEq)]
pub enum FetchResponse {
    Success { data: JsonValue },
    Error { message: String },
}

/// One page of the inbox: its records, the declared total, and the cursor
/// that continues the enumeration, absent exactly when it is complete.
#[derive(Debug, PartialEq)]
pub struct InboxData {
    pub conversations: Vec<JsonValue>,
    pub total_results: u32,
    pub next_cursor: Option<String>,
}

/// The `status` member of `v` is a string reading `tag`.
pub open spec fn spec_status_is(v: JsonValue, tag: Seq<char>) -> bool {
    spec_get(v, "status"@) matches Some(JsonValue::Str(s)) && s@ == tag
}

/// The string member named `key` of `v`, if there is one.
pub open spec fn spec_str_field(v: JsonValue, key: Seq<char>) -> Option<String> {
    match spec_get(v, key) {
        Some(JsonValue::Str(s)) => Some(s),
        _ => None,
    }
}

/// The fetch envelope that `v` reads as, if any.
pub open spec fn spec_classify_fetch(v: JsonValue) -> Option<FetchResponse> {
    if spec_status_is(v, "success"@) {
        match spec_get(v, "data"@) {
            Some(d) => Some(FetchResponse::Success { data: d }),
            None => None,
        }
    } else if spec_status_is(v, "error"@) {
        match spec_str_field(v, "message"@) {
            Some(m) => Some(FetchResponse::Error { message: m }),
            None => None,
        }
    } else {
        None
    }
}

/// The successful-login payload that `v` reads as: the token shape first,
/// then the needs-code shape.
pub open spec fn spec_login_payload(v: JsonValue) -> Option<LoginResponseType> {
    match (spec_str_field(v, "login_token"@), spec_str_field(v, "message"@)) {
        (Some(t), Some(m)) => Some(LoginResponseType::WithToken { login_token: t, message: m }),
        _ => match (spec_str_field(v, "email"@), spec_str_field(v, "message"@)) {
            (Some(e), Some(m)) => Some(LoginResponseType::NeedCode { email: e, message: m }),
            _ => None,
        },
    }
}

/// The login envelope that `v` reads as, if any.
pub open spec fn spec_classify_login(v: JsonValue) -> Option<LoginResponse> {
    if spec_status_is(v, "success"@) {
        match spec_login_payload(v) {
            Some(t) => Some(LoginResponse::Success { success: t }),
            None => None,
        }
    } else if spec_status_is(v, "error"@) {
        match spec_str_field(v, "message"@) {
            Some(m) => Some(LoginResponse::Error { message: m }),
            None => None,
        }
    } else {
        None
    }
}

/// The verification envelope that `v` reads as, if any. The message member
/// is optional; an absent or null message reads as none.
pub open spec fn spec_classify_verify(v: JsonValue) -> Option<VerifyResponse> {
    if spec_status_is(v, "success"@) {
        match spec_str_field(v, "login_token"@) {
            Some(t) => match spec_get(v, "message"@) {
                None => Some(VerifyResponse::Success { login_token: t, message: None }),
                Some(JsonValue::Null) => Some(
                    VerifyResponse::Success { login_token: t, message: None },
                ),
                Some(JsonValue::Str(m)) => Some(
                    VerifyResponse::Success { login_token: t, message: Some(m) },
                ),
                Some(_) => None,
            },
            None => None,
        }
    } else if spec_status_is(v, "error"@) {
        match spec_str_field(v, "message"@) {
            Some(m) => Some(VerifyResponse::Error { message: m }),
            None => None,
        }
    } else {
        None
    }
}

/// The inbox page that a success payload reads as, if any.
pub open spec fn spec_inbox_of(data: JsonValue) -> Option<InboxData> {
    match spec_get(data, "conversations"@) {
        Some(JsonValue::Array(convs)) => match spec_get(data, "total_results"@) {
            Some(JsonValue::UInt(n)) => if n <= u32::MAX as u64 {
                match spec_get(data, "next_cursor"@) {
                    None => Some(
                        InboxData {
                            conversations: convs,
                            total_results: n as u32,
                            next_cursor: None,
                        },
                    ),
                    Some(JsonValue::Null) => Some(
                        InboxData {
                            conversations: convs,
                            total_results: n as u32,
                            next_cursor: None,
                        },
                    ),
                    Some(JsonValue::Str(s)) => Some(
                        InboxData {
                            conversations: convs,
                            total_results: n as u32,
                            next_cursor: Some(s),
                        },
                    ),
                    Some(_) => None,
                }
            } else {
                None
            },
            _ => None,
        },
        _ => None,
    }
}

/// Which tag the `status` member of `v` carries: 1 for success, 2 for
/// error, 0 for anything else.
fn status_kind(v: &JsonValue) -> (r: u8)
    ensures
        (r == 1u8) == spec_status_is(*v, "success"@),
        (r == 2u8) == spec_status_is(*v, "error"@),
{
    proof {
        reveal_strlit("success");
        reveal_strlit("error");
        assert("success"@.len() == 7);
        assert("error"@.len() == 5);
        assert("success"@ != "error"@);
    }
    match v.get("status") {
        Some(sv) => match sv {
            JsonValue::Str(s) => if str_eq(s.as_str(), "success") {
                1
            } else if str_eq(s.as_str(), "error") {
                2
            } else {
                0
            },
            _ => 0,
        },
        None => 0,
    }
}

/// Clones the string member named `key` of `v`, if there is one.
fn str_field(v: &JsonValue, key: &str) -> (r: Option<String>)
    ensures
        r == spec_str_field(*v, key@),
{
    match v.get(key) {
        Some(sv) => match sv {
            JsonValue::Str(s) => Some(s.clone()),
            _ => None,
        },
        None => None,
    }
}

/// Reads `v` as a fetch envelope.
pub fn classify_fetch(v: JsonValue) -> (r: Option<FetchResponse>)
    ensures
        r == spec_classify_fetch(v),
{
    let kind = status_kind(&v);
    if kind == 1 {
        match v.into_field("data") {
            Some(d) => Some(FetchResponse::Success { data: d }),
            None => None,
        }
    } else if kind == 2 {
        let msg = str_field(&v, "message");
        match msg {
            Some(m) => Some(FetchResponse::Error { message: m }),
            None => None,
        }
    } else {
        None
    }
}

/// Reads `v` as a login envelope.
pub fn classify_login(v: &JsonValue) -> (r: Option<LoginResponse>)
    ensures
        r == spec_classify_login(*v),
{
    let kind = status_kind(v);
    if kind == 1 {
        let token = str_field(v, "login_token");
        let msg = str_field(v, "message");
        match (token, msg) {
            (Some(t), Some(m)) => Some(
                LoginResponse::Success {
                    success: LoginResponseType::WithToken { login_token: t, message: m },
                },
            ),
            (token_or_none, msg_or_none) => {
                let email = str_field(v, "email");
                match (email, msg_or_none) {
                    (Some(e), Some(m)) => Some(
                        LoginResponse::Success {
                            success: LoginResponseType::NeedCode { email: e, message: m },
                        },
                    ),
                    _ => None,
                }
            },
        }
    } else if kind == 2 {
        match str_field(v, "message") {
            Some(m) => Some(LoginResponse::Error { message: m }),
            None => None,
        }
    } else {
        None
    }
}

/// Reads `v` as a verification envelope.
pub fn classify_verify(v: &JsonValue) -> (r: Option<VerifyResponse>)
    ensures
        r == spec_classify_verify(*v),
{
    let kind = status_kind(v);
    if kind == 1 {
        let token = match str_field(v, "login_token") {
            Some(t) => t,
            None => {
                return None;
            },
        };
        match v.get("message") {
            None => Some(VerifyResponse::Success { login_token: token, message: None }),
            Some(mv) => match mv {
                JsonValue::Null => Some(
                    VerifyResponse::Success { login_token: token, message: None },
                ),
                JsonValue::Str(m) => Some(
                    VerifyResponse::Success { login_token: token, message: Some(m.clone()) },
                ),
                _ => None,
            },
        }
    } else if kind == 2 {
        match str_field(v, "message") {
            Some(m) => Some(VerifyResponse::Error { message: m }),
            None => None,
        }
    } else {
        None
    }
}

/// Reads a success payload as an inbox page.
pub fn decode_inbox(data: JsonValue) -> (r: Option<InboxData>)
    ensures
        r == spec_inbox_of(data),
{
    let total: Option<u64> = match data.get("total_results") {
        Some(t) => t.as_u64(),
        None => None,
    };
    let total32: u32 = match total {
        Some(n) => if n <= u32::MAX as u64 {
            n as u32
        } else {
            return None;
        },
        None => {
            return None;
        },
    };
    let cursor: Option<String> = match data.get("next_cursor") {
        None => None,
        Some(cv) => match cv {
            JsonValue::Null => None,
            JsonValue::Str(s) => Some(s.clone()),
            _ => {
                return None;
            },
        },
    };
    match data.into_field("conversations") {
        Some(JsonValue::Array(convs)) => Some(
            InboxData { conversations: convs, total_results: total32, next_cursor: cursor },
        ),
        _ => None,
    }
}

/// What decoding the body of a fetch reply yields: the success payload, the
/// upstream's error, a session-expiry signal, or the undecodable body kept
/// verbatim. A 403 status is the expiry signal and pre-empts any decode.
pub open spec fn spec_fetch_outcome(p: Option<JsonValue>, status: u16, body: String) -> Result<
    JsonValue,
    RequestError,
> {
    if status == 403 {
        Err(RequestError::Http(HttpError { status: Some(403u16), message: body }))
    } else {
        match p {
            None => Err(RequestError::ParseError { status, body }),
            Some(v) => match spec_classify_fetch(v) {
                Some(FetchResponse::Success { data }) => Ok(data),
                Some(FetchResponse::Error { message }) => Err(RequestError::Api(message)),
                None => Err(RequestError::ParseError { status, body }),
            },
        }
    }
}

/// Turns an already-parsed fetch reply into its outcome.
pub fn fetch_outcome(parsed: Option<JsonValue>, status: u16, body: String) -> (r: Result<
    JsonValue,
    RequestError,
>)
    ensures
        r == spec_fetch_outcome(parsed, status, body),
{
    if status == 403 {
        return Err(RequestError::Http(HttpError { status: Some(403), message: body }));
    }
    match parsed {
        None => Err(RequestError::ParseError { status, body }),
        Some(v) => match classify_fetch(v) {
            Some(FetchResponse::Success { data }) => Ok(data),
            Some(FetchResponse::Error { message }) => Err(RequestError::Api(message)),
            None => Err(RequestError::ParseError { status, body }),
        },
    }
}

/// Decodes the body of a fetch reply: parses it and reads the envelope.
pub fn decode_fetch(status: u16, body: String) -> (r: Result<JsonValue, RequestError>)
    ensures
        r == spec_fetch_outcome(crate::json::parsed_json(body@), status, body),
{
    let parsed = crate::json::parse_json(body.as_str());
    fetch_outcome(parsed, status, body)
}

/// The endpoints of the upstream API.
#[derive(Clone, Copy, Debug, PartialEq, Eq, Structural)]
pub enum Endpoint {
    Login,
    Verify,
    ProfileInfo,
    CompaniesInfo,
    MessagesConversation,
    NetworkConnections,
    MessagesInbox,
}

pub open spec fn spec_endpoint_path(e: Endpoint) -> Seq<char> {
    match e {
        Endpoint::Login => "/auth/login"@,
        Endpoint::Verify => "/auth/verify"@,
        Endpoint::ProfileInfo => "/profile/info"@,
        Endpoint::CompaniesInfo => "/companies/info"@,
        Endpoint::MessagesConversation => "/messages/conversation"@,
        Endpoint::NetworkConnections => "/network/connections"@,
        Endpoint::MessagesInbox => "/messages/inbox"@,
    }
}

impl Endpoint {
    /// The path of this endpoint under the API base.
    pub fn path(self) -> (r: &'static str)
        ensures
            r@ == spec_endpoint_path(self),
    {
        match self {
            Endpoint::Login => "/auth/login",
            Endpoint::Verify => "/auth/verify",
            Endpoint::ProfileInfo => "/profile/info",
            Endpoint::CompaniesInfo => "/companies/info",
            Endpoint::MessagesConversation => "/messages/conversation",
            Endpoint::NetworkConnections => "/network/connections",
            Endpoint::MessagesInbox => "/messages/inbox",
        }
    }
}

/// The base under which every endpoint lives.
pub open spec fn spec_api_base() -> Seq<char> {
    "https://api.linkupapi.com/v1"@
}

/// The full URL of an endpoint.
pub fn api_url(e: Endpoint) -> (r: String)
    ensures
        r@ == spec_api_base() + spec_endpoint_path(e),
{
    let mut s = String::from_str("https://api.linkupapi.com/v1");
    s.append(e.path());
    s
}

/// Member `e` binds `key` to the string `val`.
pub open spec fn entry_is_str(e: (String, JsonValue), key: Seq<char>, val: Seq<char>) -> bool {
    e.0@ == key && (e.1 matches JsonValue::Str(s) && s@ == val)
}

/// Member `e` binds `key` to the number `val`.
pub open spec fn entry_is_u64(e: (String, JsonValue), key: Seq<char>, val: u64) -> bool {
    e.0@ == key && e.1 == JsonValue::UInt(val)
}

pub open spec fn is_login_request(r: JsonValue, email: Seq<char>, password: Seq<char>) -> bool {
    &&& r matches JsonValue::Object(entries)
    &&& entries@.len() == 3
    &&& entry_is_str(entries@[0], "email"@, email)
    &&& entry_is_str(entries@[1], "password"@, password)
    &&& entry_is_str(entries@[2], "country"@, "US"@)
}

pub open spec fn is_verify_request(r: JsonValue, email: Seq<char>, code: Seq<char>) -> bool {
    &&& r matches JsonValue::Object(entries)
    &&& entries@.len() == 3
    &&& entry_is_str(entries@[0], "email"@, email)
    &&& entry_is_str(entries@[1], "code"@, code)
    &&& entry_is_str(entries@[2], "country"@, "US"@)
}

pub open spec fn is_profile_request(r: JsonValue, url: Seq<char>, token: Seq<char>) -> bool {
    &&& r matches JsonValue::Object(entries)
    &&& entries@.len() == 3
    &&& entry_is_str(entries@[0], "linkedin_url"@, url)
    &&& entry_is_str(entries@[1], "country"@, "US"@)
    &&& entry_is_str(entries@[2], "login_token"@, token)
}

pub open spec fn is_company_request(r: JsonValue, url: Seq<char>, token: Seq<char>) -> bool {
    &&& r matches JsonValue::Object(entries)
    &&& entries@.len() == 3
    &&& entry_is_str(entries@[0], "company_url"@, url)
    &&& entry_is_str(entries@[1], "country"@, "US"@)
    &&& entry_is_str(entries@[2], "login_token"@, token)
}

pub open spec fn is_conversation_request(
    r: JsonValue,
    id: Seq<char>,
    token: Seq<char>,
    start_page: u64,
) -> bool {
    &&& r matches JsonValue::Object(entries)
    &&& entries@.len() == 5
    &&& entry_is_str(entries@[0], "conversation_id"@, id)
    &&& entry_is_str(entries@[1], "login_token"@, token)
    &&& entry_is_str(entries@[2], "country"@, "US"@)
    &&& entry_is_u64(entries@[3], "start_page"@, start_page)
    &&& entry_is_u64(entries@[4], "end_page"@, (start_page + 9) as u64)
}

pub open spec fn is_connections_request(r: JsonValue, token: Seq<char>, start_page: u64) -> bool {
    &&& r matches JsonValue::Object(entries)
    &&& entries@.len() == 4
    &&& entry_is_str(entries@[0], "login_token"@, token)
    &&& entry_is_str(entries@[1], "country"@, "US"@)
    &&& entry_is_u64(entries@[2], "start_page"@, start_page)
    &&& entry_is_u64(entries@[3], "end_page"@, (start_page + 9) as u64)
}

pub open spec fn is_inbox_request(
    r: JsonValue,
    token: Seq<char>,
    cursor: Option<Seq<char>>,
) -> bool {
    &&& r matches JsonValue::Object(entries)
    &&& entry_is_str(entries@[0], "login_token"@, token)
    &&& entry_is_str(entries@[1], "country"@, "US"@)
    &&& entry_is_u64(entries@[2], "total_results"@, 25)
    &&& match cursor {
        None => entries@.len() == 3,
        Some(c) => entries@.len() == 4 && entry_is_str(entries@[3], "next_cursor"@, c),
    }
}

/// The views of an optional cursor.
pub open spec fn spec_opt_view(c: Option<String>) -> Option<Seq<char>> {
    match c {
        Some(s) => Some(s@),
        None => None,
    }
}

/// The body of a login request.
pub fn login_request(email: &String, password: &String) -> (r: JsonValue)
    ensures
        is_login_request(r, email@, password@),
{
    let mut entries: Vec<(String, JsonValue)> = Vec::new();
    entries.push((String::from_str("email"), JsonValue::Str(email.clone())));
    entries.push((String::from_str("password"), JsonValue::Str(password.clone())));
    entries.push((String::from_str("country"), JsonValue::Str(String::from_str("US"))));
    JsonValue::Object(entries)
}

/// The body of a verification request.
pub fn verify_request(email: &String, code: &String) -> (r: JsonValue)
    ensures
        is_verify_request(r, email@, code@),
{
    let mut entries: Vec<(String, JsonValue)> = Vec::new();
    entries.push((String::from_str("email"), JsonValue::Str(email.clone())));
    entries.push((String::from_str("code"), JsonValue::Str(code.clone())));
    entries.push((String::from_str("country"), JsonValue::Str(String::from_str("US"))));
    JsonValue::Object(entries)
}

/// The body of a profile fetch.
pub fn profile_request(linkedin_url: &String, login_token: &String) -> (r: JsonValue)
    ensures
        is_profile_request(r, linkedin_url@, login_token@),
{
    let mut entries: Vec<(String, JsonValue)> = Vec::new();
    entries.push((String::from_str("linkedin_url"), JsonValue::Str(linkedin_url.clone())));
    entries.push((String::from_str("country"), JsonValue::Str(String::from_str("US"))));
    entries.push((String::from_str("login_token"), JsonValue::Str(login_token.clone())));
    JsonValue::Object(entries)
}

/// The body of a company fetch.
pub fn company_request(company_url: &String, login_token: &String) -> (r: JsonValue)
    ensures
        is_company_request(r, company_url@, login_token@),
{
    let mut entries: Vec<(String, JsonValue)> = Vec::new();
    entries.push((String::from_str("company_url"), JsonValue::Str(company_url.clone())));
    entries.push((String::from_str("country"), JsonValue::Str(String::from_str("US"))));
    entries.push((String::from_str("login_token"), JsonValue::Str(login_token.clone())));
    JsonValue::Object(entries)
}

/// The body of one conversation-message window, pages
/// `start_page ..= start_page + 9`.
pub fn conversation_request(
    conversation_id: &String,
    login_token: &String,
    start_page: u64,
) -> (r: JsonValue)
    requires
        start_page <= u64::MAX - 9,
    ensures
        is_conversation_request(r, conversation_id@, login_token@, start_page),
{
    let mut entries: Vec<(String, JsonValue)> = Vec::new();
    entries.push((String::from_str("conversation_id"), JsonValue::Str(conversation_id.clone())));
    entries.push((String::from_str("login_token"), JsonValue::Str(login_token.clone())));
    entries.push((String::from_str("country"), JsonValue::Str(String::from_str("US"))));
    entries.push((String::from_str("start_page"), JsonValue::UInt(start_page)));
    entries.push((String::from_str("end_page"), JsonValue::UInt(start_page + 9)));
    JsonValue::Object(entries)
}

/// The body of one connection-list window, pages
/// `start_page ..= start_page + 9`.
pub fn connections_request(login_token: &String, start_page: u64) -> (r: JsonValue)
    requires
        start_page <= u64::MAX - 9,
    ensures
        is_connections_request(r, login_token@, start_page),
{
    let mut entries: Vec<(String, JsonValue)> = Vec::new();
    entries.push((String::from_str("login_token"), JsonValue::Str(login_token.clone())));
    entries.push((String::from_str("country"), JsonValue::Str(String::from_str("US"))));
    entries.push((String::from_str("start_page"), JsonValue::UInt(start_page)));
    entries.push((String::from_str("end_page"), JsonValue::UInt(start_page + 9)));
    JsonValue::Object(entries)
}

/// The body of one inbox request; carries the cursor of the previous page
/// when there is one. The page size of 25 is a constraint of the upstream
/// API: larger values make it answer with an empty success payload.
pub fn inbox_request(login_token: &String, cursor: &Option<String>) -> (r: JsonValue)
    ensures
        is_inbox_request(r, login_token@, spec_opt_view(*cursor)),
{
    let mut entries: Vec<(String, JsonValue)> = Vec::new();
    entries.push((String::from_str("login_token"), JsonValue::Str(login_token.clone())));
    entries.push((String::from_str("country"), JsonValue::Str(String::from_str("US"))));
    entries.push((String::from_str("total_results"), JsonValue::UInt(25)));
    match cursor {
        Some(c) => {
            entries.push((String::from_str("next_cursor"), JsonValue::Str(c.clone())));
        },
        None => {},
    }
    JsonValue::Object(entries)
}

} // verus!
