use linkup::api::{
    api_url, classify_fetch, classify_login, decode_fetch, decode_inbox, Endpoint, FetchResponse,
    LoginResponse, LoginResponseType,
};
use linkup::auth::{login, verify};
use linkup::strutil::{contains_str, ends_with_str, starts_with_str, str_eq};
use linkup::{JsonValue, LoginError, LoginResult, RequestError, VerifyError};

fn obj(entries: Vec<(&str, JsonValue)>) -> JsonValue {
    JsonValue::Object(entries.into_iter().map(|(k, v)| (String::from(k), v)).collect())
}

fn s(text: &str) -> JsonValue {
    JsonValue::Str(String::from(text))
}

#[test]
fn error_envelope_carries_message_verbatim() {
    let r = decode_fetch(200, String::from("{\"status\":\"error\",\"message\":\"X\"}"));
    match r {
        Err(RequestError::Api(m)) => assert_eq!(m, "X"),
        other => panic!("expected the upstream error, got {:?}", other),
    }
}

#[test]
fn error_envelope_for_login_and_verify() {
    let r = login(200, String::from("{\"status\":\"error\",\"message\":\"bad password\"}"));
    assert!(matches!(r, Err(LoginError::Request(RequestError::Api(m))) if m == "bad password"));
    let r = verify(200, String::from("{\"status\":\"error\",\"message\":\"bad code\"}"));
    assert!(matches!(r, Err(VerifyError::Request(RequestError::Api(m))) if m == "bad code"));
}

#[test]
fn invalid_json_keeps_status_and_body() {
    let r = decode_fetch(502, String::from("<html>bad gateway</html>"));
    match r {
        Err(RequestError::ParseError { status, body }) => {
            assert_eq!(status, 502);
            assert_eq!(body, "<html>bad gateway</html>");
        }
        other => panic!("expected a parse failure, got {:?}", other),
    }
}

#[test]
fn unrecognized_status_tag_keeps_status_and_body() {
    let body = "{\"state\":\"done\"}";
    let r = decode_fetch(200, String::from(body));
    match r {
        Err(RequestError::ParseError { status, body: b }) => {
            assert_eq!(status, 200);
            assert_eq!(b, body);
        }
        other => panic!("expected a parse failure, got {:?}", other),
    }
}

#[test]
fn success_without_data_is_a_decode_failure() {
    let body = "{\"status\":\"success\",\"message\":\"ok\"}";
    let r = decode_fetch(200, String::from(body));
    assert!(matches!(r, Err(RequestError::ParseError { status: 200, .. })));
}

#[test]
fn success_envelope_hands_data_through() {
    let body = "{\"status\":\"success\",\"data\":{\"name\":\"someone\",\"age\":41}}";
    let r = decode_fetch(200, String::from(body));
    let expected = obj(vec![("age", JsonValue::UInt(41)), ("name", s("someone"))]);
    assert_eq!(r, Ok(expected));
}

#[test]
fn forbidden_status_preempts_decoding() {
    let r = decode_fetch(403, String::from("{\"status\":\"success\",\"data\":{}}"));
    match r {
        Err(RequestError::Http(h)) => assert_eq!(h.status, Some(403)),
        other => panic!("expected a transport expiry, got {:?}", other),
    }
}

#[test]
fn login_with_token_wins_over_need_code() {
    let body = "{\"status\":\"success\",\"login_token\":\"tok\",\"message\":\"ok\",\"email\":\"e@x\"}";
    let r = login(200, String::from(body));
    assert!(matches!(r, Ok(LoginResult::GotToken { login_token }) if login_token == "tok"));
}

#[test]
fn login_without_token_needs_code() {
    let body = "{\"status\":\"success\",\"message\":\"check your email\",\"email\":\"e@x\"}";
    let r = login(200, String::from(body));
    assert!(matches!(r, Ok(LoginResult::NeedCode { message }) if message == "check your email"));
}

#[test]
fn login_classifier_is_strict() {
    let v = obj(vec![("status", s("success")), ("message", s("alone"))]);
    assert_eq!(classify_login(&v), None);
    let v = obj(vec![
        ("status", s("success")),
        ("login_token", s("t")),
        ("message", s("m")),
    ]);
    assert_eq!(
        classify_login(&v),
        Some(LoginResponse::Success {
            success: LoginResponseType::WithToken {
                login_token: String::from("t"),
                message: String::from("m"),
            }
        })
    );
}

#[test]
fn verify_returns_the_token() {
    let body = "{\"status\":\"success\",\"login_token\":\"fresh\"}";
    assert_eq!(verify(200, String::from(body)), Ok(String::from("fresh")));
    let body = "{\"status\":\"success\",\"login_token\":\"fresh\",\"message\":null}";
    assert_eq!(verify(200, String::from(body)), Ok(String::from("fresh")));
}

#[test]
fn classify_fetch_reads_both_tags() {
    let v = obj(vec![("status", s("error")), ("message", s("oops"))]);
    assert_eq!(
        classify_fetch(v),
        Some(FetchResponse::Error { message: String::from("oops") })
    );
    let v = obj(vec![("status", s("partial"))]);
    assert_eq!(classify_fetch(v), None);
}

#[test]
fn inbox_page_decodes_cursor_and_total() {
    let page = obj(vec![
        ("conversations", JsonValue::Array(vec![s("a"), s("b")])),
        ("total_results", JsonValue::UInt(2)),
        ("next_cursor", s("c1")),
    ]);
    let decoded = decode_inbox(page).expect("a well-formed page");
    assert_eq!(decoded.total_results, 2);
    assert_eq!(decoded.next_cursor, Some(String::from("c1")));
    assert_eq!(decoded.conversations, vec![s("a"), s("b")]);

    let page = obj(vec![
        ("conversations", JsonValue::Array(vec![])),
        ("total_results", JsonValue::UInt(0)),
    ]);
    let decoded = decode_inbox(page).expect("a well-formed last page");
    assert_eq!(decoded.next_cursor, None);

    let malformed = obj(vec![("conversations", s("not an array"))]);
    assert_eq!(decode_inbox(malformed), None);
}

#[test]
fn endpoint_urls_live_under_the_api_base() {
    assert_eq!(api_url(Endpoint::Login), "https://api.linkupapi.com/v1/auth/login");
    assert_eq!(api_url(Endpoint::ProfileInfo), "https://api.linkupapi.com/v1/profile/info");
    assert_eq!(
        api_url(Endpoint::MessagesConversation),
        "https://api.linkupapi.com/v1/messages/conversation"
    );
}

#[test]
fn numbers_keep_their_shapes() {
    let body = "{\"status\":\"success\",\"data\":{\"big\":18446744073709551615,\"neg\":-3}}";
    let r = decode_fetch(200, String::from(body)).expect("decodes");
    let expected = obj(vec![
        ("big", JsonValue::UInt(u64::MAX)),
        ("neg", JsonValue::Int(-3)),
    ]);
    assert_eq!(r, expected);
}

#[test]
fn login_and_verify_requests_carry_the_fixed_country() {
    let body = linkup::api::login_request(&String::from("e@x"), &String::from("pw"));
    match &body {
        JsonValue::Object(entries) => {
            assert_eq!(entries[0], (String::from("email"), s("e@x")));
            assert_eq!(entries[1], (String::from("password"), s("pw")));
            assert_eq!(entries[2], (String::from("country"), s("US")));
        }
        other => panic!("expected an object, got {:?}", other),
    }
    let body = linkup::api::verify_request(&String::from("e@x"), &String::from("123456"));
    match &body {
        JsonValue::Object(entries) => {
            assert_eq!(entries[1], (String::from("code"), s("123456")));
            assert_eq!(entries[2], (String::from("country"), s("US")));
        }
        other => panic!("expected an object, got {:?}", other),
    }
}

#[test]
fn string_helpers_match_their_specifications() {
    assert!(starts_with_str("/in/someone", "/in/"));
    assert!(!starts_with_str("/index", "/in/"));
    assert!(ends_with_str("www.linkedin.com", "linkedin.com"));
    assert!(!ends_with_str("linkedin.com.evil", "linkedin.com"));
    assert!(contains_str("zz-abc-yy", "abc"));
    assert!(!contains_str("zz-ab-yy", "abc"));
    assert!(contains_str("anything", ""));
    assert!(str_eq("same", "same"));
    assert!(!str_eq("same", "sane"));
}
