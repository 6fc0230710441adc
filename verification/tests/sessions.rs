use linkup::api::Endpoint;
use linkup::paging::{ConnectionsPager, ConversationPager};
use linkup::refresh::RefreshPolicy;
use linkup::{Client, FetchError, JsonValue, RequestError};

fn obj(entries: Vec<(&str, JsonValue)>) -> JsonValue {
    JsonValue::Object(entries.into_iter().map(|(k, v)| (String::from(k), v)).collect())
}

fn s(text: &str) -> JsonValue {
    JsonValue::Str(String::from(text))
}

fn client() -> Client {
    Client::new(String::from("key"), String::from("tok"))
}

fn field(body: &JsonValue, key: &str) -> JsonValue {
    match body.get(key) {
        Some(JsonValue::Str(v)) => s(v.as_str()),
        Some(JsonValue::UInt(n)) => JsonValue::UInt(*n),
        Some(_) => panic!("field {} has an unexpected shape", key),
        None => panic!("field {} is missing", key),
    }
}

fn inbox_page(ids: Vec<&str>, cursor: Option<&str>) -> JsonValue {
    let records: Vec<JsonValue> = ids
        .into_iter()
        .map(|id| obj(vec![("conversation_id", s(id))]))
        .collect();
    let mut entries = vec![
        ("conversations", JsonValue::Array(records)),
        ("total_results", JsonValue::UInt(25)),
    ];
    if let Some(c) = cursor {
        entries.push(("next_cursor", s(c)));
    }
    obj(entries)
}

#[test]
fn profile_fetch_issues_one_request_and_returns_data_unmodified() {
    let c = client();
    let mut session = c.fetch("https://www.linkedin.com/in/someone").expect("routes");
    assert!(!session.finished());
    let (endpoint, body) = session.next_request(&c);
    assert_eq!(endpoint, Endpoint::ProfileInfo);
    assert_eq!(field(&body, "linkedin_url"), s("https://www.linkedin.com/in/someone"));
    assert_eq!(field(&body, "country"), s("US"));
    assert_eq!(field(&body, "login_token"), s("tok"));
    let data = obj(vec![("name", s("someone")), ("headline", s("engineer"))]);
    let expected = obj(vec![("name", s("someone")), ("headline", s("engineer"))]);
    session.advance(data);
    assert!(session.finished());
    assert_eq!(session.take_result(), Ok(expected));
}

#[test]
fn company_fetch_uses_the_company_endpoint() {
    let c = client();
    let mut session = c.fetch("https://www.linkedin.com/company/acme").expect("routes");
    let (endpoint, body) = session.next_request(&c);
    assert_eq!(endpoint, Endpoint::CompaniesInfo);
    assert_eq!(field(&body, "company_url"), s("https://www.linkedin.com/company/acme"));
    let data = obj(vec![("name", s("acme"))]);
    session.advance(data);
    assert_eq!(session.take_result(), Ok(obj(vec![("name", s("acme"))])));
}

#[test]
fn wrong_host_is_unknown() {
    let c = client();
    let r = c.fetch("https://example.com/in/someone");
    assert!(matches!(r, Err(FetchError::UnknownResource(u)) if u.contains("example.com")));
}

#[test]
fn unknown_path_is_unknown() {
    let c = client();
    let r = c.fetch("https://www.linkedin.com/unknown/path");
    assert!(matches!(r, Err(FetchError::UnknownResource(_))));
}

#[test]
fn bad_url_is_invalid() {
    let c = client();
    let r = c.fetch("not a url");
    assert!(matches!(r, Err(FetchError::InvalidUrl(_))));
}

#[test]
fn messaging_routes_to_the_inbox_not_a_thread() {
    let c = client();
    let session = c.fetch("https://www.linkedin.com/messaging").expect("routes");
    let (endpoint, body) = session.next_request(&c);
    assert_eq!(endpoint, Endpoint::MessagesInbox);
    assert_eq!(field(&body, "total_results"), JsonValue::UInt(25));
    assert!(body.get("next_cursor").is_none());
}

#[test]
fn inbox_cursor_walk_gathers_all_records_in_order() {
    let c = client();
    let mut session = c.fetch("https://www.linkedin.com/messaging").expect("routes");
    let pages = vec![
        (inbox_page(vec!["r1"], Some("c1")), Some("c1")),
        (inbox_page(vec!["r2"], Some("c2")), Some("c2")),
        (inbox_page(vec!["r3"], Some("c3")), Some("c3")),
        (inbox_page(vec!["r4"], None), None),
    ];
    let mut expected_cursor: Option<String> = None;
    for (page, next) in pages {
        assert!(!session.finished());
        let (endpoint, body) = session.next_request(&c);
        assert_eq!(endpoint, Endpoint::MessagesInbox);
        match &expected_cursor {
            Some(cur) => assert_eq!(field(&body, "next_cursor"), s(cur)),
            None => assert!(body.get("next_cursor").is_none()),
        }
        session.advance(page);
        expected_cursor = next.map(String::from);
    }
    assert!(session.finished());
    let r = session.take_result().expect("records");
    let expected = JsonValue::Array(vec![
        obj(vec![("conversation_id", s("r1"))]),
        obj(vec![("conversation_id", s("r2"))]),
        obj(vec![("conversation_id", s("r3"))]),
        obj(vec![("conversation_id", s("r4"))]),
    ]);
    assert_eq!(r, expected);
}

#[test]
fn malformed_inbox_page_stops_the_walk_silently() {
    let c = client();
    let mut session = c.fetch("https://www.linkedin.com/messaging").expect("routes");
    session.advance(inbox_page(vec!["r1"], Some("c1")));
    assert!(!session.finished());
    session.advance(obj(vec![("conversations", s("not an array"))]));
    assert!(session.finished());
    assert_eq!(
        session.take_result(),
        Ok(JsonValue::Array(vec![obj(vec![("conversation_id", s("r1"))])]))
    );
}

#[test]
fn malformed_page_during_resolution_reports_not_found() {
    let c = client();
    let mut session = c
        .fetch("https://www.linkedin.com/messaging/thread/abc")
        .expect("routes");
    session.advance(obj(vec![("unrelated", JsonValue::UInt(1))]));
    assert!(session.finished());
    let r = session.take_result();
    assert!(
        matches!(r, Err(FetchError::UnknownResource(u)) if u == "https://www.linkedin.com/messaging/thread/abc")
    );
}

#[test]
fn thread_fetch_resolves_the_id_then_pages_the_messages() {
    let c = client();
    let mut session = c
        .fetch("https://www.linkedin.com/messaging/thread/abc123/rest")
        .expect("routes");

    let (endpoint, body) = session.next_request(&c);
    assert_eq!(endpoint, Endpoint::MessagesInbox);
    assert!(body.get("next_cursor").is_none());
    session.advance(inbox_page(vec!["other-id"], Some("c2")));

    let (endpoint, body) = session.next_request(&c);
    assert_eq!(endpoint, Endpoint::MessagesInbox);
    assert_eq!(field(&body, "next_cursor"), s("c2"));
    session.advance(inbox_page(vec!["zz-abc123-yy", "abc123-too"], None));

    // The match came on the second page; the walk does not continue past it.
    let (endpoint, body) = session.next_request(&c);
    assert_eq!(endpoint, Endpoint::MessagesConversation);
    assert_eq!(field(&body, "conversation_id"), s("zz-abc123-yy"));
    assert_eq!(field(&body, "start_page"), JsonValue::UInt(1));
    assert_eq!(field(&body, "end_page"), JsonValue::UInt(10));

    let window = obj(vec![
        ("messages", JsonValue::Array(vec![s("m1"), s("m2")])),
        ("pagination", obj(vec![("messages_per_page", JsonValue::UInt(2))])),
    ]);
    session.advance(window);
    assert!(!session.finished());

    let (_, body) = session.next_request(&c);
    assert_eq!(field(&body, "start_page"), JsonValue::UInt(11));
    assert_eq!(field(&body, "end_page"), JsonValue::UInt(20));
    let last = obj(vec![
        ("messages", JsonValue::Array(vec![s("m3")])),
        ("pagination", obj(vec![("messages_per_page", JsonValue::UInt(2))])),
    ]);
    session.advance(last);
    assert!(session.finished());
    assert_eq!(
        session.take_result(),
        Ok(JsonValue::Array(vec![s("m1"), s("m2"), s("m3")]))
    );
}

#[test]
fn thread_without_match_is_unknown() {
    let c = client();
    let mut session = c
        .fetch("https://www.linkedin.com/messaging/thread/nope")
        .expect("routes");
    session.advance(inbox_page(vec!["other"], None));
    assert!(session.finished());
    let r = session.take_result();
    assert!(
        matches!(r, Err(FetchError::UnknownResource(u)) if u == "https://www.linkedin.com/messaging/thread/nope")
    );
}

#[test]
fn conversation_window_stops_silently_on_a_malformed_window() {
    let mut pager = ConversationPager::new(String::from("id-1"));
    let window = obj(vec![
        ("messages", JsonValue::Array(vec![s("m1"), s("m2"), s("m3")])),
        ("pagination", obj(vec![("messages_per_page", JsonValue::UInt(3))])),
    ]);
    pager.feed(window);
    assert!(!pager.done);
    assert_eq!(pager.start_page, 11);
    pager.feed(obj(vec![("unrelated", JsonValue::UInt(1))]));
    assert!(pager.done);
    assert_eq!(pager.messages, vec![s("m1"), s("m2"), s("m3")]);
}

#[test]
fn connections_stop_on_empty_window_or_zero_total() {
    let c = client();
    let mut session = c
        .fetch("https://www.linkedin.com/mynetwork/invite-connect/connections")
        .expect("routes");
    let (endpoint, body) = session.next_request(&c);
    assert_eq!(endpoint, Endpoint::NetworkConnections);
    assert_eq!(field(&body, "start_page"), JsonValue::UInt(1));
    let page = obj(vec![
        ("connections", JsonValue::Array(vec![s("c1"), s("c2")])),
        ("total_results", JsonValue::UInt(2)),
    ]);
    session.advance(page);
    assert!(!session.finished());
    let empty = obj(vec![
        ("connections", JsonValue::Array(vec![])),
        ("total_results", JsonValue::UInt(2)),
    ]);
    session.advance(empty);
    assert!(session.finished());
    assert_eq!(
        session.take_result(),
        Ok(JsonValue::Array(vec![s("c1"), s("c2")]))
    );

    let mut pager = ConnectionsPager::new();
    let zero_total = obj(vec![
        ("connections", JsonValue::Array(vec![s("c9")])),
        ("total_results", JsonValue::UInt(0)),
    ]);
    pager.feed(zero_total);
    assert!(pager.done);
    assert!(pager.connections.is_empty());
}

#[test]
fn a_403_earns_exactly_one_retry() {
    let expired = match linkup::api::decode_fetch(403, String::from("denied")) {
        Err(e) => FetchError::Request(e),
        Ok(_) => panic!("a 403 cannot succeed"),
    };
    let mut policy = RefreshPolicy::new();
    assert!(policy.on_failure(&expired));
    assert!(!policy.on_failure(&expired));

    let mut policy = RefreshPolicy::new();
    let ordinary = FetchError::Request(RequestError::Api(String::from("nope")));
    assert!(!policy.on_failure(&ordinary));
    assert!(policy.on_failure(&expired));
}

#[test]
fn finder_skips_records_without_a_string_id() {
    let c = client();
    let mut session = c
        .fetch("https://www.linkedin.com/messaging/thread/abc")
        .expect("routes");
    let page = obj(vec![
        (
            "conversations",
            JsonValue::Array(vec![
                obj(vec![("unrelated", JsonValue::UInt(1))]),
                obj(vec![("conversation_id", JsonValue::UInt(7))]),
                obj(vec![("conversation_id", s("has-abc-in-it"))]),
            ]),
        ),
        ("total_results", JsonValue::UInt(25)),
    ]);
    session.advance(page);
    let (endpoint, body) = session.next_request(&c);
    assert_eq!(endpoint, Endpoint::MessagesConversation);
    assert_eq!(field(&body, "conversation_id"), s("has-abc-in-it"));
}
