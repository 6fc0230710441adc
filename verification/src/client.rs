//! The session client: URL routing and the fetch state machines.
//!
//! `fetch` turns a resource URL into a session: a state machine that names
//! the requests to issue and absorbs the decoded replies, one at a time,
//! until it is finished. The caller owns the transport: it posts each
//! request, decodes the body with the envelope codec, and feeds the success
//! payload back.

use vstd::prelude::*;
use vstd::string::{StringExecFns, StrSliceExecFns};
use crate::api::{
    is_company_request, is_connections_request, is_conversation_request, is_inbox_request,
    is_profile_request, company_request, profile_request, spec_inbox_of, spec_opt_view, Endpoint,
};
use crate::error::FetchError;
use crate::inbox::{cursor_step, finder_step, ConversationFinder, InboxPager};
use crate::json::JsonValue;
use crate::paging::{conn_effect, conv_effect, window_step, ConnectionsPager, ConversationPager};
use crate::strutil::{ends_with_str, find_slash_from, seg_end, starts_with_str};
use crate::urlparse::{parse_url, parsed_url, UrlParts};

verus! {

broadcast use vstd::string::group_string_axioms;

/// The immutable pair behind every authenticated call: the service key sent
/// as a header, and the session token sent in each body.
#[derive(Debug, Clone)]
pub struct Client {
    pub api_key: String,
    pub login_token: String,
}

/// One fetch in progress.
///
/// - `Single`: profile and company lookups; one request, whose success
///   payload is the result, unchanged.
/// - `Thread`: a conversation lookup; first a cursor walk resolving the id
///   fragment taken from the URL, then a window walk over its messages.
/// - `Inbox`: a cursor walk gathering every inbox record.
/// - `Connections`: a window walk gathering the connection list.
pub enum FetchSession {
    Single { endpoint: Endpoint, target: String, result: Option<JsonValue> },
    Thread { url_text: String, finder: ConversationFinder, pager: Option<ConversationPager> },
    Inbox { pager: InboxPager },
    Connections { pager: ConnectionsPager },
}

impl FetchSession {
    /// The shapes a session keeps: a single fetch goes to one of its two
    /// endpoints, and a thread session holds a message pager exactly from
    /// the moment its finder has found the conversation.
    pub open spec fn wf(&self) -> bool {
        match self {
            FetchSession::Single { endpoint, .. } => endpoint == Endpoint::ProfileInfo || endpoint
                == Endpoint::CompaniesInfo,
            FetchSession::Thread { finder, pager, .. } => match pager {
                Some(p) => finder.done && finder.found == Some(p.conversation_id),
                None => finder.found is None,
            },
            _ => true,
        }
    }

    /// Nothing is pending: the result can be taken.
    pub open spec fn spec_finished(&self) -> bool {
        match self {
            FetchSession::Single { result, .. } => result is Some,
            FetchSession::Thread { finder, pager, .. } => match pager {
                Some(p) => p.done,
                None => finder.done && finder.found is None,
            },
            FetchSession::Inbox { pager } => pager.done,
            FetchSession::Connections { pager } => pager.done,
        }
    }

    pub fn finished(&self) -> (r: bool)
        ensures
            r == self.spec_finished(),
    {
        match self {
            FetchSession::Single { result, .. } => result.is_some(),
            FetchSession::Thread { finder, pager, .. } => match pager {
                Some(p) => p.done,
                None => finder.done && finder.found.is_none(),
            },
            FetchSession::Inbox { pager } => pager.done,
            FetchSession::Connections { pager } => pager.done,
        }
    }

    /// The next window fits in the page numbering. This can only be false
    /// after an astronomical number of windows; a driver checks it and gives
    /// up rather than wrap the page counter.
    pub open spec fn spec_can_advance(&self) -> bool {
        match self {
            FetchSession::Thread { pager, .. } => match pager {
                Some(p) => p.start_page <= u64::MAX - 10,
                None => true,
            },
            FetchSession::Connections { pager } => pager.start_page <= u64::MAX - 10,
            _ => true,
        }
    }

    pub fn can_advance(&self) -> (r: bool)
        ensures
            r == self.spec_can_advance(),
    {
        match self {
            FetchSession::Thread { pager, .. } => match pager {
                Some(p) => p.start_page <= u64::MAX - 10,
                None => true,
            },
            FetchSession::Connections { pager } => pager.start_page <= u64::MAX - 10,
            _ => true,
        }
    }

    /// The request this session is waiting to have posted: the endpoint and
    /// the body.
    pub fn next_request(&self, client: &Client) -> (r: (Endpoint, JsonValue))
        requires
            self.wf(),
            !self.spec_finished(),
            self.spec_can_advance(),
        ensures
            match *self {
                FetchSession::Single { endpoint, target, .. } => r.0 == endpoint && (if endpoint
                    == Endpoint::ProfileInfo {
                    is_profile_request(r.1, target@, client.login_token@)
                } else {
                    is_company_request(r.1, target@, client.login_token@)
                }),
                FetchSession::Thread { finder, pager, .. } => match pager {
                    None => r.0 == Endpoint::MessagesInbox && is_inbox_request(
                        r.1,
                        client.login_token@,
                        spec_opt_view(finder.cursor),
                    ),
                    Some(p) => r.0 == Endpoint::MessagesConversation && is_conversation_request(
                        r.1,
                        p.conversation_id@,
                        client.login_token@,
                        p.start_page,
                    ),
                },
                FetchSession::Inbox { pager } => r.0 == Endpoint::MessagesInbox
                    && is_inbox_request(r.1, client.login_token@, spec_opt_view(pager.cursor)),
                FetchSession::Connections { pager } => r.0 == Endpoint::NetworkConnections
                    && is_connections_request(r.1, client.login_token@, pager.start_page),
            },
    {
        match self {
            FetchSession::Single { endpoint, target, .. } => {
                if matches!(endpoint, Endpoint::ProfileInfo) {
                    (Endpoint::ProfileInfo, profile_request(target, &client.login_token))
                } else {
                    (Endpoint::CompaniesInfo, company_request(target, &client.login_token))
                }
            },
            FetchSession::Thread { finder, pager, .. } => match pager {
                None => (Endpoint::MessagesInbox, finder.request(&client.login_token)),
                Some(p) => (Endpoint::MessagesConversation, p.request(&client.login_token)),
            },
            FetchSession::Inbox { pager } => (
                Endpoint::MessagesInbox,
                pager.request(&client.login_token),
            ),
            FetchSession::Connections { pager } => (
                Endpoint::NetworkConnections,
                pager.request(&client.login_token),
            ),
        }
    }

    /// Absorbs the success payload of the pending request. A payload of an
    /// unexpected shape never fails a run: the cursor walks end silently on
    /// one, keeping what they gathered, as the window walks do.
    pub fn advance(&mut self, data: JsonValue)
        requires
            old(self).wf(),
            !old(self).spec_finished(),
            old(self).spec_can_advance(),
        ensures
            final(self).wf(),
            match *old(self) {
                FetchSession::Single { endpoint, target, .. } => *final(self)
                    == (FetchSession::Single { endpoint, target, result: Some(data) }),
                FetchSession::Thread { url_text, finder, pager } => match pager {
                    None => match spec_inbox_of(data) {
                        None => (*final(self)) matches FetchSession::Thread {
                            url_text: u2,
                            finder: nf,
                            pager: p2,
                        } && u2 == url_text && nf.fragment == finder.fragment && nf.found
                            == finder.found && nf.cursor == finder.cursor && nf.done
                            && p2 is None,
                        Some(page) => {
                            let f2 = finder_step(finder.model(), finder.fragment@, page);
                            (*final(self)) matches FetchSession::Thread {
                                url_text: u2,
                                finder: nf,
                                pager: p2,
                            } && u2 == url_text && nf.fragment == finder.fragment && nf.model()
                                == f2 && (match f2.found {
                                Some(id) => p2 matches Some(np) && np.conversation_id == id
                                    && np.start_page == 1 && np.messages@
                                    == Seq::<JsonValue>::empty() && !np.done,
                                None => p2 is None,
                            })
                        },
                    },
                    Some(p) => (*final(self)) matches FetchSession::Thread {
                        url_text: u2,
                        finder: nf,
                        pager: p2,
                    } && u2 == url_text && nf == finder && (p2 matches Some(np)
                        && np.conversation_id == p.conversation_id && np.model() == window_step(
                        p.model(),
                        conv_effect(data),
                    )),
                },
                FetchSession::Inbox { pager } => match spec_inbox_of(data) {
                    None => (*final(self)) matches FetchSession::Inbox { pager: p2 }
                        && p2.conversations@ == pager.conversations@ && p2.cursor == pager.cursor
                        && p2.done,
                    Some(page) => (*final(self)) matches FetchSession::Inbox { pager: p2 }
                        && p2.model() == cursor_step(pager.model(), page),
                },
                FetchSession::Connections { pager } => (*final(self))
                    matches FetchSession::Connections { pager: p2 } && p2.model() == window_step(
                    pager.model(),
                    conn_effect(data),
                ),
            },
    {
        match self {
            FetchSession::Single { result, .. } => {
                *result = Some(data);
            },
            FetchSession::Thread { finder, pager, .. } => match pager {
                None => {
                    finder.feed(data);
                    if finder.done {
                        match &finder.found {
                            Some(id) => {
                                *pager = Some(ConversationPager::new(id.clone()));
                            },
                            None => {},
                        }
                    }
                },
                Some(p) => {
                    p.feed(data);
                },
            },
            FetchSession::Inbox { pager } => {
                pager.feed(data);
            },
            FetchSession::Connections { pager } => {
                pager.feed(data);
            },
        }
    }

    /// The outcome of a finished session: the one-shot payload unchanged, or
    /// the gathered items as an array, or, for a thread whose id was never
    /// found, the unknown-resource error carrying the URL.
    pub fn take_result(self) -> (r: Result<JsonValue, FetchError>)
        requires
            self.spec_finished(),
        ensures
            match self {
                FetchSession::Single { result, .. } => result matches Some(d) && r == Ok::<
                    JsonValue,
                    FetchError,
                >(d),
                FetchSession::Thread { url_text, finder, pager } => match pager {
                    Some(p) => r == Ok::<JsonValue, FetchError>(JsonValue::Array(p.messages)),
                    None => r == Err::<JsonValue, FetchError>(
                        FetchError::UnknownResource(url_text),
                    ),
                },
                FetchSession::Inbox { pager } => r == Ok::<JsonValue, FetchError>(
                    JsonValue::Array(pager.conversations),
                ),
                FetchSession::Connections { pager } => r == Ok::<JsonValue, FetchError>(
                    JsonValue::Array(pager.connections),
                ),
            },
    {
        match self {
            FetchSession::Single { result, .. } => match result {
                Some(d) => Ok(d),
                None => {
                    proof {
                        assert(false);
                    }
                    Err(FetchError::UnknownResource(String::new()))
                },
            },
            FetchSession::Thread { url_text, finder, pager } => match pager {
                Some(p) => Ok(JsonValue::Array(p.messages)),
                None => Err(FetchError::UnknownResource(url_text)),
            },
            FetchSession::Inbox { pager } => Ok(JsonValue::Array(pager.conversations)),
            FetchSession::Connections { pager } => Ok(JsonValue::Array(pager.connections)),
        }
    }
}

/// The host belongs to the supported domain.
pub open spec fn spec_host_ok(parts: UrlParts) -> bool {
    parts.host matches Some(h) && "linkedin.com"@.is_suffix_of(h@)
}

/// The conversation-id fragment of a thread path: what stands between the
/// thread prefix and the next slash, or the path's end.
pub open spec fn spec_conv_fragment(path: Seq<char>) -> Seq<char> {
    path.subrange(
        "/messaging/thread/"@.len() as int,
        seg_end(path, "/messaging/thread/"@.len() as int),
    )
}

/// How a parsed URL routes, in precedence order: a host outside the domain
/// is unknown; then the profile, company, thread, inbox and connections
/// path prefixes each open their session; anything else is unknown.
pub open spec fn is_route(r: Result<FetchSession, FetchError>, parts: UrlParts) -> bool {
    if !spec_host_ok(parts) {
        r == Err::<FetchSession, FetchError>(FetchError::UnknownResource(parts.text))
    } else if "/in/"@.is_prefix_of(parts.path@) {
        r matches Ok(FetchSession::Single { endpoint, target, result }) && endpoint
            == Endpoint::ProfileInfo && target == parts.text && result is None
    } else if "/company/"@.is_prefix_of(parts.path@) {
        r matches Ok(FetchSession::Single { endpoint, target, result }) && endpoint
            == Endpoint::CompaniesInfo && target == parts.text && result is None
    } else if "/messaging/thread/"@.is_prefix_of(parts.path@) {
        r matches Ok(FetchSession::Thread { url_text, finder, pager }) && url_text == parts.text
            && finder.fragment@ == spec_conv_fragment(parts.path@) && finder.cursor is None
            && finder.found is None && !finder.done && pager is None
    } else if "/messaging"@.is_prefix_of(parts.path@) {
        r matches Ok(FetchSession::Inbox { pager }) && pager.conversations@
            == Seq::<JsonValue>::empty() && pager.cursor is None && !pager.done
    } else if "/mynetwork/invite-connect/connections"@.is_prefix_of(parts.path@) {
        r matches Ok(FetchSession::Connections { pager }) && pager.connections@
            == Seq::<JsonValue>::empty() && pager.start_page == 1 && !pager.done
    } else {
        r == Err::<FetchSession, FetchError>(FetchError::UnknownResource(parts.text))
    }
}

/// Routes a parsed URL to its session.
pub fn route_parts(parts: UrlParts) -> (r: Result<FetchSession, FetchError>)
    ensures
        is_route(r, parts),
        r matches Ok(s) ==> s.wf() && !s.spec_finished() && s.spec_can_advance(),
{
    let UrlParts { host, path, text } = parts;
    let host_ok = match &host {
        Some(h) => ends_with_str(h.as_str(), "linkedin.com"),
        None => false,
    };
    if !host_ok {
        return Err(FetchError::UnknownResource(text));
    }
    if starts_with_str(path.as_str(), "/in/") {
        return Ok(
            FetchSession::Single { endpoint: Endpoint::ProfileInfo, target: text, result: None },
        );
    }
    if starts_with_str(path.as_str(), "/company/") {
        return Ok(
            FetchSession::Single { endpoint: Endpoint::CompaniesInfo, target: text, result: None },
        );
    }
    if starts_with_str(path.as_str(), "/messaging/thread/") {
        proof {
            reveal_strlit("/messaging/thread/");
            assert("/messaging/thread/"@.len() == 18);
        }
        let end = find_slash_from(path.as_str(), 18);
        let frag = path.as_str().substring_char(18, end);
        let fragment = String::from_str(frag);
        return Ok(
            FetchSession::Thread {
                url_text: text,
                finder: ConversationFinder::new(fragment),
                pager: None,
            },
        );
    }
    if starts_with_str(path.as_str(), "/messaging") {
        return Ok(FetchSession::Inbox { pager: InboxPager::new() });
    }
    if starts_with_str(path.as_str(), "/mynetwork/invite-connect/connections") {
        return Ok(FetchSession::Connections { pager: ConnectionsPager::new() });
    }
    Err(FetchError::UnknownResource(text))
}

/// Law: a profile or company URL opens a one-shot session. The routed
/// session is the unfinished single fetch of that endpoint, aimed at the
/// URL's normalized text; and once it holds a payload — which `advance`
/// installs unchanged, and `take_result` returns unchanged — it is
/// finished, so no second request can be asked of it.
pub proof fn lemma_single_fetch_one_round(parts: UrlParts, s: FetchSession, data: JsonValue)
    requires
        spec_host_ok(parts),
        "/in/"@.is_prefix_of(parts.path@) || "/company/"@.is_prefix_of(parts.path@),
        is_route(Ok(s), parts),
    ensures
        s matches FetchSession::Single { endpoint, target, result } && (endpoint
            == Endpoint::ProfileInfo || endpoint == Endpoint::CompaniesInfo) && target
            == parts.text && result is None,
        !s.spec_finished(),
        forall|endpoint: Endpoint, target: String|
            #[trigger] (FetchSession::Single { endpoint, target, result: Some(data) })
                .spec_finished(),
{
}

impl Client {
    pub fn new(api_key: String, login_token: String) -> (r: Self)
        ensures
            r.api_key == api_key,
            r.login_token == login_token,
    {
        Client { api_key, login_token }
    }

    /// Opens the session for a resource URL: a URL that does not parse is
    /// invalid, one off the supported host or paths is unknown, and any
    /// other routes by its path prefix.
    pub fn fetch(&self, url: &str) -> (r: Result<FetchSession, FetchError>)
        ensures
            match parsed_url(url@) {
                Err(m) => r == Err::<FetchSession, FetchError>(FetchError::InvalidUrl(m)),
                Ok(parts) => is_route(r, parts) && (r matches Ok(s) ==> s.wf()
                    && !s.spec_finished() && s.spec_can_advance()),
            },
    {
        match parse_url(url) {
            Err(m) => Err(FetchError::InvalidUrl(m)),
            Ok(parts) => route_parts(parts),
        }
    }
}

} // verus!
