//! Page-window pagination: conversation messages and the connection list.
//!
//! A window run starts at page 1, requests pages `start ..= start + 9`,
//! appends what comes back, and advances by 10 until a window signals the
//! end. A malformed window (one without the expected members) stops the run
//! silently: the items gathered so far are preferred over a hard failure.

use vstd::prelude::*;
use crate::api::{
    connections_request, conversation_request, is_connections_request, is_conversation_request,
};
use crate::json::{spec_as_u64, spec_get, JsonValue};

verus! {

/// What one window does to a run: the items it contributes and whether it
/// ends the run.
pub struct PageEffect {
    pub items: Seq<JsonValue>,
    pub stop: bool,
}

/// The state of a window run: what it has gathered, the first page of the
/// pending window, and whether it has stopped.
pub struct WindowModel {
    pub items: Seq<JsonValue>,
    pub start_page: int,
    pub done: bool,
}

/// One window applied to a run; a stopped run is left as it is.
pub open spec fn window_step(m: WindowModel, e: PageEffect) -> WindowModel {
    if m.done {
        m
    } else {
        WindowModel {
            items: m.items + e.items,
            start_page: if e.stop {
                m.start_page
            } else {
                m.start_page + 10
            },
            done: e.stop,
        }
    }
}

/// A whole run: the windows applied in order.
pub open spec fn window_run(m: WindowModel, es: Seq<PageEffect>) -> WindowModel
    decreases es.len(),
{
    if es.len() == 0 {
        m
    } else {
        window_run(window_step(m, es[0]), es.drop_first())
    }
}

/// The items of one conversation window: its `messages` array, empty when
/// the array is absent.
pub open spec fn conv_items(data: JsonValue) -> Seq<JsonValue> {
    match spec_get(data, "messages"@) {
        Some(JsonValue::Array(v)) => v@,
        _ => Seq::empty(),
    }
}

/// The page size a conversation window declares, when it declares one.
pub open spec fn conv_per_page(data: JsonValue) -> Option<u64> {
    match spec_get(data, "pagination"@) {
        Some(p) => match spec_get(p, "messages_per_page"@) {
            Some(JsonValue::UInt(n)) => Some(n),
            _ => None,
        },
        _ => None,
    }
}

/// A conversation window ends the run when its array is absent, when no
/// page size is declared, or when it holds fewer items than one page.
pub open spec fn conv_stop(data: JsonValue) -> bool {
    match spec_get(data, "messages"@) {
        Some(JsonValue::Array(v)) => match conv_per_page(data) {
            Some(pp) => (v@.len() as int) < pp as int,
            None => true,
        },
        _ => true,
    }
}

pub open spec fn conv_effect(data: JsonValue) -> PageEffect {
    PageEffect { items: conv_items(data), stop: conv_stop(data) }
}

/// The `connections` array of a window, when there is one.
pub open spec fn conn_array(data: JsonValue) -> Option<Seq<JsonValue>> {
    match spec_get(data, "connections"@) {
        Some(JsonValue::Array(v)) => Some(v@),
        _ => None,
    }
}

/// The window declares a total of zero results.
pub open spec fn conn_total_is_zero(data: JsonValue) -> bool {
    match spec_get(data, "total_results"@) {
        Some(t) => spec_as_u64(t) == Some(0u64),
        None => false,
    }
}

/// A connection window ends the run when its array is absent or empty, or
/// when the declared total is zero; such a window contributes nothing.
pub open spec fn conn_stop(data: JsonValue) -> bool {
    match conn_array(data) {
        Some(v) => v.len() == 0 || conn_total_is_zero(data),
        None => true,
    }
}

pub open spec fn conn_items(data: JsonValue) -> Seq<JsonValue> {
    match conn_array(data) {
        Some(v) => if conn_stop(data) {
            Seq::empty()
        } else {
            v
        },
        None => Seq::empty(),
    }
}

pub open spec fn conn_effect(data: JsonValue) -> PageEffect {
    PageEffect { items: conn_items(data), stop: conn_stop(data) }
}

/// Gathers the messages of one conversation, window by window.
pub struct ConversationPager {
    pub conversation_id: String,
    pub start_page: u64,
    pub messages: Vec<JsonValue>,
    pub done: bool,
}

impl ConversationPager {
    pub open spec fn model(&self) -> WindowModel {
        WindowModel {
            items: self.messages@,
            start_page: self.start_page as int,
            done: self.done,
        }
    }

    pub fn new(conversation_id: String) -> (r: Self)
        ensures
            r.conversation_id == conversation_id,
            r.start_page == 1,
            r.messages@ == Seq::<JsonValue>::empty(),
            !r.done,
    {
        ConversationPager { conversation_id, start_page: 1, messages: Vec::new(), done: false }
    }

    /// The request of the pending window.
    pub fn request(&self, login_token: &String) -> (r: JsonValue)
        requires
            !self.done,
            self.start_page <= u64::MAX - 9,
        ensures
            is_conversation_request(r, self.conversation_id@, login_token@, self.start_page),
    {
        conversation_request(&self.conversation_id, login_token, self.start_page)
    }

    /// Feeds the success payload of the pending window.
    pub fn feed(&mut self, data: JsonValue)
        requires
            !old(self).done,
            old(self).start_page <= u64::MAX - 10,
        ensures
            final(self).conversation_id == old(self).conversation_id,
            final(self).model() == window_step(old(self).model(), conv_effect(data)),
    {
        let per_page: Option<u64> = match data.get("pagination") {
            Some(p) => match p.get("messages_per_page") {
                Some(n) => n.as_u64(),
                None => None,
            },
            None => None,
        };
        match data.into_field("messages") {
            Some(JsonValue::Array(mut msgs)) => {
                let count = msgs.len();
                self.messages.append(&mut msgs);
                match per_page {
                    Some(pp) => if (count as u64) >= pp {
                        self.start_page = self.start_page + 10;
                    } else {
                        self.done = true;
                    },
                    None => {
                        self.done = true;
                    },
                }
            },
            _ => {
                self.done = true;
            },
        }
    }
}

/// Gathers the connection list, window by window.
pub struct ConnectionsPager {
    pub start_page: u64,
    pub connections: Vec<JsonValue>,
    pub done: bool,
}

impl ConnectionsPager {
    pub open spec fn model(&self) -> WindowModel {
        WindowModel {
            items: self.connections@,
            start_page: self.start_page as int,
            done: self.done,
        }
    }

    pub fn new() -> (r: Self)
        ensures
            r.start_page == 1,
            r.connections@ == Seq::<JsonValue>::empty(),
            !r.done,
    {
        ConnectionsPager { start_page: 1, connections: Vec::new(), done: false }
    }

    /// The request of the pending window.
    pub fn request(&self, login_token: &String) -> (r: JsonValue)
        requires
            !self.done,
            self.start_page <= u64::MAX - 9,
        ensures
            is_connections_request(r, login_token@, self.start_page),
    {
        connections_request(login_token, self.start_page)
    }

    /// Feeds the success payload of the pending window.
    pub fn feed(&mut self, data: JsonValue)
        requires
            !old(self).done,
            old(self).start_page <= u64::MAX - 10,
        ensures
            final(self).model() == window_step(old(self).model(), conn_effect(data)),
    {
        let total_zero: bool = match data.get("total_results") {
            Some(t) => match t.as_u64() {
                Some(n) => n == 0,
                None => false,
            },
            None => false,
        };
        match data.into_field("connections") {
            Some(JsonValue::Array(mut conns)) => if conns.len() == 0 {
                self.done = true;
            } else if total_zero {
                self.done = true;
            } else {
                self.connections.append(&mut conns);
                self.start_page = self.start_page + 10;
            },
            _ => {
                self.done = true;
            },
        }
    }
}

/// Law: a run over windows that all continue, except possibly the last,
/// gathers exactly the concatenation of the windows' items, in request
/// order.
pub proof fn lemma_window_run_concatenation(m: WindowModel, es: Seq<PageEffect>)
    requires
        !m.done,
        forall|i: int| 0 <= i < es.len() - 1 ==> !(#[trigger] es[i]).stop,
    ensures
        window_run(m, es).items == m.items + es.map_values(|e: PageEffect| e.items).flatten(),
    decreases es.len(),
{
    let mapped = es.map_values(|e: PageEffect| e.items);
    if es.len() == 0 {
        assert(mapped.flatten() =~= Seq::<JsonValue>::empty());
        assert(m.items + mapped.flatten() =~= m.items);
    } else if es.len() == 1 {
        let m1 = window_step(m, es[0]);
        assert(window_run(m1, es.drop_first()) == m1);
        assert(mapped.drop_first() =~= Seq::<Seq<JsonValue>>::empty());
        assert(mapped.flatten() == mapped[0] + mapped.drop_first().flatten());
        assert(mapped.drop_first().flatten() =~= Seq::<JsonValue>::empty());
        assert(mapped[0] + Seq::<JsonValue>::empty() =~= mapped[0]);
        assert(m.items + mapped.flatten() =~= m.items + es[0].items);
    } else {
        let m1 = window_step(m, es[0]);
        assert(!m1.done);
        let rest = es.drop_first();
        assert(forall|i: int| 0 <= i < rest.len() - 1 ==> !(#[trigger] rest[i]).stop);
        lemma_window_run_concatenation(m1, rest);
        let mrest = rest.map_values(|e: PageEffect| e.items);
        assert(mapped.drop_first() =~= mrest);
        assert(mapped.flatten() == mapped[0] + mapped.drop_first().flatten());
        assert(window_run(m, es).items =~= m.items + mapped.flatten());
    }
}

/// The length of a concatenation: every run but the last holds at least
/// `bound` items, so the whole holds at least `bound` per earlier run plus
/// the last run.
proof fn lemma_flatten_len_lower(ss: Seq<Seq<JsonValue>>, bound: int)
    requires
        bound >= 0,
        ss.len() >= 1,
        forall|i: int| 0 <= i < ss.len() - 1 ==> (#[trigger] ss[i]).len() >= bound,
    ensures
        ss.flatten().len() >= bound * (ss.len() - 1) + ss.last().len(),
    decreases ss.len(),
{
    if ss.len() == 1 {
        assert(ss.flatten() == ss[0] + ss.drop_first().flatten());
        assert(ss.drop_first().flatten() =~= Seq::<JsonValue>::empty());
    } else {
        let rest = ss.drop_first();
        assert(forall|i: int| 0 <= i < rest.len() - 1 ==> (#[trigger] rest[i]).len() >= bound);
        lemma_flatten_len_lower(rest, bound);
        assert(ss.flatten() == ss[0] + rest.flatten());
        assert(rest.last() == ss.last());
        assert(bound * (ss.len() - 1) == bound + bound * (rest.len() - 1)) by (nonlinear_arith)
            requires ss.len() >= 2 && rest.len() == ss.len() - 1;
    }
}

/// Law: a run whose windows each fill at least one declared page, except
/// possibly the last, which holds at least one item, makes at most
/// ceil(n / page_size) windows for the n items it gathers; stated
/// multiplicatively: page_size * windows < n + page_size.
pub proof fn lemma_window_run_terminates(m: WindowModel, es: Seq<PageEffect>, page_size: int)
    requires
        !m.done,
        m.items.len() == 0,
        page_size >= 1,
        es.len() >= 1,
        forall|i: int|
            0 <= i < es.len() - 1 ==> !(#[trigger] es[i]).stop && es[i].items.len() >= page_size,
        es.last().items.len() >= 1,
    ensures
        page_size * es.len() < window_run(m, es).items.len() + page_size,
        es.len() <= (window_run(m, es).items.len() + page_size - 1) / page_size,
{
    lemma_window_run_concatenation(m, es);
    let mapped = es.map_values(|e: PageEffect| e.items);
    assert(mapped.len() == es.len());
    assert(forall|i: int| 0 <= i < mapped.len() - 1 ==> (#[trigger] mapped[i]).len() >= page_size);
    assert(mapped.last() == es.last().items);
    lemma_flatten_len_lower(mapped, page_size);
    let n = window_run(m, es).items.len() as int;
    assert(m.items + mapped.flatten() =~= mapped.flatten());
    assert(n >= page_size * (es.len() - 1) + 1);
    assert(page_size * es.len() == page_size * (es.len() - 1) + page_size) by (nonlinear_arith);
    assert(es.len() <= (n + page_size - 1) / page_size) by (nonlinear_arith)
        requires
            page_size >= 1,
            es.len() >= 1,
            n >= page_size * (es.len() - 1) + 1;
}

} // verus!
