//! Cursor pagination: inbox enumeration and conversation-id resolution.
//!
//! The first request carries no cursor; every page answers with records and
//! an optional cursor, and the enumeration is complete exactly when the
//! cursor is absent. Resolution of a conversation id walks the same pages
//! but stops at the first record whose id contains the sought fragment.

use vstd::prelude::*;
use crate::api::{decode_inbox, inbox_request, is_inbox_request, spec_inbox_of, spec_opt_view, InboxData};
use crate::json::{spec_get, JsonValue};
use crate::strutil::{contains_str, spec_contains_seq};

verus! {

broadcast use vstd::string::group_string_axioms;

/// The state of a cursor run: the records gathered, the cursor to carry on
/// the next request, and whether the enumeration is complete.
pub struct CursorModel {
    pub records: Seq<JsonValue>,
    pub cursor: Option<String>,
    pub done: bool,
}

/// One decoded page applied to a cursor run; a finished run is left as it
/// is.
pub open spec fn cursor_step(m: CursorModel, page: InboxData) -> CursorModel {
    if m.done {
        m
    } else {
        CursorModel {
            records: m.records + page.conversations@,
            cursor: page.next_cursor,
            done: page.next_cursor is None,
        }
    }
}

/// A whole cursor run: the pages applied in order.
pub open spec fn cursor_run(m: CursorModel, pages: Seq<InboxData>) -> CursorModel
    decreases pages.len(),
{
    if pages.len() == 0 {
        m
    } else {
        cursor_run(cursor_step(m, pages[0]), pages.drop_first())
    }
}

/// The first record of `convs` whose `conversation_id` member is a string
/// containing `frag`.
pub open spec fn find_in_page(convs: Seq<JsonValue>, frag: Seq<char>) -> Option<String>
    decreases convs.len(),
{
    if convs.len() == 0 {
        None
    } else {
        match spec_get(convs[0], "conversation_id"@) {
            Some(JsonValue::Str(s)) => if spec_contains_seq(s@, frag) {
                Some(s)
            } else {
                find_in_page(convs.drop_first(), frag)
            },
            _ => find_in_page(convs.drop_first(), frag),
        }
    }
}

/// The state of a resolution run: the id found, if any, the cursor to carry
/// on, and whether the run is over.
pub struct FinderModel {
    pub found: Option<String>,
    pub cursor: Option<String>,
    pub done: bool,
}

/// One decoded page applied to a resolution run: the run stops at a page
/// with a match, and otherwise follows the cursor.
pub open spec fn finder_step(m: FinderModel, frag: Seq<char>, page: InboxData) -> FinderModel {
    if m.done {
        m
    } else {
        match find_in_page(page.conversations@, frag) {
            Some(id) => FinderModel { found: Some(id), cursor: m.cursor, done: true },
            None => FinderModel {
                found: None,
                cursor: page.next_cursor,
                done: page.next_cursor is None,
            },
        }
    }
}

pub open spec fn finder_run(m: FinderModel, frag: Seq<char>, pages: Seq<InboxData>) -> FinderModel
    decreases pages.len(),
{
    if pages.len() == 0 {
        m
    } else {
        finder_run(finder_step(m, frag, pages[0]), frag, pages.drop_first())
    }
}

/// Gathers all inbox records, page by page.
pub struct InboxPager {
    pub conversations: Vec<JsonValue>,
    pub cursor: Option<String>,
    pub done: bool,
}

impl InboxPager {
    pub open spec fn model(&self) -> CursorModel {
        CursorModel { records: self.conversations@, cursor: self.cursor, done: self.done }
    }

    pub fn new() -> (r: Self)
        ensures
            r.conversations@ == Seq::<JsonValue>::empty(),
            r.cursor is None,
            !r.done,
    {
        InboxPager { conversations: Vec::new(), cursor: None, done: false }
    }

    /// The request of the pending page, carrying the cursor when one came.
    pub fn request(&self, login_token: &String) -> (r: JsonValue)
        requires
            !self.done,
        ensures
            is_inbox_request(r, login_token@, spec_opt_view(self.cursor)),
    {
        inbox_request(login_token, &self.cursor)
    }

    /// Feeds the success payload of the pending page. A payload that does
    /// not read as an inbox page ends the run silently: the records gathered
    /// so far stand, and the enumeration is over.
    pub fn feed(&mut self, data: JsonValue)
        requires
            !old(self).done,
        ensures
            match spec_inbox_of(data) {
                Some(page) => final(self).model() == cursor_step(old(self).model(), page),
                None => final(self).conversations@ == old(self).conversations@
                    && final(self).cursor == old(self).cursor && final(self).done,
            },
    {
        match decode_inbox(data) {
            Some(page) => {
                let InboxData { mut conversations, next_cursor, .. } = page;
                self.conversations.append(&mut conversations);
                self.done = next_cursor.is_none();
                self.cursor = next_cursor;
            },
            None => {
                self.done = true;
            },
        }
    }
}

/// The first match in a page, as the executable scan finds it.
fn scan_page(convs: &Vec<JsonValue>, fragment: &str) -> (r: Option<String>)
    ensures
        r == find_in_page(convs@, fragment@),
{
    let n = convs.len();
    let mut i: usize = 0;
    proof {
        assert(convs@.skip(0) =~= convs@);
    }
    while i < n
        invariant
            i <= n,
            n == convs@.len(),
            find_in_page(convs@, fragment@) == find_in_page(convs@.skip(i as int), fragment@),
        decreases n - i,
    {
        let record = &convs[i];
        let cand: Option<String> = match record.get("conversation_id") {
            Some(cv) => match cv {
                JsonValue::Str(s) => if contains_str(s.as_str(), fragment) {
                    Some(s.clone())
                } else {
                    None
                },
                _ => None,
            },
            None => None,
        };
        match cand {
            Some(id) => {
                proof {
                    assert(convs@.skip(i as int)[0] == convs@[i as int]);
                }
                return Some(id);
            },
            None => {
                proof {
                    lemma_find_skip_step(convs@, fragment@, i as int);
                }
            },
        }
        i = i + 1;
    }
    proof {
        assert(convs@.skip(n as int).len() == 0);
    }
    None
}

proof fn lemma_find_skip_step(convs: Seq<JsonValue>, frag: Seq<char>, i: int)
    requires
        0 <= i < convs.len(),
        !(spec_get(convs[i], "conversation_id"@) matches Some(JsonValue::Str(s))
            && spec_contains_seq(s@, frag)),
    ensures
        find_in_page(convs.skip(i), frag) == find_in_page(convs.skip(i + 1), frag),
{
    assert(convs.skip(i)[0] == convs[i]);
    assert(convs.skip(i).drop_first() =~= convs.skip(i + 1));
}

/// Resolves a conversation id from a fragment of it, page by page.
pub struct ConversationFinder {
    pub fragment: String,
    pub cursor: Option<String>,
    pub found: Option<String>,
    pub done: bool,
}

impl ConversationFinder {
    pub open spec fn model(&self) -> FinderModel {
        FinderModel { found: self.found, cursor: self.cursor, done: self.done }
    }

    pub fn new(fragment: String) -> (r: Self)
        ensures
            r.fragment == fragment,
            r.cursor is None,
            r.found is None,
            !r.done,
    {
        ConversationFinder { fragment, cursor: None, found: None, done: false }
    }

    /// The request of the pending page, carrying the cursor when one came.
    pub fn request(&self, login_token: &String) -> (r: JsonValue)
        requires
            !self.done,
        ensures
            is_inbox_request(r, login_token@, spec_opt_view(self.cursor)),
    {
        inbox_request(login_token, &self.cursor)
    }

    /// Feeds the success payload of the pending page. A payload that does
    /// not read as an inbox page ends the run silently: nothing was found on
    /// it, and the resolution is over.
    pub fn feed(&mut self, data: JsonValue)
        requires
            !old(self).done,
        ensures
            final(self).fragment == old(self).fragment,
            match spec_inbox_of(data) {
                Some(page) => final(self).model() == finder_step(
                    old(self).model(),
                    old(self).fragment@,
                    page,
                ),
                None => final(self).found == old(self).found
                    && final(self).cursor == old(self).cursor && final(self).done,
            },
    {
        match decode_inbox(data) {
            Some(page) => {
                let InboxData { conversations, next_cursor, .. } = page;
                match scan_page(&conversations, self.fragment.as_str()) {
                    Some(id) => {
                        self.found = Some(id);
                        self.done = true;
                    },
                    None => {
                        self.found = None;
                        self.done = next_cursor.is_none();
                        self.cursor = next_cursor;
                    },
                }
            },
            None => {
                self.done = true;
            },
        }
    }
}

/// A finished run is left as it is by any further pages.
proof fn lemma_finder_run_done(m: FinderModel, frag: Seq<char>, pages: Seq<InboxData>)
    requires
        m.done,
    ensures
        finder_run(m, frag, pages) == m,
    decreases pages.len(),
{
    if pages.len() > 0 {
        lemma_finder_run_done(m, frag, pages.drop_first());
    }
}

/// Law: a cursor run over pages that each carry a cursor, except the last,
/// gathers exactly the concatenation of the pages' records, in order, and
/// ends on the last page's cursor.
pub proof fn lemma_cursor_run_concatenation(m: CursorModel, pages: Seq<InboxData>)
    requires
        !m.done,
        forall|i: int| 0 <= i < pages.len() - 1 ==> (#[trigger] pages[i]).next_cursor is Some,
    ensures
        cursor_run(m, pages).records == m.records + pages.map_values(
            |p: InboxData| p.conversations@,
        ).flatten(),
        pages.len() >= 1 ==> cursor_run(m, pages).cursor == pages.last().next_cursor,
        pages.len() >= 1 ==> cursor_run(m, pages).done == (pages.last().next_cursor is None),
    decreases pages.len(),
{
    let mapped = pages.map_values(|p: InboxData| p.conversations@);
    if pages.len() == 0 {
        assert(mapped.flatten() =~= Seq::<JsonValue>::empty());
        assert(m.records + mapped.flatten() =~= m.records);
    } else if pages.len() == 1 {
        let m1 = cursor_step(m, pages[0]);
        assert(cursor_run(m1, pages.drop_first()) == m1);
        assert(mapped.flatten() == mapped[0] + mapped.drop_first().flatten());
        assert(mapped.drop_first().flatten() =~= Seq::<JsonValue>::empty());
        assert(m.records + mapped.flatten() =~= m.records + pages[0].conversations@);
        assert(pages.last() == pages[0]);
    } else {
        let m1 = cursor_step(m, pages[0]);
        assert(!m1.done);
        let rest = pages.drop_first();
        assert(forall|i: int|
            0 <= i < rest.len() - 1 ==> (#[trigger] rest[i]).next_cursor is Some);
        lemma_cursor_run_concatenation(m1, rest);
        let mrest = rest.map_values(|p: InboxData| p.conversations@);
        assert(mapped.drop_first() =~= mrest);
        assert(mapped.flatten() == mapped[0] + mapped.drop_first().flatten());
        assert(cursor_run(m, pages).records =~= m.records + mapped.flatten());
        assert(rest.last() == pages.last());
    }
}

/// Law: resolution returns the first matching id and does not continue past
/// the page that holds it. With `j` the first page with a match, and every
/// earlier page carrying a cursor, the run over all pages equals the run
/// over the pages up to `j`, is over, and holds that page's first match.
pub proof fn lemma_finder_first_match(
    m: FinderModel,
    frag: Seq<char>,
    pages: Seq<InboxData>,
    j: int,
)
    requires
        !m.done,
        0 <= j < pages.len(),
        forall|i: int|
            0 <= i < j ==> find_in_page((#[trigger] pages[i]).conversations@, frag) is None,
        forall|i: int| 0 <= i < j ==> (#[trigger] pages[i]).next_cursor is Some,
        find_in_page(pages[j].conversations@, frag) is Some,
    ensures
        finder_run(m, frag, pages).done,
        finder_run(m, frag, pages).found == find_in_page(pages[j].conversations@, frag),
        finder_run(m, frag, pages) == finder_run(m, frag, pages.take(j + 1)),
    decreases j,
{
    let m1 = finder_step(m, frag, pages[0]);
    if j == 0 {
        assert(m1.done);
        assert(m1.found == find_in_page(pages[0].conversations@, frag));
        lemma_finder_run_done(m1, frag, pages.drop_first());
        let taken = pages.take(1);
        assert(taken.len() == 1);
        assert(taken[0] == pages[0]);
        assert(finder_run(m1, frag, taken.drop_first()) == m1);
    } else {
        assert(find_in_page(pages[0].conversations@, frag) is None);
        assert(!m1.done);
        let rest = pages.drop_first();
        assert(forall|i: int|
            0 <= i < j - 1 ==> find_in_page((#[trigger] rest[i]).conversations@, frag) is None);
        assert(forall|i: int| 0 <= i < j - 1 ==> (#[trigger] rest[i]).next_cursor is Some);
        assert(rest[j - 1] == pages[j]);
        lemma_finder_first_match(m1, frag, rest, j - 1);
        let taken = pages.take(j + 1);
        assert(taken[0] == pages[0]);
        assert(taken.drop_first() =~= rest.take(j));
        assert(finder_run(m, frag, taken) == finder_run(m1, frag, rest.take(j)));
    }
}

} // verus!
