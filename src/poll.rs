//! The decisions of the poll loop: where the next fetch starts, which fetched
//! updates go to the handler, and what a cycle leaves of the update cursor.
//!
//! The caller runs the loop: it fetches, calls the handler, sends the replies and
//! enforces the deadline of each cycle, and hands each outcome back here.
use vstd::prelude::*;
use vstd::string::StrSliceExecFns;

use crate::json::{json_i64, json_member, json_str, member};
use crate::payload::{fetch_fields, fetch_request_fields, fields_model, Field};
use crate::json::json_array;
use crate::transport::{update_list, verdict, ApiError, Verdict};

verus! {

/// The deadline of one cycle (fetch, handler and replies), in seconds.
pub const CYCLE_DEADLINE_SECS: u64 = 300;

/// What the poll loop reads of an inbound update: its identifier (0 where it has
/// none) and whether its message carries text.
pub struct UpdateHead {
    pub update_id: i64,
    pub has_text: bool,
}

/// Why a cycle was abandoned, by the phase that failed.
#[derive(Debug)]
pub enum CycleFailure {
    /// The fetch of updates failed.
    Fetch(ApiError),
    /// The handler failed, with its message.
    Handler(String),
    /// A reply could not be sent.
    Send(ApiError),
    /// The cycle did not finish before its deadline.
    Deadline,
}

/// The cursor after folding in the identifiers of `heads`, in order, from `cursor`.
pub open spec fn fold_max(cursor: int, heads: Seq<UpdateHead>) -> int
    decreases heads.len(),
{
    if heads.len() == 0 {
        cursor
    } else {
        let prior = fold_max(cursor, heads.drop_last());
        let id = heads.last().update_id as int;
        if prior >= id {
            prior
        } else {
            id
        }
    }
}

/// The first identifier that the fetch following `cursor` asks for.
pub open spec fn offset_after(cursor: int) -> int {
    if cursor < i64::MAX {
        cursor + 1
    } else {
        cursor
    }
}

/// The cursor that a cycle leaves: what it reached where it completed, never
/// less than before; unchanged where it was abandoned.
pub open spec fn committed_cursor(cursor: int, outcome: Result<i64, CycleFailure>) -> int {
    match outcome {
        Ok(reached) => if reached as int > cursor {
            reached as int
        } else {
            cursor
        },
        Err(_) => cursor,
    }
}

/// What an update's members make of it: its identifier, 0 where it has none, and
/// whether its message's text is a non-empty string.
pub open spec fn head_from(update_id: Option<i64>, text: Option<Seq<char>>) -> UpdateHead {
    UpdateHead {
        update_id: match update_id {
            Some(n) => n,
            None => 0,
        },
        has_text: text matches Some(t) && t.len() > 0,
    }
}

/// What the poll loop reads of an inbound update: its `update_id` member as an
/// integer, and the `text` member of its `message` member as a string.
pub open spec fn head_of(update: serde_json::Value) -> UpdateHead {
    head_from(
        json_i64(json_member(update, "update_id"@)),
        json_str(json_member(json_member(update, "message"@), "text"@)),
    )
}

impl UpdateHead {
    /// Reads an update from its `update_id` member (as an integer, if it is one)
    /// and from the text of its message (as a string, if it is one).
    pub fn from_members(update_id: Option<i64>, text: Option<&str>) -> (r: UpdateHead)
        ensures
            r == head_from(
                update_id,
                match text {
                    Some(t) => Some(t@),
                    None => None,
                },
            ),
    {
        let id = match update_id {
            Some(n) => n,
            None => 0,
        };
        let has_text = match text {
            Some(t) => t.unicode_len() > 0,
            None => false,
        };
        UpdateHead { update_id: id, has_text }
    }
}

/// Reads what the poll loop needs of an inbound update.
pub fn update_head(update: &serde_json::Value) -> (r: UpdateHead)
    ensures
        r == head_of(*update),
{
    let id = member(update, "update_id").as_i64();
    let text = member(member(update, "message"), "text").as_str();
    UpdateHead::from_members(id, text)
}

/// The updates of one cycle, and how far the cycle has gone through them.
pub struct Cycle {
    start: i64,
    seen: i64,
    heads: Vec<UpdateHead>,
    next: usize,
}

/// A cycle as mathematical values: the cursor it started from, the cursor over
/// the updates passed so far, the updates, and the index of the next one.
pub struct CycleState {
    pub start: int,
    pub seen: int,
    pub heads: Seq<UpdateHead>,
    pub next: int,
}

impl View for Cycle {
    type V = CycleState;

    closed spec fn view(&self) -> CycleState {
        CycleState {
            start: self.start as int,
            seen: self.seen as int,
            heads: self.heads@,
            next: self.next as int,
        }
    }
}

/// A cycle is consistent: the updates before `next` have been passed, and the
/// cursor is what they make of the start.
pub open spec fn consistent(c: CycleState) -> bool {
    &&& 0 <= c.next <= c.heads.len()
    &&& c.seen == fold_max(c.start, c.heads.take(c.next))
}

proof fn lemma_fold_max_step(cursor: int, heads: Seq<UpdateHead>, i: int)
    requires
        0 <= i < heads.len(),
    ensures
        fold_max(cursor, heads.take(i + 1)) == if fold_max(cursor, heads.take(i))
            >= heads[i].update_id as int {
            fold_max(cursor, heads.take(i))
        } else {
            heads[i].update_id as int
        },
{
    assert(heads.take(i + 1).drop_last() =~= heads.take(i));
}

/// The cursor that a fold reaches is the start or one of the identifiers, and
/// no less than any of them.
proof fn lemma_fold_max_bounds(start: int, heads: Seq<UpdateHead>)
    ensures
        start <= fold_max(start, heads),
        forall|i: int| 0 <= i < heads.len() ==> heads[i].update_id <= fold_max(start, heads),
        fold_max(start, heads) == start || exists|i: int|
            0 <= i < heads.len() && fold_max(start, heads) == heads[i].update_id,
    decreases heads.len(),
{
    if heads.len() > 0 {
        let prefix = heads.drop_last();
        lemma_fold_max_bounds(start, prefix);
        assert forall|i: int| 0 <= i < heads.len() implies heads[i].update_id <= fold_max(
            start,
            heads,
        ) by {
            if i < heads.len() - 1 {
                assert(prefix[i] == heads[i]);
            }
        }
        if fold_max(start, heads) != start {
            if fold_max(start, heads) == fold_max(start, prefix) {
                let k = choose|k: int|
                    0 <= k < prefix.len() && fold_max(start, prefix) == prefix[k].update_id;
                assert(heads[k] == prefix[k]);
            } else {
                assert(fold_max(start, heads) == heads[heads.len() - 1].update_id);
            }
        }
    }
}

/// Once a cycle has passed all its updates, the cursor it commits is the largest
/// of the cursor it started from and all their identifiers, with or without text;
/// where none of them is below the start, it is the highest identifier among them.
pub proof fn lemma_cycle_cursor_is_max_id(c: CycleState)
    requires
        consistent(c),
        c.next == c.heads.len(),
        i64::MIN <= c.start <= i64::MAX,
    ensures
        c.seen == fold_max(c.start, c.heads),
        committed_cursor(c.start, Ok(c.seen as i64)) == c.seen,
        c.start <= c.seen,
        forall|i: int| 0 <= i < c.heads.len() ==> c.heads[i].update_id <= c.seen,
        c.seen == c.start || exists|i: int| 0 <= i < c.heads.len() && c.seen == c.heads[i].update_id,
        c.heads.len() > 0 && (forall|i: int|
            0 <= i < c.heads.len() ==> c.start <= c.heads[i].update_id) ==> exists|i: int|
            0 <= i < c.heads.len() && c.seen == c.heads[i].update_id,
{
    assert(c.heads.take(c.next) =~= c.heads);
    lemma_fold_max_bounds(c.start, c.heads);
    if c.heads.len() > 0 && c.seen == c.start && (forall|i: int|
        0 <= i < c.heads.len() ==> c.start <= c.heads[i].update_id) {
        assert(c.heads[0].update_id <= c.seen);
        assert(c.seen == c.heads[0].update_id);
    }
    if c.seen != c.start {
        let k = choose|k: int| 0 <= k < c.heads.len() && c.seen == c.heads[k].update_id;
        assert(i64::MIN <= c.heads[k].update_id <= i64::MAX);
    }
}

/// The cursor that a cycle reaches depends on the identifiers of its updates
/// alone: which of them carry text makes no difference.
pub proof fn lemma_cursor_ignores_text(start: int, a: Seq<UpdateHead>, b: Seq<UpdateHead>)
    requires
        a.len() == b.len(),
        forall|i: int| 0 <= i < a.len() ==> a[i].update_id == b[i].update_id,
    ensures
        fold_max(start, a) == fold_max(start, b),
    decreases a.len(),
{
    if a.len() > 0 {
        let (pa, pb) = (a.drop_last(), b.drop_last());
        assert forall|i: int| 0 <= i < pa.len() implies pa[i].update_id == pb[i].update_id by {
            assert(pa[i] == a[i] && pb[i] == b[i]);
        }
        lemma_cursor_ignores_text(start, pa, pb);
    }
}

/// A fetch that the service rejects with an error code is judged a rejection with
/// that code, and the cycle it abandons leaves the cursor as it was.
pub proof fn lemma_rejected_fetch_keeps_cursor(cursor: int, code: i64)
    ensures
        verdict(Some(false), Some(code)) == Verdict::Rejected(code),
        committed_cursor(cursor, Err(CycleFailure::Fetch(ApiError::Rejected(code)))) == cursor,
{
}

/// A cycle that misses its deadline leaves the cursor as it was, so the next
/// fetch asks from the same offset again.
pub proof fn lemma_deadline_keeps_offset(cursor: int)
    ensures
        committed_cursor(cursor, Err(CycleFailure::Deadline)) == cursor,
        offset_after(committed_cursor(cursor, Err(CycleFailure::Deadline))) == offset_after(cursor),
{
}

impl Cycle {
    /// A cycle over `heads` that starts from `cursor`, with none passed yet.
    pub fn begin(cursor: i64, heads: Vec<UpdateHead>) -> (r: Cycle)
        ensures
            r@ == (CycleState { start: cursor as int, seen: cursor as int, heads: heads@, next: 0 }),
            consistent(r@),
    {
        let r = Cycle { start: cursor, seen: cursor, heads, next: 0 };
        assert(r.heads@.take(0) =~= Seq::<UpdateHead>::empty());
        r
    }

    /// Passes the updates without text and the next one with text, folding each
    /// identifier into the cursor; returns the index of that one, or `None` where
    /// no update with text is left.
    pub fn next_update(&mut self) -> (r: Option<usize>)
        requires
            consistent(old(self)@),
        ensures
            consistent(final(self)@),
            final(self)@.start == old(self)@.start,
            final(self)@.heads == old(self)@.heads,
            match r {
                Some(i) => {
                    &&& old(self)@.next <= i < old(self)@.heads.len()
                    &&& old(self)@.heads[i as int].has_text
                    &&& forall|j: int|
                        old(self)@.next <= j < i ==> !(#[trigger] old(self)@.heads[j]).has_text
                    &&& final(self)@.next == i + 1
                },
                None => {
                    &&& forall|j: int|
                        old(self)@.next <= j < old(self)@.heads.len() ==> !(#[trigger] old(
                            self,
                        )@.heads[j]).has_text
                    &&& final(self)@.next == old(self)@.heads.len()
                },
            },
    {
        while self.next < self.heads.len()
            invariant
                consistent(self@),
                self@.start == old(self)@.start,
                self@.heads == old(self)@.heads,
                old(self)@.next <= self@.next,
                forall|j: int| old(self)@.next <= j < self@.next ==> !(#[trigger] self@.heads[j]).has_text,
            decreases self@.heads.len() - self@.next,
        {
            let i = self.next;
            proof {
                lemma_fold_max_step(self.start as int, self.heads@, i as int);
            }
            let id = self.heads[i].update_id;
            if id > self.seen {
                self.seen = id;
            }
            self.next = i + 1;
            if self.heads[i].has_text {
                return Some(i);
            }
        }
        None
    }

    /// Whether every update of the cycle has been passed.
    pub fn is_complete(&self) -> (r: bool)
        ensures
            r == (self@.next == self@.heads.len()),
    {
        self.next == self.heads.len()
    }

    /// The cursor over the updates passed so far.
    pub fn cursor(&self) -> (r: i64)
        ensures
            r as int == self@.seen,
    {
        self.seen
    }

    /// The number of updates in the cycle.
    pub fn len(&self) -> (r: usize)
        ensures
            r == self@.heads.len(),
    {
        self.heads.len()
    }
}

/// The state that the poll loop keeps between cycles: its update cursor.
pub struct Poller {
    cursor: i64,
}

impl View for Poller {
    type V = int;

    closed spec fn view(&self) -> int {
        self.cursor as int
    }
}

impl Poller {
    /// A poll loop that has seen no update.
    pub fn new() -> (r: Poller)
        ensures
            r@ == 0,
    {
        Poller { cursor: 0 }
    }

    /// The update cursor: the highest identifier that a completed cycle saw.
    pub fn cursor(&self) -> (r: i64)
        ensures
            r as int == self@,
    {
        self.cursor
    }

    /// The first update identifier that the next fetch asks for.
    pub fn fetch_offset(&self) -> (r: i64)
        ensures
            r as int == offset_after(self@),
    {
        if self.cursor < i64::MAX {
            self.cursor + 1
        } else {
            self.cursor
        }
    }

    /// The arguments of the next fetch.
    pub fn fetch_args(&self) -> (r: Vec<Field>)
        ensures
            fields_model(r@) == fetch_fields(offset_after(self@)),
    {
        fetch_request_fields(self.fetch_offset())
    }

    /// Starts a cycle from what the fetch returned: its updates, read, from the
    /// current cursor; or, where the fetch failed, the failure, and no cycle.
    pub fn begin_cycle(&self, fetched: Result<serde_json::Value, ApiError>) -> (r: Result<
        (Cycle, Vec<serde_json::Value>),
        CycleFailure,
    >)
        ensures
            fetched matches Err(e) ==> r == Err::<(Cycle, Vec<serde_json::Value>), CycleFailure>(
                CycleFailure::Fetch(e),
            ),
            fetched matches Ok(v) ==> (r is Ok <==> json_array(v) is Some),
            r matches Ok((cycle, updates)) ==> {
                &&& fetched matches Ok(v) && json_array(v) == Some(updates@)
                &&& cycle@.start == self@
                &&& cycle@.seen == self@
                &&& cycle@.next == 0
                &&& cycle@.heads.len() == updates@.len()
                &&& forall|i: int|
                    0 <= i < updates@.len() ==> cycle@.heads[i] == head_of(#[trigger] updates@[i])
                &&& consistent(cycle@)
            },
            r is Err ==> r matches Err(CycleFailure::Fetch(_)),
    {
        let result = match fetched {
            Err(e) => {
                return Err(CycleFailure::Fetch(e));
            },
            Ok(v) => v,
        };
        let updates = match update_list(result) {
            Err(e) => {
                return Err(CycleFailure::Fetch(e));
            },
            Ok(items) => items,
        };
        let mut heads: Vec<UpdateHead> = Vec::new();
        let mut i: usize = 0;
        while i < updates.len()
            invariant
                i <= updates@.len(),
                heads@.len() == i,
                forall|j: int| 0 <= j < i ==> heads@[j] == head_of(#[trigger] updates@[j]),
            decreases updates@.len() - i,
        {
            heads.push(update_head(&updates[i]));
            i = i + 1;
        }
        Ok((Cycle::begin(self.cursor, heads), updates))
    }

    /// Ends a cycle: a completed one commits the cursor it reached, where that
    /// is higher; an abandoned one leaves the cursor as it was. Returns the
    /// failure, if any, to be reported.
    pub fn finish(&mut self, outcome: Result<i64, CycleFailure>) -> (r: Option<CycleFailure>)
        ensures
            final(self)@ == committed_cursor(old(self)@, outcome),
            match outcome {
                Ok(_) => r is None,
                Err(f) => r == Some(f),
            },
    {
        match outcome {
            Ok(reached) => {
                if reached > self.cursor {
                    self.cursor = reached;
                }
                None
            },
            Err(f) => Some(f),
        }
    }
}

} // verus!
