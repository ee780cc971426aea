use vstd::prelude::*;

use crate::msg::{lemma_msg_views_push, Msg, MsgView};

verus! {

/// The cursor value that follows the newest entry whatever the length.
pub const FOLLOW: usize = usize::MAX;

/// What a history holds: its entries in arrival order, and the scroll cursor.
/// The cursor is an index in `[0, len]`, or `FOLLOW`; an index equal to the
/// length, like `FOLLOW`, shows everything.
pub struct HistoryView {
    pub entries: Seq<MsgView>,
    pub cursor: nat,
}

/// The history before anything arrived.
pub open spec fn empty_history() -> HistoryView {
    HistoryView { entries: Seq::empty(), cursor: FOLLOW as nat }
}

/// A cursor is in range when it indexes `[0, len]` or is `FOLLOW`.
pub open spec fn cursor_ok(h: HistoryView) -> bool {
    h.cursor <= h.entries.len() || h.cursor == FOLLOW
}

/// The end of the visible range `[0, end)`.
pub open spec fn visible_end(h: HistoryView) -> nat {
    if h.cursor <= h.entries.len() {
        h.cursor
    } else {
        h.entries.len()
    }
}

/// One arrival: the entry goes to the tail; a cursor pinned to the old tail
/// moves to the new one, any other cursor stays.
pub open spec fn append_spec(h: HistoryView, m: MsgView) -> HistoryView {
    HistoryView {
        entries: h.entries.push(m),
        cursor: if h.cursor == h.entries.len() {
            h.entries.len() + 1
        } else {
            h.cursor
        },
    }
}

/// Arrivals in order.
pub open spec fn append_all(h: HistoryView, ms: Seq<MsgView>) -> HistoryView
    decreases ms.len(),
{
    if ms.len() == 0 {
        h
    } else {
        append_spec(append_all(h, ms.drop_last()), ms.last())
    }
}

/// `x` held to `[lo, hi]`.
pub open spec fn clamp(x: int, lo: int, hi: int) -> int {
    if x < lo {
        lo
    } else if x > hi {
        hi
    } else {
        x
    }
}

/// A scroll by `delta`: toward the newest for a positive one, toward the
/// oldest for a negative one, held to `[0, len]`.
pub open spec fn scroll_spec(h: HistoryView, delta: int) -> HistoryView {
    HistoryView { cursor: clamp(h.cursor + delta, 0, h.entries.len() as int) as nat, ..h }
}

/// The cursor set to the current length.
pub open spec fn pin_spec(h: HistoryView) -> HistoryView {
    HistoryView { cursor: h.entries.len(), ..h }
}

/// The cursor set to follow the newest entry.
pub open spec fn follow_spec(h: HistoryView) -> HistoryView {
    HistoryView { cursor: FOLLOW as nat, ..h }
}

/// Up to `height` of the visible entries, newest first.
pub open spec fn visible_spec(h: HistoryView, height: nat) -> Seq<MsgView> {
    let end = visible_end(h);
    let n = if height < end {
        height
    } else {
        end
    };
    Seq::new(n, |i: int| h.entries[end - 1 - i])
}

/// The ordered messages of a chat, with the scroll cursor that decides which
/// of them are on screen.
pub struct History {
    entries: Vec<Msg>,
    cursor: usize,
}

impl View for History {
    type V = HistoryView;

    closed spec fn view(&self) -> HistoryView {
        HistoryView {
            entries: self.entries@.map_values(|m: Msg| m@),
            cursor: self.cursor as nat,
        }
    }
}

impl History {
    /// The cursor is in range; every operation keeps it so.
    pub open spec fn wf(&self) -> bool {
        cursor_ok(self@)
    }

    /// An empty history that follows the newest entry.
    pub fn new() -> (r: History)
        ensures
            r@ == empty_history(),
            r.wf(),
    {
        let r = History { entries: Vec::new(), cursor: FOLLOW };
        assert(r@.entries =~= Seq::<MsgView>::empty());
        r
    }

    pub fn len(&self) -> (r: usize)
        ensures
            r == self@.entries.len(),
    {
        self.entries.len()
    }

    pub fn cursor(&self) -> (r: usize)
        ensures
            r == self@.cursor,
    {
        self.cursor
    }

    /// The entry at `i`, in arrival order.
    pub fn get(&self, i: usize) -> (r: &Msg)
        requires
            i < self@.entries.len(),
        ensures
            r@ == self@.entries[i as int],
    {
        &self.entries[i]
    }

    /// Puts `m` at the tail; a cursor at the old tail stays pinned to the tail.
    pub fn append(&mut self, m: Msg)
        ensures
            final(self)@ == append_spec(old(self)@, m@),
            old(self).wf() ==> final(self).wf(),
    {
        let was_tail = self.cursor == self.entries.len();
        self.entries.push(m);
        assert(self@.entries =~= old(self)@.entries.push(m@));
        if was_tail {
            self.cursor = self.entries.len();
        }
    }

    /// Moves the cursor by `delta`, held to `[0, len]`.
    pub fn scroll(&mut self, delta: i64)
        ensures
            final(self)@ == scroll_spec(old(self)@, delta as int),
            final(self).wf(),
    {
        let len = self.entries.len();
        let target: usize = if delta < 0 {
            let back = (0 - (delta as i128)) as u128;
            if (self.cursor as u128) < back {
                0
            } else {
                (self.cursor as u128 - back) as usize
            }
        } else {
            let fwd = delta as u128;
            if (self.cursor as u128) + fwd > len as u128 {
                len
            } else {
                (self.cursor as u128 + fwd) as usize
            }
        };
        self.cursor = if target > len {
            len
        } else {
            target
        };
    }

    /// One step toward the oldest entry.
    pub fn scroll_up(&mut self)
        ensures
            final(self)@ == scroll_spec(old(self)@, -1),
            final(self).wf(),
    {
        self.scroll(-1);
    }

    /// One step toward the newest entry.
    pub fn scroll_down(&mut self)
        ensures
            final(self)@ == scroll_spec(old(self)@, 1),
            final(self).wf(),
    {
        self.scroll(1);
    }

    /// Sets the cursor to the current length.
    pub fn pin_to_tail(&mut self)
        ensures
            final(self)@ == pin_spec(old(self)@),
            final(self).wf(),
    {
        self.cursor = self.entries.len();
    }

    /// Sets the cursor to follow the newest entry.
    pub fn follow_latest(&mut self)
        ensures
            final(self)@ == follow_spec(old(self)@),
            final(self).wf(),
    {
        self.cursor = FOLLOW;
    }

    /// Up to `height` of the entries before the cursor, newest first.
    pub fn visible(&self, height: usize) -> (r: Vec<Msg>)
        ensures
            r@.map_values(|m: Msg| m@) == visible_spec(self@, height as nat),
    {
        let len = self.entries.len();
        let end = if self.cursor <= len {
            self.cursor
        } else {
            len
        };
        let n = if height < end {
            height
        } else {
            end
        };
        let mut out: Vec<Msg> = Vec::new();
        let mut i: usize = 0;
        while i < n
            invariant
                i <= n <= end <= len,
                len == self.entries.len(),
                end == visible_end(self@),
                n == visible_spec(self@, height as nat).len(),
                out@.map_values(|m: Msg| m@) =~= visible_spec(self@, height as nat).subrange(
                    0,
                    i as int,
                ),
            decreases n - i,
        {
            let m = self.entries[end - 1 - i].clone();
            assert(m@ == visible_spec(self@, height as nat)[i as int]);
            let ghost prev = out@;
            out.push(m);
            proof {
                lemma_msg_views_push(prev, m);
            }
            i += 1;
            assert(out@.map_values(|m: Msg| m@) =~= visible_spec(self@, height as nat).subrange(
                0,
                i as int,
            ));
        }
        out
    }
}

/// N arrivals into an empty history leave exactly those N entries, in the
/// order they arrived.
pub proof fn lemma_appends_keep_order(ms: Seq<MsgView>)
    ensures
        append_all(empty_history(), ms).entries == ms,
        append_all(empty_history(), ms).entries.len() == ms.len(),
    decreases ms.len(),
{
    if ms.len() > 0 {
        lemma_appends_keep_order(ms.drop_last());
        assert(ms.drop_last().push(ms.last()) =~= ms);
    }
}

/// Every scroll leaves the cursor in `[0, len]`, whatever it was.
pub proof fn lemma_scroll_in_range(h: HistoryView, delta: int)
    ensures
        scroll_spec(h, delta).cursor <= h.entries.len(),
        scroll_spec(h, delta).entries == h.entries,
{
}

/// An arrival while the cursor is at the old length moves it to the new
/// length; an arrival while it is below the old length leaves it; either
/// way the cursor stays in range.
pub proof fn lemma_append_pin_rule(h: HistoryView, m: MsgView)
    requires
        cursor_ok(h),
    ensures
        h.cursor == h.entries.len() ==> append_spec(h, m).cursor == append_spec(h, m).entries.len(),
        h.cursor < h.entries.len() ==> append_spec(h, m).cursor == h.cursor,
        cursor_ok(append_spec(h, m)),
{
}

} // verus!
