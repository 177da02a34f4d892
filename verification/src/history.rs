//! The bounded audit trail attached to an order: an append-only log capped at
//! the ten most recent entries, oldest evicted first. Old entries are
//! permanently lost, by design, to bound storage per order.

use vstd::prelude::*;
use vstd::string::StrSliceExecFns;
use crate::state::OrderState;

verus! {

/// The log keeps at most this many entries.
pub const HISTORY_CAPACITY: usize = 10;

/// An entry's description is clipped to at most this many characters.
pub const DESCRIPTION_LIMIT: usize = 100;

/// One audit record: the moment a transition happened, the state it entered,
/// and a short description.
#[derive(Clone, Debug)]
pub struct OrderHistoryEntry {
    /// When the transition happened.
    pub timestamp: i64,
    /// The state the order was in after the transition.
    pub state: OrderState,
    /// Human-readable description, at most [`DESCRIPTION_LIMIT`] characters.
    pub description: String,
}

/// The mathematical shape of one entry: its description as a character
/// sequence. Contracts speak of entries through this form.
pub struct HistoryEntryView {
    /// When the transition happened.
    pub timestamp: i64,
    /// The state the order was in after the transition.
    pub state: OrderState,
    /// The description's characters.
    pub description: Seq<char>,
}

impl View for OrderHistoryEntry {
    type V = HistoryEntryView;

    open spec fn view(&self) -> HistoryEntryView {
        HistoryEntryView {
            timestamp: self.timestamp,
            state: self.state,
            description: self.description@,
        }
    }
}

/// The first `limit` characters of `s`, or all of `s` if it is shorter.
/// Clipping counts characters, never bytes, so it cannot split a multi-byte
/// code point.
pub open spec fn clipped(s: Seq<char>, limit: int) -> Seq<char> {
    if s.len() <= limit {
        s
    } else {
        s.subrange(0, limit)
    }
}

/// Clip `s` to its first `limit` characters.
pub fn clip_chars(s: &str, limit: usize) -> (r: String)
    ensures
        r@ == clipped(s@, limit as int),
{
    let n = s.unicode_len();
    if n <= limit {
        s.to_owned()
    } else {
        s.substring_char(0, limit).to_owned()
    }
}

/// The log after appending one entry whose description is `desc` (clipped to
/// the description limit), entered-state `state` and timestamp `t`: if the
/// log is full, the oldest entry is evicted first.
pub open spec fn appended_hist(
    h: Seq<HistoryEntryView>,
    state: OrderState,
    desc: Seq<char>,
    t: i64,
) -> Seq<HistoryEntryView> {
    let entry = HistoryEntryView {
        timestamp: t,
        state,
        description: clipped(desc, DESCRIPTION_LIMIT as int),
    };
    if h.len() >= HISTORY_CAPACITY {
        h.drop_first().push(entry)
    } else {
        h.push(entry)
    }
}

} // verus!
