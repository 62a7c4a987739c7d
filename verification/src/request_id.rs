//! The source of request ids: one counter that hands out each number once.
//!
//! A source cannot be copied: two sources would count apart and hand out the
//! same ids. Whoever has to share one shares the source itself, behind a
//! lock.

use vstd::prelude::*;

verus! {

/// The id that follows `id`: the next number, and zero after the largest.
pub open spec fn id_after(id: u64) -> u64 {
    if id == u64::MAX {
        0
    } else {
        (id + 1) as u64
    }
}

/// The id that is handed out `calls` calls after the id `first`.
pub open spec fn nth_id(first: u64, calls: nat) -> u64
    decreases calls,
{
    if calls == 0 {
        first
    } else {
        id_after(nth_id(first, (calls - 1) as nat))
    }
}

/// The ids count up from the first one, and start again at zero after the
/// largest number.
pub proof fn lemma_nth_id_counts_up(first: u64, calls: nat)
    ensures
        nth_id(first, calls) == (first + calls) % 0x1_0000_0000_0000_0000,
    decreases calls,
{
    if calls > 0 {
        lemma_nth_id_counts_up(first, (calls - 1) as nat);
    }
}

/// No id is handed out twice: of any 2^64 calls in a row, no two give the
/// same id.
pub proof fn lemma_ids_are_distinct(first: u64, earlier: nat, later: nat)
    requires
        earlier < later,
        later - earlier < 0x1_0000_0000_0000_0000,
    ensures
        nth_id(first, earlier) != nth_id(first, later),
{
    lemma_nth_id_counts_up(first, earlier);
    lemma_nth_id_counts_up(first, later);
}

/// Makes request ids by counting up from zero.
pub struct MyMakeRequestId {
    counter: u64,
}

impl Default for MyMakeRequestId {
    /// A source whose first id is zero.
    fn default() -> (source: Self)
        ensures
            source.upcoming() == 0,
    {
        MyMakeRequestId { counter: 0 }
    }
}

impl MyMakeRequestId {
    /// The id that the next request gets.
    pub closed spec fn upcoming(&self) -> u64 {
        self.counter
    }

    /// A source whose first id is zero.
    pub fn new() -> (source: Self)
        ensures
            source.upcoming() == 0,
    {
        MyMakeRequestId { counter: 0 }
    }

    /// Hands out the next id and moves on by one. After the largest number
    /// the count starts again at zero.
    pub fn next_id(&mut self) -> (id: u64)
        ensures
            id == old(self).upcoming(),
            final(self).upcoming() == id_after(old(self).upcoming()),
    {
        let id = self.counter;
        self.counter = if id == u64::MAX {
            0
        } else {
            id + 1
        };
        id
    }
}

} // verus!
