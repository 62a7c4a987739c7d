//! Counting the entries of a sequence that equal a given value.

use vstd::prelude::*;

verus! {

/// How many entries of `s` equal `x`.
pub open spec fn count_of<A>(s: Seq<A>, x: A) -> nat
    decreases s.len(),
{
    if s.len() == 0 {
        0
    } else {
        count_of(s.drop_last(), x) + if s.last() == x {
            1nat
        } else {
            0nat
        }
    }
}

/// A count is at most the length.
pub proof fn lemma_count_bounded<A>(s: Seq<A>, x: A)
    ensures
        count_of(s, x) <= s.len(),
    decreases s.len(),
{
    if s.len() > 0 {
        lemma_count_bounded(s.drop_last(), x);
    }
}

/// Appending an entry raises the count of that entry's value by one and
/// leaves every other count as it was.
pub proof fn lemma_count_push<A>(s: Seq<A>, y: A, x: A)
    ensures
        count_of(s.push(y), x) == count_of(s, x) + if y == x {
            1nat
        } else {
            0nat
        },
{
    assert(s.push(y).drop_last() =~= s);
}

/// Replacing the entry at `i` lowers the count of the old value by one and
/// raises that of the new value by one.
pub proof fn lemma_count_update<A>(s: Seq<A>, i: int, y: A, x: A)
    requires
        0 <= i < s.len(),
    ensures
        count_of(s.update(i, y), x) + (if s[i] == x {
            1nat
        } else {
            0nat
        }) == count_of(s, x) + if y == x {
            1nat
        } else {
            0nat
        },
    decreases s.len(),
{
    if i == s.len() - 1 {
        assert(s.update(i, y).drop_last() =~= s.drop_last());
    } else {
        assert(s.update(i, y).drop_last() =~= s.drop_last().update(i, y));
        lemma_count_update(s.drop_last(), i, y, x);
    }
}

/// The count of `x` is zero exactly if no entry equals `x`.
pub proof fn lemma_count_zero<A>(s: Seq<A>, x: A)
    ensures
        count_of(s, x) == 0 <==> forall|i: int| 0 <= i < s.len() ==> s[i] != x,
    decreases s.len(),
{
    if s.len() > 0 {
        lemma_count_zero(s.drop_last(), x);
        if count_of(s, x) == 0 {
            assert forall|i: int| 0 <= i < s.len() implies s[i] != x by {
                if i < s.len() - 1 {
                    assert(s.drop_last()[i] == s[i]);
                }
            }
        } else if s.last() != x {
            let i = choose|i: int| 0 <= i < s.drop_last().len() && s.drop_last()[i] == x;
            assert(s[i] == x);
        }
    }
}

/// The count of `x` is the length exactly if every entry equals `x`.
pub proof fn lemma_count_all<A>(s: Seq<A>, x: A)
    ensures
        count_of(s, x) == s.len() <==> forall|i: int| 0 <= i < s.len() ==> s[i] == x,
    decreases s.len(),
{
    if s.len() > 0 {
        lemma_count_all(s.drop_last(), x);
        lemma_count_bounded(s.drop_last(), x);
        if count_of(s, x) == s.len() {
            assert forall|i: int| 0 <= i < s.len() implies s[i] == x by {
                if i < s.len() - 1 {
                    assert(s.drop_last()[i] == s[i]);
                }
            }
        } else if s.last() == x {
            let i = choose|i: int| 0 <= i < s.drop_last().len() && s.drop_last()[i] != x;
            assert(s[i] != x);
        }
    }
}

} // verus!
