//! The update cursor: the pure arithmetic that decides the next fetch
//! position from the identifiers seen in one batch of updates.

use vstd::prelude::*;

verus! {

/// The greatest element of a non-empty sequence of integers.
pub open spec fn seq_max(s: Seq<int>) -> int
    recommends
        s.len() > 0,
    decreases s.len(),
{
    if s.len() <= 1 {
        s[0]
    } else if s.last() >= seq_max(s.drop_last()) {
        s.last()
    } else {
        seq_max(s.drop_last())
    }
}

/// The cursor to use on the fetch after a batch with identifiers `ids` was
/// received: absent for an empty batch (leave the stored cursor unchanged),
/// one past the greatest identifier otherwise.
pub open spec fn next_cursor(ids: Seq<int>) -> Option<int> {
    if ids.len() == 0 {
        None
    } else {
        Some(seq_max(ids) + 1)
    }
}

/// Whether a fetch issued with `cursor` asks the remote server for the
/// update with identifier `id`: an absent cursor requests everything
/// buffered, a present cursor excludes all identifiers below it.
pub open spec fn requested(cursor: Option<int>, id: int) -> bool {
    match cursor {
        None => true,
        Some(c) => id >= c,
    }
}

/// The maximum of a non-empty sequence is one of its elements and bounds
/// every element from above.
pub proof fn lemma_seq_max_is_bound(s: Seq<int>)
    requires
        s.len() > 0,
    ensures
        s.contains(seq_max(s)),
        forall|i: int| 0 <= i < s.len() ==> s[i] <= seq_max(s),
    decreases s.len(),
{
    if s.len() == 1 {
        assert(seq_max(s) == s[0]);
        assert(s.contains(s[0]));
    } else {
        let prefix = s.drop_last();
        lemma_seq_max_is_bound(prefix);
        assert(forall|i: int| 0 <= i < prefix.len() ==> s[i] == prefix[i]);
        if s.last() >= seq_max(prefix) {
            assert(s.contains(s.last()));
        } else {
            let j = choose|j: int| 0 <= j < prefix.len() && prefix[j] == seq_max(prefix);
            assert(s[j] == seq_max(s));
            assert(s.contains(s[j]));
        }
    }
}

/// Appending one element to a sequence moves its maximum up to that element
/// if it is larger, and leaves it unchanged otherwise.
pub proof fn lemma_seq_max_push(s: Seq<int>, x: int)
    requires
        s.len() > 0,
    ensures
        seq_max(s.push(x)) == if x >= seq_max(s) {
            x
        } else {
            seq_max(s)
        },
{
    assert(s.push(x).drop_last() =~= s);
    assert(s.push(x).last() == x);
}

/// The cursor never regresses: when every identifier in a non-empty batch
/// is at least the current cursor value `c`, the recomputed cursor is also
/// at least `c`.
pub proof fn lemma_cursor_monotonic(ids: Seq<int>, c: int)
    requires
        ids.len() > 0,
        forall|i: int| 0 <= i < ids.len() ==> ids[i] >= c,
    ensures
        next_cursor(ids) matches Some(n) && n >= c,
{
    lemma_seq_max_is_bound(ids);
    assert(seq_max(ids) >= ids[0]);
}

/// Round trip: a fetch issued with the cursor recomputed from a batch never
/// requests any identifier present in that batch again.
pub proof fn lemma_no_refetch(ids: Seq<int>)
    ensures
        forall|i: int| 0 <= i < ids.len() ==> !requested(next_cursor(ids), ids[i]),
{
    if ids.len() > 0 {
        lemma_seq_max_is_bound(ids);
    }
}

} // verus!
