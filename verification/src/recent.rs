//! "Keep the most recent": the suffix that a bounded accumulator retains.

use vstd::prelude::*;

verus! {

/// The last `n` items of `s`, or all of `s` where it has no more than `n`.
pub open spec fn keep_last<T>(s: Seq<T>, n: nat) -> Seq<T> {
    if s.len() <= n {
        s
    } else {
        s.subrange(s.len() - n, s.len() as int)
    }
}

/// Trimming, appending and trimming again keeps what one trim of the whole
/// would keep.
pub proof fn lemma_keep_last_append<T>(s: Seq<T>, more: Seq<T>, n: nat)
    ensures
        keep_last(keep_last(s, n) + more, n) == keep_last(s + more, n),
        keep_last(s, n).len() <= n,
        keep_last(s, n).len() == if s.len() <= n { s.len() } else { n },
{
    assert(keep_last(keep_last(s, n) + more, n) =~= keep_last(s + more, n));
}

} // verus!
