//! The part of a sequence, counted from its start, of which something holds
//! without a break.

use vstd::prelude::*;

verus! {

/// How many elements of `s`, counted from the start, satisfy `pred` before
/// the first one that does not.
pub open spec fn leading<T>(s: Seq<T>, pred: spec_fn(T) -> bool) -> nat
    decreases s.len(),
{
    if s.len() > 0 && pred(s[0]) {
        1 + leading(s.drop_first(), pred)
    } else {
        0
    }
}

/// Where `pred` holds of the first `k` elements of `s` and not of the next
/// one, `k` is how many elements `pred` leads with.
pub proof fn lemma_leading<T>(s: Seq<T>, pred: spec_fn(T) -> bool, k: int)
    requires
        0 <= k <= s.len(),
        forall|i: int| 0 <= i < k ==> pred(#[trigger] s[i]),
        k == s.len() || !pred(s[k]),
    ensures
        leading(s, pred) == k,
    decreases s.len(),
{
    if k > 0 {
        assert forall|i: int| 0 <= i < k - 1 implies pred(#[trigger] s.drop_first()[i]) by {
            assert(s.drop_first()[i] == s[i + 1]);
        }
        lemma_leading(s.drop_first(), pred, k - 1);
    }
}

} // verus!
