//! First-match search in a sequence, the order in which every lookup of this
//! library scans.

use vstd::prelude::*;

verus! {

/// The least position of `s` whose item satisfies `pred`, or `s.len()` where
/// no item does.
pub open spec fn first_where<T>(s: Seq<T>, pred: spec_fn(T) -> bool) -> int
    decreases s.len(),
{
    if s.len() == 0 {
        0
    } else if pred(s[0]) {
        0
    } else {
        1 + first_where(s.drop_first(), pred)
    }
}

/// `first_where` is in range, lands on a match, and skips no match.
pub proof fn lemma_first_where<T>(s: Seq<T>, pred: spec_fn(T) -> bool)
    ensures
        0 <= first_where(s, pred) <= s.len(),
        first_where(s, pred) < s.len() ==> pred(s[first_where(s, pred)]),
        forall|j: int| 0 <= j < first_where(s, pred) ==> !pred(#[trigger] s[j]),
    decreases s.len(),
{
    if s.len() > 0 && !pred(s[0]) {
        let rest = s.drop_first();
        lemma_first_where(rest, pred);
        assert forall|j: int| 0 <= j < first_where(s, pred) implies !pred(#[trigger] s[j]) by {
            if j > 0 {
                assert(s[j] == rest[j - 1]);
            }
        }
    }
}

/// A position that matches, with no match before it, is the first match; and
/// the length is, where nothing matches.
pub proof fn lemma_first_where_is<T>(s: Seq<T>, pred: spec_fn(T) -> bool, i: int)
    requires
        0 <= i <= s.len(),
        i < s.len() ==> pred(s[i]),
        forall|j: int| 0 <= j < i ==> !pred(#[trigger] s[j]),
    ensures
        first_where(s, pred) == i,
{
    lemma_first_where(s, pred);
}

/// Some item matches exactly when the first match is in range.
pub proof fn lemma_first_where_found<T>(s: Seq<T>, pred: spec_fn(T) -> bool)
    ensures
        first_where(s, pred) < s.len() <==> exists|j: int| 0 <= j < s.len() && pred(#[trigger] s[j]),
{
    lemma_first_where(s, pred);
    let i = first_where(s, pred);
    if i < s.len() {
        assert(pred(s[i]));
    }
}

} // verus!
