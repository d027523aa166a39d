//! Specifications shared by the stores, which keep (key, value) entries in a `Vec`.
use vstd::prelude::*;

verus! {

/// References to the entries of a store, in order.
pub open spec fn entry_refs<'a, K, V>(v: &'a Vec<(K, V)>) -> Seq<&'a (K, V)> {
    Seq::new(v@.len(), |i: int| &v@[i])
}

/// References to the values of the entries whose key satisfies `p`, in order.
pub open spec fn values_where<'a, K, V>(s: Seq<&'a (K, V)>, p: spec_fn(K) -> bool) -> Seq<&'a V>
    decreases s.len(),
{
    if s.len() == 0 {
        Seq::empty()
    } else if p(s.last().0) {
        values_where(s.drop_last(), p).push(&s.last().1)
    } else {
        values_where(s.drop_last(), p)
    }
}

/// Selecting from one more entry adds that entry's value when its key is selected.
pub proof fn lemma_values_where_step<'a, K, V>(v: &'a Vec<(K, V)>, i: int, p: spec_fn(K) -> bool)
    requires
        0 <= i < v@.len(),
    ensures
        values_where(entry_refs(v).subrange(0, i + 1), p) == if p(v@[i].0) {
            values_where(entry_refs(v).subrange(0, i), p).push(&v@[i].1)
        } else {
            values_where(entry_refs(v).subrange(0, i), p)
        },
{
    assert(entry_refs(v).subrange(0, i + 1).drop_last() =~= entry_refs(v).subrange(0, i));
}

/// The prefix of all entries is all entries, and nothing is selected from none.
pub proof fn lemma_values_where_all<'a, K, V>(v: &'a Vec<(K, V)>, p: spec_fn(K) -> bool)
    ensures
        entry_refs(v).subrange(0, v@.len() as int) == entry_refs(v),
        values_where(entry_refs(v).subrange(0, 0), p) == Seq::<&'a V>::empty(),
{
    assert(entry_refs(v).subrange(0, v@.len() as int) =~= entry_refs(v));
}

} // verus!
