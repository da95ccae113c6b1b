//! Ordering of the reference nodes that a dragged selection aligns to.

use vstd::multiset::Multiset;
use vstd::prelude::*;

use crate::node::NodeId;

verus! {

broadcast use vstd::seq_lib::group_to_multiset_ensures;

/// Whether the entries are in non-decreasing order of node id.
pub open spec fn sorted_by_id<T>(s: Seq<(NodeId, T)>) -> bool {
    forall|i: int, j: int| 0 <= i < j < s.len() ==> s[i].0.0 <= s[j].0.0
}

/// The entries whose node id is `k`.
pub open spec fn with_id<T>(s: Seq<(NodeId, T)>, k: u64) -> Seq<(NodeId, T)> {
    s.filter(|e: (NodeId, T)| e.0.0 == k)
}

/// Removing the first entry with its id from a sequence takes it off the
/// front of that id's entries and leaves the other ids' entries alone.
proof fn lemma_remove_first_of_id<T>(s: Seq<(NodeId, T)>, m: int, k: u64)
    requires
        0 <= m < s.len(),
        forall|t: int| 0 <= t < m ==> s[t].0.0 != s[m].0.0,
    ensures
        with_id(s, k) == (if s[m].0.0 == k {
            seq![s[m]] + with_id(s.remove(m), k)
        } else {
            with_id(s.remove(m), k)
        }),
{
    let pred = |e: (NodeId, T)| e.0.0 == k;
    let head = s.take(m);
    let tail = s.skip(m + 1);
    assert(s =~= head + seq![s[m]] + tail);
    assert(s.remove(m) =~= head + tail);
    Seq::filter_distributes_over_add(head + seq![s[m]], tail, pred);
    Seq::filter_distributes_over_add(head, seq![s[m]], pred);
    Seq::filter_distributes_over_add(head, tail, pred);
    reveal(Seq::filter);
    assert(seq![s[m]].drop_last() =~= Seq::<(NodeId, T)>::empty());
    assert(Seq::<(NodeId, T)>::empty().filter(pred) =~= Seq::<(NodeId, T)>::empty());
    if s[m].0.0 == k {
        assert forall|t: int| 0 <= t < head.len() implies !pred(head[t]) by {}
        head.lemma_all_neg_filter_empty(pred);
        assert(head.filter(pred) =~= Seq::<(NodeId, T)>::empty());
        assert(seq![s[m]].filter(pred) =~= seq![s[m]]);
    } else {
        assert(seq![s[m]].filter(pred) =~= Seq::<(NodeId, T)>::empty());
    }
}

/// Sort entries by node id, keeping entries with equal ids in their input
/// order, so that ties between equally good alignment candidates break the
/// same way every frame (the order a hash map hands out is not stable).
pub fn sort_by_node_id<T: Copy>(entries: Vec<(NodeId, T)>) -> (r: Vec<(NodeId, T)>)
    ensures
        r@.to_multiset() == entries@.to_multiset(),
        r@.len() == entries@.len(),
        sorted_by_id(r@),
        forall|k: u64| #[trigger] with_id(r@, k) == with_id(entries@, k),
{
    let mut rest = entries;
    let mut out: Vec<(NodeId, T)> = Vec::new();
    while rest.len() > 0
        invariant
            out@.to_multiset().add(rest@.to_multiset()) == entries@.to_multiset(),
            sorted_by_id(out@),
            forall|i: int, k: int| 0 <= i < out@.len() && 0 <= k < rest@.len() ==> out@[i].0.0 <= rest@[k].0.0,
            forall|k: u64| #[trigger] with_id(out@, k) + with_id(rest@, k) == with_id(entries@, k),
        decreases rest.len(),
    {
        let mut m: usize = 0;
        let mut k: usize = 1;
        while k < rest.len()
            invariant
                0 <= m < rest@.len(),
                m < k <= rest@.len(),
                forall|t: int| 0 <= t < k ==> rest@[m as int].0.0 <= rest@[t].0.0,
                forall|t: int| 0 <= t < m ==> rest@[m as int].0.0 < rest@[t].0.0,
            decreases rest@.len() - k,
        {
            if rest[k].0.0 < rest[m].0.0 {
                m = k;
            }
            k = k + 1;
        }
        let ghost before = rest@;
        let x = rest.remove(m);
        proof {
            assert(before.remove(m as int).to_multiset() =~= before.to_multiset().remove(before[m as int]));
            assert forall|t: int| 0 <= t < rest@.len() implies x.0.0 <= rest@[t].0.0 by {
                if t < m {
                    assert(rest@[t] == before[t]);
                } else {
                    assert(rest@[t] == before[t + 1]);
                }
            }
            assert forall|i: int, t: int| 0 <= i < out@.len() && 0 <= t < rest@.len() implies out@[i].0.0 <= rest@[t].0.0 by {
                if t < m {
                    assert(rest@[t] == before[t]);
                } else {
                    assert(rest@[t] == before[t + 1]);
                }
            }
        }
        let ghost out_before = out@;
        out.push(x);
        proof {
            assert(out@.to_multiset() =~= out_before.to_multiset().insert(x));
            assert(out@.to_multiset().add(rest@.to_multiset()) =~= entries@.to_multiset());
            assert forall|k: u64| #[trigger] with_id(out@, k) + with_id(rest@, k) == with_id(entries@, k) by {
                lemma_remove_first_of_id(before, m as int, k);
                out_before.lemma_filter_push(x, |e: (NodeId, T)| e.0.0 == k);
                assert(out@ == out_before.push(x));
                assert(before.remove(m as int) == rest@);
                if x.0.0 == k {
                    assert(with_id(out@, k) + with_id(rest@, k) =~= with_id(out_before, k) + with_id(before, k));
                } else {
                    assert(with_id(out@, k) + with_id(rest@, k) =~= with_id(out_before, k) + with_id(before, k));
                }
            }
        }
    }
    proof {
        assert(rest@.to_multiset() =~= Multiset::empty());
        assert(out@.to_multiset() =~= entries@.to_multiset());
        assert(out@.len() == out@.to_multiset().len());
        assert(entries@.len() == entries@.to_multiset().len());
        assert forall|k: u64| #[trigger] with_id(out@, k) == with_id(entries@, k) by {
            reveal(Seq::filter);
            assert(with_id(rest@, k) =~= Seq::<(NodeId, T)>::empty());
            assert(with_id(out@, k) + with_id(rest@, k) =~= with_id(out@, k));
        }
    }
    out
}

} // verus!
