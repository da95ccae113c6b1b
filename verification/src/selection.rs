use std::collections::HashSet;
use vstd::prelude::*;

use crate::node::NodeId;

verus! {

/// A finite set of node ids.
#[derive(Debug)]
pub struct NodeSet {
    ids: HashSet<u64>,
}

impl View for NodeSet {
    type V = Set<u64>;

    closed spec fn view(&self) -> Set<u64> {
        self.ids@
    }
}

impl NodeSet {
    /// The empty set.
    pub fn new() -> (s: NodeSet)
        ensures
            s@ == Set::<u64>::empty(),
    {
        NodeSet { ids: HashSet::new() }
    }

    /// Insert `id`, returning whether it was newly added.
    pub fn insert(&mut self, id: NodeId) -> (added: bool)
        ensures
            final(self)@ == old(self)@.insert(id.0),
            added == !old(self)@.contains(id.0),
    {
        self.ids.insert(id.0)
    }

    /// Remove `id`, returning whether it was present.
    pub fn remove(&mut self, id: NodeId) -> (removed: bool)
        ensures
            final(self)@ == old(self)@.remove(id.0),
            removed == old(self)@.contains(id.0),
    {
        self.ids.remove(&id.0)
    }

    /// Whether `id` is in the set.
    pub fn contains(&self, id: NodeId) -> (b: bool)
        ensures
            b == self@.contains(id.0),
    {
        self.ids.contains(&id.0)
    }

    /// Whether the set is empty.
    pub fn is_empty(&self) -> (b: bool)
        ensures
            b == (self@ == Set::<u64>::empty()),
    {
        let b = self.ids.is_empty();
        proof {
            if !b {
                assert(self@ != Set::<u64>::empty()) by {
                    assert(!self@.is_empty());
                }
            }
        }
        b
    }

    /// Remove every id.
    pub fn clear(&mut self)
        ensures
            final(self)@ == Set::<u64>::empty(),
    {
        self.ids.clear();
    }

    /// A copy of the set holding only the ids that `other` holds too.
    pub fn intersection(&self, other: &NodeSet) -> (r: NodeSet)
        ensures
            r@ == self@.intersect(other@),
    {
        let mut out: HashSet<u64> = HashSet::new();
        let ghost mut seen: Set<u64> = Set::empty();
        for v in it: self.ids.iter()
            invariant
                it.seq().unref().to_set() == self@,
                seen == it.seq().take(it.index()).unref().to_set(),
                it.index() == it.seq().len() ==> seen == self@,
                out@ == seen.intersect(other@),
        {
            proof {
                seen = seen.insert(*v);
            }
            proof {
                let s = it.seq().unref();
                assert(s.take(it.index() + 1) =~= s.take(it.index()).push(*v));
                assert(it.seq().take(it.index() + 1).unref() =~= s.take(it.index() + 1));
                assert(it.seq().take(it.index()).unref() =~= s.take(it.index()));
                s.take(it.index()).lemma_push_to_set_commute(*v);
                assert(it.index() + 1 == it.seq().len() ==> s.take(it.index() + 1) =~= s);
            }
            if other.ids.contains(v) {
                out.insert(*v);
            }
            proof {
                assert(out@ =~= seen.intersect(other@));
            }
        }
        NodeSet { ids: out }
    }
}

impl Clone for NodeSet {
    fn clone(&self) -> (r: NodeSet)
        ensures
            r@ == self@,
    {
        self.copy()
    }
}

impl Default for NodeSet {
    fn default() -> (s: NodeSet)
        ensures
            s@ == Set::<u64>::empty(),
    {
        NodeSet::new()
    }
}

impl Default for Selection {
    fn default() -> (s: Selection)
        ensures
            s.selected_set() == Set::<u64>::empty(),
            !s.dirty(),
    {
        Selection::new()
    }
}

impl NodeSet {
    /// The ids in the set, each once, in no particular order.
    pub fn ids(&self) -> (r: Vec<NodeId>)
        ensures
            r@.len() == self@.len(),
            forall|i: int| 0 <= i < r@.len() ==> self@.contains(#[trigger] r@[i].0),
            forall|x: u64| self@.contains(x) ==> exists|i: int| 0 <= i < r@.len() && #[trigger] r@[i].0 == x,
            forall|i: int, j: int| 0 <= i < j < r@.len() ==> r@[i] != r@[j],
    {
        let mut out: Vec<NodeId> = Vec::new();
        let ghost mut seen: Seq<u64> = Seq::empty();
        for v in it: self.ids.iter()
            invariant
                it.seq().unref().to_set() == self@,
                it.seq().len() == self@.len(),
                it.seq().unref().no_duplicates(),
                seen == it.seq().take(it.index()).unref(),
                it.index() == it.seq().len() ==> (seen.to_set() == self@ && seen.no_duplicates()
                    && seen.len() == self@.len()),
                out@.len() == seen.len(),
                forall|i: int| 0 <= i < seen.len() ==> #[trigger] out@[i].0 == seen[i],
        {
            proof {
                seen = seen.push(*v);
            }
            proof {
                assert(it.seq().take(it.index() + 1).unref() =~= it.seq().take(it.index()).unref().push(*v));
                assert(it.index() + 1 == it.seq().len() ==> it.seq().take(it.index() + 1).unref() =~= it.seq().unref());
            }
            out.push(NodeId(*v));
        }
        proof {
            assert forall|i: int| 0 <= i < out@.len() implies self@.contains(#[trigger] out@[i].0) by {
                assert(seen.contains(seen[i]));
            }
            assert forall|x: u64| self@.contains(x) implies exists|i: int| 0 <= i < out@.len() && #[trigger] out@[i].0 == x by {
                assert(seen.to_set().contains(x));
                let i = choose|i: int| 0 <= i < seen.len() && seen[i] == x;
                assert(out@[i].0 == x);
            }
            assert forall|i: int, j: int| 0 <= i < j < out@.len() implies out@[i] != out@[j] by {
                assert(out@[i].0 == seen[i]);
                assert(out@[j].0 == seen[j]);
            }
        }
        out
    }

    /// A copy of the set.
    pub fn copy(&self) -> (r: NodeSet)
        ensures
            r@ == self@,
    {
        let r = self.intersection(self);
        assert(r@ =~= self@);
        r
    }
}

/// The set of currently selected nodes, with a flag recording whether it
/// changed during the current frame.
#[derive(Clone, Debug)]
pub struct Selection {
    nodes: NodeSet,
    changed: bool,
}

impl Selection {
    /// The ids of the selected nodes.
    pub closed spec fn selected_set(&self) -> Set<u64> {
        self.nodes@
    }

    /// Whether the selection changed during the current frame.
    pub closed spec fn dirty(&self) -> bool {
        self.changed
    }

    /// An empty, unchanged selection.
    pub fn new() -> (s: Selection)
        ensures
            s.selected_set() == Set::<u64>::empty(),
            !s.dirty(),
    {
        Selection { nodes: NodeSet::new(), changed: false }
    }

    /// The selected nodes.
    pub fn nodes(&self) -> (r: &NodeSet)
        ensures
            r@ == self.selected_set(),
    {
        &self.nodes
    }

    /// Whether the selection changed during the current frame.
    pub fn changed(&self) -> (b: bool)
        ensures
            b == self.dirty(),
    {
        self.changed
    }

    /// Whether `id` is selected.
    pub fn contains(&self, id: NodeId) -> (b: bool)
        ensures
            b == self.selected_set().contains(id.0),
    {
        self.nodes.contains(id)
    }

    /// Start a new frame: adopt the externally provided selection, if any,
    /// and clear the changed flag.
    pub fn begin_frame(&mut self, replacement: Option<NodeSet>)
        ensures
            final(self).selected_set() == (match replacement {
                Some(n) => n@,
                None => old(self).selected_set(),
            }),
            !final(self).dirty(),
    {
        if let Some(nodes) = replacement {
            self.nodes = nodes;
        }
        self.changed = false;
    }

    /// Record that the selection changed this frame.
    pub fn mark_changed(&mut self)
        ensures
            final(self).selected_set() == old(self).selected_set(),
            final(self).dirty(),
    {
        self.changed = true;
    }

    /// Deselect `id`, returning whether it was selected. The changed flag is
    /// left to the caller.
    pub fn remove(&mut self, id: NodeId) -> (removed: bool)
        ensures
            final(self).selected_set() == old(self).selected_set().remove(id.0),
            final(self).dirty() == old(self).dirty(),
            removed == old(self).selected_set().contains(id.0),
    {
        self.nodes.remove(id)
    }

    /// Select `id`, returning whether it was newly selected. The changed flag
    /// is left to the caller.
    pub fn insert(&mut self, id: NodeId) -> (added: bool)
        ensures
            final(self).selected_set() == old(self).selected_set().insert(id.0),
            final(self).dirty() == old(self).dirty(),
            added == !old(self).selected_set().contains(id.0),
    {
        self.nodes.insert(id)
    }

    /// Update the selection of node `id` when a rectangle selection is
    /// released (`select`): a node inside the rectangle (and without `shift`,
    /// which reserves rectangles for edges) is selected; otherwise, unless
    /// `ctrl` is held, it is deselected. Returns whether membership changed.
    pub fn rect_release(&mut self, id: NodeId, select: bool, in_rect: bool, shift: bool, ctrl: bool) -> (changed: bool)
        ensures
            final(self).dirty() == old(self).dirty(),
            final(self).selected_set() == (if select && in_rect && !shift {
                old(self).selected_set().insert(id.0)
            } else if select && !ctrl {
                old(self).selected_set().remove(id.0)
            } else {
                old(self).selected_set()
            }),
            changed == (final(self).selected_set() != old(self).selected_set()),
    {
        let mut changed = false;
        if select {
            if in_rect && !shift {
                changed = self.nodes.insert(id);
            } else if !ctrl {
                changed = self.nodes.remove(id);
            }
        }
        proof {
            let o = old(self).selected_set();
            if !changed && select && in_rect && !shift {
                assert(o.insert(id.0) =~= o);
            }
            if !changed && select && !(in_rect && !shift) && !ctrl {
                assert(o.remove(id.0) =~= o);
            }
            if changed && select && in_rect && !shift {
                assert(o.insert(id.0).contains(id.0));
            }
            if changed && select && !(in_rect && !shift) && !ctrl {
                assert(!o.remove(id.0).contains(id.0));
            }
        }
        changed
    }

    /// Deselect every node; when `had_any` (the selection was not empty) the
    /// selection is marked changed.
    pub fn clear_nodes(&mut self, had_any: bool)
        requires
            had_any == (old(self).selected_set() != Set::<u64>::empty()),
        ensures
            final(self).selected_set() == Set::<u64>::empty(),
            final(self).dirty() == (old(self).dirty() || had_any),
    {
        self.changed = self.changed || had_any;
        self.nodes.clear();
    }

    /// Keep only the nodes that were visited this frame.
    pub fn retain_visited(&mut self, visited: &NodeSet)
        ensures
            final(self).selected_set() == old(self).selected_set().intersect(visited@),
            final(self).dirty() == old(self).dirty(),
    {
        self.nodes = self.nodes.intersection(visited);
    }

    /// A copy of the selected nodes when the selection changed this frame.
    pub fn changed_snapshot(&self) -> (r: Option<NodeSet>)
        ensures
            match r {
                Some(n) => self.dirty() && n@ == self.selected_set(),
                None => !self.dirty(),
            },
    {
        if self.changed {
            Some(self.nodes.copy())
        } else {
            None
        }
    }
}

} // verus!
