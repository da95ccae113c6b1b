use std::collections::hash_map::DefaultHasher;
use std::hash::{Hash, Hasher};
use vstd::prelude::*;
use vstd::std_specs::hash::DefaultHasherAdditionalSpecFns;

use crate::socket::SocketKind;

verus! {

/// A unique identifier for a node within a graph.
///
/// This is decoupled from any UI identifier so that node identity remains
/// stable even when the graph is viewed through different UI contexts.
#[derive(Clone, Copy, Debug, Default, PartialEq, Eq, Hash, PartialOrd, Ord, Structural)]
pub struct NodeId(pub u64);

/// Feeds `value` into `state` through its `Hash` implementation.
///
/// Trusted: calls `std::hash::Hash::hash`. What the impl writes depends on the
/// type of `value`, so nothing is stated about the hasher afterwards.
#[verifier::external_body]
fn hash_into<T: Hash>(value: &T, state: &mut DefaultHasher) {
    value.hash(state)
}

impl NodeId {
    /// Create a new `NodeId` by hashing any hashable value with the
    /// standard library's default hasher (fixed keys, so equal sources give
    /// equal ids within one build). The id is the default hasher's digest
    /// of the writes that the source's `Hash` impl makes.
    pub fn new<T: Hash>(id_src: T) -> (id: NodeId)
        ensures
            exists|writes: Seq<Seq<u8>>| id.0 == DefaultHasher::spec_finish(writes),
    {
        let mut hasher = DefaultHasher::new();
        hash_into(&id_src, &mut hasher);
        let ghost writes = hasher@;
        let digest = hasher.finish();
        assert(digest == DefaultHasher::spec_finish(writes));
        NodeId(digest)
    }

    /// Create a `NodeId` directly from a `u64`.
    pub fn from_u64(v: u64) -> (id: NodeId)
        ensures
            id == NodeId(v),
    {
        NodeId(v)
    }

    /// Get the raw `u64` value.
    pub fn value(self) -> (v: u64)
        ensures
            v == self.0,
    {
        self.0
    }
}

impl From<u64> for NodeId {
    fn from(v: u64) -> (id: NodeId) {
        NodeId(v)
    }
}

impl vstd::std_specs::convert::FromSpecImpl<u64> for NodeId {
    open spec fn obeys_from_spec() -> bool {
        true
    }

    open spec fn from_spec(v: u64) -> NodeId {
        NodeId(v)
    }
}

/// Describes the interaction state of a node.
///
/// This is passed to the frame closure to allow styling based on selection state.
#[derive(Clone, Copy, Debug, Default, PartialEq, Eq, Structural)]
pub struct NodeInteraction {
    /// Whether the node is currently selected.
    pub selected: bool,
    /// Whether the node is within the current selection rectangle.
    pub in_selection_rect: bool,
    /// Whether or not the pointer is hovered over the node.
    pub hovered: bool,
}

/// Events related to the creation of an edge to or from a node.
#[derive(Clone, Copy, Debug, Eq, Hash, PartialEq, Structural)]
pub enum EdgeEvent {
    /// Occurs if a socket was just pressed to start creating an edge.
    Started { kind: SocketKind, index: usize },
    /// Occurs when the primary mouse button was released creating an edge ending at the specified
    /// socket.
    Ended { kind: SocketKind, index: usize },
    /// If there was an edge in progress starting from this node, this indicates that it was
    /// cancelled.
    Cancelled,
}

/// What a node reports about its selection: `Some(selected)` when its
/// selection changed this frame, `None` otherwise.
pub fn selection_report(selection_changed: bool, selected: bool) -> (r: Option<bool>)
    ensures
        r == (if selection_changed {
            Some(selected)
        } else {
            None
        }),
{
    if selection_changed {
        Some(selected)
    } else {
        None
    }
}

} // verus!
