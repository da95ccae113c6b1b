//! Verified core of a node-graph widget: node identity, the selection set,
//! the pointer-interaction state machine behind selection, dragging and edge
//! creation, and the configuration values shared with the rendering layer.
//!
//! Positions are opaque to this crate: the rendering layer computes the
//! geometry and hands the decisions here plain values.

pub mod align;
pub mod edge;
pub mod interaction;
pub mod laws;
pub mod node;
pub mod options;
pub mod selection;
pub mod socket;

pub use node::{EdgeEvent, NodeId, NodeInteraction};
pub use options::{AlignBy, AlignTargets, Alignment, ResizeBehavior, Snap};
pub use selection::{NodeSet, Selection};
pub use socket::{Flow, Side, Socket, SocketKind};
