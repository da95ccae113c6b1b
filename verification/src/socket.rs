use vstd::prelude::*;

use crate::node::NodeId;

verus! {

/// Describes either an input or output.
#[derive(Clone, Copy, Debug, Eq, Hash, PartialEq, Structural)]
pub enum SocketKind {
    Input,
    Output,
}

/// Uniquely identifies a socket.
#[derive(Clone, Copy, Debug, Eq, Hash, PartialEq, Structural)]
pub struct Socket {
    /// The node that owns this socket.
    pub node: NodeId,
    /// Whether the socket is an input or output.
    pub kind: SocketKind,
    /// The index of the socket of this kind.
    pub index: usize,
}

/// The direction of dataflow through a node: which edges of its frame the
/// inputs and outputs sit on.
#[derive(Clone, Copy, Debug, PartialEq, Eq, Hash, Structural)]
pub enum Flow {
    /// Inputs on the left edge, outputs on the right.
    LeftToRight,
    /// Inputs on the right edge, outputs on the left.
    RightToLeft,
    /// Inputs on the top edge, outputs on the bottom.
    TopDown,
    /// Inputs on the bottom edge, outputs on the top.
    BottomUp,
}

/// An edge of a node's frame; a socket's normal points out of it.
#[derive(Clone, Copy, Debug, PartialEq, Eq, Hash, Structural)]
pub enum Side {
    Left,
    Right,
    Top,
    Bottom,
}

/// The side across the frame from `side`.
pub open spec fn opposite(side: Side) -> Side {
    match side {
        Side::Left => Side::Right,
        Side::Right => Side::Left,
        Side::Top => Side::Bottom,
        Side::Bottom => Side::Top,
    }
}

/// The side of the frame the inputs sit on for `flow`.
pub open spec fn side_of_inputs(flow: Flow) -> Side {
    match flow {
        Flow::LeftToRight => Side::Left,
        Flow::RightToLeft => Side::Right,
        Flow::TopDown => Side::Top,
        Flow::BottomUp => Side::Bottom,
    }
}

/// The side of the frame the inputs sit on for `flow`.
pub fn input_side(flow: Flow) -> (s: Side)
    ensures
        s == side_of_inputs(flow),
{
    match flow {
        Flow::LeftToRight => Side::Left,
        Flow::RightToLeft => Side::Right,
        Flow::TopDown => Side::Top,
        Flow::BottomUp => Side::Bottom,
    }
}

/// The side of the frame the outputs sit on for `flow`: across from the
/// inputs.
pub fn output_side(flow: Flow) -> (s: Side)
    ensures
        s == opposite(side_of_inputs(flow)),
        s == (match flow {
            Flow::LeftToRight => Side::Right,
            Flow::RightToLeft => Side::Left,
            Flow::TopDown => Side::Bottom,
            Flow::BottomUp => Side::Top,
        }),
{
    match flow {
        Flow::LeftToRight => Side::Right,
        Flow::RightToLeft => Side::Left,
        Flow::TopDown => Side::Bottom,
        Flow::BottomUp => Side::Top,
    }
}

/// Whether the sockets are spread along the vertical (left and right) edges,
/// so that more sockets need a taller frame; otherwise they are spread along
/// the horizontal edges and need a wider one.
pub fn sockets_on_vertical_edges(flow: Flow) -> (b: bool)
    ensures
        b == (flow == Flow::LeftToRight || flow == Flow::RightToLeft),
        b == (side_of_inputs(flow) == Side::Left || side_of_inputs(flow) == Side::Right),
{
    match flow {
        Flow::LeftToRight | Flow::RightToLeft => true,
        Flow::TopDown | Flow::BottomUp => false,
    }
}

/// The number of gaps a node's frame must leave between adjacent sockets
/// along one edge: one fewer than the larger of the input and output counts,
/// or none when no edge holds more than one socket.
pub fn socket_gap_count(inputs: usize, outputs: usize) -> (gaps: usize)
    ensures
        gaps == (if inputs >= outputs {
            if inputs > 1 {
                inputs - 1
            } else {
                0
            }
        } else {
            if outputs > 1 {
                outputs - 1
            } else {
                0
            }
        }),
{
    let max_sockets = if inputs >= outputs {
        inputs
    } else {
        outputs
    };
    if max_sockets > 1 {
        max_sockets - 1
    } else {
        0
    }
}

} // verus!
