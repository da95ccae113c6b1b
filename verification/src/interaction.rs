//! The pointer-interaction state machine of the graph: presses that start a
//! rectangle selection, a node drag or an edge, and how each node and edge
//! reacts to them. Positions are opaque (`P`): the rendering layer computes
//! geometry, this module decides.

use vstd::prelude::*;

use crate::node::{EdgeEvent, NodeId};
use crate::selection::{NodeSet, Selection};
use crate::socket::{Socket, SocketKind};

verus! {

/// The node pressed to start a drag.
#[derive(Clone, Copy, Debug)]
pub struct PressedNode<P> {
    /// Unique id of the node.
    pub id: NodeId,
    /// The position of the node over the graph at the origin of the press.
    pub position_at_origin: P,
}

/// The action performed by a press of the primary pointer button.
#[derive(Clone, Copy, Debug)]
pub enum PressAction<P> {
    /// A node was pressed and a drag is taking place. The node is `None`
    /// until the node itself reports the press.
    DragNodes { node: Option<PressedNode<P>> },
    /// The graph was pressed and a rectangle selection is being performed.
    Select,
    /// A node's socket was pressed in order to start creating a connection.
    Socket(Socket),
}

/// State of the last press of the primary pointer button over the graph.
#[derive(Clone, Copy, Debug)]
pub struct Pressed<P> {
    /// Whether the press started over one of the selected nodes.
    pub over_selection_at_origin: bool,
    /// The pointer position over the graph when the press began.
    pub origin_pos: P,
    /// The current pointer position over the graph.
    pub current_pos: P,
    /// The action performed by this press.
    pub action: PressAction<P>,
}

/// The primary pointer button's state for one frame.
#[derive(Clone, Copy, Debug)]
pub struct PointerButtons {
    /// The primary button was released this frame.
    pub primary_released: bool,
    /// The primary button is down.
    pub primary_down: bool,
    /// The primary button was pressed this frame.
    pub primary_pressed: bool,
}

/// What the rendering layer needs to compute the drag delta of the pressed
/// node: its target is `position_at_origin + (pointer - origin_pos)`.
#[derive(Clone, Copy, Debug)]
pub struct DragQuery<P> {
    pub node: NodeId,
    pub origin_pos: P,
    pub position_at_origin: P,
}

/// The graph-level interaction detected in one frame, before the nodes run.
#[derive(Clone, Copy, Debug)]
pub struct GraphInteraction<P> {
    /// The press state to carry into the next frame.
    pub pressed: Option<Pressed<P>>,
    /// The socket press that ended this frame, if any.
    pub socket_press_released: Option<Socket>,
    /// Whether a rectangle selection was released this frame.
    pub select: bool,
    /// The corners of the rectangle selection in progress.
    pub selection_rect: Option<(P, P)>,
    /// The node drag in progress.
    pub drag: Option<DragQuery<P>>,
}

/// The press state after one frame, while the press goes on.
pub open spec fn continued<P>(p: Pressed<P>, ptr: P) -> Pressed<P> {
    Pressed {
        over_selection_at_origin: p.over_selection_at_origin,
        origin_pos: p.origin_pos,
        current_pos: ptr,
        action: p.action,
    }
}

/// The press started over the graph background at `ptr`.
pub open spec fn new_press<P>(closest_socket: Option<Socket>, ptr: P) -> Pressed<P> {
    Pressed {
        over_selection_at_origin: false,
        origin_pos: ptr,
        current_pos: ptr,
        action: match closest_socket {
            Some(s) => PressAction::Socket(s),
            None => PressAction::Select,
        },
    }
}

/// The drag query of a press, if it drags a known node.
pub open spec fn drag_of<P>(p: Pressed<P>) -> Option<DragQuery<P>> {
    match p.action {
        PressAction::DragNodes { node: Some(n) } => Some(
            DragQuery { node: n.id, origin_pos: p.origin_pos, position_at_origin: n.position_at_origin },
        ),
        _ => None,
    }
}

/// The socket of a socket press.
pub open spec fn socket_of<P>(action: PressAction<P>) -> Option<Socket> {
    match action {
        PressAction::Socket(s) => Some(s),
        _ => None,
    }
}

/// The socket a press may start an edge from: none in a view-only graph,
/// where socket presses become rectangle selections.
pub open spec fn pressable(closest_socket: Option<Socket>, immutable: bool) -> Option<Socket> {
    if immutable {
        None
    } else {
        closest_socket
    }
}

/// The socket a press may start an edge from; see [`pressable`].
pub fn pressable_socket(closest_socket: Option<Socket>, immutable: bool) -> (r: Option<Socket>)
    ensures
        r == pressable(closest_socket, immutable),
{
    if immutable {
        None
    } else {
        closest_socket
    }
}

/// The graph-level interaction of one frame, from the previous press state
/// and this frame's input.
pub open spec fn interaction_spec<P>(
    pressed: Option<Pressed<P>>,
    buttons: PointerButtons,
    closest_socket: Option<Socket>,
    ptr_on_graph: bool,
    ptr_graph: P,
) -> GraphInteraction<P> {
    match pressed {
        Some(p) => GraphInteraction {
            pressed: if buttons.primary_released {
                None
            } else {
                Some(continued(p, ptr_graph))
            },
            socket_press_released: if buttons.primary_released {
                socket_of(p.action)
            } else {
                None
            },
            select: buttons.primary_released && p.action is Select,
            selection_rect: if p.action is Select {
                Some((p.origin_pos, ptr_graph))
            } else {
                None
            },
            drag: drag_of(p),
        },
        None => if ptr_on_graph && buttons.primary_down && buttons.primary_pressed {
            GraphInteraction {
                pressed: Some(new_press(closest_socket, ptr_graph)),
                socket_press_released: None,
                select: false,
                selection_rect: if closest_socket is None {
                    Some((ptr_graph, ptr_graph))
                } else {
                    None
                },
                drag: None,
            }
        } else {
            GraphInteraction {
                pressed: None,
                socket_press_released: None,
                select: false,
                selection_rect: None,
                drag: None,
            }
        },
    }
}

/// Interpret the basic interactions from the previous press state and this
/// frame's input: continue, finish or begin a press.
///
/// A press over the graph background begins an edge when a socket is within
/// reach (`closest_socket`) and a rectangle selection otherwise.
pub fn graph_interaction<P: Copy>(
    pressed: Option<Pressed<P>>,
    buttons: PointerButtons,
    closest_socket: Option<Socket>,
    ptr_on_graph: bool,
    ptr_graph: P,
) -> (r: GraphInteraction<P>)
    ensures
        r == interaction_spec(pressed, buttons, closest_socket, ptr_on_graph, ptr_graph),
{
    let mut select = false;
    let mut socket_press_released = None;
    let mut selection_rect = None;
    let mut drag = None;
    let next = match pressed {
        Some(p) => {
            match p.action {
                PressAction::DragNodes { node: Some(n) } => {
                    drag = Some(
                        DragQuery {
                            node: n.id,
                            origin_pos: p.origin_pos,
                            position_at_origin: n.position_at_origin,
                        },
                    );
                },
                PressAction::Select => {
                    selection_rect = Some((p.origin_pos, ptr_graph));
                },
                _ => {},
            }
            if buttons.primary_released {
                match p.action {
                    PressAction::Select => select = true,
                    PressAction::Socket(socket) => socket_press_released = Some(socket),
                    _ => {},
                }
                None
            } else {
                Some(
                    Pressed {
                        over_selection_at_origin: p.over_selection_at_origin,
                        origin_pos: p.origin_pos,
                        current_pos: ptr_graph,
                        action: p.action,
                    },
                )
            }
        },
        None => {
            if ptr_on_graph && buttons.primary_down && buttons.primary_pressed {
                let action = match closest_socket {
                    Some(socket) => PressAction::Socket(socket),
                    None => {
                        selection_rect = Some((ptr_graph, ptr_graph));
                        PressAction::Select
                    },
                };
                Some(
                    Pressed {
                        over_selection_at_origin: false,
                        origin_pos: ptr_graph,
                        current_pos: ptr_graph,
                        action,
                    },
                )
            } else {
                None
            }
        },
    };
    GraphInteraction { pressed: next, socket_press_released, select, selection_rect, drag }
}

/// Pointer and keyboard state relevant to a node's frame for one frame.
#[derive(Clone, Copy, Debug)]
pub struct NodePointerInput {
    /// The primary button is down on the node's frame.
    pub down_on: bool,
    /// The primary button was pressed this frame.
    pub primary_pressed: bool,
    /// The primary button was released this frame.
    pub primary_released: bool,
    /// The ctrl modifier is held.
    pub ctrl: bool,
    /// The graph is in view-only mode.
    pub immutable: bool,
}

/// The outcome of [`node_pointer_step`] for one node.
#[derive(Clone, Copy, Debug)]
pub struct NodePointerOutcome {
    /// Whether this node's selection membership changed this frame.
    pub selection_changed: bool,
    /// Whether the node is now selected.
    pub selected: bool,
    /// An edge-creation event concerning this node.
    pub edge_event: Option<EdgeEvent>,
}

/// The drag press started when a node's frame is pressed at `ptr` while the
/// node sits at `pos`.
pub open spec fn node_drag_press<P>(id: NodeId, ptr: P, pos: P) -> Pressed<P> {
    Pressed {
        over_selection_at_origin: true,
        origin_pos: ptr,
        current_pos: ptr,
        action: PressAction::DragNodes { node: Some(PressedNode { id, position_at_origin: pos }) },
    }
}

/// The edge event that a released socket press produces for node `id`, given
/// the socket closest to the pointer.
pub open spec fn release_event(
    id: NodeId,
    released: Option<Socket>,
    closest: Option<Socket>,
    primary_released: bool,
) -> Option<EdgeEvent> {
    match released {
        Some(r) => match closest {
            Some(c) => if r.kind == c.kind && id == r.node {
                Some(EdgeEvent::Cancelled)
            } else if id == c.node && primary_released {
                Some(EdgeEvent::Ended { kind: c.kind, index: c.index })
            } else {
                None
            },
            None => if id == r.node {
                Some(EdgeEvent::Cancelled)
            } else {
                None
            },
        },
        None => None,
    }
}

/// The selection after node `id`'s frame is pressed: with ctrl a selected
/// node is deselected and any other node added; without ctrl a node that was
/// not selected becomes the only selected node, and a selected one stays.
pub open spec fn pressed_selection(s: Set<u64>, id: NodeId, ctrl: bool) -> Set<u64> {
    if ctrl && s.contains(id.0) {
        s.remove(id.0)
    } else if !ctrl && !s.contains(id.0) {
        Set::<u64>::empty().insert(id.0)
    } else {
        s.insert(id.0)
    }
}

/// React to the pointer on node `id`'s frame: select it on press (clearing
/// other selections unless ctrl is held, ctrl-press toggles it off), start a
/// drag of it, report the start, end or cancellation of an edge, and drop
/// it from the selection when the graph is pressed elsewhere.
///
/// `ptr` is the pointer over the graph and `pos` the node's position;
/// `selected` and `selection_changed` are the node's state so far this frame.
pub fn node_pointer_step<P: Copy>(
    sel: &mut Selection,
    pressed: &mut Option<Pressed<P>>,
    id: NodeId,
    input: NodePointerInput,
    socket_press_released: Option<Socket>,
    closest_socket: Option<Socket>,
    ptr: P,
    pos: P,
    selected: bool,
    selection_changed: bool,
) -> (r: NodePointerOutcome)
    ensures
        input.immutable ==> r.edge_event is None && *final(pressed) == *old(pressed),
        ({
            let was = old(sel).selected_set().contains(id.0);
            if input.down_on && input.primary_pressed {
                &&& r.edge_event is None
                &&& final(sel).selected_set() == pressed_selection(old(sel).selected_set(), id, input.ctrl)
                &&& if input.ctrl && was {
                    &&& final(sel).dirty() == old(sel).dirty()
                    &&& r.selection_changed
                    &&& !r.selected
                    &&& *final(pressed) == *old(pressed)
                } else {
                    &&& final(sel).dirty() == (old(sel).dirty() || (!input.ctrl && !was
                        && old(sel).selected_set() != Set::<u64>::empty()))
                    &&& r.selection_changed == (selection_changed || !was)
                    &&& r.selected
                    &&& *final(pressed) == (if !input.immutable && *old(pressed) is None {
                        Some(node_drag_press(id, ptr, pos))
                    } else {
                        *old(pressed)
                    })
                }
            } else {
                &&& final(sel).selected_set() == old(sel).selected_set()
                &&& final(sel).dirty() == old(sel).dirty()
                &&& *final(pressed) == *old(pressed)
                &&& r.selection_changed == selection_changed
                &&& if !input.immutable && !input.down_on && input.primary_pressed {
                    &&& r.edge_event == (match *old(pressed) {
                        Some(p) => match p.action {
                            PressAction::Socket(s) => if s.node == id {
                                Some(EdgeEvent::Started { kind: s.kind, index: s.index })
                            } else {
                                None
                            },
                            _ => None,
                        },
                        None => None,
                    })
                    &&& r.selected == (selected && (input.ctrl || was || match *old(pressed) {
                        Some(p) => p.over_selection_at_origin,
                        None => false,
                    }))
                } else if !input.immutable {
                    &&& r.edge_event == release_event(
                        id,
                        socket_press_released,
                        closest_socket,
                        input.primary_released,
                    )
                    &&& r.selected == selected
                } else {
                    &&& r.edge_event is None
                    &&& r.selected == selected
                }
            }
        }),
{
    let mut selection_changed = selection_changed;
    let mut selected = selected;
    let mut edge_event = None;
    if input.down_on && input.primary_pressed {
        let was_selected = sel.contains(id);
        if input.ctrl && was_selected {
            let removed = sel.remove(id);
            selection_changed = selection_changed || removed;
            selected = false;
        } else {
            if !input.ctrl && !was_selected {
                let had_any = !sel.nodes().is_empty();
                sel.clear_nodes(had_any);
            }
            let added = sel.insert(id);
            selection_changed = selection_changed || added;
            selected = true;
            if !input.immutable && pressed.is_none() {
                *pressed = Some(
                    Pressed {
                        over_selection_at_origin: true,
                        origin_pos: ptr,
                        current_pos: ptr,
                        action: PressAction::DragNodes {
                            node: Some(PressedNode { id, position_at_origin: pos }),
                        },
                    },
                );
            }
        }
    } else if !input.immutable && !input.down_on && input.primary_pressed {
        if let Some(p) = pressed {
            if let PressAction::Socket(socket) = p.action {
                if id == socket.node {
                    edge_event = Some(EdgeEvent::Started { kind: socket.kind, index: socket.index });
                }
            }
        }
        let over_selection = match pressed {
            Some(p) => p.over_selection_at_origin,
            None => false,
        };
        if !input.ctrl && !over_selection && !sel.contains(id) {
            let removed = sel.remove(id);
            selection_changed = selection_changed || removed;
            selected = false;
        }
    } else if !input.immutable {
        if let Some(r) = socket_press_released {
            if let Some(c) = closest_socket {
                if r.kind == c.kind && id == r.node {
                    edge_event = Some(EdgeEvent::Cancelled);
                } else if id == c.node && input.primary_released {
                    edge_event = Some(EdgeEvent::Ended { kind: c.kind, index: c.index });
                }
            } else if edge_event.is_none() && id == r.node {
                edge_event = Some(EdgeEvent::Cancelled);
            }
        }
    }
    proof {
        assert(old(sel).selected_set().remove(id.0) =~= old(sel).selected_set()
            || old(sel).selected_set().contains(id.0));
    }
    NodePointerOutcome { selection_changed, selected, edge_event }
}

/// The outcome of [`node_removal_step`].
#[derive(Clone, Copy, Debug)]
pub struct NodeRemoval {
    /// Whether the node was removed from the graph.
    pub removed: bool,
    /// Whether the node is still selected.
    pub selected: bool,
    /// Whether this node's selection membership changed this frame.
    pub selection_changed: bool,
}

/// Remove a selected node when deletion is requested (delete or backspace
/// pressed while no text field wants the keyboard), unless the graph is
/// view-only; then propagate a selection change of this node to the
/// selection's changed flag.
pub fn node_removal_step(
    sel: &mut Selection,
    id: NodeId,
    delete_requested: bool,
    immutable: bool,
    selected: bool,
    selection_changed: bool,
) -> (r: NodeRemoval)
    ensures
        r.removed == (!immutable && selected && delete_requested),
        r.selected == (selected && !r.removed),
        final(sel).selected_set() == (if r.removed {
            old(sel).selected_set().remove(id.0)
        } else {
            old(sel).selected_set()
        }),
        r.selection_changed == (selection_changed || (r.removed && old(sel).selected_set().contains(
            id.0,
        ))),
        final(sel).dirty() == (old(sel).dirty() || r.selection_changed),
{
    let mut selection_changed = selection_changed;
    let mut selected = selected;
    let removed = if !immutable && selected && delete_requested {
        let was = sel.remove(id);
        selection_changed = selection_changed || was;
        selected = false;
        true
    } else {
        false
    };
    if selection_changed {
        sel.mark_changed();
    }
    NodeRemoval { removed, selected, selection_changed }
}

/// The sockets of node `node` to highlight: the pressed socket (if this
/// node's socket started the press) and the socket closest to the pointer,
/// unless it is of the same kind as a pressed socket.
pub fn socket_highlights<P>(
    pressed: &Option<Pressed<P>>,
    closest_socket: Option<Socket>,
    node: NodeId,
) -> (r: (Option<(SocketKind, usize)>, Option<(SocketKind, usize)>))
    ensures
        r.0 == (match *pressed {
            Some(p) => match p.action {
                PressAction::Socket(s) => if s.node == node {
                    Some((s.kind, s.index))
                } else {
                    None
                },
                _ => None,
            },
            None => None,
        }),
        r.1 == (match closest_socket {
            Some(c) => if c.node != node {
                None
            } else {
                match *pressed {
                    Some(p) => match p.action {
                        PressAction::Socket(s) => if c.kind == s.kind {
                            None
                        } else {
                            Some((c.kind, c.index))
                        },
                        _ => Some((c.kind, c.index)),
                    },
                    None => Some((c.kind, c.index)),
                }
            },
            None => None,
        }),
{
    let pressed_socket = match pressed {
        Some(p) => match p.action {
            PressAction::Socket(socket) => if socket.node == node {
                Some((socket.kind, socket.index))
            } else {
                None
            },
            _ => None,
        },
        None => None,
    };
    let closest = match closest_socket {
        Some(c) => if c.node == node {
            match pressed {
                Some(p) => match p.action {
                    PressAction::Socket(socket) => if c.kind == socket.kind {
                        None
                    } else {
                        Some((c.kind, c.index))
                    },
                    _ => Some((c.kind, c.index)),
                },
                None => Some((c.kind, c.index)),
            }
        } else {
            None
        },
        None => None,
    };
    (pressed_socket, closest)
}

/// Whether socket `(kind, index)` is one of the highlighted sockets.
pub fn is_highlighted(
    kind: SocketKind,
    index: usize,
    pressed_socket: Option<(SocketKind, usize)>,
    closest_socket: Option<(SocketKind, usize)>,
) -> (b: bool)
    ensures
        b == (pressed_socket == Some((kind, index)) || closest_socket == Some((kind, index))),
{
    let in_pressed = match pressed_socket {
        Some((k, i)) => k == kind && i == index,
        None => false,
    };
    let in_closest = match closest_socket {
        Some((k, i)) => k == kind && i == index,
        None => false,
    };
    in_pressed || in_closest
}

/// The sockets of an edge being created: the socket whose press started it,
/// and the socket closest to the pointer when that one is of the opposite
/// kind (where the edge would end). `None` when no socket press is underway.
pub fn in_progress_sockets<P>(
    pressed: &Option<Pressed<P>>,
    closest_socket: Option<Socket>,
) -> (r: Option<(Socket, Option<Socket>)>)
    ensures
        r == (match *pressed {
            Some(p) => match p.action {
                PressAction::Socket(start) => Some(
                    (
                        start,
                        match closest_socket {
                            Some(c) => if c.kind != start.kind {
                                Some(c)
                            } else {
                                None
                            },
                            None => None,
                        },
                    ),
                ),
                _ => None,
            },
            None => None,
        }),
{
    match pressed {
        Some(p) => match p.action {
            PressAction::Socket(start) => {
                let end = match closest_socket {
                    Some(c) => if c.kind != start.kind {
                        Some(c)
                    } else {
                        None
                    },
                    None => None,
                };
                Some((start, end))
            },
            _ => None,
        },
        None => None,
    }
}

/// The node a press refers to: the dragged node or the node of the pressed
/// socket.
pub open spec fn press_node<P>(p: Pressed<P>) -> Option<NodeId> {
    match p.action {
        PressAction::DragNodes { node: Some(n) } => Some(n.id),
        PressAction::Socket(s) => Some(s.node),
        _ => None,
    }
}

/// Forget interaction state that refers to nodes that were not visited this
/// frame (nodes the user removed from the graph): the closest socket and a
/// press that drags such a node or started at its socket.
pub fn prune_interaction<P: Copy>(
    closest_socket: &mut Option<Socket>,
    pressed: &mut Option<Pressed<P>>,
    visited: &NodeSet,
)
    ensures
        *final(closest_socket) == (match *old(closest_socket) {
            Some(s) => if visited@.contains(s.node.0) {
                Some(s)
            } else {
                None
            },
            None => None,
        }),
        *final(pressed) == (match *old(pressed) {
            Some(p) => match press_node(p) {
                Some(n) => if visited@.contains(n.0) {
                    Some(p)
                } else {
                    None
                },
                None => Some(p),
            },
            None => None,
        }),
{
    if let Some(socket) = *closest_socket {
        if !visited.contains(socket.node) {
            *closest_socket = None;
        }
    }
    if let Some(p) = *pressed {
        let node = match p.action {
            PressAction::DragNodes { node: Some(n) } => Some(n.id),
            PressAction::Socket(s) => Some(s.node),
            _ => None,
        };
        if let Some(n) = node {
            if !visited.contains(n) {
                *pressed = None;
            }
        }
    }
}

/// Whether the press is a node drag (possibly still waiting for its node).
pub open spec fn is_dragging<P>(pressed: Option<Pressed<P>>) -> bool {
    match pressed {
        Some(p) => p.action is DragNodes,
        None => false,
    }
}

/// Whether node `id` is exempt from per-node position snapping this frame:
/// the nodes of a drag in progress are moved rigidly as a group instead.
pub fn skips_snap<P>(pressed: &Option<Pressed<P>>, sel: &Selection, id: NodeId) -> (b: bool)
    ensures
        b == (is_dragging(*pressed) && sel.selected_set().contains(id.0)),
{
    let dragging = match pressed {
        Some(p) => match p.action {
            PressAction::DragNodes { .. } => true,
            _ => false,
        },
        None => false,
    };
    dragging && sel.contains(id)
}

/// The node anchoring a drag in progress: the pressed node of a node drag.
pub fn drag_anchor<P: Copy>(pressed: &Option<Pressed<P>>) -> (r: Option<PressedNode<P>>)
    ensures
        r == (match *pressed {
            Some(p) => match p.action {
                PressAction::DragNodes { node } => node,
                _ => None,
            },
            None => None,
        }),
{
    match pressed {
        Some(p) => match p.action {
            PressAction::DragNodes { node } => node,
            _ => None,
        },
        None => None,
    }
}

} // verus!
