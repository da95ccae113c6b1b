//! Properties of the interaction rules that span several frames.

use vstd::prelude::*;

use crate::edge::{can_interact, selected_after, EdgeInput};
use crate::interaction::{
    interaction_spec, node_drag_press, pressable, pressed_selection, release_event, DragQuery,
    PointerButtons, PressAction, Pressed, PressedNode,
};
use crate::node::{EdgeEvent, NodeId};
use crate::socket::Socket;

verus! {

/// Pressing a node's frame twice with ctrl held leaves the selection as it was:
/// ctrl-press toggles the node.
pub proof fn lemma_ctrl_press_toggles(s: Set<u64>, id: NodeId)
    ensures
        pressed_selection(pressed_selection(s, id, true), id, true) == s,
        pressed_selection(s, id, true).contains(id.0) == !s.contains(id.0),
{
    if s.contains(id.0) {
        assert(s.remove(id.0).insert(id.0) =~= s);
    } else {
        assert(s.insert(id.0).remove(id.0) =~= s);
    }
}

/// Pressing a node's frame without ctrl always leaves it selected; if it was
/// not selected before, it becomes the only selected node.
pub proof fn lemma_plain_press_selects(s: Set<u64>, id: NodeId)
    ensures
        pressed_selection(s, id, false).contains(id.0),
        !s.contains(id.0) ==> pressed_selection(s, id, false) == Set::<u64>::empty().insert(id.0),
        s.contains(id.0) ==> pressed_selection(s, id, false) == s,
{
    if s.contains(id.0) {
        assert(s.insert(id.0) =~= s);
    }
}

/// Pressing the graph background away from any socket and releasing it
/// again reports a finished rectangle selection spanning from the press
/// point to the release point, and ends the press.
pub proof fn lemma_background_press_release_selects<P>(
    press: PointerButtons,
    release: PointerButtons,
    at_press: P,
    at_release: P,
    closest_at_release: Option<Socket>,
    on_graph_at_release: bool,
)
    requires
        press.primary_down,
        press.primary_pressed,
        !press.primary_released,
        release.primary_released,
    ensures
        ({
            let first = interaction_spec(None, press, None, true, at_press);
            let second = interaction_spec(
                first.pressed,
                release,
                closest_at_release,
                on_graph_at_release,
                at_release,
            );
            &&& first.selection_rect == Some((at_press, at_press))
            &&& !first.select
            &&& second.select
            &&& second.pressed is None
            &&& second.selection_rect == Some((at_press, at_release))
            &&& second.socket_press_released is None
        }),
{
}

/// Pressing the graph next to a socket starts an edge from that socket; on
/// release the press ends and reports that socket (and no rectangle selection).
pub proof fn lemma_socket_press_release_reports_socket<P>(
    socket: Socket,
    press: PointerButtons,
    release: PointerButtons,
    at_press: P,
    at_release: P,
    closest_at_release: Option<Socket>,
    on_graph_at_release: bool,
)
    requires
        press.primary_down,
        press.primary_pressed,
        !press.primary_released,
        release.primary_released,
    ensures
        ({
            let first = interaction_spec(None, press, Some(socket), true, at_press);
            let second = interaction_spec(
                first.pressed,
                release,
                closest_at_release,
                on_graph_at_release,
                at_release,
            );
            &&& first.selection_rect is None
            &&& second.socket_press_released == Some(socket)
            &&& !second.select
            &&& second.pressed is None
        }),
{
}

/// A press goes on, keeping its origin and action, for as long as the
/// primary button is not released; no new press starts meanwhile.
pub proof fn lemma_press_persists_until_release<P>(
    pressed: crate::interaction::Pressed<P>,
    buttons: PointerButtons,
    closest: Option<Socket>,
    on_graph: bool,
    ptr: P,
)
    requires
        !buttons.primary_released,
    ensures
        ({
            let next = interaction_spec(Some(pressed), buttons, closest, on_graph, ptr);
            &&& next.pressed is Some
            &&& next.pressed.unwrap().origin_pos == pressed.origin_pos
            &&& next.pressed.unwrap().action == pressed.action
            &&& next.pressed.unwrap().current_pos == ptr
            &&& !next.select
            &&& next.socket_press_released is None
        }),
{
}

/// Ctrl-clicking an edge toggles its selection: two ctrl-clicks restore it.
pub proof fn lemma_edge_ctrl_click_toggles(selected: bool, input: EdgeInput)
    requires
        can_interact(input),
        input.clicked,
        input.ctrl,
    ensures
        selected_after(selected, input) == !selected,
        selected_after(selected_after(selected, input), input) == selected,
{
}

/// `NodeId::from_u64` and `NodeId::value` are inverse.
pub proof fn lemma_node_id_round_trip(v: u64, id: NodeId)
    ensures
        NodeId(v).0 == v,
        NodeId(id.0) == id,
{
}

/// In a view-only graph no press ever starts an edge: a press over the
/// background is a rectangle selection even next to a socket.
pub proof fn lemma_view_only_presses_select<P>(
    buttons: PointerButtons,
    closest: Option<Socket>,
    on_graph: bool,
    ptr: P,
)
    ensures
        ({
            let r = interaction_spec(None, buttons, pressable(closest, true), on_graph, ptr);
            r.pressed matches Some(p) ==> p.action is Select
        }),
{
}

/// Releasing the primary button always ends the press in progress, and a
/// finished press reports a rectangle selection only if it was one.
pub proof fn lemma_release_ends_press<P>(
    pressed: crate::interaction::Pressed<P>,
    buttons: PointerButtons,
    closest: Option<Socket>,
    on_graph: bool,
    ptr: P,
)
    requires
        buttons.primary_released,
    ensures
        ({
            let next = interaction_spec(Some(pressed), buttons, closest, on_graph, ptr);
            &&& next.pressed is None
            &&& next.select == pressed.action is Select
            &&& (next.socket_press_released is Some) == pressed.action is Socket
        }),
{
}

/// A node drag is measured from where the press began: while the press
/// goes on, the drag query carries the pressed node, the pointer position at
/// the start of the press (not the previous frame's pointer) and the node's
/// position at that moment, so the node's target is
/// `position_at_origin + (pointer - origin)`.
pub proof fn lemma_drag_measured_from_press_origin<P>(
    p: Pressed<P>,
    n: PressedNode<P>,
    buttons: PointerButtons,
    closest: Option<Socket>,
    on_graph: bool,
    ptr: P,
)
    requires
        p.action == (PressAction::DragNodes { node: Some(n) }),
    ensures
        ({
            let r = interaction_spec(Some(p), buttons, closest, on_graph, ptr);
            &&& r.drag == Some(
                DragQuery { node: n.id, origin_pos: p.origin_pos, position_at_origin: n.position_at_origin },
            )
            &&& r.selection_rect is None
            &&& !buttons.primary_released ==> r.pressed.unwrap().origin_pos == p.origin_pos
        }),
{
}

/// Only a rectangle-selection press has a selection rectangle: while any
/// press goes on, the rectangle is present exactly when the press is a
/// rectangle selection, and then spans from the press origin to the pointer.
/// Edge creation and node drags never show one.
pub proof fn lemma_rectangle_only_for_select<P>(
    p: Pressed<P>,
    buttons: PointerButtons,
    closest: Option<Socket>,
    on_graph: bool,
    ptr: P,
)
    ensures
        ({
            let r = interaction_spec(Some(p), buttons, closest, on_graph, ptr);
            &&& (r.selection_rect is Some) == (p.action is Select)
            &&& p.action is Select ==> r.selection_rect == Some((p.origin_pos, ptr))
            &&& (p.action is Socket || p.action is DragNodes) ==> r.selection_rect is None
            &&& !(p.action is DragNodes) ==> r.drag is None
        }),
{
}

/// A released edge press ends only at the node that owns the socket closest
/// to the pointer, at that very socket; a cancellation goes only to the node
/// the edge started from; every other node hears nothing.
pub proof fn lemma_release_event_targets(
    id: NodeId,
    released: Socket,
    closest: Option<Socket>,
    primary_released: bool,
)
    ensures
        ({
            let e = release_event(id, Some(released), closest, primary_released);
            &&& e matches Some(EdgeEvent::Ended { kind, index }) ==> {
                &&& closest is Some
                &&& id == closest.unwrap().node
                &&& kind == closest.unwrap().kind
                &&& index == closest.unwrap().index
                &&& primary_released
            }
            &&& e == Some(EdgeEvent::Cancelled) ==> id == released.node
            &&& e matches Some(EdgeEvent::Started { .. }) ==> false
            &&& (id != released.node && (closest is None || id != closest.unwrap().node)) ==> e is None
        }),
{
}

/// Nothing happens to a node that no released edge press concerns.
pub proof fn lemma_no_release_no_event(id: NodeId, closest: Option<Socket>, primary_released: bool)
    ensures
        release_event(id, None, closest, primary_released) is None,
{
}

/// An unselected edge becomes selected only by a click it accepts, or by
/// releasing a rectangle that crosses it while shift is held; a plain
/// (node) rectangle never selects edges.
pub proof fn lemma_edge_selected_only_by_click_or_shift_rect(input: EdgeInput)
    ensures
        selected_after(false, input) ==> (can_interact(input) && input.clicked) || (
        input.under_selection_rect && input.shift && input.primary_released),
        !(can_interact(input) && input.clicked) && !input.shift ==> !selected_after(false, input),
{
}

/// Pressing a node's frame records the pointer as the press origin and the
/// node's position as its position at the origin; on the next frame the
/// drag query measures the pointer's movement from that press point, so a
/// pointer that moves by `d` moves the node's target by `d` from where the
/// node was.
pub proof fn lemma_node_press_drags_from_pointer<P>(
    id: NodeId,
    ptr: P,
    pos: P,
    buttons: PointerButtons,
    closest: Option<Socket>,
    on_graph: bool,
    next_ptr: P,
)
    ensures
        node_drag_press(id, ptr, pos).origin_pos == ptr,
        node_drag_press(id, ptr, pos).current_pos == ptr,
        node_drag_press(id, ptr, pos).over_selection_at_origin,
        node_drag_press(id, ptr, pos).action == (PressAction::DragNodes {
            node: Some(PressedNode { id, position_at_origin: pos }),
        }),
        interaction_spec(Some(node_drag_press(id, ptr, pos)), buttons, closest, on_graph, next_ptr).drag
            == Some(DragQuery { node: id, origin_pos: ptr, position_at_origin: pos }),
{
}

} // verus!
