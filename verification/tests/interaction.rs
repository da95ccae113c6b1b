use egui_graph::interaction::{
    drag_anchor, graph_interaction, in_progress_sockets, is_highlighted, node_pointer_step,
    node_removal_step, pressable_socket, prune_interaction, skips_snap, socket_highlights, NodePointerInput,
    PointerButtons, PressAction, Pressed, PressedNode,
};
use egui_graph::{EdgeEvent, NodeId, NodeSet, Selection, Socket, SocketKind};

type P = (i32, i32);

fn buttons(released: bool, down: bool, pressed: bool) -> PointerButtons {
    PointerButtons {
        primary_released: released,
        primary_down: down,
        primary_pressed: pressed,
    }
}

fn socket(node: u64, kind: SocketKind, index: usize) -> Socket {
    Socket {
        node: NodeId(node),
        kind,
        index,
    }
}

fn press(action: PressAction<P>) -> Pressed<P> {
    Pressed {
        over_selection_at_origin: false,
        origin_pos: (1, 1),
        current_pos: (1, 1),
        action,
    }
}

fn node_input(down_on: bool, pressed: bool, released: bool, ctrl: bool, immutable: bool) -> NodePointerInput {
    NodePointerInput {
        down_on,
        primary_pressed: pressed,
        primary_released: released,
        ctrl,
        immutable,
    }
}

#[test]
fn background_press_then_release_selects_rectangle() {
    let first = graph_interaction::<P>(None, buttons(false, true, true), None, true, (2, 3));
    assert_eq!(first.selection_rect, Some(((2, 3), (2, 3))));
    assert!(!first.select);
    let p = first.pressed.expect("press started");
    assert!(matches!(p.action, PressAction::Select));
    let mid = graph_interaction(first.pressed, buttons(false, true, false), None, true, (5, 7));
    assert_eq!(mid.selection_rect, Some(((2, 3), (5, 7))));
    assert_eq!(mid.pressed.map(|p| p.current_pos), Some((5, 7)));
    let last = graph_interaction(mid.pressed, buttons(true, false, false), None, true, (6, 8));
    assert!(last.select);
    assert!(last.pressed.is_none());
    assert_eq!(last.selection_rect, Some(((2, 3), (6, 8))));
}

#[test]
fn socket_press_reports_socket_on_release() {
    let s = socket(3, SocketKind::Output, 1);
    let first = graph_interaction::<P>(None, buttons(false, true, true), Some(s), true, (0, 0));
    assert!(first.selection_rect.is_none());
    let last = graph_interaction(first.pressed, buttons(true, false, false), None, true, (9, 9));
    assert_eq!(last.socket_press_released, Some(s));
    assert!(!last.select);
    assert!(last.pressed.is_none());
}

#[test]
fn no_press_starts_off_graph_or_without_button() {
    let off = graph_interaction::<P>(None, buttons(false, true, true), None, false, (0, 0));
    assert!(off.pressed.is_none());
    assert!(off.selection_rect.is_none());
    let idle = graph_interaction::<P>(None, buttons(false, false, false), None, true, (0, 0));
    assert!(idle.pressed.is_none());
}

#[test]
fn node_drag_reports_query() {
    let p = Pressed {
        over_selection_at_origin: true,
        origin_pos: (10, 10),
        current_pos: (10, 10),
        action: PressAction::DragNodes {
            node: Some(PressedNode {
                id: NodeId(4),
                position_at_origin: (100, 200),
            }),
        },
    };
    let r = graph_interaction(Some(p), buttons(false, true, false), None, true, (15, 12));
    let q = r.drag.expect("drag query");
    assert_eq!(q.node, NodeId(4));
    assert_eq!(q.origin_pos, (10, 10));
    assert_eq!(q.position_at_origin, (100, 200));
    assert!(r.selection_rect.is_none());
    let anchor = drag_anchor(&r.pressed).expect("anchor");
    assert_eq!(anchor.id, NodeId(4));
}

#[test]
fn pressing_node_selects_and_starts_drag() {
    let mut sel = Selection::new();
    sel.insert(NodeId(1));
    let mut pressed: Option<Pressed<P>> = None;
    let out = node_pointer_step(
        &mut sel,
        &mut pressed,
        NodeId(2),
        node_input(true, true, false, false, false),
        None,
        None,
        (5, 5),
        (50, 60),
        false,
        false,
    );
    assert!(out.selected);
    assert!(out.selection_changed);
    assert!(out.edge_event.is_none());
    // Without ctrl, the previous selection is replaced.
    assert!(!sel.contains(NodeId(1)));
    assert!(sel.contains(NodeId(2)));
    assert!(sel.changed());
    let p = pressed.expect("drag started");
    assert!(p.over_selection_at_origin);
    match p.action {
        PressAction::DragNodes { node: Some(n) } => {
            assert_eq!(n.id, NodeId(2));
            assert_eq!(n.position_at_origin, (50, 60));
        }
        _ => panic!("expected a node drag"),
    }
}

#[test]
fn ctrl_press_toggles_node() {
    let mut sel = Selection::new();
    sel.insert(NodeId(1));
    let mut pressed: Option<Pressed<P>> = None;
    let out = node_pointer_step(
        &mut sel,
        &mut pressed,
        NodeId(2),
        node_input(true, true, false, true, false),
        None,
        None,
        (0, 0),
        (0, 0),
        false,
        false,
    );
    assert!(out.selected);
    assert!(sel.contains(NodeId(1)) && sel.contains(NodeId(2)));
    let mut pressed: Option<Pressed<P>> = None;
    let out = node_pointer_step(
        &mut sel,
        &mut pressed,
        NodeId(2),
        node_input(true, true, false, true, false),
        None,
        None,
        (0, 0),
        (0, 0),
        true,
        false,
    );
    assert!(!out.selected);
    assert!(out.selection_changed);
    assert!(pressed.is_none());
    assert!(sel.contains(NodeId(1)) && !sel.contains(NodeId(2)));
}

#[test]
fn immutable_press_selects_without_drag() {
    let mut sel = Selection::new();
    let mut pressed: Option<Pressed<P>> = None;
    let out = node_pointer_step(
        &mut sel,
        &mut pressed,
        NodeId(7),
        node_input(true, true, false, false, true),
        None,
        None,
        (0, 0),
        (0, 0),
        false,
        false,
    );
    assert!(out.selected);
    assert!(pressed.is_none());
}

#[test]
fn socket_press_elsewhere_reports_edge_start() {
    let s = socket(5, SocketKind::Output, 2);
    let mut sel = Selection::new();
    let mut pressed = Some(press(PressAction::Socket(s)));
    let out = node_pointer_step(
        &mut sel,
        &mut pressed,
        NodeId(5),
        node_input(false, true, false, false, false),
        None,
        None,
        (0, 0),
        (0, 0),
        true,
        false,
    );
    assert_eq!(
        out.edge_event,
        Some(EdgeEvent::Started {
            kind: SocketKind::Output,
            index: 2
        })
    );
    // A press away from the node deselects it unless ctrl is held.
    assert!(!out.selected);
    let other = node_pointer_step(
        &mut sel,
        &mut pressed,
        NodeId(6),
        node_input(false, true, false, false, false),
        None,
        None,
        (0, 0),
        (0, 0),
        false,
        false,
    );
    assert!(other.edge_event.is_none());
}

#[test]
fn released_socket_press_ends_or_cancels_edge() {
    let start = socket(1, SocketKind::Output, 0);
    let target = socket(2, SocketKind::Input, 3);
    let mut sel = Selection::new();
    let mut pressed: Option<Pressed<P>> = None;
    let ended = node_pointer_step(
        &mut sel,
        &mut pressed,
        NodeId(2),
        node_input(false, false, true, false, false),
        Some(start),
        Some(target),
        (0, 0),
        (0, 0),
        false,
        false,
    );
    assert_eq!(
        ended.edge_event,
        Some(EdgeEvent::Ended {
            kind: SocketKind::Input,
            index: 3
        })
    );
    // Released over a socket of the same kind as the start: cancelled.
    let same_kind = socket(2, SocketKind::Output, 0);
    let cancelled = node_pointer_step(
        &mut sel,
        &mut pressed,
        NodeId(1),
        node_input(false, false, true, false, false),
        Some(start),
        Some(same_kind),
        (0, 0),
        (0, 0),
        false,
        false,
    );
    assert_eq!(cancelled.edge_event, Some(EdgeEvent::Cancelled));
    // Released away from any socket: the starting node cancels.
    let nowhere = node_pointer_step(
        &mut sel,
        &mut pressed,
        NodeId(1),
        node_input(false, false, true, false, false),
        Some(start),
        None,
        (0, 0),
        (0, 0),
        false,
        false,
    );
    assert_eq!(nowhere.edge_event, Some(EdgeEvent::Cancelled));
    // View-only graphs create no edges.
    let frozen = node_pointer_step(
        &mut sel,
        &mut pressed,
        NodeId(2),
        node_input(false, false, true, false, true),
        Some(start),
        Some(target),
        (0, 0),
        (0, 0),
        false,
        false,
    );
    assert!(frozen.edge_event.is_none());
}

#[test]
fn delete_removes_selected_node() {
    let mut sel = Selection::new();
    sel.insert(NodeId(3));
    let r = node_removal_step(&mut sel, NodeId(3), true, false, true, false);
    assert!(r.removed);
    assert!(!r.selected);
    assert!(r.selection_changed);
    assert!(!sel.contains(NodeId(3)));
    assert!(sel.changed());

    let mut sel = Selection::new();
    sel.insert(NodeId(3));
    let frozen = node_removal_step(&mut sel, NodeId(3), true, true, true, false);
    assert!(!frozen.removed);
    assert!(frozen.selected);
    assert!(sel.contains(NodeId(3)));
    assert!(!sel.changed());

    let unselected = node_removal_step(&mut sel, NodeId(4), true, false, false, false);
    assert!(!unselected.removed);
}

#[test]
fn highlights_pressed_and_closest_sockets() {
    let start = socket(1, SocketKind::Output, 0);
    let pressed = Some(press(PressAction::Socket(start)));
    let (p, c) = socket_highlights(&pressed, Some(socket(1, SocketKind::Input, 2)), NodeId(1));
    assert_eq!(p, Some((SocketKind::Output, 0)));
    assert_eq!(c, Some((SocketKind::Input, 2)));
    assert!(is_highlighted(SocketKind::Output, 0, p, c));
    assert!(is_highlighted(SocketKind::Input, 2, p, c));
    assert!(!is_highlighted(SocketKind::Input, 0, p, c));
    // The closest socket of the same kind as the pressed one is not highlighted.
    let (_, same) = socket_highlights(&pressed, Some(socket(1, SocketKind::Output, 1)), NodeId(1));
    assert!(same.is_none());
    // Other nodes highlight nothing.
    let (po, co) = socket_highlights(&pressed, Some(start), NodeId(9));
    assert!(po.is_none() && co.is_none());
}

#[test]
fn in_progress_edge_ends_at_opposite_socket() {
    let start = socket(1, SocketKind::Output, 0);
    let pressed = Some(press(PressAction::Socket(start)));
    let opposite = socket(2, SocketKind::Input, 1);
    assert_eq!(
        in_progress_sockets(&pressed, Some(opposite)),
        Some((start, Some(opposite)))
    );
    let same = socket(2, SocketKind::Output, 1);
    assert_eq!(in_progress_sockets(&pressed, Some(same)), Some((start, None)));
    assert_eq!(in_progress_sockets::<P>(&None, Some(opposite)), None);
    let selecting = Some(press(PressAction::Select));
    assert_eq!(in_progress_sockets(&selecting, None), None);
}

#[test]
fn prune_forgets_removed_nodes() {
    let mut visited = NodeSet::new();
    visited.insert(NodeId(1));
    let mut closest = Some(socket(2, SocketKind::Input, 0));
    let mut pressed = Some(press(PressAction::Socket(socket(2, SocketKind::Output, 0))));
    prune_interaction(&mut closest, &mut pressed, &visited);
    assert!(closest.is_none());
    assert!(pressed.is_none());

    let mut closest = Some(socket(1, SocketKind::Input, 0));
    let mut pressed = Some(press(PressAction::Select));
    prune_interaction(&mut closest, &mut pressed, &visited);
    assert!(closest.is_some());
    assert!(pressed.is_some());
}

#[test]
fn dragged_selection_skips_snapping() {
    let mut sel = Selection::new();
    sel.insert(NodeId(1));
    let dragging = Some(press(PressAction::DragNodes { node: None }));
    assert!(skips_snap(&dragging, &sel, NodeId(1)));
    assert!(!skips_snap(&dragging, &sel, NodeId(2)));
    let selecting = Some(press(PressAction::Select));
    assert!(!skips_snap(&selecting, &sel, NodeId(1)));
    assert!(!skips_snap::<P>(&None, &sel, NodeId(1)));
}

#[test]
fn view_only_press_near_socket_selects() {
    let s = socket(1, SocketKind::Input, 0);
    assert_eq!(pressable_socket(Some(s), false), Some(s));
    assert_eq!(pressable_socket(Some(s), true), None);
    let r = graph_interaction::<P>(
        None,
        buttons(false, true, true),
        pressable_socket(Some(s), true),
        true,
        (0, 0),
    );
    assert!(matches!(r.pressed.map(|p| p.action), Some(PressAction::Select)));
}
