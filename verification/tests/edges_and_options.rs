use egui_graph::align::sort_by_node_id;
use egui_graph::edge::{edge_interaction, edge_stroke, EdgeInput};
use egui_graph::options::keeps_zoom_on_resize;
use egui_graph::socket::{input_side, output_side, socket_gap_count, sockets_on_vertical_edges};
use egui_graph::{AlignBy, AlignTargets, Flow, NodeId, ResizeBehavior, Side};

fn quiet() -> EdgeInput {
    EdgeInput {
        edge_in_progress: false,
        near_socket: false,
        clicked: false,
        hovered: false,
        ctrl: false,
        shift: false,
        primary_pressed: false,
        primary_released: false,
        primary_down: false,
        could_click: false,
        under_selection_rect: false,
        immutable: false,
        delete_requested: false,
    }
}

#[test]
fn click_selects_and_ctrl_click_toggles_edge() {
    let mut selected = false;
    let click = EdgeInput {
        clicked: true,
        ..quiet()
    };
    let out = edge_interaction(&mut selected, click);
    assert!(selected && out.changed);
    let ctrl_click = EdgeInput {
        ctrl: true,
        ..click
    };
    let out = edge_interaction(&mut selected, ctrl_click);
    assert!(!selected && out.changed);
    let out = edge_interaction(&mut selected, ctrl_click);
    assert!(selected && out.changed);
}

#[test]
fn edge_clicks_ignored_near_sockets() {
    let mut selected = false;
    let out = edge_interaction(
        &mut selected,
        EdgeInput {
            clicked: true,
            near_socket: true,
            ..quiet()
        },
    );
    assert!(!selected && !out.changed);
}

#[test]
fn press_elsewhere_deselects_edge() {
    let mut selected = true;
    edge_interaction(
        &mut selected,
        EdgeInput {
            primary_pressed: true,
            ..quiet()
        },
    );
    assert!(!selected);
    let mut selected = true;
    edge_interaction(
        &mut selected,
        EdgeInput {
            edge_in_progress: true,
            ..quiet()
        },
    );
    assert!(!selected);
}

#[test]
fn shift_rectangle_selects_edge() {
    let mut selected = false;
    let out = edge_interaction(
        &mut selected,
        EdgeInput {
            under_selection_rect: true,
            shift: true,
            primary_released: true,
            ..quiet()
        },
    );
    assert!(selected);
    assert!(out.hovered);
}

#[test]
fn delete_only_selected_mutable_edges() {
    let mut selected = true;
    let out = edge_interaction(
        &mut selected,
        EdgeInput {
            delete_requested: true,
            ..quiet()
        },
    );
    assert!(out.deleted);
    let mut selected = true;
    let out = edge_interaction(
        &mut selected,
        EdgeInput {
            delete_requested: true,
            immutable: true,
            ..quiet()
        },
    );
    assert!(!out.deleted);
    let mut selected = false;
    let out = edge_interaction(
        &mut selected,
        EdgeInput {
            delete_requested: true,
            ..quiet()
        },
    );
    assert!(!out.deleted);
}

#[test]
fn hover_highlight_rules() {
    let mut selected = false;
    let out = edge_interaction(
        &mut selected,
        EdgeInput {
            hovered: true,
            ..quiet()
        },
    );
    assert!(out.hovered);
    let out = edge_interaction(
        &mut selected,
        EdgeInput {
            hovered: true,
            primary_down: true,
            could_click: false,
            ..quiet()
        },
    );
    assert!(!out.hovered);
}

#[test]
fn stroke_priority() {
    assert_eq!(edge_stroke(true, true, Some(1), Some(2), Some(3), 10, 20, 30), 1);
    assert_eq!(edge_stroke(true, true, None, Some(2), Some(3), 10, 20, 30), 10);
    assert_eq!(edge_stroke(false, true, None, Some(2), Some(3), 10, 20, 30), 2);
    assert_eq!(edge_stroke(false, true, None, None, Some(3), 10, 20, 30), 20);
    assert_eq!(edge_stroke(false, false, None, None, Some(3), 10, 20, 30), 3);
    assert_eq!(edge_stroke(false, false, None, None, None, 10, 20, 30), 30);
}

#[test]
fn flow_sides() {
    assert_eq!(input_side(Flow::LeftToRight), Side::Left);
    assert_eq!(output_side(Flow::LeftToRight), Side::Right);
    assert_eq!(input_side(Flow::TopDown), Side::Top);
    assert_eq!(output_side(Flow::TopDown), Side::Bottom);
    assert_eq!(input_side(Flow::BottomUp), Side::Bottom);
    assert_eq!(output_side(Flow::RightToLeft), Side::Left);
    assert!(sockets_on_vertical_edges(Flow::RightToLeft));
    assert!(!sockets_on_vertical_edges(Flow::BottomUp));
}

#[test]
fn socket_gaps() {
    assert_eq!(socket_gap_count(0, 0), 0);
    assert_eq!(socket_gap_count(1, 1), 0);
    assert_eq!(socket_gap_count(2, 1), 1);
    assert_eq!(socket_gap_count(3, 5), 4);
}

#[test]
fn defaults_and_resize() {
    let t = AlignTargets::default();
    assert!(t.edges && !t.centers);
    assert!(t.any());
    assert!(!AlignTargets { edges: false, centers: false }.any());
    assert_eq!(AlignBy::default(), AlignBy::Min);
    assert!(keeps_zoom_on_resize(ResizeBehavior::MaintainZoom, false));
    assert!(!keeps_zoom_on_resize(ResizeBehavior::MaintainZoom, true));
    assert!(!keeps_zoom_on_resize(ResizeBehavior::MaintainView, false));
}

#[test]
fn references_sorted_by_id_stably() {
    let entries = vec![
        (NodeId(5), 'a'),
        (NodeId(1), 'b'),
        (NodeId(3), 'c'),
        (NodeId(1), 'd'),
    ];
    let sorted = sort_by_node_id(entries);
    assert_eq!(
        sorted,
        vec![
            (NodeId(1), 'b'),
            (NodeId(1), 'd'),
            (NodeId(3), 'c'),
            (NodeId(5), 'a')
        ]
    );
    assert!(sort_by_node_id::<u8>(Vec::new()).is_empty());
}
