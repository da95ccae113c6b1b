//! Selection, deletion and styling rules of an edge widget.

use vstd::prelude::*;

verus! {

/// Pointer, keyboard and graph state relevant to an edge for one frame.
#[derive(Clone, Copy, Debug)]
pub struct EdgeInput {
    /// An edge is being created.
    pub edge_in_progress: bool,
    /// A socket is within reach of the pointer.
    pub near_socket: bool,
    /// The edge's interaction area was clicked.
    pub clicked: bool,
    /// The edge's interaction area is hovered.
    pub hovered: bool,
    /// The ctrl modifier is held.
    pub ctrl: bool,
    /// The shift modifier is held.
    pub shift: bool,
    /// The primary button was pressed this frame.
    pub primary_pressed: bool,
    /// The primary button was released this frame.
    pub primary_released: bool,
    /// The primary button is down.
    pub primary_down: bool,
    /// The pointer could still be making a click.
    pub could_click: bool,
    /// The edge crosses the rectangle selection in progress.
    pub under_selection_rect: bool,
    /// The graph is in view-only mode.
    pub immutable: bool,
    /// Delete or backspace was pressed while no text field wants the keyboard.
    pub delete_requested: bool,
}

/// The outcome of [`edge_interaction`].
#[derive(Clone, Copy, Debug)]
pub struct EdgeOutcome {
    /// Whether the edge's selected state changed.
    pub changed: bool,
    /// Whether the edge was deleted.
    pub deleted: bool,
    /// Whether the edge is drawn hover-highlighted.
    pub hovered: bool,
}

/// Edges take no pointer interaction while an edge is being created or a
/// socket is within reach.
pub open spec fn can_interact(input: EdgeInput) -> bool {
    !input.edge_in_progress && !input.near_socket
}

/// The edge's selected state after one frame.
pub open spec fn selected_after(selected: bool, input: EdgeInput) -> bool {
    let clicked = can_interact(input) && input.clicked;
    if selected {
        !(input.edge_in_progress || (clicked && input.ctrl) || (input.primary_pressed && !input.ctrl))
    } else {
        clicked || (input.under_selection_rect && input.shift && input.primary_released)
    }
}

/// Whether the edge is drawn hover-highlighted.
pub open spec fn hover_highlight(input: EdgeInput) -> bool {
    (can_interact(input) && input.hovered && (!input.primary_down || input.could_click)) || (
    input.under_selection_rect && input.shift)
}

/// Update an edge's selected state from this frame's input and decide
/// whether it is deleted and hover-highlighted.
///
/// A selected edge is deselected when an edge creation starts, on a
/// ctrl-click, or on any press without ctrl; an unselected edge is selected
/// by a click or by releasing a shift-rectangle that crosses it. A selected
/// edge is deleted on request unless the graph is view-only.
pub fn edge_interaction(selected: &mut bool, input: EdgeInput) -> (r: EdgeOutcome)
    ensures
        *final(selected) == selected_after(*old(selected), input),
        r.changed == (*final(selected) != *old(selected)),
        r.deleted == (!input.immutable && *final(selected) && input.delete_requested),
        r.hovered == hover_highlight(input),
{
    let can = !input.edge_in_progress && !input.near_socket;
    let clicked = can && input.clicked;
    let old_selected = *selected;
    if *selected {
        if input.edge_in_progress || (clicked && input.ctrl) || (input.primary_pressed
            && !input.ctrl) {
            *selected = false;
        }
    } else if clicked || (input.under_selection_rect && input.shift && input.primary_released) {
        *selected = true;
    }
    let deleted = !input.immutable && *selected && input.delete_requested;
    let show_hover = can && input.hovered && (!input.primary_down || input.could_click);
    let hovered = show_hover || (input.under_selection_rect && input.shift);
    EdgeOutcome { changed: old_selected != *selected, deleted, hovered }
}

/// The stroke an edge is painted with: the selected stroke when selected,
/// else the hovered stroke when hovered, else the plain stroke; each the
/// per-edge override when set and the style's default otherwise.
pub fn edge_stroke<S: Copy>(
    selected: bool,
    hovered: bool,
    selected_stroke: Option<S>,
    hovered_stroke: Option<S>,
    stroke: Option<S>,
    default_selected: S,
    default_hovered: S,
    default_plain: S,
) -> (r: S)
    ensures
        r == (if selected {
            match selected_stroke {
                Some(s) => s,
                None => default_selected,
            }
        } else if hovered {
            match hovered_stroke {
                Some(s) => s,
                None => default_hovered,
            }
        } else {
            match stroke {
                Some(s) => s,
                None => default_plain,
            }
        }),
{
    if selected {
        match selected_stroke {
            Some(s) => s,
            None => default_selected,
        }
    } else if hovered {
        match hovered_stroke {
            Some(s) => s,
            None => default_hovered,
        }
    } else {
        match stroke {
            Some(s) => s,
            None => default_plain,
        }
    }
}

} // verus!
