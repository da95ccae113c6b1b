//! Configuration values of the graph widget.

use vstd::prelude::*;

verus! {

/// How the view responds when the available viewport size changes
/// (e.g. a pane or window resize).
#[derive(Debug, Clone, Copy, PartialEq, Eq, Structural)]
pub enum ResizeBehavior {
    /// Preserve the zoom level (pixels-per-world-unit), revealing more or less
    /// of the scene as the viewport grows or shrinks. This is the default.
    MaintainZoom,
    /// Preserve the visible region of the scene, letting the scene refit it
    /// into the new viewport size. This changes the apparent zoom.
    MaintainView,
}

/// Whether the scene rectangle is rescaled to keep the zoom level across a
/// viewport resize: only with [`ResizeBehavior::MaintainZoom`], and not when
/// the view is re-centred on the content (which overwrites the rectangle).
pub fn keeps_zoom_on_resize(behavior: ResizeBehavior, center_view: bool) -> (b: bool)
    ensures
        b == (behavior == ResizeBehavior::MaintainZoom && !center_view),
{
    behavior == ResizeBehavior::MaintainZoom && !center_view
}

/// How node positions and frame sizes are snapped to whole graph-space units.
///
/// "Off" is expressed as `Option<Snap>::None`.
#[derive(Debug, Clone, Copy, PartialEq, Eq, Hash, Structural)]
pub enum Snap {
    /// Round to the nearest multiple of the step. This is the default.
    Round,
    /// Round down (toward negative infinity) to a multiple of the step.
    Floor,
}

/// Which node features are considered when snap-aligning a dragged selection to
/// other nodes.
#[derive(Debug, Clone, Copy, PartialEq, Eq, Hash, Structural)]
pub struct AlignTargets {
    /// Align the left/right/top/bottom edges.
    pub edges: bool,
    /// Align the horizontal and vertical centers.
    pub centers: bool,
}

impl Default for AlignTargets {
    fn default() -> (t: AlignTargets)
        ensures
            t == (AlignTargets { edges: true, centers: false }),
    {
        AlignTargets { edges: true, centers: false }
    }
}

impl AlignTargets {
    /// Whether any feature is considered at all.
    pub fn any(&self) -> (b: bool)
        ensures
            b == (self.edges || self.centers),
    {
        self.edges || self.centers
    }
}

/// The line a selection of nodes is aligned into.
#[derive(Debug, Clone, Copy, PartialEq, Eq, Hash, Structural)]
pub enum Alignment {
    /// Nodes share an x coordinate, forming a vertical column.
    Column,
    /// Nodes share a y coordinate, forming a horizontal row.
    Row,
}

/// Which feature of each node is unified onto the common line.
///
/// For a [`Alignment::Column`] this selects the left edges / centers / right
/// edges; for a [`Alignment::Row`], the top edges / centers / bottom edges.
#[derive(Debug, Clone, Copy, PartialEq, Eq, Hash, Structural)]
pub enum AlignBy {
    /// Align the top-left corners (the stored positions). Ignores node sizes.
    Min,
    /// Align the node centers.
    Center,
    /// Align the bottom-right corners.
    Max,
}

impl Default for AlignBy {
    fn default() -> (a: AlignBy)
        ensures
            a == AlignBy::Min,
    {
        AlignBy::Min
    }
}

} // verus!
