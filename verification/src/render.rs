//! What the host draws each frame: a snapshot of the committed history and
//! the current configuration, and the flattening of groups into render
//! primitives.

use vstd::prelude::*;

use crate::canvas::{CanvasState, CanvasModel};
use crate::shape::{Group, Hsv, Point, Primitive, Tool};

verus! {

/// Everything the host needs for one frame: the committed groups in order
/// and the current tool configuration. The host clears to `background`,
/// draws its live cursor preview with `radius` and `color`, then draws every
/// group in order.
pub struct RenderSnapshot {
    pub groups: Vec<Group>,
    pub tool: Tool,
    pub radius: u32,
    pub color: Hsv,
    pub background: Hsv,
}

/// How a primitive is weighted when it stands at the end of a two-member
/// group: a stamp of radius `r` renders as a segment of thickness `2 * r`; a
/// segment keeps its own thickness.
pub open spec fn weight_of(p: Primitive) -> u64 {
    match p {
        Primitive::Stamp { radius, .. } => (2 * radius) as u64,
        Primitive::Segment { thickness, .. } => thickness,
    }
}

/// The color a primitive carries.
pub open spec fn color_of(p: Primitive) -> Hsv {
    match p {
        Primitive::Stamp { color, .. } => color,
        Primitive::Segment { color, .. } => color,
    }
}

/// How one committed group renders: a two-member group renders as a single
/// thick segment between its two points, taking thickness and color from its
/// second member; a one-member group renders as that member itself.
pub open spec fn render_of(g: Group) -> Primitive {
    match g {
        Group::Single(p) => p,
        Group::Pair(a, b) => Primitive::Segment {
            x0: a.endpoint().x,
            y0: a.endpoint().y,
            x1: b.endpoint().x,
            y1: b.endpoint().y,
            thickness: weight_of(b),
            color: color_of(b),
        },
    }
}

/// The full render list of a canvas: one primitive per committed group, in
/// history order.
pub open spec fn render_list_of(m: CanvasModel) -> Seq<Primitive> {
    m.groups.map_values(|g: Group| render_of(g))
}

/// Executable counterpart of [`render_of`].
pub fn render_primitive(g: &Group) -> (r: Primitive)
    ensures
        r == render_of(*g),
{
    match *g {
        Group::Single(p) => p,
        Group::Pair(a, b) => {
            let start: Point = a.end_position();
            let end: Point = b.end_position();
            let thickness: u64 = match b {
                Primitive::Stamp { radius, .. } => 2 * (radius as u64),
                Primitive::Segment { thickness, .. } => thickness,
            };
            let color: Hsv = match b {
                Primitive::Stamp { color, .. } => color,
                Primitive::Segment { color, .. } => color,
            };
            Primitive::Segment {
                x0: start.x,
                y0: start.y,
                x1: end.x,
                y1: end.y,
                thickness,
                color,
            }
        },
    }
}

impl CanvasState {
    /// A read-only snapshot for one frame: the full ordered history and the
    /// current tool configuration. Safe to call every frame; the canvas is
    /// not changed.
    pub fn snapshot_for_render(&self) -> (r: RenderSnapshot)
        ensures
            r.groups@ == self@.groups,
            r.tool == self@.tool,
            r.radius == self@.radius,
            r.color == self@.color,
            r.background == self@.background,
    {
        RenderSnapshot {
            groups: self.groups_copy(),
            tool: self.tool(),
            radius: self.radius(),
            color: self.color(),
            background: self.background(),
        }
    }

    /// The committed groups flattened into the primitives the host draws, in
    /// history order.
    pub fn render_list(&self) -> (r: Vec<Primitive>)
        ensures
            r@ == render_list_of(self@),
    {
        let groups = self.groups_copy();
        let mut out: Vec<Primitive> = Vec::new();
        let mut i: usize = 0;
        while i < groups.len()
            invariant
                i <= groups.len(),
                groups@ == self@.groups,
                out@.len() == i,
                forall|j: int| 0 <= j < i ==> out@[j] == render_of(groups@[j]),
            decreases groups.len() - i,
        {
            out.push(render_primitive(&groups[i]));
            i = i + 1;
        }
        proof {
            assert(out@ =~= render_list_of(self@));
        }
        out
    }
}

} // verus!
