//! Laws of the canvas state machine, proved once and for all over
//! [`CanvasModel`]: freehand moves with pairwise-distinct points commit one
//! group each, duplicate and overlay events are suppressed, and a line
//! gesture round-trips through its anchor.

use vstd::prelude::*;

use crate::canvas::{repeats_last_point, Button, CanvasModel};
use crate::shape::{stamp_at, Group, Point, Tool};

verus! {

/// The state after a run of freehand pointer moves through `pts`, none of
/// them over an overlay panel.
pub open spec fn run_freehand_moves(s: CanvasModel, pts: Seq<Point>) -> CanvasModel
    decreases pts.len(),
{
    if pts.len() == 0 {
        s
    } else {
        run_freehand_moves(s.on_pointer_move(pts.first().x, pts.first().y, false), pts.drop_first())
    }
}

/// The single-stamp group one freehand sample at `p` commits.
pub open spec fn freehand_group(s: CanvasModel, p: Point) -> Group {
    Group::Single(stamp_at(p, s.radius, s.color))
}

/// A move that repeats the last committed point changes nothing at all,
/// whatever else holds: a motionless pointer cannot pile up duplicate
/// stamps.
pub proof fn lemma_duplicate_move_suppressed(s: CanvasModel, x: i64, y: i64, overlay: bool)
    requires
        repeats_last_point(s.groups, Point { x, y }),
    ensures
        s.on_pointer_move(x, y, overlay) == s,
{
}

/// Events of the non-primary pointer buttons are ignored outright: they are
/// not errors, and they change nothing.
pub proof fn lemma_non_primary_button_ignored(
    s: CanvasModel,
    button: Button,
    x: i64,
    y: i64,
    overlay: bool,
)
    requires
        button != Button::Left,
    ensures
        s.on_pointer_down(button, x, y, overlay) == s,
        s.on_pointer_up(button) == s,
{
}

/// A pointer move reported over an overlay panel changes nothing at all.
pub proof fn lemma_overlay_move_suppressed(s: CanvasModel, x: i64, y: i64)
    ensures
        s.on_pointer_move(x, y, true) == s,
{
}

/// A primary click reported over an overlay panel commits no group and ends
/// with no pending anchor: a pending anchor is discarded rather than left
/// stale, and nothing of the configuration moves.
pub proof fn lemma_overlay_click_suppressed(s: CanvasModel, x: i64, y: i64)
    ensures
        s.on_pointer_down(Button::Left, x, y, true).groups == s.groups,
        s.on_pointer_down(Button::Left, x, y, true).anchor is None,
        s.on_pointer_down(Button::Left, x, y, true).drawing,
        s.on_pointer_down(Button::Left, x, y, true).tool == s.tool,
        s.on_pointer_down(Button::Left, x, y, true).radius == s.radius,
        s.on_pointer_down(Button::Left, x, y, true).color == s.color,
        s.on_pointer_down(Button::Left, x, y, true).background == s.background,
        s.on_pointer_down(Button::Left, x, y, true).undo_held == s.undo_held,
{
}

/// The line-tool round trip: with the line tool active and no anchor
/// pending, a first qualifying click at `a` records the anchor and commits
/// nothing, and a second qualifying click at `b` commits exactly one
/// two-stamp group `(a, b)` and consumes the anchor, so a third click starts
/// a fresh anchor rather than touching the committed group.
pub proof fn lemma_line_round_trip(s: CanvasModel, a: Point, b: Point)
    requires
        s.tool == Tool::Line,
        s.anchor is None,
    ensures
        s.on_pointer_down(Button::Left, a.x, a.y, false).groups == s.groups,
        s.on_pointer_down(Button::Left, a.x, a.y, false).anchor == Some(a),
        s.on_pointer_down(Button::Left, a.x, a.y, false).on_pointer_down(
            Button::Left,
            b.x,
            b.y,
            false,
        ).groups == s.groups.push(
            Group::Pair(stamp_at(a, s.radius, s.color), stamp_at(b, s.radius, s.color)),
        ),
        s.on_pointer_down(Button::Left, a.x, a.y, false).on_pointer_down(
            Button::Left,
            b.x,
            b.y,
            false,
        ).anchor is None,
{
    assert(Point { x: a.x, y: a.y } == a);
    assert(Point { x: b.x, y: b.y } == b);
}

/// Freehand commits, one per distinct move: starting in drawing mode with
/// the freehand tool, a run of moves through pairwise-distinct points — the
/// first of which does not repeat the last committed point — appends exactly
/// one single-stamp group per move, in order, with the current radius and
/// color, and moves nothing else.
pub proof fn lemma_freehand_distinct_moves(s: CanvasModel, pts: Seq<Point>)
    requires
        s.drawing,
        s.tool == Tool::Ellipse,
        forall|i: int| 0 < i < pts.len() ==> #[trigger] pts[i] != pts[i - 1],
        pts.len() > 0 ==> !repeats_last_point(s.groups, pts.first()),
    ensures
        run_freehand_moves(s, pts).groups == s.groups + pts.map_values(
            |p: Point| freehand_group(s, p),
        ),
        run_freehand_moves(s, pts).anchor == s.anchor,
        run_freehand_moves(s, pts).drawing == s.drawing,
        run_freehand_moves(s, pts).undo_held == s.undo_held,
        run_freehand_moves(s, pts).tool == s.tool,
        run_freehand_moves(s, pts).radius == s.radius,
        run_freehand_moves(s, pts).color == s.color,
        run_freehand_moves(s, pts).background == s.background,
    decreases pts.len(),
{
    if pts.len() == 0 {
        assert(s.groups + pts.map_values(|p: Point| freehand_group(s, p)) =~= s.groups);
    } else {
        let p0 = pts.first();
        let g0 = freehand_group(s, p0);
        let s1 = s.on_pointer_move(p0.x, p0.y, false);
        assert(Point { x: p0.x, y: p0.y } == p0);
        assert(s1.groups == s.groups.push(g0));
        let rest = pts.drop_first();
        assert(forall|i: int| 0 < i < rest.len() ==> #[trigger] rest[i] != rest[i - 1]) by {
            assert(forall|i: int| 0 < i < rest.len() ==> #[trigger] rest[i] == pts[i + 1] && rest[i - 1]
                == pts[i]);
        }
        if rest.len() > 0 {
            assert(s1.groups.last() == g0);
            assert(s1.groups.last().last_member().endpoint() == p0);
            assert(rest.first() == pts[1]);
            assert(pts[1] != pts[0]);
            assert(!repeats_last_point(s1.groups, rest.first()));
        }
        lemma_freehand_distinct_moves(s1, rest);
        assert(run_freehand_moves(s, pts) == run_freehand_moves(s1, rest));
        let f = |p: Point| freehand_group(s, p);
        let f1 = |p: Point| freehand_group(s1, p);
        assert(rest.map_values(f1) =~= rest.map_values(f));
        assert(s.groups.push(g0) + rest.map_values(f) =~= s.groups + pts.map_values(f)) by {
            assert(forall|i: int| 0 <= i < rest.len() ==> #[trigger] rest.map_values(f)[i] == f(pts[i + 1]));
            assert(forall|i: int| 0 <= i < pts.len() ==> #[trigger] pts.map_values(f)[i] == f(pts[i]));
        }
        assert(run_freehand_moves(s, pts).groups == s.groups + pts.map_values(f));
    }
}

} // verus!
