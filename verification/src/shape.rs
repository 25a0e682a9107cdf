//! The shared data model: colors, points, tools, primitives and groups.

use vstd::prelude::*;

verus! {

/// A color in hue/saturation/value space. Each channel is an opaque scalar
/// encoding chosen by the host (for instance the bit pattern of its
/// floating-point component); the canvas stores channels and hands them back
/// without interpreting them.
#[derive(Clone, Copy, Debug, PartialEq, Eq, Structural)]
pub struct Hsv {
    pub hue: u32,
    pub saturation: u32,
    pub value: u32,
}

/// A point in canvas coordinates. The host maps its native coordinates into
/// this space injectively (for instance by taking the bit pattern of each
/// floating-point coordinate), so equality of two `Point`s coincides with
/// equality of the host coordinates. Duplicate suppression compares points
/// for exact equality, nothing looser.
#[derive(Clone, Copy, Debug, PartialEq, Eq, Structural)]
pub struct Point {
    pub x: i64,
    pub y: i64,
}

/// The closed set of selectable tools. Only `Ellipse` (freehand stamping,
/// the default) and `Line` define gesture behaviour; the other three are
/// selectable but inert, reserved for future gestures.
#[derive(Clone, Copy, Debug, PartialEq, Eq, Structural)]
pub enum Tool {
    Square,
    Rectangle,
    Line,
    Ellipse,
    Triangle,
}

/// A single drawable shape: a round stamp, or a straight segment of a given
/// thickness.
#[derive(Clone, Copy, Debug, PartialEq, Eq, Structural)]
pub enum Primitive {
    Stamp { x: i64, y: i64, radius: u32, color: Hsv },
    Segment { x0: i64, y0: i64, x1: i64, y1: i64, thickness: u64, color: Hsv },
}

/// One committed gesture: an immutable group of one or two primitives, the
/// unit of undo. A group is only ever appended to or removed from the
/// history wholesale, never edited in place.
#[derive(Clone, Copy, Debug, PartialEq, Eq, Structural)]
pub enum Group {
    Single(Primitive),
    Pair(Primitive, Primitive),
}

impl Primitive {
    /// The point a primitive ends at: a stamp's center, a segment's second
    /// endpoint. This is the point duplicate suppression compares against.
    pub open spec fn endpoint(self) -> Point {
        match self {
            Primitive::Stamp { x, y, .. } => Point { x, y },
            Primitive::Segment { x1, y1, .. } => Point { x: x1, y: y1 },
        }
    }

    /// Executable counterpart of [`Primitive::endpoint`].
    pub fn end_position(&self) -> (r: Point)
        ensures
            r == self.endpoint(),
    {
        match *self {
            Primitive::Stamp { x, y, .. } => Point { x, y },
            Primitive::Segment { x1, y1, .. } => Point { x: x1, y: y1 },
        }
    }
}

impl Group {
    /// The members of a group, in insertion order.
    pub open spec fn members(self) -> Seq<Primitive> {
        match self {
            Group::Single(p) => seq![p],
            Group::Pair(a, b) => seq![a, b],
        }
    }

    /// The most recently added member.
    pub open spec fn last_member(self) -> Primitive {
        match self {
            Group::Single(p) => p,
            Group::Pair(_, b) => b,
        }
    }

    /// Executable counterpart of [`Group::last_member`].
    pub fn last_primitive(&self) -> (r: Primitive)
        ensures
            r == self.last_member(),
    {
        match *self {
            Group::Single(p) => p,
            Group::Pair(_, b) => b,
        }
    }
}

/// The arity invariant of committed gestures: every group holds one or two
/// primitives, and its last member is the last of its member sequence.
pub proof fn lemma_group_arity(g: Group)
    ensures
        1 <= g.members().len() <= 2,
        g.last_member() == g.members().last(),
{
}

/// The single-stamp primitive a freehand sample or a line endpoint commits.
pub open spec fn stamp_at(p: Point, radius: u32, color: Hsv) -> Primitive {
    Primitive::Stamp { x: p.x, y: p.y, radius, color }
}

impl Tool {
    /// The tool's display name, for the host's tool selector.
    pub fn label(&self) -> (r: &'static str)
        ensures
            *self is Square ==> r@ == "Square"@,
            *self is Rectangle ==> r@ == "Rectangle"@,
            *self is Line ==> r@ == "Line"@,
            *self is Ellipse ==> r@ == "Ellipse"@,
            *self is Triangle ==> r@ == "Triangle"@,
    {
        match *self {
            Tool::Square => "Square",
            Tool::Rectangle => "Rectangle",
            Tool::Line => "Line",
            Tool::Ellipse => "Ellipse",
            Tool::Triangle => "Triangle",
        }
    }
}

} // verus!
