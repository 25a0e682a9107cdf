//! The canvas state and its interaction controller.
//!
//! [`CanvasModel`] is the mathematical model: the committed history as a
//! sequence of groups, the transient gesture state, and the tool
//! configuration, with one transition function per event. [`CanvasState`] is
//! the executable state; each of its methods is proved to take the view
//! exactly one transition further.

use vstd::prelude::*;

use crate::shape::{stamp_at, Group, Hsv, Point, Tool};

verus! {

/// A pointer button. Only the primary (left) button drives gestures; events
/// for the other buttons are ignored.
#[derive(Clone, Copy, Debug, PartialEq, Eq, Structural)]
pub enum Button {
    Left,
    Right,
    Middle,
}

/// A keyboard key, as far as the canvas cares: the undo key, or anything
/// else. The host maps its own key codes before handing an event over.
#[derive(Clone, Copy, Debug, PartialEq, Eq, Structural)]
pub enum Key {
    Z,
    Other,
}

/// The mathematical model of the whole canvas: committed history, transient
/// gesture state, and tool configuration.
#[verifier::ext_equal]
pub struct CanvasModel {
    /// The committed groups, oldest first. Append-only but for undo, which
    /// removes exactly the last group.
    pub groups: Seq<Group>,
    /// The pending line anchor: the first click of a not-yet-committed line
    /// gesture.
    pub anchor: Option<Point>,
    /// Whether the primary button is down (freehand "drawing" mode).
    pub drawing: bool,
    /// Whether the undo key is currently held, so that host key-repeat
    /// cannot fire more than one undo per physical key press.
    pub undo_held: bool,
    /// The selected tool.
    pub tool: Tool,
    /// The stroke radius, in host units. The host's configuration panel
    /// keeps it within its slider bounds; the canvas stores what it is
    /// given.
    pub radius: u32,
    /// The stroke color.
    pub color: Hsv,
    /// The background color.
    pub background: Hsv,
}

/// The point the next freehand sample is compared against: the endpoint of
/// the last member of the last committed group, if any group exists.
pub open spec fn last_committed_point(groups: Seq<Group>) -> Option<Point> {
    if groups.len() == 0 {
        None
    } else {
        Some(groups.last().last_member().endpoint())
    }
}

/// Whether committing at `p` would repeat the last committed point. An empty
/// history repeats nothing: the first sample always qualifies.
pub open spec fn repeats_last_point(groups: Seq<Group>, p: Point) -> bool {
    last_committed_point(groups) == Some(p)
}

impl CanvasModel {
    /// The state at session start: empty history, no gesture in progress,
    /// freehand tool selected, and the configuration the host starts with.
    pub open spec fn initial(radius: u32, color: Hsv, background: Hsv) -> CanvasModel {
        CanvasModel {
            groups: Seq::empty(),
            anchor: None,
            drawing: false,
            undo_held: false,
            tool: Tool::Ellipse,
            radius,
            color,
            background,
        }
    }

    /// One group appended at the end; nothing else moves.
    pub open spec fn appended(self, group: Group) -> CanvasModel {
        CanvasModel { groups: self.groups.push(group), ..self }
    }

    /// The last group removed if one exists; the no-op on an empty history.
    pub open spec fn undone(self) -> CanvasModel {
        if self.groups.len() == 0 {
            self
        } else {
            CanvasModel { groups: self.groups.drop_last(), ..self }
        }
    }

    /// Tool selection. Any selection, even of the already-active tool,
    /// discards a pending line anchor.
    pub open spec fn with_tool(self, tool: Tool) -> CanvasModel {
        CanvasModel { tool, anchor: None, ..self }
    }

    pub open spec fn with_radius(self, radius: u32) -> CanvasModel {
        CanvasModel { radius, ..self }
    }

    pub open spec fn with_color(self, color: Hsv) -> CanvasModel {
        CanvasModel { color, ..self }
    }

    pub open spec fn with_background(self, background: Hsv) -> CanvasModel {
        CanvasModel { background, ..self }
    }

    /// A primary-button press at `(x, y)`.
    ///
    /// Any primary press enters drawing mode. A press over an overlay panel
    /// touches the canvas in no other way than discarding a pending line
    /// anchor, so a commit attempt over a panel never draws a stray line.
    /// Away from overlays, the line tool either records the anchor (first
    /// click) or commits the two-stamp group and clears the anchor (second
    /// click). Other buttons are ignored.
    pub open spec fn on_pointer_down(self, button: Button, x: i64, y: i64, overlay: bool) -> CanvasModel {
        if button != Button::Left {
            self
        } else {
            let down = CanvasModel { drawing: true, ..self };
            if overlay {
                CanvasModel { anchor: None, ..down }
            } else {
                match down.tool {
                    Tool::Line => match down.anchor {
                        Some(a) => CanvasModel {
                            anchor: None,
                            groups: down.groups.push(
                                Group::Pair(
                                    stamp_at(a, down.radius, down.color),
                                    stamp_at(Point { x, y }, down.radius, down.color),
                                ),
                            ),
                            ..down
                        },
                        None => CanvasModel { anchor: Some(Point { x, y }), ..down },
                    },
                    Tool::Square | Tool::Rectangle | Tool::Ellipse | Tool::Triangle => down,
                }
            }
        }
    }

    /// A primary-button release leaves drawing mode; it commits nothing
    /// itself (freehand samples were committed during the moves). Other
    /// buttons are ignored.
    pub open spec fn on_pointer_up(self, button: Button) -> CanvasModel {
        if button == Button::Left {
            CanvasModel { drawing: false, ..self }
        } else {
            self
        }
    }

    /// A pointer move to `(x, y)`.
    ///
    /// While drawing with the freehand tool and away from overlay panels,
    /// each move commits one single-stamp group — unless it repeats the last
    /// committed point, which is suppressed so a motionless pointer cannot
    /// pile up duplicates. Moves while not drawing, over an overlay, or
    /// under any other tool change nothing.
    pub open spec fn on_pointer_move(self, x: i64, y: i64, overlay: bool) -> CanvasModel {
        if !self.drawing {
            self
        } else if repeats_last_point(self.groups, Point { x, y }) {
            self
        } else if overlay {
            self
        } else {
            match self.tool {
                Tool::Ellipse => self.appended(
                    Group::Single(stamp_at(Point { x, y }, self.radius, self.color)),
                ),
                Tool::Square | Tool::Rectangle | Tool::Line | Tool::Triangle => self,
            }
        }
    }

    /// A key press. The undo key with the platform modifier undoes once per
    /// key-down edge: repeats delivered while the key stays held are
    /// swallowed. Every other key is ignored.
    pub open spec fn on_key_down(self, key: Key, logo: bool) -> CanvasModel {
        if key != Key::Z {
            self
        } else if self.undo_held {
            self
        } else {
            let held = CanvasModel { undo_held: true, ..self };
            if logo {
                held.undone()
            } else {
                held
            }
        }
    }

    /// A key release re-arms the undo key.
    pub open spec fn on_key_up(self, key: Key) -> CanvasModel {
        if key == Key::Z {
            CanvasModel { undo_held: false, ..self }
        } else {
            self
        }
    }
}

/// The executable canvas: the committed history, the gesture in progress,
/// and the tool configuration. Fields are private; the history changes only
/// through appends and undo.
pub struct CanvasState {
    history: Vec<Group>,
    anchor: Option<Point>,
    drawing: bool,
    undo_held: bool,
    tool: Tool,
    radius: u32,
    color: Hsv,
    background: Hsv,
}

impl View for CanvasState {
    type V = CanvasModel;

    closed spec fn view(&self) -> CanvasModel {
        CanvasModel {
            groups: self.history@,
            anchor: self.anchor,
            drawing: self.drawing,
            undo_held: self.undo_held,
            tool: self.tool,
            radius: self.radius,
            color: self.color,
            background: self.background,
        }
    }
}

impl CanvasState {
    /// A fresh canvas with the configuration the host starts with.
    pub fn new(radius: u32, color: Hsv, background: Hsv) -> (r: CanvasState)
        ensures
            r@ == CanvasModel::initial(radius, color, background),
    {
        CanvasState {
            history: Vec::new(),
            anchor: None,
            drawing: false,
            undo_held: false,
            tool: Tool::Ellipse,
            radius,
            color,
            background,
        }
    }

    /// Pushes one committed group to the end of the history. Always
    /// succeeds; the group's one-or-two arity is carried by [`Group`]
    /// itself.
    pub fn append_group(&mut self, group: Group)
        ensures
            final(self)@ == old(self)@.appended(group),
    {
        self.history.push(group);
    }

    /// Removes the most recently appended group. On an empty history this is
    /// a defined no-op, not an error.
    pub fn undo(&mut self)
        ensures
            final(self)@ == old(self)@.undone(),
            old(self)@.groups.len() == 0 ==> final(self)@ == old(self)@,
            old(self)@.groups.len() > 0 ==> final(self)@.groups == old(self)@.groups.drop_last(),
            old(self)@.groups.len() > 0 ==> old(self)@.groups == final(self)@.groups.push(
                old(self)@.groups.last(),
            ),
    {
        self.history.pop();
        proof {
            if old(self)@.groups.len() > 0 {
                assert(old(self)@.groups =~= self@.groups.push(old(self)@.groups.last()));
            }
        }
    }

    /// Selects a tool. Any selection discards a pending line anchor, so a
    /// half-finished line gesture never survives a tool change.
    pub fn set_tool(&mut self, tool: Tool)
        ensures
            final(self)@ == old(self)@.with_tool(tool),
            final(self)@.anchor is None,
    {
        self.tool = tool;
        self.anchor = None;
    }

    /// Sets the stroke radius. The host's slider keeps the value within its
    /// bounds; the canvas stores what it is given.
    pub fn set_radius(&mut self, radius: u32)
        ensures
            final(self)@ == old(self)@.with_radius(radius),
    {
        self.radius = radius;
    }

    /// Sets the stroke color.
    pub fn set_color(&mut self, color: Hsv)
        ensures
            final(self)@ == old(self)@.with_color(color),
    {
        self.color = color;
    }

    /// Sets the background color.
    pub fn set_background(&mut self, background: Hsv)
        ensures
            final(self)@ == old(self)@.with_background(background),
    {
        self.background = background;
    }

    /// Handles a pointer-button press at `(x, y)`; `overlay` is the host's
    /// report of whether the pointer is over an overlay panel.
    pub fn pointer_down(&mut self, button: Button, x: i64, y: i64, overlay: bool)
        ensures
            final(self)@ == old(self)@.on_pointer_down(button, x, y, overlay),
    {
        if button == Button::Left {
            self.drawing = true;
            if overlay {
                self.anchor = None;
            } else {
                match self.tool {
                    Tool::Line => match self.anchor {
                        Some(a) => {
                            let start = stamp_exec(a, self.radius, self.color);
                            let end = stamp_exec(Point { x, y }, self.radius, self.color);
                            self.history.push(Group::Pair(start, end));
                            self.anchor = None;
                        },
                        None => {
                            self.anchor = Some(Point { x, y });
                        },
                    },
                    Tool::Square | Tool::Rectangle | Tool::Ellipse | Tool::Triangle => {},
                }
            }
        }
    }

    /// Handles a pointer-button release.
    pub fn pointer_up(&mut self, button: Button)
        ensures
            final(self)@ == old(self)@.on_pointer_up(button),
    {
        if button == Button::Left {
            self.drawing = false;
        }
    }

    /// Handles a pointer move to `(x, y)`; `overlay` as in
    /// [`CanvasState::pointer_down`].
    pub fn pointer_move(&mut self, x: i64, y: i64, overlay: bool)
        ensures
            final(self)@ == old(self)@.on_pointer_move(x, y, overlay),
    {
        if self.drawing {
            let len = self.history.len();
            let duplicate = if len > 0 {
                let last = self.history[len - 1].last_primitive().end_position();
                last.x == x && last.y == y
            } else {
                false
            };
            if !duplicate && !overlay {
                match self.tool {
                    Tool::Ellipse => {
                        let s = stamp_exec(Point { x, y }, self.radius, self.color);
                        self.history.push(Group::Single(s));
                    },
                    Tool::Square | Tool::Rectangle | Tool::Line | Tool::Triangle => {},
                }
            }
        }
    }

    /// Handles a key press; `logo` is whether the platform's undo modifier
    /// (command/control) is held.
    pub fn key_down(&mut self, key: Key, logo: bool)
        ensures
            final(self)@ == old(self)@.on_key_down(key, logo),
    {
        if key == Key::Z {
            if !self.undo_held {
                self.undo_held = true;
                if logo {
                    self.history.pop();
                }
            }
        }
    }

    /// Handles a key release.
    pub fn key_up(&mut self, key: Key)
        ensures
            final(self)@ == old(self)@.on_key_up(key),
    {
        if key == Key::Z {
            self.undo_held = false;
        }
    }

    /// The number of committed groups.
    pub fn history_len(&self) -> (r: usize)
        ensures
            r == self@.groups.len(),
    {
        self.history.len()
    }

    /// The committed group at position `i` (oldest first).
    pub fn group_at(&self, i: usize) -> (r: Group)
        requires
            i < self@.groups.len(),
        ensures
            r == self@.groups[i as int],
    {
        self.history[i]
    }

    /// A copy of the committed history, oldest first.
    pub fn groups_copy(&self) -> (r: Vec<Group>)
        ensures
            r@ == self@.groups,
    {
        let mut out: Vec<Group> = Vec::new();
        let mut i: usize = 0;
        while i < self.history.len()
            invariant
                i <= self.history.len(),
                out@.len() == i,
                forall|j: int| 0 <= j < i ==> out@[j] == self@.groups[j],
            decreases self.history.len() - i,
        {
            out.push(self.history[i]);
            i = i + 1;
        }
        proof {
            assert(out@ =~= self@.groups);
        }
        out
    }

    /// The pending line anchor, if a line gesture is half way through.
    pub fn pending_anchor(&self) -> (r: Option<Point>)
        ensures
            r == self@.anchor,
    {
        self.anchor
    }

    /// Whether the primary button is currently down.
    pub fn is_drawing(&self) -> (r: bool)
        ensures
            r == self@.drawing,
    {
        self.drawing
    }

    /// The selected tool.
    pub fn tool(&self) -> (r: Tool)
        ensures
            r == self@.tool,
    {
        self.tool
    }

    /// The stroke radius.
    pub fn radius(&self) -> (r: u32)
        ensures
            r == self@.radius,
    {
        self.radius
    }

    /// The stroke color.
    pub fn color(&self) -> (r: Hsv)
        ensures
            r == self@.color,
    {
        self.color
    }

    /// The background color.
    pub fn background(&self) -> (r: Hsv)
        ensures
            r == self@.background,
    {
        self.background
    }
}

/// Executable counterpart of [`stamp_at`].
fn stamp_exec(p: Point, radius: u32, color: Hsv) -> (r: crate::shape::Primitive)
    ensures
        r == stamp_at(p, radius, color),
{
    crate::shape::Primitive::Stamp { x: p.x, y: p.y, radius, color }
}

} // verus!
