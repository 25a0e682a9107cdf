use canvas_core::canvas::{Button, CanvasState, Key};
use canvas_core::shape::{Group, Hsv, Point, Primitive, Tool};

fn ink() -> Hsv {
    Hsv { hue: 10, saturation: 20, value: 30 }
}

fn paper() -> Hsv {
    Hsv { hue: 0, saturation: 0, value: 255 }
}

fn fresh() -> CanvasState {
    CanvasState::new(40, ink(), paper())
}

fn stamp(x: i64, y: i64) -> Primitive {
    Primitive::Stamp { x, y, radius: 40, color: ink() }
}

#[test]
fn freehand_distinct_moves_commit_one_group_each() {
    let mut c = fresh();
    c.pointer_down(Button::Left, 0, 0, false);
    c.pointer_move(1, 1, false);
    c.pointer_move(2, 2, false);
    c.pointer_move(3, 3, false);
    assert_eq!(c.history_len(), 3);
    assert_eq!(c.group_at(0), Group::Single(stamp(1, 1)));
    assert_eq!(c.group_at(1), Group::Single(stamp(2, 2)));
    assert_eq!(c.group_at(2), Group::Single(stamp(3, 3)));
}

#[test]
fn freehand_duplicate_moves_are_suppressed() {
    let mut c = fresh();
    c.pointer_down(Button::Left, 0, 0, false);
    c.pointer_move(7, 7, false);
    c.pointer_move(7, 7, false);
    c.pointer_move(7, 7, false);
    assert_eq!(c.history_len(), 1);
    assert_eq!(c.group_at(0), Group::Single(stamp(7, 7)));
}

#[test]
fn freehand_needs_drawing_mode() {
    let mut c = fresh();
    c.pointer_move(1, 1, false);
    assert_eq!(c.history_len(), 0);
    c.pointer_down(Button::Left, 0, 0, false);
    c.pointer_up(Button::Left);
    c.pointer_move(2, 2, false);
    assert_eq!(c.history_len(), 0);
}

#[test]
fn non_primary_button_is_ignored() {
    let mut c = fresh();
    c.pointer_down(Button::Right, 5, 5, false);
    assert!(!c.is_drawing());
    c.pointer_move(1, 1, false);
    assert_eq!(c.history_len(), 0);
    c.pointer_down(Button::Left, 0, 0, false);
    c.pointer_up(Button::Middle);
    assert!(c.is_drawing());
    c.pointer_up(Button::Left);
    assert!(!c.is_drawing());
}

#[test]
fn inert_tools_commit_nothing() {
    for tool in [Tool::Square, Tool::Rectangle, Tool::Triangle] {
        let mut c = fresh();
        c.set_tool(tool);
        c.pointer_down(Button::Left, 0, 0, false);
        c.pointer_move(1, 1, false);
        c.pointer_move(2, 2, false);
        c.pointer_up(Button::Left);
        assert_eq!(c.history_len(), 0);
        assert_eq!(c.pending_anchor(), None);
    }
}

#[test]
fn undo_on_empty_history_is_a_no_op() {
    let mut c = fresh();
    c.undo();
    assert_eq!(c.history_len(), 0);
    c.undo();
    c.undo();
    assert_eq!(c.history_len(), 0);
}

#[test]
fn undo_removes_exactly_the_most_recent_group() {
    let mut c = fresh();
    c.append_group(Group::Single(stamp(1, 1)));
    c.append_group(Group::Single(stamp(2, 2)));
    c.append_group(Group::Pair(stamp(3, 3), stamp(4, 4)));
    assert_eq!(c.history_len(), 3);
    c.undo();
    assert_eq!(c.history_len(), 2);
    assert_eq!(c.group_at(0), Group::Single(stamp(1, 1)));
    assert_eq!(c.group_at(1), Group::Single(stamp(2, 2)));
    c.undo();
    assert_eq!(c.history_len(), 1);
    assert_eq!(c.group_at(0), Group::Single(stamp(1, 1)));
}

#[test]
fn line_round_trip() {
    let mut c = fresh();
    c.set_tool(Tool::Line);
    c.pointer_down(Button::Left, 10, 10, false);
    assert_eq!(c.history_len(), 0);
    assert_eq!(c.pending_anchor(), Some(Point { x: 10, y: 10 }));
    c.pointer_down(Button::Left, 50, 50, false);
    assert_eq!(c.history_len(), 1);
    assert_eq!(c.group_at(0), Group::Pair(stamp(10, 10), stamp(50, 50)));
    assert_eq!(c.pending_anchor(), None);
    // A third click starts a new anchor rather than touching the committed
    // group.
    c.pointer_down(Button::Left, 70, 70, false);
    assert_eq!(c.history_len(), 1);
    assert_eq!(c.group_at(0), Group::Pair(stamp(10, 10), stamp(50, 50)));
    assert_eq!(c.pending_anchor(), Some(Point { x: 70, y: 70 }));
}

#[test]
fn overlay_click_and_move_commit_nothing() {
    let mut c = fresh();
    c.pointer_down(Button::Left, 0, 0, true);
    c.pointer_move(1, 1, true);
    c.pointer_move(2, 2, true);
    assert_eq!(c.history_len(), 0);
    assert_eq!(c.pending_anchor(), None);
}

#[test]
fn overlay_click_discards_pending_anchor() {
    let mut c = fresh();
    c.set_tool(Tool::Line);
    c.pointer_down(Button::Left, 10, 10, false);
    assert_eq!(c.pending_anchor(), Some(Point { x: 10, y: 10 }));
    // The commit attempt lands on an overlay panel: no group, no stale
    // anchor.
    c.pointer_down(Button::Left, 50, 50, true);
    assert_eq!(c.history_len(), 0);
    assert_eq!(c.pending_anchor(), None);
}

#[test]
fn tool_switch_discards_pending_anchor() {
    let mut c = fresh();
    c.set_tool(Tool::Line);
    c.pointer_down(Button::Left, 0, 0, false);
    assert_eq!(c.pending_anchor(), Some(Point { x: 0, y: 0 }));
    c.set_tool(Tool::Ellipse);
    assert_eq!(c.pending_anchor(), None);
    c.set_tool(Tool::Line);
    assert_eq!(c.pending_anchor(), None);
    // The next click starts a new anchor; it does not reuse (0, 0).
    c.pointer_down(Button::Left, 9, 9, false);
    assert_eq!(c.history_len(), 0);
    assert_eq!(c.pending_anchor(), Some(Point { x: 9, y: 9 }));
}

#[test]
fn undo_key_fires_once_per_key_down_edge() {
    let mut c = fresh();
    c.append_group(Group::Single(stamp(1, 1)));
    c.append_group(Group::Single(stamp(2, 2)));
    c.append_group(Group::Single(stamp(3, 3)));
    c.key_down(Key::Z, true);
    assert_eq!(c.history_len(), 2);
    // Host key-repeat while the key stays held must not undo again.
    c.key_down(Key::Z, true);
    c.key_down(Key::Z, true);
    assert_eq!(c.history_len(), 2);
    c.key_up(Key::Z);
    c.key_down(Key::Z, true);
    assert_eq!(c.history_len(), 1);
}

#[test]
fn other_keys_and_unmodified_z_do_not_undo() {
    let mut c = fresh();
    c.append_group(Group::Single(stamp(1, 1)));
    c.key_down(Key::Other, true);
    c.key_up(Key::Other);
    assert_eq!(c.history_len(), 1);
    c.key_down(Key::Z, false);
    c.key_up(Key::Z);
    assert_eq!(c.history_len(), 1);
}

#[test]
fn scenario_freehand_drag_with_repeated_point() {
    // Start empty: white background, radius 40, the stroke color picked by
    // the host. The channels carry the bit patterns of the host's
    // floating-point components.
    let stroke = Hsv {
        hue: (10.0f32).to_bits(),
        saturation: (0.5f32).to_bits(),
        value: (1.0f32).to_bits(),
    };
    let white = Hsv {
        hue: (0.0f32).to_bits(),
        saturation: (0.0f32).to_bits(),
        value: (255.0f32).to_bits(),
    };
    let mut c = CanvasState::new(40, stroke, white);
    assert_eq!(c.history_len(), 0);
    assert_eq!(c.background(), white);
    // Drag through (0,0) -> (5,0) -> (5,0) -> (10,0): the repeated (5,0) is
    // suppressed.
    c.pointer_down(Button::Left, 0, 0, false);
    c.pointer_move(0, 0, false);
    c.pointer_move(5, 0, false);
    c.pointer_move(5, 0, false);
    c.pointer_move(10, 0, false);
    assert_eq!(c.history_len(), 3);
    let expect = |x: i64, y: i64| Group::Single(Primitive::Stamp { x, y, radius: 40, color: stroke });
    assert_eq!(c.group_at(0), expect(0, 0));
    assert_eq!(c.group_at(1), expect(5, 0));
    assert_eq!(c.group_at(2), expect(10, 0));
}

#[test]
fn first_point_is_committed_even_at_the_last_point_of_an_old_stroke() {
    let mut c = fresh();
    c.pointer_down(Button::Left, 0, 0, false);
    c.pointer_move(4, 4, false);
    c.pointer_up(Button::Left);
    // A new drag that starts by moving to the old stroke's last point is
    // still suppressed: the comparison is against the last committed point,
    // not against the current drag only.
    c.pointer_down(Button::Left, 4, 4, false);
    c.pointer_move(4, 4, false);
    assert_eq!(c.history_len(), 1);
    c.pointer_move(5, 5, false);
    assert_eq!(c.history_len(), 2);
}

#[test]
fn configuration_setters_take_effect() {
    let mut c = fresh();
    c.set_radius(77);
    assert_eq!(c.radius(), 77);
    let red = Hsv { hue: 1, saturation: 2, value: 3 };
    c.set_color(red);
    assert_eq!(c.color(), red);
    c.set_background(red);
    assert_eq!(c.background(), red);
    c.set_tool(Tool::Triangle);
    assert_eq!(c.tool(), Tool::Triangle);
    // New stamps pick up the new configuration.
    c.set_tool(Tool::Ellipse);
    c.pointer_down(Button::Left, 0, 0, false);
    c.pointer_move(1, 1, false);
    assert_eq!(
        c.group_at(0),
        Group::Single(Primitive::Stamp { x: 1, y: 1, radius: 77, color: red })
    );
}

#[test]
fn tool_labels() {
    assert_eq!(Tool::Square.label(), "Square");
    assert_eq!(Tool::Rectangle.label(), "Rectangle");
    assert_eq!(Tool::Line.label(), "Line");
    assert_eq!(Tool::Ellipse.label(), "Ellipse");
    assert_eq!(Tool::Triangle.label(), "Triangle");
}
