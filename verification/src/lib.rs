//! Core of a pointer-driven drawing canvas: an undoable history of committed
//! shape groups, and the gesture logic that turns pointer and keyboard events
//! into appends to that history.
//!
//! The host windowing/UI toolkit stays outside: it delivers events (with an
//! "is the pointer over an overlay panel" flag), owns the configuration
//! widgets, and renders the snapshot this library hands back each frame.

pub mod canvas;
pub mod laws;
pub mod render;
pub mod shape;
