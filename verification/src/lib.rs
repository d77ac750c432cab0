//! Interaction logic for immediate-mode widgets: a single-line text field
//! with cursor, selection, horizontal scrolling and key repeat, and the
//! state of buttons, checkboxes and dropdown lists, on integer pixel
//! geometry and glyph advances supplied by the host.
//!
//! The host polls its devices into a `FrameInput` once a frame and hands it
//! to the `update` of each widget; what a widget wants drawn it says in plain
//! values. Time counts in microseconds.

pub mod geometry;
pub mod input;
pub mod metrics;
pub mod buffer;
pub mod words;
pub mod repeat;
pub mod filter;
pub mod model;
pub mod textfield;
pub mod drawing;
pub mod laws;
pub mod button;
pub mod checkbox;
pub mod dropdown;
pub mod results;
