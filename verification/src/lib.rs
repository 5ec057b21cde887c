//! Core of a terminal-based modal text editor.
//!
//! Messages drive component state transitions, which drive a diffed
//! terminal render. The document is addressed by grapheme cluster, the
//! modal input state machine turns keys into messages, and the render
//! engine diffs double-buffered frames so that only changed cells reach
//! the drawing surface.

pub mod buffer;
pub mod communication;
pub mod component;
pub mod document;
pub mod editor;
pub mod execute;
pub mod input;
pub mod mode;
pub mod normal;
pub mod render;
pub mod row;
pub mod status_bar;
pub mod text_input;
pub mod ui;
pub mod welcome;
pub mod window;

pub use editor::Editor;
pub use input::{Event, Key};
pub use render::{Canvas, Cell};

use vstd::prelude::*;

verus! {

} // verus!
