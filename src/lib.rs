//! Fixed-size typewriter terminal: a grid of character cells, a cursor that
//! wraps and freezes at capacity, and a per-glyph pulse animation clock.
//!
//! Rendering, audio and window handling live with the host; this library
//! only tracks positions, characters, host-owned glyph handles and
//! animation progress.

pub mod cells;
pub mod cursor;
pub mod engine;
pub mod hud;
pub mod laws;
pub mod layout;
pub mod pulse;

pub use cursor::CursorState;
pub use engine::{CharEffect, TerminalGridEngine};
pub use layout::{COLS, ROWS};
