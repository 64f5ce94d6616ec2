//! The editing and navigation core of a terminal HTTP-client interface:
//! a single-line text buffer with a character-addressed cursor and
//! word-skip movement, the 2D focus grid that maps directional input to
//! named screen regions, and the application state that routes key events
//! to one or the other. Every operation clamps instead of failing; the
//! terminal itself is owned by the surrounding shell.

pub mod app;
pub mod event;
pub mod input;
pub mod overview;
