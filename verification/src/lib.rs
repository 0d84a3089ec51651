//! Core of a minimal terminal text editor: the editor state machine and the
//! render planner.
//!
//! The library is pure: it decides what the editor does, never how the bytes
//! reach the terminal device. A render pass produces a list of drawing
//! [`terminal::Command`]s; the binary that owns the real terminal performs
//! them in order and flushes once, so a whole frame lands in one write.

pub mod editor;
pub mod terminal;
