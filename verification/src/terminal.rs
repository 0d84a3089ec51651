//! The drawing vocabulary of the terminal layer.
//!
//! Every screen mutation the editor asks for is one [`Command`]. A frame is a
//! `Vec<Command>`; the caller that owns the device performs the commands in
//! order and flushes the device once, so the whole frame becomes visible
//! atomically.

use vstd::prelude::*;

verus! {

/// One buffered drawing instruction for the terminal device.
///
/// Coordinates are 0-based: column 0 is the leftmost cell, row 0 the top
/// line. `MoveTo(column, row)` repositions the cursor absolutely; the device
/// clamps out-of-range coordinates.
#[derive(Clone, Copy, PartialEq, Eq, Debug)]
pub enum Command {
    /// Move the cursor to the absolute (column, row) position.
    MoveTo(u16, u16),
    /// Erase all visible content.
    ClearScreen,
    /// Erase the line the cursor occupies, without moving the cursor.
    ClearLine,
    /// Append the text verbatim to the output at the cursor position.
    Print(&'static str),
    /// Make the cursor invisible while a frame is being drawn.
    HideCursor,
    /// Make the cursor visible again once the frame is complete.
    ShowCursor,
}

/// The mathematical image of a [`Command`]: identical shape, with the
/// printed text abstracted to its character sequence.
pub enum CommandView {
    MoveTo(u16, u16),
    ClearScreen,
    ClearLine,
    Print(Seq<char>),
    HideCursor,
    ShowCursor,
}

impl View for Command {
    type V = CommandView;

    open spec fn view(&self) -> CommandView {
        match *self {
            Command::MoveTo(column, row) => CommandView::MoveTo(column, row),
            Command::ClearScreen => CommandView::ClearScreen,
            Command::ClearLine => CommandView::ClearLine,
            Command::Print(text) => CommandView::Print(text@),
            Command::HideCursor => CommandView::HideCursor,
            Command::ShowCursor => CommandView::ShowCursor,
        }
    }
}

impl DeepView for Command {
    type V = CommandView;

    open spec fn deep_view(&self) -> CommandView {
        self.view()
    }
}

} // verus!
