//! The editor state machine.
//!
//! The editor owns a single piece of state: the `should_quit` latch. It is a
//! one-way latch — once set it is never cleared — and the only input that
//! sets it is the character `q` pressed with exactly the control modifier.

use crate::terminal::Command;
use crate::terminal::CommandView;
use vstd::prelude::*;

verus! {

/// The modifier keys reported together with a key press.
#[derive(Clone, Copy, PartialEq, Eq, Structural, Debug)]
pub struct Modifiers {
    pub shift: bool,
    pub control: bool,
    pub alt: bool,
    pub superkey: bool,
    pub hyper: bool,
    pub meta: bool,
}

impl Modifiers {
    /// The control key is held and no other modifier is.
    pub open spec fn is_only_control(self) -> bool {
        self.control && !self.shift && !self.alt && !self.superkey && !self.hyper && !self.meta
    }

    /// A modifier set with nothing held.
    pub fn none() -> (modifiers: Modifiers)
        ensures
            !modifiers.shift,
            !modifiers.control,
            !modifiers.alt,
            !modifiers.superkey,
            !modifiers.hyper,
            !modifiers.meta,
    {
        Modifiers {
            shift: false,
            control: false,
            alt: false,
            superkey: false,
            hyper: false,
            meta: false,
        }
    }

    /// The modifier set holding exactly the control key.
    pub fn control_only() -> (modifiers: Modifiers)
        ensures
            modifiers.is_only_control(),
    {
        Modifiers {
            shift: false,
            control: true,
            alt: false,
            superkey: false,
            hyper: false,
            meta: false,
        }
    }
}

/// What a single key press carries: the key itself and the modifier set.
#[derive(Clone, Copy, PartialEq, Eq, Structural, Debug)]
pub struct KeyPress {
    pub code: KeyCode,
    pub modifiers: Modifiers,
}

/// The key that was pressed. The editor only distinguishes character keys;
/// every other key (arrows, function keys, enter, ...) is `NonCharacter`.
#[derive(Clone, Copy, PartialEq, Eq, Structural, Debug)]
pub enum KeyCode {
    Char(char),
    NonCharacter,
}

/// One input event from the terminal. Only key presses are examined; every
/// other event kind (resize, mouse, paste, focus) is `Other` and is ignored.
#[derive(Clone, Copy, PartialEq, Eq, Structural, Debug)]
pub enum InputEvent {
    Key(KeyPress),
    Other,
}

/// The designated quit input: the character `q` together with exactly the
/// control modifier. `q` with control and shift, for instance, does not
/// match.
pub open spec fn is_quit_key(event: InputEvent) -> bool {
    &&& event matches InputEvent::Key(key)
    &&& key.code matches KeyCode::Char(c)
    &&& c == 'q'
    &&& key.modifiers.is_only_control()
}

/// The transition of the quit latch under one interpreted event: it is set by
/// the quit input and never cleared.
pub open spec fn step_quit(quitting: bool, event: InputEvent) -> bool {
    quitting || is_quit_key(event)
}

/// The quit latch after a whole sequence of events has been interpreted in
/// order, starting from `quitting`.
pub open spec fn run_events(quitting: bool, events: Seq<InputEvent>) -> bool
    decreases events.len(),
{
    if events.len() == 0 {
        quitting
    } else {
        run_events(step_quit(quitting, events[0]), events.drop_first())
    }
}

/// An event that is not the quit input leaves a running editor running.
pub proof fn lemma_non_quit_event_keeps_running(event: InputEvent)
    requires
        !is_quit_key(event),
    ensures
        !step_quit(false, event),
{
}

/// The quit input sets the latch, whatever the latch held before.
pub proof fn lemma_quit_key_sets_latch(quitting: bool, event: InputEvent)
    requires
        is_quit_key(event),
    ensures
        step_quit(quitting, event),
{
}

/// Quitting is absorbing: once the latch is set, no sequence of further
/// events clears it.
pub proof fn lemma_quit_is_absorbing(events: Seq<InputEvent>)
    ensures
        run_events(true, events),
    decreases events.len(),
{
    if events.len() > 0 {
        lemma_quit_is_absorbing(events.drop_first());
    }
}

/// The three instructions that render one filler row: park the cursor at
/// column 0 of the row, clear the line, print the `~` marker.
pub open spec fn tilde_row_ops(row: u16) -> Seq<CommandView> {
    seq![
        CommandView::MoveTo(0, row),
        CommandView::ClearLine,
        CommandView::Print("~"@),
    ]
}

/// The instructions that render all filler rows `0, 1, ..., row_count - 1`,
/// top to bottom.
pub open spec fn filler_ops(row_count: int) -> Seq<CommandView>
    decreases row_count,
{
    if row_count <= 0 {
        Seq::empty()
    } else {
        filler_ops(row_count - 1) + tilde_row_ops((row_count - 1) as u16)
    }
}

proof fn lemma_filler_ops_layout(n: int)
    requires
        0 <= n <= u16::MAX,
    ensures
        filler_ops(n).len() == 3 * n,
        forall|i: int|
            0 <= i < 3 * n ==> filler_ops(n)[i] == tilde_row_ops((i / 3) as u16)[i % 3],
    decreases n,
{
    if n > 0 {
        lemma_filler_ops_layout(n - 1);
        assert forall|i: int| 0 <= i < 3 * n implies filler_ops(n)[i] == tilde_row_ops(
            (i / 3) as u16,
        )[i % 3] by {
            if i < 3 * (n - 1) {
                assert(filler_ops(n)[i] == filler_ops(n - 1)[i]);
            } else {
                assert(filler_ops(n)[i] == tilde_row_ops((n - 1) as u16)[i - 3 * (n - 1)]);
                assert(i / 3 == n - 1);
                assert(i % 3 == i - 3 * (n - 1));
            }
        }
    }
}

/// The filler pass touches exactly `row_count` rows, three instructions for
/// each: instruction `3*r` moves the cursor to column 0 of row `r`,
/// instruction `3*r + 1` clears that row, and instruction `3*r + 2` prints
/// the `~` marker — so every row is cleared before its marker is written,
/// and the rows run in strictly increasing order from 0.
pub proof fn lemma_filler_layout(row_count: u16)
    ensures
        filler_ops(row_count as int).len() == 3 * (row_count as int),
        forall|i: int|
            0 <= i < 3 * (row_count as int) ==> filler_ops(row_count as int)[i] == tilde_row_ops(
                (i / 3) as u16,
            )[i % 3],
{
    lemma_filler_ops_layout(row_count as int);
}

/// The welcome banner text.
pub open spec fn welcome_text() -> Seq<char> {
    "kilo editor -- version 1.0"@
}

/// The horizontal offset that centres a banner of width `width` on a screen
/// of `columns` columns: half the leftover space, and 0 — never negative —
/// when the banner is wider than the screen.
pub open spec fn banner_column(columns: u16, width: nat) -> u16 {
    if columns >= width {
        (((columns - width) / 2) as u16)
    } else {
        0
    }
}

/// The row the banner sits on: a third of the way down the screen.
pub open spec fn banner_row(rows: u16) -> u16 {
    ((rows / 3) as u16)
}

/// The instructions that render the centred welcome banner.
pub open spec fn welcome_ops(columns: u16, rows: u16) -> Seq<CommandView> {
    seq![
        CommandView::MoveTo(banner_column(columns, welcome_text().len()), banner_row(rows)),
        CommandView::Print(welcome_text()),
    ]
}

/// The goodbye text printed on shutdown.
pub open spec fn goodbye_text() -> Seq<char> {
    "Goodbye.\r\n"@
}

/// The final frame: clear everything, park the cursor at the top-left
/// corner, print the goodbye line.
pub open spec fn goodbye_frame_ops() -> Seq<CommandView> {
    seq![
        CommandView::HideCursor,
        CommandView::ClearScreen,
        CommandView::MoveTo(0, 0),
        CommandView::Print(goodbye_text()),
        CommandView::ShowCursor,
    ]
}

/// A normal frame: filler rows, then the welcome banner, then the cursor
/// parked at the top-left corner. The whole frame is bracketed by hiding and
/// showing the cursor so no half-drawn state is ever visible.
pub open spec fn running_frame_ops(columns: u16, rows: u16) -> Seq<CommandView> {
    seq![CommandView::HideCursor] + filler_ops(rows as int) + welcome_ops(columns, rows)
        + seq![CommandView::MoveTo(0, 0), CommandView::ShowCursor]
}

/// The frame a render pass produces in each of the two editor states.
pub open spec fn frame_ops(quitting: bool, columns: u16, rows: u16) -> Seq<CommandView> {
    if quitting {
        goodbye_frame_ops()
    } else {
        running_frame_ops(columns, rows)
    }
}

/// The editor: a read–interpret–render loop around one boolean of state.
pub struct Editor {
    should_quit: bool,
}

impl Editor {
    /// Whether the editor has decided to shut down.
    pub closed spec fn quitting(&self) -> bool {
        self.should_quit
    }

    /// A fresh editor, not yet quitting.
    pub fn default() -> (editor: Editor)
        ensures
            !editor.quitting(),
    {
        Editor { should_quit: false }
    }

    /// Reads the quit latch.
    pub fn should_quit(&self) -> (quit: bool)
        ensures
            quit == self.quitting(),
    {
        self.should_quit
    }

    /// Interprets one input event: the quit input sets the latch and every
    /// other event leaves the state untouched.
    pub fn evaluate_event(&mut self, event: &InputEvent)
        ensures
            final(self).quitting() == step_quit(old(self).quitting(), *event),
    {
        match event {
            InputEvent::Key(key) => {
                match key.code {
                    KeyCode::Char(c) => {
                        let m = key.modifiers;
                        if c == 'q' && m.control && !m.shift && !m.alt && !m.superkey && !m.hyper
                            && !m.meta {
                            self.should_quit = true;
                        }
                    },
                    KeyCode::NonCharacter => {},
                }
            },
            InputEvent::Other => {},
        }
    }

    /// Plans the filler pass: for every row from the top of the screen to
    /// the bottom, move to column 0, clear the line, print the `~` marker.
    pub fn draw_rows(rows: u16) -> (ops: Vec<Command>)
        ensures
            ops.deep_view() == filler_ops(rows as int),
    {
        let mut ops: Vec<Command> = Vec::new();
        for row in 0..rows
            invariant
                ops.deep_view() == filler_ops(row as int),
        {
            ops.push(Command::MoveTo(0, row));
            ops.push(Command::ClearLine);
            ops.push(Command::Print("~"));
            assert(ops.deep_view() =~= filler_ops(row as int + 1));
        }
        ops
    }

    /// Plans the welcome banner: centred horizontally, a third of the way
    /// down the screen, never pushed off the left edge when the screen is
    /// narrower than the text.
    pub fn draw_welcome(columns: u16, rows: u16) -> (ops: Vec<Command>)
        ensures
            ops.deep_view() == welcome_ops(columns, rows),
    {
        let message: &'static str = "kilo editor -- version 1.0";
        proof {
            reveal_strlit("kilo editor -- version 1.0");
        }
        let width: u16 = 26;
        assert(welcome_text().len() == width);
        let column: u16 = if columns >= width {
            (columns - width) / 2
        } else {
            0
        };
        let row: u16 = rows / 3;
        let mut ops: Vec<Command> = Vec::new();
        ops.push(Command::MoveTo(column, row));
        ops.push(Command::Print(message));
        assert(ops.deep_view() =~= welcome_ops(columns, rows));
        ops
    }

    /// Plans one whole frame for the current state.
    ///
    /// While the editor runs, the frame is the filler rows, the welcome
    /// banner, and the cursor parked at (0, 0); once it is quitting, the
    /// frame clears the screen and prints the goodbye line. Either way the
    /// frame is bracketed by hiding and showing the cursor, and the caller
    /// performs it as one batch with a single flush at the end.
    pub fn refresh_screen(&self, columns: u16, rows: u16) -> (frame: Vec<Command>)
        ensures
            frame.deep_view() == frame_ops(self.quitting(), columns, rows),
    {
        let mut frame: Vec<Command> = Vec::new();
        frame.push(Command::HideCursor);
        if self.should_quit {
            frame.push(Command::ClearScreen);
            frame.push(Command::MoveTo(0, 0));
            frame.push(Command::Print("Goodbye.\r\n"));
            frame.push(Command::ShowCursor);
            assert(frame.deep_view() =~= goodbye_frame_ops());
        } else {
            let mut filler = Self::draw_rows(rows);
            frame.append(&mut filler);
            let mut welcome = Self::draw_welcome(columns, rows);
            frame.append(&mut welcome);
            frame.push(Command::MoveTo(0, 0));
            frame.push(Command::ShowCursor);
            assert(frame.deep_view() =~= running_frame_ops(columns, rows));
        }
        frame
    }
}

/// The outcome `run` reports when the event loop and the terminal teardown
/// have both finished: the loop's error takes precedence, a teardown error
/// surfaces only after a clean loop, and success means both succeeded.
pub fn session_outcome<E>(loop_result: Result<(), E>, teardown_result: Result<(), E>) -> (outcome:
    Result<(), E>)
    ensures
        outcome == (if loop_result is Err {
            loop_result
        } else {
            teardown_result
        }),
{
    match loop_result {
        Err(error) => Err(error),
        Ok(()) => teardown_result,
    }
}

} // verus!
