use kilo_core::editor::{Editor, InputEvent, KeyCode, KeyPress, Modifiers};
use kilo_core::terminal::Command;

const WELCOME: &str = "kilo editor -- version 1.0";

fn ctrl_q() -> InputEvent {
    InputEvent::Key(KeyPress { code: KeyCode::Char('q'), modifiers: Modifiers::control_only() })
}

#[test]
fn banner_is_centred_on_an_eighty_column_screen() {
    // columns = 80, text width = 26: offset (80 - 26) / 2 = 27.
    // rows = 24: banner row 24 / 3 = 8.
    let ops = Editor::draw_welcome(80, 24);
    assert_eq!(ops, vec![Command::MoveTo(27, 8), Command::Print(WELCOME)]);
}

#[test]
fn banner_offset_saturates_at_zero_on_a_narrow_screen() {
    // columns = 10 is narrower than the text: the offset is 0, not negative.
    let ops = Editor::draw_welcome(10, 24);
    assert_eq!(ops, vec![Command::MoveTo(0, 8), Command::Print(WELCOME)]);
}

#[test]
fn filler_pass_clears_each_row_before_its_marker() {
    let ops = Editor::draw_rows(3);
    assert_eq!(
        ops,
        vec![
            Command::MoveTo(0, 0),
            Command::ClearLine,
            Command::Print("~"),
            Command::MoveTo(0, 1),
            Command::ClearLine,
            Command::Print("~"),
            Command::MoveTo(0, 2),
            Command::ClearLine,
            Command::Print("~"),
        ]
    );
}

#[test]
fn filler_pass_on_an_empty_screen_draws_nothing() {
    let ops = Editor::draw_rows(0);
    assert!(ops.is_empty());
}

#[test]
fn first_frame_on_an_eighty_by_twenty_four_screen() {
    let editor = Editor::default();
    let frame = editor.refresh_screen(80, 24);

    // Hide the cursor, 3 instructions per filler row, 2 for the banner,
    // park the cursor, show it again.
    assert_eq!(frame.len(), 1 + 3 * 24 + 2 + 2);
    assert_eq!(frame[0], Command::HideCursor);

    // A `~` marker at column 0 of every row 0..=23, rows strictly
    // increasing, each row cleared before its marker is written.
    for row in 0..24u16 {
        let base = 1 + 3 * row as usize;
        assert_eq!(frame[base], Command::MoveTo(0, row));
        assert_eq!(frame[base + 1], Command::ClearLine);
        assert_eq!(frame[base + 2], Command::Print("~"));
    }

    // The centred banner lands on row 8, after the filler pass.
    assert_eq!(frame[73], Command::MoveTo(27, 8));
    assert_eq!(frame[74], Command::Print(WELCOME));

    // The cursor ends parked at (0, 0) and is made visible again.
    assert_eq!(frame[75], Command::MoveTo(0, 0));
    assert_eq!(frame[76], Command::ShowCursor);
}

#[test]
fn goodbye_frame_after_ctrl_q() {
    let mut editor = Editor::default();
    editor.evaluate_event(&ctrl_q());
    let frame = editor.refresh_screen(80, 24);
    assert_eq!(
        frame,
        vec![
            Command::HideCursor,
            Command::ClearScreen,
            Command::MoveTo(0, 0),
            Command::Print("Goodbye.\r\n"),
            Command::ShowCursor,
        ]
    );
}
