use hecto::{CursorPosition, Direction, DrawOp, Editor, EditorCommand, InputEvent, Key, Location, Size, View, CONTROL};

fn print(s: &str) -> DrawOp {
    DrawOp::Print(s.to_string())
}

fn printed_rows(ops: &[DrawOp]) -> Vec<String> {
    ops.iter()
        .filter_map(|op| match op {
            DrawOp::Print(s) if s != "\r\n" => Some(s.clone()),
            _ => None,
        })
        .collect()
}

#[test]
fn empty_buffer_shows_centered_banner_a_third_down() {
    let mut view = View::new(Size { rows: 9, cols: 40 });
    let ops = view.render();
    let rows = printed_rows(&ops);
    assert_eq!(rows.len(), 9);
    let banner = format!("~{}hecto editor -- 0.1.0", " ".repeat(8));
    for (r, text) in rows.iter().enumerate() {
        if r == 3 {
            assert_eq!(text, &banner);
            assert_eq!(text.find("hecto"), Some(9));
        } else {
            assert_eq!(text, "~");
        }
    }
}

#[test]
fn render_emits_the_exact_draw_sequence() {
    let mut view = View::new(Size { rows: 3, cols: 10 });
    view.load("abc\nde");
    let ops = view.render();
    let expected = vec![
        DrawOp::MoveCursorTo(CursorPosition { row: 0, col: 0 }),
        DrawOp::ClearLine,
        print("abc"),
        print("\r\n"),
        DrawOp::ClearLine,
        print("de"),
        print("\r\n"),
        DrawOp::ClearLine,
        print("~"),
    ];
    assert_eq!(ops, expected);
    assert!(!view.needs_redraw);
}

#[test]
fn rendering_twice_draws_nothing_the_second_time() {
    let mut view = View::new(Size { rows: 4, cols: 10 });
    view.load("one\ntwo\nthree");
    let first = view.render();
    assert_eq!(first.len(), 12);
    assert!(!view.needs_redraw);
    let second = view.render();
    assert!(second.is_empty());
    assert!(!view.needs_redraw);
    assert_eq!(view.location, Location { row: 0, col: 0 });
}

#[test]
fn render_truncates_and_offsets_columns() {
    let mut view = View::new(Size { rows: 2, cols: 4 });
    view.load("0123456789\nab");
    for _ in 0..6 {
        view.move_point(Direction::Right);
    }
    assert_eq!(view.scroll_offset.cols, 3);
    let rows = printed_rows(&view.render());
    assert_eq!(rows, vec!["3456".to_string(), String::new()]);
}

#[test]
fn render_shows_rows_from_the_scroll_offset() {
    let mut view = View::new(Size { rows: 2, cols: 10 });
    view.load("a\nb\nc\nd");
    for _ in 0..3 {
        view.move_point(Direction::Down);
    }
    assert_eq!(view.scroll_offset.rows, 2);
    let rows = printed_rows(&view.render());
    assert_eq!(rows, vec!["c".to_string(), "d".to_string()]);
}

#[test]
fn banner_is_cut_on_a_narrow_screen() {
    let mut view = View::new(Size { rows: 3, cols: 10 });
    let rows = printed_rows(&view.render());
    assert_eq!(rows[1], "~hecto edi");
    assert_eq!(rows[0], "~");
}

#[test]
fn zero_width_screen_prints_empty_rows() {
    let mut view = View::new(Size { rows: 2, cols: 0 });
    let rows = printed_rows(&view.render());
    assert_eq!(rows, vec![String::new(), String::new()]);
}

#[test]
fn editor_refresh_places_the_cursor_relative_to_the_window() {
    let mut editor = Editor::new(Size { rows: 2, cols: 3 });
    editor.view.load("abcdef\nx\ny");
    editor.evaluate_event(EditorCommand::Move(Direction::End));
    editor.evaluate_event(EditorCommand::Move(Direction::Down));
    editor.evaluate_event(EditorCommand::Move(Direction::Down));
    assert_eq!(editor.view.location, Location { row: 2, col: 1 });
    assert_eq!(editor.view.scroll_offset.cols, 1);
    let ops = editor.refresh_screen();
    assert_eq!(ops.first(), Some(&DrawOp::HideCursor));
    assert_eq!(ops.last(), Some(&DrawOp::ShowCursor));
    assert_eq!(
        ops[ops.len() - 2],
        DrawOp::MoveCursorTo(CursorPosition { row: 1, col: 0 })
    );
    let again = editor.refresh_screen();
    assert_eq!(
        again,
        vec![
            DrawOp::HideCursor,
            DrawOp::MoveCursorTo(CursorPosition { row: 1, col: 0 }),
            DrawOp::ShowCursor,
        ]
    );
}

#[test]
fn editor_quit_shows_the_farewell_screen() {
    let mut editor = Editor::new(Size { rows: 5, cols: 20 });
    assert!(!editor.should_quit);
    editor.evaluate_event(EditorCommand::Quit);
    assert!(editor.should_quit);
    let ops = editor.refresh_screen();
    assert_eq!(
        ops,
        vec![
            DrawOp::HideCursor,
            DrawOp::ClearScreen,
            DrawOp::MoveCursorTo(CursorPosition { row: 0, col: 0 }),
            print("Goodbye!\r\n"),
            DrawOp::ShowCursor,
        ]
    );
    assert_eq!(editor.print_goodbye().as_slice(), &ops[1..4]);
}

#[test]
fn editor_resize_and_ignored_commands() {
    let mut editor = Editor::new(Size { rows: 5, cols: 20 });
    editor.view.load("a\nb\nc\nd\ne\nf");
    for _ in 0..4 {
        editor.evaluate_event(EditorCommand::Move(Direction::Down));
    }
    editor.refresh_screen();
    editor.evaluate_event(EditorCommand::Ignore);
    assert!(!editor.view.needs_redraw);
    assert_eq!(editor.view.location.row, 4);
    editor.evaluate_event(EditorCommand::Resize(Size { rows: 2, cols: 20 }));
    assert!(editor.view.needs_redraw);
    assert_eq!(editor.view.size, Size { rows: 2, cols: 20 });
    assert_eq!(editor.view.scroll_offset.rows, 3);
    assert!(!editor.should_quit);
}

#[test]
fn control_q_quits_and_other_chars_are_ignored() {
    let quit = InputEvent::Key { key: Key::Char('q'), modifiers: CONTROL };
    assert_eq!(EditorCommand::from(quit), EditorCommand::Quit);
    let plain_q = InputEvent::Key { key: Key::Char('q'), modifiers: 0 };
    assert_eq!(EditorCommand::from(plain_q), EditorCommand::Ignore);
    let ctrl_shift_q = InputEvent::Key { key: Key::Char('q'), modifiers: CONTROL | 1 };
    assert_eq!(EditorCommand::from(ctrl_shift_q), EditorCommand::Ignore);
    let ctrl_x = InputEvent::Key { key: Key::Char('x'), modifiers: CONTROL };
    assert_eq!(EditorCommand::from(ctrl_x), EditorCommand::Ignore);
    let other = InputEvent::Key { key: Key::Other, modifiers: 0 };
    assert_eq!(EditorCommand::from(other), EditorCommand::Ignore);
    assert_eq!(EditorCommand::from(InputEvent::Other), EditorCommand::Ignore);
}

#[test]
fn movement_keys_map_to_moves_whatever_the_modifiers() {
    let pairs = [
        (Key::Left, Direction::Left),
        (Key::Right, Direction::Right),
        (Key::Up, Direction::Up),
        (Key::Down, Direction::Down),
        (Key::Home, Direction::Home),
        (Key::End, Direction::End),
        (Key::PageUp, Direction::PageUp),
        (Key::PageDown, Direction::PageDown),
    ];
    for (key, dir) in pairs {
        for modifiers in [0u8, CONTROL, 4] {
            let event = InputEvent::Key { key, modifiers };
            assert_eq!(EditorCommand::from(event), EditorCommand::Move(dir));
        }
    }
}

#[test]
fn resize_event_carries_rows_and_columns() {
    let event = InputEvent::Resize { cols: 120, rows: 40 };
    assert_eq!(EditorCommand::from(event), EditorCommand::Resize(Size { rows: 40, cols: 120 }));
}
