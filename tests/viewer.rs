use hecto::buffer::Buffer;
use hecto::editor::{Editor, GOODBYE};
use hecto::editor_command::{
    DecodeError, Direction, EditorCommand, Event, KeyCode, KeyEvent, CONTROL,
};
use hecto::location::Location;
use hecto::terminal::{Position, Size, Terminal, TerminalOp};
use hecto::view::{View, WELCOME_MESSAGE};

fn key(code: KeyCode) -> Event {
    Event::Key(KeyEvent { code, modifiers: 0 })
}

fn printed(ops: &[TerminalOp]) -> Vec<String> {
    let mut out = Vec::new();
    for op in ops {
        if let TerminalOp::Print(s) = op {
            out.push(s.clone());
        }
    }
    out
}

fn row_texts(view: &mut View) -> Vec<String> {
    let mut terminal = Terminal::new();
    view.render(&mut terminal);
    printed(&terminal.take_ops())
}

fn numbered_lines(n: usize) -> String {
    let mut text = String::new();
    for i in 0..n {
        text.push_str(&format!("line {i}\n"));
    }
    text
}

#[test]
fn decode_quit_takes_precedence() {
    let e = Event::Key(KeyEvent { code: KeyCode::Char('q'), modifiers: CONTROL });
    assert_eq!(EditorCommand::try_from(e), Ok(EditorCommand::Quit));
    assert_eq!(
        EditorCommand::try_from(key(KeyCode::Char('q'))),
        Err(DecodeError::UnsupportedKey(KeyCode::Char('q')))
    );
    let ctrl_j = Event::Key(KeyEvent { code: KeyCode::Char('j'), modifiers: CONTROL });
    assert_eq!(EditorCommand::try_from(ctrl_j), Ok(EditorCommand::Move(Direction::Down)));
}

#[test]
fn decode_moves_and_aliases() {
    let cases = [
        (KeyCode::Up, Direction::Up),
        (KeyCode::Char('k'), Direction::Up),
        (KeyCode::Down, Direction::Down),
        (KeyCode::Char('j'), Direction::Down),
        (KeyCode::Left, Direction::Left),
        (KeyCode::Char('h'), Direction::Left),
        (KeyCode::Right, Direction::Right),
        (KeyCode::Char('l'), Direction::Right),
        (KeyCode::PageUp, Direction::PageUp),
        (KeyCode::PageDown, Direction::PageDown),
        (KeyCode::Home, Direction::Home),
        (KeyCode::End, Direction::End),
    ];
    for (code, dir) in cases {
        assert_eq!(EditorCommand::try_from(key(code)), Ok(EditorCommand::Move(dir)));
    }
}

#[test]
fn decode_resize_and_unsupported() {
    assert_eq!(
        EditorCommand::try_from(Event::Resize(80, 24)),
        Ok(EditorCommand::Resize(Size { width: 80, height: 24 }))
    );
    assert_eq!(
        EditorCommand::try_from(key(KeyCode::Other)),
        Err(DecodeError::UnsupportedKey(KeyCode::Other))
    );
    assert_eq!(EditorCommand::try_from(Event::Other), Err(DecodeError::UnsupportedEvent));
}

#[test]
fn buffer_splits_lines() {
    let b = Buffer::load("foo\r\nbar\n\nbaz\r");
    assert_eq!(b.lines, vec!["foo", "bar", "", "baz\r"]);
    assert_eq!(Buffer::load("a\n").lines, vec!["a"]);
    assert!(Buffer::load("").is_empty());
    assert!(!Buffer::load("\n").is_empty());
    assert_eq!(Buffer::load("\n").line_count(), 1);
}

#[test]
fn position_default_and_from_location() {
    let p = Position::default();
    assert_eq!(p, Position { col: 0, row: 0 });
    assert_eq!(Position::from(Location { x: 3, y: 7 }), Position { col: 3, row: 7 });
}

#[test]
fn print_line_queues_move_clear_print() {
    let mut t = Terminal::new();
    t.print_line(4, "hi");
    assert_eq!(
        t.take_ops(),
        vec![
            TerminalOp::MoveCaretTo(Position { col: 0, row: 4 }),
            TerminalOp::ClearLine,
            TerminalOp::Print("hi".to_string()),
        ]
    );
    assert!(t.take_ops().is_empty());
}

#[test]
fn welcome_message_shapes() {
    assert_eq!(WELCOME_MESSAGE.len(), 29);
    assert_eq!(View::build_welcome_message(0), " ");
    assert_eq!(View::build_welcome_message(20), "~");
    assert_eq!(View::build_welcome_message(29), "~");
    assert_eq!(View::build_welcome_message(31), format!("~{WELCOME_MESSAGE}"));
    assert_eq!(View::build_welcome_message(40), format!("~     {WELCOME_MESSAGE}"));
}

#[test]
fn welcome_banner_on_row_height_third() {
    let mut view = View::new(Size { width: 20, height: 9 });
    let rows = row_texts(&mut view);
    assert_eq!(rows.len(), 9);
    assert_eq!(rows[3], "~");
    assert!(rows[3].chars().count() <= 20);

    let mut wide = View::new(Size { width: 60, height: 9 });
    let rows = row_texts(&mut wide);
    let banner = format!("~{}{WELCOME_MESSAGE}", " ".repeat(15));
    for (i, row) in rows.iter().enumerate() {
        if i == 3 {
            assert_eq!(row, &banner);
            assert!(row.chars().count() <= 60);
        } else {
            assert_eq!(row, "~");
        }
    }
}

#[test]
fn no_banner_when_document_has_lines() {
    let mut view = View::new(Size { width: 60, height: 9 });
    view.load(Some("only\n"));
    let rows = row_texts(&mut view);
    assert_eq!(rows[0], "only");
    assert!(rows[1..].iter().all(|r| r == "~"));
}

#[test]
fn zero_size_leaves_screen_untouched() {
    let mut view = View::new(Size { width: 10, height: 5 });
    let _ = row_texts(&mut view);
    view.resize(Size { width: 0, height: 5 });
    let mut t = Terminal::new();
    view.render(&mut t);
    assert!(t.take_ops().is_empty());
    assert!(view.need_redraw());
    view.resize(Size { width: 7, height: 0 });
    view.render(&mut t);
    assert!(t.take_ops().is_empty());
    assert!(view.need_redraw());
    view.resize(Size { width: 7, height: 3 });
    assert_eq!(row_texts(&mut view).len(), 3);
    assert!(!view.need_redraw());
}

#[test]
fn load_replaces_document_and_marks_dirty() {
    let mut view = View::new(Size { width: 10, height: 5 });
    let _ = row_texts(&mut view);
    assert!(!view.need_redraw());
    view.load(None);
    assert!(view.buffer.is_empty());
    assert!(!view.need_redraw());
    view.load(Some("1\n2\n3\n4\n5\n"));
    assert_eq!(view.buffer.line_count(), 5);
    assert!(view.need_redraw());
    view.load(None);
    assert_eq!(view.buffer.line_count(), 5);
}

#[test]
fn end_to_end_scroll_down() {
    let mut view = View::new(Size { width: 80, height: 24 });
    view.load(Some(&numbered_lines(100)));
    for _ in 0..30 {
        view.handle_command(EditorCommand::Move(Direction::Down));
    }
    assert_eq!(view.location().y, 30);
    assert_eq!(view.scroll_offset().y, 7);
    let rows = row_texts(&mut view);
    assert_eq!(rows[0], "line 7");
    assert_eq!(rows[23], "line 30");
    assert_eq!(view.get_position(), Position { col: 0, row: 23 });
}

#[test]
fn moves_within_viewport_do_not_redraw() {
    let mut view = View::new(Size { width: 10, height: 5 });
    view.load(Some(&numbered_lines(20)));
    let _ = row_texts(&mut view);
    view.handle_command(EditorCommand::Move(Direction::Down));
    view.handle_command(EditorCommand::Move(Direction::Right));
    assert!(!view.need_redraw());
    assert!(row_texts(&mut view).is_empty());
    for _ in 0..4 {
        view.handle_command(EditorCommand::Move(Direction::Down));
    }
    assert_eq!(view.scroll_offset().y, 1);
    assert!(view.need_redraw());
}

#[test]
fn dirty_flag_survives_moves_after_resize() {
    let mut view = View::new(Size { width: 10, height: 5 });
    let _ = row_texts(&mut view);
    view.resize(Size { width: 12, height: 6 });
    view.handle_command(EditorCommand::Move(Direction::Right));
    assert!(view.need_redraw());
}

#[test]
fn horizontal_scroll_keeps_cursor_inside() {
    let mut view = View::new(Size { width: 10, height: 5 });
    view.load(Some("abcdefghijklmnopqrstuvwxyz\n"));
    for _ in 0..12 {
        view.handle_command(EditorCommand::Move(Direction::Right));
    }
    assert_eq!(view.location(), Location { x: 12, y: 0 });
    assert_eq!(view.scroll_offset(), Location { x: 3, y: 0 });
    assert_eq!(view.get_position(), Position { col: 9, row: 0 });
    let rows = row_texts(&mut view);
    assert_eq!(rows[0], "defghijklm");
    for _ in 0..10 {
        view.handle_command(EditorCommand::Move(Direction::Left));
    }
    assert_eq!(view.scroll_offset(), Location { x: 2, y: 0 });
    view.handle_command(EditorCommand::Move(Direction::Home));
    assert_eq!(view.scroll_offset(), Location { x: 0, y: 0 });
    view.handle_command(EditorCommand::Move(Direction::End));
    assert_eq!(view.location().x, 9);
}

#[test]
fn rendering_cuts_at_character_boundaries() {
    let mut view = View::new(Size { width: 4, height: 2 });
    view.load(Some("h\u{e9}ll\u{f6} w\u{f6}rld\n"));
    let rows = row_texts(&mut view);
    assert_eq!(rows[0], "h\u{e9}ll");
    for _ in 0..5 {
        view.handle_command(EditorCommand::Move(Direction::Right));
    }
    let rows = row_texts(&mut view);
    assert_eq!(rows[0], "ll\u{f6} ");
}

#[test]
fn moves_saturate_and_clamp() {
    let mut view = View::new(Size { width: 10, height: 5 });
    view.handle_command(EditorCommand::Move(Direction::Up));
    view.handle_command(EditorCommand::Move(Direction::Left));
    assert_eq!(view.location(), Location { x: 0, y: 0 });
    view.handle_command(EditorCommand::Move(Direction::Down));
    assert_eq!(view.location().y, 0);
    view.load(Some("a\nb\nc\n"));
    for _ in 0..5 {
        view.handle_command(EditorCommand::Move(Direction::Down));
    }
    assert_eq!(view.location().y, 2);
    view.handle_command(EditorCommand::Move(Direction::PageDown));
    assert_eq!(view.location().y, 4);
    view.handle_command(EditorCommand::Move(Direction::PageUp));
    assert_eq!(view.location().y, 0);
    view.handle_command(EditorCommand::Quit);
    assert_eq!(view.location().y, 0);
}

#[test]
fn quit_then_goodbye_once() {
    let mut t = Terminal::new();
    let mut editor = Editor::new(Size { width: 20, height: 4 }, &mut t);
    assert_eq!(t.take_ops()[0], TerminalOp::EnterAlternateScreen);
    editor.evaluate_event(key(KeyCode::Char('x')));
    editor.evaluate_event(key(KeyCode::Down));
    assert!(!editor.should_quit());
    editor.refresh_screen(&mut t);
    let ops = t.take_ops();
    assert_eq!(ops[0], TerminalOp::HideCaret);
    assert_eq!(ops[ops.len() - 1], TerminalOp::Flush);
    editor.evaluate_event(Event::Key(KeyEvent { code: KeyCode::Char('q'), modifiers: CONTROL }));
    assert!(editor.should_quit());
    editor.shutdown(&mut t);
    let ops = t.take_ops();
    assert_eq!(
        ops,
        vec![
            TerminalOp::Flush,
            TerminalOp::DisableRawMode,
            TerminalOp::LeaveAlternateScreen,
            TerminalOp::Print(GOODBYE.to_string()),
        ]
    );
    assert_eq!(printed(&ops).iter().filter(|s| s.as_str() == "Goodbye.\r\n").count(), 1);
}

#[test]
fn no_goodbye_without_quit() {
    let mut t = Terminal::new();
    let mut editor = Editor::new(Size { width: 20, height: 4 }, &mut t);
    editor.load(Some("x\n"));
    assert_eq!(editor.view().buffer.line_count(), 1);
    let _ = t.take_ops();
    editor.shutdown(&mut t);
    assert!(printed(&t.take_ops()).is_empty());
}

#[test]
fn resize_event_reaches_view() {
    let mut t = Terminal::new();
    let mut editor = Editor::new(Size { width: 20, height: 4 }, &mut t);
    editor.refresh_screen(&mut t);
    assert!(!editor.view().need_redraw());
    editor.evaluate_event(Event::Resize(30, 6));
    assert_eq!(editor.view().size(), Size { width: 30, height: 6 });
    assert!(editor.view().need_redraw());
    let _ = t.take_ops();
    editor.refresh_screen(&mut t);
    assert_eq!(printed(&t.take_ops()).len(), 6);
}
