use draft::editor::{Editor, InputEvent, Location};
use draft::terminal::{Position, Size, TermCommand, Terminal};
use draft::view::{Buffer, BufferError, View};

#[test]
fn load_round_trip() {
    let mut v = View::default();
    v.load(vec![String::from("a"), String::from("bb"), String::from("ccc")]);
    assert_eq!(v.buffer.line_count(), 3);
    assert_eq!(v.buffer.line_at(1).unwrap().as_str(), "bb");

    let mut empty = View::default();
    empty.load(Vec::new());
    assert_eq!(empty.buffer.line_count(), 0);
    let mut term = Terminal::new();
    empty.size = Size { width: 80, height: 24 };
    empty.render(&mut term);
    let cmds = term.execute();
    // welcome mode: every row is a tilde row, and the title is overlaid
    assert_eq!(cmds[2], TermCommand::Write(String::from("~")));
    assert!(cmds.contains(&TermCommand::Write(String::from("welcome use draft!"))));
}

#[test]
fn welcome_screen_80_by_24() {
    let mut ed = Editor::default();
    let mut term = Terminal::new();
    let _ = ed.process_event(InputEvent::Resize(80, 24), &mut term);
    ed.refresh_screen(&mut term);
    let cmds = term.execute();
    // home, 24 rows of (move, clear, tilde), centred title, caret at the
    // origin (not any document cursor), flush
    assert_eq!(cmds.len(), 1 + 24 * 3 + 2 + 1 + 1);
    assert_eq!(cmds[0], TermCommand::MoveTo(0, 0));
    for r in 0..24u16 {
        let base = (1 + r * 3) as usize;
        assert_eq!(cmds[base], TermCommand::MoveTo(0, r));
        assert_eq!(cmds[base + 1], TermCommand::ClearToLineEnd);
        assert_eq!(cmds[base + 2], TermCommand::Write(String::from("~")));
    }
    assert_eq!(cmds[73], TermCommand::MoveTo(31, 12));
    assert_eq!(cmds[74], TermCommand::Write(String::from("welcome use draft!")));
    assert_eq!(cmds[75], TermCommand::MoveTo(0, 0));
    assert_eq!(cmds[76], TermCommand::Flush);
}

#[test]
fn content_rows_and_tilde_rows() {
    let mut v = View::default();
    v.load(vec![String::from("one"), String::from("two")]);
    v.size = Size { width: 80, height: 4 };
    let mut term = Terminal::new();
    v.render(&mut term);
    let cmds = term.execute();
    assert_eq!(cmds.len(), 4 * 3 + 1);
    assert_eq!(cmds[2], TermCommand::Write(String::from("one")));
    assert_eq!(cmds[5], TermCommand::Write(String::from("two")));
    assert_eq!(cmds[8], TermCommand::Write(String::from("~")));
    assert_eq!(cmds[11], TermCommand::Write(String::from("~")));
}

#[test]
fn scrolled_render_starts_at_offset() {
    let mut v = View::default();
    v.load(vec![
        String::from("l0"),
        String::from("l1"),
        String::from("l2"),
        String::from("l3"),
    ]);
    v.size = Size { width: 80, height: 2 };
    v.scroll_row_offset = 2;
    let mut term = Terminal::new();
    v.render(&mut term);
    let cmds = term.execute();
    assert_eq!(cmds[2], TermCommand::Write(String::from("l2")));
    assert_eq!(cmds[5], TermCommand::Write(String::from("l3")));
}

#[test]
fn render_same_state_twice_gives_same_commands() {
    let mut v = View::default();
    v.load(vec![String::from("abc"), String::from("d")]);
    v.size = Size { width: 20, height: 5 };
    let mut t1 = Terminal::new();
    let mut t2 = Terminal::new();
    t2.print("noise before");
    let before = t2.execute();
    assert_eq!(before.len(), 2);
    v.render(&mut t1);
    v.render(&mut t2);
    assert_eq!(t1.execute(), t2.execute());
}

#[test]
fn refresh_clears_the_repaint_flag() {
    let mut v = View::default();
    v.load(vec![String::from("abc")]);
    v.size = Size { width: 20, height: 5 };
    assert!(v.redraw);
    let mut term = Terminal::new();
    v.refresh_screen(&mut term, Location { x: 1, y: 0 });
    assert!(!v.redraw);
    let cmds = term.execute();
    assert_eq!(cmds[cmds.len() - 2], TermCommand::MoveTo(1, 0));
    // no repaint due: only the caret move remains
    let mut again = Terminal::new();
    v.refresh_screen(&mut again, Location { x: 1, y: 0 });
    let cmds2 = again.execute();
    assert_eq!(cmds2, vec![TermCommand::MoveTo(1, 0), TermCommand::Flush]);
}

#[test]
fn resize_updates_size_and_marks_redraw() {
    let mut v = View::default();
    v.load(vec![String::from("abc")]);
    v.refresh_screen(&mut Terminal::new(), Location { x: 0, y: 0 });
    assert!(!v.redraw);
    v.resize(Position { col: 100, row: 30 });
    assert_eq!(v.size.width, 100);
    assert_eq!(v.size.height, 30);
    assert!(v.redraw);
}

#[test]
fn buffer_edits_inside_a_line() {
    let mut b = Buffer::default();
    b.append_line(String::from("ab"));
    assert_eq!(b.insert_char(Location { x: 1, y: 0 }, 'z'), Ok(()));
    assert_eq!(b.line_at(0).unwrap().as_str(), "azb");
    let p = b.delete_char_before(Location { x: 2, y: 0 }).unwrap();
    assert_eq!(b.line_at(0).unwrap().as_str(), "ab");
    assert_eq!(p, Location { x: 1, y: 0 });
}

#[test]
fn buffer_rejects_positions_outside_the_document() {
    let mut b = Buffer::default();
    b.append_line(String::from("a"));
    assert_eq!(b.insert_char(Location { x: 0, y: 5 }, 'z'), Err(BufferError::OutOfBounds));
    assert_eq!(b.insert_char(Location { x: 2, y: 0 }, 'z'), Err(BufferError::OutOfBounds));
    assert_eq!(
        b.delete_char_before(Location { x: 0, y: 1 }),
        Err(BufferError::OutOfBounds)
    );
    assert_eq!(b.split_line(Location { x: 9, y: 0 }), Err(BufferError::OutOfBounds));
    assert!(b.line_at(1).is_none());
    assert_eq!(b.line_at(0).unwrap().as_str(), "a");
}

#[test]
fn split_of_empty_document_gives_two_empty_lines() {
    let mut b = Buffer::default();
    assert!(b.is_empty());
    assert_eq!(b.split_line(Location { x: 0, y: 0 }), Ok(()));
    assert_eq!(b.line_count(), 2);
    assert_eq!(b.line_at(0).unwrap().as_str(), "");
    assert_eq!(b.line_at(1).unwrap().as_str(), "");
}

#[test]
fn line_length_counts_characters() {
    let mut b = Buffer::default();
    b.append_line(String::from("abc"));
    assert_eq!(b.line_length(0), 3);
    assert_eq!(b.line_count(), 1);
    assert!(!b.is_empty());
}

#[test]
fn zero_height_renders_no_rows() {
    let mut v = View::default();
    v.load(vec![String::from("abc")]);
    v.size = Size { width: 80, height: 0 };
    let mut term = Terminal::new();
    v.render(&mut term);
    let cmds = term.execute();
    assert_eq!(cmds, vec![TermCommand::Flush]);
}

#[test]
fn welcome_title_skipped_when_too_wide() {
    let mut v = View::default();
    v.size = Size { width: 10, height: 3 };
    let mut term = Terminal::new();
    v.render(&mut term);
    let cmds = term.execute();
    assert_eq!(cmds.len(), 3 * 3 + 1);
    assert!(!cmds
        .iter()
        .any(|c| matches!(c, TermCommand::Write(s) if s.len() > 1)));
}

#[test]
fn load_replaces_previous_lines() {
    let mut v = View::default();
    v.load(vec![String::from("old")]);
    v.load(vec![String::from("new1"), String::from("new2")]);
    assert_eq!(v.buffer.line_count(), 2);
    assert_eq!(v.buffer.line_at(0).unwrap().as_str(), "new1");
    assert_eq!(v.buffer.line_at(1).unwrap().as_str(), "new2");
}
