use gyougyo::command::{decode, Command, Key, KeyPress};
use gyougyo::editor::Editor;
use gyougyo::render::{is_comment, line_label, GUTTER_WIDTH};
use gyougyo::shell::App;

fn chars(s: &str) -> Vec<char> {
    s.chars().collect()
}

fn s(v: &[char]) -> String {
    v.iter().collect()
}

#[test]
fn labels_are_right_aligned() {
    assert_eq!(s(&line_label(1)), "  1   ");
    assert_eq!(s(&line_label(42)), " 42   ");
    assert_eq!(s(&line_label(999)), "999   ");
    assert_eq!(s(&line_label(12345)), "12345   ");
    assert_eq!(s(&line_label(0)), "  0   ");
    assert_eq!(GUTTER_WIDTH, 6);
}

#[test]
fn comment_lines() {
    assert!(is_comment(&chars("// note")));
    assert!(is_comment(&chars("  \t// indented")));
    assert!(is_comment(&chars("\u{3000}//")));
    assert!(!is_comment(&chars("x // trailing")));
    assert!(!is_comment(&chars("/ not")));
    assert!(!is_comment(&chars("   ")));
    assert!(!is_comment(&chars("")));
}

#[test]
fn rows_follow_lines() {
    let e = Editor { lines: vec![chars("fn main()"), chars("  // hi")], cursor_x: 0, cursor_y: 0 };
    let rows = e.rows();
    assert_eq!(rows.len(), 2);
    assert_eq!(s(&rows[0].label), "  1   ");
    assert_eq!(s(&rows[0].text), "fn main()");
    assert!(!rows[0].comment);
    assert_eq!(s(&rows[1].label), "  2   ");
    assert_eq!(s(&rows[1].text), "  // hi");
    assert!(rows[1].comment);
    let again = e.rows();
    assert_eq!(s(&again[1].text), s(&rows[1].text));
}

#[test]
fn cursor_position_after_gutter() {
    let e = Editor { lines: vec![chars("ab"), chars("cde")], cursor_x: 2, cursor_y: 1 };
    assert_eq!(e.cursor_position(0, 1), Some((8, 2)));
    assert_eq!(e.cursor_position(10, 5), Some((18, 6)));
    assert_eq!(e.cursor_position(u16::MAX - 8, 0), Some((u16::MAX, 1)));
    assert_eq!(e.cursor_position(u16::MAX - 7, 0), None);
    assert_eq!(e.cursor_position(0, u16::MAX), None);
}

#[test]
fn decode_keys() {
    let p = |key, control_only| KeyPress { key, control_only };
    assert_eq!(decode(p(Key::Esc, false)), Command::Quit);
    assert_eq!(decode(p(Key::Char('q'), false)), Command::Quit);
    assert_eq!(decode(p(Key::Char('c'), true)), Command::Quit);
    assert_eq!(decode(p(Key::Char('C'), true)), Command::Quit);
    assert_eq!(decode(p(Key::Char('c'), false)), Command::Insert('c'));
    assert_eq!(decode(p(Key::Char('x'), true)), Command::Insert('x'));
    assert_eq!(decode(p(Key::Backspace, false)), Command::DeleteBackward);
    assert_eq!(decode(p(Key::Enter, false)), Command::SplitLine);
    assert_eq!(decode(p(Key::Left, false)), Command::MoveLeft);
    assert_eq!(decode(p(Key::Right, false)), Command::MoveRight);
    assert_eq!(decode(p(Key::Up, false)), Command::MoveUp);
    assert_eq!(decode(p(Key::Down, false)), Command::MoveDown);
    assert_eq!(decode(p(Key::Other, false)), Command::Ignored);
}

#[test]
fn app_forwards_keys_until_quit() {
    let mut app = App::new();
    assert!(!app.running);
    app.start();
    assert!(app.running);
    app.on_key_event(KeyPress { key: Key::Char('a'), control_only: false });
    app.on_key_event(KeyPress { key: Key::Char('c'), control_only: false });
    assert!(app.running);
    assert_eq!(app.editor.lines, vec![chars("ac")]);
    app.on_key_event(KeyPress { key: Key::Char('q'), control_only: false });
    assert!(!app.running);
    assert_eq!(app.editor.lines, vec![chars("ac")]);
    assert_eq!(app.editor.cursor_x, 2);
    let d = App::default();
    assert!(!d.running);
}
