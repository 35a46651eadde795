use yawl::editor::{EditAction, Editor};
use yawl::events::{parse_mouse, Event, EventReader, Key, MouseEvent, MouseKind};

fn reader(bytes: &[u8]) -> EventReader {
    EventReader::new(bytes.to_vec())
}

#[test]
fn decodes_arrows_and_alt_enter() {
    let mut reader = reader(b"\x1b[A\x1b\r");
    assert_eq!(reader.read_event(), Event::Key(Key::Up));
    assert_eq!(reader.read_event(), Event::Key(Key::Newline));
}

#[test]
fn decodes_kitty_shift_enter() {
    let mut reader = reader(b"\x1b[13;2u");
    assert_eq!(reader.read_event(), Event::Key(Key::Newline));
}

#[test]
fn collects_bracketed_paste() {
    let mut reader = reader(b"\x1b[200~one\r\ntwo\x1b[201~");
    assert_eq!(reader.read_event(), Event::Paste("one\ntwo".into()));
}

#[test]
fn decodes_mouse_wheel() {
    let mut reader = reader(b"\x1b[<64;10;4M\x1b[<65;10;4M");
    assert_eq!(reader.read_event(), Event::MouseScroll(3));
    assert_eq!(reader.read_event(), Event::MouseScroll(-3));
}

#[test]
fn decodes_mouse_press_drag_and_release() {
    let mut reader = reader(b"\x1b[<0;4;2M\x1b[<32;8;3M\x1b[<0;8;3m");
    assert_eq!(
        reader.read_event(),
        Event::Mouse(MouseEvent { kind: MouseKind::Press, column: 3, row: 1 })
    );
    assert_eq!(
        reader.read_event(),
        Event::Mouse(MouseEvent { kind: MouseKind::Drag, column: 7, row: 2 })
    );
    assert_eq!(
        reader.read_event(),
        Event::Mouse(MouseEvent { kind: MouseKind::Release, column: 7, row: 2 })
    );
}

#[test]
fn bytes_may_arrive_in_pieces() {
    let mut reader = reader(b"");
    for byte in b"\x1b[1" {
        reader.feed(*byte);
        assert_eq!(reader.poll(), None);
    }
    reader.feed(b'3');
    reader.feed(b'u');
    assert_eq!(reader.poll(), Some(Event::Key(Key::Enter)));
    assert_eq!(reader.poll(), None);
}

#[test]
fn characters_outside_ascii_are_read() {
    let mut reader = reader("é€😀".as_bytes());
    assert_eq!(reader.read_event(), Event::Key(Key::Char('é')));
    assert_eq!(reader.read_event(), Event::Key(Key::Char('€')));
    assert_eq!(reader.read_event(), Event::Key(Key::Char('😀')));
}

#[test]
fn kitty_characters_are_scalars() {
    let mut good = reader(b"\x1b[233u");
    assert_eq!(good.read_event(), Event::Key(Key::Char('é')));
}

#[test]
fn pasted_bytes_that_are_no_text_are_replaced() {
    let mut reader = reader(b"\x1b[200~a\xffb\x1b[201~");
    assert_eq!(reader.read_event(), Event::Paste("a\u{fffd}b".into()));
}

#[test]
fn a_lone_escape_is_a_key_once_nothing_follows() {
    let mut reader = reader(b"\x1b");
    assert_eq!(reader.poll(), None);
    assert_eq!(reader.idle(), Some(Event::Key(Key::Escape)));
}

#[test]
fn an_abandoned_event_is_dropped() {
    let mut reader = reader(b"\x1b[");
    assert_eq!(reader.poll(), None);
    reader.abandon();
    reader.feed(b'A');
    assert_eq!(reader.poll(), Some(Event::Key(Key::Char('A'))));
}

#[test]
fn enter_and_ctrl_j_are_told_apart() {
    let mut reader = reader(b"\r\n\x1b[106;5u");
    assert_eq!(reader.read_event(), Event::Key(Key::Enter));
    assert_eq!(reader.read_event(), Event::Key(Key::Newline));
    assert_eq!(reader.read_event(), Event::Key(Key::Ctrl('j')));
    let mut editor = Editor::default();
    editor.paste("one");
    for key in [Key::Newline, Key::Ctrl('j')] {
        assert_eq!(editor.handle_key(key), EditAction::Nothing);
    }
    assert_eq!(editor.text(), "one\n\n");
    assert!(matches!(editor.handle_key(Key::Enter), EditAction::Submit(_)));
}

#[test]
fn decodes_motion_and_focus() {
    let mut reader = reader(b"\x1b[<35;5;3M\x1b[<35;5;3m\x1b[I\x1b[O\x1b[1I");
    assert_eq!(
        reader.read_event(),
        Event::Mouse(MouseEvent { kind: MouseKind::Move, column: 4, row: 2 })
    );
    assert_eq!(reader.read_event(), Event::Tick);
    assert_eq!(reader.read_event(), Event::FocusGained);
    assert_eq!(reader.read_event(), Event::FocusLost);
    assert_eq!(reader.read_event(), Event::Key(Key::Escape));
}

#[test]
fn modifiers_change_no_mouse_event() {
    let report = |text: &str, last: u8| parse_mouse(&text.chars().collect::<Vec<_>>(), last);
    for button in [0u16, 32, 35, 64, 65, 66] {
        for modifiers in [4, 8, 16, 28] {
            for last in [b'M', b'm'] {
                assert_eq!(
                    report(&format!("<{};7;9", button | modifiers), last),
                    report(&format!("<{button};7;9"), last)
                );
            }
        }
    }
    assert_eq!(report("<0;0;9", b'M'), None);
    assert_eq!(report("<0;7;0", b'M'), None);
    assert_eq!(report("<64;7;9", b'M'), Some(Event::MouseScroll(3)));
}
