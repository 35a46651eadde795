//! Terminal input decoding for keys, bracketed paste, kitty CSI-u events,
//! and SGR mouse reports.
//!
//! The reader is fed with the bytes that the terminal sends and with the reads
//! that came back empty; what it makes of them is `decode`.

use std::collections::VecDeque;
use vstd::prelude::*;
use vstd::utf8::{decode_utf8, encode_scalar, encode_utf8, valid_utf8};
use crate::text::{decimal, parse_unsigned, parsed_unsigned, split_chars_on, split_on, texts};

verus! {

broadcast use vstd::string::group_string_axioms;

#[derive(Debug, Clone, Copy, PartialEq, Eq, Structural)]
pub enum Key {
    Char(char),
    Enter,
    /// Shift+Enter, Alt+Enter or Ctrl+J.
    Newline,
    Backspace,
    Delete,
    Left,
    Right,
    Up,
    Down,
    Home,
    End,
    PageUp,
    PageDown,
    Tab,
    Escape,
    Ctrl(char),
}

#[derive(Debug, Clone, Copy, PartialEq, Eq, Structural)]
pub enum MouseKind {
    Press,
    Drag,
    Release,
    /// The pointer moved with no button held.
    Move,
}

#[derive(Debug, Clone, Copy, PartialEq, Eq, Structural)]
pub struct MouseEvent {
    pub kind: MouseKind,
    /// Zero-based terminal column.
    pub column: usize,
    /// Zero-based terminal row.
    pub row: usize,
}

#[derive(Debug, Clone, PartialEq, Eq)]
pub enum Event {
    Key(Key),
    Paste(String),
    /// Positive values scroll toward older content.
    MouseScroll(i32),
    Mouse(MouseEvent),
    /// The terminal window gained the keyboard focus.
    FocusGained,
    /// The terminal window lost the keyboard focus.
    FocusLost,
    /// Raw mode uses a short read timeout, which also lets the UI notice
    /// terminal resizes and signal-handler state changes.
    Tick,
}

/// An event with its text as a sequence of characters.
pub enum EventModel {
    Key(Key),
    Paste(Seq<char>),
    MouseScroll(int),
    Mouse(MouseEvent),
    FocusGained,
    FocusLost,
    Tick,
}

impl View for Event {
    type V = EventModel;

    open spec fn view(&self) -> EventModel {
        match self {
            Event::Key(key) => EventModel::Key(*key),
            Event::Paste(text) => EventModel::Paste(text@),
            Event::MouseScroll(lines) => EventModel::MouseScroll(*lines as int),
            Event::Mouse(mouse) => EventModel::Mouse(*mouse),
            Event::FocusGained => EventModel::FocusGained,
            Event::FocusLost => EventModel::FocusLost,
            Event::Tick => EventModel::Tick,
        }
    }
}

// ---------------------------------------------------------------------------
// Text out of bytes

/// What `String::from_utf8_lossy` makes of a sequence of bytes.
pub uninterp spec fn lossy_utf8(bytes: Seq<u8>) -> Seq<char>;

/// `String::from_utf8_lossy`: bytes that are valid UTF-8 give the text that
/// they encode; what else it gives is a function of the bytes alone.
#[verifier::external_body]
pub(crate) fn text_lossy(bytes: &[u8]) -> (r: String)
    ensures
        r@ == lossy_utf8(bytes@),
        valid_utf8(bytes@) ==> r@ == decode_utf8(bytes@),
{
    String::from_utf8_lossy(bytes).into_owned()
}

/// `std::str::from_utf8`: it succeeds exactly on valid UTF-8, and gives the
/// string that the bytes encode.
#[verifier::external_body]
pub(crate) fn text_strict(bytes: &[u8]) -> (r: Option<&str>)
    ensures
        r is Some <==> valid_utf8(bytes@),
        r is Some ==> encode_utf8(r->0@) == bytes@,
{
    std::str::from_utf8(bytes).ok()
}

/// `char::from_u32`: it succeeds exactly on Unicode scalar values.
#[verifier::external_body]
pub(crate) fn scalar(code: u32) -> (r: Option<char>)
    ensures
        r is Some <==> vstd::utf8::is_scalar(code),
        r is Some ==> r->0 as u32 == code,
{
    char::from_u32(code)
}

/// A text with every CR LF and every other CR turned into LF.
pub open spec fn unix_newlines(s: Seq<char>) -> Seq<char>
    decreases s.len(),
{
    if s.len() == 0 {
        s
    } else if s.last() == '\n' && s.len() >= 2 && s[s.len() - 2] == '\r' {
        unix_newlines(s.drop_last())
    } else {
        unix_newlines(s.drop_last()).push(
            if s.last() == '\r' {
                '\n'
            } else {
                s.last()
            },
        )
    }
}

fn normalize_newlines(text: &str) -> (r: String)
    ensures
        r@ == unix_newlines(text@),
{
    let mut r: String = String::new();
    let mut after_cr = false;
    for c in it: text.chars()
        invariant
            it.seq() == text@,
            r@ == unix_newlines(text@.take(it.index())),
            after_cr == (it.index() > 0 && text@[it.index() - 1] == '\r'),
    {
        let ghost done = text@.take(it.index() + 1);
        assert(done.drop_last() =~= text@.take(it.index()));
        assert(done.last() == c);
        if c == '\r' {
            r.push('\n');
            after_cr = true;
        } else {
            if !(c == '\n' && after_cr) {
                r.push(c);
            }
            after_cr = false;
        }
    }
    assert(text@.take(text@.len() as int) =~= text@);
    r
}

// ---------------------------------------------------------------------------
// The model of decoding

/// How far an event has been read.
pub enum Phase {
    /// Between events.
    Ground,
    /// After ESC.
    Escape,
    /// After ESC O.
    Ss3,
    /// After ESC [ and these bytes.
    Csi(Seq<u8>),
    /// In a bracketed paste: the bytes so far, and how many reads in a row
    /// came back empty.
    Paste(Seq<u8>, nat),
    /// In a character that is encoded with more bytes.
    Utf8(Seq<u8>),
}

/// What one read leads to.
pub enum Step {
    More(Phase),
    /// An event, and the byte that is given back to be read again.
    Done(EventModel, Option<u8>),
}

/// The number of empty reads in a row that end a paste.
pub const PASTE_IDLE_READS: u8 = 20;

/// The most bytes that a control sequence holds before its final byte.
pub const MAX_CSI_BODY: usize = 64;

/// The character that stands for malformed input.
pub open spec fn replacement() -> char {
    '\u{fffd}'
}

pub open spec fn key(key: Key) -> EventModel {
    EventModel::Key(key)
}

/// The length of the encoding that a byte begins; zero where it begins none.
pub open spec fn utf8_length(first: u8) -> nat {
    if 0xc2 <= first <= 0xdf {
        2
    } else if 0xe0 <= first <= 0xef {
        3
    } else if 0xf0 <= first <= 0xf4 {
        4
    } else {
        0
    }
}

/// The character that a complete encoding stands for.
pub open spec fn utf8_char(bytes: Seq<u8>) -> char {
    if valid_utf8(bytes) {
        decode_utf8(bytes)[0]
    } else {
        replacement()
    }
}

/// After a byte that begins no ASCII character.
pub open spec fn begin_utf8(first: u8) -> Step {
    if utf8_length(first) == 0 {
        Step::Done(key(Key::Char(replacement())), None)
    } else {
        Step::More(Phase::Utf8(seq![first]))
    }
}

/// The bytes of a control sequence as characters.
pub open spec fn csi_text(body: Seq<u8>) -> Seq<char> {
    body.map_values(|b: u8| b as char)
}

/// The bytes that end a bracketed paste.
pub open spec fn paste_end() -> Seq<u8> {
    seq![0x1bu8, 0x5bu8, 0x32u8, 0x30u8, 0x31u8, 0x7eu8]
}

pub open spec fn ends_paste(bytes: Seq<u8>) -> bool {
    bytes.len() >= 6 && bytes.skip(bytes.len() - 6) == paste_end()
}

/// The event of a paste of these bytes.
pub open spec fn pasted(bytes: Seq<u8>) -> EventModel {
    EventModel::Paste(unix_newlines(lossy_utf8(bytes)))
}

/// The modifier bits of a kitty key report: one more than the bits is sent,
/// and a missing or malformed field stands for none.
pub open spec fn kitty_modifiers(fields: Seq<Seq<char>>) -> u8 {
    if fields.len() < 2 {
        0
    } else {
        match parsed_unsigned(split_on(fields[1], ':')[0], 255) {
            Some(n) => if n == 0 {
                0
            } else {
                (n - 1) as u8
            },
            None => 0,
        }
    }
}

pub open spec fn ascii_letter(code: nat) -> bool {
    65 <= code <= 90 || 97 <= code <= 122
}

pub open spec fn is_scalar_value(code: nat) -> bool {
    code < 0xd800 || 0xe000 <= code <= 0x10ffff
}

/// The key of a kitty key report.
pub open spec fn kitty_key(body: Seq<char>) -> Option<Key> {
    let fields = split_on(body, ';');
    match parsed_unsigned(split_on(fields[0], ':')[0], 0xffff_ffff) {
        None => None,
        Some(code) => {
            let bits = kitty_modifiers(fields);
            if code == 13 {
                Some(
                    if bits & 1 != 0 || bits & 2 != 0 {
                        Key::Newline
                    } else {
                        Key::Enter
                    },
                )
            } else if !is_scalar_value(code) {
                None
            } else if bits & 4 != 0 && ascii_letter(code) {
                Some(
                    Key::Ctrl(
                        if code <= 90 {
                            (code + 32) as char
                        } else {
                            code as char
                        },
                    ),
                )
            } else {
                Some(Key::Char(code as char))
            }
        },
    }
}

/// The event of a mouse report: `<button;column;row`, with columns and rows
/// counted from one. Shift, Alt and Ctrl are ignored.
pub open spec fn mouse_report(body: Seq<char>, final_byte: u8) -> Option<EventModel> {
    if body.len() == 0 || body[0] != '<' {
        None
    } else {
        let fields = split_on(body.skip(1), ';');
        if fields.len() != 3 {
            None
        } else {
            match (
                parsed_unsigned(fields[0], 0xffff),
                parsed_unsigned(fields[1], usize::MAX as nat),
                parsed_unsigned(fields[2], usize::MAX as nat),
            ) {
                (Some(button), Some(column), Some(row)) => if column == 0 || row == 0 {
                    None
                } else {
                    mouse_event(
                        (button as u16) & 0xffe3,
                        final_byte,
                        (column - 1) as usize,
                        (row - 1) as usize,
                    )
                },
                _ => None,
            }
        }
    }
}

pub open spec fn mouse_event(button: u16, final_byte: u8, column: usize, row: usize) -> Option<
    EventModel,
> {
    if button == 64 {
        Some(EventModel::MouseScroll(3))
    } else if button == 65 {
        Some(EventModel::MouseScroll(-3))
    } else if button == 0 || button == 32 {
        Some(
            EventModel::Mouse(
                MouseEvent {
                    kind: if final_byte == 0x6d {
                        MouseKind::Release
                    } else if button == 32 {
                        MouseKind::Drag
                    } else {
                        MouseKind::Press
                    },
                    column,
                    row,
                },
            ),
        )
    } else if button == 35 && final_byte == 0x4d {
        Some(EventModel::Mouse(MouseEvent { kind: MouseKind::Move, column, row }))
    } else {
        None
    }
}

/// The report of the terminal window gaining or losing the keyboard focus.
pub open spec fn focus_report(body: Seq<char>, final_byte: u8) -> Option<EventModel> {
    if body.len() > 0 {
        None
    } else if final_byte == 0x49 {
        Some(EventModel::FocusGained)
    } else if final_byte == 0x4f {
        Some(EventModel::FocusLost)
    } else {
        None
    }
}

/// The key of a control sequence that is neither a paste nor a report of the
/// mouse, of a kitty key or of the focus.
pub open spec fn legacy_key(body: Seq<char>, final_byte: u8) -> Key {
    if final_byte == 0x41 {
        Key::Up
    } else if final_byte == 0x42 {
        Key::Down
    } else if final_byte == 0x43 {
        Key::Right
    } else if final_byte == 0x44 {
        Key::Left
    } else if final_byte == 0x48 {
        Key::Home
    } else if final_byte == 0x46 {
        Key::End
    } else if final_byte == 0x7e {
        if body == seq!['1'] {
            Key::Home
        } else if body == seq!['4'] {
            Key::End
        } else if body == seq!['3'] {
            Key::Delete
        } else if body == seq!['5'] {
            Key::PageUp
        } else if body == seq!['6'] {
            Key::PageDown
        } else {
            Key::Escape
        }
    } else {
        Key::Escape
    }
}

/// After a complete control sequence.
pub open spec fn csi_step(body: Seq<char>, final_byte: u8) -> Step {
    if final_byte == 0x7e && body == seq!['2', '0', '0'] {
        Step::More(Phase::Paste(Seq::empty(), 0))
    } else if body.len() > 0 && body[0] == '<' && (final_byte == 0x4d || final_byte == 0x6d) {
        Step::Done(
            match mouse_report(body, final_byte) {
                Some(event) => event,
                None => EventModel::Tick,
            },
            None,
        )
    } else if final_byte == 0x75 {
        Step::Done(
            key(
                match kitty_key(body) {
                    Some(k) => k,
                    None => Key::Escape,
                },
            ),
            None,
        )
    } else {
        Step::Done(
            match focus_report(body, final_byte) {
                Some(event) => event,
                None => key(legacy_key(body, final_byte)),
            },
            None,
        )
    }
}

/// The first byte of an event. Enter sends CR; LF is what Ctrl+J sends.
pub open spec fn ground_step(byte: u8) -> Step {
    if byte == 0x0d {
        Step::Done(key(Key::Enter), None)
    } else if byte == 0x0a {
        Step::Done(key(Key::Newline), None)
    } else if byte == 0x09 {
        Step::Done(key(Key::Tab), None)
    } else if byte == 0x7f || byte == 0x08 {
        Step::Done(key(Key::Backspace), None)
    } else if byte == 0x1b {
        Step::More(Phase::Escape)
    } else if 0x01 <= byte <= 0x1a {
        Step::Done(key(Key::Ctrl((byte + 96) as char)), None)
    } else if 0x20 <= byte <= 0x7e {
        Step::Done(key(Key::Char(byte as char)), None)
    } else {
        begin_utf8(byte)
    }
}

/// The byte after ESC.
pub open spec fn escape_step(byte: u8) -> Step {
    if byte == 0x5b {
        Step::More(Phase::Csi(Seq::empty()))
    } else if byte == 0x4f {
        Step::More(Phase::Ss3)
    } else if byte == 0x0d || byte == 0x0a {
        Step::Done(key(Key::Newline), None)
    } else if byte < 0x80 {
        Step::Done(key(Key::Char(byte as char)), None)
    } else {
        begin_utf8(byte)
    }
}

/// The byte after ESC O. One that names no key is read again.
pub open spec fn ss3_step(byte: u8) -> Step {
    if byte == 0x41 {
        Step::Done(key(Key::Up), None)
    } else if byte == 0x42 {
        Step::Done(key(Key::Down), None)
    } else if byte == 0x43 {
        Step::Done(key(Key::Right), None)
    } else if byte == 0x44 {
        Step::Done(key(Key::Left), None)
    } else if byte == 0x48 {
        Step::Done(key(Key::Home), None)
    } else if byte == 0x46 {
        Step::Done(key(Key::End), None)
    } else {
        Step::Done(key(Key::Escape), Some(byte))
    }
}

/// What a byte leads to.
pub open spec fn byte_step(phase: Phase, byte: u8) -> Step {
    match phase {
        Phase::Ground => ground_step(byte),
        Phase::Escape => escape_step(byte),
        Phase::Ss3 => ss3_step(byte),
        Phase::Csi(body) => if 0x40 <= byte <= 0x7e {
            csi_step(csi_text(body), byte)
        } else if body.len() + 1 > MAX_CSI_BODY {
            Step::Done(key(Key::Escape), None)
        } else {
            Step::More(Phase::Csi(body.push(byte)))
        },
        Phase::Paste(bytes, idle) => {
            let now = bytes.push(byte);
            if ends_paste(now) {
                Step::Done(pasted(now.take(now.len() - 6)), None)
            } else {
                Step::More(Phase::Paste(now, 0))
            }
        },
        Phase::Utf8(bytes) => {
            let now = bytes.push(byte);
            if now.len() < utf8_length(now[0]) {
                Step::More(Phase::Utf8(now))
            } else {
                Step::Done(key(Key::Char(utf8_char(now))), None)
            }
        },
    }
}

/// What an empty read leads to.
pub open spec fn idle_step(phase: Phase) -> Step {
    match phase {
        Phase::Ground => Step::Done(EventModel::Tick, None),
        Phase::Escape | Phase::Ss3 | Phase::Csi(_) => Step::Done(key(Key::Escape), None),
        Phase::Paste(bytes, idle) => if idle + 1 >= PASTE_IDLE_READS {
            Step::Done(pasted(bytes), None)
        } else {
            Step::More(Phase::Paste(bytes, idle + 1))
        },
        Phase::Utf8(_) => Step::Done(key(Key::Char(replacement())), None),
    }
}

/// A byte that is given back, before the bytes that follow.
pub open spec fn give_back(back: Option<u8>, rest: Seq<u8>) -> Seq<u8> {
    match back {
        Some(byte) => seq![byte] + rest,
        None => rest,
    }
}

/// Decoding of bytes that have arrived: the event, if they complete one, the
/// phase that is reached and the bytes that are left.
pub open spec fn run(phase: Phase, bytes: Seq<u8>) -> (Option<EventModel>, Phase, Seq<u8>)
    decreases bytes.len(),
{
    if bytes.len() == 0 {
        (None, phase, bytes)
    } else {
        match byte_step(phase, bytes[0]) {
            Step::Done(event, back) => (Some(event), Phase::Ground, give_back(back, bytes.skip(1))),
            Step::More(next) => run(next, bytes.skip(1)),
        }
    }
}

/// What is left of the empty reads that a paste bears.
pub open spec fn patience(phase: Phase) -> nat {
    match phase {
        Phase::Paste(_, idle) => if idle < PASTE_IDLE_READS {
            (PASTE_IDLE_READS - idle) as nat
        } else {
            0
        },
        _ => 0,
    }
}

/// The event that is read from a phase where only empty reads follow.
pub open spec fn drain(phase: Phase) -> EventModel
    decreases patience(phase),
{
    match idle_step(phase) {
        Step::Done(event, _) => event,
        Step::More(next) => drain(next),
    }
}

/// The next event of a reader in this phase over these bytes, after which only
/// empty reads follow, and the bytes that are left.
pub open spec fn decode(phase: Phase, bytes: Seq<u8>) -> (EventModel, Seq<u8>) {
    let (event, next, rest) = run(phase, bytes);
    match event {
        Some(event) => (event, rest),
        None => (drain(next), rest),
    }
}

/// After each event the reader stands between events.
pub proof fn event_returns_to_ground(phase: Phase, bytes: Seq<u8>)
    ensures
        run(phase, bytes).0 is Some ==> run(phase, bytes).1 == Phase::Ground,
    decreases bytes.len(),
{
    if bytes.len() > 0 {
        match byte_step(phase, bytes[0]) {
            Step::Done(_, _) => {},
            Step::More(next) => event_returns_to_ground(next, bytes.skip(1)),
        }
    }
}

/// How the bytes of an event are cut into pieces as they arrive makes no
/// difference.
pub proof fn arrival_in_pieces(phase: Phase, first: Seq<u8>, second: Seq<u8>)
    ensures
        ({
            let (event, next, rest) = run(phase, first);
            run(phase, first + second) == match event {
                Some(e) => (Some(e), next, rest + second),
                None => run(next, second),
            }
        }),
    decreases first.len(),
{
    if first.len() == 0 {
        assert(first + second =~= second);
    } else {
        assert((first + second)[0] == first[0]);
        assert((first + second).skip(1) =~= first.skip(1) + second);
        match byte_step(phase, first[0]) {
            Step::Done(e, back) => {
                assert(give_back(back, first.skip(1)) + second =~= give_back(
                    back,
                    first.skip(1) + second,
                ));
            },
            Step::More(next) => arrival_in_pieces(next, first.skip(1), second),
        }
    }
}

/// The bytes that begin a bracketed paste.
pub open spec fn paste_start() -> Seq<u8> {
    seq![0x1bu8, 0x5bu8, 0x32u8, 0x30u8, 0x30u8, 0x7eu8]
}

proof fn paste_runs(bytes: Seq<u8>, idle: nat, n: int, rest: Seq<u8>)
    requires
        0 <= n <= bytes.len(),
        forall|m: int| 0 < m < bytes.len() + 6 ==> !ends_paste(#[trigger] (bytes + paste_end()).take(m)),
    ensures
        run(Phase::Paste(bytes.take(n), idle), bytes.skip(n) + paste_end() + rest) == (
            Some(pasted(bytes)),
            Phase::Ground,
            rest,
        ),
    decreases bytes.len() - n,
{
    let whole = bytes + paste_end();
    let tail = bytes.skip(n) + paste_end() + rest;
    if n < bytes.len() {
        assert(tail[0] == bytes[n]);
        assert(tail.skip(1) =~= bytes.skip(n + 1) + paste_end() + rest);
        assert(bytes.take(n).push(bytes[n]) =~= bytes.take(n + 1));
        assert(whole.take(n + 1) =~= bytes.take(n + 1));
        paste_runs(bytes, 0, n + 1, rest);
    } else {
        let e = paste_end();
        assert(bytes.take(n) =~= bytes);
        assert(tail =~= e + rest);
        let b1 = bytes.push(e[0]);
        let b2 = b1.push(e[1]);
        let b3 = b2.push(e[2]);
        let b4 = b3.push(e[3]);
        let b5 = b4.push(e[4]);
        let b6 = b5.push(e[5]);
        assert(b1 =~= whole.take(n + 1));
        assert(b2 =~= whole.take(n + 2));
        assert(b3 =~= whole.take(n + 3));
        assert(b4 =~= whole.take(n + 4));
        assert(b5 =~= whole.take(n + 5));
        assert(b6 =~= whole);
        assert(b6.skip(b6.len() - 6) =~= e);
        assert(b6.take(b6.len() - 6) =~= bytes);
        let t1 = tail.skip(1);
        let t2 = t1.skip(1);
        let t3 = t2.skip(1);
        let t4 = t3.skip(1);
        let t5 = t4.skip(1);
        assert(t5.skip(1) =~= rest);
        reveal_with_fuel(run, 7);
    }
}

/// A bracketed paste is read as the pasted text, whatever it holds but the
/// bytes that end it.
pub proof fn paste_is_read_whole(bytes: Seq<u8>, rest: Seq<u8>)
    requires
        forall|m: int| 0 < m < bytes.len() + 6 ==> !ends_paste(#[trigger] (bytes + paste_end()).take(m)),
    ensures
        run(Phase::Ground, paste_start() + bytes + paste_end() + rest) == (
            Some(pasted(bytes)),
            Phase::Ground,
            rest,
        ),
{
    let s = paste_start();
    let all = s + bytes + paste_end() + rest;
    let e0 = Seq::<u8>::empty();
    let c1 = e0.push(s[2]);
    let c2 = c1.push(s[3]);
    let c3 = c2.push(s[4]);
    assert(csi_text(c3) =~= seq!['2', '0', '0']);
    let t1 = all.skip(1);
    let t2 = t1.skip(1);
    let t3 = t2.skip(1);
    let t4 = t3.skip(1);
    let t5 = t4.skip(1);
    let t6 = t5.skip(1);
    assert(t6 =~= bytes.skip(0) + paste_end() + rest);
    assert(bytes.take(0) =~= e0);
    paste_runs(bytes, 0, 0, rest);
    assert(all[0] == s[0] && t1[0] == s[1] && t2[0] == s[2] && t3[0] == s[3] && t4[0] == s[4]
        && t5[0] == s[5]);
    assert(run(Phase::Ground, all) == run(Phase::Escape, t1));
    assert(run(Phase::Escape, t1) == run(Phase::Csi(e0), t2));
    assert(run(Phase::Csi(e0), t2) == run(Phase::Csi(c1), t3));
    assert(run(Phase::Csi(c1), t3) == run(Phase::Csi(c2), t4));
    assert(run(Phase::Csi(c2), t4) == run(Phase::Csi(c3), t5));
    assert(run(Phase::Csi(c3), t5) == run(Phase::Paste(e0, 0), t6));
}

/// The body of a mouse report: the button, the column and the row.
pub open spec fn mouse_body(button: u16, column: usize, row: usize) -> Seq<char> {
    seq!['<'] + decimal(button as nat).push(';') + decimal(column as nat).push(';') + decimal(
        row as nat,
    )
}

/// A mouse report gives back the column and the row that it was made from,
/// which it counts from one; a report of column or row zero gives nothing.
pub proof fn mouse_report_reads_back(button: u16, column: usize, row: usize, final_byte: u8)
    ensures
        mouse_report(mouse_body(button, column, row), final_byte) == (if column == 0 || row == 0 {
            None
        } else {
            mouse_event(button & 0xffe3, final_byte, (column - 1) as usize, (row - 1) as usize)
        }),
{
    let b = decimal(button as nat);
    let c = decimal(column as nat);
    let r = decimal(row as nat);
    let body = mouse_body(button, column, row);
    crate::text::decimal_reads_back(button as nat);
    crate::text::decimal_reads_back(column as nat);
    crate::text::decimal_reads_back(row as nat);
    assert(body.skip(1) =~= b.push(';') + (c.push(';') + r));
    crate::text::split_at_separator(b, c.push(';') + r, ';');
    crate::text::split_at_separator(c, r, ';');
    crate::text::split_without_separator(b, ';');
    crate::text::split_without_separator(c, ';');
    crate::text::split_without_separator(r, ';');
    assert(split_on(body.skip(1), ';') =~= seq![b, c, r]);
}

/// Shift, Alt and Ctrl change no mouse event.
pub proof fn modifiers_change_no_mouse_event(
    button: u16,
    column: usize,
    row: usize,
    final_byte: u8,
)
    ensures
        mouse_report(mouse_body(button, column, row), final_byte) == mouse_report(
            mouse_body(button & 0xffe3, column, row),
            final_byte,
        ),
{
    assert((button & 0xffe3) & 0xffe3 == button & 0xffe3) by (bit_vector);
    mouse_report_reads_back(button, column, row, final_byte);
    mouse_report_reads_back(button & 0xffe3, column, row, final_byte);
}

/// A pointer that moves with no button held is reported as such, at every
/// place of the screen.
pub proof fn motion_is_reported(column: usize, row: usize)
    requires
        0 < column,
        0 < row,
    ensures
        mouse_report(mouse_body(35, column, row), 0x4d) == Some(
            EventModel::Mouse(
                MouseEvent {
                    kind: MouseKind::Move,
                    column: (column - 1) as usize,
                    row: (row - 1) as usize,
                },
            ),
        ),
{
    assert(35u16 & 0xffe3 == 35) by (bit_vector);
    mouse_report_reads_back(35, column, row, 0x4d);
}

/// Enter and Ctrl+J are told apart: the one sends, the other begins a line.
pub proof fn newline_is_not_enter(rest: Seq<u8>)
    ensures
        run(Phase::Ground, seq![0x0du8] + rest) == (
            Some(key(Key::Enter)),
            Phase::Ground,
            rest,
        ),
        run(Phase::Ground, seq![0x0au8] + rest) == (
            Some(key(Key::Newline)),
            Phase::Ground,
            rest,
        ),
{
    assert((seq![0x0du8] + rest).skip(1) =~= rest);
    assert((seq![0x0au8] + rest).skip(1) =~= rest);
}

/// A character outside ASCII is read from its UTF-8 encoding.
pub proof fn encoded_character_is_read(c: char, rest: Seq<u8>)
    requires
        c >= '\u{80}',
    ensures
        run(Phase::Ground, encode_utf8(seq![c]) + rest) == (
            Some(key(Key::Char(c))),
            Phase::Ground,
            rest,
        ),
{
    let code = c as u32;
    let bytes = encode_utf8(seq![c]);
    assert(seq![c].drop_first() =~= Seq::<char>::empty());
    reveal_with_fuel(encode_utf8, 2);
    assert(bytes =~= encode_scalar(code));
    vstd::utf8::encode_utf8_valid_utf8(seq![c]);
    vstd::utf8::encode_utf8_decode_utf8(seq![c]);
    assert(utf8_char(bytes) == c);
    let all = bytes + rest;
    let t1 = all.skip(1);
    let t2 = t1.skip(1);
    let t3 = t2.skip(1);
    let t4 = t3.skip(1);
    let p1 = seq![bytes[0]];
    let p2 = p1.push(bytes[1]);
    let p3 = p2.push(bytes[2]);
    let p4 = p3.push(bytes[3]);
    assert(all[0] == bytes[0]);
    assert(t1[0] == bytes[1]);
    if code <= 0x7ff {
        assert(0xc2u8 <= 0xC0u8 | ((code >> 6) & 0x1F) as u8 <= 0xdfu8) by (bit_vector)
            requires
                0x80 <= code <= 0x7ff,
        ;
        assert(p2 =~= bytes);
        assert(t2 =~= rest);
        assert(run(Phase::Ground, all) == run(Phase::Utf8(p1), t1));
    } else if code <= 0xffff {
        assert(0xe0u8 <= 0xE0u8 | ((code >> 12) & 0x0F) as u8 <= 0xefu8) by (bit_vector)
            requires
                0x800 <= code <= 0xffff,
        ;
        assert(t2[0] == bytes[2]);
        assert(p3 =~= bytes);
        assert(t3 =~= rest);
        assert(run(Phase::Ground, all) == run(Phase::Utf8(p1), t1));
        assert(run(Phase::Utf8(p1), t1) == run(Phase::Utf8(p2), t2));
    } else {
        assert(0xf0u8 <= 0xF0u8 | ((code >> 18) & 0x7) as u8 <= 0xf4u8) by (bit_vector)
            requires
                0x10000 <= code <= 0x10ffff,
        ;
        assert(t2[0] == bytes[2]);
        assert(t3[0] == bytes[3]);
        assert(p4 =~= bytes);
        assert(t4 =~= rest);
        assert(run(Phase::Ground, all) == run(Phase::Utf8(p1), t1));
        assert(run(Phase::Utf8(p1), t1) == run(Phase::Utf8(p2), t2));
        assert(run(Phase::Utf8(p2), t2) == run(Phase::Utf8(p3), t3));
    }
}

// ---------------------------------------------------------------------------
// The reader

enum Progress {
    Ground,
    Escape,
    Ss3,
    Csi(Vec<u8>),
    Paste(Vec<u8>, u8),
    Utf8(Vec<u8>),
}

impl View for Progress {
    type V = Phase;

    closed spec fn view(&self) -> Phase {
        match self {
            Progress::Ground => Phase::Ground,
            Progress::Escape => Phase::Escape,
            Progress::Ss3 => Phase::Ss3,
            Progress::Csi(body) => Phase::Csi(body@),
            Progress::Paste(bytes, idle) => Phase::Paste(bytes@, *idle as nat),
            Progress::Utf8(bytes) => Phase::Utf8(bytes@),
        }
    }
}

/// Decodes what the terminal sends into events.
pub struct EventReader {
    pending: VecDeque<u8>,
    progress: Progress,
}

enum Outcome {
    More(Progress),
    Done(Event, Option<u8>),
}

spec fn outcome(o: Outcome) -> Step {
    match o {
        Outcome::More(progress) => Step::More(progress@),
        Outcome::Done(event, back) => Step::Done(event@, back),
    }
}

fn done(k: Key) -> (r: Outcome)
    ensures
        outcome(r) == Step::Done(key(k), None),
{
    Outcome::Done(Event::Key(k), None)
}

fn utf8_width(first: u8) -> (r: usize)
    ensures
        r == utf8_length(first),
{
    if 0xc2 <= first && first <= 0xdf {
        2
    } else if 0xe0 <= first && first <= 0xef {
        3
    } else if 0xf0 <= first && first <= 0xf4 {
        4
    } else {
        0
    }
}

fn start_utf8(first: u8) -> (r: Outcome)
    ensures
        outcome(r) == begin_utf8(first),
{
    if utf8_width(first) == 0 {
        done(Key::Char('\u{fffd}'))
    } else {
        let mut bytes: Vec<u8> = Vec::new();
        bytes.push(first);
        assert(bytes@ =~= seq![first]);
        Outcome::More(Progress::Utf8(bytes))
    }
}

fn read_utf8(bytes: &Vec<u8>) -> (r: char)
    requires
        bytes@.len() > 0,
    ensures
        r == utf8_char(bytes@),
{
    match text_strict(bytes) {
        Some(text) => {
            proof {
                vstd::utf8::encode_utf8_decode_utf8(text@);
                assert(text@ == decode_utf8(bytes@));
                if text@.len() == 0 {
                    assert(encode_utf8(text@).len() == 0);
                }
            }
            text.get_char(0)
        },
        None => '\u{fffd}',
    }
}

fn body_chars(body: &Vec<u8>) -> (r: Vec<char>)
    ensures
        r@ == csi_text(body@),
{
    let mut r: Vec<char> = Vec::new();
    let mut i: usize = 0;
    while i < body.len()
        invariant
            i <= body@.len(),
            r@ == csi_text(body@.take(i as int)),
        decreases body@.len() - i,
    {
        r.push(body[i] as char);
        i += 1;
        assert(r@ =~= csi_text(body@.take(i as int)));
    }
    assert(body@.take(i as int) =~= body@);
    r
}

/// The key of a kitty key report; see `kitty_key`.
fn parse_kitty_key(body: &Vec<char>) -> (r: Option<Key>)
    ensures
        r == kitty_key(body@),
{
    let fields = split_chars_on(body, ';');
    assert(texts(fields@)[0] == fields@[0]@);
    let codes = split_chars_on(&fields[0], ':');
    assert(texts(codes@)[0] == codes@[0]@);
    let code: u32 = match parse_unsigned(&codes[0], 0xffff_ffff) {
        Some(code) => code as u32,
        None => return None,
    };
    let bits: u8 = if fields.len() < 2 {
        0
    } else {
        assert(texts(fields@)[1] == fields@[1]@);
        let modifiers = split_chars_on(&fields[1], ':');
        assert(texts(modifiers@)[0] == modifiers@[0]@);
        match parse_unsigned(&modifiers[0], 255) {
            Some(n) => if n == 0 {
                0
            } else {
                (n - 1) as u8
            },
            None => 0,
        }
    };
    assert(bits == kitty_modifiers(texts(fields@)));
    if code == 13 {
        return Some(
            if bits & 1 != 0 || bits & 2 != 0 {
                Key::Newline
            } else {
                Key::Enter
            },
        );
    }
    match scalar(code) {
        Some(c) => {
            proof {
                vstd::utf8::char_u32_cast(c, code);
            }
            if bits & 4 != 0 && ((65 <= code && code <= 90) || (97 <= code && code <= 122)) {
                Some(
                    Key::Ctrl(
                        if code <= 90 {
                            (code as u8 + 32) as char
                        } else {
                            c
                        },
                    ),
                )
            } else {
                Some(Key::Char(c))
            }
        },
        None => None,
    }
}

/// The event of a mouse report; see `mouse_report`.
pub fn parse_mouse(body: &[char], final_byte: u8) -> (r: Option<Event>)
    ensures
        r is Some <==> mouse_report(body@, final_byte) is Some,
        r is Some ==> r->0@ == mouse_report(body@, final_byte)->0,
{
    if body.len() == 0 || body[0] != '<' {
        return None;
    }
    let rest = crate::text::sub_chars(body, 1, body.len());
    assert(rest@ =~= body@.skip(1));
    let fields = split_chars_on(&rest, ';');
    if fields.len() != 3 {
        return None;
    }
    assert(texts(fields@)[0] == fields@[0]@);
    assert(texts(fields@)[1] == fields@[1]@);
    assert(texts(fields@)[2] == fields@[2]@);
    let button: u16 = match parse_unsigned(&fields[0], 0xffff) {
        Some(n) => n as u16,
        None => return None,
    };
    let column: usize = match parse_unsigned(&fields[1], usize::MAX as u64) {
        Some(n) => n as usize,
        None => return None,
    };
    let row: usize = match parse_unsigned(&fields[2], usize::MAX as u64) {
        Some(n) => n as usize,
        None => return None,
    };
    if column == 0 || row == 0 {
        return None;
    }
    let button: u16 = button & 0xffe3;
    if button == 64 {
        Some(Event::MouseScroll(3))
    } else if button == 65 {
        Some(Event::MouseScroll(-3))
    } else if button == 0 || button == 32 {
        let kind = if final_byte == 0x6d {
            MouseKind::Release
        } else if button == 32 {
            MouseKind::Drag
        } else {
            MouseKind::Press
        };
        Some(Event::Mouse(MouseEvent { kind, column: column - 1, row: row - 1 }))
    } else if button == 35 && final_byte == 0x4d {
        let kind = MouseKind::Move;
        Some(Event::Mouse(MouseEvent { kind, column: column - 1, row: row - 1 }))
    } else {
        None
    }
}

fn body_is(body: &Vec<char>, c: char) -> (r: bool)
    ensures
        r == (body@ == seq![c]),
{
    proof {
        if body@.len() == 1 && body@[0] == c {
            assert(body@ =~= seq![c]);
        }
    }
    body.len() == 1 && body[0] == c
}

/// The key of an older control sequence; see `legacy_key`.
fn parse_legacy_key(body: &Vec<char>, final_byte: u8) -> (r: Key)
    ensures
        r == legacy_key(body@, final_byte),
{
    match final_byte {
        0x41 => Key::Up,
        0x42 => Key::Down,
        0x43 => Key::Right,
        0x44 => Key::Left,
        0x48 => Key::Home,
        0x46 => Key::End,
        0x7e => if body_is(body, '1') {
            Key::Home
        } else if body_is(body, '4') {
            Key::End
        } else if body_is(body, '3') {
            Key::Delete
        } else if body_is(body, '5') {
            Key::PageUp
        } else if body_is(body, '6') {
            Key::PageDown
        } else {
            Key::Escape
        },
        _ => Key::Escape,
    }
}

/// After a complete control sequence; see `csi_step`.
fn read_csi(body: &Vec<char>, final_byte: u8) -> (r: Outcome)
    ensures
        outcome(r) == csi_step(body@, final_byte),
{
    let paste = body.len() == 3 && body[0] == '2' && body[1] == '0' && body[2] == '0';
    proof {
        if paste {
            assert(body@ =~= seq!['2', '0', '0']);
        }
    }
    if final_byte == 0x7e && paste {
        let bytes: Vec<u8> = Vec::new();
        assert(bytes@ =~= Seq::<u8>::empty());
        return Outcome::More(Progress::Paste(bytes, 0));
    }
    if body.len() > 0 && body[0] == '<' && (final_byte == 0x4d || final_byte == 0x6d) {
        return match parse_mouse(body, final_byte) {
            Some(event) => Outcome::Done(event, None),
            None => Outcome::Done(Event::Tick, None),
        };
    }
    if final_byte == 0x75 {
        return match parse_kitty_key(body) {
            Some(k) => done(k),
            None => done(Key::Escape),
        };
    }
    if body.len() == 0 && final_byte == 0x49 {
        return Outcome::Done(Event::FocusGained, None);
    }
    if body.len() == 0 && final_byte == 0x4f {
        return Outcome::Done(Event::FocusLost, None);
    }
    done(parse_legacy_key(body, final_byte))
}

fn at_paste_end(bytes: &Vec<u8>) -> (r: bool)
    ensures
        r == ends_paste(bytes@),
{
    let n: usize = bytes.len();
    if n < 6 {
        return false;
    }
    let r = bytes[n - 6] == 0x1b && bytes[n - 5] == 0x5b && bytes[n - 4] == 0x32 && bytes[n - 3]
        == 0x30 && bytes[n - 2] == 0x31 && bytes[n - 1] == 0x7e;
    proof {
        let tail = bytes@.skip(n - 6);
        assert(tail[0] == bytes@[n - 6]);
        assert(tail[1] == bytes@[n - 5]);
        assert(tail[2] == bytes@[n - 4]);
        assert(tail[3] == bytes@[n - 3]);
        assert(tail[4] == bytes@[n - 2]);
        assert(tail[5] == bytes@[n - 1]);
        if r {
            assert(tail =~= paste_end());
        }
    }
    r
}

fn read_paste(bytes: &Vec<u8>) -> (r: Event)
    ensures
        r@ == pasted(bytes@),
{
    let text = text_lossy(bytes);
    Event::Paste(normalize_newlines(&text))
}

fn read_byte(progress: Progress, byte: u8) -> (r: Outcome)
    ensures
        outcome(r) == byte_step(progress@, byte),
{
    match progress {
        Progress::Ground => match byte {
            0x0d => done(Key::Enter),
            0x0a => done(Key::Newline),
            0x09 => done(Key::Tab),
            0x7f | 0x08 => done(Key::Backspace),
            0x1b => Outcome::More(Progress::Escape),
            _ => if 0x01 <= byte && byte <= 0x1a {
                done(Key::Ctrl((byte + 96) as char))
            } else if 0x20 <= byte && byte <= 0x7e {
                done(Key::Char(byte as char))
            } else {
                start_utf8(byte)
            },
        },
        Progress::Escape => match byte {
            0x5b => {
                let body: Vec<u8> = Vec::new();
                assert(body@ =~= Seq::<u8>::empty());
                Outcome::More(Progress::Csi(body))
            },
            0x4f => Outcome::More(Progress::Ss3),
            0x0d | 0x0a => done(Key::Newline),
            // Alt-modified printable keys are inserted as their base
            // character. Alt+Enter is handled above as the multiline
            // fallback.
            _ => if byte < 0x80 {
                done(Key::Char(byte as char))
            } else {
                start_utf8(byte)
            },
        },
        Progress::Ss3 => match byte {
            0x41 => done(Key::Up),
            0x42 => done(Key::Down),
            0x43 => done(Key::Right),
            0x44 => done(Key::Left),
            0x48 => done(Key::Home),
            0x46 => done(Key::End),
            _ => Outcome::Done(Event::Key(Key::Escape), Some(byte)),
        },
        Progress::Csi(body) => {
            if 0x40 <= byte && byte <= 0x7e {
                let chars = body_chars(&body);
                read_csi(&chars, byte)
            } else if body.len() >= MAX_CSI_BODY {
                done(Key::Escape)
            } else {
                let mut body = body;
                body.push(byte);
                Outcome::More(Progress::Csi(body))
            }
        },
        Progress::Paste(bytes, _) => {
            let mut bytes = bytes;
            bytes.push(byte);
            if at_paste_end(&bytes) {
                let n: usize = bytes.len() - 6;
                let ghost now = bytes@;
                bytes.truncate(n);
                assert(bytes@ =~= now.take(now.len() - 6));
                Outcome::Done(read_paste(&bytes), None)
            } else {
                Outcome::More(Progress::Paste(bytes, 0))
            }
        },
        Progress::Utf8(bytes) => {
            let mut bytes = bytes;
            bytes.push(byte);
            if bytes.len() < utf8_width(bytes[0]) {
                Outcome::More(Progress::Utf8(bytes))
            } else {
                done(Key::Char(read_utf8(&bytes)))
            }
        },
    }
}

fn read_nothing(progress: Progress) -> (r: Outcome)
    ensures
        outcome(r) == idle_step(progress@),
{
    match progress {
        Progress::Ground => Outcome::Done(Event::Tick, None),
        Progress::Escape | Progress::Ss3 => done(Key::Escape),
        Progress::Csi(_) => done(Key::Escape),
        Progress::Paste(bytes, idle) => if idle >= PASTE_IDLE_READS - 1 {
            Outcome::Done(read_paste(&bytes), None)
        } else {
            Outcome::More(Progress::Paste(bytes, idle + 1))
        },
        Progress::Utf8(_) => done(Key::Char('\u{fffd}')),
    }
}

impl EventReader {
    /// The bytes that have arrived and are not yet read.
    pub closed spec fn pending(&self) -> Seq<u8> {
        self.pending@
    }

    /// How far the next event has been read.
    pub closed spec fn phase(&self) -> Phase {
        self.progress@
    }

    /// A reader to which these bytes have arrived.
    pub fn new(input: Vec<u8>) -> (r: Self)
        ensures
            r.pending() == input@,
            r.phase() == Phase::Ground,
    {
        let mut pending: VecDeque<u8> = VecDeque::new();
        let mut i: usize = 0;
        while i < input.len()
            invariant
                i <= input@.len(),
                pending@ == input@.take(i as int),
            decreases input@.len() - i,
        {
            pending.push_back(input[i]);
            i += 1;
            assert(pending@ =~= input@.take(i as int));
        }
        assert(input@.take(i as int) =~= input@);
        EventReader { pending, progress: Progress::Ground }
    }

    /// A byte arrives.
    pub fn feed(&mut self, byte: u8)
        ensures
            final(self).pending() == old(self).pending().push(byte),
            final(self).phase() == old(self).phase(),
    {
        self.pending.push_back(byte);
    }

    /// Reads on through the bytes that have arrived, up to the end of an event.
    pub fn poll(&mut self) -> (r: Option<Event>)
        ensures
            ({
                let (event, phase, rest) = run(old(self).phase(), old(self).pending());
                &&& r is Some <==> event is Some
                &&& r is Some ==> r->0@ == event->0
                &&& final(self).phase() == phase
                &&& final(self).pending() == rest
            }),
    {
        let ghost goal = run(self.phase(), self.pending());
        loop
            invariant
                run(self.phase(), self.pending()) == goal,
                goal == run(old(self).phase(), old(self).pending()),
            decreases self.pending().len(),
        {
            let ghost before = self.pending@;
            match self.pending.pop_front() {
                None => {
                    return None;
                },
                Some(byte) => {
                    assert(self.pending@ =~= before.skip(1));
                    let mut progress = Progress::Ground;
                    std::mem::swap(&mut progress, &mut self.progress);
                    match read_byte(progress, byte) {
                        Outcome::Done(event, back) => {
                            match back {
                                Some(byte) => {
                                    self.pending.push_front(byte);
                                },
                                None => {},
                            }
                            return Some(event);
                        },
                        Outcome::More(next) => {
                            self.progress = next;
                        },
                    }
                },
            }
        }
    }

    /// A read came back empty.
    pub fn idle(&mut self) -> (r: Option<Event>)
        ensures
            final(self).pending() == old(self).pending(),
            match idle_step(old(self).phase()) {
                Step::Done(event, _) => r is Some && r->0@ == event && final(self).phase()
                    == Phase::Ground,
                Step::More(next) => r is None && final(self).phase() == next,
            },
    {
        let mut progress = Progress::Ground;
        std::mem::swap(&mut progress, &mut self.progress);
        match read_nothing(progress) {
            Outcome::Done(event, _) => Some(event),
            Outcome::More(next) => {
                self.progress = next;
                None
            },
        }
    }

    /// A read failed: what was read of the current event is dropped.
    pub fn abandon(&mut self)
        ensures
            final(self).pending() == old(self).pending(),
            final(self).phase() == Phase::Ground,
    {
        self.progress = Progress::Ground;
    }

    /// The next event, where no byte arrives any more.
    pub fn read_event(&mut self) -> (r: Event)
        ensures
            (r@, final(self).pending()) == decode(old(self).phase(), old(self).pending()),
            final(self).phase() == Phase::Ground,
    {
        proof {
            event_returns_to_ground(self.phase(), self.pending());
        }
        match self.poll() {
            Some(event) => return event,
            None => {},
        }
        let ghost goal = drain(self.phase());
        let ghost rest = self.pending();
        loop
            invariant
                drain(self.phase()) == goal,
                self.pending() == rest,
                decode(old(self).phase(), old(self).pending()) == (goal, rest),
            decreases patience(self.phase()),
        {
            match self.idle() {
                Some(event) => return event,
                None => {},
            }
        }
    }
}

} // verus!
