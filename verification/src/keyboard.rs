//! What terminals send for keys, the mouse and the window, written out: each
//! is decoded as the event that it was sent for.

use vstd::prelude::*;
use crate::events::{
    byte_step, csi_step, csi_text, decode, kitty_key, mouse_body, run, unix_newlines,
    EventModel, Key, MouseEvent, MouseKind, Phase, Step, MAX_CSI_BODY,
};
use crate::text::{decimal, digit, split_on};

verus! {

/// Whether bytes are read as an event, whatever follows them.
pub open spec fn reads_as(bytes: Seq<u8>, event: EventModel) -> bool {
    forall|rest: Seq<u8>| #[trigger] decode(Phase::Ground, bytes + rest) == (event, rest)
}

/// Whether bytes are the parameters of a control sequence.
pub open spec fn parameters(body: Seq<u8>) -> bool {
    &&& body.len() <= MAX_CSI_BODY
    &&& forall|i: int| 0 <= i < body.len() ==> 0x20 <= #[trigger] body[i] < 0x40
}

/// The bytes of a control sequence.
pub open spec fn sequence(body: Seq<u8>, last: u8) -> Seq<u8> {
    seq![0x1bu8, 0x5bu8] + body + seq![last]
}

proof fn body_is_collected(body: Seq<u8>, n: int, last: u8, rest: Seq<u8>)
    requires
        parameters(body),
        0x40 <= last <= 0x7e,
        0 <= n <= body.len(),
    ensures
        run(Phase::Csi(body.take(n)), body.skip(n) + seq![last] + rest) == run(
            Phase::Csi(body),
            seq![last] + rest,
        ),
    decreases body.len() - n,
{
    let tail = body.skip(n) + seq![last] + rest;
    if n == body.len() {
        assert(body.take(n) =~= body);
        assert(tail =~= seq![last] + rest);
    } else {
        assert(tail[0] == body[n]);
        assert(tail.skip(1) =~= body.skip(n + 1) + seq![last] + rest);
        assert(body.take(n).push(body[n]) =~= body.take(n + 1));
        body_is_collected(body, n + 1, last, rest);
    }
}

proof fn sequence_is_read(body: Seq<u8>, last: u8, rest: Seq<u8>)
    requires
        parameters(body),
        0x40 <= last <= 0x7e,
    ensures
        csi_step(csi_text(body), last) matches Step::Done(event, None) ==> decode(
            Phase::Ground,
            sequence(body, last) + rest,
        ) == (event, rest),
{
    let all = sequence(body, last) + rest;
    let t1 = all.skip(1);
    let t2 = t1.skip(1);
    assert(all[0] == 0x1b && t1[0] == 0x5b);
    assert(t2 =~= body.skip(0) + seq![last] + rest);
    assert(body.take(0) =~= Seq::empty());
    assert(run(Phase::Ground, all) == run(Phase::Escape, t1));
    assert(run(Phase::Escape, t1) == run(Phase::Csi(Seq::empty()), t2));
    body_is_collected(body, 0, last, rest);
    let end = seq![last] + rest;
    assert(end[0] == last && end.skip(1) =~= rest);
}

/// The keys that end a control sequence with a letter, and those that the
/// keypad sends with the same letter.
pub open spec fn cursor_key(letter: u8) -> Option<Key> {
    match letter {
        0x41 => Some(Key::Up),
        0x42 => Some(Key::Down),
        0x43 => Some(Key::Right),
        0x44 => Some(Key::Left),
        0x46 => Some(Key::End),
        0x48 => Some(Key::Home),
        _ => None,
    }
}

/// The arrows, Home and End are read from each of their two encodings, and
/// whatever modifiers a terminal adds.
pub proof fn arrows_are_read(letter: u8, body: Seq<u8>)
    requires
        cursor_key(letter) is Some,
        parameters(body),
        body.len() > 0 ==> body[0] != 0x3c,
    ensures
        reads_as(sequence(body, letter), EventModel::Key(cursor_key(letter)->0)),
        reads_as(seq![0x1bu8, 0x4fu8, letter], EventModel::Key(cursor_key(letter)->0)),
{
    let k = cursor_key(letter)->0;
    assert forall|rest: Seq<u8>| #[trigger]
        decode(Phase::Ground, sequence(body, letter) + rest) == (EventModel::Key(k), rest) by {
        sequence_is_read(body, letter, rest);
    }
    let other = seq![0x1bu8, 0x4fu8, letter];
    assert forall|rest: Seq<u8>| #[trigger]
        decode(Phase::Ground, other + rest) == (EventModel::Key(k), rest) by {
        let all = other + rest;
        let t1 = all.skip(1);
        let t2 = t1.skip(1);
        assert(all[0] == 0x1b && t1[0] == 0x4f && t2[0] == letter);
        assert(t2.skip(1) =~= rest);
        assert(run(Phase::Ground, all) == run(Phase::Escape, t1));
        assert(run(Phase::Escape, t1) == run(Phase::Ss3, t2));
    }
}

/// The keys that are numbered.
pub open spec fn numbered_key(number: u8) -> Option<Key> {
    match number {
        0x31 => Some(Key::Home),
        0x33 => Some(Key::Delete),
        0x34 => Some(Key::End),
        0x35 => Some(Key::PageUp),
        0x36 => Some(Key::PageDown),
        _ => None,
    }
}

/// Delete, the pages, and the other encodings of Home and End are read by
/// their numbers.
pub proof fn numbered_keys_are_read(number: u8)
    requires
        numbered_key(number) is Some,
    ensures
        reads_as(
            seq![0x1bu8, 0x5bu8, number, 0x7eu8],
            EventModel::Key(numbered_key(number)->0),
        ),
{
    let bytes = seq![0x1bu8, 0x5bu8, number, 0x7eu8];
    let body = seq![number];
    assert(bytes =~= sequence(body, 0x7e));
    assert(csi_text(body) =~= seq![number as char]);
    assert(csi_text(body).len() == 1 && csi_text(body)[0] == number as char);
    assert(seq!['1'][0] == '1' && seq!['4'][0] == '4' && seq!['3'][0] == '3' && seq!['5'][0] == '5'
        && seq!['6'][0] == '6');
    assert forall|rest: Seq<u8>| #[trigger]
        decode(Phase::Ground, bytes + rest) == (
            EventModel::Key(numbered_key(number)->0),
            rest,
        ) by {
        sequence_is_read(body, 0x7e, rest);
    }
}

/// A byte alone is the key that it stands for: printable ASCII is typed, and
/// each letter with Ctrl held sends its place in the alphabet; Tab, Enter,
/// Backspace and Ctrl+J have bytes of their own.
pub proof fn single_bytes_are_read(byte: u8)
    ensures
        0x20 <= byte <= 0x7e ==> reads_as(
            seq![byte],
            EventModel::Key(Key::Char(byte as char)),
        ),
        1 <= byte <= 26 && byte != 8 && byte != 9 && byte != 10 && byte != 13 ==> reads_as(
            seq![byte],
            EventModel::Key(Key::Ctrl((byte + 96) as char)),
        ),
        byte == 9 ==> reads_as(seq![byte], EventModel::Key(Key::Tab)),
        byte == 10 ==> reads_as(seq![byte], EventModel::Key(Key::Newline)),
        byte == 13 ==> reads_as(seq![byte], EventModel::Key(Key::Enter)),
        byte == 8 || byte == 127 ==> reads_as(seq![byte], EventModel::Key(Key::Backspace)),
{
    assert forall|rest: Seq<u8>|
        (#[trigger] decode(Phase::Ground, seq![byte] + rest)) == match byte_step(
            Phase::Ground,
            byte,
        ) {
            Step::Done(event, None) => (event, rest),
            _ => decode(Phase::Ground, seq![byte] + rest),
        } by {
        assert((seq![byte] + rest)[0] == byte);
        assert((seq![byte] + rest).skip(1) =~= rest);
    }
}

/// With Alt held, Enter begins a line and every other key is typed as it is.
pub proof fn alt_types_the_key(byte: u8)
    requires
        0x20 <= byte <= 0x7e && byte != 0x5b && byte != 0x4f || byte == 10 || byte == 13,
    ensures
        reads_as(
            seq![0x1bu8, byte],
            EventModel::Key(
                if byte == 10 || byte == 13 {
                    Key::Newline
                } else {
                    Key::Char(byte as char)
                },
            ),
        ),
{
    let bytes = seq![0x1bu8, byte];
    let k = if byte == 10 || byte == 13 {
        Key::Newline
    } else {
        Key::Char(byte as char)
    };
    assert forall|rest: Seq<u8>| #[trigger]
        decode(Phase::Ground, bytes + rest) == (EventModel::Key(k), rest) by {
        let all = bytes + rest;
        let t1 = all.skip(1);
        assert(all[0] == 0x1b && t1[0] == byte && t1.skip(1) =~= rest);
        assert(run(Phase::Ground, all) == run(Phase::Escape, t1));
    }
}

/// Escape alone, and a sequence that is broken off, is the Escape key; where
/// nothing arrives, time has passed.
pub proof fn escape_alone_is_escape(body: Seq<u8>)
    requires
        parameters(body),
    ensures
        decode(Phase::Ground, Seq::empty()).0 == EventModel::Tick,
        decode(Phase::Ground, seq![0x1bu8]).0 == EventModel::Key(Key::Escape),
        decode(Phase::Ground, seq![0x1bu8, 0x4fu8]).0 == EventModel::Key(Key::Escape),
        decode(Phase::Ground, seq![0x1bu8, 0x5bu8] + body).0 == EventModel::Key(Key::Escape),
{
    let none = Seq::<u8>::empty();
    let one = seq![0x1bu8];
    assert(one.skip(1) =~= none);
    assert(run(Phase::Ground, one) == run(Phase::Escape, none));
    let two = seq![0x1bu8, 0x4fu8];
    assert(two.skip(1).skip(1) =~= none);
    assert(run(Phase::Ground, two) == run(Phase::Escape, two.skip(1)));
    assert(run(Phase::Escape, two.skip(1)) == run(Phase::Ss3, none));
    let all = seq![0x1bu8, 0x5bu8] + body;
    assert(all.skip(1).skip(1) =~= body);
    assert(run(Phase::Ground, all) == run(Phase::Escape, all.skip(1)));
    assert(run(Phase::Escape, all.skip(1)) == run(Phase::Csi(none), body));
    body_stays_open(body, 0);
    assert(body.take(0) =~= none);
    assert(body.skip(0) =~= body);
}

proof fn body_stays_open(body: Seq<u8>, n: int)
    requires
        parameters(body),
        0 <= n <= body.len(),
    ensures
        run(Phase::Csi(body.take(n)), body.skip(n)).0 is None,
        run(Phase::Csi(body.take(n)), body.skip(n)).1 == Phase::Csi(body),
    decreases body.len() - n,
{
    if n < body.len() {
        assert(body.skip(n)[0] == body[n]);
        assert(body.skip(n).skip(1) =~= body.skip(n + 1));
        assert(body.take(n).push(body[n]) =~= body.take(n + 1));
        body_stays_open(body, n + 1);
    } else {
        assert(body.take(n) =~= body);
    }
}

/// The window that gains or loses the keyboard reports it.
pub proof fn focus_is_reported()
    ensures
        reads_as(seq![0x1bu8, 0x5bu8, 0x49u8], EventModel::FocusGained),
        reads_as(seq![0x1bu8, 0x5bu8, 0x4fu8], EventModel::FocusLost),
{
    let none = Seq::<u8>::empty();
    assert(csi_text(none) =~= Seq::empty());
    let gained = seq![0x1bu8, 0x5bu8, 0x49u8];
    let lost = seq![0x1bu8, 0x5bu8, 0x4fu8];
    assert(gained =~= sequence(none, 0x49));
    assert(lost =~= sequence(none, 0x4f));
    assert forall|rest: Seq<u8>| #[trigger]
        decode(Phase::Ground, gained + rest) == (EventModel::FocusGained, rest) by {
        sequence_is_read(none, 0x49, rest);
    }
    assert forall|rest: Seq<u8>| #[trigger]
        decode(Phase::Ground, lost + rest) == (EventModel::FocusLost, rest) by {
        sequence_is_read(none, 0x4f, rest);
    }
}

// ---------------------------------------------------------------------------
// The mouse

/// ASCII characters as bytes.
pub open spec fn ascii(s: Seq<char>) -> Seq<u8> {
    s.map_values(|c: char| c as u8)
}

proof fn ascii_reads_back(s: Seq<char>)
    requires
        forall|i: int| 0 <= i < s.len() ==> ' ' <= #[trigger] s[i] < '@',
    ensures
        csi_text(ascii(s)) == s,
        forall|i: int| 0 <= i < s.len() ==> 0x20 <= #[trigger] ascii(s)[i] < 0x40,
{
    assert(csi_text(ascii(s)) =~= s);
}

/// The numbers that a mouse report and a key report can hold are short.
proof fn numbers_are_short(n: nat)
    requires
        n < 1_0000_0000_0000_0000_0000,
    ensures
        decimal(n).len() <= 20,
        forall|i: int| 0 <= i < decimal(n).len() ==> digit(#[trigger] decimal(n)[i]),
{
    crate::text::decimal_reads_back(n);
    assert(vstd::arithmetic::power::pow(10, 20) == 1_0000_0000_0000_0000_0000) by {
        reveal_with_fuel(vstd::arithmetic::power::pow, 21);
    }
    short(n, 20, 1_0000_0000_0000_0000_0000);
}

proof fn short(n: nat, digits: nat, bound: nat)
    requires
        n < bound,
        digits > 0,
        bound == vstd::arithmetic::power::pow(10, digits),
    ensures
        decimal(n).len() <= digits,
    decreases digits,
{
    reveal(vstd::arithmetic::power::pow);
    if n >= 10 {
        if digits == 1 {
            assert(vstd::arithmetic::power::pow(10, 1) == 10) by {
                reveal_with_fuel(vstd::arithmetic::power::pow, 2);
            }
        } else {
            let smaller = vstd::arithmetic::power::pow(10, (digits - 1) as nat);
            assert(bound == 10 * smaller);
            vstd::arithmetic::power::lemma_pow_positive(10, (digits - 1) as nat);
            assert(n / 10 < smaller);
            short(n / 10, (digits - 1) as nat, smaller as nat);
        }
    }
}

/// The bytes of a mouse report.
pub open spec fn mouse_bytes(button: u16, column: usize, row: usize, last: u8) -> Seq<u8> {
    sequence(ascii(mouse_body(button, column, row)), last)
}

/// What a mouse report is for: the left button is pressed, dragged and
/// released, the wheel turned, and the pointer moved, at the column and the row
/// that the report counts from one.
pub open spec fn mouse_meaning(button: u16, column: usize, row: usize, last: u8) -> Option<
    EventModel,
> {
    let at = |kind: MouseKind|
        EventModel::Mouse(
            MouseEvent { kind, column: (column - 1) as usize, row: (row - 1) as usize },
        );
    match (button, last) {
        (0, 0x4d) => Some(at(MouseKind::Press)),
        (32, 0x4d) => Some(at(MouseKind::Drag)),
        (0, 0x6d) => Some(at(MouseKind::Release)),
        (32, 0x6d) => Some(at(MouseKind::Release)),
        (35, 0x4d) => Some(at(MouseKind::Move)),
        (64, 0x4d) => Some(EventModel::MouseScroll(3)),
        (65, 0x4d) => Some(EventModel::MouseScroll(-3)),
        _ => None,
    }
}

/// Mouse reports are read as what they are for, with or without modifiers: of
/// the button's bits Shift, Alt and Ctrl are left out.
pub proof fn mouse_reports_are_read(
    button: u16,
    modifiers: u16,
    column: usize,
    row: usize,
    last: u8,
)
    requires
        column > 0 && row > 0,
        modifiers == 0 || modifiers == 4 || modifiers == 8 || modifiers == 16,
        mouse_meaning(button, column, row, last) is Some,
    ensures
        reads_as(
            mouse_bytes((button + modifiers) as u16, column, row, last),
            mouse_meaning(button, column, row, last)->0,
        ),
{
    let b = (button + modifiers) as u16;
    assert(b & 0xffe3 == button) by {
        assert(0u16 & 0xffe3 == 0 && 4u16 & 0xffe3 == 0 && 8u16 & 0xffe3 == 0 && 16u16 & 0xffe3 == 0
            && 32u16 & 0xffe3 == 32 && 36u16 & 0xffe3 == 32 && 40u16 & 0xffe3 == 32 && 48u16
            & 0xffe3 == 32 && 35u16 & 0xffe3 == 35 && 39u16 & 0xffe3 == 35 && 43u16 & 0xffe3 == 35
            && 51u16 & 0xffe3 == 35 && 64u16 & 0xffe3 == 64 && 68u16 & 0xffe3 == 64 && 72u16
            & 0xffe3 == 64 && 80u16 & 0xffe3 == 64 && 65u16 & 0xffe3 == 65 && 69u16 & 0xffe3 == 65
            && 73u16 & 0xffe3 == 65 && 81u16 & 0xffe3 == 65) by (bit_vector);
    }
    let body = mouse_body(b, column, row);
    crate::events::mouse_report_reads_back(b, column, row, last);
    numbers_are_short(b as nat);
    numbers_are_short(column as nat);
    numbers_are_short(row as nat);
    let d = decimal(b as nat);
    let c = decimal(column as nat);
    let r = decimal(row as nat);
    assert forall|i: int| 0 <= i < body.len() implies ' ' <= #[trigger] body[i] < '@' by {
        if 1 <= i < 1 + d.len() {
            assert(body[i] == d[i - 1]);
        } else if 2 + d.len() <= i < 2 + d.len() + c.len() {
            assert(body[i] == c[i - 2 - d.len()]);
        } else if 3 + d.len() + c.len() <= i {
            assert(body[i] == r[i - 3 - d.len() - c.len()]);
        }
    }
    ascii_reads_back(body);
    assert(body[0] == '<');
    let bytes = ascii(body);
    assert(bytes.len() == body.len() <= MAX_CSI_BODY);
    assert(parameters(bytes));
    assert forall|rest: Seq<u8>| #[trigger]
        decode(Phase::Ground, mouse_bytes(b, column, row, last) + rest) == (
            mouse_meaning(button, column, row, last)->0,
            rest,
        ) by {
        sequence_is_read(bytes, last, rest);
    }
}

// ---------------------------------------------------------------------------
// Keys with modifiers

/// The bytes of a key report with modifiers: Shift, Alt and Ctrl.
pub open spec fn key_bytes(code: nat, shift: bool, alt: bool, ctrl: bool) -> Seq<u8> {
    sequence(ascii(decimal(code) + seq![';'] + decimal(held(shift, alt, ctrl))), 0x75)
}

/// The number that stands for the modifiers that are held.
pub open spec fn held(shift: bool, alt: bool, ctrl: bool) -> nat {
    1 + (if shift {
        1nat
    } else {
        0nat
    }) + (if alt {
        2nat
    } else {
        0nat
    }) + (if ctrl {
        4nat
    } else {
        0nat
    })
}

/// A key report is read with its modifiers: Enter with Shift or Alt begins a
/// line and sends otherwise, a letter with Ctrl is the same whether it is a
/// capital or not, and every other character is typed.
pub proof fn key_reports_are_read(code: nat, shift: bool, alt: bool, ctrl: bool)
    requires
        code < 0xd800 || 0xe000 <= code <= 0x10ffff,
    ensures
        reads_as(
            key_bytes(code, shift, alt, ctrl),
            EventModel::Key(
                if code == 13 && (shift || alt) {
                    Key::Newline
                } else if code == 13 {
                    Key::Enter
                } else if ctrl && 97 <= code <= 122 {
                    Key::Ctrl(code as char)
                } else if ctrl && 65 <= code <= 90 {
                    Key::Ctrl((code + 32) as char)
                } else {
                    Key::Char(code as char)
                },
            ),
        ),
{
    let m = held(shift, alt, ctrl);
    let d = decimal(code);
    let e = decimal(m);
    let body = d + seq![';'] + e;
    numbers_are_short(code);
    numbers_are_short(m);
    crate::text::decimal_reads_back(code);
    crate::text::decimal_reads_back(m);
    assert forall|i: int| 0 <= i < body.len() implies ' ' <= #[trigger] body[i] < '@' by {
        if i < d.len() {
            assert(body[i] == d[i]);
        } else if i > d.len() {
            assert(body[i] == e[i - d.len() - 1]);
        }
    }
    ascii_reads_back(body);
    let bytes = ascii(body);
    assert(parameters(bytes));
    assert(body[0] == d[0] && digit(d[0]));
    assert(body =~= d.push(';') + e);
    crate::text::split_at_separator(d, e, ';');
    crate::text::split_without_separator(d, ';');
    crate::text::split_without_separator(e, ';');
    crate::text::split_without_separator(d, ':');
    crate::text::split_without_separator(e, ':');
    assert(split_on(body, ';') =~= seq![d, e]);
    let bits = (m - 1) as u8;
    assert((bits & 1 != 0) == shift && (bits & 2 != 0) == alt && (bits & 4 != 0) == ctrl) by {
        assert(0u8 & 1 == 0 && 0u8 & 2 == 0 && 0u8 & 4 == 0) by (bit_vector);
        assert(1u8 & 1 != 0 && 1u8 & 2 == 0 && 1u8 & 4 == 0) by (bit_vector);
        assert(2u8 & 1 == 0 && 2u8 & 2 != 0 && 2u8 & 4 == 0) by (bit_vector);
        assert(3u8 & 1 != 0 && 3u8 & 2 != 0 && 3u8 & 4 == 0) by (bit_vector);
        assert(4u8 & 1 == 0 && 4u8 & 2 == 0 && 4u8 & 4 != 0) by (bit_vector);
        assert(5u8 & 1 != 0 && 5u8 & 2 == 0 && 5u8 & 4 != 0) by (bit_vector);
        assert(6u8 & 1 == 0 && 6u8 & 2 != 0 && 6u8 & 4 != 0) by (bit_vector);
        assert(7u8 & 1 != 0 && 7u8 & 2 != 0 && 7u8 & 4 != 0) by (bit_vector);
    }
    assert forall|rest: Seq<u8>| #[trigger]
        decode(Phase::Ground, key_bytes(code, shift, alt, ctrl) + rest) == (
            EventModel::Key(kitty_key(body)->0),
            rest,
        ) by {
        sequence_is_read(bytes, 0x75, rest);
    }
}

// ---------------------------------------------------------------------------
// Pasted text

/// Pasted lines end as lines of the text do: a carriage return, with or without
/// a line feed behind it, is one line feed, and every other character stays.
pub proof fn pasted_lines_end_with_line_feeds(s: Seq<char>, c: char)
    ensures
        unix_newlines(s.push('\r')) == unix_newlines(s).push('\n'),
        unix_newlines(s.push('\r').push('\n')) == unix_newlines(s).push('\n'),
        c != '\r' && c != '\n' ==> unix_newlines(s.push(c)) == unix_newlines(s).push(c),
        !(s.len() > 0 && s.last() == '\r') ==> unix_newlines(s.push('\n')) == unix_newlines(
            s,
        ).push('\n'),
        unix_newlines(Seq::empty()) == Seq::<char>::empty(),
{
    assert(s.push('\r').drop_last() =~= s);
    assert(s.push('\n').drop_last() =~= s);
    assert(s.push(c).drop_last() =~= s);
    let two = s.push('\r').push('\n');
    assert(two.drop_last() =~= s.push('\r'));
    assert(two[two.len() - 2] == '\r');
    assert(two.last() == '\n' && two.len() >= 2);
    assert(unix_newlines(two) == unix_newlines(s.push('\r')));
    assert(unix_newlines(s.push('\r')) == unix_newlines(s).push('\n'));
}

} // verus!
