//! Single-line text editing, shared by the commit message and the remote URL.

use vstd::prelude::*;
use crate::events::Key;
use crate::typing::{blanks_are_dropped, word_is_dropped};
use crate::text::{
    chars_of, is_whitespace, string_of, sub_chars, trim_end, trimmed_end, whitespace,
};

verus! {

broadcast use vstd::string::group_string_axioms;

/// A line of text and the place of the cursor in it, in characters.
pub struct Line {
    pub text: Seq<char>,
    pub cursor: usize,
}

/// The place at which a line is changed: the cursor, or the end where the
/// cursor lies past it.
pub open spec fn edit_point(line: Line) -> int {
    if line.cursor <= line.text.len() {
        line.cursor as int
    } else {
        line.text.len() as int
    }
}

/// A text without line feeds.
pub open spec fn one_line(s: Seq<char>) -> Seq<char>
    decreases s.len(),
{
    if s.len() == 0 {
        s
    } else if s.last() == '\n' {
        one_line(s.drop_last())
    } else {
        one_line(s.drop_last()).push(s.last())
    }
}

/// A line after an insertion at the cursor.
pub open spec fn inserted(line: Line, insert: Seq<char>) -> Line {
    let at = edit_point(line);
    let ins = one_line(insert);
    Line {
        text: line.text.take(at) + ins + line.text.skip(at),
        cursor: (at + ins.len()) as usize,
    }
}

/// A text without the word that it ends with.
pub open spec fn without_word(s: Seq<char>) -> Seq<char>
    decreases s.len(),
{
    if s.len() > 0 && !whitespace(s.last()) {
        without_word(s.drop_last())
    } else {
        s
    }
}

/// A line after a key; nothing where the key edits no line.
pub open spec fn edited(line: Line, key: Key) -> Option<Line> {
    let len = line.text.len();
    let at = edit_point(line);
    match key {
        Key::Char(c) => Some(inserted(line, seq![c])),
        Key::Backspace => Some(
            if 0 < line.cursor <= len {
                Line {
                    text: line.text.remove(line.cursor - 1),
                    cursor: (line.cursor - 1) as usize,
                }
            } else {
                line
            },
        ),
        Key::Delete => Some(
            if line.cursor < len {
                Line { text: line.text.remove(line.cursor as int), ..line }
            } else {
                line
            },
        ),
        Key::Left => Some(
            Line {
                cursor: if line.cursor == 0 {
                    0
                } else {
                    (line.cursor - 1) as usize
                },
                ..line
            },
        ),
        Key::Right => Some(
            Line {
                cursor: if line.cursor < len {
                    (line.cursor + 1) as usize
                } else {
                    len as usize
                },
                ..line
            },
        ),
        Key::Home => Some(Line { cursor: 0, ..line }),
        Key::End => Some(Line { cursor: len as usize, ..line }),
        Key::Ctrl(c) => if c == 'a' {
            Some(Line { cursor: 0, ..line })
        } else if c == 'e' {
            Some(Line { cursor: len as usize, ..line })
        } else if c == 'u' {
            Some(Line { text: line.text.skip(at), cursor: 0 })
        } else if c == 'k' {
            Some(Line { text: line.text.take(at), ..line })
        } else if c == 'w' {
            let head = without_word(trimmed_end(line.text.take(at)));
            Some(Line { text: head + line.text.skip(at), cursor: head.len() as usize })
        } else {
            None
        },
        _ => None,
    }
}

/// Inserts text at the cursor, without its line feeds; see `inserted`.
pub fn line_insert(text: &mut String, cursor: &mut usize, insert: &str)
    ensures
        (Line { text: final(text)@, cursor: *final(cursor) }) == inserted(
            Line { text: old(text)@, cursor: *old(cursor) },
            insert@,
        ),
{
    let chars = chars_of(text.as_str());
    let at: usize = if *cursor <= chars.len() {
        *cursor
    } else {
        chars.len()
    };
    let mut now = sub_chars(&chars, 0, at);
    let ghost head = now@;
    for c in it: insert.chars()
        invariant
            it.seq() == insert@,
            now@ == head + one_line(insert@.take(it.index())),
    {
        assert(insert@.take(it.index() + 1).drop_last() =~= insert@.take(it.index()));
        if c != '\n' {
            now.push(c);
        }
        assert(now@ =~= head + one_line(insert@.take(it.index() + 1)));
    }
    assert(insert@.take(insert@.len() as int) =~= insert@);
    *cursor = now.len();
    let mut tail = sub_chars(&chars, at, chars.len());
    assert(head =~= chars@.take(at as int));
    assert(tail@ =~= chars@.skip(at as int));
    now.append(&mut tail);
    *text = string_of(&now);
}

pub(crate) fn drop_word(s: &Vec<char>) -> (r: Vec<char>)
    ensures
        r@ == without_word(s@),
{
    let mut n: usize = s.len();
    assert(s@.take(n as int) =~= s@);
    while n > 0 && !is_whitespace(s[n - 1])
        invariant
            n <= s@.len(),
            without_word(s@.take(n as int)) == without_word(s@),
        decreases n,
    {
        assert(s@.take(n as int).drop_last() =~= s@.take(n - 1));
        n -= 1;
    }
    assert(s@.take(n as int) =~= s@.subrange(0, n as int));
    sub_chars(s, 0, n)
}

/// Edits a line with a key and says whether the key does that; see `edited`.
pub fn line_edit(text: &mut String, cursor: &mut usize, key: Key) -> (r: bool)
    ensures
        match edited(Line { text: old(text)@, cursor: *old(cursor) }, key) {
            Some(line) => r && final(text)@ == line.text && *final(cursor) == line.cursor,
            None => !r && final(text)@ == old(text)@ && *final(cursor) == *old(cursor),
        },
{
    let chars = chars_of(text.as_str());
    let len: usize = chars.len();
    let at: usize = if *cursor <= len {
        *cursor
    } else {
        len
    };
    match key {
        Key::Char(c) => {
            let mut one = String::new();
            one.push(c);
            assert(one@ =~= seq![c]);
            line_insert(text, cursor, one.as_str());
            true
        },
        Key::Backspace => {
            if *cursor > 0 && *cursor <= len {
                let mut chars = chars;
                let _ = chars.remove(*cursor - 1);
                *text = string_of(&chars);
                *cursor = *cursor - 1;
            }
            true
        },
        Key::Delete => {
            if *cursor < len {
                let mut chars = chars;
                let _ = chars.remove(*cursor);
                *text = string_of(&chars);
            }
            true
        },
        Key::Left => {
            if *cursor > 0 {
                *cursor = *cursor - 1;
            }
            true
        },
        Key::Right => {
            *cursor = if *cursor < len {
                *cursor + 1
            } else {
                len
            };
            true
        },
        Key::Home | Key::Ctrl('a') => {
            *cursor = 0;
            true
        },
        Key::End | Key::Ctrl('e') => {
            *cursor = len;
            true
        },
        Key::Ctrl('u') => {
            let tail = sub_chars(&chars, at, len);
            assert(tail@ =~= chars@.skip(at as int));
            *text = string_of(&tail);
            *cursor = 0;
            true
        },
        Key::Ctrl('k') => {
            let head = sub_chars(&chars, 0, at);
            assert(head@ =~= chars@.take(at as int));
            *text = string_of(&head);
            true
        },
        Key::Ctrl('w') => {
            let before = sub_chars(&chars, 0, at);
            assert(before@ =~= chars@.take(at as int));
            let mut head = drop_word(&trim_end(&before));
            *cursor = head.len();
            let mut tail = sub_chars(&chars, at, len);
            assert(tail@ =~= chars@.skip(at as int));
            head.append(&mut tail);
            *text = string_of(&head);
            true
        },
        _ => false,
    }
}

pub(crate) proof fn word_bounds(s: Seq<char>)
    ensures
        without_word(s).len() <= s.len(),
        trimmed_end(s).len() <= s.len(),
    decreases s.len(),
{
    if s.len() > 0 {
        word_bounds(s.drop_last());
    }
}

/// The cursor stays inside the line, whatever key is pressed.
pub proof fn cursor_stays_inside(line: Line, key: Key)
    requires
        line.cursor <= line.text.len() < usize::MAX,
    ensures
        match edited(line, key) {
            Some(now) => now.cursor <= now.text.len(),
            None => true,
        },
{
    word_bounds(line.text.take(edit_point(line)));
    word_bounds(trimmed_end(line.text.take(edit_point(line))));
    match key {
        Key::Char(c) => {
            reveal_with_fuel(one_line, 2);
            assert(seq![c].drop_last() =~= Seq::<char>::empty());
        },
        _ => {},
    }
}

/// Backspace takes back a typed character.
pub proof fn backspace_undoes_typing(line: Line, c: char)
    requires
        line.cursor <= line.text.len() < usize::MAX,
        c != '\n',
    ensures
        edited(line, Key::Char(c)) is Some,
        edited(edited(line, Key::Char(c))->0, Key::Backspace) == Some(line),
{
    reveal_with_fuel(one_line, 2);
    assert(seq![c].drop_last() =~= Seq::<char>::empty());
    assert(one_line(seq![c]) =~= seq![c]);
    let typed = edited(line, Key::Char(c))->0;
    assert(typed.text.remove(typed.cursor - 1) =~= line.text);
}

/// Line feeds are left out of a line, and nothing else is.
pub proof fn only_line_feeds_are_left_out(s: Seq<char>)
    ensures
        !one_line(s).contains('\n'),
        !s.contains('\n') ==> one_line(s) == s,
        one_line(s.push('\n')) == one_line(s),
    decreases s.len(),
{
    assert(s.push('\n').drop_last() =~= s);
    if s.len() > 0 {
        let before = s.drop_last();
        only_line_feeds_are_left_out(before);
        if !s.contains('\n') {
            assert(s[s.len() - 1] != '\n');
            assert(!before.contains('\n')) by {
                if before.contains('\n') {
                    let k = choose|k: int| 0 <= k < before.len() && before[k] == '\n';
                    assert(s[k] == '\n');
                }
            }
            assert(before.push(s.last()) =~= s);
        }
        if s.last() != '\n' {
            let now = one_line(s);
            assert(now == one_line(before).push(s.last()));
            if now.contains('\n') {
                let k = choose|k: int| 0 <= k < now.len() && now[k] == '\n';
                if k < one_line(before).len() {
                    assert(one_line(before)[k] == '\n');
                }
            }
        }
    }
}

/// A character that is typed stands before the cursor, which moves behind it;
/// what is pasted does too.
pub proof fn typed_text_is_inserted(line: Line, c: char, text: Seq<char>)
    requires
        line.cursor <= line.text.len(),
        line.text.len() + text.len() < usize::MAX,
        c != '\n',
        !text.contains('\n'),
    ensures
        edited(line, Key::Char(c)) matches Some(now) && now.text == line.text.take(
            line.cursor as int,
        ).push(c) + line.text.skip(line.cursor as int) && now.cursor == line.cursor + 1,
        inserted(line, text).text == line.text.take(line.cursor as int) + text + line.text.skip(
            line.cursor as int,
        ),
        inserted(line, text).cursor == line.cursor + text.len(),
{
    only_line_feeds_are_left_out(text);
    assert(!seq![c].contains('\n'));
    only_line_feeds_are_left_out(seq![c]);
    assert(edited(line, Key::Char(c))->0.text =~= line.text.take(line.cursor as int).push(c)
        + line.text.skip(line.cursor as int));
}

/// Backspace takes the character before the cursor away and Delete the one
/// behind it; Left and Right move by one, Home and End to the ends, and Ctrl+A
/// and Ctrl+E as these.
pub proof fn line_keys_move_and_delete(line: Line)
    requires
        line.cursor <= line.text.len() <= usize::MAX,
    ensures
        ({
            let now = |key: Key| edited(line, key)->0;
            let at = line.cursor as int;
            let n = line.text.len() as int;
            &&& at > 0 ==> now(Key::Backspace) == (Line {
                text: line.text.remove(at - 1),
                cursor: (at - 1) as usize,
            })
            &&& at == 0 ==> now(Key::Backspace) == line
            &&& at < n ==> now(Key::Delete) == (Line { text: line.text.remove(at), ..line })
            &&& at == n ==> now(Key::Delete) == line
            &&& at > 0 ==> now(Key::Left) == (Line { cursor: (at - 1) as usize, ..line })
            &&& at < n ==> now(Key::Right) == (Line { cursor: (at + 1) as usize, ..line })
            &&& now(Key::Home) == (Line { cursor: 0, ..line })
            &&& now(Key::End) == (Line { cursor: n as usize, ..line })
            &&& now(Key::Ctrl('a')) == now(Key::Home)
            &&& now(Key::Ctrl('e')) == now(Key::End)
        }),
{
}

/// Ctrl+U deletes what stands before the cursor, Ctrl+K what stands behind it,
/// and Ctrl+W the word before it with the white space behind that word. `word`
/// is where the word begins and where it ends.
pub proof fn line_keys_delete_parts(line: Line) -> (word: (int, int))
    requires
        line.cursor <= line.text.len() <= usize::MAX,
    ensures
        ({
            let at = line.cursor as int;
            &&& edited(line, Key::Ctrl('u')) == Some(Line { text: line.text.skip(at), cursor: 0 })
            &&& edited(line, Key::Ctrl('k')) == Some(Line { text: line.text.take(at), ..line })
            &&& 0 <= word.0 <= word.1 <= at
            &&& edited(line, Key::Ctrl('w')) == Some(
                Line {
                    text: line.text.take(word.0) + line.text.skip(at),
                    cursor: word.0 as usize,
                },
            )
            &&& forall|i: int| word.0 <= i < word.1 ==> !whitespace(#[trigger] line.text[i])
            &&& forall|i: int| word.1 <= i < at ==> whitespace(#[trigger] line.text[i])
            &&& word.0 > 0 ==> whitespace(line.text[word.0 - 1])
            &&& word.1 > 0 ==> word.0 < word.1
        }),
{
    let at = line.cursor as int;
    let head = line.text.take(at);
    blanks_are_dropped(head);
    let t = trimmed_end(head);
    word_is_dropped(t);
    let a = without_word(t).len() as int;
    let b = t.len() as int;
    assert forall|i: int| a <= i < b implies !whitespace(#[trigger] line.text[i]) by {
        assert(t[i] == line.text[i]);
    }
    assert forall|i: int| b <= i < at implies whitespace(#[trigger] line.text[i]) by {
        assert(head[i] == line.text[i]);
    }
    if a > 0 {
        assert(t[a - 1] == line.text[a - 1]);
    }
    if b > 0 {
        assert(head[b - 1] == t[b - 1]);
    }
    assert(without_word(t) =~= line.text.take(a));
    (a, b)
}

} // verus!
