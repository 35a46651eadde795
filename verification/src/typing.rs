//! What the keys of the composer are for.

use vstd::prelude::*;
use crate::editor::{
    last_word, line_end, line_start, pieces_of, EditActionModel, EditorModel, ShorthandModel,
};
use crate::events::Key;
use crate::files::file_name;
use crate::git::line::without_word;
use crate::markdown::{chunks, columns, total_columns};
use crate::tags::free_place_stays;
use crate::text::{split_on, starts, trimmed, trimmed_end, whitespace};

verus! {

broadcast use vstd::string::group_string_axioms;

/// A character that is typed stands before the cursor, which moves behind it;
/// the text around it stays, and nothing is sent.
pub proof fn typed_characters_are_inserted(e: EditorModel, c: char)
    requires
        e.sound(),
        e.text.len() < usize::MAX,
    ensures
        ({
            let (now, action) = e.keyed(Key::Char(c));
            &&& action is Nothing
            &&& now.text == e.text.take(e.at()).push(c) + e.text.skip(e.at())
            &&& now.cursor == e.at() + 1
            &&& now.images == e.images
        }),
        ({
            let (now, action) = e.keyed(Key::Newline);
            &&& action is Nothing
            &&& now.text == e.text.take(e.at()).push('\n') + e.text.skip(e.at())
            &&& now.cursor == e.at() + 1
        }),
        e.keyed(Key::Ctrl('j')) == e.keyed(Key::Newline),
{
    free_place_stays(e.tags, e.at());
    crate::editor::typing_attaches_nothing(e, seq![c]);
    reveal_strlit("\n");
    assert("\n"@ =~= seq!['\n']);
    let now = e.keyed(Key::Char(c)).0;
    assert(now.text =~= e.text.take(e.at()).push(c) + e.text.skip(e.at()));
    let line = e.keyed(Key::Newline).0;
    assert(line.text =~= e.text.take(e.at()).push('\n') + e.text.skip(e.at()));
}

/// Backspace takes the character before the cursor away, Delete the one behind
/// it; at the edge of the text they do nothing. Where no image is attached.
pub proof fn deleting_takes_one_character(e: EditorModel)
    requires
        e.tags.len() == 0,
        e.text.len() <= usize::MAX,
    ensures
        ({
            let now = e.keyed(Key::Backspace).0;
            if e.at() > 0 {
                now.text == e.text.remove(e.at() - 1) && now.cursor == e.at() - 1
            } else {
                now.text == e.text && now.at() == 0
            }
        }),
        ({
            let now = e.keyed(Key::Delete).0;
            if e.at() < e.text.len() {
                now.text == e.text.remove(e.at()) && now.cursor == e.at()
            } else {
                now.text == e.text && now.at() == e.at()
            }
        }),
        e.keyed(Key::Backspace).1 is Nothing,
        e.keyed(Key::Delete).1 is Nothing,
{
    if e.at() > 0 {
        assert(e.keyed(Key::Backspace).0.text =~= e.text.remove(e.at() - 1));
    }
    if e.at() < e.text.len() {
        assert(e.keyed(Key::Delete).0.text =~= e.text.remove(e.at()));
    }
}

/// Backspace takes back what was typed.
pub proof fn backspace_takes_back_typing(e: EditorModel, c: char)
    requires
        e.tags.len() == 0,
        e.text.len() < usize::MAX,
    ensures
        ({
            let now = e.keyed(Key::Char(c)).0.keyed(Key::Backspace).0;
            now.text == e.text && now.cursor == e.at()
        }),
{
    let one = e.keyed(Key::Char(c)).0;
    assert(one.tags =~= Seq::empty());
    deleting_takes_one_character(one);
    assert(one.text =~= e.text.take(e.at()).push(c) + e.text.skip(e.at()));
    assert(one.text.remove(e.at()) =~= e.text);
}

/// Left and Right move the cursor by one character, and not past the edge; the
/// text stays. Where no image is attached.
pub proof fn arrows_move_by_one_character(e: EditorModel)
    requires
        e.tags.len() == 0,
        e.text.len() <= usize::MAX,
    ensures
        ({
            let now = e.keyed(Key::Left).0;
            now.text == e.text && now.cursor == if e.at() > 0 {
                e.at() - 1
            } else {
                0
            }
        }),
        ({
            let now = e.keyed(Key::Right).0;
            now.text == e.text && now.cursor == if e.at() < e.text.len() {
                e.at() + 1
            } else {
                e.text.len() as int
            }
        }),
{
}

proof fn line_holds_no_feed(text: Seq<char>, at: int)
    requires
        0 <= at <= text.len(),
    ensures
        0 <= line_start(text, at) <= at <= line_end(text, at) <= text.len(),
        forall|i: int| line_start(text, at) <= i < line_end(text, at) ==> #[trigger] text[i] != '\n',
        line_start(text, at) > 0 ==> text[line_start(text, at) - 1] == '\n',
        line_end(text, at) < text.len() ==> text[line_end(text, at)] == '\n',
{
    starts_after_feed(text, at);
    ends_before_feed(text, at);
}

proof fn starts_after_feed(text: Seq<char>, at: int)
    requires
        0 <= at <= text.len(),
    ensures
        0 <= line_start(text, at) <= at,
        forall|i: int| line_start(text, at) <= i < at ==> #[trigger] text[i] != '\n',
        line_start(text, at) > 0 ==> text[line_start(text, at) - 1] == '\n',
    decreases at,
{
    if at > 0 && text[at - 1] != '\n' {
        starts_after_feed(text, at - 1);
    }
}

proof fn ends_before_feed(text: Seq<char>, at: int)
    requires
        0 <= at <= text.len(),
    ensures
        at <= line_end(text, at) <= text.len(),
        forall|i: int| at <= i < line_end(text, at) ==> #[trigger] text[i] != '\n',
        line_end(text, at) < text.len() ==> text[line_end(text, at)] == '\n',
    decreases text.len() - at,
{
    if at < text.len() && text[at] != '\n' {
        ends_before_feed(text, at + 1);
    }
}

/// Home and Ctrl+A go to the start of the line, End and Ctrl+E to its end:
/// there a line feed or the edge of the text is, and none in between.
pub proof fn jumps_reach_the_edges_of_the_line(e: EditorModel)
    requires
        e.text.len() <= usize::MAX,
    ensures
        ({
            let now = e.keyed(Key::Home).0;
            &&& now.text == e.text && now.cursor <= e.at()
            &&& now.cursor == 0 || e.text[now.cursor - 1] == '\n'
            &&& forall|i: int| now.cursor <= i < e.at() ==> #[trigger] e.text[i] != '\n'
        }),
        ({
            let now = e.keyed(Key::End).0;
            &&& now.text == e.text && e.at() <= now.cursor <= e.text.len()
            &&& now.cursor == e.text.len() || e.text[now.cursor as int] == '\n'
            &&& forall|i: int| e.at() <= i < now.cursor ==> #[trigger] e.text[i] != '\n'
        }),
        e.keyed(Key::Ctrl('a')) == e.keyed(Key::Home),
        e.keyed(Key::Ctrl('e')) == e.keyed(Key::End),
{
    line_holds_no_feed(e.text, e.at());
}

/// Ctrl+U deletes from the start of the line up to the cursor, Ctrl+K from the
/// cursor up to its end, and nothing else.
pub proof fn lines_are_deleted_to_either_side(e: EditorModel)
    requires
        e.tags.len() == 0,
        e.text.len() <= usize::MAX,
    ensures
        ({
            let now = e.keyed(Key::Ctrl('u')).0;
            let n = now.cursor as int;
            &&& n <= e.at() && now.text == e.text.take(n) + e.text.skip(e.at())
            &&& n == 0 || e.text[n - 1] == '\n'
            &&& forall|i: int| n <= i < e.at() ==> #[trigger] e.text[i] != '\n'
        }),
        ({
            let now = e.keyed(Key::Ctrl('k')).0;
            let n = e.text.len() - (now.text.len() - e.at());
            &&& now.cursor == e.at() && e.at() <= n <= e.text.len()
            &&& now.text == e.text.take(e.at()) + e.text.skip(n)
            &&& n == e.text.len() || e.text[n] == '\n'
            &&& forall|i: int| e.at() <= i < n ==> #[trigger] e.text[i] != '\n'
        }),
{
    line_holds_no_feed(e.text, e.at());
    let back = e.keyed(Key::Ctrl('u')).0;
    let start = line_start(e.text, e.at());
    assert(back.text =~= e.text.take(start) + e.text.skip(e.at()));
    let on = e.keyed(Key::Ctrl('k')).0;
    let end = line_end(e.text, e.at());
    assert(on.text =~= e.text.take(e.at()) + e.text.skip(end));
}

pub(crate) proof fn word_is_dropped(s: Seq<char>)
    ensures
        ({
            let n = without_word(s).len() as int;
            &&& n <= s.len() && without_word(s) == s.take(n)
            &&& forall|i: int| n <= i < s.len() ==> !whitespace(#[trigger] s[i])
            &&& n > 0 ==> whitespace(s[n - 1])
        }),
    decreases s.len(),
{
    if s.len() > 0 && !whitespace(s.last()) {
        word_is_dropped(s.drop_last());
        let n = without_word(s).len() as int;
        assert(s.drop_last().take(n) =~= s.take(n));
        assert forall|i: int| n <= i < s.len() implies !whitespace(#[trigger] s[i]) by {
            if i < s.len() - 1 {
                assert(s.drop_last()[i] == s[i]);
            }
        }
    } else {
        assert(s.take(s.len() as int) =~= s);
    }
}

pub(crate) proof fn blanks_are_dropped(s: Seq<char>)
    ensures
        ({
            let n = trimmed_end(s).len() as int;
            &&& n <= s.len() && trimmed_end(s) == s.take(n)
            &&& forall|i: int| n <= i < s.len() ==> whitespace(#[trigger] s[i])
            &&& n > 0 ==> !whitespace(s[n - 1])
        }),
    decreases s.len(),
{
    if s.len() > 0 && whitespace(s.last()) {
        blanks_are_dropped(s.drop_last());
        let n = trimmed_end(s).len() as int;
        assert(s.drop_last().take(n) =~= s.take(n));
        assert forall|i: int| n <= i < s.len() implies whitespace(#[trigger] s[i]) by {
            if i < s.len() - 1 {
                assert(s.drop_last()[i] == s[i]);
            }
        }
    } else {
        assert(s.take(s.len() as int) =~= s);
    }
}

/// Ctrl+W deletes the word before the cursor and the white space behind it: one
/// word, whole, and nothing before it. `word` is where the word begins and
/// where it ends.
pub proof fn one_word_is_deleted(e: EditorModel) -> (word: (int, int))
    requires
        e.tags.len() == 0,
        e.text.len() <= usize::MAX,
    ensures
        ({
            let now = e.keyed(Key::Ctrl('w')).0;
            &&& 0 <= word.0 <= word.1 <= e.at()
            &&& now.text == e.text.take(word.0) + e.text.skip(e.at())
            &&& now.cursor == word.0
            &&& forall|i: int| word.0 <= i < word.1 ==> !whitespace(#[trigger] e.text[i])
            &&& forall|i: int| word.1 <= i < e.at() ==> whitespace(#[trigger] e.text[i])
            &&& word.0 > 0 ==> whitespace(e.text[word.0 - 1])
            &&& word.1 > 0 ==> word.0 < word.1
        }),
{
    let head = e.text.take(e.at());
    blanks_are_dropped(head);
    let t = trimmed_end(head);
    word_is_dropped(t);
    let a = without_word(t).len() as int;
    let b = t.len() as int;
    assert forall|i: int| a <= i < b implies !whitespace(#[trigger] e.text[i]) by {
        assert(t[i] == e.text[i]);
    }
    assert forall|i: int| b <= i < e.at() implies whitespace(#[trigger] e.text[i]) by {
        assert(head[i] == e.text[i]);
    }
    if a > 0 {
        assert(t[a - 1] == e.text[a - 1]);
    }
    if b > 0 {
        assert(head[b - 1] == t[b - 1]);
    }
    let now = e.keyed(Key::Ctrl('w')).0;
    assert(now.text =~= e.text.take(a) + e.text.skip(e.at()));
    (a, b)
}

/// Enter sends the whole text with its images and empties the composer; Ctrl+G
/// steers with the same. Where there is nothing but white space, neither does
/// anything. Escape empties the composer and sends nothing.
pub proof fn enter_sends_everything(e: EditorModel)
    ensures
        ({
            let blank = trimmed(e.text).len() == 0 && e.images.len() == 0;
            let (sent, action) = e.keyed(Key::Enter);
            let (steered, other) = e.keyed(Key::Ctrl('g'));
            &&& blank ==> sent == e && action is Nothing && steered == e && other is Nothing
            &&& !blank ==> {
                &&& action matches EditActionModel::Submit(input) && input.text == e.text
                    && input.images == e.images
                &&& other matches EditActionModel::Steer(input) && input.text == e.text
                    && input.images == e.images
                &&& sent.text.len() == 0 && sent.images.len() == 0 && sent.cursor == 0
                &&& steered == sent
            }
        }),
        e.keyed(Key::Escape).0.text.len() == 0,
        e.keyed(Key::Escape).0.images.len() == 0,
        e.keyed(Key::Escape).1 is Nothing,
{
}

/// A short paste stands at the cursor as it is; a long one, of more than 400
/// characters or more than 8 lines, is shown by a marker and kept whole.
pub proof fn pastes_are_shown_or_kept(e: EditorModel, text: Seq<char>)
    requires
        e.sound(),
    ensures
        text.len() <= 400 && split_on(text, '\n').len() <= 8 ==> e.pasted(text).text == e.text.take(
            e.at(),
        ) + text + e.text.skip(e.at()) && e.pasted(text).pastes == e.pastes,
        text.len() > 400 || split_on(text, '\n').len() > 8 ==> e.pasted(text).pastes.len()
            == e.pastes.len() + 1 && e.pasted(text).pastes.last().full == text && e.pasted(
            text,
        ).text == e.text.take(e.at()) + e.pasted(text).pastes.last().shown + e.text.skip(e.at())
            && e.pasted(text).pastes.drop_last() == e.pastes,
{
    free_place_stays(e.tags, e.at());
    if text.len() > 400 || split_on(text, '\n').len() > 8 {
        assert(e.pasted(text).pastes.drop_last() =~= e.pastes);
    }
}

/// A command is being typed exactly where the text begins with a slash and
/// holds no white space; it is the whole text.
pub proof fn commands_begin_with_a_slash(e: EditorModel)
    ensures
        e.command() is Some <==> e.text.len() > 0 && e.text[0] == '/' && forall|i: int|
            0 <= i < e.text.len() ==> !whitespace(#[trigger] e.text[i]),
        e.command() is Some ==> e.command()->0 == e.text,
{
    reveal_strlit("/");
    assert("/"@ =~= seq!['/']);
    if e.text.len() > 0 && e.text[0] == '/' {
        assert(e.text.take(1) =~= "/"@);
    }
    if starts(e.text, "/"@) {
        assert(e.text.take(1)[0] == e.text[0]);
    }
}

proof fn last_word_is_the_run(s: Seq<char>, word: Seq<char>)
    requires
        s.len() == 0 || whitespace(s.last()),
        forall|i: int| 0 <= i < word.len() ==> !whitespace(#[trigger] word[i]),
    ensures
        last_word(s + word) == word,
    decreases word.len(),
{
    if word.len() == 0 {
        assert(s + word =~= s);
        assert(last_word(s) =~= word);
    } else {
        let shorter = word.drop_last();
        assert forall|i: int| 0 <= i < shorter.len() implies !whitespace(#[trigger] shorter[i]) by {
            assert(shorter[i] == word[i]);
        }
        last_word_is_the_run(s, shorter);
        assert((s + word).drop_last() =~= s + shorter);
        assert((s + word).last() == word[word.len() - 1]);
        assert(shorter.push(word.last()) =~= word);
    }
}

/// A file is being mentioned where the word before the cursor begins with an at
/// sign, and by what stands behind it.
pub proof fn mentions_begin_with_an_at_sign(
    e: EditorModel,
    before: Seq<char>,
    word: Seq<char>,
)
    requires
        e.text.take(e.at()) == before + word,
        before.len() == 0 || whitespace(before.last()),
        forall|i: int| 0 <= i < word.len() ==> !whitespace(#[trigger] word[i]),
    ensures
        word.len() > 0 && word[0] == '@' ==> e.mention() == Some(word.skip(1)),
        word.len() == 0 || word[0] != '@' ==> e.mention() is None,
{
    last_word_is_the_run(before, word);
    reveal_strlit("@");
    assert("@"@ =~= seq!['@']);
    if word.len() > 0 {
        assert(word.take(1) =~= seq![word[0]]);
        assert(seq![word[0]][0] == word[0]);
    }
}

/// A command that is completed replaces the text, with a space behind it; the
/// cursor stands behind that.
pub proof fn completed_commands_replace_the_text(e: EditorModel, command: Seq<char>)
    requires
        e.sound(),
        command.len() < usize::MAX,
    ensures
        e.with_command(command).text == command.push(' '),
        e.with_command(command).cursor == command.len() + 1,
{
    reveal_strlit(" ");
    crate::tags::snapping_leaves_tags(e.tags, e.text, 0);
    crate::tags::snapping_leaves_tags(e.tags, e.text, e.text.len() as int);
    let now = e.with_command(command);
    assert(now.text =~= command.push(' '));
}

/// A file that is mentioned stands as its name in place of the word before the
/// cursor, and the model receives its path.
pub proof fn mentioned_files_are_received_as_paths(
    e: EditorModel,
    before: Seq<char>,
    word: Seq<char>,
    path: Seq<char>,
)
    requires
        e.sound(),
        e.tags.len() == 0,
        e.text.take(e.at()) == before + word,
        before.len() == 0 || whitespace(before.last()),
        forall|i: int| 0 <= i < word.len() ==> !whitespace(#[trigger] word[i]),
    ensures
        ({
            let now = e.with_mention(path);
            &&& now.text == before + "@"@ + file_name(path) + " "@ + e.text.skip(e.at())
            &&& now.mentions == e.mentions.push(
                ShorthandModel { shown: "@"@ + file_name(path), full: "@"@ + path },
            )
        }),
{
    last_word_is_the_run(before, word);
    let now = e.with_mention(path);
    let from = e.at() - word.len();
    assert((before + word).len() == before.len() + word.len());
    assert(from == before.len());
    assert(e.text.take(from) =~= before) by {
        assert(e.text.take(e.at()).take(from) =~= e.text.take(from));
        assert((before + word).take(from) =~= before);
    }
    assert(now.text =~= before + "@"@ + file_name(path) + " "@ + e.text.skip(e.at()));
}

/// The name of a file is what stands behind the last slash of its path.
pub proof fn names_stand_behind_the_last_slash(dir: Seq<char>, name: Seq<char>)
    requires
        !name.contains('/'),
    ensures
        file_name(name) == name,
        file_name(dir.push('/') + name) == name,
{
    crate::text::split_without_separator(name, '/');
    crate::text::split_at_separator(dir, name, '/');
    assert((split_on(dir, '/') + seq![name]).last() == name);
}

// ---------------------------------------------------------------------------
// Rows

/// The texts of a list one behind the other.
pub open spec fn together(parts: Seq<Seq<char>>) -> Seq<char>
    decreases parts.len(),
{
    if parts.len() == 0 {
        Seq::empty()
    } else {
        together(parts.drop_last()) + parts.last()
    }
}

/// A line is wrapped into rows that hold all of it in its order, each at most
/// as wide as the composer, unless it is one character that is wider. A row is
/// as full as it can be: the next character would not fit.
pub proof fn wrapped_rows_hold_the_line(line: Seq<char>, width: nat)
    ensures
        ({
            let rows = chunks(line, width);
            &&& together(rows) == line
            &&& forall|i: int|
                0 <= i < rows.len() ==> (#[trigger] rows[i]).len() > 0 && (total_columns(rows[i])
                    <= width || rows[i].len() == 1)
            &&& forall|i: int|
                0 < i < rows.len() ==> total_columns(rows[i - 1]) + columns(
                    (#[trigger] rows[i])[0],
                ) > width
        }),
    decreases line.len(),
{
    let rows = chunks(line, width);
    if line.len() == 0 {
        assert(together(rows) =~= line);
    } else {
        let shorter = line.drop_last();
        let c = line.last();
        wrapped_rows_hold_the_line(shorter, width);
        let before = chunks(shorter, width);
        assert(shorter.push(c) =~= line);
        if before.len() > 0 && total_columns(before.last()) + columns(c) <= width {
            let row = before.last().push(c);
            assert(row.drop_last() =~= before.last());
            assert(rows.drop_last() =~= before.drop_last());
            assert(together(rows) =~= line);
            assert forall|i: int| 0 <= i < rows.len() implies (#[trigger] rows[i]).len() > 0 && (
            total_columns(rows[i]) <= width || rows[i].len() == 1) by {
                if i < before.len() - 1 {
                    assert(rows[i] == before[i]);
                }
            }
            assert forall|i: int| 0 < i < rows.len() implies total_columns(rows[i - 1]) + columns(
                (#[trigger] rows[i])[0],
            ) > width by {
                assert(rows[i - 1] == before[i - 1]);
                assert(rows[i][0] == before[i][0]);
            }
        } else {
            assert(rows.drop_last() =~= before);
            assert(together(rows) =~= line);
            assert forall|i: int| 0 <= i < rows.len() implies (#[trigger] rows[i]).len() > 0 && (
            total_columns(rows[i]) <= width || rows[i].len() == 1) by {
                if i < before.len() {
                    assert(rows[i] == before[i]);
                }
            }
            assert forall|i: int| 0 < i < rows.len() implies total_columns(rows[i - 1]) + columns(
                (#[trigger] rows[i])[0],
            ) > width by {
                if i < before.len() {
                    assert(rows[i] == before[i] && rows[i - 1] == before[i - 1]);
                }
            }
        }
    }
}

/// A text is shown line by line, an empty line as an empty row.
pub proof fn lines_are_wrapped_in_order(lines: Seq<Seq<char>>, line: Seq<char>, width: nat)
    ensures
        pieces_of(lines.push(line), width) == pieces_of(lines, width) + if line.len() == 0 {
            seq![Seq::<char>::empty()]
        } else {
            chunks(line, width)
        },
        pieces_of(Seq::empty(), width).len() == 0,
{
    assert(lines.push(line).drop_last() =~= lines);
}

} // verus!
