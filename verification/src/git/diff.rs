//! The pane that shows a diff: highlighting, wrapping and scrolling.

use vstd::prelude::*;
use crate::git::view::{
    DiffKind, DiffLine, DiffModel, LineModel, LoadedDiff, SCROLL_ANCHOR_PENDING,
};
use crate::highlight::{highlighted, highlighting_shows_the_line, render_line};
use crate::markdown::{
    chunks, fit_width, fitted, lines_of, repeat, reset, sanitize_plain, sanitized, spaces,
    split_chars, styles_do_not_move_the_cuts, visible_columns, visible_width, wrap_ansi_hard,
    wrapped,
};
use crate::model::views;
use crate::rows::{
    at_least, at_most, larger, minus, push_row, push_rows, size_rows, sized, smaller,
};
use crate::text::{
    cat2, cat3, cat4, cat8, chars_of, count_of, decimal, is, replace, replaced,
    split_chars_on, split_on, texts,
};

verus! {

broadcast use vstd::string::group_string_axioms;

// ---------------------------------------------------------------------------
// Languages

/// The language of a file, by the part of its path after the last dot.
pub open spec fn language_of(path: Seq<char>) -> Seq<char> {
    let extension = split_on(path, '.').last();
    if extension == "rs"@ {
        "rust"@
    } else if extension == "py"@ {
        "python"@
    } else if extension == "js"@ || extension == "jsx"@ {
        "javascript"@
    } else if extension == "ts"@ || extension == "tsx"@ {
        "typescript"@
    } else if extension == "go"@ {
        "go"@
    } else if extension == "c"@ || extension == "h"@ {
        "c"@
    } else if extension == "cpp"@ || extension == "cc"@ || extension == "hpp"@ {
        "cpp"@
    } else if extension == "sh"@ || extension == "bash"@ || extension == "zsh"@ {
        "bash"@
    } else if extension == "json"@ || extension == "jsonc"@ {
        "json"@
    } else if extension == "toml"@ {
        "toml"@
    } else if extension == "html"@ || extension == "htm"@ {
        "html"@
    } else if extension == "css"@ {
        "css"@
    } else {
        ""@
    }
}

pub fn language_for_path(path: &str) -> (r: &'static str)
    ensures
        r@ == language_of(path@),
{
    let parts = split_chars_on(&chars_of(path), '.');
    proof {
        crate::text::split_joins_back(path@, '.');
    }
    assert(texts(parts@).len() > 0);
    let last: usize = parts.len() - 1;
    let extension = &parts[last];
    assert(extension@ == split_on(path@, '.').last());
    if is(extension, "rs") {
        "rust"
    } else if is(extension, "py") {
        "python"
    } else if is(extension, "js") || is(extension, "jsx") {
        "javascript"
    } else if is(extension, "ts") || is(extension, "tsx") {
        "typescript"
    } else if is(extension, "go") {
        "go"
    } else if is(extension, "c") || is(extension, "h") {
        "c"
    } else if is(extension, "cpp") || is(extension, "cc") || is(extension, "hpp") {
        "cpp"
    } else if is(extension, "sh") || is(extension, "bash") || is(extension, "zsh") {
        "bash"
    } else if is(extension, "json") || is(extension, "jsonc") {
        "json"
    } else if is(extension, "toml") {
        "toml"
    } else if is(extension, "html") || is(extension, "htm") {
        "html"
    } else if is(extension, "css") {
        "css"
    } else {
        ""
    }
}

// ---------------------------------------------------------------------------
// The first change

/// An added or a removed line.
pub open spec fn changed(line: LineModel) -> bool {
    line.kind == DiffKind::Added || line.kind == DiffKind::Removed
}

/// The line at which a diff is opened: two before its first change.
pub open spec fn first_shown(lines: Seq<LineModel>) -> int {
    match crate::model::first_position(lines, |line: LineModel| changed(line)) {
        Some(i) => if i >= 2 {
            i - 2
        } else {
            0
        },
        None => 0,
    }
}

pub fn first_change_scroll(lines: &[DiffLine]) -> (r: usize)
    ensures
        r == first_shown(views(lines@)),
        r <= lines@.len(),
{
    let ghost all = views(lines@);
    let ghost wanted = |line: LineModel| changed(line);
    let mut i: usize = 0;
    while i < lines.len()
        invariant
            i <= lines@.len(),
            all == views(lines@),
            wanted == (|line: LineModel| changed(line)),
            forall|k: int| 0 <= k < i ==> !wanted(#[trigger] all[k]),
        decreases lines@.len() - i,
    {
        assert(all[i as int] == lines@[i as int]@);
        if lines[i].kind == DiffKind::Added || lines[i].kind == DiffKind::Removed {
            proof {
                crate::model::first_position_is(all, wanted, i as int);
            }
            return i.saturating_sub(2);
        }
        i += 1;
    }
    proof {
        crate::model::no_first_position(all, wanted);
    }
    0
}

// ---------------------------------------------------------------------------
// Lines on the screen

/// The columns before the code: two numbers of four digits, a sign, and a
/// space after each. Wrapped rows leave them blank.
pub const DIFF_GUTTER_WIDTH: usize = 12;

/// The columns that are left for code in a pane.
pub open spec fn code_columns(width: nat) -> nat {
    at_least(minus(width, DIFF_GUTTER_WIDTH as nat), 8)
}

/// The plain pieces of a line, one for each row that it takes.
pub open spec fn plain_rows(line: LineModel, code_width: nat, width: nat) -> Seq<Seq<char>> {
    let pieces = if line.kind == DiffKind::Hunk {
        chunks(line.text + "…"@, at_least(width, 1))
    } else {
        chunks(sanitized(line.text), at_least(code_width, 1))
    };
    if pieces.len() == 0 {
        seq![Seq::empty()]
    } else {
        pieces
    }
}

/// Cuts a line into plain pieces, which tell the rows that it takes without
/// highlighting it.
pub fn diff_plain_chunks(line: &DiffLine, code_width: usize, width: usize) -> (r: Vec<String>)
    ensures
        lines_of(r@) == plain_rows(line@, code_width as nat, width as nat),
{
    let mut pieces = match line.kind {
        DiffKind::Hunk => {
            let text = cat2(line.text.as_str(), "…");
            split_chars(text.as_str(), larger(width, 1))
        },
        _ => {
            let text = sanitize_plain(line.text.as_str());
            split_chars(text.as_str(), larger(code_width, 1))
        },
    };
    assert(lines_of(pieces@).len() == pieces@.len());
    if pieces.is_empty() {
        push_row(&mut pieces, String::new());
        assert(lines_of(pieces@) =~= seq![Seq::empty()]);
    }
    pieces
}

/// The highlighted pieces of a line, one for each row that it takes. The line
/// is highlighted before it is wrapped, so that comments and strings keep
/// their style on every row.
pub open spec fn styled_rows(
    line: LineModel,
    language: Seq<char>,
    code_width: nat,
    width: nat,
) -> Seq<Seq<char>> {
    if line.kind == DiffKind::Hunk {
        plain_rows(line, code_width, width)
    } else {
        wrapped(highlighted(language, sanitized(line.text)), at_least(code_width, 1))
    }
}

pub fn diff_styled_chunks(line: &DiffLine, language: &str, code_width: usize, width: usize) -> (r:
    Vec<String>)
    ensures
        lines_of(r@) == styled_rows(line@, language@, code_width as nat, width as nat),
{
    if line.kind == DiffKind::Hunk {
        return diff_plain_chunks(line, code_width, width);
    }
    let highlighted_line = render_line(language, line.text.as_str());
    wrap_ansi_hard(highlighted_line.as_str(), larger(code_width, 1))
}

/// Highlighting moves no cut: a line takes as many rows with styles as
/// without.
pub proof fn highlighting_keeps_the_rows(
    line: LineModel,
    language: Seq<char>,
    code_width: nat,
    width: nat,
)
    ensures
        styled_rows(line, language, code_width, width).len() == plain_rows(
            line,
            code_width,
            width,
        ).len(),
{
    if line.kind != DiffKind::Hunk {
        let plain = sanitized(line.text);
        assert forall|i: int| 0 <= i < plain.len() implies !crate::text::control(
            #[trigger] plain[i],
        ) by {
            assert(!crate::text::control(' '));
        }
        highlighting_shows_the_line(language, plain);
        styles_do_not_move_the_cuts(highlighted(language, plain), at_least(code_width, 1));
        if plain.len() > 0 {
            chunks_count(plain, at_least(code_width, 1));
        }
    }
}

/// A text is cut into at most one piece for each character, and into one at
/// least where it is not empty.
proof fn chunks_count(s: Seq<char>, width: nat)
    ensures
        chunks(s, width).len() <= s.len(),
        s.len() > 0 ==> chunks(s, width).len() > 0,
    decreases s.len(),
{
    if s.len() > 0 {
        chunks_count(s.drop_last(), width);
    }
}

/// A line number in four columns; blank where there is none.
pub open spec fn line_number(n: Option<usize>) -> Seq<char> {
    match n {
        Some(n) => {
            let digits = decimal(n as nat);
            spaces(minus(4, digits.len())) + digits
        },
        None => "    "@,
    }
}

fn number_text(n: Option<usize>) -> (r: String)
    ensures
        r@ == line_number(n),
{
    match n {
        Some(n) => {
            let digits = count_of(n);
            let len: usize = chars_of(digits.as_str()).len();
            let four: usize = 4;
            let pad = repeat(' ', four.saturating_sub(len));
            cat2(pad.as_str(), digits.as_str())
        },
        None => "    ".to_owned(),
    }
}

/// The background and the text color of a changed line.
pub open spec fn change_tint(kind: DiffKind) -> Seq<char> {
    if kind == DiffKind::Added {
        "\x1b[48;2;30;64;39m"@ + "\x1b[38;2;215;236;217m"@
    } else {
        "\x1b[48;2;68;34;34m"@ + "\x1b[38;2;242;216;216m"@
    }
}

/// The sign of a changed line.
pub open spec fn change_sign(kind: DiffKind) -> Seq<char> {
    if kind == DiffKind::Added {
        "\x1b[1;38;5;114m"@ + "+"@ + "\x1b[0m"@
    } else {
        "\x1b[1;38;5;203m"@ + "-"@ + "\x1b[0m"@
    }
}

/// A row of a changed line: tinted over the whole width, with the numbers and
/// the sign on the first row.
pub open spec fn changed_row(line: LineModel, width: nat, index: int, piece: Seq<char>) -> Seq<
    char,
> {
    let tint = change_tint(line.kind);
    let body = replaced(piece, reset(), reset() + tint);
    if index == 0 {
        let inner = line_number(line.old_no) + " "@ + line_number(line.new_no) + " "@
            + change_sign(line.kind) + tint + " "@ + body;
        let used = visible_columns(inner);
        if used > width {
            fitted(inner, width)
        } else {
            tint + inner + spaces((width - used) as nat) + "\x1b[0m"@
        }
    } else {
        let inner = tint + spaces(DIFF_GUTTER_WIDTH as nat) + body;
        let used = DIFF_GUTTER_WIDTH + visible_columns(body);
        if used > width {
            fitted(inner, width)
        } else {
            inner + spaces((width - used) as nat) + "\x1b[0m"@
        }
    }
}

/// A row of a line: the `index`-th of its pieces.
pub open spec fn diff_row(line: LineModel, width: nat, index: int, piece: Seq<char>) -> Seq<char> {
    match line.kind {
        DiffKind::Hunk => fitted("\x1b[2;36m"@ + piece + "\x1b[0m"@, width),
        DiffKind::Context => if index == 0 {
            fitted(
                "\x1b[2m"@ + line_number(line.old_no) + " "@ + line_number(line.new_no) + "  "@
                    + "\x1b[0m"@ + " "@ + piece,
                width,
            )
        } else {
            fitted(spaces(DIFF_GUTTER_WIDTH as nat) + piece, width)
        },
        _ => changed_row(line, width, index, piece),
    }
}

fn render_changed_row(line: &DiffLine, width: usize, index: usize, piece: &str) -> (r: String)
    ensures
        r@ == changed_row(line@, width as nat, index as int, piece@),
{
    let added = line.kind == DiffKind::Added;
    let tint = if added {
        cat2("\x1b[48;2;30;64;39m", "\x1b[38;2;215;236;217m")
    } else {
        cat2("\x1b[48;2;68;34;34m", "\x1b[38;2;242;216;216m")
    };
    let sign = if added {
        cat3("\x1b[1;38;5;114m", "+", "\x1b[0m")
    } else {
        cat3("\x1b[1;38;5;203m", "-", "\x1b[0m")
    };
    let again = cat2("\x1b[0m", tint.as_str());
    proof {
        reveal_strlit("\x1b[0m");
    }
    let body = replace(piece, "\x1b[0m", again.as_str());
    if index == 0 {
        let old_no = number_text(line.old_no);
        let new_no = number_text(line.new_no);
        let inner = cat8(
            old_no.as_str(),
            " ",
            new_no.as_str(),
            " ",
            sign.as_str(),
            tint.as_str(),
            " ",
            body.as_str(),
        );
        let used: usize = visible_width(inner.as_str());
        if used > width {
            return fit_width(inner.as_str(), width);
        }
        let pad = repeat(' ', width - used);
        cat4(tint.as_str(), inner.as_str(), pad.as_str(), "\x1b[0m")
    } else {
        let gutter = repeat(' ', DIFF_GUTTER_WIDTH);
        let inner = cat3(tint.as_str(), gutter.as_str(), body.as_str());
        let used: usize = visible_width(body.as_str());
        if width < DIFF_GUTTER_WIDTH || used > width - DIFF_GUTTER_WIDTH {
            return fit_width(inner.as_str(), width);
        }
        let pad = repeat(' ', width - DIFF_GUTTER_WIDTH - used);
        cat3(inner.as_str(), pad.as_str(), "\x1b[0m")
    }
}

fn render_row(line: &DiffLine, width: usize, index: usize, piece: &str) -> (r: String)
    ensures
        r@ == diff_row(line@, width as nat, index as int, piece@),
{
    match line.kind {
        DiffKind::Hunk => fit_width(cat3("\x1b[2;36m", piece, "\x1b[0m").as_str(), width),
        DiffKind::Context => if index == 0 {
            let old_no = number_text(line.old_no);
            let new_no = number_text(line.new_no);
            let text = cat8(
                "\x1b[2m",
                old_no.as_str(),
                " ",
                new_no.as_str(),
                "  ",
                "\x1b[0m",
                " ",
                piece,
            );
            fit_width(text.as_str(), width)
        } else {
            let gutter = repeat(' ', DIFF_GUTTER_WIDTH);
            fit_width(cat2(gutter.as_str(), piece).as_str(), width)
        },
        _ => render_changed_row(line, width, index, piece),
    }
}

/// The rows of a line that is cut into pieces.
pub open spec fn rows_of_pieces(line: LineModel, width: nat, pieces: Seq<Seq<char>>) -> Seq<
    Seq<char>,
> {
    Seq::new(pieces.len(), |i: int| diff_row(line, width, i, pieces[i]))
}

/// Draws the pieces of a line from one up to another.
pub fn render_diff_chunks(
    line: &DiffLine,
    width: usize,
    pieces: &Vec<String>,
    from: usize,
    to: usize,
) -> (r: Vec<String>)
    requires
        from <= to <= pieces@.len(),
    ensures
        lines_of(r@) == rows_of_pieces(line@, width as nat, lines_of(pieces@)).subrange(
            from as int,
            to as int,
        ),
{
    let ghost all = rows_of_pieces(line@, width as nat, lines_of(pieces@));
    let mut r: Vec<String> = Vec::new();
    let mut i: usize = from;
    assert(lines_of(r@) =~= all.subrange(from as int, from as int));
    while i < to
        invariant
            from <= i <= to <= pieces@.len(),
            all == rows_of_pieces(line@, width as nat, lines_of(pieces@)),
            lines_of(r@) == all.subrange(from as int, i as int),
        decreases to - i,
    {
        let row = render_row(line, width, i, pieces[i].as_str());
        assert(row@ == all[i as int]);
        push_row(&mut r, row);
        i += 1;
        assert(lines_of(r@) =~= all.subrange(from as int, i as int));
    }
    r
}

/// The rows that a line takes on the screen.
pub open spec fn line_rows(
    line: LineModel,
    language: Seq<char>,
    code_width: nat,
    width: nat,
) -> Seq<Seq<char>> {
    rows_of_pieces(line, width, styled_rows(line, language, code_width, width))
}

pub fn render_diff_line(line: &DiffLine, language: &str, code_width: usize, width: usize) -> (r:
    Vec<String>)
    ensures
        lines_of(r@) == line_rows(line@, language@, code_width as nat, width as nat),
{
    let pieces = diff_styled_chunks(line, language, code_width, width);
    let n: usize = pieces.len();
    let r = render_diff_chunks(line, width, &pieces, 0, n);
    assert(lines_of(r@) =~= line_rows(line@, language@, code_width as nat, width as nat));
    r
}

// ---------------------------------------------------------------------------
// The pane

/// The rows that all lines of a diff take, one after the other.
pub open spec fn body_rows(
    lines: Seq<LineModel>,
    language: Seq<char>,
    code_width: nat,
    width: nat,
) -> Seq<Seq<char>>
    decreases lines.len(),
{
    if lines.len() == 0 {
        Seq::empty()
    } else {
        body_rows(lines.drop_last(), language, code_width, width) + line_rows(
            lines.last(),
            language,
            code_width,
            width,
        )
    }
}

/// The characters of a diff, counting one more for each line.
pub open spec fn text_size(lines: Seq<LineModel>) -> nat
    decreases lines.len(),
{
    if lines.len() == 0 {
        0
    } else {
        text_size(lines.drop_last()) + lines.last().text.len() + 1
    }
}

/// A diff whose rows can be counted, as those of every diff in memory can.
pub open spec fn countable(diff: DiffModel) -> bool {
    text_size(diff.lines) <= usize::MAX
}

proof fn rows_are_counted(
    lines: Seq<LineModel>,
    language: Seq<char>,
    code_width: nat,
    width: nat,
)
    ensures
        body_rows(lines, language, code_width, width).len() <= text_size(lines),
    decreases lines.len(),
{
    if lines.len() > 0 {
        rows_are_counted(lines.drop_last(), language, code_width, width);
        let line = lines.last();
        highlighting_keeps_the_rows(line, language, code_width, width);
        if line.kind == DiffKind::Hunk {
            reveal_strlit("…");
            chunks_count(line.text + "…"@, at_least(width, 1));
        } else {
            chunks_count(sanitized(line.text), at_least(code_width, 1));
        }
    }
}

proof fn text_size_grows(lines: Seq<LineModel>, n: int)
    requires
        0 <= n <= lines.len(),
    ensures
        text_size(lines.take(n)) <= text_size(lines),
    decreases lines.len(),
{
    if n < lines.len() {
        text_size_grows(lines.drop_last(), n);
        assert(lines.drop_last().take(n) =~= lines.take(n));
    } else {
        assert(lines.take(n) =~= lines);
    }
}

/// The rows of a list that are inside a window.
pub open spec fn window(rows: Seq<Seq<char>>, top: nat, height: nat) -> Seq<Seq<char>> {
    if top >= rows.len() {
        Seq::empty()
    } else if top + height < rows.len() {
        rows.subrange(top as int, (top + height) as int)
    } else {
        rows.skip(top as int)
    }
}

/// What the window shows of a list that grows: what it showed, and then rows
/// of the added part as long as there is room.
proof fn window_grows(a: Seq<Seq<char>>, b: Seq<Seq<char>>, top: nat, height: nat)
    ensures
        ({
            let start = if top > a.len() {
                (top - a.len()) as nat
            } else {
                0
            };
            let left = height - window(a, top, height).len();
            let end = if start >= b.len() {
                start as int
            } else if start + left < b.len() {
                start + left
            } else {
                b.len() as int
            };
            &&& left >= 0
            &&& window(a + b, top, height) == if start >= b.len() {
                window(a, top, height)
            } else {
                window(a, top, height) + b.subrange(start as int, end)
            }
        }),
{
    let start = if top > a.len() {
        (top - a.len()) as nat
    } else {
        0
    };
    let left = height - window(a, top, height).len();
    if start < b.len() {
        let end = if start + left < b.len() {
            start + left
        } else {
            b.len() as int
        };
        assert(window(a + b, top, height) =~= window(a, top, height) + b.subrange(
            start as int,
            end,
        ));
    } else {
        assert(window(a + b, top, height) =~= window(a, top, height));
    }
}

/// The rows of the pane that are left for lines: not the header, and not the
/// note that the diff is cut.
pub open spec fn body_height(diff: DiffModel, height: nat) -> nat {
    minus(
        height,
        if diff.truncated {
            2
        } else {
            1
        },
    )
}

/// The rows of all lines of a diff in a pane.
pub open spec fn all_rows(diff: DiffModel, width: nat) -> Seq<Seq<char>> {
    body_rows(diff.lines, language_of(diff.path), code_columns(width), width)
}

/// Whether the lines of a diff are shown.
pub open spec fn shows_lines(diff: DiffModel) -> bool {
    !diff.binary && (diff.lines.len() > 0 || diff.truncated)
}

/// The first row that is shown. A diff that was just opened begins near its
/// first change. The last row is never above the bottom of the pane where the
/// lines fill it.
pub open spec fn shown_from(diff: DiffModel, width: nat, height: nat) -> nat {
    let wanted = if diff.scroll == SCROLL_ANCHOR_PENDING {
        body_rows(
            diff.lines.take(first_shown(diff.lines)),
            language_of(diff.path),
            code_columns(width),
            width,
        ).len()
    } else {
        diff.scroll as nat
    };
    at_most(wanted, minus(all_rows(diff, width).len(), body_height(diff, height)))
}

/// What kind of diff the header names.
pub open spec fn diff_kind(diff: DiffModel) -> Seq<char> {
    if diff.commit is Some {
        "commit"@
    } else if diff.untracked {
        "untracked"@
    } else if diff.staged {
        "staged"@
    } else {
        "unstaged"@
    }
}

pub open spec fn pane_header(diff: DiffModel) -> Seq<char> {
    "\x1b[1m"@ + (if diff.commit is Some {
        "◉ "@
    } else {
        "✕ "@
    }) + sanitized(diff.path) + (" · "@ + diff_kind(diff)) + (" · +"@ + decimal(diff.added as nat))
        + (" −"@ + decimal(diff.removed as nat)) + " \x1b[2m(Esc close)\x1b[0m"@ + "\x1b[0m"@
}

/// The rows below the header.
pub open spec fn pane_body(diff: DiffModel, width: nat, height: nat) -> Seq<Seq<char>> {
    if diff.binary {
        seq![fitted("\x1b[2mBinary file, diff not shown.\x1b[0m"@, width)]
    } else if !shows_lines(diff) {
        seq![fitted("\x1b[2mNo content changes (mode change only?).\x1b[0m"@, width)]
    } else {
        window(all_rows(diff, width), shown_from(diff, width, height), body_height(diff, height))
    }
}

/// The pane: the header, the rows of the window, and a note on the last row
/// where the diff is cut.
pub open spec fn pane(diff: DiffModel, width: nat, height: nat) -> Seq<Seq<char>> {
    let rows = sized(
        seq![fitted(pane_header(diff), width)] + pane_body(diff, width, height),
        width,
        height,
    );
    if diff.truncated && height > 0 {
        rows.update(
            height - 1,
            fitted("\x1b[2m… diff truncated; counts are partial …\x1b[0m"@, width),
        )
    } else {
        rows
    }
}

fn render_header(diff: &LoadedDiff) -> (r: String)
    ensures
        r@ == pane_header(diff@),
{
    let commit = diff.commit.is_some();
    let kind = if commit {
        "commit"
    } else if diff.untracked {
        "untracked"
    } else if diff.staged {
        "staged"
    } else {
        "unstaged"
    };
    let mark = if commit {
        "◉ "
    } else {
        "✕ "
    };
    let path = sanitize_plain(diff.path.as_str());
    let kind_text = cat2(" · ", kind);
    let added = cat2(" · +", count_of(diff.added).as_str());
    let removed = cat2(" −", count_of(diff.removed).as_str());
    let r = cat8(
        "\x1b[1m",
        mark,
        path.as_str(),
        kind_text.as_str(),
        added.as_str(),
        removed.as_str(),
        " \x1b[2m(Esc close)\x1b[0m",
        "\x1b[0m",
    );
    r
}

/// The rows that the first lines of a diff take.
fn count_rows(lines: &Vec<DiffLine>, n: usize, language: &str, code_width: usize, width: usize) -> (r:
    usize)
    requires
        n <= lines@.len(),
        text_size(views(lines@)) <= usize::MAX,
    ensures
        r == body_rows(
            views(lines@).take(n as int),
            language@,
            code_width as nat,
            width as nat,
        ).len(),
{
    let ghost all = views(lines@);
    let mut r: usize = 0;
    let mut i: usize = 0;
    while i < n
        invariant
            i <= n <= lines@.len(),
            all == views(lines@),
            text_size(all) <= usize::MAX,
            r == body_rows(all.take(i as int), language@, code_width as nat, width as nat).len(),
        decreases n - i,
    {
        proof {
            assert(all.take(i + 1).drop_last() =~= all.take(i as int));
            assert(all.take(i + 1).last() == lines@[i as int]@);
            highlighting_keeps_the_rows(
                lines@[i as int]@,
                language@,
                code_width as nat,
                width as nat,
            );
            rows_are_counted(all.take(i + 1), language@, code_width as nat, width as nat);
            text_size_grows(all, i + 1);
        }
        let pieces = diff_plain_chunks(&lines[i], code_width, width);
        let k: usize = pieces.len();
        assert(lines_of(pieces@).len() == k);
        r = r + k;
        i += 1;
    }
    r
}

/// The rows of the window; see `window`.
fn render_window(
    lines: &Vec<DiffLine>,
    language: &str,
    code_width: usize,
    width: usize,
    top: usize,
    height: usize,
) -> (r: Vec<String>)
    requires
        text_size(views(lines@)) <= usize::MAX,
    ensures
        lines_of(r@) == window(
            body_rows(views(lines@), language@, code_width as nat, width as nat),
            top as nat,
            height as nat,
        ),
{
    let ghost all = views(lines@);
    let mut r: Vec<String> = Vec::new();
    let mut seen: usize = 0;
    let mut i: usize = 0;
    assert(lines_of(r@) =~= Seq::empty());
    while i < lines.len()
        invariant
            i <= lines@.len(),
            all == views(lines@),
            text_size(all) <= usize::MAX,
            seen == body_rows(all.take(i as int), language@, code_width as nat, width as nat).len(),
            lines_of(r@) == window(
                body_rows(all.take(i as int), language@, code_width as nat, width as nat),
                top as nat,
                height as nat,
            ),
        decreases lines@.len() - i,
    {
        let ghost before = body_rows(
            all.take(i as int),
            language@,
            code_width as nat,
            width as nat,
        );
        let ghost added = line_rows(
            lines@[i as int]@,
            language@,
            code_width as nat,
            width as nat,
        );
        proof {
            assert(all.take(i + 1).drop_last() =~= all.take(i as int));
            assert(all.take(i + 1).last() == lines@[i as int]@);
            highlighting_keeps_the_rows(
                lines@[i as int]@,
                language@,
                code_width as nat,
                width as nat,
            );
            rows_are_counted(all.take(i + 1), language@, code_width as nat, width as nat);
            text_size_grows(all, i + 1);
            window_grows(before, added, top as nat, height as nat);
        }
        let pieces = diff_plain_chunks(&lines[i], code_width, width);
        let k: usize = pieces.len();
        assert(lines_of(pieces@).len() == k);
        let shown: usize = r.len();
        assert(lines_of(r@).len() == shown);
        let left: usize = height - shown;
        let start: usize = top.saturating_sub(seen);
        if left > 0 && start < k {
            let styled = diff_styled_chunks(&lines[i], language, code_width, width);
            assert(lines_of(styled@).len() == styled@.len());
            let end: usize = if left < k - start {
                start + left
            } else {
                k
            };
            let more = render_diff_chunks(&lines[i], width, &styled, start, end);
            push_rows(&mut r, more);
        } else if start < k {
            assert(added.subrange(start as int, start as int) =~= Seq::empty());
            assert(window(before, top as nat, height as nat) + Seq::<Seq<char>>::empty() =~= window(
                before,
                top as nat,
                height as nat,
            ));
        }
        seen = seen + k;
        i += 1;
    }
    assert(all.take(i as int) =~= all);
    r
}

/// Draws the pane and brings the scroll position inside the diff.
pub fn render_diff_pane(diff: &mut LoadedDiff, width: usize, height: usize) -> (r: Vec<String>)
    requires
        countable(old(diff)@),
    ensures
        lines_of(r@) == pane(old(diff)@, width as nat, height as nat),
        final(diff)@ == (DiffModel {
            scroll: if shows_lines(old(diff)@) {
                shown_from(old(diff)@, width as nat, height as nat) as usize
            } else {
                old(diff)@.scroll
            },
            ..old(diff)@
        }),
        shows_lines(old(diff)@) ==> final(diff)@.scroll == shown_from(
            old(diff)@,
            width as nat,
            height as nat,
        ),
{
    let header = render_header(diff);
    let mut rows: Vec<String> = Vec::new();
    push_row(&mut rows, fit_width(header.as_str(), width));
    assert(lines_of(rows@) =~= seq![fitted(pane_header(diff@), width as nat)]);
    if diff.binary {
        push_row(
            &mut rows,
            fit_width("\x1b[2mBinary file, diff not shown.\x1b[0m", width),
        );
    } else if diff.lines.is_empty() && !diff.truncated {
        push_row(
            &mut rows,
            fit_width("\x1b[2mNo content changes (mode change only?).\x1b[0m", width),
        );
    } else {
        let language = language_for_path(diff.path.as_str());
        let taken: usize = if diff.truncated {
            2
        } else {
            1
        };
        let room: usize = height.saturating_sub(taken);
        let code_width: usize = larger(width.saturating_sub(DIFF_GUTTER_WIDTH), 8);
        let n: usize = diff.lines.len();
        let total: usize = count_rows(&diff.lines, n, language, code_width, width);
        assert(views(diff.lines@).take(n as int) =~= views(diff.lines@));
        let wanted: usize = if diff.scroll == SCROLL_ANCHOR_PENDING {
            let anchor: usize = first_change_scroll(&diff.lines);
            count_rows(&diff.lines, anchor, language, code_width, width)
        } else {
            diff.scroll
        };
        let top: usize = smaller(wanted, total.saturating_sub(room));
        let body = render_window(&diff.lines, language, code_width, width, top, room);
        diff.scroll = top;
        push_rows(&mut rows, body);
    }
    assert(lines_of(rows@) =~= seq![fitted(pane_header(old(diff)@), width as nat)] + pane_body(
        old(diff)@,
        width as nat,
        height as nat,
    ));
    size_rows(&mut rows, width, height);
    let n: usize = rows.len();
    assert(lines_of(rows@).len() == n);
    if diff.truncated && n > 0 {
        let note = fit_width("\x1b[2m… diff truncated; counts are partial …\x1b[0m", width);
        rows.set(n - 1, note);
    }
    assert(lines_of(rows@) =~= pane(old(diff)@, width as nat, height as nat));
    rows
}

// ---------------------------------------------------------------------------
// Laws

/// Scrolling stops at the bottom: drawing a diff brings its scroll position
/// inside it, where drawing it again leaves it.
pub proof fn scrolling_stops_at_the_bottom(diff: DiffModel, width: nat, height: nat)
    requires
        text_size(diff.lines) < usize::MAX,
    ensures
        ({
            let top = shown_from(diff, width, height);
            &&& top <= minus(all_rows(diff, width).len(), body_height(diff, height))
            &&& shown_from(DiffModel { scroll: top as usize, ..diff }, width, height) == top
        }),
{
    rows_are_counted(diff.lines, language_of(diff.path), code_columns(width), width);
}

/// The window is filled as long as there are rows for it.
pub proof fn window_is_filled(diff: DiffModel, width: nat, height: nat)
    requires
        shows_lines(diff),
    ensures
        pane_body(diff, width, height).len() == at_most(
            all_rows(diff, width).len(),
            body_height(diff, height),
        ),
{
}

} // verus!
