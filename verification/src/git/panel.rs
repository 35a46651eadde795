//! The panel of the dashboard: the message box, the changed files and the
//! history.

use vstd::prelude::*;
use crate::git::input::{history_start, history_top};
use crate::git::layout::{
    area_drawn, area_shown, area_start, button_columns, commit_button_width, commits_drawn,
    file_area_start, file_hits, files_needed, history_hits, history_row, laid_out,
    scrolled_into_view, shared_rows, view_rows, Screen,
};
use crate::git::view::{
    area_rows, file_area_rows, file_row, scrolled_to, Confirm, ConfirmModel, EntryModel, FileAreaRow, FileModel, GitFile,
    GitFocus, GitSection, GitView, HistoryEntry, StatusModel, ViewModel, CONFIRM_TOP, FIXED_ROWS,
    MENU_TOP,
};
use crate::markdown::{
    fit_width, fitted, lines_of, repeat, repeated, sanitize_plain, sanitized, spaces,
    truncate_visible, truncated, visible_columns, visible_width,
};
use crate::model::first_position_finds;
use crate::rows::{
    at_least, larger, minus, overlaid, overlay_rows, push_row, push_rows, size_rows,
    sized,
};
use crate::style::{
    foreground, foreground_color, hover_tint, hovered_row, painted, selected_row, selection,
    selection_style, UiColor,
};
use crate::text::{
    cat2, cat3, cat4, cat5, cat7, cat8, chars_of, count_of, decimal, string_of, sub_chars,
};

verus! {

broadcast use vstd::string::group_string_axioms;

/// The colors of the interface.
#[derive(Debug, Clone, Copy, PartialEq, Eq, Structural)]
pub struct Palette {
    pub accent: UiColor,
    pub selection: UiColor,
}

// ---------------------------------------------------------------------------
// Questions and menus

/// What a rename is called: both names with an arrow between them.
pub open spec fn rename_text(from: Option<Seq<char>>, arrow: Seq<char>, path: Seq<char>) -> Seq<
    char,
> {
    match from {
        Some(old_path) => old_path + arrow + path,
        None => path,
    }
}

fn rename(from: &Option<String>, arrow: &str, path: &str) -> (r: String)
    ensures
        r@ == rename_text(crate::model::option_view(*from), arrow@, path@),
{
    match from {
        Some(old_path) => cat3(old_path.as_str(), arrow, path),
        None => path.to_owned(),
    }
}

/// The question that names a destructive action.
pub open spec fn question(confirm: ConfirmModel) -> Seq<char> {
    match confirm {
        ConfirmModel::DiscardFile { path, renamed_from, untracked, staged } => {
            let name = sanitized(rename_text(renamed_from, " -> "@, path));
            if untracked {
                "Delete untracked "@ + name + "?"@
            } else if staged {
                "Discard staged and unstaged changes in "@ + name + "?"@
            } else {
                "Discard changes in "@ + name + "?"@
            }
        },
        ConfirmModel::DiscardAll => "Discard all unstaged changes?"@,
    }
}

pub fn confirm_message(confirm: &Confirm) -> (r: String)
    ensures
        r@ == question(confirm@),
{
    match confirm {
        Confirm::DiscardFile { path, renamed_from, untracked, staged } => {
            let name = sanitize_plain(rename(renamed_from, " -> ", path.as_str()).as_str());
            if *untracked {
                cat3("Delete untracked ", name.as_str(), "?")
            } else if *staged {
                cat3("Discard staged and unstaged changes in ", name.as_str(), "?")
            } else {
                cat3("Discard changes in ", name.as_str(), "?")
            }
        },
        Confirm::DiscardAll => "Discard all unstaged changes?".to_owned(),
    }
}

/// The label of an item of the menu of commit options.
pub open spec fn menu_label(index: int, amend: bool) -> Seq<char> {
    if index == 0 {
        "Commit"@
    } else if index == 1 {
        "Commit and Push"@
    } else if index == 2 {
        "Commit and Sync"@
    } else if amend {
        "Amend: on"@
    } else {
        "Amend: off"@
    }
}

pub open spec fn menu_description(index: int) -> Seq<char> {
    if index == 0 {
        "Commit staged changes"@
    } else if index == 1 {
        "Commit, then push"@
    } else if index == 2 {
        "Pull, commit, then push"@
    } else {
        "Toggle --amend"@
    }
}

/// The items of the menu: labels and descriptions.
pub fn commit_menu_items(amend: bool) -> (r: [(&'static str, &'static str); 4])
    ensures
        forall|i: int|
            0 <= i < 4 ==> (#[trigger] r@[i]).0@ == menu_label(i, amend) && r@[i].1@
                == menu_description(i),
{
    [
        ("Commit", "Commit staged changes"),
        ("Commit and Push", "Commit, then push"),
        ("Commit and Sync", "Pull, commit, then push"),
        (
            if amend {
                "Amend: on"
            } else {
                "Amend: off"
            },
            "Toggle --amend",
        ),
    ]
}

/// A line that begins with a text and is filled with dashes to a width.
pub open spec fn ruled(start: Seq<char>, width: nat, end: Seq<char>) -> Seq<char> {
    start + repeated('─', minus(width, visible_columns(start))) + end
}

pub(crate) fn rule(start: &str, width: usize, end: &str) -> (r: String)
    ensures
        r@ == ruled(start@, width as nat, end@),
{
    let used: usize = visible_width(start);
    let dashes = repeat('─', width.saturating_sub(used));
    cat3(start, dashes.as_str(), end)
}

/// The box that asks for the confirmation.
pub open spec fn confirm_box(confirm: ConfirmModel, width: nat) -> Seq<Seq<char>> {
    let inner = at_least(minus(width, 2), 6);
    seq![
        fitted(ruled("\x1b[2m╭─ Confirm "@, inner, "╮\x1b[0m"@), width),
        fitted(
            "│ "@ + truncated(sanitized(question(confirm)), at_least(minus(inner, 2), 8)),
            width,
        ),
        fitted("  \x1b[1;31m[Discard]\x1b[0m  \x1b[2m[Keep]\x1b[0m"@, width),
        fitted(ruled("\x1b[2m╰─ Enter confirm · Esc keep "@, inner, "╯\x1b[0m"@), width),
    ]
}

pub fn render_confirm_box(confirm: &Confirm, width: usize) -> (r: Vec<String>)
    ensures
        lines_of(r@) == confirm_box(confirm@, width as nat),
        r@.len() == 4,
{
    let inner: usize = larger(width.saturating_sub(2), 6);
    let top = rule("\x1b[2m╭─ Confirm ", inner, "╮\x1b[0m");
    let asked = sanitize_plain(confirm_message(confirm).as_str());
    let message = truncate_visible(asked.as_str(), larger(inner.saturating_sub(2), 8));
    let bottom = rule("\x1b[2m╰─ Enter confirm · Esc keep ", inner, "╯\x1b[0m");
    let mut rows: Vec<String> = Vec::new();
    rows.push(fit_width(top.as_str(), width));
    rows.push(fit_width(cat2("│ ", message.as_str()).as_str(), width));
    rows.push(fit_width("  \x1b[1;31m[Discard]\x1b[0m  \x1b[2m[Keep]\x1b[0m", width));
    rows.push(fit_width(bottom.as_str(), width));
    assert(lines_of(rows@) =~= confirm_box(confirm@, width as nat));
    rows
}

/// A row of the menu of commit options.
pub open spec fn menu_row(
    index: int,
    selected: usize,
    amend: bool,
    style: Seq<char>,
    width: nat,
) -> Seq<char> {
    let marker = if index == selected {
        "›"@
    } else {
        " "@
    };
    let row = fitted(
        fitted("│"@ + marker + " "@ + menu_label(index, amend), minus(width, 1)) + "│"@,
        width,
    );
    if index == selected {
        painted(row, style)
    } else {
        row
    }
}

/// The menu of commit options.
pub open spec fn commit_menu(selected: usize, amend: bool, style: Seq<char>, width: nat) -> Seq<
    Seq<char>,
> {
    let inner = at_least(minus(width, 2), 4);
    let title = "╭─ "@ + truncated("Commit options"@, minus(inner, 2));
    seq![
        fitted("\x1b[2m"@ + ruled(title, inner, "╮"@) + "\x1b[0m"@, width),
        menu_row(0, selected, amend, style, width),
        menu_row(1, selected, amend, style, width),
        menu_row(2, selected, amend, style, width),
        menu_row(3, selected, amend, style, width),
        fitted("\x1b[2m╰─ Enter run · Esc close ─╯\x1b[0m"@, width),
    ]
}

fn render_menu_row(index: usize, label: &str, selected: usize, style: &str, width: usize) -> (r:
    String)
    ensures
        forall|amend: bool|
            label@ == menu_label(index as int, amend) ==> r@ == #[trigger] menu_row(
                index as int,
                selected,
                amend,
                style@,
                width as nat,
            ),
{
    let marker = if index == selected {
        "›"
    } else {
        " "
    };
    let text = cat4("│", marker, " ", label);
    let inside = fit_width(text.as_str(), width.saturating_sub(1));
    let row = fit_width(cat2(inside.as_str(), "│").as_str(), width);
    if index == selected {
        selected_row(row.as_str(), style)
    } else {
        row
    }
}

pub fn render_commit_menu(selected: usize, amend: bool, style: &str, width: usize) -> (r: Vec<
    String,
>)
    ensures
        lines_of(r@) == commit_menu(selected, amend, style@, width as nat),
        r@.len() == 6,
{
    let inner: usize = larger(width.saturating_sub(2), 4);
    let shown = truncate_visible("Commit options", inner.saturating_sub(2));
    let title = cat2("╭─ ", shown.as_str());
    let top = rule(title.as_str(), inner, "╮");
    let items = commit_menu_items(amend);
    let mut rows: Vec<String> = Vec::new();
    rows.push(fit_width(cat3("\x1b[2m", top.as_str(), "\x1b[0m").as_str(), width));
    assert(items@[0].0@ == menu_label(0, amend));
    assert(items@[1].0@ == menu_label(1, amend));
    assert(items@[2].0@ == menu_label(2, amend));
    assert(items@[3].0@ == menu_label(3, amend));
    rows.push(render_menu_row(0, items[0].0, selected, style, width));
    rows.push(render_menu_row(1, items[1].0, selected, style, width));
    rows.push(render_menu_row(2, items[2].0, selected, style, width));
    rows.push(render_menu_row(3, items[3].0, selected, style, width));
    rows.push(fit_width("\x1b[2m╰─ Enter run · Esc close ─╯\x1b[0m", width));
    assert(rows@[1]@ == menu_row(0, selected, amend, style@, width as nat));
    assert(rows@[2]@ == menu_row(1, selected, amend, style@, width as nat));
    assert(rows@[3]@ == menu_row(2, selected, amend, style@, width as nat));
    assert(rows@[4]@ == menu_row(3, selected, amend, style@, width as nat));
    assert(lines_of(rows@) =~= commit_menu(selected, amend, style@, width as nat));
    rows
}

// ---------------------------------------------------------------------------
// The message box

/// The part of the message that is shown: all of it where it fits, else the
/// characters before the cursor.
pub open spec fn visible_part(commit: Seq<char>, cursor: usize, width: nat) -> Seq<char> {
    let room = at_least(width, 1);
    if commit.len() <= room {
        commit
    } else {
        let end = if cursor < commit.len() {
            cursor as nat
        } else {
            commit.len()
        };
        commit.subrange(minus(end, room) as int, end as int)
    }
}

pub fn commit_visible_text(commit: &str, cursor: usize, width: usize) -> (r: String)
    ensures
        r@ == visible_part(commit@, cursor, width as nat),
{
    let chars = chars_of(commit);
    let room: usize = larger(width, 1);
    let n: usize = chars.len();
    if n <= room {
        return commit.to_owned();
    }
    let end: usize = if cursor < n {
        cursor
    } else {
        n
    };
    string_of(&sub_chars(&chars, end.saturating_sub(room), end))
}

/// The place of the cursor in the shown part of the message.
pub open spec fn shown_cursor(commit: Seq<char>, cursor: usize, width: nat) -> nat {
    if commit.len() <= width {
        if cursor < commit.len() {
            cursor as nat
        } else {
            commit.len()
        }
    } else {
        visible_part(commit, cursor, width).len()
    }
}

/// Where the cursor of the message box stands, counted from one: behind the
/// divider, the border, the prompt and the shown text.
pub open spec fn cursor_position(
    divider: nat,
    commit_row: nat,
    commit: Seq<char>,
    cursor: usize,
    inner_width: nat,
    columns: nat,
) -> (nat, nat) {
    let column = divider + 5 + shown_cursor(commit, cursor, at_least(inner_width, 1));
    (
        commit_row + 1,
        if column < minus(columns, 1) {
            column
        } else {
            minus(columns, 1)
        },
    )
}

pub fn commit_cursor_position(
    divider: usize,
    commit_row: usize,
    commit: &str,
    cursor: usize,
    inner_width: usize,
    columns: usize,
) -> (r: (usize, usize))
    requires
        commit_row < usize::MAX,
    ensures
        (r.0 as nat, r.1 as nat) == cursor_position(
            divider as nat,
            commit_row as nat,
            commit@,
            cursor,
            inner_width as nat,
            columns as nat,
        ),
{
    let width: usize = larger(inner_width, 1);
    let n: usize = chars_of(commit).len();
    let shown: usize = if n <= width {
        if cursor < n {
            cursor
        } else {
            n
        }
    } else {
        chars_of(commit_visible_text(commit, cursor, width).as_str()).len()
    };
    let column: usize = divider.saturating_add(5).saturating_add(shown);
    let last: usize = columns.saturating_sub(1);
    (
        commit_row + 1,
        if column < last {
            column
        } else {
            last
        },
    )
}

/// How far the branch is from its upstream.
pub open spec fn distance(ahead: usize, behind: usize) -> Seq<char> {
    if ahead == 0 && behind == 0 {
        Seq::empty()
    } else if behind == 0 {
        " ↑"@ + decimal(ahead as nat)
    } else if ahead == 0 {
        " ↓"@ + decimal(behind as nat)
    } else {
        " ↑"@ + decimal(ahead as nat) + "↓"@ + decimal(behind as nat)
    }
}

fn distance_text(ahead: usize, behind: usize) -> (r: String)
    ensures
        r@ == distance(ahead, behind),
{
    if ahead == 0 && behind == 0 {
        String::new()
    } else if behind == 0 {
        cat2(" ↑", count_of(ahead).as_str())
    } else if ahead == 0 {
        cat2(" ↓", count_of(behind).as_str())
    } else {
        cat4(" ↑", count_of(ahead).as_str(), "↓", count_of(behind).as_str())
    }
}

pub open spec fn title_row(v: ViewModel, p: Palette) -> Seq<char> {
    foreground(p.accent) + "\x1b[1mCHANGES\x1b[0m \x1b[2m▾ "@ + sanitized(v.status.branch)
        + distance(v.status.ahead, v.status.behind)
}

fn render_title(view: &GitView, p: Palette) -> (r: String)
    ensures
        r@ == title_row(view@, p),
{
    cat4(
        foreground_color(p.accent).as_str(),
        "\x1b[1mCHANGES\x1b[0m \x1b[2m▾ ",
        sanitize_plain(view.status.branch.as_str()).as_str(),
        distance_text(view.status.ahead, view.status.behind).as_str(),
    )
}

/// The color of the border of the message box: the accent while it is edited.
pub open spec fn border(v: ViewModel, p: Palette) -> Seq<char> {
    if v.focus == GitFocus::Commit {
        foreground(p.accent)
    } else {
        "\x1b[2m"@
    }
}

/// Whether the title of the message box has room to say that the commit will
/// be amended.
pub open spec fn tagged(v: ViewModel, width: nat) -> bool {
    v.amend && width >= 22
}

pub open spec fn box_top(v: ViewModel, p: Palette, width: nat) -> Seq<char> {
    let title = if tagged(v, width) {
        "Message (amend)"@
    } else {
        "Message"@
    };
    let letters: nat = if tagged(v, width) {
        15
    } else {
        7
    };
    border(v, p) + "╭─ \x1b[1m"@ + title + "\x1b[0m"@ + border(v, p) + " "@ + repeated(
        '─',
        minus(width, letters + 5),
    ) + "╮\x1b[0m"@
}

fn render_border(view: &GitView, p: Palette) -> (r: String)
    ensures
        r@ == border(view@, p),
{
    if view.focus == GitFocus::Commit {
        foreground_color(p.accent)
    } else {
        "\x1b[2m".to_owned()
    }
}

fn render_box_top(view: &GitView, p: Palette, width: usize) -> (r: String)
    ensures
        r@ == box_top(view@, p, width as nat),
{
    let tag = view.amend && width >= 22;
    let title = if tag {
        "Message (amend)"
    } else {
        "Message"
    };
    let letters: usize = if tag {
        15
    } else {
        7
    };
    let frame = render_border(view, p);
    let dashes = repeat('─', width.saturating_sub(letters + 5));
    cat8(
        frame.as_str(),
        "╭─ \x1b[1m",
        title,
        "\x1b[0m",
        frame.as_str(),
        " ",
        dashes.as_str(),
        "╮\x1b[0m",
    )
}

/// What the message box holds.
pub open spec fn box_text(v: ViewModel, width: nat) -> Seq<char> {
    if v.commit.len() == 0 {
        if v.focus == GitFocus::Commit {
            "\x1b[2mType a message · Enter to commit…\x1b[0m"@
        } else {
            "\x1b[2mMessage (e to edit)…\x1b[0m"@
        }
    } else {
        sanitized(visible_part(v.commit, v.commit_cursor, width))
    }
}

pub open spec fn box_input(v: ViewModel, p: Palette, width: nat) -> Seq<char> {
    let room = at_least(minus(width, 4), 1);
    let prompt = if v.focus == GitFocus::Commit {
        foreground(p.accent) + "> \x1b[0m"@
    } else {
        "> "@
    };
    border(v, p) + "│\x1b[0m"@ + fitted(
        prompt + fitted(box_text(v, room), room),
        minus(width, 2),
    ) + border(v, p) + "│\x1b[0m"@
}

fn render_box_text(view: &GitView, width: usize) -> (r: String)
    ensures
        r@ == box_text(view@, width as nat),
{
    let n: usize = chars_of(view.commit.as_str()).len();
    if n == 0 {
        if view.focus == GitFocus::Commit {
            "\x1b[2mType a message · Enter to commit…\x1b[0m".to_owned()
        } else {
            "\x1b[2mMessage (e to edit)…\x1b[0m".to_owned()
        }
    } else {
        let part = commit_visible_text(view.commit.as_str(), view.commit_cursor, width);
        sanitize_plain(part.as_str())
    }
}

fn render_box_input(view: &GitView, p: Palette, width: usize) -> (r: String)
    ensures
        r@ == box_input(view@, p, width as nat),
{
    let room: usize = larger(width.saturating_sub(4), 1);
    let text = render_box_text(view, room);
    let prompt = if view.focus == GitFocus::Commit {
        cat2(foreground_color(p.accent).as_str(), "> \x1b[0m")
    } else {
        "> ".to_owned()
    };
    let inside = cat2(prompt.as_str(), fit_width(text.as_str(), room).as_str());
    let body = fit_width(inside.as_str(), width.saturating_sub(2));
    let frame = render_border(view, p);
    cat5(frame.as_str(), "│\x1b[0m", body.as_str(), frame.as_str(), "│\x1b[0m")
}

pub open spec fn box_bottom(v: ViewModel, p: Palette, width: nat) -> Seq<char> {
    border(v, p) + "╰"@ + repeated('─', at_least(minus(width, 2), 2)) + "╯\x1b[0m"@
}

pub open spec fn button_row(v: ViewModel, width: nat) -> Seq<char> {
    let label = if v.amend {
        "\x1b[1m✓ Commit (amend)\x1b[0m"@
    } else {
        "\x1b[1m✓ Commit\x1b[0m"@
    };
    fitted(label, button_columns(width)) + "\x1b[2m│ ∨ (v)\x1b[0m"@
}

/// The upstream, and how many files are changed.
pub open spec fn summary_row(v: ViewModel) -> Seq<char> {
    "\x1b[2m"@ + sanitized(
        match v.status.upstream {
            Some(upstream) => upstream,
            None => "no upstream"@,
        },
    ) + " · "@ + decimal(v.status.staged.len()) + " staged · "@ + decimal(
        v.status.unstaged.len() + v.status.untracked.len(),
    ) + " unstaged\x1b[0m"@
}

pub open spec fn notice_row(v: ViewModel) -> Seq<char> {
    if v.notice.len() == 0 {
        ""@
    } else if v.notice_error {
        "\x1b[1;31m"@ + sanitized(v.notice) + "\x1b[0m"@
    } else {
        "\x1b[2m"@ + sanitized(v.notice) + "\x1b[0m"@
    }
}

fn render_summary(view: &GitView) -> (r: String)
    requires
        view.status.countable(),
    ensures
        r@ == summary_row(view@),
{
    let upstream = match &view.status.upstream {
        Some(upstream) => sanitize_plain(upstream.as_str()),
        None => sanitize_plain("no upstream"),
    };
    let staged: usize = view.status.staged.len();
    let unstaged: usize = view.status.unstaged.len() + view.status.untracked.len();
    cat7(
        "\x1b[2m",
        upstream.as_str(),
        " · ",
        count_of(staged).as_str(),
        " staged · ",
        count_of(unstaged).as_str(),
        " unstaged\x1b[0m",
    )
}

fn render_notice(view: &GitView) -> (r: String)
    ensures
        r@ == notice_row(view@),
{
    let n: usize = chars_of(view.notice.as_str()).len();
    let text = sanitize_plain(view.notice.as_str());
    if n == 0 {
        "".to_owned()
    } else if view.notice_error {
        cat3("\x1b[1;31m", text.as_str(), "\x1b[0m")
    } else {
        cat3("\x1b[2m", text.as_str(), "\x1b[0m")
    }
}

/// The rows above the files.
pub open spec fn fixed_rows(v: ViewModel, p: Palette, width: nat) -> Seq<Seq<char>> {
    seq![
        fitted(title_row(v, p), width),
        fitted(box_top(v, p, width), width),
        fitted(box_input(v, p, width), width),
        fitted(box_bottom(v, p, width), width),
        fitted(button_row(v, width), width),
        fitted(summary_row(v), width),
        fitted(notice_row(v), width),
        fitted(""@, width),
    ]
}

fn render_fixed(view: &GitView, p: Palette, width: usize) -> (r: Vec<String>)
    requires
        view.status.countable(),
    ensures
        lines_of(r@) == fixed_rows(view@, p, width as nat),
{
    let dashes = repeat('─', larger(width.saturating_sub(2), 2));
    let bottom = cat4(
        render_border(view, p).as_str(),
        "╰",
        dashes.as_str(),
        "╯\x1b[0m",
    );
    let label = if view.amend {
        "\x1b[1m✓ Commit (amend)\x1b[0m"
    } else {
        "\x1b[1m✓ Commit\x1b[0m"
    };
    let button = cat2(
        fit_width(label, commit_button_width(width)).as_str(),
        "\x1b[2m│ ∨ (v)\x1b[0m",
    );
    let mut rows: Vec<String> = Vec::new();
    rows.push(fit_width(render_title(view, p).as_str(), width));
    rows.push(fit_width(render_box_top(view, p, width).as_str(), width));
    rows.push(fit_width(render_box_input(view, p, width).as_str(), width));
    rows.push(fit_width(bottom.as_str(), width));
    rows.push(fit_width(button.as_str(), width));
    rows.push(fit_width(render_summary(view).as_str(), width));
    rows.push(fit_width(render_notice(view).as_str(), width));
    rows.push(fit_width("", width));
    assert(lines_of(rows@) =~= fixed_rows(view@, p, width as nat));
    rows
}

// ---------------------------------------------------------------------------
// The files

/// The columns of the actions at the end of a file row: undo on the left and
/// staging on the right, with room between them.
pub const ACTION_CELL_WIDTH: usize = 6;

/// The sign of the staging action of a file.
pub open spec fn action_sign(section: GitSection) -> char {
    if section == GitSection::Staged {
        '-'
    } else {
        '+'
    }
}

pub fn row_action(file: &GitFile) -> (r: char)
    ensures
        r == action_sign(file@.section),
{
    match file.section {
        GitSection::Staged => '-',
        GitSection::Unstaged => '+',
        GitSection::Untracked => '+',
    }
}

/// The actions of a file row. In a selected row the sign keeps the color of
/// the row, so that it stays readable on it.
pub open spec fn action_cell(sign: char, selected: bool) -> Seq<char> {
    "  \x1b[2m↩\x1b[0m  "@ + (if selected {
        ""@
    } else if sign == '+' {
        "\x1b[38;2;139;213;162m"@
    } else {
        "\x1b[38;2;232;202;118m"@
    }) + "\x1b[1m"@ + seq![sign] + "\x1b[0m"@
}

fn one(c: char) -> (r: String)
    ensures
        r@ == seq![c],
{
    let mut r: String = String::new();
    r.push(c);
    assert(r@ =~= seq![c]);
    r
}

pub fn action_cell_text(glyph: char, selected: bool) -> (r: String)
    ensures
        r@ == action_cell(glyph, selected),
{
    let color = if selected {
        ""
    } else if glyph == '+' {
        "\x1b[38;2;139;213;162m"
    } else {
        "\x1b[38;2;232;202;118m"
    };
    cat5("  \x1b[2m↩\x1b[0m  ", color, "\x1b[1m", one(glyph).as_str(), "\x1b[0m")
}

/// Whether a row of the file area is the selected one. No file is while the
/// message is edited or a commit is shown.
pub open spec fn file_selected(v: ViewModel, index: usize) -> bool {
    index == v.selected && v.focus != GitFocus::Commit && !(v.diff is Some
        && v.diff->Some_0.commit is Some)
}

pub open spec fn file_text(file: FileModel, selected: bool, width: nat) -> Seq<char> {
    let prefix = (if selected {
        "›"@
    } else {
        " "@
    }) + " "@ + seq![file.label()] + " "@;
    let room = at_least(
        minus(minus(width, visible_columns(prefix)), ACTION_CELL_WIDTH as nat),
        1,
    );
    let name = truncated(sanitized(rename_text(file.renamed_from, " → "@, file.path)), room);
    prefix + name + spaces(minus(room, visible_columns(name))) + action_cell(
        action_sign(file.section),
        selected,
    )
}

/// A row in the style of a selected or a hovered one, or as it is.
pub open spec fn row_style(row: Seq<char>, selected: bool, hovered: bool, color: UiColor) -> Seq<
    char,
> {
    if selected {
        painted(row, selection(color))
    } else if hovered {
        painted(row, selection(hover_tint(color)))
    } else {
        row
    }
}

fn style_row(row: String, selected: bool, hovered: bool, color: UiColor) -> (r: String)
    ensures
        r@ == row_style(row@, selected, hovered, color),
{
    if selected {
        selected_row(row.as_str(), selection_style(color).as_str())
    } else if hovered {
        hovered_row(row.as_str(), color)
    } else {
        row
    }
}

pub open spec fn file_line(v: ViewModel, p: Palette, index: usize, width: nat) -> Seq<char> {
    let selected = file_selected(v, index);
    row_style(
        fitted(file_text(v.flat[index as int], selected, width), width),
        selected,
        v.hovered_file() == Some(index),
        p.selection,
    )
}

/// The files that a heading counts.
pub open spec fn section_size(status: StatusModel, section: GitSection) -> nat {
    match section {
        GitSection::Staged => status.staged.len(),
        GitSection::Unstaged => status.unstaged.len() + status.untracked.len(),
        GitSection::Untracked => status.untracked.len(),
    }
}

pub open spec fn heading_line(v: ViewModel, section: GitSection, width: nat) -> Seq<char> {
    let title = "\x1b[1m"@ + section.heading() + " ("@ + decimal(section_size(v.status, section))
        + ")\x1b[0m"@;
    if section == GitSection::Unstaged {
        fitted(title, minus(width, 3)) + "\x1b[1m  +\x1b[0m"@
    } else {
        fitted(title, width)
    }
}

pub open spec fn area_line(v: ViewModel, p: Palette, row: FileAreaRow, width: nat) -> Seq<char> {
    match row {
        FileAreaRow::Header(section) => heading_line(v, section, width),
        FileAreaRow::File(index) => file_line(v, p, index, width),
    }
}

/// Whether every file of the status has a row to show it.
pub open spec fn listed(v: ViewModel) -> bool {
    v.status.all().len() <= v.flat.len() && v.status.all().len() < usize::MAX
}

fn render_heading(view: &GitView, section: GitSection, width: usize) -> (r: String)
    requires
        listed(view@),
    ensures
        r@ == heading_line(view@, section, width as nat),
{
    let count: usize = match section {
        GitSection::Staged => view.status.staged.len(),
        GitSection::Unstaged => view.status.unstaged.len() + view.status.untracked.len(),
        GitSection::Untracked => view.status.untracked.len(),
    };
    let title = cat5(
        "\x1b[1m",
        section.title(),
        " (",
        count_of(count).as_str(),
        ")\x1b[0m",
    );
    if section == GitSection::Unstaged {
        cat2(fit_width(title.as_str(), width.saturating_sub(3)).as_str(), "\x1b[1m  +\x1b[0m")
    } else {
        fit_width(title.as_str(), width)
    }
}

fn render_file_text(file: &GitFile, selected: bool, width: usize) -> (r: String)
    ensures
        r@ == file_text(file@, selected, width as nat),
{
    let marker = if selected {
        "›"
    } else {
        " "
    };
    let prefix = cat4(marker, " ", one(file.status_label()).as_str(), " ");
    let used: usize = visible_width(prefix.as_str());
    let room: usize = larger(
        width.saturating_sub(used).saturating_sub(ACTION_CELL_WIDTH),
        1,
    );
    let full = sanitize_plain(rename(&file.renamed_from, " → ", file.path.as_str()).as_str());
    let name = truncate_visible(full.as_str(), room);
    let name_width: usize = visible_width(name.as_str());
    let pad = repeat(' ', room.saturating_sub(name_width));
    let cell = action_cell_text(row_action(file), selected);
    cat4(prefix.as_str(), name.as_str(), pad.as_str(), cell.as_str())
}

fn is_hovered(hovered: Option<usize>, index: usize) -> (r: bool)
    ensures
        r == (hovered == Some(index)),
{
    match hovered {
        Some(i) => i == index,
        None => false,
    }
}

fn render_file(view: &GitView, p: Palette, hovered: Option<usize>, index: usize, width: usize) -> (r:
    String)
    requires
        index < view.flat@.len(),
        hovered == view@.hovered_file(),
    ensures
        r@ == file_line(view@, p, index, width as nat),
{
    let commit_open = match &view.diff {
        Some(diff) => diff.commit.is_some(),
        None => false,
    };
    let selected = index == view.selected && view.focus != GitFocus::Commit && !commit_open;
    assert(view@.flat[index as int] == view.flat@[index as int]@);
    let text = render_file_text(&view.flat[index], selected, width);
    style_row(
        fit_width(text.as_str(), width),
        selected,
        is_hovered(hovered, index),
        p.selection,
    )
}

/// The rows of the file area that are shown.
pub open spec fn area_lines(v: ViewModel, p: Palette, width: nat, capacity: nat) -> Seq<
    Seq<char>,
> {
    if v.status.clean() {
        seq![
            fitted("\x1b[2mWorking tree clean.\x1b[0m"@, width),
            fitted("\x1b[2mStage files with git add outside, then press r.\x1b[0m"@, width),
        ]
    } else {
        area_shown(v, capacity).map_values(|row: FileAreaRow| area_line(v, p, row, width))
    }
}

fn render_area(view: &GitView, p: Palette, width: usize, capacity: usize) -> (r: Vec<String>)
    requires
        listed(view@),
    ensures
        lines_of(r@) == area_lines(view@, p, width as nat, capacity as nat),
{
    let mut r: Vec<String> = Vec::new();
    if view.status.is_clean() {
        r.push(fit_width("\x1b[2mWorking tree clean.\x1b[0m", width));
        r.push(
            fit_width("\x1b[2mStage files with git add outside, then press r.\x1b[0m", width),
        );
        assert(lines_of(r@) =~= area_lines(view@, p, width as nat, capacity as nat));
        return r;
    }
    let hovered = view.hovered_file();
    let rows = file_area_rows(view);
    let start: usize = file_area_start(view, &rows, capacity);
    let total: usize = rows.len();
    let end: usize = if capacity < total - start {
        start + capacity
    } else {
        total
    };
    let ghost shown = area_shown(view@, capacity as nat);
    let ghost all = shown.map_values(|row: FileAreaRow| area_line(view@, p, row, width as nat));
    assert(rows@.subrange(start as int, end as int) =~= shown);
    let mut i: usize = start;
    assert(lines_of(r@) =~= all.take(0));
    while i < end
        invariant
            start <= i <= end <= rows@.len(),
            rows@ == area_rows(view@.status),
            rows@.subrange(start as int, end as int) == shown,
            all == shown.map_values(|row: FileAreaRow| area_line(view@, p, row, width as nat)),
            listed(view@),
            hovered == view@.hovered_file(),
            lines_of(r@) == all.take(i - start),
        decreases end - i,
    {
        let ghost at = i - start;
        assert(shown[at] == rows@[i as int]);
        assert(all[at] == area_line(view@, p, rows@[i as int], width as nat));
        let row = match rows[i] {
            FileAreaRow::Header(section) => render_heading(view, section, width),
            FileAreaRow::File(index) => {
                proof {
                    files_are_numbered(view@.status, i as int);
                }
                let n: usize = view.flat.len();
                assert(view@.flat.len() == n);
                render_file(view, p, hovered, index, width)
            },
        };
        push_row(&mut r, row);
        i += 1;
        assert(lines_of(r@) =~= all.take(i - start));
    }
    assert(all.take(end - start) =~= all);
    r
}

/// The file rows name files of the status.
pub proof fn files_are_numbered(status: StatusModel, row: int)
    requires
        0 <= row < area_rows(status).len(),
        status.all().len() < usize::MAX,
    ensures
        match area_rows(status)[row] {
            FileAreaRow::File(index) => index < status.all().len(),
            FileAreaRow::Header(_) => true,
        },
{
}

// ---------------------------------------------------------------------------
// The history

/// Whether the diff of a commit is open and scrolled.
pub open spec fn commit_shown(v: ViewModel, hash: Seq<char>) -> bool {
    v.focus == GitFocus::Diff && v.diff is Some && v.diff->Some_0.commit == Some(hash)
}

pub open spec fn commit_selected(v: ViewModel, index: int) -> bool {
    (index == v.history_selected && v.focus == GitFocus::History) || commit_shown(
        v,
        v.history[index].hash,
    )
}

pub open spec fn commit_text(entry: EntryModel, accent: UiColor, selected: bool, width: nat) -> Seq<
    char,
> {
    (if selected {
        "›"@
    } else {
        " "@
    }) + " "@ + foreground(accent) + "●\x1b[0m "@ + sanitized(entry.short) + " "@ + truncated(
        sanitized(entry.subject),
        at_least(minus(width, 12), 8),
    )
}

pub open spec fn commit_line(v: ViewModel, p: Palette, index: int, width: nat) -> Seq<char> {
    let selected = commit_selected(v, index);
    row_style(
        fitted(commit_text(v.history[index], p.accent, selected, width), width),
        selected,
        v.hovered_history() == Some(index as usize),
        p.selection,
    )
}

/// The commits that are shown.
pub open spec fn commit_lines(v: ViewModel, p: Palette, width: nat, visible: nat) -> Seq<
    Seq<char>,
> {
    let top = history_start(v, visible) as int;
    let n = if top >= v.history.len() {
        0
    } else if visible < v.history.len() - top {
        visible as int
    } else {
        v.history.len() - top
    };
    Seq::new(n as nat, |i: int| commit_line(v, p, top + i, width))
}

/// The commit whose details are shown: the hovered one, or else the selected
/// one.
pub open spec fn detailed(v: ViewModel) -> Option<EntryModel> {
    match v.hovered_history() {
        Some(index) if index < v.history.len() => Some(v.history[index as int]),
        _ => if v.history_selected < v.history.len() {
            Some(v.history[v.history_selected as int])
        } else {
            None
        },
    }
}

pub open spec fn detail_text(entry: EntryModel) -> Seq<char> {
    let about = sanitized(entry.short + " · "@ + entry.author + " · "@ + entry.date);
    if entry.refs.len() == 0 {
        about
    } else {
        about + (" · "@ + sanitized(entry.refs))
    }
}

pub open spec fn detail_lines(v: ViewModel, width: nat) -> Seq<Seq<char>> {
    match detailed(v) {
        Some(entry) => seq![
            fitted("◉ "@ + sanitized(entry.subject), width),
            fitted("\x1b[2m"@ + detail_text(entry) + "\x1b[0m"@, width),
        ],
        None => seq![fitted("\x1b[2mNo history yet.\x1b[0m"@, width), fitted(""@, width)],
    }
}

pub open spec fn history_heading(v: ViewModel) -> Seq<char> {
    "\x1b[1m"@ + (if v.history_has_more {
        "HISTORY ("@ + decimal(v.history.len()) + "+)"@
    } else {
        "HISTORY ("@ + decimal(v.history.len()) + ")"@
    }) + "\x1b[0m"@
}

/// The history section: a heading, the shown commits, and the details of one.
pub open spec fn history_section(v: ViewModel, p: Palette, width: nat, visible: nat) -> Seq<
    Seq<char>,
> {
    let heading = seq![fitted(history_heading(v), width)];
    if v.history.len() == 0 {
        heading + seq![fitted("\x1b[2mNo commits yet.\x1b[0m"@, width)]
    } else {
        heading + commit_lines(v, p, width, visible) + detail_lines(v, width)
    }
}

fn is_commit_shown(view: &GitView, hash: &String) -> (r: bool)
    ensures
        r == commit_shown(view@, hash@),
{
    if view.focus != GitFocus::Diff {
        return false;
    }
    match &view.diff {
        Some(diff) => match &diff.commit {
            Some(commit) => *commit == *hash,
            None => false,
        },
        None => false,
    }
}

fn render_commit(view: &GitView, p: Palette, hovered: Option<usize>, index: usize, width: usize) -> (r:
    String)
    requires
        index < view.history@.len(),
        hovered == view@.hovered_history(),
    ensures
        r@ == commit_line(view@, p, index as int, width as nat),
{
    let entry = &view.history[index];
    assert(view@.history[index as int] == entry@);
    let selected = (index == view.history_selected && view.focus == GitFocus::History)
        || is_commit_shown(view, &entry.hash);
    let marker = if selected {
        "›"
    } else {
        " "
    };
    let subject = truncate_visible(
        sanitize_plain(entry.subject.as_str()).as_str(),
        larger(width.saturating_sub(12), 8),
    );
    let text = cat7(
        marker,
        " ",
        foreground_color(p.accent).as_str(),
        "●\x1b[0m ",
        sanitize_plain(entry.short.as_str()).as_str(),
        " ",
        subject.as_str(),
    );
    style_row(
        fit_width(text.as_str(), width),
        selected,
        is_hovered(hovered, index),
        p.selection,
    )
}

fn render_commits(view: &GitView, p: Palette, width: usize, visible: usize) -> (r: Vec<String>)
    ensures
        lines_of(r@) == commit_lines(view@, p, width as nat, visible as nat),
{
    let hovered = view.hovered_history();
    let top: usize = history_top(view, visible);
    let total: usize = view.history.len();
    let n: usize = if top >= total {
        0
    } else if visible < total - top {
        visible
    } else {
        total - top
    };
    let ghost all = commit_lines(view@, p, width as nat, visible as nat);
    let mut r: Vec<String> = Vec::new();
    let mut i: usize = 0;
    assert(lines_of(r@) =~= all.take(0));
    while i < n
        invariant
            i <= n,
            n == all.len(),
            top + n <= total || n == 0,
            total == view.history@.len(),
            top == history_start(view@, visible as nat),
            all == commit_lines(view@, p, width as nat, visible as nat),
            hovered == view@.hovered_history(),
            lines_of(r@) == all.take(i as int),
        decreases n - i,
    {
        push_row(&mut r, render_commit(view, p, hovered, top + i, width));
        i += 1;
        assert(lines_of(r@) =~= all.take(i as int));
    }
    assert(all.take(n as int) =~= all);
    r
}

fn render_detail_text(entry: &HistoryEntry) -> (r: String)
    ensures
        r@ == detail_text(entry@),
{
    let about = cat5(
        entry.short.as_str(),
        " · ",
        entry.author.as_str(),
        " · ",
        entry.date.as_str(),
    );
    let clean = sanitize_plain(about.as_str());
    let n: usize = chars_of(entry.refs.as_str()).len();
    if n == 0 {
        clean
    } else {
        let refs = cat2(" · ", sanitize_plain(entry.refs.as_str()).as_str());
        cat2(clean.as_str(), refs.as_str())
    }
}

fn render_details(view: &GitView, width: usize) -> (r: Vec<String>)
    ensures
        lines_of(r@) == detail_lines(view@, width as nat),
{
    let total: usize = view.history.len();
    let hovered = view.hovered_history();
    let index: usize = match hovered {
        Some(i) => if i < total {
            i
        } else {
            view.history_selected
        },
        None => view.history_selected,
    };
    let mut r: Vec<String> = Vec::new();
    if index < total {
        let entry = &view.history[index];
        assert(view@.history[index as int] == entry@);
        assert(detailed(view@) == Some(entry@));
        let subject = cat2("◉ ", sanitize_plain(entry.subject.as_str()).as_str());
        let about = cat3("\x1b[2m", render_detail_text(entry).as_str(), "\x1b[0m");
        r.push(fit_width(subject.as_str(), width));
        r.push(fit_width(about.as_str(), width));
    } else {
        assert(detailed(view@) is None);
        r.push(fit_width("\x1b[2mNo history yet.\x1b[0m", width));
        r.push(fit_width("", width));
    }
    assert(lines_of(r@) =~= detail_lines(view@, width as nat));
    r
}

/// Draws the history section; see `history_section`.
pub fn render_history_section(view: &GitView, p: Palette, width: usize, visible: usize) -> (r: Vec<
    String,
>)
    ensures
        lines_of(r@) == history_section(view@, p, width as nat, visible as nat),
{
    let total: usize = view.history.len();
    let count = if view.history_has_more {
        cat3("HISTORY (", count_of(total).as_str(), "+)")
    } else {
        cat3("HISTORY (", count_of(total).as_str(), ")")
    };
    let heading = cat3("\x1b[1m", count.as_str(), "\x1b[0m");
    let mut r: Vec<String> = Vec::new();
    push_row(&mut r, fit_width(heading.as_str(), width));
    assert(lines_of(r@) =~= seq![fitted(history_heading(view@), width as nat)]);
    if total == 0 {
        push_row(&mut r, fit_width("\x1b[2mNo commits yet.\x1b[0m", width));
        assert(lines_of(r@) =~= history_section(view@, p, width as nat, visible as nat));
        return r;
    }
    push_rows(&mut r, render_commits(view, p, width, visible));
    push_rows(&mut r, render_details(view, width));
    r
}

// ---------------------------------------------------------------------------
// The whole panel

/// The rows of the panel under its overlays.
pub open spec fn panel_base(
    v: ViewModel,
    p: Palette,
    width: nat,
    files: nat,
    history: nat,
    pad: nat,
) -> Seq<Seq<char>> {
    fixed_rows(v, p, width) + area_lines(v, p, width, files) + Seq::new(
        pad,
        |i: int| fitted(""@, width),
    ) + history_section(v, p, width, history)
}

/// The panel with the open menu and the open question over it. The question
/// covers the menu.
pub open spec fn panel_covered(rows: Seq<Seq<char>>, v: ViewModel, p: Palette, width: nat) -> Seq<
    Seq<char>,
> {
    let with_menu = match v.commit_menu {
        Some(menu) => overlaid(
            rows,
            MENU_TOP as nat,
            commit_menu(menu.selected, v.amend, selection(p.selection), width),
            width,
        ),
        None => rows,
    };
    match v.confirm {
        Some(confirm) => overlaid(with_menu, CONFIRM_TOP as nat, confirm_box(confirm, width), width),
        None => with_menu,
    }
}

/// The panel, cut or filled to the height of the screen.
pub open spec fn panel(
    v: ViewModel,
    p: Palette,
    width: nat,
    height: nat,
    files: nat,
    history: nat,
    pad: nat,
) -> Seq<Seq<char>> {
    sized(
        panel_covered(panel_base(v, p, width, files, history, pad), v, p, width),
        width,
        height,
    ).map_values(|row: Seq<char>| fitted(row, width))
}

fn fit_rows(rows: &Vec<String>, width: usize) -> (r: Vec<String>)
    ensures
        lines_of(r@) == lines_of(rows@).map_values(|row: Seq<char>| fitted(row, width as nat)),
{
    let ghost all = lines_of(rows@).map_values(|row: Seq<char>| fitted(row, width as nat));
    let mut r: Vec<String> = Vec::new();
    let mut i: usize = 0;
    assert(lines_of(r@) =~= all.take(0));
    while i < rows.len()
        invariant
            i <= rows@.len(),
            all == lines_of(rows@).map_values(|row: Seq<char>| fitted(row, width as nat)),
            lines_of(r@) == all.take(i as int),
        decreases rows@.len() - i,
    {
        push_row(&mut r, fit_width(rows[i].as_str(), width));
        i += 1;
        assert(lines_of(r@) =~= all.take(i as int));
    }
    assert(all.take(i as int) =~= all);
    r
}

fn push_gap(rows: &mut Vec<String>, width: usize, n: usize)
    ensures
        lines_of(final(rows)@) == lines_of(old(rows)@) + Seq::new(
            n as nat,
            |i: int| fitted(""@, width as nat),
        ),
{
    let ghost gap = Seq::new(n as nat, |i: int| fitted(""@, width as nat));
    let mut i: usize = 0;
    assert(lines_of(rows@) =~= lines_of(old(rows)@) + gap.take(0));
    while i < n
        invariant
            i <= n,
            gap == Seq::new(n as nat, |i: int| fitted(""@, width as nat)),
            lines_of(rows@) == lines_of(old(rows)@) + gap.take(i as int),
        decreases n - i,
    {
        push_row(rows, fit_width("", width));
        i += 1;
        assert(lines_of(rows@) =~= lines_of(old(rows)@) + gap.take(i as int));
    }
    assert(gap.take(n as int) =~= gap);
}

/// Draws the panel; see `panel`.
pub fn render_right(
    view: &GitView,
    p: Palette,
    width: usize,
    height: usize,
    file_capacity: usize,
    history_rows: usize,
    pad_between: usize,
) -> (r: Vec<String>)
    requires
        listed(view@),
    ensures
        lines_of(r@) == panel(
            view@,
            p,
            width as nat,
            height as nat,
            file_capacity as nat,
            history_rows as nat,
            pad_between as nat,
        ),
{
    let mut rows = render_fixed(view, p, width);
    push_rows(&mut rows, render_area(view, p, width, file_capacity));
    push_gap(&mut rows, width, pad_between);
    push_rows(&mut rows, render_history_section(view, p, width, history_rows));
    match view.commit_menu {
        Some(menu) => {
            let style = selection_style(p.selection);
            let block = render_commit_menu(menu.selected, view.amend, style.as_str(), width);
            overlay_rows(&mut rows, MENU_TOP, &block, width);
        },
        None => {},
    }
    match &view.confirm {
        Some(confirm) => {
            let block = render_confirm_box(confirm, width);
            overlay_rows(&mut rows, CONFIRM_TOP, &block, width);
        },
        None => {},
    }
    size_rows(&mut rows, width, height);
    fit_rows(&rows, width)
}

// ---------------------------------------------------------------------------
// Laws

/// Every file row is a row of the drawn area, counted below the fixed rows.
proof fn file_hits_are_rows(drawn: Seq<FileAreaRow>, k: int)
    requires
        0 <= k < file_hits(drawn).len(),
        FIXED_ROWS + drawn.len() <= usize::MAX,
    ensures
        ({
            let (row, index) = file_hits(drawn)[k];
            &&& FIXED_ROWS <= row < FIXED_ROWS + drawn.len()
            &&& drawn[row - FIXED_ROWS] == FileAreaRow::File(index)
        }),
    decreases drawn.len(),
{
    if drawn.len() > 0 {
        let before = file_hits(drawn.drop_last());
        if k < before.len() {
            file_hits_are_rows(drawn.drop_last(), k);
        }
    }
}

/// A click finds the file that is drawn: each row that the layout gives to a
/// file shows that file, where nothing covers the panel.
pub proof fn file_targets_are_drawn(v: ViewModel, p: Palette, width: nat, height: nat, k: int)
    requires
        !v.status.clean(),
        v.commit_menu is None,
        v.confirm is None,
        FIXED_ROWS <= height <= usize::MAX,
        ({
            let (files, history, pad) = view_rows(v, height);
            0 <= k < file_hits(area_drawn(v, files, height)).len()
        }),
    ensures
        ({
            let (files, history, pad) = view_rows(v, height);
            let (row, index) = file_hits(area_drawn(v, files, height))[k];
            &&& row < height
            &&& panel(v, p, width, height, files, history, pad)[row as int] == fitted(
                file_line(v, p, index, width),
                width,
            )
        }),
{
    let (files, history, pad) = view_rows(v, height);
    let drawn = area_drawn(v, files, height);
    file_hits_are_rows(drawn, k);
    let (row, index) = file_hits(drawn)[k];
    let base = panel_base(v, p, width, files, history, pad);
    let lines = area_lines(v, p, width, files);
    let at = row - FIXED_ROWS;
    assert(fixed_rows(v, p, width).len() == FIXED_ROWS);
    assert(drawn[at] == area_shown(v, files)[at]);
    assert(lines[at] == area_line(v, p, FileAreaRow::File(index), width));
    assert(base[row as int] == lines[at]);
    assert(sized(base, width, height)[row as int] == base[row as int]);
}

/// Where commits are drawn, the whole file area is drawn above them.
proof fn commits_follow_the_files(v: ViewModel, p: Palette, width: nat, height: nat)
    requires
        FIXED_ROWS <= height,
        commits_drawn(v, height) > 0,
    ensures
        ({
            let (files, history, pad) = view_rows(v, height);
            FIXED_ROWS + area_lines(v, p, width, files).len() + pad + 1 == history_row(v, height)
        }),
        history_row(v, height) + commits_drawn(v, height) <= height,
{
    let (files, history, pad) = view_rows(v, height);
    if !v.status.clean() {
        let shown = area_shown(v, files);
        assert(area_lines(v, p, width, files).len() == shown.len());
    }
}

proof fn commit_in_base(
    v: ViewModel,
    p: Palette,
    width: nat,
    files: nat,
    history: nat,
    pad: nat,
    k: int,
)
    requires
        v.history.len() > 0,
        0 <= k < commit_lines(v, p, width, history).len(),
    ensures
        ({
            let row = FIXED_ROWS + area_lines(v, p, width, files).len() + pad + 1 + k;
            let base = panel_base(v, p, width, files, history, pad);
            row < base.len() && base[row] == commit_lines(v, p, width, history)[k]
        }),
{
    let above = fixed_rows(v, p, width) + area_lines(v, p, width, files) + Seq::new(
        pad,
        |i: int| fitted(""@, width),
    );
    let section = history_section(v, p, width, history);
    assert(above.len() == FIXED_ROWS + area_lines(v, p, width, files).len() + pad);
    assert(section[1 + k] == commit_lines(v, p, width, history)[k]);
    assert((above + section)[above.len() + 1 + k] == section[1 + k]);
}

/// What a row of a panel shows that nothing covers.
proof fn uncovered_row(
    v: ViewModel,
    p: Palette,
    width: nat,
    height: nat,
    files: nat,
    history: nat,
    pad: nat,
    row: int,
)
    requires
        v.commit_menu is None,
        v.confirm is None,
        0 <= row < height,
        row < panel_base(v, p, width, files, history, pad).len(),
    ensures
        panel(v, p, width, height, files, history, pad)[row] == fitted(
            panel_base(v, p, width, files, history, pad)[row],
            width,
        ),
{
    let base = panel_base(v, p, width, files, history, pad);
    assert(sized(base, width, height)[row] == base[row]);
}

/// A click finds the commit that is drawn: each row that the layout gives to a
/// commit shows that commit, where nothing covers the panel.
#[verifier::rlimit(40)]
pub proof fn history_targets_are_drawn(v: ViewModel, p: Palette, width: nat, height: nat, k: int)
    requires
        v.commit_menu is None,
        v.confirm is None,
        FIXED_ROWS <= height <= usize::MAX,
        v.history.len() <= usize::MAX,
        0 <= k < commits_drawn(v, height),
    ensures
        ({
            let (files, history, pad) = view_rows(v, height);
            let (row, index) = history_hits(
                history_row(v, height),
                history_start(v, history) as nat,
                commits_drawn(v, height),
            )[k];
            &&& row < height
            &&& panel(v, p, width, height, files, history, pad)[row as int] == fitted(
                commit_line(v, p, index as int, width),
                width,
            )
        }),
{
    let (files, history, pad) = view_rows(v, height);
    let top = history_start(v, history);
    commits_follow_the_files(v, p, width, height);
    assert(v.history.len() > 0);
    assert(k < commit_lines(v, p, width, history).len());
    commit_in_base(v, p, width, files, history, pad, k);
    let row = history_row(v, height) + k;
    uncovered_row(v, p, width, height, files, history, pad, row);
    assert(commit_lines(v, p, width, history)[k] == commit_line(v, p, top + k, width));
}

/// A piece of the commit message is always shown around the cursor, and it
/// fits the box.
pub proof fn message_fits_the_box(commit: Seq<char>, cursor: usize, width: nat)
    ensures
        visible_part(commit, cursor, width).len() <= at_least(width, 1),
        shown_cursor(commit, cursor, at_least(width, 1)) <= visible_part(
            commit,
            cursor,
            width,
        ).len(),
{
}

/// Every file of the status has a row of the file area.
proof fn file_has_a_row(status: StatusModel, file: usize)
    requires
        file < status.all().len() < usize::MAX,
    ensures
        ({
            let row = file_row(area_rows(status), file);
            &&& row is Some
            &&& 0 <= row->0 < area_rows(status).len()
            &&& area_rows(status)[row->0] == FileAreaRow::File(file)
        }),
{
    let rows = area_rows(status);
    let staged = status.staged.len() as int;
    let at = if file < staged {
        1 + file as int
    } else if staged > 0 {
        staged + 2 + (file - staged)
    } else {
        1 + file as int
    };
    assert(rows[at] == FileAreaRow::File(file));
    first_position_finds(rows, |row: FileAreaRow| row == FileAreaRow::File(file));
}

/// The files have at least one row, and no more than the panel has for them.
proof fn files_have_room(files: nat, history: nat, height: nat)
    requires
        height > FIXED_ROWS,
    ensures
        1 <= shared_rows(files, history, height).0 <= height - FIXED_ROWS,
{
}

/// Laying a dashboard out scrolls it and changes no file.
proof fn layout_scrolls(v: ViewModel, screen: Screen)
    ensures
        ({
            let shown = laid_out(v, screen);
            let (files, history, pad) = view_rows(v, screen.height());
            &&& shown.status == v.status
            &&& shown.file_scroll == scrolled_into_view(v, files, history).file_scroll
            &&& shown.commit_menu == v.commit_menu
            &&& shown.confirm == v.confirm
        }),
{
}

/// A file area that is scrolled to a row shows it.
proof fn scrolled_area_shows(v: ViewModel, scroll: usize, row: int, files: nat, height: nat)
    requires
        0 <= row < area_rows(v.status).len() <= usize::MAX,
        v.file_scroll == scrolled_to(scroll, row, files as usize),
        1 <= files <= height - FIXED_ROWS,
        height <= usize::MAX,
    ensures
        ({
            let k = row - area_start(v, files);
            let drawn = area_drawn(v, files, height);
            &&& 0 <= k < drawn.len() <= height - FIXED_ROWS
            &&& k < area_shown(v, files).len()
            &&& drawn[k] == area_rows(v.status)[row]
            &&& area_shown(v, files)[k] == area_rows(v.status)[row]
        }),
{
    let start = area_start(v, files) as int;
    assert(start <= row < start + files);
    assert(area_shown(v, files)[row - start] == area_rows(v.status)[row]);
}

/// The place of the selected file among the rows that are drawn.
proof fn selected_row_is_drawn(v: ViewModel, screen: Screen) -> (k: int)
    requires
        v.selected < v.status.all().len() < usize::MAX - 2,
        10 <= screen.rows <= usize::MAX,
    ensures
        ({
            let shown = laid_out(v, screen);
            let (files, history, pad) = view_rows(v, screen.height());
            let drawn = area_drawn(shown, files, screen.height());
            &&& 0 <= k < drawn.len() <= screen.height() - FIXED_ROWS
            &&& k < area_shown(shown, files).len()
            &&& drawn[k] == FileAreaRow::File(v.selected)
            &&& area_shown(shown, files)[k] == FileAreaRow::File(v.selected)
        }),
{
    let shown = laid_out(v, screen);
    let (files, history, pad) = view_rows(v, screen.height());
    file_has_a_row(v.status, v.selected);
    files_have_room(files_needed(v), v.history.len(), screen.height());
    layout_scrolls(v, screen);
    let row = file_row(area_rows(v.status), v.selected)->0;
    scrolled_area_shows(shown, v.file_scroll, row, files, screen.height());
    row - area_start(shown, files)
}

/// A row of the file area stands in the panel, where nothing covers it.
proof fn area_row_is_shown(
    v: ViewModel,
    p: Palette,
    width: nat,
    height: nat,
    files: nat,
    history: nat,
    pad: nat,
    k: int,
)
    requires
        !v.status.clean(),
        v.commit_menu is None,
        v.confirm is None,
        0 <= k < area_shown(v, files).len(),
        FIXED_ROWS + k < height,
    ensures
        panel(v, p, width, height, files, history, pad)[FIXED_ROWS + k] == fitted(
            area_line(v, p, area_shown(v, files)[k], width),
            width,
        ),
{
    let base = panel_base(v, p, width, files, history, pad);
    let lines = area_lines(v, p, width, files);
    assert(fixed_rows(v, p, width).len() == FIXED_ROWS);
    assert(base[FIXED_ROWS + k] == lines[k]);
    uncovered_row(v, p, width, height, files, history, pad, FIXED_ROWS + k);
}

/// The selected file is always among the rows that are drawn.
pub proof fn selected_file_is_drawn(v: ViewModel, screen: Screen)
    requires
        v.selected < v.status.all().len() < usize::MAX - 2,
        10 <= screen.rows <= usize::MAX,
    ensures
        area_drawn(
            laid_out(v, screen),
            view_rows(v, screen.height()).0,
            screen.height(),
        ).contains(FileAreaRow::File(v.selected)),
{
    let k = selected_row_is_drawn(v, screen);
}

/// Where nothing covers the panel, the selected file is shown in it.
pub proof fn selected_file_is_shown(v: ViewModel, p: Palette, screen: Screen)
    requires
        v.selected < v.status.all().len() < usize::MAX - 2,
        10 <= screen.rows <= usize::MAX,
        v.commit_menu is None,
        v.confirm is None,
    ensures
        ({
            let shown = laid_out(v, screen);
            let width = screen.right();
            let (files, history, pad) = view_rows(v, screen.height());
            exists|i: int|
                0 <= i < screen.height() && #[trigger] panel(
                    shown,
                    p,
                    width,
                    screen.height(),
                    files,
                    history,
                    pad,
                )[i] == fitted(file_line(shown, p, v.selected, width), width)
        }),
{
    let shown = laid_out(v, screen);
    let height = screen.height();
    let (files, history, pad) = view_rows(v, height);
    let k = selected_row_is_drawn(v, screen);
    layout_scrolls(v, screen);
    area_row_is_shown(shown, p, screen.right(), height, files, history, pad, k);
}

/// A question stands in its box above the two answers, and the answer that
/// discards stands left, as it is hit.
pub proof fn questions_stand_in_their_box(confirm: ConfirmModel, width: nat)
    ensures
        confirm_box(confirm, width).len() == 4,
        confirm_box(confirm, width)[1] == fitted(
            "│ "@ + truncated(
                sanitized(question(confirm)),
                at_least(minus(at_least(minus(width, 2), 6), 2), 8),
            ),
            width,
        ),
        confirm_box(confirm, width)[2] == fitted(
            "  \x1b[1;31m[Discard]\x1b[0m  \x1b[2m[Keep]\x1b[0m"@,
            width,
        ),
{
}

/// The cursor of the message stands behind as many characters as are shown
/// before it, in the row of the message.
pub proof fn message_cursor_stands_in_its_row(
    divider: nat,
    row: nat,
    commit: Seq<char>,
    cursor: usize,
    inner: nat,
    columns: nat,
)
    requires
        inner > 0,
        cursor <= commit.len() <= inner,
        divider + 6 + cursor < columns,
    ensures
        cursor_position(divider, row, commit, cursor, inner, columns) == (
            row + 1,
            divider + 5 + cursor as nat,
        ),
{
}

/// The history stands below its heading in its order, with the details of one
/// commit below it; an empty one says so.
pub proof fn history_stands_below_its_heading(
    v: ViewModel,
    p: Palette,
    width: nat,
    visible: nat,
    i: int,
)
    requires
        0 <= i < commit_lines(v, p, width, visible).len(),
        v.history.len() > 0,
    ensures
        ({
            let rows = history_section(v, p, width, visible);
            let n = commit_lines(v, p, width, visible).len() as int;
            &&& rows[0] == fitted(history_heading(v), width)
            &&& rows[i + 1] == commit_lines(v, p, width, visible)[i]
            &&& rows[n + 1] == detail_lines(v, width)[0] && rows[n + 2] == detail_lines(v, width)[1]
        }),
{
}

/// A commit is selected in the history where that has the keyboard, and while
/// its diff does.
pub proof fn commits_are_selected(v: ViewModel, index: int)
    requires
        0 <= index < v.history.len(),
    ensures
        v.focus == GitFocus::History ==> (commit_selected(v, index) <==> index
            == v.history_selected),
        v.focus == GitFocus::Files || v.focus == GitFocus::Commit ==> !commit_selected(v, index),
        v.focus == GitFocus::Diff && v.diff is Some ==> (commit_selected(v, index)
            <==> v.diff->0.commit == Some(v.history[index].hash)),
{
}

/// A file that can be staged has a green plus, one that can be unstaged a
/// yellow minus; on the selected line the color is that of the selection.
pub proof fn signs_are_colored(sign: char)
    requires
        sign != '+',
    ensures
        action_cell('+', false) == "  \x1b[2m↩\x1b[0m  "@ + "\x1b[38;2;139;213;162m"@ + "\x1b[1m"@
            + seq!['+'] + "\x1b[0m"@,
        action_cell(sign, false) == "  \x1b[2m↩\x1b[0m  "@ + "\x1b[38;2;232;202;118m"@
            + "\x1b[1m"@ + seq![sign] + "\x1b[0m"@,
        action_cell(sign, true) == "  \x1b[2m↩\x1b[0m  "@ + "\x1b[1m"@ + seq![sign] + "\x1b[0m"@,
{
    reveal_strlit("");
    assert("  \x1b[2m↩\x1b[0m  "@ + ""@ =~= "  \x1b[2m↩\x1b[0m  "@);
}

} // verus!
