//! What the dashboard shows.

use vstd::prelude::*;
use crate::git::diff::{
    all_rows, body_rows, change_sign, change_tint, changed, diff_row, first_shown, language_of,
    line_number, line_rows, pane, pane_header, shown_from, shows_lines, window,
};
use crate::git::input::{menu_run, Request};
use crate::git::jobs::{JobModel, Task};
use crate::git::layout::{action_hits, action_pair, file_hits, stage_all_hit};
use crate::git::panel::{
    action_sign, border, commit_line, commit_lines, detailed, distance, file_line, file_text,
    history_heading, menu_label, notice_row, question, section_size, shown_cursor, summary_row,
    visible_part, Palette,
};
use crate::git::render::{branch_line, hint, left_rows, log_line, log_rows, log_top, view_hint};
use crate::git::view::{
    CommitMode, ConfirmModel, DiffKind, DiffModel, FileAction, FileAreaRow, FileModel, GitFocus,
    GitSection, LineModel, ViewModel, FIXED_ROWS,
};
use crate::markdown::{fitted, sanitized, spaces};
use crate::style::{hover_tint, painted, selection};
use crate::text::{decimal, split_on, starts};

verus! {

broadcast use vstd::string::group_string_axioms;

// ---------------------------------------------------------------------------
// The panel

/// A question says what would be lost: an untracked file is deleted, a staged
/// one loses what is staged and what is not, and any other its changes.
pub proof fn questions_say_what_would_be_lost(path: Seq<char>, from: Seq<char>)
    ensures
        ({
            let asks = |renamed_from: Option<Seq<char>>, untracked: bool, staged: bool|
                question(ConfirmModel::DiscardFile { path, renamed_from, untracked, staged });
            &&& asks(None, true, false) == "Delete untracked "@ + sanitized(path) + "?"@
            &&& asks(None, false, true) == "Discard staged and unstaged changes in "@ + sanitized(
                path,
            ) + "?"@
            &&& asks(None, false, false) == "Discard changes in "@ + sanitized(path) + "?"@
            &&& asks(Some(from), false, false) == "Discard changes in "@ + sanitized(
                from + " -> "@ + path,
            ) + "?"@
        }),
        question(ConfirmModel::DiscardAll) == "Discard all unstaged changes?"@,
{
}

/// A line of the menu does what is written on it.
pub proof fn menu_lines_do_what_they_say(v: ViewModel, amend: bool)
    ensures
        menu_label(0, amend) == "Commit"@ && menu_run(v, 0).1 == Request::Start(
            Task::Commit(CommitMode::Commit),
        ),
        menu_label(1, amend) == "Commit and Push"@ && menu_run(v, 1).1 == Request::Start(
            Task::Commit(CommitMode::AndPush),
        ),
        menu_label(2, amend) == "Commit and Sync"@ && menu_run(v, 2).1 == Request::Start(
            Task::Commit(CommitMode::AndSync),
        ),
        menu_label(3, v.amend) == (if v.amend {
            "Amend: on"@
        } else {
            "Amend: off"@
        }) && menu_run(v, 3).0.amend != v.amend,
{
}

/// The title names the branch, and how many commits it is ahead of its upstream
/// and behind it.
pub proof fn titles_tell_the_distance(ahead: usize, behind: usize)
    requires
        ahead > 0,
        behind > 0,
    ensures
        distance(0, 0).len() == 0,
        distance(ahead, 0) == " ↑"@ + decimal(ahead as nat),
        distance(0, behind) == " ↓"@ + decimal(behind as nat),
        distance(ahead, behind) == " ↑"@ + decimal(ahead as nat) + "↓"@ + decimal(
            behind as nat,
        ),
{
}

/// The summary counts the staged files and the others, untracked ones among
/// them, as the headings do.
pub proof fn files_are_counted(v: ViewModel)
    ensures
        summary_row(v) == "\x1b[2m"@ + sanitized(
            match v.status.upstream {
                Some(upstream) => upstream,
                None => "no upstream"@,
            },
        ) + " · "@ + decimal(section_size(v.status, GitSection::Staged)) + " staged · "@ + decimal(
            section_size(v.status, GitSection::Unstaged),
        ) + " unstaged\x1b[0m"@,
        section_size(v.status, GitSection::Staged) + section_size(v.status, GitSection::Unstaged)
            == v.status.all().len(),
{
}

/// A notice of an error is red, and another one is dim.
pub proof fn errors_are_red(v: ViewModel)
    requires
        v.notice.len() > 0,
    ensures
        v.notice_error ==> notice_row(v) == "\x1b[1;31m"@ + sanitized(v.notice) + "\x1b[0m"@,
        !v.notice_error ==> notice_row(v) == "\x1b[2m"@ + sanitized(v.notice) + "\x1b[0m"@,
        v.focus == GitFocus::Commit ==> forall|p: Palette| #[trigger]
            border(v, p) == crate::style::foreground(p.accent),
        v.focus != GitFocus::Commit ==> forall|p: Palette| #[trigger] border(v, p) == "\x1b[2m"@,
{
}

/// The button of a file shows what it does: a plus stages it and a minus
/// unstages it. It stands right of the one that discards, and both lie in the
/// row of the file.
pub proof fn file_buttons_show_what_they_do(
    file: FileModel,
    row: usize,
    index: usize,
    x0: usize,
    x1: usize,
)
    requires
        x0 + 3 <= x1,
    ensures
        ({
            let hits = action_pair(file, row, index, x0, x1);
            &&& hits.len() == 2 && hits[0].row == row && hits[1].row == row && hits[0].index
                == index && hits[1].index == index
            &&& hits[0].action == FileAction::Discard && hits[0].x0 == x0 && hits[0].x1
                == hits[1].x0 && hits[1].x1 == x1
            &&& action_sign(file.section) == '+' <==> hits[1].action == FileAction::Stage(true)
            &&& action_sign(file.section) == '-' <==> hits[1].action == FileAction::Stage(false)
            &&& action_sign(GitSection::Staged) == '-'
            &&& action_sign(GitSection::Untracked) == '+'
        }),
{
}

/// Every row of a file that is drawn leads to that file, with its buttons; a
/// heading leads to none, but that of what is not staged stages all.
pub proof fn drawn_files_are_hit(
    flat: Seq<FileModel>,
    drawn: Seq<FileAreaRow>,
    file: usize,
    x0: usize,
    x1: usize,
)
    requires
        file < flat.len(),
        drawn.len() + FIXED_ROWS <= usize::MAX,
    ensures
        ({
            let row = (FIXED_ROWS + drawn.len()) as usize;
            let more = drawn.push(FileAreaRow::File(file));
            let heading = drawn.push(FileAreaRow::Header(GitSection::Unstaged));
            &&& file_hits(more) == file_hits(drawn).push((row, file))
            &&& action_hits(flat, more, x0, x1) == action_hits(flat, drawn, x0, x1) + action_pair(
                flat[file as int],
                row,
                file,
                x0,
                x1,
            )
            &&& stage_all_hit(more) == stage_all_hit(drawn)
            &&& stage_all_hit(heading) == Some(row)
            &&& file_hits(heading) == file_hits(drawn)
        }),
{
    assert(drawn.push(FileAreaRow::File(file)).drop_last() =~= drawn);
    assert(drawn.push(FileAreaRow::Header(GitSection::Unstaged)).drop_last() =~= drawn);
}

/// The row of the selected file is painted, that under the pointer is tinted,
/// and no other is.
pub proof fn selected_files_are_painted(v: ViewModel, p: Palette, index: usize, width: nat)
    requires
        v.focus == GitFocus::Files,
        v.diff is None,
    ensures
        ({
            let selected = index == v.selected;
            let row = fitted(file_text(v.flat[index as int], selected, width), width);
            &&& selected ==> file_line(v, p, index, width) == painted(row, selection(p.selection))
            &&& !selected && v.hovered_file() == Some(index) ==> file_line(v, p, index, width)
                == painted(row, selection(hover_tint(p.selection)))
            &&& !selected && v.hovered_file() != Some(index) ==> file_line(v, p, index, width)
                == row
        }),
{
}

/// The row of a file begins with its mark.
pub proof fn files_show_their_mark(file: FileModel, selected: bool, width: nat)
    ensures
        starts(
            file_text(file, selected, width),
            (if selected {
                "›"@
            } else {
                " "@
            }) + " "@ + seq![file.label()] + " "@,
        ),
{
    let prefix = (if selected {
        "›"@
    } else {
        " "@
    }) + " "@ + seq![file.label()] + " "@;
    assert(file_text(file, selected, width).take(prefix.len() as int) =~= prefix);
}

/// The box of the message shows the part of it that ends at the cursor, where
/// it does not fit, and the whole of it where it does.
pub proof fn messages_are_shown_up_to_the_cursor(commit: Seq<char>, cursor: usize, width: nat)
    requires
        width > 0,
        cursor <= commit.len(),
    ensures
        commit.len() <= width ==> visible_part(commit, cursor, width) == commit && shown_cursor(
            commit,
            cursor,
            width,
        ) == cursor,
        commit.len() > width && cursor >= width ==> visible_part(commit, cursor, width)
            == commit.subrange(cursor - width, cursor as int) && shown_cursor(commit, cursor, width)
            == width,
        commit.len() > width && cursor < width ==> visible_part(commit, cursor, width)
            == commit.take(cursor as int),
{
    if commit.len() > width && cursor < width {
        assert(visible_part(commit, cursor, width) =~= commit.take(cursor as int));
    }
}

/// The commits are listed in their order from where the list was scrolled to;
/// the heading says whether there are more than are loaded.
pub proof fn commits_are_listed_in_order(
    v: ViewModel,
    p: Palette,
    width: nat,
    visible: nat,
    i: int,
)
    requires
        0 <= i < visible,
        v.history_scroll + visible <= v.history.len() <= usize::MAX,
    ensures
        commit_lines(v, p, width, visible).len() == visible,
        commit_lines(v, p, width, visible)[i] == commit_line(v, p, v.history_scroll + i, width),
        v.history_has_more ==> history_heading(v) == "\x1b[1m"@ + ("HISTORY ("@ + decimal(
            v.history.len(),
        ) + "+)"@) + "\x1b[0m"@,
        !v.history_has_more ==> history_heading(v) == "\x1b[1m"@ + ("HISTORY ("@ + decimal(
            v.history.len(),
        ) + ")"@) + "\x1b[0m"@,
{
}

/// The details are those of the commit under the pointer, or else of the
/// selected one.
pub proof fn details_follow_the_pointer(v: ViewModel, index: usize)
    requires
        index < v.history.len(),
        v.history_selected < v.history.len(),
    ensures
        v.hovered_history() == Some(index) ==> detailed(v) == Some(v.history[index as int]),
        v.hovered_history() is None ==> detailed(v) == Some(v.history[v.history_selected as int]),
{
}

// ---------------------------------------------------------------------------
// Diffs

/// A line that was added carries a plus and a green ground, one that was
/// removed a minus and a red one.
pub proof fn changes_are_told_by_sign_and_color()
    ensures
        change_sign(DiffKind::Added) == "\x1b[1;38;5;114m"@ + "+"@ + "\x1b[0m"@,
        change_sign(DiffKind::Removed) == "\x1b[1;38;5;203m"@ + "-"@ + "\x1b[0m"@,
        starts(change_tint(DiffKind::Added), "\x1b[48;2;30;64;39m"@),
        starts(change_tint(DiffKind::Removed), "\x1b[48;2;68;34;34m"@),
{
    let added = "\x1b[48;2;30;64;39m"@;
    let removed = "\x1b[48;2;68;34;34m"@;
    assert(change_tint(DiffKind::Added).take(added.len() as int) =~= added);
    assert(change_tint(DiffKind::Removed).take(removed.len() as int) =~= removed);
}

/// A line that did not change is shown with its number before and its number
/// after the change; what is wrapped of it stands below its text.
pub proof fn context_shows_both_numbers(line: LineModel, width: nat, i: int, piece: Seq<char>)
    requires
        line.kind == DiffKind::Context,
        i > 0,
    ensures
        diff_row(line, width, 0, piece) == fitted(
            "\x1b[2m"@ + line_number(line.old_no) + " "@ + line_number(line.new_no) + "  "@
                + "\x1b[0m"@ + " "@ + piece,
            width,
        ),
        diff_row(line, width, i, piece) == fitted(spaces(12) + piece, width),
{
}

/// A number of a line stands right in a field of four, and a line without a
/// number has a blank one.
pub proof fn numbers_stand_right(n: usize)
    ensures
        line_number(None) == "    "@,
        decimal(n as nat).len() <= 4 ==> line_number(Some(n)) == spaces(
            (4 - decimal(n as nat).len()) as nat,
        ) + decimal(n as nat),
        decimal(n as nat).len() > 4 ==> line_number(Some(n)) == decimal(n as nat),
{
    if decimal(n as nat).len() > 4 {
        assert(line_number(Some(n)) =~= decimal(n as nat));
    }
}

/// The lines of a diff are drawn in their order, one below the other.
pub proof fn lines_are_drawn_in_order(
    lines: Seq<LineModel>,
    line: LineModel,
    language: Seq<char>,
    code: nat,
    width: nat,
)
    ensures
        body_rows(lines.push(line), language, code, width) == body_rows(lines, language, code, width)
            + line_rows(line, language, code, width),
        body_rows(Seq::empty(), language, code, width).len() == 0,
{
    assert(lines.push(line).drop_last() =~= lines);
}

/// A diff opens two lines above its first change.
pub proof fn diffs_open_above_the_first_change(lines: Seq<LineModel>, i: int)
    requires
        0 <= i < lines.len(),
        lines[i].kind == DiffKind::Added || lines[i].kind == DiffKind::Removed,
        forall|k: int|
            0 <= k < i ==> (#[trigger] lines[k]).kind != DiffKind::Added && lines[k].kind
                != DiffKind::Removed,
    ensures
        i >= 2 ==> first_shown(lines) == i - 2,
        i < 2 ==> first_shown(lines) == 0,
{
    let wanted = |line: LineModel| changed(line);
    assert forall|k: int| 0 <= k < i implies !wanted(#[trigger] lines[k]) by {
        assert(lines[k].kind != DiffKind::Added);
    }
    crate::model::first_position_is(lines, wanted, i);
}

/// A window shows the rows from its top, as many as have room.
pub proof fn windows_show_from_their_top(rows: Seq<Seq<char>>, top: nat, height: nat, i: int)
    requires
        0 <= i < height,
        top + i < rows.len(),
    ensures
        window(rows, top, height)[i] == rows[top + i],
        window(rows, top, height).len() <= height || top + height >= rows.len(),
{
}

/// A diff shows its header, and below it its rows from where it was scrolled
/// to; a binary file and one without changes say so.
pub proof fn panes_show_their_rows(diff: DiffModel, width: nat, height: nat, i: int)
    requires
        height > 2,
        !diff.truncated,
        0 <= i < height - 1,
        shown_from(diff, width, height) + i < all_rows(diff, width).len(),
    ensures
        pane(diff, width, height).len() == height,
        pane(diff, width, height)[0] == fitted(pane_header(diff), width),
        shows_lines(diff) ==> pane(diff, width, height)[i + 1] == all_rows(diff, width)[shown_from(
            diff,
            width,
            height,
        ) + i],
        diff.binary ==> pane(diff, width, height)[1] == fitted(
            "\x1b[2mBinary file, diff not shown.\x1b[0m"@,
            width,
        ),
{
}

/// A diff that was cut says so in its last row.
pub proof fn cut_diffs_say_so(diff: DiffModel, width: nat, height: nat)
    requires
        diff.truncated,
        height > 0,
    ensures
        pane(diff, width, height)[height - 1] == fitted(
            "\x1b[2m… diff truncated; counts are partial …\x1b[0m"@,
            width,
        ),
{
    crate::rows::sized_is_exact(
        seq![fitted(pane_header(diff), width)] + crate::git::diff::pane_body(diff, width, height),
        width,
        height,
    );
}

/// The language of a file is that of its ending.
pub proof fn endings_tell_the_language(name: Seq<char>)
    ensures
        language_of(name + ".rs"@) == "rust"@,
        language_of(name + ".py"@) == "python"@,
        language_of(name + ".go"@) == "go"@,
        language_of(name + ".ts"@) == "typescript"@,
        language_of(name + ".js"@) == "javascript"@,
        language_of(name + ".sh"@) == "bash"@,
        language_of(name + ".toml"@) == "toml"@,
        language_of(name + ".json"@) == "json"@,
        language_of(name + ".c"@) == "c"@,
        language_of(name + ".cpp"@) == "cpp"@,
{
    reveal_strlit(".rs");
    reveal_strlit(".py");
    reveal_strlit(".go");
    reveal_strlit(".ts");
    reveal_strlit(".js");
    reveal_strlit(".sh");
    reveal_strlit(".toml");
    reveal_strlit(".json");
    reveal_strlit(".c");
    reveal_strlit(".cpp");
    endings_are_told();
    ending_stands(name, ".rs"@, "rs"@);
    ending_stands(name, ".py"@, "py"@);
    ending_stands(name, ".go"@, "go"@);
    ending_stands(name, ".ts"@, "ts"@);
    ending_stands(name, ".js"@, "js"@);
    ending_stands(name, ".sh"@, "sh"@);
    ending_stands(name, ".toml"@, "toml"@);
    ending_stands(name, ".json"@, "json"@);
    ending_stands(name, ".c"@, "c"@);
    ending_stands(name, ".cpp"@, "cpp"@);
}

proof fn ending_stands(name: Seq<char>, dotted: Seq<char>, ending: Seq<char>)
    requires
        dotted.len() == ending.len() + 1,
        dotted[0] == '.',
        forall|i: int|
            0 <= i < ending.len() ==> dotted[i + 1] == #[trigger] ending[i] && ending[i] != '.',
    ensures
        split_on(name + dotted, '.').last() == ending,
{
    assert(name + dotted =~= name.push('.') + ending);
    crate::text::split_at_separator(name, ending, '.');
    crate::text::split_without_separator(ending, '.');
}

proof fn endings_are_told()
    ensures
        "rs"@ =~= seq!['r', 's'],
        "py"@ =~= seq!['p', 'y'],
        "go"@ =~= seq!['g', 'o'],
        "ts"@ =~= seq!['t', 's'],
        "js"@ =~= seq!['j', 's'],
        "sh"@ =~= seq!['s', 'h'],
        "cc"@ =~= seq!['c', 'c'],
        "toml"@ =~= seq!['t', 'o', 'm', 'l'],
        "json"@ =~= seq!['j', 's', 'o', 'n'],
        "bash"@ =~= seq!['b', 'a', 's', 'h'],
        "html"@ =~= seq!['h', 't', 'm', 'l'],
        "c"@ =~= seq!['c'],
        "h"@ =~= seq!['h'],
        "cpp"@ =~= seq!['c', 'p', 'p'],
        "jsx"@ =~= seq!['j', 's', 'x'],
        "tsx"@ =~= seq!['t', 's', 'x'],
        "hpp"@ =~= seq!['h', 'p', 'p'],
        "zsh"@ =~= seq!['z', 's', 'h'],
        "htm"@ =~= seq!['h', 't', 'm'],
        "css"@ =~= seq!['c', 's', 's'],
        "jsonc"@.len() == 5,
{
    reveal_strlit("rs");
    reveal_strlit("py");
    reveal_strlit("go");
    reveal_strlit("ts");
    reveal_strlit("js");
    reveal_strlit("sh");
    reveal_strlit("cc");
    reveal_strlit("toml");
    reveal_strlit("json");
    reveal_strlit("bash");
    reveal_strlit("html");
    reveal_strlit("c");
    reveal_strlit("h");
    reveal_strlit("cpp");
    reveal_strlit("jsx");
    reveal_strlit("tsx");
    reveal_strlit("hpp");
    reveal_strlit("zsh");
    reveal_strlit("htm");
    reveal_strlit("css");
    reveal_strlit("jsonc");
}

// ---------------------------------------------------------------------------
// The left side

/// The left side shows the branches where they are open, else the log, else the
/// diff, and else the conversation.
pub proof fn left_side_shows_what_is_open(
    v: ViewModel,
    p: Palette,
    transcript: Seq<Seq<char>>,
    width: nat,
    height: nat,
)
    ensures
        v.show_branches ==> left_rows(v, p, transcript, width, height)
            == crate::git::render::branch_rows(v, p, width, height),
        !v.show_branches && v.show_log ==> left_rows(v, p, transcript, width, height) == log_rows(
            v,
            width,
            height,
        ),
        !v.show_branches && !v.show_log && v.diff is Some ==> left_rows(
            v,
            p,
            transcript,
            width,
            height,
        ) == pane(v.diff->0, width, height),
        !v.show_branches && !v.show_log && v.diff is None ==> left_rows(
            v,
            p,
            transcript,
            width,
            height,
        ) == crate::git::render::transcript_rows(transcript, width, height),
{
}

/// The log lists the commits from where it was scrolled to, each with its
/// names.
pub proof fn logs_list_the_commits(v: ViewModel, width: nat, height: nat, i: int)
    requires
        height > 1,
        0 <= i < height - 1,
        log_top(v, height) + i < v.history.len(),
    ensures
        log_rows(v, width, height)[i + 1] == log_line(v.history[log_top(v, height) + i], width),
        v.log_scroll + (height - 1) <= v.history.len() ==> log_top(v, height) == v.log_scroll,
{
}

/// The current branch carries a dot, and the selected one is painted.
pub proof fn current_branch_carries_a_dot(v: ViewModel, p: Palette, i: int, width: nat)
    requires
        i != v.branch_selected,
    ensures
        v.branches[i] == v.status.branch ==> branch_line(v, p, i, width) == fitted(
            " "@ + " "@ + "● "@ + sanitized(v.branches[i]),
            width,
        ),
        v.branches[i] != v.status.branch ==> branch_line(v, p, i, width) == fitted(
            " "@ + " "@ + "  "@ + sanitized(v.branches[i]),
            width,
        ),
{
}

/// While a task runs its title is shown with how to stop it; a poll is not
/// shown, and then the keys of the panel are.
pub proof fn running_tasks_are_told(v: ViewModel, job: JobModel)
    ensures
        job.task == Task::Poll ==> hint(Some(job), v) == view_hint(v),
        job.task == Task::Refresh ==> hint(Some(job), v) == "Refreshing…"@ + "  Ctrl+C cancels"@,
        hint(None, v) == view_hint(v),
        v.confirm is Some ==> starts(view_hint(v), " "@ + question(v.confirm->0)),
{
    reveal_strlit("");
    reveal_strlit("Refreshing…");
    assert(""@.len() == 0 && "Refreshing…"@.len() == 11);
    if v.confirm is Some {
        let head = " "@ + question(v.confirm->0);
        assert(view_hint(v).take(head.len() as int) =~= head);
    }
}

} // verus!
