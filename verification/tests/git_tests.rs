use yawl::events::{Event, Key, MouseEvent, MouseKind};
use yawl::git::diff::{first_change_scroll, language_for_path, render_diff_line, render_diff_pane};
use yawl::git::input::{
    handle_event, handle_key, handle_mouse, pointer_over_control,
};
use yawl::git::jobs::{
    hear, merge_ui, poll, poll_due, GitInitFlow, GitState, JobOutcome, OperationState, SimpleCommand, Task,
};
use yawl::git::layout::{file_area_start, panel_split, panel_width};
use yawl::git::line::{line_edit, line_insert};
use yawl::git::operations::{
    begin, log_command, open_log, readme_text, resume_git, resume_readme, Ask, Work,
};
use yawl::git::panel::{
    action_cell_text, commit_cursor_position, commit_menu_items, confirm_message,
    render_confirm_box, row_action, Palette, ACTION_CELL_WIDTH,
};
use yawl::git::render::{render, render_branches, render_log};
use yawl::git::repository::{
    capture, git_failure, git_reply, history_page, is_unknown_subcommand, load_diff, load_untracked_diff,
    output_limit, parse_branch_header, parse_branches, parse_history, parse_status_porcelain,
    parse_unified_diff, root_from_output, start_failure, target_paths, FindRootError,
    MAX_DIFF_BYTES,
};
use yawl::git::setup::{handle_init_event, render_init};
use yawl::git::view::{
    file_area_rows, CommitMenuState, CommitMode, Confirm, DiffKind, DiffLine, FileAreaRow,
    GitFile, GitFocus, GitSection, GitStatus, GitView, HistoryEntry, LoadedDiff, MouseTarget,
    ScreenPoint, COMMIT_BOX_INPUT, CONFIRM_HEIGHT, FIXED_ROWS, HISTORY_CHROME_ROWS,
    MIN_HISTORY_ENTRIES, SCROLL_ANCHOR_PENDING,
};
use yawl::markdown::{strip_ansi, visible_width};
use yawl::style::{hidden_cursor, hovered_row, selected_row, selection_style, UiColor};

fn white() -> Palette {
    Palette { accent: UiColor::white(), selection: UiColor::white() }
}

fn state() -> GitState {
    let mut state = GitState::default();
    state.git_view = Some(GitView::new("/unused".into(), GitStatus::default()));
    state
}

fn with_status(output: &str) -> GitState {
    let mut state = GitState::default();
    state.git_view = Some(GitView::new("/unused".into(), parse_status_porcelain(output)));
    state
}

fn draw(state: &mut GitState, columns: usize, rows: usize) -> (Vec<String>, (usize, usize)) {
    render(state, white(), &Vec::new(), columns, rows)
}

fn view(state: &GitState) -> &GitView {
    state.git_view.as_ref().unwrap()
}

fn view_mut(state: &mut GitState) -> &mut GitView {
    state.git_view.as_mut().unwrap()
}

fn mouse(kind: MouseKind, row: usize, column: usize) -> MouseEvent {
    MouseEvent { kind, row, column }
}

fn pane(state: &mut GitState, width: usize, height: usize) -> Vec<String> {
    render_diff_pane(view_mut(state).diff.as_mut().unwrap(), width, height)
}

fn line(old_no: Option<usize>, new_no: Option<usize>, kind: DiffKind, text: &str) -> DiffLine {
    DiffLine { old_no, new_no, kind, text: text.into() }
}

fn file(path: &str, x: char, y: char, section: GitSection) -> GitFile {
    GitFile { path: path.into(), x, y, section, renamed_from: None }
}

/// Runs a work to its end with the answers of git.
fn answer(mut work: Work, git: impl Fn(&[String]) -> Result<String, String>) -> Work {
    loop {
        work = match &work.ask {
            Ask::Git(_, words, _) => {
                let reply = git(words);
                resume_git(work, reply, 0)
            }
            Ask::Readme(_) => resume_readme(work, Ok(())),
            _ => return work,
        };
    }
}

fn commits(count: usize) -> Vec<HistoryEntry> {
    (0..count)
        .map(|index| HistoryEntry {
            hash: format!("hash{index:03}"),
            short: format!("{index:07x}"),
            subject: format!("commit {index}"),
            ..HistoryEntry::default()
        })
        .collect()
}

// Diffs

#[test]
fn diff_lines_fit_narrow_widths() {
    let line = line(Some(12), Some(13), DiffKind::Added, "fn main() {}");
    let rows = render_diff_line(&line, "rust", 8, 20);
    assert!(!rows.is_empty());
    for row in &rows {
        assert!(visible_width(row) <= 20);
    }
    assert!(strip_ansi(&rows[0]).contains('+'));
}

#[test]
fn long_diff_lines_wrap_with_blank_continuation_gutters() {
    let added = line(None, Some(7), DiffKind::Added, "abcdefghijklmnopqrstuvwxyz0123456789");
    let rows = render_diff_line(&added, "", 8, 20);
    // 36 chars at width 8: five screen rows, numbers only on the first.
    assert_eq!(rows.len(), 5);
    for row in &rows {
        assert_eq!(visible_width(row), 20);
    }
    let first = strip_ansi(&rows[0]);
    assert!(first.contains('7'), "first row keeps its line number");
    assert!(first.contains('+'));
    for continuation in rows.iter().skip(1).map(|row| strip_ansi(row)) {
        assert!(
            !continuation.chars().take(12).any(|c| c.is_ascii_digit()),
            "continuations show no numbers, got {continuation:?}"
        );
        assert!(
            !continuation.contains('+'),
            "continuations show no prefix, got {continuation:?}"
        );
    }
    // The wrapped chunks reassemble the full line.
    let body: String = rows
        .iter()
        .map(|row| strip_ansi(row).chars().skip(12).collect::<String>().trim_end().to_string())
        .collect();
    assert_eq!(body, added.text);

    let context =
        line(Some(3), Some(3), DiffKind::Context, "abcdefghijklmnopqrstuvwxyz0123456789");
    let rows = render_diff_line(&context, "", 8, 20);
    assert_eq!(rows.len(), 5);
    let first = strip_ansi(&rows[0]);
    assert!(first.contains('3'));
    for continuation in rows.iter().skip(1).map(|row| strip_ansi(row)) {
        assert!(
            !continuation.chars().take(12).any(|c| c.is_ascii_digit()),
            "context continuations show no numbers, got {continuation:?}"
        );
    }
}

#[test]
fn changed_diff_rows_paint_full_width_backgrounds() {
    let added = line(None, Some(3), DiffKind::Added, "let x = 1;");
    let removed = line(Some(3), None, DiffKind::Removed, "let x = 0;");
    let context = line(Some(2), Some(2), DiffKind::Context, "let y = 2;");
    let added_rows = render_diff_line(&added, "rust", 30, 44);
    let removed_rows = render_diff_line(&removed, "rust", 30, 44);
    let context_rows = render_diff_line(&context, "rust", 30, 44);
    assert_eq!(added_rows.len(), 1);
    assert_eq!(removed_rows.len(), 1);
    assert_eq!(context_rows.len(), 1);
    let (added_row, removed_row, context_row) =
        (&added_rows[0], &removed_rows[0], &context_rows[0]);
    assert!(added_row.contains("48;2"));
    assert!(removed_row.contains("48;2"));
    assert!(!context_row.contains("48;2"));
    // Background spans the whole row, not just the code fragment.
    assert_eq!(visible_width(added_row), 44);
    assert_eq!(visible_width(removed_row), 44);
    // Syntax highlighting survives under the background tint.
    assert!(added_row.contains("1;34m") || added_row.contains("32m"));
}

#[test]
fn first_change_scroll_lands_near_the_change() {
    let lines = vec![
        line(None, None, DiffKind::Hunk, "@@ -1,5 +1,5 @@"),
        line(Some(1), Some(1), DiffKind::Context, "a"),
        line(Some(2), Some(2), DiffKind::Context, "b"),
        line(Some(3), Some(3), DiffKind::Context, "c"),
        line(Some(4), None, DiffKind::Removed, "d"),
    ];
    // First change at index 4, two context lines kept above it.
    assert_eq!(first_change_scroll(&lines), 2);
    assert_eq!(first_change_scroll(&[]), 0);
}

#[test]
fn late_change_is_not_silently_hidden() {
    let mut output = String::from("@@ -1,3000 +1,3000 @@\n");
    for _ in 0..2500 {
        output.push_str(" unchanged\n");
    }
    output.push_str("-old\n+new\n");
    let diff = parse_unified_diff("large.rs", false, &output);
    assert!(diff.truncated);
    assert_eq!(diff.added, 0);
    let mut state = state();
    view_mut(&mut state).diff = Some(diff);
    let plain = strip_ansi(&pane(&mut state, 80, 24).join("\n"));
    assert!(plain.contains("truncated"), "missing truncation warning");
}

#[test]
fn diff_header_sanitizes_filename_escapes() {
    let mut state = state();
    view_mut(&mut state).diff = Some(parse_unified_diff("file\x1b[2J.rs", false, ""));
    let rendered = pane(&mut state, 80, 24).join("\n");
    assert!(
        !rendered.contains("\x1b[2J"),
        "filename injected erase-screen escape into frame"
    );
}

#[test]
fn diff_keeps_patch_like_content_lines() {
    let diff = parse_unified_diff("a.md", false, "@@ -1 +1 @@\n--- old\n+++ new\n");
    assert_eq!((diff.removed, diff.added), (1, 1));
}

#[test]
fn diff_headers_between_files_do_not_become_content() {
    let output = "diff --git a/a b/a\n--- a/a\n+++ b/a\n@@ -1,2 +1,2 @@\n--- old\n+++ new\n tail\ndiff --git a/b b/b\n--- a/b\n+++ b/b\n@@ -5 +5 @@\n-x\n+y\n";
    let diff = parse_unified_diff("commit", false, output);
    assert_eq!((diff.removed, diff.added), (2, 2));
    assert_eq!(diff.lines[3].old_no, Some(2));
    assert_eq!(diff.lines[3].new_no, Some(2));
    assert_eq!(diff.lines.last().unwrap().new_no, Some(5));
}

#[test]
fn wrapped_diff_tokens_keep_their_style_when_scrolled() {
    for kind in [DiffKind::Added, DiffKind::Removed, DiffKind::Context] {
        for (path, text, style) in [
            (
                "a.rs",
                "// for true 123 let return comment continues here",
                "\x1b[2;36m",
            ),
            (
                "a.py",
                "# for True 123 def return comment continues here",
                "\x1b[2;36m",
            ),
            (
                "a.rs",
                "\"for true 123 let return string continues here\"",
                "\x1b[32m",
            ),
        ] {
            let mut state = state();
            let mut diff = parse_unified_diff(path, false, "@@ -1 +1 @@\n-old\n+new\n");
            diff.lines = vec![line(Some(1), Some(1), kind, text)];
            diff.scroll = 1;
            view_mut(&mut state).diff = Some(diff);
            // Start after the comment marker or opening quote has scrolled
            // out of view. Both visible continuations must retain its style.
            let rows = pane(&mut state, 24, 3);
            for row in &rows[1..] {
                assert!(row.contains(style), "missing token style in {row:?}");
                assert!(!row.contains("\x1b[1;34m"), "token became a keyword: {row:?}");
                assert!(!row.contains("\x1b[35m"), "token became a number: {row:?}");
                assert!(strip_ansi(row).starts_with(&" ".repeat(12)));
            }
        }
    }
}

#[test]
fn diff_pane_wraps_long_lines_and_anchors_first_change() {
    let mut state = state();
    let long = "x".repeat(100);
    view_mut(&mut state).diff = Some(LoadedDiff {
        path: "a.rs".into(),
        staged: false,
        untracked: false,
        commit: None,
        lines: vec![line(None, Some(1), DiffKind::Added, &long)],
        added: 1,
        removed: 0,
        scroll: SCROLL_ANCHOR_PENDING,
        binary: false,
        truncated: false,
    });
    // Width 40 leaves code width 28: 100 chars wrap onto four screen rows.
    let lines = pane(&mut state, 40, 24);
    assert_eq!(
        view(&state).diff.as_ref().unwrap().scroll,
        0,
        "a lone first change anchors to the top"
    );
    let body: Vec<String> = lines.iter().skip(1).take(4).map(|line| strip_ansi(line)).collect();
    assert_eq!(body.len(), 4);
    assert!(body[0].contains('1') && body[0].contains('+'));
    for continuation in &body[1..] {
        assert!(
            !continuation.chars().take(12).any(|c| c.is_ascii_digit()),
            "wrapped continuations show no numbers, got {continuation:?}"
        );
    }
    let text: String = body
        .iter()
        .map(|row| row.chars().skip(12).collect::<String>().trim_end().to_string())
        .collect();
    assert_eq!(text, long);

    // Visual scrolling can land mid-line: the continuation keeps a blank
    // gutter instead of repeating the number. Shrink the pane so the scroll
    // offset takes effect (body height 3 of 4 wrapped rows).
    view_mut(&mut state).diff.as_mut().unwrap().scroll = 1;
    let lines = pane(&mut state, 40, 4);
    let first_body = strip_ansi(&lines[1]);
    assert!(!first_body.chars().take(12).any(|c| c.is_ascii_digit()));
    assert_eq!(&first_body[12..], "x".repeat(28));

    // Skip an entire source line, then begin within a wrapped line.
    let diff = view_mut(&mut state).diff.as_mut().unwrap();
    diff.lines.insert(0, line(Some(1), Some(1), DiffKind::Context, "offscreen"));
    diff.scroll = 2;
    let lines = pane(&mut state, 40, 3);
    assert_eq!(lines.len(), 3);
    for row in &lines[1..] {
        assert_eq!(strip_ansi(row), format!("{}{}", " ".repeat(12), "x".repeat(28)));
    }
}

// Jobs

#[test]
fn scrolling_during_a_load_preserves_the_requested_diff() {
    let mut original = GitView::new("/unused".into(), GitStatus::default());
    let mut diff = parse_unified_diff("file.rs", false, "@@ -1 +1 @@\n-old\n+new\n");
    diff.commit = Some("first".into());
    original.diff = Some(diff);
    let mut current = original.clone();
    current.diff.as_mut().unwrap().scroll = 10;

    // Both a new commit and another file must survive scrolling the old preview.
    for commit in [Some("second".to_string()), None] {
        let mut updated = original.clone();
        let loaded = updated.diff.as_mut().unwrap();
        loaded.commit = commit;
        loaded.scroll = SCROLL_ANCHOR_PENDING;
        let expected = updated.diff.clone();
        let merged = merge_ui(&original, &current, updated);
        assert_eq!(merged.diff, expected);
    }

    // A refresh of the same diff still keeps the user's scroll position.
    let updated = merge_ui(&original, &current, original.clone());
    assert_eq!(updated.diff.as_ref().unwrap().scroll, 10);

    // Closing the preview while the worker runs still takes precedence.
    current.diff = None;
    let updated = merge_ui(&original, &current, updated);
    assert!(updated.diff.is_none());
}

fn finished(view: GitView) -> JobOutcome {
    JobOutcome::Finished(OperationState { git_view: Some(view), git_init: None, notice: None })
}

#[test]
fn background_result_preserves_commit_edits_and_navigation() {
    let mut state = state();
    view_mut(&mut state).commit = "old message".into();
    assert!(state.start(Task::Commit(CommitMode::Commit)));
    let mut updated = view(&state).clone();
    updated.commit.clear();
    updated.commit_cursor = 0;
    updated.status.branch = "updated branch".into();
    let view = view_mut(&mut state);
    view.focus = GitFocus::Commit;
    view.commit = "next message".into();
    view.commit_cursor = 12;
    poll(&mut state, finished(updated), 0);
    let view = state.git_view.as_ref().unwrap();
    assert_eq!(view.status.branch, "updated branch");
    assert_eq!(view.commit, "next message");
    assert_eq!(view.commit_cursor, 12);
    assert_eq!(view.focus, GitFocus::Commit);
}

#[test]
fn closing_dashboard_drops_late_results() {
    let mut state = state();
    assert!(state.start(Task::Refresh));
    let late = view(&state).clone();
    state.git_view = None;
    poll(&mut state, finished(late), 0);
    assert!(state.git_view.is_none());
}

#[test]
fn explicit_action_supersedes_read_only_poll() {
    let mut state = state();
    assert!(state.start(Task::Poll));
    let poll_id = state.git_job.as_ref().unwrap().id;
    let mut obsolete = view(&state).clone();
    obsolete.commit = "obsolete".into();
    assert!(state.start(Task::Refresh));
    let action_id = state.git_job.as_ref().unwrap().id;
    assert!(!state.start(Task::Poll), "a poll gives way to an action");
    let mut current = view(&state).clone();
    current.commit = "current".into();
    assert!(!hear(&mut state, poll_id, finished(obsolete), 0));
    assert_eq!(view(&state).commit, "");
    assert!(hear(&mut state, action_id, finished(current), 0));
    assert_eq!(view(&state).commit, "current");
    assert!(state.git_job.is_none());
}

#[test]
fn a_canceled_job_is_dropped() {
    let mut state = state();
    assert!(!state.cancel());
    assert!(state.start(Task::Simple(SimpleCommand::Fetch)));
    assert!(state.cancel());
    let mut late = view(&state).clone();
    late.status.branch = "late".into();
    poll(&mut state, finished(late), 0);
    assert_eq!(view(&state).status.branch, "");
}

#[test]
fn a_lost_worker_is_reported() {
    let mut state = state();
    assert!(state.start(Task::Refresh));
    assert!(poll(&mut state, JobOutcome::Lost, 0));
    assert!(state.git_job.is_none());
}

// The panel

#[test]
fn commit_cursor_uses_one_based_terminal_coordinates() {
    // Divider at 64, input row is frame index 2: the cursor belongs on
    // the third screen line, after "│> " plus the typed text.
    assert_eq!(commit_cursor_position(64, 2, "rrw", 3, 30, 100), (3, 72));
    assert_eq!(commit_cursor_position(64, 2, "", 0, 30, 100), (3, 69));
    // Long messages scroll; the cursor stays on the visible tail.
    let long = "m".repeat(40);
    let (row, col) = commit_cursor_position(64, 2, &long, 40, 30, 100);
    assert_eq!(row, 3);
    assert!(col > 70 && col < 100);
}

#[test]
fn file_rows_offer_stage_or_unstage_actions() {
    assert_eq!(row_action(&file("a.rs", 'M', ' ', GitSection::Staged)), '-');
    assert_eq!(row_action(&file("b.rs", ' ', 'M', GitSection::Unstaged)), '+');
    assert_eq!(row_action(&file("c.rs", '?', '?', GitSection::Untracked)), '+');
}

#[test]
fn hovered_rows_keep_their_width_and_restore_background_after_resets() {
    let text = "  M src/main.rs  \x1b[33m-\x1b[0m  ";
    let row = hovered_row(text, UiColor::white());
    assert_eq!(visible_width(&row), visible_width(text));
    assert_eq!(strip_ansi(&row), strip_ansi(text));
    assert!(row.contains("\x1b[0m\x1b[38;2;250;250;250;48;2;53;53;53m  "));
}

#[test]
fn commit_menu_lists_push_sync_and_amend() {
    let labels: Vec<&str> = commit_menu_items(false).iter().map(|(label, _)| *label).collect();
    assert_eq!(
        labels,
        vec!["Commit", "Commit and Push", "Commit and Sync", "Amend: off"]
    );
    assert_eq!(commit_menu_items(true)[3].0, "Amend: on");
}

#[test]
fn action_cell_puts_undo_left_and_stage_right_with_daylight() {
    let cell = action_cell_text('+', false);
    assert_eq!(visible_width(&cell), ACTION_CELL_WIDTH);
    let plain = strip_ansi(&cell);
    let undo = plain.find('↩').expect("undo hook should be rendered");
    let stage = plain.find('+').expect("stage glyph should be rendered");
    assert!(undo < stage, "undo must sit left of stage");
    assert!(stage - undo >= 2, "glyphs need breathing room, got {plain:?}");
}

#[test]
fn selected_stage_action_inherits_contrasting_row_text() {
    // Use the stage green itself as the selection background. Reusing the
    // semantic foreground here would make `+` disappear.
    let selection = selection_style(UiColor::new(139, 213, 162));
    let cell = action_cell_text('+', true);
    let selected = selected_row(&cell, &selection);

    assert!(!cell.contains("\x1b[38;2;139;213;162m"));
    assert!(selected.contains(&selection));
    assert!(strip_ansi(&selected).contains('+'));
}

fn discard(path: &str, from: Option<&str>, untracked: bool, staged: bool) -> Confirm {
    Confirm::DiscardFile {
        path: path.into(),
        renamed_from: from.map(|path| path.to_string()),
        untracked,
        staged,
    }
}

#[test]
fn confirm_messages_name_the_destructive_action() {
    assert_eq!(
        confirm_message(&discard("a.rs", None, true, false)),
        "Delete untracked a.rs?"
    );
    assert_eq!(
        confirm_message(&discard("a.rs", None, false, true)),
        "Discard staged and unstaged changes in a.rs?"
    );
    assert_eq!(
        confirm_message(&discard("b.rs", Some("a.rs"), false, true)),
        "Discard staged and unstaged changes in a.rs -> b.rs?"
    );
    assert_eq!(confirm_message(&Confirm::DiscardAll), "Discard all unstaged changes?");
}

#[test]
fn confirm_box_is_four_clickable_rows() {
    let confirm = discard("src/tui/git.rs", None, false, false);
    let rows = render_confirm_box(&confirm, 44);
    assert_eq!(rows.len(), CONFIRM_HEIGHT);
    assert!(rows.iter().all(|row| visible_width(row) <= 44));
    let plain = rows.iter().map(|row| strip_ansi(row)).collect::<Vec<_>>().join("\n");
    assert!(plain.contains("[Discard]"));
    assert!(plain.contains("[Keep]"));
    assert!(plain.contains("src/tui/git.rs"));
}

#[test]
fn panel_width_stays_usable_on_small_terminals() {
    assert!(panel_width(40) >= 20);
    assert!(panel_width(200) <= 44);
}

#[test]
fn history_panel_expands_beyond_five_rows_and_anchors_to_bottom() {
    // Clean tree with 30 commits on a 30-row terminal: files need 2 rows,
    // chrome needs 8 + 3, leaving 16 rows for history (not 5).
    let mut view = GitView::new("/unused".into(), GitStatus::default());
    view.history = commits(30);
    let (file_capacity, history_capacity, pad) = panel_split(&view, 29);
    assert_eq!(file_capacity, 2);
    assert_eq!(history_capacity, 16, "history must fill the panel, not stop at 5");
    assert_eq!(pad, 0, "overflowing panels need no anchoring gap");

    // Few commits: show them all and pad between files and history so the
    // section ends at the panel bottom.
    view.history.truncate(3);
    let (file_capacity, history_capacity, pad) = panel_split(&view, 29);
    assert_eq!(history_capacity, 3);
    assert_eq!(file_capacity, 2);
    assert_eq!(
        pad,
        29 - FIXED_ROWS - (2 + 3 + 3),
        "empty rows sit above history to anchor it to the bottom"
    );

    // Many files: history keeps a usable minimum instead of collapsing.
    view.status = parse_status_porcelain(
        "## main\0M  a0\0M  a1\0M  a2\0M  a3\0M  a4\0M  a5\0M  a6\0M  a7\0M  a8\0M  a9\0M  a10\0M  a11\0M  a12\0M  a13\0M  a14\0M  a15\0M  a16\0M  a17\0M  a18\0M  a19\0",
    );
    view.flat = view.status.flat();
    view.history = commits(30);
    let (file_capacity, history_capacity, pad) = panel_split(&view, 29);
    assert_eq!(pad, 0);
    assert!(
        history_capacity >= MIN_HISTORY_ENTRIES,
        "history keeps at least {MIN_HISTORY_ENTRIES} rows, got {history_capacity}"
    );
    assert_eq!(
        file_capacity + history_capacity + HISTORY_CHROME_ROWS,
        29 - FIXED_ROWS,
        "overflowing panels fill the available height"
    );
}

// What git prints

#[test]
fn branch_header_parses_ahead_and_behind() {
    let mut status = GitStatus::default();
    parse_branch_header("## main...origin/main [ahead 1, behind 2]", &mut status);
    assert_eq!(status.branch, "main");
    assert_eq!(status.upstream.as_deref(), Some("origin/main"));
    assert_eq!((status.ahead, status.behind), (1, 2));

    let mut clean = GitStatus::default();
    parse_branch_header("## main", &mut clean);
    assert_eq!(clean.branch, "main");
    assert_eq!((clean.ahead, clean.behind), (0, 0));
}

#[test]
fn porcelain_splits_staged_unstaged_and_untracked() {
    let output = "## main...origin/main\x00M  staged.rs\x00 M unstaged.rs\x00MM both.rs\x00?? new.rs\x00";
    let status = parse_status_porcelain(output);
    assert_eq!(status.branch, "main");
    assert!(status.staged.iter().any(|f| f.path == "staged.rs"));
    assert!(status.unstaged.iter().any(|f| f.path == "unstaged.rs"));
    // MM appears on both sides.
    assert!(status.staged.iter().any(|f| f.path == "both.rs"));
    assert!(status.unstaged.iter().any(|f| f.path == "both.rs"));
    assert_eq!(status.untracked.len(), 1);
}

#[test]
fn renames_carry_their_old_path() {
    let status = parse_status_porcelain("## main\0R  new.txt\0old.txt\0");
    assert_eq!(status.staged[0].path, "new.txt");
    assert_eq!(status.staged[0].renamed_from.as_deref(), Some("old.txt"));
}

#[test]
fn unified_diff_assigns_old_and_new_line_numbers() {
    let output = "@@ -1,3 +1,3 @@\n context\n-old\n+new\n context2\n";
    let diff = parse_unified_diff("a.rs", false, output);
    assert_eq!(diff.added, 1);
    assert_eq!(diff.removed, 1);
    let kinds: Vec<DiffKind> = diff.lines.iter().map(|l| l.kind).collect();
    assert_eq!(
        kinds,
        vec![
            DiffKind::Hunk,
            DiffKind::Context,
            DiffKind::Removed,
            DiffKind::Added,
            DiffKind::Context
        ]
    );
    assert_eq!(diff.lines[1].old_no, Some(1));
    assert_eq!(diff.lines[1].new_no, Some(1));
    assert_eq!(diff.lines[2].old_no, Some(2));
    assert_eq!(diff.lines[2].new_no, None);
    assert_eq!(diff.lines[3].old_no, None);
    assert_eq!(diff.lines[3].new_no, Some(2));
}

#[test]
fn history_parses_hash_refs_author_and_subject() {
    let output = "abc1234567890\x1fabc1234\x1fHEAD -> main, origin/main\x1fAda\x1f2026-09-01\x1ffeat: add things\ndef5678\x1fdef5678\x1f\x1fBob\x1f2026-08-30\x1ffix it";
    let history = parse_history(output);
    assert_eq!(history.len(), 2);
    assert_eq!(history[0].short, "abc1234");
    assert_eq!(history[0].refs, "HEAD -> main, origin/main");
    assert_eq!(history[0].author, "Ada");
    assert_eq!(history[0].subject, "feat: add things");
    assert!(history[1].refs.is_empty());
}

#[test]
fn a_page_says_whether_there_is_more() {
    let output = "a\x1fa\x1f\x1fA\x1f1\x1fone\nb\x1fb\x1f\x1fB\x1f2\x1ftwo";
    let (entries, more) = history_page(output, 2);
    assert_eq!((entries.len(), more), (2, true));
    let (entries, more) = history_page(output, 3);
    assert_eq!((entries.len(), more), (2, false));
    assert_eq!(history_page("", 0).1, false);
}

#[test]
fn tab_cycles_files_history_and_message() {
    let mut state = state();
    for focus in [GitFocus::History, GitFocus::Commit, GitFocus::Files] {
        handle_key(&mut state, Key::Tab);
        assert_eq!(view(&state).focus, focus);
    }
}

#[test]
fn the_log_stops_at_the_bottom() {
    let mut state = state();
    view_mut(&mut state).show_log = true;
    view_mut(&mut state).history = commits(10);
    view_mut(&mut state).log_scroll = 500;
    let bottom = render_log(view_mut(&mut state), 80, 5);
    assert_eq!(view(&state).log_scroll, 6);
    assert!(bottom[4].contains("commit 9"));
    assert_eq!(render_log(view_mut(&mut state), 80, 5), bottom);
    handle_event(&mut state, Event::MouseScroll(3));
    assert_eq!(view(&state).log_scroll, 3);
}

#[test]
fn the_log_is_read_before_it_is_shown() {
    let mut state = state();
    view_mut(&mut state).history_limit = 2;
    view_mut(&mut state).history_selected = 1;
    view_mut(&mut state).show_branches = false;
    assert!(handle_event(&mut state, Event::Key(Key::Char('l'))));
    assert!(!view(&state).show_log);
    let (root, words) = log_command(&state).unwrap();
    assert_eq!(root, "/unused");
    assert_eq!(
        words,
        [
            "log",
            "--format=%H%x1f%h%x1f%D%x1f%an%x1f%ad%x1f%s",
            "--date=short",
            "--max-count=2"
        ]
    );
    open_log(&mut state, "a\x1fa\x1f\x1fA\x1f1\x1fone\nb\x1fb\x1f\x1fB\x1f2\x1ftwo");
    assert!(view(&state).show_log && view(&state).history_has_more);
    assert_eq!(view(&state).history[1].subject, "two");
    assert_eq!(view(&state).history_selected, 0);
    assert!(!handle_event(&mut state, Event::Key(Key::Char('l'))));
    assert!(!view(&state).show_log);
    assert!(log_command(&GitState::default()).is_none());
}

#[test]
fn unknown_subcommand_detector_matches_git_stderr() {
    assert!(is_unknown_subcommand(
        "git: 'restore' is not a git command. See 'git --help'."
    ));
    assert!(!is_unknown_subcommand(
        "error: pathspec 'x' did not match any file(s) known to git"
    ));
    // Notice text mentioning restore (e.g. a file named
    // `my-restore-notes.txt`) must never trigger the old-git fallback.
    assert!(!is_unknown_subcommand("Discarded my-restore-notes.txt."));
}

#[test]
fn target_paths_carry_both_sides_of_staged_renames_only() {
    assert_eq!(
        target_paths(GitSection::Staged, "b.txt", &Some("a.txt".into())),
        ["a.txt", "b.txt"]
    );
    assert_eq!(target_paths(GitSection::Staged, "b.txt", &None), ["b.txt"]);
    // Unstaged entries target `new` alone: `old` is already staged, and
    // adding it would stage its deletion.
    assert_eq!(
        target_paths(GitSection::Unstaged, "b.txt", &Some("a.txt".into())),
        ["b.txt"]
    );
    assert_eq!(target_paths(GitSection::Untracked, "b.txt", &None), ["b.txt"]);
}

#[test]
fn find_root_names_plain_directories_as_non_repos() {
    assert!(matches!(
        root_from_output(false, &b"fatal: not a git repository".to_vec()),
        Err(FindRootError::NotARepo)
    ));
    assert!(matches!(
        root_from_output(true, &b"/work/tree\n".to_vec()),
        Ok(root) if root == "/work/tree"
    ));
    match root_from_output(true, &b" \n".to_vec()) {
        Err(error) => assert_eq!(error.message(), "git returned an empty work-tree root"),
        Ok(root) => panic!("unexpected {root}"),
    }
    assert_eq!(FindRootError::NotARepo.message(), "not a git repository");
    assert_eq!(start_failure(true, "gone"), "git is not installed");
    assert_eq!(start_failure(false, "busy"), "could not run git: busy");
}

#[test]
fn roots_with_broken_bytes_are_read_all_the_same() {
    assert!(matches!(
        root_from_output(true, &vec![b'/', 0xff, b'\n']),
        Ok(root) if root == "/\u{fffd}"
    ));
}

#[test]
fn failures_say_what_git_said() {
    let words = vec!["push".to_string()];
    assert!(git_failure(&words, "", "fatal: no remote").contains("no remote"));
    assert!(git_failure(&words, "", "").contains("push"));
}

#[test]
fn replies_are_what_git_printed() {
    let words = vec!["status".to_string()];
    assert_eq!(git_reply(true, &words, &b"ok".to_vec(), &Vec::new()), Ok("ok".to_string()));
    assert_eq!(
        git_reply(false, &words, &Vec::new(), &b"fatal: bad\nmore".to_vec()),
        Err("git status failed: fatal: bad".to_string())
    );
    assert_eq!(output_limit(&words), usize::MAX);
    assert_eq!(output_limit(&vec!["diff".to_string()]), MAX_DIFF_BYTES + 1);
}

#[test]
fn branches_are_sorted_and_listed_without_blanks() {
    assert_eq!(parse_branches("main\n\n feature\n"), ["feature", "main"]);
}

#[test]
fn bounded_capture_still_drains_the_pipe() {
    let mut captured = Vec::new();
    let bytes = vec![b'x'; MAX_DIFF_BYTES * 2];
    let mut drained = 0;
    for piece in bytes.chunks(8 * 1024) {
        capture(&mut captured, piece, 256);
        drained += piece.len();
    }
    assert_eq!(captured, vec![b'x'; 256]);
    assert_eq!(drained, MAX_DIFF_BYTES * 2);
}

#[test]
fn oversized_untracked_diff_reports_truncation_instead_of_no_changes() {
    let mut diff = load_untracked_diff("large.txt", &vec![b'a'; MAX_DIFF_BYTES + 1]);
    let plain = strip_ansi(&render_diff_pane(&mut diff, 80, 24).join("\n"));
    assert!(plain.contains("truncated"));
    assert!(!plain.contains("No content changes"));
}

#[test]
fn large_diffs_are_loaded_again_in_short() {
    let changed = file("large.txt", ' ', 'M', GitSection::Unstaged);
    let mut output = String::from("@@ -1,3000 +1,3000 @@\n");
    for _ in 0..3000 {
        output.push_str(" unchanged\n");
    }
    match load_diff(&changed, false, &output) {
        Err(arguments) => assert!(arguments.iter().any(|word| word.starts_with("diff"))),
        Ok(diff) => panic!("unexpected {:?}", diff.lines.len()),
    }
    assert!(load_diff(&changed, true, &output).is_ok());
}

#[test]
fn languages_follow_the_extension() {
    assert_eq!(language_for_path("src/main.rs"), "rust");
    assert_eq!(language_for_path("a.py"), "python");
    assert_eq!(language_for_path("LICENSE"), "");
}

// The dashboard

#[test]
fn file_hover_moves_without_selecting_opening_or_staging() {
    for diff_open in [false, true] {
        let mut state = with_status("## main\0 M a.rs\0 M b.rs\0 M c.rs\0");
        if diff_open {
            let view = view_mut(&mut state);
            view.diff = Some(parse_unified_diff("a.rs", false, "-before\n+after\n"));
            view.focus = GitFocus::Diff;
        }
        let (before, _) = draw(&mut state, 120, 30);
        let row = view(&state).layout.file_rows[1].0;
        let column = view(&state).layout.divider + 5;
        handle_mouse(&mut state, mouse(MouseKind::Move, row, column));
        let (hovered, _) = draw(&mut state, 120, 30);
        assert_ne!(before[row], hovered[row]);
        assert_eq!(strip_ansi(&before[row]), strip_ansi(&hovered[row]));
        assert!(pointer_over_control(&state));
        assert_eq!(view(&state).selected, 0);
        assert_eq!(view(&state).hovered_file(), Some(1));
        assert_eq!(view(&state).diff.is_some(), diff_open);
        // Moving over stage and discard controls must not invoke either action.
        let actions = view(&state).layout.clone().actions;
        for hit in actions {
            handle_mouse(&mut state, mouse(MouseKind::Move, hit.row, hit.x0));
            assert!(pointer_over_control(&state));
            assert!(view(&state).confirm.is_none());
            assert!(view(&state).notice.is_empty());
            assert_eq!(view(&state).selected, 0);
        }
        // Moving back into chat or the diff clears the highlight and pointer.
        handle_mouse(&mut state, mouse(MouseKind::Move, row, 5));
        assert!(!pointer_over_control(&state));
        assert_eq!(view(&state).hovered_file(), None);
        let (after, _) = draw(&mut state, 120, 30);
        assert_eq!(after[row], before[row]);
    }
}

#[test]
fn hover_uses_current_layout_and_never_targets_controls_behind_overlays() {
    let mut state = with_status("## main\0 M a.rs\0 M b.rs\0");
    draw(&mut state, 120, 30);
    let row = view(&state).layout.file_rows[0].0;
    let column = view(&state).layout.divider + 5;
    handle_mouse(&mut state, mouse(MouseKind::Move, row, column));
    assert_eq!(view(&state).hovered_file(), Some(0));

    // Refreshing/reordering files beneath a stationary mouse follows the screen row.
    let v = view_mut(&mut state);
    v.status = parse_status_porcelain("## main\0M  staged.rs\0 M a.rs\0 M b.rs\0");
    v.flat = v.status.flat();
    draw(&mut state, 120, 30);
    let v = view(&state);
    assert_eq!(v.flat[v.hovered_file().unwrap()].path, "staged.rs");

    view_mut(&mut state).commit_menu = Some(CommitMenuState::default());
    draw(&mut state, 120, 30);
    assert_eq!(view(&state).hovered_file(), None);
    view_mut(&mut state).confirm = Some(Confirm::DiscardAll);
    draw(&mut state, 120, 30);
    assert_eq!(view(&state).mouse_target(), None);
    assert!(!pointer_over_control(&state));
    let hit = view(&state).layout.confirm_rows[0];
    handle_mouse(&mut state, mouse(MouseKind::Move, hit.row, hit.x0));
    assert!(pointer_over_control(&state));
    assert!(view(&state).confirm.is_some());
}

#[test]
fn hover_stops_at_panel_edges_and_clears_on_focus_loss() {
    let mut state = with_status("## main\0 M a.rs\0 M b.rs\0");
    draw(&mut state, 120, 30);
    let row = view(&state).layout.file_rows[1].0;
    let divider = view(&state).layout.divider;
    for column in [divider, 120] {
        handle_mouse(&mut state, mouse(MouseKind::Move, row, column));
        assert!(!pointer_over_control(&state));
    }
    handle_mouse(&mut state, mouse(MouseKind::Move, row, divider + 5));
    assert!(pointer_over_control(&state));
    handle_event(&mut state, Event::FocusLost);
    assert!(!pointer_over_control(&state));
    assert_eq!(view(&state).hovered_file(), None);
    // Input fields keep the text cursor.
    handle_mouse(&mut state, mouse(MouseKind::Move, 1, divider + 5));
    assert!(!pointer_over_control(&state));
}

#[test]
fn visible_menu_arrow_opens_menu() {
    for columns in [40, 60, 80, 120, 200] {
        for amend in [false, true] {
            let mut state = state();
            view_mut(&mut state).amend = amend;
            view_mut(&mut state).commit = "message must survive".into();
            let (frame, _) = draw(&mut state, columns, 30);
            let plain = strip_ansi(&frame[4]);
            let arrow_byte = plain.find('∨').expect("menu arrow must be visible");
            let column = visible_width(&plain[..arrow_byte]);
            handle_mouse(&mut state, mouse(MouseKind::Press, 4, column));
            let view = view(&state);
            assert!(
                view.commit_menu.is_some(),
                "columns={columns}, amend={amend}: {}",
                view.notice
            );
            assert_eq!(view.commit, "message must survive");
            assert!(view.notice.is_empty());
        }
    }
}

#[test]
fn unstaged_header_plus_stages_all_changes() {
    for columns in [60, 120] {
        let mut state = with_status("## main\0 M tracked.txt\0?? new.txt\0");
        let (frame, _) = draw(&mut state, columns, 30);
        let (row, plain) = frame
            .iter()
            .enumerate()
            .map(|(row, line)| (row, strip_ansi(line)))
            .find(|(_, line)| line.contains("UNSTAGED"))
            .unwrap();
        let plus = plain.rfind('+').unwrap();
        let column = visible_width(&plain[..plus]);
        assert_eq!(
            view(&state).layout.target(ScreenPoint { row, column }),
            Some(MouseTarget::StageAll)
        );
        handle_event(&mut state, Event::Mouse(mouse(MouseKind::Press, row, column)));
        assert_eq!(
            state.git_job.as_ref().map(|job| job.task),
            Some(Task::Simple(SimpleCommand::StageAll))
        );
        let job = state.git_job.as_ref().unwrap();
        let (id, task) = (job.id, job.task);
        let work = answer(begin(state.git_view.clone(), None, task), |words| {
            if words[0] == "add" {
                assert_eq!(words, ["add", "-A"]);
                Ok(String::new())
            } else if words.iter().any(|word| word == "status") {
                Ok("## main\0M  tracked.txt\0A  new.txt\0".into())
            } else {
                Ok(String::new())
            }
        });
        assert!(hear(&mut state, id, JobOutcome::Finished(work.state), 0));
        assert_eq!(view(&state).status.staged.len(), 2);
        assert!(view(&state).status.unstaged.is_empty());
        assert!(view(&state).status.untracked.is_empty());
        draw(&mut state, columns, 30);
        assert!(view(&state).layout.stage_all_row.is_none());
    }
}

#[test]
fn commit_message_box_is_labeled_and_focuses_on_click() {
    let mut state = state();
    let cells = |frame: &[String]| -> Vec<String> {
        frame
            .iter()
            .map(|line| {
                // Drop the transcript side past the first divider; the box
                // itself contains border cells.
                let stripped = strip_ansi(line);
                let mut parts = stripped.split('│');
                parts.next();
                parts.collect::<Vec<_>>().join("│")
            })
            .collect()
    };
    // Unfocused: a labeled box whose hint names the edit key (Enter here
    // opens diffs, so it must not promise a commit).
    let (frame, cursor) = draw(&mut state, 120, 30);
    let right = cells(&frame);
    assert!(
        right[1].starts_with('╭') && right[1].contains("Message"),
        "labeled top border, got {:?}",
        right[1]
    );
    assert!(
        right[2].contains("(e to edit)"),
        "unfocused hint names the edit key, got {:?}",
        right[2]
    );
    assert!(right[3].starts_with('╰'), "bottom border, got {:?}", right[3]);
    assert!(frame[1].contains("\x1b[2m╭"), "unfocused border stays dim");
    assert_eq!(cursor, hidden_cursor());

    // Clicking even the border focuses the input: the border accents, the
    // hint explains committing, and the text cursor parks on the input row.
    let divider = view(&state).layout.divider;
    handle_event(&mut state, Event::Mouse(mouse(MouseKind::Press, 1, divider + 5)));
    assert_eq!(view(&state).focus, GitFocus::Commit);
    let (frame, cursor) = draw(&mut state, 120, 30);
    let right = cells(&frame);
    assert!(
        right[2].contains("Type a message"),
        "focused hint explains committing, got {:?}",
        right[2]
    );
    assert!(
        !frame[1].contains("\x1b[2m╭"),
        "focused border accents instead of dimming"
    );
    assert_eq!(cursor.0, COMMIT_BOX_INPUT + 1);
    view_mut(&mut state).commit = "abcdef".into();
    view_mut(&mut state).commit_cursor = 2;
    let (frame, cursor) = draw(&mut state, 120, 30);
    let input = strip_ansi(&frame[COMMIT_BOX_INPUT]);
    let text_start = input.find("abcdef").unwrap();
    assert_eq!(
        cursor,
        (COMMIT_BOX_INPUT + 1, visible_width(&input[..text_start]) + 3)
    );
}

#[test]
fn file_selection_stays_visible() {
    let status = parse_status_porcelain("## main\0 M a\0 M b\0 M c\0 M d\0 M e\0 M f\0");
    let mut view = GitView::new("/unused".into(), status);
    view.selected = 4;
    view.ensure_selection_visible(5);
    let area = file_area_rows(&view);
    let start = file_area_start(&view, &area, 5);
    assert!(
        area.iter()
            .skip(start)
            .take(5)
            .any(|row| matches!(row, FileAreaRow::File(i) if *i == view.selected)),
        "selected file is below rendered window"
    );
}

fn assert_plain_repository_text(lines: &[String]) {
    for line in lines {
        assert!(!line.contains("\x1b[2J"));
        assert!(!line.contains("\x1b]52"));
        assert!(!strip_ansi(line).chars().any(char::is_control));
    }
}

#[test]
fn repository_text_cannot_inject_terminal_controls() {
    let hostile = "name\x1b[2J\x1b]52;c;dGVzdA==\x07\r\x08";
    let mut state = state();
    let v = view_mut(&mut state);
    v.status.branch = hostile.into();
    v.status.upstream = Some(hostile.into());
    v.status.untracked.push(GitFile {
        path: hostile.into(),
        x: '?',
        y: '?',
        section: GitSection::Untracked,
        renamed_from: Some(hostile.into()),
    });
    v.flat = v.status.flat();
    v.commit = hostile.into();
    v.notice = hostile.into();
    v.history.push(HistoryEntry {
        short: hostile.into(),
        subject: hostile.into(),
        author: hostile.into(),
        date: hostile.into(),
        refs: hostile.into(),
        ..HistoryEntry::default()
    });
    for confirm in [false, true] {
        if confirm {
            handle_key(&mut state, Key::Char('d'));
        }
        let (frame, _) = draw(&mut state, 200, 40);
        assert_plain_repository_text(&frame);
    }
    view_mut(&mut state).confirm = None;
    view_mut(&mut state).show_log = true;
    assert_plain_repository_text(&render_log(view_mut(&mut state), 200, 30));
    view_mut(&mut state).branches.push(hostile.into());
    assert_plain_repository_text(&render_branches(view(&state), white(), 200, 30));
    // Rendering must not modify the paths used for Git operations.
    assert_eq!(view(&state).flat[0].path, hostile);

    let mut flow = GitInitFlow::new(hostile.into());
    flow.remote = hostile.into();
    flow.error = Some(hostile.into());
    state.git_init = Some(flow);
    assert_plain_repository_text(&render_init(&state, UiColor::white(), 200, 30).0);
}

#[test]
fn selection_stays_visible_across_headers_and_resizes() {
    let mut state = with_status("## main\0M  a\0MM b\0 M c\0?? d\0?? e\0");
    let count = view(&state).flat.len();
    for rows in [10, 12, 16, 24] {
        for selected in (0..count).chain((0..count).rev()) {
            view_mut(&mut state).selected = selected;
            draw(&mut state, 80, rows);
            assert!(
                view(&state).layout.file_rows.iter().any(|(_, index)| *index == selected),
                "selected {selected} absent at height {rows}"
            );
        }
    }
}

#[test]
fn wheel_up_moves_git_lists_toward_the_top() {
    // Button 64 (wheel-up) decodes to +3, button 65 (wheel-down) to -3. All
    // git offsets count from the top, so wheel-up must shrink them.
    let mut state =
        with_status("## main\0 M a.rs\0 M b.rs\0 M c.rs\0 M d.rs\0 M e.rs\0 M f.rs\0");
    view_mut(&mut state).file_scroll = 5;
    view_mut(&mut state).focus = GitFocus::Files;
    handle_event(&mut state, Event::MouseScroll(3));
    assert_eq!(view(&state).file_scroll, 2);
    handle_event(&mut state, Event::MouseScroll(-3));
    assert_eq!(view(&state).file_scroll, 5);

    view_mut(&mut state).focus = GitFocus::History;
    view_mut(&mut state).history = commits(10);
    view_mut(&mut state).history_scroll = 5;
    handle_event(&mut state, Event::MouseScroll(3));
    assert_eq!(view(&state).history_scroll, 2);
    handle_event(&mut state, Event::MouseScroll(-3));
    assert_eq!(view(&state).history_scroll, 5);

    view_mut(&mut state).focus = GitFocus::Diff;
    view_mut(&mut state).diff =
        Some(parse_unified_diff("a.rs", false, "@@ -1 +1 @@\n-old\n+new\n"));
    view_mut(&mut state).diff.as_mut().unwrap().scroll = 5;
    handle_event(&mut state, Event::MouseScroll(3));
    assert_eq!(view(&state).diff.as_ref().unwrap().scroll, 2);
    handle_event(&mut state, Event::MouseScroll(-3));
    assert_eq!(view(&state).diff.as_ref().unwrap().scroll, 5);

    view_mut(&mut state).focus = GitFocus::Files;
    view_mut(&mut state).show_log = true;
    view_mut(&mut state).log_scroll = 5;
    handle_event(&mut state, Event::MouseScroll(3));
    assert_eq!(view(&state).log_scroll, 2);
    handle_event(&mut state, Event::MouseScroll(-3));
    assert_eq!(view(&state).log_scroll, 5);
}

#[test]
fn two_escapes_close_an_open_diff_and_the_dashboard() {
    let mut state = with_status("## main\0 M a.rs\0");
    view_mut(&mut state).diff = Some(parse_unified_diff("a.rs", false, "@@ -1 +1 @@\n-a\n+b\n"));
    handle_event(&mut state, Event::Key(Key::Escape));
    assert!(view(&state).diff.is_none(), "first Escape must close the diff");
    handle_event(&mut state, Event::Key(Key::Escape));
    assert!(state.git_view.is_none(), "second Escape must close /git");
}

// Work

#[test]
fn a_refresh_asks_for_the_status_first() {
    let work = begin(state().git_view, None, Task::Refresh);
    match &work.ask {
        Ask::Git(root, words, _) => {
            assert_eq!(root, "/unused");
            assert!(words.iter().any(|word| word == "status"));
        }
        other => panic!("unexpected {other:?}"),
    }
    let work = resume_git(work, Ok("## main\0 M a.rs\0".into()), 7);
    let view = work.state.git_view.as_ref().unwrap();
    assert_eq!(view.status.branch, "main");
    assert_eq!(view.flat.len(), 1);
}

#[test]
fn a_failed_commit_keeps_the_message() {
    let mut state = with_status("## main\0M  a.rs\0");
    view_mut(&mut state).commit = "keep message".into();
    let work = begin(state.git_view.take(), None, Task::Commit(CommitMode::Commit));
    let work = resume_git(work, Err("nothing to commit".into()), 1);
    assert_eq!(work.state.git_view.as_ref().unwrap().commit, "keep message");
}

// Setup and lines

#[test]
fn the_setup_takes_the_remote_and_starts() {
    let mut state = GitState::default();
    state.git_init = Some(GitInitFlow::new("/work".into()));
    handle_init_event(&mut state, Event::Paste("git@host:repo".into()));
    assert_eq!(state.git_init.as_ref().unwrap().remote, "git@host:repo");
    handle_init_event(&mut state, Event::Key(Key::Enter));
    assert_eq!(state.git_job.as_ref().map(|job| job.task), Some(Task::Initialize));
}

#[test]
fn a_setup_is_run_again_after_its_push_failed() {
    let mut flow = GitInitFlow::new("/work".into());
    flow.remote = " missing ".into();
    let ran = std::cell::RefCell::new(Vec::new());
    let note = |words: &[String]| ran.borrow_mut().push(words.join(" "));
    let work = answer(begin(None, Some(flow), Task::Initialize), |words| {
        note(words);
        match words.join(" ").as_str() {
            "diff --cached --quiet" | "remote get-url origin" => Err("no".into()),
            "push -u origin main" => Err("unreachable".into()),
            _ => Ok(String::new()),
        }
    });
    let mut flow = work.state.git_init.unwrap();
    assert_eq!(
        flow.error.as_deref(),
        Some("The local repository is ready on branch main, but the push failed: unreachable")
    );
    assert!(ran.borrow().contains(&"commit -m first commit".to_string()));
    assert!(ran.borrow().contains(&"remote add origin missing".to_string()));
    ran.borrow_mut().clear();
    flow.remote = "host".into();
    let work = answer(begin(None, Some(flow), Task::Initialize), |words| {
        note(words);
        Ok(String::new())
    });
    assert_eq!(
        *ran.borrow(),
        [
            "init",
            "add README.md",
            "diff --cached --quiet",
            "branch -M main",
            "remote get-url origin",
            "remote set-url origin host",
            "push -u origin main"
        ]
    );
    assert!(matches!(work.ask, Ask::Root));
    assert_eq!(
        work.farewell.as_deref(),
        Some("Initialized a git repository and pushed to host.")
    );
    assert_eq!(readme_text(&Some("work".into())), "# work\n");
    assert_eq!(readme_text(&None), "# Project\n");
}

#[test]
fn rows_fill_the_screen_and_show_the_selected_file() {
    let output: String =
        (0..40).map(|index| format!(" M file{index:02}.rs\0")).collect();
    let mut state = with_status(&format!("## main\0{output}"));
    for (selected, columns, rows) in [(0, 60, 12), (39, 120, 30), (20, 40, 10)] {
        view_mut(&mut state).selected = selected;
        let (frame, _) = draw(&mut state, columns, rows);
        assert_eq!(frame.len(), rows);
        assert!(frame.iter().all(|row| visible_width(row) == columns));
        let name = format!("file{selected:02}.rs");
        assert!(frame.iter().any(|row| strip_ansi(row).contains(&name)), "{name}");
    }
}

#[test]
fn backspace_undoes_what_was_typed() {
    let mut text = "ab".to_string();
    let mut cursor = 1;
    line_insert(&mut text, &mut cursor, "x");
    assert_eq!((text.as_str(), cursor), ("axb", 2));
    assert!(line_edit(&mut text, &mut cursor, Key::Backspace));
    assert_eq!((text.as_str(), cursor), ("ab", 1));
}

#[test]
fn the_repository_is_looked_at_every_second() {
    let mut view = GitView::new("/unused".into(), GitStatus::default());
    assert!(poll_due(&view, 0));
    view.last_poll = Some(500);
    assert!(!poll_due(&view, 400));
    assert!(!poll_due(&view, 1499));
    assert!(poll_due(&view, 1500));
}
