//! Keyboard and mouse of the git dashboard.
//!
//! A key or a click changes the dashboard and may ask for something that the
//! dashboard cannot do by itself.

use vstd::prelude::*;
use crate::events::{Event, EventModel, Key, MouseEvent, MouseKind};
use crate::git::jobs::{GitState, SimpleCommand, StateModel, Task};
use crate::git::line::{edited, inserted, line_edit, line_insert, Line};
use crate::git::view::{
    CommitMenuState, CommitMode, Confirm, ConfirmModel, DiffModel, FileAction, FileModel, GitFile,
    GitFocus, GitSection, GitView, LoadedDiff, MouseTarget, ScreenPoint, ViewModel,
    HISTORY_PRELOAD_THRESHOLD, MENU_ITEMS, SCROLL_ANCHOR_PENDING,
};
use crate::model::{copy_option, option_view, Modeled};
use crate::text::{chars_of, is_whitespace, trim, trimmed, whitespace};

verus! {

broadcast use vstd::string::group_string_axioms;

/// What a key or a click asks for.
#[derive(Debug, Clone, Copy, PartialEq, Eq, Structural)]
pub enum Request {
    Nothing,
    Start(Task),
    /// Do what the confirmation asks, and take it down once that runs.
    Discard,
    /// Load older commits where the oldest loaded one is near.
    LoadMore,
    /// Load the history anew and show it as a log.
    ShowLog,
    Close,
}

// ---------------------------------------------------------------------------
// Small steps

pub open spec fn less(a: usize, n: usize) -> usize {
    if a >= n {
        (a - n) as usize
    } else {
        0
    }
}

pub open spec fn more(a: usize, n: usize) -> usize {
    if a + n <= usize::MAX {
        (a + n) as usize
    } else {
        usize::MAX
    }
}

/// A selection moved down in a list, up to its last row; a list without rows
/// keeps it.
pub open spec fn down(selected: usize, n: usize, len: nat) -> usize {
    if len == 0 {
        selected
    } else if selected + n < len {
        (selected + n) as usize
    } else {
        (len - 1) as usize
    }
}

fn move_down(selected: usize, n: usize, len: usize) -> (r: usize)
    ensures
        r == down(selected, n, len as nat),
{
    if len == 0 {
        selected
    } else if selected < len && n < len - selected {
        selected + n
    } else {
        len - 1
    }
}

pub open spec fn is_cancel(key: Key) -> bool {
    key == Key::Escape || key == Key::Ctrl('c')
}

fn cancels(key: Key) -> (r: bool)
    ensures
        r == is_cancel(key),
{
    key == Key::Escape || key == Key::Ctrl('c')
}

pub open spec fn is_up(key: Key) -> bool {
    key == Key::Up || key == Key::Char('k')
}

fn moves_up(key: Key) -> (r: bool)
    ensures
        r == is_up(key),
{
    key == Key::Up || key == Key::Char('k')
}

pub open spec fn is_down(key: Key) -> bool {
    key == Key::Down || key == Key::Char('j')
}

fn moves_down(key: Key) -> (r: bool)
    ensures
        r == is_down(key),
{
    key == Key::Down || key == Key::Char('j')
}

pub open spec fn has_whitespace(s: Seq<char>) -> bool {
    exists|i: int| 0 <= i < s.len() && whitespace(#[trigger] s[i])
}

/// Whether a message can name a branch.
pub open spec fn names_branch(message: Seq<char>) -> bool {
    trimmed(message).len() > 0 && !has_whitespace(trimmed(message))
}

fn is_branch_name(message: &String) -> (r: bool)
    ensures
        r == names_branch(message@),
{
    let name = trim(&chars_of(message.as_str()));
    let mut i: usize = 0;
    while i < name.len()
        invariant
            i <= name@.len(),
            name@ == trimmed(message@),
            forall|k: int| 0 <= k < i ==> !whitespace(#[trigger] name@[k]),
        decreases name@.len() - i,
    {
        if is_whitespace(name[i]) {
            assert(whitespace(name@[i as int]));
            return false;
        }
        i += 1;
    }
    name.len() > 0
}

/// A diff with its first-change anchor given up: explicit scrolling wins.
pub open spec fn anchored(diff: DiffModel) -> DiffModel {
    DiffModel {
        scroll: if diff.scroll == SCROLL_ANCHOR_PENDING {
            0
        } else {
            diff.scroll
        },
        ..diff
    }
}

pub open spec fn scrolled(diff: DiffModel, up: bool, n: usize) -> DiffModel {
    let d = anchored(diff);
    DiffModel {
        scroll: if up {
            less(d.scroll, n)
        } else {
            more(d.scroll, n)
        },
        ..d
    }
}

/// Gives up a pending anchor before manual scrolling.
pub fn resolve_diff_scroll(diff: &mut LoadedDiff)
    ensures
        final(diff)@ == anchored(old(diff)@),
{
    if diff.scroll == SCROLL_ANCHOR_PENDING {
        diff.scroll = 0;
    }
}

pub open spec fn scrolled_diff(diff: Option<DiffModel>, up: bool, n: usize) -> Option<DiffModel> {
    match diff {
        Some(d) => Some(scrolled(d, up, n)),
        None => None,
    }
}

fn scroll_diff(diff: &mut Option<LoadedDiff>, up: bool, n: usize)
    ensures
        option_view(*final(diff)) == scrolled_diff(option_view(*old(diff)), up, n),
{
    match diff {
        Some(d) => {
            resolve_diff_scroll(d);
            d.scroll = if up {
                d.scroll.saturating_sub(n)
            } else {
                d.scroll.saturating_add(n)
            };
        },
        None => {},
    }
}

/// The confirmation that is asked before the changes of a file are discarded.
pub open spec fn discard_file(file: FileModel) -> ConfirmModel {
    ConfirmModel::DiscardFile {
        path: file.path,
        renamed_from: file.renamed_from,
        untracked: file.section == GitSection::Untracked,
        staged: file.section == GitSection::Staged,
    }
}

fn ask_discard(file: &GitFile) -> (r: Confirm)
    ensures
        r@ == discard_file(file@),
{
    Confirm::DiscardFile {
        path: file.path.copy(),
        renamed_from: copy_option(&file.renamed_from),
        untracked: file.section == GitSection::Untracked,
        staged: file.section == GitSection::Staged,
    }
}

// ---------------------------------------------------------------------------
// Keys of the overlays

/// A key while a confirmation is shown: it owns every key.
pub open spec fn confirm_step(v: ViewModel, key: Key) -> (ViewModel, Request) {
    if key == Key::Enter {
        (v, Request::Discard)
    } else if is_cancel(key) {
        (ViewModel { confirm: None, ..v }, Request::Nothing)
    } else {
        (v, Request::Nothing)
    }
}

fn confirm_key(view: GitView, key: Key) -> (r: (GitView, Request))
    ensures
        (r.0@, r.1) == confirm_step(view@, key),
{
    if key == Key::Enter {
        return (view, Request::Discard);
    }
    let mut view = view;
    if cancels(key) {
        view.confirm = None;
    }
    (view, Request::Nothing)
}

/// A key while the branches are shown.
pub open spec fn branches_step(v: ViewModel, key: Key) -> (ViewModel, Request) {
    if is_cancel(key) || key == Key::Char('b') {
        (ViewModel { show_branches: false, ..v }, Request::Nothing)
    } else if is_up(key) {
        (ViewModel { branch_selected: less(v.branch_selected, 1), ..v }, Request::Nothing)
    } else if is_down(key) {
        (
            ViewModel {
                branch_selected: if v.branches.len() == 0 {
                    0
                } else {
                    down(v.branch_selected, 1, v.branches.len())
                },
                ..v
            },
            Request::Nothing,
        )
    } else if key == Key::Enter {
        (
            v,
            if v.branch_selected < v.branches.len() {
                Request::Start(Task::Switch)
            } else {
                Request::Nothing
            },
        )
    } else if key == Key::Char('n') {
        if names_branch(v.commit) {
            (v, Request::Start(Task::CreateBranch))
        } else {
            (
                v.with_notice("Type a branch name in the message box, then press n."@, true),
                Request::Nothing,
            )
        }
    } else {
        (v, Request::Nothing)
    }
}

fn branches_key(view: GitView, key: Key) -> (r: (GitView, Request))
    ensures
        (r.0@, r.1) == branches_step(view@, key),
{
    let mut view = view;
    if cancels(key) || key == Key::Char('b') {
        view.show_branches = false;
    } else if moves_up(key) {
        view.branch_selected = view.branch_selected.saturating_sub(1);
    } else if moves_down(key) {
        view.branch_selected = if view.branches.len() == 0 {
            0
        } else {
            move_down(view.branch_selected, 1, view.branches.len())
        };
    } else if key == Key::Enter {
        if view.branch_selected < view.branches.len() {
            return (view, Request::Start(Task::Switch));
        }
    } else if key == Key::Char('n') {
        if is_branch_name(&view.commit) {
            return (view, Request::Start(Task::CreateBranch));
        }
        view.set_notice(
            "Type a branch name in the message box, then press n.".to_owned(),
            true,
        );
    }
    (view, Request::Nothing)
}

/// The item of the commit menu that is run. The amend item only flips the flag
/// and keeps the menu open.
pub open spec fn menu_run(v: ViewModel, selected: usize) -> (ViewModel, Request) {
    if selected == 0 {
        (v, Request::Start(Task::Commit(CommitMode::Commit)))
    } else if selected == 1 {
        (v, Request::Start(Task::Commit(CommitMode::AndPush)))
    } else if selected == 2 {
        (v, Request::Start(Task::Commit(CommitMode::AndSync)))
    } else if selected == 3 {
        (ViewModel { amend: !v.amend, ..v }, Request::Nothing)
    } else {
        (ViewModel { commit_menu: None, ..v }, Request::Nothing)
    }
}

/// Runs the highlighted item of the commit menu; the first where none is open.
pub open spec fn menu_activated(v: ViewModel) -> (ViewModel, Request) {
    menu_run(
        v,
        match v.commit_menu {
            Some(menu) => menu.selected,
            None => 0,
        },
    )
}

fn activate_commit_menu(view: GitView) -> (r: (GitView, Request))
    ensures
        (r.0@, r.1) == menu_activated(view@),
{
    let selected: usize = match view.commit_menu {
        Some(menu) => menu.selected,
        None => 0,
    };
    if selected == 0 {
        return (view, Request::Start(Task::Commit(CommitMode::Commit)));
    }
    if selected == 1 {
        return (view, Request::Start(Task::Commit(CommitMode::AndPush)));
    }
    if selected == 2 {
        return (view, Request::Start(Task::Commit(CommitMode::AndSync)));
    }
    let mut view = view;
    if selected == 3 {
        view.amend = !view.amend;
    } else {
        view.commit_menu = None;
    }
    (view, Request::Nothing)
}

/// A key while the commit menu is open, where the menu takes the key.
pub open spec fn menu_step(v: ViewModel, menu: CommitMenuState, key: Key) -> Option<
    (ViewModel, Request),
> {
    if is_up(key) {
        Some(
            (
                ViewModel {
                    commit_menu: Some(CommitMenuState { selected: less(menu.selected, 1) }),
                    ..v
                },
                Request::Nothing,
            ),
        )
    } else if is_down(key) {
        Some(
            (
                ViewModel {
                    commit_menu: Some(
                        CommitMenuState { selected: down(menu.selected, 1, MENU_ITEMS as nat) },
                    ),
                    ..v
                },
                Request::Nothing,
            ),
        )
    } else if key == Key::Enter {
        Some(menu_activated(v))
    } else if is_cancel(key) || key == Key::Tab || key == Key::Char('v') {
        Some((ViewModel { commit_menu: None, ..v }, Request::Nothing))
    } else {
        None
    }
}

// ---------------------------------------------------------------------------
// Keys of the panels

/// A key while the commit message has the focus.
pub open spec fn message_step(v: ViewModel, key: Key) -> (ViewModel, Request) {
    if is_cancel(key) {
        (ViewModel { focus: GitFocus::Files, ..v }, Request::Nothing)
    } else if key == Key::Enter || key == Key::Ctrl('g') {
        (v, Request::Start(Task::Commit(CommitMode::Commit)))
    } else if key == Key::Tab {
        (
            ViewModel {
                focus: if v.diff is Some {
                    GitFocus::Diff
                } else {
                    GitFocus::Files
                },
                ..v
            },
            Request::Nothing,
        )
    } else {
        match edited(Line { text: v.commit, cursor: v.commit_cursor }, key) {
            Some(line) => (
                ViewModel { commit: line.text, commit_cursor: line.cursor, ..v },
                Request::Nothing,
            ),
            None => (v, Request::Nothing),
        }
    }
}

fn message_key(view: GitView, key: Key) -> (r: (GitView, Request))
    ensures
        (r.0@, r.1) == message_step(view@, key),
{
    let mut view = view;
    if cancels(key) {
        view.focus = GitFocus::Files;
    } else if key == Key::Enter || key == Key::Ctrl('g') {
        return (view, Request::Start(Task::Commit(CommitMode::Commit)));
    } else if key == Key::Tab {
        view.focus = if view.diff.is_some() {
            GitFocus::Diff
        } else {
            GitFocus::Files
        };
    } else {
        let mut text = view.commit;
        let mut cursor: usize = view.commit_cursor;
        let _ = line_edit(&mut text, &mut cursor, key);
        view.commit = text;
        view.commit_cursor = cursor;
    }
    (view, Request::Nothing)
}

/// The request that stages the selected file, or unstages a staged one.
pub open spec fn toggle_stage(v: ViewModel) -> Request {
    match v.selected_file() {
        Some(file) => Request::Start(
            Task::SetFileStaged(v.selected, file.section != GitSection::Staged),
        ),
        None => Request::Nothing,
    }
}

fn toggle_stage_selected(view: &GitView) -> (r: Request)
    ensures
        r == toggle_stage(view@),
{
    match view.selected_file() {
        Some(file) => Request::Start(
            Task::SetFileStaged(view.selected, file.section != GitSection::Staged),
        ),
        None => Request::Nothing,
    }
}

/// A key while the diff has the focus.
pub open spec fn diff_step(v: ViewModel, key: Key) -> (ViewModel, Request) {
    let scroll = |up: bool, n: usize| ViewModel { diff: scrolled_diff(v.diff, up, n), ..v };
    if is_cancel(key) || key == Key::Tab {
        (ViewModel { focus: GitFocus::Files, ..v }, Request::Nothing)
    } else if is_up(key) {
        (scroll(true, 1), Request::Nothing)
    } else if is_down(key) {
        (scroll(false, 1), Request::Nothing)
    } else if key == Key::PageUp {
        (scroll(true, 10), Request::Nothing)
    } else if key == Key::PageDown {
        (scroll(false, 10), Request::Nothing)
    } else if key == Key::Enter {
        (ViewModel { diff: None, focus: GitFocus::Files, ..v }, Request::Nothing)
    } else if key == Key::Char(' ') {
        (v, toggle_stage(v))
    } else {
        (v, Request::Nothing)
    }
}

fn diff_key(view: GitView, key: Key) -> (r: (GitView, Request))
    ensures
        (r.0@, r.1) == diff_step(view@, key),
{
    let mut view = view;
    if cancels(key) || key == Key::Tab {
        view.focus = GitFocus::Files;
    } else if moves_up(key) {
        scroll_diff(&mut view.diff, true, 1);
    } else if moves_down(key) {
        scroll_diff(&mut view.diff, false, 1);
    } else if key == Key::PageUp {
        scroll_diff(&mut view.diff, true, 10);
    } else if key == Key::PageDown {
        scroll_diff(&mut view.diff, false, 10);
    } else if key == Key::Enter {
        view.diff = None;
        view.focus = GitFocus::Files;
    } else if key == Key::Char(' ') {
        let request = toggle_stage_selected(&view);
        return (view, request);
    }
    (view, Request::Nothing)
}

/// A key while the history has the focus.
pub open spec fn history_step(v: ViewModel, key: Key) -> (ViewModel, Request) {
    let n = v.history.len();
    if is_cancel(key) {
        (ViewModel { focus: GitFocus::Files, ..v }, Request::Nothing)
    } else if key == Key::Tab {
        (ViewModel { focus: GitFocus::Commit, ..v }, Request::Nothing)
    } else if is_up(key) {
        (ViewModel { history_selected: less(v.history_selected, 1), ..v }, Request::Nothing)
    } else if is_down(key) {
        (ViewModel { history_selected: down(v.history_selected, 1, n), ..v }, Request::LoadMore)
    } else if key == Key::PageUp {
        (ViewModel { history_selected: less(v.history_selected, 5), ..v }, Request::Nothing)
    } else if key == Key::PageDown {
        (ViewModel { history_selected: down(v.history_selected, 5, n), ..v }, Request::LoadMore)
    } else if key == Key::Enter || key == Key::Right || key == Key::Char('l') {
        (v, Request::Start(Task::OpenCommitDiff))
    } else {
        (v, Request::Nothing)
    }
}

fn history_key(view: GitView, key: Key) -> (r: (GitView, Request))
    ensures
        (r.0@, r.1) == history_step(view@, key),
{
    let mut view = view;
    let n: usize = view.history.len();
    if cancels(key) {
        view.focus = GitFocus::Files;
    } else if key == Key::Tab {
        view.focus = GitFocus::Commit;
    } else if moves_up(key) {
        view.history_selected = view.history_selected.saturating_sub(1);
    } else if moves_down(key) {
        view.history_selected = move_down(view.history_selected, 1, n);
        return (view, Request::LoadMore);
    } else if key == Key::PageUp {
        view.history_selected = view.history_selected.saturating_sub(5);
    } else if key == Key::PageDown {
        view.history_selected = move_down(view.history_selected, 5, n);
        return (view, Request::LoadMore);
    } else if key == Key::Enter || key == Key::Right || key == Key::Char('l') {
        return (view, Request::Start(Task::OpenCommitDiff));
    }
    (view, Request::Nothing)
}

/// The keys that move among the files or scroll the log.
pub open spec fn files_motion(v: ViewModel, key: Key) -> Option<(ViewModel, Request)> {
    let n = v.flat.len();
    let up = |count: usize|
        if v.show_log {
            ViewModel { log_scroll: less(v.log_scroll, count), ..v }
        } else {
            ViewModel { selected: less(v.selected, count), ..v }
        };
    let lower = |count: usize|
        if v.show_log {
            ViewModel { log_scroll: more(v.log_scroll, count), ..v }
        } else {
            ViewModel { selected: down(v.selected, count, n), ..v }
        };
    if is_up(key) {
        Some((up(1), Request::Nothing))
    } else if is_down(key) {
        Some((lower(1), Request::LoadMore))
    } else if key == Key::PageUp {
        Some((up(10), Request::Nothing))
    } else if key == Key::PageDown {
        Some((lower(10), Request::LoadMore))
    } else {
        None
    }
}

fn files_up(view: GitView, count: usize) -> (r: GitView)
    ensures
        r@ == if view@.show_log {
            ViewModel { log_scroll: less(view@.log_scroll, count), ..view@ }
        } else {
            ViewModel { selected: less(view@.selected, count), ..view@ }
        },
{
    let mut view = view;
    if view.show_log {
        view.log_scroll = view.log_scroll.saturating_sub(count);
    } else {
        view.selected = view.selected.saturating_sub(count);
    }
    view
}

fn files_down(view: GitView, count: usize) -> (r: GitView)
    ensures
        r@ == if view@.show_log {
            ViewModel { log_scroll: more(view@.log_scroll, count), ..view@ }
        } else {
            ViewModel { selected: down(view@.selected, count, view@.flat.len()), ..view@ }
        },
{
    let mut view = view;
    if view.show_log {
        view.log_scroll = view.log_scroll.saturating_add(count);
    } else {
        view.selected = move_down(view.selected, count, view.flat.len());
    }
    view
}

/// The command that a key runs, whatever is selected.
pub open spec fn command_of(key: Key) -> Option<Task> {
    if key == Key::Char('a') {
        Some(Task::Simple(SimpleCommand::StageAll))
    } else if key == Key::Char('u') {
        Some(Task::Simple(SimpleCommand::UnstageAll))
    } else if key == Key::Char('C') {
        Some(Task::Commit(CommitMode::Commit))
    } else if key == Key::Char('p') {
        Some(Task::Simple(SimpleCommand::Push))
    } else if key == Key::Char('f') {
        Some(Task::Simple(SimpleCommand::Fetch))
    } else if key == Key::Char('F') {
        Some(Task::Simple(SimpleCommand::Pull))
    } else if key == Key::Char('S') {
        Some(Task::Simple(SimpleCommand::StashPop))
    } else if key == Key::Char('r') {
        Some(Task::Refresh)
    } else {
        None
    }
}

fn key_command(key: Key) -> (r: Option<Task>)
    ensures
        r == command_of(key),
{
    match key {
        Key::Char('a') => Some(Task::Simple(SimpleCommand::StageAll)),
        Key::Char('u') => Some(Task::Simple(SimpleCommand::UnstageAll)),
        Key::Char('C') => Some(Task::Commit(CommitMode::Commit)),
        Key::Char('p') => Some(Task::Simple(SimpleCommand::Push)),
        Key::Char('f') => Some(Task::Simple(SimpleCommand::Fetch)),
        Key::Char('F') => Some(Task::Simple(SimpleCommand::Pull)),
        Key::Char('S') => Some(Task::Simple(SimpleCommand::StashPop)),
        Key::Char('r') => Some(Task::Refresh),
        _ => None,
    }
}

/// The request of a key that reads the dashboard without changing it.
pub open spec fn files_request(v: ViewModel, key: Key) -> Option<Request> {
    let some_file = !v.show_log && v.flat.len() > 0;
    if command_of(key) is Some {
        Some(Request::Start(command_of(key)->0))
    } else if key == Key::Enter || key == Key::Right {
        Some(
            if some_file {
                Request::Start(Task::OpenSelectedDiff)
            } else {
                Request::Nothing
            },
        )
    } else if key == Key::Char(' ') {
        Some(
            if !v.show_log {
                toggle_stage(v)
            } else {
                Request::Nothing
            },
        )
    } else if key == Key::Char('+') {
        Some(
            if some_file {
                Request::Start(Task::SetFileStaged(v.selected, true))
            } else {
                Request::Nothing
            },
        )
    } else if key == Key::Char('-') {
        Some(
            if some_file {
                Request::Start(Task::SetFileStaged(v.selected, false))
            } else {
                Request::Nothing
            },
        )
    } else if key == Key::Char('s') {
        Some(
            Request::Start(
                if trimmed(v.commit).len() == 0 {
                    Task::Simple(SimpleCommand::Stash)
                } else {
                    Task::StashMessage
                },
            ),
        )
    } else if key == Key::Char('b') {
        Some(Request::Start(Task::LoadBranches))
    } else {
        None
    }
}

fn files_asks(view: &GitView, key: Key) -> (r: Option<Request>)
    ensures
        r == files_request(view@, key),
{
    match key_command(key) {
        Some(task) => return Some(Request::Start(task)),
        None => {},
    }
    let some_file = !view.show_log && view.flat.len() > 0;
    match key {
        Key::Enter | Key::Right => Some(
            if some_file {
                Request::Start(Task::OpenSelectedDiff)
            } else {
                Request::Nothing
            },
        ),
        Key::Char(' ') => Some(
            if !view.show_log {
                toggle_stage_selected(view)
            } else {
                Request::Nothing
            },
        ),
        Key::Char('+') => Some(
            if some_file {
                Request::Start(Task::SetFileStaged(view.selected, true))
            } else {
                Request::Nothing
            },
        ),
        Key::Char('-') => Some(
            if some_file {
                Request::Start(Task::SetFileStaged(view.selected, false))
            } else {
                Request::Nothing
            },
        ),
        Key::Char('s') => {
            let message = trim(&chars_of(view.commit.as_str()));
            Some(
                Request::Start(
                    if message.len() == 0 {
                        Task::Simple(SimpleCommand::Stash)
                    } else {
                        Task::StashMessage
                    },
                ),
            )
        },
        Key::Char('b') => Some(Request::Start(Task::LoadBranches)),
        _ => None,
    }
}

/// A key that changes what the dashboard shows.
pub open spec fn files_change(v: ViewModel, key: Key) -> (ViewModel, Request) {
    if is_cancel(key) {
        if v.diff is Some {
            (ViewModel { diff: None, ..v }, Request::Nothing)
        } else if v.show_log {
            (ViewModel { show_log: false, ..v }, Request::Nothing)
        } else {
            (v, Request::Close)
        }
    } else if key == Key::Tab {
        (ViewModel { focus: GitFocus::History, ..v }, Request::Nothing)
    } else if key == Key::Left || key == Key::Char('h') {
        (ViewModel { diff: None, ..v }, Request::Nothing)
    } else if key == Key::Char('e') {
        (ViewModel { focus: GitFocus::Commit, ..v }, Request::Nothing)
    } else if key == Key::Char('m') {
        (ViewModel { amend: !v.amend, ..v }, Request::Nothing)
    } else if key == Key::Char('v') {
        (
            ViewModel {
                commit_menu: if v.commit_menu is Some {
                    None
                } else {
                    Some(CommitMenuState { selected: 0 })
                },
                ..v
            },
            Request::Nothing,
        )
    } else if key == Key::Char('d') {
        (
            match v.selected_file() {
                Some(file) => ViewModel { confirm: Some(discard_file(file)), ..v },
                None => v,
            },
            Request::Nothing,
        )
    } else if key == Key::Char('D') {
        (ViewModel { confirm: Some(ConfirmModel::DiscardAll), ..v }, Request::Nothing)
    } else if key == Key::Char('l') {
        if v.show_log {
            (ViewModel { show_log: false, ..v }, Request::Nothing)
        } else if v.root.len() > 0 {
            (v, Request::ShowLog)
        } else {
            (v, Request::Nothing)
        }
    } else {
        (v, Request::Nothing)
    }
}

fn files_changes(view: GitView, key: Key) -> (r: (GitView, Request))
    ensures
        (r.0@, r.1) == files_change(view@, key),
{
    let mut view = view;
    if cancels(key) {
        if view.diff.is_some() {
            view.diff = None;
        } else if view.show_log {
            view.show_log = false;
        } else {
            return (view, Request::Close);
        }
        return (view, Request::Nothing);
    }
    match key {
        Key::Tab => {
            view.focus = GitFocus::History;
        },
        Key::Left | Key::Char('h') => {
            view.diff = None;
        },
        Key::Char('e') => {
            view.focus = GitFocus::Commit;
        },
        Key::Char('m') => {
            view.amend = !view.amend;
        },
        Key::Char('v') => {
            view.commit_menu = if view.commit_menu.is_some() {
                None
            } else {
                Some(CommitMenuState { selected: 0 })
            };
        },
        Key::Char('d') => {
            let confirm = match view.selected_file() {
                Some(file) => Some(ask_discard(file)),
                None => None,
            };
            if confirm.is_some() {
                view.confirm = confirm;
            }
        },
        Key::Char('D') => {
            view.confirm = Some(Confirm::DiscardAll);
        },
        Key::Char('l') => {
            if view.show_log {
                view.show_log = false;
            } else if !view.root.as_str().is_empty() {
                return (view, Request::ShowLog);
            }
        },
        _ => {},
    }
    (view, Request::Nothing)
}

/// A key while the files have the focus.
pub open spec fn files_step(v: ViewModel, key: Key) -> (ViewModel, Request) {
    match files_motion(v, key) {
        Some(step) => step,
        None => match files_request(v, key) {
            Some(request) => (v, request),
            None => files_change(v, key),
        },
    }
}

fn files_key(view: GitView, key: Key) -> (r: (GitView, Request))
    ensures
        (r.0@, r.1) == files_step(view@, key),
{
    if moves_up(key) {
        return (files_up(view, 1), Request::Nothing);
    }
    if moves_down(key) {
        return (files_down(view, 1), Request::LoadMore);
    }
    if key == Key::PageUp {
        return (files_up(view, 10), Request::Nothing);
    }
    if key == Key::PageDown {
        return (files_down(view, 10), Request::LoadMore);
    }
    match files_asks(&view, key) {
        Some(request) => (view, request),
        None => files_changes(view, key),
    }
}

/// A key where no overlay takes it.
pub open spec fn panel_step(v: ViewModel, key: Key) -> (ViewModel, Request) {
    if is_cancel(key) && v.diff is Some {
        // The visible diff closes in one step, whichever panel has the focus.
        (ViewModel { diff: None, focus: GitFocus::Files, ..v }, Request::Nothing)
    } else {
        match v.focus {
            GitFocus::Commit => message_step(v, key),
            GitFocus::Diff => diff_step(v, key),
            GitFocus::History => history_step(v, key),
            GitFocus::Files => files_step(v, key),
        }
    }
}

fn panel_key(view: GitView, key: Key) -> (r: (GitView, Request))
    ensures
        (r.0@, r.1) == panel_step(view@, key),
{
    if cancels(key) && view.diff.is_some() {
        let mut view = view;
        view.diff = None;
        view.focus = GitFocus::Files;
        return (view, Request::Nothing);
    }
    match view.focus {
        GitFocus::Commit => message_key(view, key),
        GitFocus::Diff => diff_key(view, key),
        GitFocus::History => history_key(view, key),
        GitFocus::Files => files_key(view, key),
    }
}

/// What a key makes of the dashboard, and what it asks for. A confirmation
/// takes every key, then the branches, then the commit menu; a key that the
/// menu does not take closes it and goes on to the panels.
pub open spec fn key_step(v: ViewModel, key: Key) -> (ViewModel, Request) {
    if v.confirm is Some {
        confirm_step(v, key)
    } else if v.show_branches {
        branches_step(v, key)
    } else {
        match v.commit_menu {
            Some(menu) => match menu_step(v, menu, key) {
                Some(step) => step,
                None => panel_step(ViewModel { commit_menu: None, ..v }, key),
            },
            None => panel_step(v, key),
        }
    }
}

fn menu_key(view: GitView, menu: CommitMenuState, key: Key) -> (r: (GitView, Request))
    requires
        view@.commit_menu == Some(menu),
    ensures
        (r.0@, r.1) == match menu_step(view@, menu, key) {
            Some(step) => step,
            None => panel_step(ViewModel { commit_menu: None, ..view@ }, key),
        },
{
    let mut view = view;
    if moves_up(key) {
        view.commit_menu = Some(CommitMenuState { selected: menu.selected.saturating_sub(1) });
        return (view, Request::Nothing);
    }
    if moves_down(key) {
        view.commit_menu = Some(
            CommitMenuState { selected: move_down(menu.selected, 1, MENU_ITEMS) },
        );
        return (view, Request::Nothing);
    }
    if key == Key::Enter {
        return activate_commit_menu(view);
    }
    view.commit_menu = None;
    if cancels(key) || key == Key::Tab || key == Key::Char('v') {
        return (view, Request::Nothing);
    }
    panel_key(view, key)
}

/// What a key makes of the dashboard; see `key_step`.
pub fn view_key(view: GitView, key: Key) -> (r: (GitView, Request))
    ensures
        (r.0@, r.1) == key_step(view@, key),
{
    if view.confirm.is_some() {
        return confirm_key(view, key);
    }
    if view.show_branches {
        return branches_key(view, key);
    }
    match view.commit_menu {
        Some(menu) => menu_key(view, menu, key),
        None => panel_key(view, key),
    }
}

// ---------------------------------------------------------------------------
// Mouse

/// What a click on a target makes of the dashboard, and what it asks for.
pub open spec fn click_step(v: ViewModel, target: Option<MouseTarget>) -> (ViewModel, Request) {
    match target {
        None => (v, Request::Nothing),
        Some(MouseTarget::Confirm(true)) => (v, Request::Discard),
        Some(MouseTarget::Confirm(false)) => (
            ViewModel { confirm: None, ..v },
            Request::Nothing,
        ),
        Some(MouseTarget::CloseDiff) => (
            ViewModel {
                diff: None,
                show_log: false,
                show_branches: false,
                focus: GitFocus::Files,
                ..v
            },
            Request::Nothing,
        ),
        Some(MouseTarget::MenuItem(item)) => menu_activated(
            ViewModel {
                commit_menu: match v.commit_menu {
                    Some(_) => Some(CommitMenuState { selected: item }),
                    None => None,
                },
                ..v
            },
        ),
        Some(MouseTarget::Commit) => (v, Request::Start(Task::Commit(CommitMode::Commit))),
        Some(MouseTarget::StageAll) => (
            v,
            Request::Start(Task::Simple(SimpleCommand::StageAll)),
        ),
        Some(MouseTarget::DismissMenu) => (
            ViewModel { commit_menu: None, ..v },
            Request::Nothing,
        ),
        Some(MouseTarget::ToggleMenu) => (
            ViewModel { commit_menu: Some(CommitMenuState { selected: 0 }), ..v },
            Request::Nothing,
        ),
        Some(MouseTarget::FileAction(index, FileAction::Stage(staged))) => (
            ViewModel { selected: index, focus: GitFocus::Files, confirm: None, ..v },
            Request::Start(Task::SetFileStaged(index, staged)),
        ),
        Some(MouseTarget::FileAction(index, FileAction::Discard)) => (
            ViewModel {
                selected: index,
                focus: GitFocus::Files,
                confirm: if index < v.flat.len() {
                    Some(discard_file(v.flat[index as int]))
                } else {
                    v.confirm
                },
                ..v
            },
            Request::Nothing,
        ),
        Some(MouseTarget::CommitInput) => (
            ViewModel { focus: GitFocus::Commit, confirm: None, ..v },
            Request::Nothing,
        ),
        Some(MouseTarget::File(index)) => (
            ViewModel { selected: index, focus: GitFocus::Files, confirm: None, ..v },
            Request::Start(Task::OpenSelectedDiff),
        ),
        Some(MouseTarget::History(index)) => (
            ViewModel { history_selected: index, focus: GitFocus::History, confirm: None, ..v },
            Request::Start(Task::OpenCommitDiff),
        ),
    }
}

/// What a mouse event makes of the dashboard: the pointer moves, and a press
/// clicks what it points at.
pub open spec fn mouse_step(v: ViewModel, mouse: MouseEvent) -> (ViewModel, Request) {
    let moved = ViewModel {
        mouse_position: Some(ScreenPoint { row: mouse.row, column: mouse.column }),
        ..v
    };
    if mouse.kind == MouseKind::Press {
        click_step(moved, moved.mouse_target())
    } else {
        (moved, Request::Nothing)
    }
}

fn click_file(view: GitView, index: usize, action: FileAction) -> (r: (GitView, Request))
    ensures
        (r.0@, r.1) == click_step(view@, Some(MouseTarget::FileAction(index, action))),
{
    let mut view = view;
    view.selected = index;
    view.focus = GitFocus::Files;
    match action {
        FileAction::Stage(staged) => {
            view.confirm = None;
            (view, Request::Start(Task::SetFileStaged(index, staged)))
        },
        FileAction::Discard => {
            if index < view.flat.len() {
                let confirm = ask_discard(&view.flat[index]);
                view.confirm = Some(confirm);
            }
            (view, Request::Nothing)
        },
    }
}

fn click(view: GitView, target: MouseTarget) -> (r: (GitView, Request))
    ensures
        (r.0@, r.1) == click_step(view@, Some(target)),
{
    let mut view = view;
    match target {
        MouseTarget::Confirm(yes) => {
            if yes {
                return (view, Request::Discard);
            }
            view.confirm = None;
        },
        MouseTarget::CloseDiff => {
            view.diff = None;
            view.show_log = false;
            view.show_branches = false;
            view.focus = GitFocus::Files;
        },
        MouseTarget::MenuItem(item) => {
            if view.commit_menu.is_some() {
                view.commit_menu = Some(CommitMenuState { selected: item });
            }
            return activate_commit_menu(view);
        },
        MouseTarget::Commit => {
            return (view, Request::Start(Task::Commit(CommitMode::Commit)));
        },
        MouseTarget::StageAll => {
            return (view, Request::Start(Task::Simple(SimpleCommand::StageAll)));
        },
        MouseTarget::DismissMenu => {
            view.commit_menu = None;
        },
        MouseTarget::ToggleMenu => {
            view.commit_menu = Some(CommitMenuState { selected: 0 });
        },
        MouseTarget::FileAction(index, action) => {
            return click_file(view, index, action);
        },
        MouseTarget::CommitInput => {
            view.focus = GitFocus::Commit;
            view.confirm = None;
        },
        MouseTarget::File(index) => {
            view.selected = index;
            view.focus = GitFocus::Files;
            view.confirm = None;
            return (view, Request::Start(Task::OpenSelectedDiff));
        },
        MouseTarget::History(index) => {
            view.history_selected = index;
            view.focus = GitFocus::History;
            view.confirm = None;
            return (view, Request::Start(Task::OpenCommitDiff));
        },
    }
    (view, Request::Nothing)
}

/// What a mouse event makes of the dashboard; see `mouse_step`.
pub fn view_mouse(view: GitView, mouse: MouseEvent) -> (r: (GitView, Request))
    ensures
        (r.0@, r.1) == mouse_step(view@, mouse),
{
    let mut view = view;
    view.mouse_position = Some(ScreenPoint { row: mouse.row, column: mouse.column });
    if mouse.kind != MouseKind::Press {
        return (view, Request::Nothing);
    }
    match view.mouse_target() {
        Some(target) => click(view, target),
        None => (view, Request::Nothing),
    }
}

// ---------------------------------------------------------------------------
// Wheel

/// The first commit that a window on the history shows.
pub open spec fn history_start(v: ViewModel, visible: nat) -> usize {
    if v.history.len() <= visible {
        0
    } else if v.history_scroll <= v.history.len() - visible {
        v.history_scroll
    } else {
        (v.history.len() - visible) as usize
    }
}

pub fn history_top(view: &GitView, visible: usize) -> (r: usize)
    ensures
        r == history_start(view@, visible as nat),
{
    let n: usize = view.history.len();
    if n <= visible {
        0
    } else if view.history_scroll <= n - visible {
        view.history_scroll
    } else {
        n - visible
    }
}

/// An offset from the top after the wheel turned: up, with a positive amount,
/// toward the top.
pub open spec fn wheeled(offset: usize, amount: int) -> usize {
    if amount > 0 {
        less(offset, amount as usize)
    } else {
        more(offset, (-amount) as usize)
    }
}

fn wheel(offset: usize, amount: i32) -> (r: usize)
    ensures
        r == wheeled(offset, amount as int),
{
    if amount > 0 {
        offset.saturating_sub(amount as usize)
    } else {
        let n: i64 = -(amount as i64);
        offset.saturating_add(n as usize)
    }
}

/// Whether a row shows a commit.
pub open spec fn shows_commit(v: ViewModel, row: usize) -> bool {
    crate::git::view::row_entry(v.layout.history_rows, row) is Some
}

/// Whether the wheel turns the history: the pointer is over it or, where there
/// is no pointer, it has the focus.
pub open spec fn wheels_history(v: ViewModel) -> bool {
    match v.mouse_position {
        Some(p) => v.layout.in_panel(p) && shows_commit(v, p.row),
        None => v.focus == GitFocus::History,
    }
}

/// The history after the wheel turned over it: the selection stays in view.
pub open spec fn history_wheeled(v: ViewModel, amount: int) -> ViewModel {
    let turned = ViewModel { history_scroll: wheeled(v.history_scroll, amount), ..v };
    let visible = v.layout.history_rows.len();
    if visible == 0 {
        turned
    } else {
        let top = history_start(turned, visible);
        ViewModel {
            history_scroll: top,
            history_selected: if v.history_selected < top {
                top
            } else if v.history_selected > top + visible - 1 {
                (top + visible - 1) as usize
            } else {
                v.history_selected
            },
            ..turned
        }
    }
}

/// What the wheel makes of the dashboard. Offsets count from the top, so that
/// a positive amount makes them smaller.
pub open spec fn wheel_step(v: ViewModel, amount: int) -> (ViewModel, Request) {
    if v.confirm is Some {
        (v, Request::Nothing)
    } else {
        (
            if wheels_history(v) {
                history_wheeled(v, amount)
            } else if v.show_log {
                ViewModel { log_scroll: wheeled(v.log_scroll, amount), ..v }
            } else if v.focus == GitFocus::Diff || v.diff is Some {
                ViewModel {
                    diff: match v.diff {
                        Some(diff) => Some(
                            DiffModel { scroll: wheeled(anchored(diff).scroll, amount), ..diff },
                        ),
                        None => None,
                    },
                    ..v
                }
            } else {
                ViewModel { file_scroll: wheeled(v.file_scroll, amount), ..v }
            },
            Request::LoadMore,
        )
    }
}

fn is_history_wheel(view: &GitView) -> (r: bool)
    ensures
        r == wheels_history(view@),
{
    match view.mouse_position {
        Some(p) => view.layout.holds(p) && view.layout.commit_at(p.row),
        None => view.focus == GitFocus::History,
    }
}

fn wheel_history(view: GitView, amount: i32) -> (r: GitView)
    ensures
        r@ == history_wheeled(view@, amount as int),
{
    let mut view = view;
    view.history_scroll = wheel(view.history_scroll, amount);
    let visible: usize = view.layout.history_rows.len();
    if visible > 0 {
        let top: usize = history_top(&view, visible);
        view.history_scroll = top;
        if view.history_selected < top {
            view.history_selected = top;
        } else if view.history_selected - top > visible - 1 {
            view.history_selected = top + (visible - 1);
        }
    }
    view
}

/// What the wheel makes of the dashboard; see `wheel_step`.
pub fn view_wheel(view: GitView, amount: i32) -> (r: (GitView, Request))
    ensures
        (r.0@, r.1) == wheel_step(view@, amount as int),
{
    if view.confirm.is_some() {
        return (view, Request::Nothing);
    }
    if is_history_wheel(&view) {
        return (wheel_history(view, amount), Request::LoadMore);
    }
    let mut view = view;
    if view.show_log {
        view.log_scroll = wheel(view.log_scroll, amount);
    } else if view.focus == GitFocus::Diff || view.diff.is_some() {
        match &mut view.diff {
            Some(diff) => {
                resolve_diff_scroll(diff);
                diff.scroll = wheel(diff.scroll, amount);
            },
            None => {},
        }
    } else {
        view.file_scroll = wheel(view.file_scroll, amount);
    }
    (view, Request::LoadMore)
}

// ---------------------------------------------------------------------------
// Events

/// Whether the selection, the history window or the log is near the oldest
/// loaded commit and older ones are expected.
pub open spec fn needs_more(v: ViewModel) -> bool {
    let loaded = v.history.len();
    let near = |place: int| place + HISTORY_PRELOAD_THRESHOLD >= loaded;
    v.history_has_more && loaded > 0 && (near(v.history_selected as int) || near(
        v.history_scroll + v.layout.history_rows.len(),
    ) || (v.show_log && near(v.log_scroll + less(v.layout.height, 1))))
}

fn is_near(a: usize, b: usize, loaded: usize) -> (r: bool)
    ensures
        r == (a + b + HISTORY_PRELOAD_THRESHOLD >= loaded),
{
    loaded <= HISTORY_PRELOAD_THRESHOLD || a >= loaded - HISTORY_PRELOAD_THRESHOLD || b >= loaded
        - HISTORY_PRELOAD_THRESHOLD - a
}

fn wants_more(view: &GitView) -> (r: bool)
    ensures
        r == needs_more(view@),
{
    let loaded: usize = view.history.len();
    if !view.history_has_more || loaded == 0 {
        return false;
    }
    is_near(view.history_selected, 0, loaded) || is_near(
        view.history_scroll,
        view.layout.history_rows.len(),
        loaded,
    ) || (view.show_log && is_near(view.log_scroll, view.layout.height.saturating_sub(1), loaded))
}

impl StateModel {
    /// The state after a request. A log is loaded by the caller.
    pub open spec fn perform(self, request: Request) -> StateModel {
        match request {
            Request::Nothing | Request::ShowLog => self,
            Request::Start(task) => self.start(task),
            Request::Discard => if self.can_start(Task::Discard) {
                let started = self.start(Task::Discard);
                StateModel {
                    view: match started.view {
                        Some(v) => Some(ViewModel { confirm: None, ..v }),
                        None => None,
                    },
                    ..started
                }
            } else {
                self
            },
            Request::LoadMore => if self.job is None && self.view is Some && needs_more(
                self.view->0,
            ) {
                self.start(Task::LoadMoreHistory)
            } else {
                self
            },
            Request::Close => StateModel { view: None, ..self },
        }
    }

    /// The state after a step of the dashboard.
    pub open spec fn stepped(self, step: (ViewModel, Request)) -> StateModel {
        self.with_view(step.0).perform(step.1)
    }
}

impl GitState {
    fn perform(&mut self, request: Request)
        ensures
            final(self)@ == old(self)@.perform(request),
    {
        match request {
            Request::Nothing | Request::ShowLog => {},
            Request::Start(task) => {
                let _ = self.start(task);
            },
            Request::Discard => {
                if self.start(Task::Discard) {
                    match &mut self.git_view {
                        Some(view) => {
                            view.confirm = None;
                        },
                        None => {},
                    }
                }
            },
            Request::LoadMore => {
                let near = match &self.git_view {
                    Some(view) => wants_more(view),
                    None => false,
                };
                if near && self.git_job.is_none() {
                    let _ = self.start(Task::LoadMoreHistory);
                }
            },
            Request::Close => {
                self.git_view = None;
            },
        }
    }
}

/// The state after a key, and whether the log is to be loaded. Without a
/// dashboard only the keys that run a command do anything.
pub open spec fn keyed(s: StateModel, key: Key) -> (StateModel, bool) {
    match s.view {
        Some(v) => (s.stepped(key_step(v, key)), key_step(v, key).1 == Request::ShowLog),
        None => (
            match command_of(key) {
                Some(task) => s.start(task),
                None => if key == Key::Char('s') {
                    s.start(Task::Simple(SimpleCommand::Stash))
                } else {
                    s
                },
            },
            false,
        ),
    }
}

/// Handles a key and says whether the log is to be loaded; see `keyed`.
pub fn handle_key(state: &mut GitState, key: Key) -> (r: bool)
    ensures
        (final(state)@, r) == keyed(old(state)@, key),
{
    match state.git_view.take() {
        Some(view) => {
            let (view, request) = view_key(view, key);
            state.git_view = Some(view);
            state.perform(request);
            request == Request::ShowLog
        },
        None => {
            match key_command(key) {
                Some(task) => {
                    let _ = state.start(task);
                },
                None => {
                    if key == Key::Char('s') {
                        let _ = state.start(Task::Simple(SimpleCommand::Stash));
                    }
                },
            }
            false
        },
    }
}

/// Handles a mouse event; see `mouse_step`.
pub fn handle_mouse(state: &mut GitState, mouse: MouseEvent)
    ensures
        final(state)@ == match old(state)@.view {
            Some(v) => old(state)@.stepped(mouse_step(v, mouse)),
            None => old(state)@,
        },
{
    match state.git_view.take() {
        Some(view) => {
            let (view, request) = view_mouse(view, mouse);
            state.git_view = Some(view);
            state.perform(request);
        },
        None => {},
    }
}

/// The state with no pointer over the dashboard.
pub open spec fn unhovered(s: StateModel) -> StateModel {
    match s.view {
        Some(v) => s.with_view(ViewModel { mouse_position: None, ..v }),
        None => s,
    }
}

/// Forgets the pointer and says whether there was one.
pub fn clear_hover(state: &mut GitState) -> (r: bool)
    ensures
        final(state)@ == unhovered(old(state)@),
        r == (old(state)@.view is Some && old(state)@.view->0.mouse_position is Some),
{
    match &mut state.git_view {
        Some(view) => {
            let had = view.mouse_position.is_some();
            view.mouse_position = None;
            had
        },
        None => false,
    }
}

/// Whether the pointer is over something that a click acts on. The message
/// keeps the text cursor.
pub fn pointer_over_control(state: &GitState) -> (r: bool)
    ensures
        r == match state@.view {
            Some(v) => match v.mouse_target() {
                None | Some(MouseTarget::CommitInput) | Some(MouseTarget::DismissMenu) => false,
                _ => true,
            },
            None => false,
        },
{
    match &state.git_view {
        Some(view) => match view.mouse_target() {
            None | Some(MouseTarget::CommitInput) | Some(MouseTarget::DismissMenu) => false,
            _ => true,
        },
        None => false,
    }
}

/// A text with a space for each line feed.
pub open spec fn on_one_line(s: Seq<char>) -> Seq<char> {
    s.map_values(
        |c: char|
            if c == '\n' {
                ' '
            } else {
                c
            },
    )
}

pub fn join_lines(text: &str) -> (r: String)
    ensures
        r@ == on_one_line(text@),
{
    let mut r: String = String::new();
    for c in it: text.chars()
        invariant
            it.seq() == text@,
            r@ == on_one_line(text@.take(it.index())),
    {
        if c == '\n' {
            r.push(' ');
        } else {
            r.push(c);
        }
        assert(r@ =~= on_one_line(text@.take(it.index() + 1)));
    }
    assert(text@.take(text@.len() as int) =~= text@);
    r
}

/// The state after text was pasted: it goes into the message where that has
/// the focus.
pub open spec fn pasted(s: StateModel, text: Seq<char>) -> StateModel {
    match s.view {
        Some(v) => if v.focus == GitFocus::Commit && v.confirm is None {
            let line = inserted(
                Line { text: v.commit, cursor: v.commit_cursor },
                on_one_line(text),
            );
            s.with_view(ViewModel { commit: line.text, commit_cursor: line.cursor, ..v })
        } else {
            s
        },
        None => s,
    }
}

fn paste(state: &mut GitState, text: &str)
    ensures
        final(state)@ == pasted(old(state)@, text@),
{
    match state.git_view.take() {
        Some(view) => {
            let mut view = view;
            if view.focus == GitFocus::Commit && view.confirm.is_none() {
                let clean = join_lines(text);
                let mut message = view.commit;
                let mut cursor: usize = view.commit_cursor;
                line_insert(&mut message, &mut cursor, clean.as_str());
                view.commit = message;
                view.commit_cursor = cursor;
            }
            state.git_view = Some(view);
        },
        None => {},
    }
}

/// The state after an event, and whether the log is to be loaded. Escape
/// cancels a running job and still acts; Ctrl+C acts only where none runs.
pub open spec fn evented(s: StateModel, event: EventModel) -> (StateModel, bool) {
    let escape = event == EventModel::Key(Key::Escape);
    let interrupt = event == EventModel::Key(Key::Ctrl('c'));
    if interrupt && s.job is Some {
        (s.cancel(), false)
    } else {
        let t = if escape {
            s.cancel()
        } else {
            s
        };
        match t.view {
            None => (t, false),
            Some(v) => match event {
                EventModel::Tick | EventModel::FocusGained => (t, false),
                EventModel::FocusLost => (unhovered(t), false),
                EventModel::Paste(text) => (pasted(t, text), false),
                EventModel::MouseScroll(amount) => (t.stepped(wheel_step(v, amount)), false),
                EventModel::Mouse(mouse) => (t.stepped(mouse_step(v, mouse)), false),
                EventModel::Key(key) => keyed(unhovered(t), key),
            },
        }
    }
}

fn wheel_event(state: &mut GitState, amount: i32)
    ensures
        final(state)@ == match old(state)@.view {
            Some(v) => old(state)@.stepped(wheel_step(v, amount as int)),
            None => old(state)@,
        },
{
    match state.git_view.take() {
        Some(view) => {
            let (view, request) = view_wheel(view, amount);
            state.git_view = Some(view);
            state.perform(request);
        },
        None => {},
    }
}

/// Handles an event and says whether the log is to be loaded; see `evented`.
pub fn handle_event(state: &mut GitState, event: Event) -> (r: bool)
    ensures
        (final(state)@, r) == evented(old(state)@, event@),
{
    match &event {
        Event::Key(key) => {
            if *key == Key::Escape {
                let _ = state.cancel();
            }
            if *key == Key::Ctrl('c') && state.cancel() {
                return false;
            }
        },
        _ => {},
    }
    if state.git_view.is_none() {
        return false;
    }
    match event {
        Event::Tick | Event::FocusGained => false,
        Event::FocusLost => {
            let _ = clear_hover(state);
            false
        },
        Event::Paste(text) => {
            paste(state, text.as_str());
            false
        },
        Event::MouseScroll(amount) => {
            wheel_event(state, amount);
            false
        },
        Event::Mouse(mouse) => {
            handle_mouse(state, mouse);
            false
        },
        Event::Key(key) => {
            let _ = clear_hover(state);
            handle_key(state, key)
        },
    }
}

/// Routes an interrupt of the terminal to the git side, and says whether it
/// took it: a running job is canceled, the setup closes, and the dashboard
/// takes it as Escape.
pub fn handle_interrupt(state: &mut GitState) -> (r: bool)
    ensures
        ({
            let s = old(state)@;
            if s.job is Some {
                r && final(state)@ == s.cancel()
            } else if s.init is Some {
                r && final(state)@ == (StateModel { init: None, ..s })
            } else if s.view is Some {
                r && final(state)@ == evented(s, EventModel::Key(Key::Escape)).0
            } else {
                !r && final(state)@ == s
            }
        }),
{
    if state.cancel() {
        return true;
    }
    if state.git_init.is_some() {
        state.git_init = None;
        return true;
    }
    if state.git_view.is_none() {
        return false;
    }
    let _ = handle_event(state, Event::Key(Key::Escape));
    true
}

// ---------------------------------------------------------------------------
// Laws

/// With a diff open and no overlay, one Escape closes the diff and a second
/// one closes the dashboard, unless it shows the log, and whatever has the
/// focus.
pub proof fn two_escapes_close_the_dashboard(s: StateModel)
    requires
        s.view is Some,
        s.view->0.diff is Some,
        s.view->0.confirm is None,
        !s.view->0.show_branches,
        s.view->0.commit_menu is None,
        !s.view->0.show_log,
    ensures
        ({
            let once = evented(s, EventModel::Key(Key::Escape)).0;
            let twice = evented(once, EventModel::Key(Key::Escape)).0;
            &&& once.view is Some
            &&& once.view->0.diff is None
            &&& twice.view is None
        }),
{
}

/// Moving the pointer selects nothing, opens nothing and starts nothing.
pub proof fn hovering_only_moves_the_pointer(v: ViewModel, mouse: MouseEvent)
    requires
        mouse.kind != MouseKind::Press,
    ensures
        mouse_step(v, mouse).1 == Request::Nothing,
        mouse_step(v, mouse).0 == (ViewModel {
            mouse_position: Some(ScreenPoint { row: mouse.row, column: mouse.column }),
            ..v
        }),
{
}

/// While a confirmation is shown, a key can answer it and nothing else: only
/// Enter asks for the destructive action.
pub proof fn confirmation_owns_every_key(v: ViewModel, key: Key)
    requires
        v.confirm is Some,
    ensures
        key_step(v, key).1 == (if key == Key::Enter {
            Request::Discard
        } else {
            Request::Nothing
        }),
        key_step(v, key).0 == v || key_step(v, key).0 == (ViewModel { confirm: None, ..v }),
{
}

/// Turning the wheel back undoes a turn that did not reach an end.
pub proof fn wheel_turns_back(offset: usize, amount: int)
    requires
        0 < amount <= offset,
        amount <= i32::MAX,
    ensures
        wheeled(wheeled(offset, amount), -amount) == offset,
{
}

/// A selection moved by any key stays among the files, and among the commits.
pub proof fn keys_keep_selections_inside(v: ViewModel, key: Key)
    requires
        v.flat.len() > 0 ==> v.selected < v.flat.len(),
        v.history.len() > 0 ==> v.history_selected < v.history.len(),
    ensures
        ({
            let now = key_step(v, key).0;
            &&& now.flat == v.flat
            &&& now.history == v.history
            &&& now.flat.len() > 0 ==> now.selected < now.flat.len()
            &&& now.history.len() > 0 ==> now.history_selected < now.history.len()
        }),
{
}

/// A click on the sign beside the heading of the unstaged files stages all
/// changes, as the key does.
pub proof fn heading_stages_like_the_key(v: ViewModel)
    requires
        v.confirm is None,
        !v.show_branches,
        v.commit_menu is None,
        v.focus == GitFocus::Files,
    ensures
        click_step(v, Some(MouseTarget::StageAll)) == key_step(v, Key::Char('a')),
        click_step(v, Some(MouseTarget::StageAll)) == (
            v,
            Request::Start(Task::Simple(SimpleCommand::StageAll)),
        ),
{
}

/// A click on a file or on a commit selects it and opens its diff.
pub proof fn clicks_open_diffs(v: ViewModel, index: usize)
    ensures
        click_step(v, Some(MouseTarget::File(index))).0.selected == index,
        click_step(v, Some(MouseTarget::File(index))).1 == Request::Start(Task::OpenSelectedDiff),
        click_step(v, Some(MouseTarget::History(index))).0.history_selected == index,
        click_step(v, Some(MouseTarget::History(index))).1 == Request::Start(Task::OpenCommitDiff),
{
}

/// Tab goes from the files to the history, to the message and back to the
/// files.
pub proof fn tab_cycles_the_panels(v: ViewModel)
    requires
        v.confirm is None,
        !v.show_branches,
        v.commit_menu is None,
        v.diff is None,
        v.focus == GitFocus::Files,
    ensures
        ({
            let history = key_step(v, Key::Tab).0;
            let message = key_step(history, Key::Tab).0;
            &&& history.focus == GitFocus::History
            &&& message.focus == GitFocus::Commit
            &&& key_step(message, Key::Tab).0 == v
        }),
{
}

} // verus!
