//! What the keys and the buttons of the dashboard are for.

use vstd::prelude::*;
use crate::events::Key;
use crate::git::input::{
    anchored, click_step, history_wheeled, key_step, needs_more, on_one_line, pasted,
    wheel_step, wheeled, Request,
};
use crate::git::jobs::{SimpleCommand, StateModel, Task};
use crate::git::view::{
    CommitMenuState, CommitMode, ConfirmModel, FileAction, GitFocus, GitSection, MouseTarget,
    ViewModel,
};
use crate::text::{trimmed, whitespace};

verus! {

/// Nothing stands before the panels.
pub open spec fn bare(v: ViewModel) -> bool {
    v.confirm is None && !v.show_branches && v.commit_menu is None
}

/// Nothing stands before the list of the files, which has the keyboard.
pub open spec fn on_files(v: ViewModel) -> bool {
    bare(v) && v.focus == GitFocus::Files && v.diff is None && !v.show_log
}

/// Whether a key starts a task and leaves the view as it is.
pub open spec fn starts_task(v: ViewModel, c: char, task: Task) -> bool {
    key_step(v, Key::Char(c)) == (v, Request::Start(task))
}

/// In the list of the files each letter starts the command of its own.
pub proof fn letters_start_commands(v: ViewModel)
    requires
        on_files(v),
    ensures
        starts_task(v, 'a', Task::Simple(SimpleCommand::StageAll)),
        starts_task(v, 'u', Task::Simple(SimpleCommand::UnstageAll)),
        starts_task(v, 'C', Task::Commit(CommitMode::Commit)),
        starts_task(v, 'p', Task::Simple(SimpleCommand::Push)),
        starts_task(v, 'f', Task::Simple(SimpleCommand::Fetch)),
        starts_task(v, 'F', Task::Simple(SimpleCommand::Pull)),
        starts_task(v, 'S', Task::Simple(SimpleCommand::StashPop)),
        starts_task(v, 'r', Task::Refresh),
        starts_task(v, 'b', Task::LoadBranches),
        trimmed(v.commit).len() == 0 ==> starts_task(v, 's', Task::Simple(SimpleCommand::Stash)),
        trimmed(v.commit).len() > 0 ==> starts_task(v, 's', Task::StashMessage),
{
}

/// A plus stages the selected file and a minus unstages it; a space does what
/// is not the case. None of them touches another file, and without a file they
/// do nothing.
pub proof fn signs_stage_the_selected(v: ViewModel)
    requires
        on_files(v),
        v.flat.len() > 0 ==> v.selected < v.flat.len(),
    ensures
        v.flat.len() > 0 ==> starts_task(v, '+', Task::SetFileStaged(v.selected, true)),
        v.flat.len() > 0 ==> starts_task(v, '-', Task::SetFileStaged(v.selected, false)),
        v.flat.len() > 0 && v.flat[v.selected as int].section == GitSection::Staged ==> starts_task(
            v,
            ' ',
            Task::SetFileStaged(v.selected, false),
        ),
        v.flat.len() > 0 && v.flat[v.selected as int].section != GitSection::Staged ==> starts_task(
            v,
            ' ',
            Task::SetFileStaged(v.selected, true),
        ),
        v.flat.len() == 0 ==> forall|c: char|
            c == '+' || c == '-' || c == ' ' ==> #[trigger] key_step(v, Key::Char(c)) == (
                v,
                Request::Nothing,
            ),
{
}

/// Enter and Right open the changes of the selected file, of which there must
/// be one; in the history they open those of the selected commit, as l does.
pub proof fn enter_opens_changes(v: ViewModel, key: Key)
    requires
        key == Key::Enter || key == Key::Right,
    ensures
        on_files(v) && v.flat.len() > 0 ==> key_step(v, key) == (
            v,
            Request::Start(Task::OpenSelectedDiff),
        ),
        on_files(v) && v.flat.len() == 0 ==> key_step(v, key) == (v, Request::Nothing),
        bare(v) && v.focus == GitFocus::History ==> key_step(v, key) == (
            v,
            Request::Start(Task::OpenCommitDiff),
        ) && key_step(v, Key::Char('l')) == (v, Request::Start(Task::OpenCommitDiff)),
{
}

/// Up and Down select the file before and the file behind, and the page keys
/// the tenth from there; the history goes by one and by five. Nothing else of
/// the view changes.
pub proof fn arrows_select(v: ViewModel)
    requires
        bare(v),
        v.selected < v.flat.len(),
        v.history_selected < v.history.len(),
    ensures
        ({
            let within = |n: int, len: nat|
                if n < 0 {
                    0
                } else if n >= len {
                    len - 1
                } else {
                    n
                };
            let file = |n: int|
                ViewModel { selected: within(v.selected + n, v.flat.len()) as usize, ..v };
            let commit = |n: int|
                ViewModel {
                    history_selected: within(v.history_selected + n, v.history.len()) as usize,
                    ..v
                };
            &&& on_files(v) ==> {
                &&& key_step(v, Key::Up).0 == file(-1) && key_step(v, Key::Char('k')).0 == file(-1)
                &&& key_step(v, Key::Down).0 == file(1) && key_step(v, Key::Char('j')).0 == file(1)
                &&& key_step(v, Key::PageUp).0 == file(-10)
                &&& key_step(v, Key::PageDown).0 == file(10)
            }
            &&& v.focus == GitFocus::History ==> {
                &&& key_step(v, Key::Up).0 == commit(-1)
                &&& key_step(v, Key::Down).0 == commit(1)
                &&& key_step(v, Key::PageUp).0 == commit(-5)
                &&& key_step(v, Key::PageDown).0 == commit(5)
            }
        }),
{
}

/// Going down may need more of the history; going up never does.
pub proof fn going_down_loads_more(v: ViewModel)
    requires
        bare(v),
        v.focus == GitFocus::Files || v.focus == GitFocus::History,
    ensures
        forall|key: Key|
            key == Key::Down || key == Key::PageDown || key == Key::Char('j') ==> (
            #[trigger] key_step(v, key)).1 == Request::LoadMore,
        forall|key: Key|
            key == Key::Up || key == Key::PageUp || key == Key::Char('k') ==> (
            #[trigger] key_step(v, key)).1 == Request::Nothing,
{
}

/// In a diff Up shows what stands above and Down what stands below, by one row,
/// or by ten with the page keys; Enter closes it, Tab and Escape leave it.
pub proof fn diffs_are_scrolled(v: ViewModel)
    requires
        bare(v),
        v.focus == GitFocus::Diff,
        v.diff is Some,
        10 <= v.diff->0.scroll <= usize::MAX - 11,
        anchored(v.diff->0) == v.diff->0,
    ensures
        ({
            let at = v.diff->0.scroll;
            let to = |key: Key| key_step(v, key).0.diff->0.scroll;
            &&& to(Key::Up) == at - 1 && to(Key::Char('k')) == at - 1
            &&& to(Key::Down) == at + 1 && to(Key::Char('j')) == at + 1
            &&& to(Key::PageUp) == at - 10 && to(Key::PageDown) == at + 10
            &&& key_step(v, Key::Enter).0.diff is None
            &&& key_step(v, Key::Enter).0.focus == GitFocus::Files
            &&& key_step(v, Key::Tab).0 == (ViewModel { focus: GitFocus::Files, ..v })
            &&& key_step(v, Key::Escape).0.diff is None
        }),
{
}

/// The menu of the commit runs the line that is selected: a commit, one that is
/// pushed, one that is synchronized, or the switch for amending.
pub proof fn menu_lines_run(v: ViewModel, selected: usize)
    requires
        v.confirm is None,
        !v.show_branches,
        v.commit_menu == Some(CommitMenuState { selected }),
    ensures
        ({
            let run = key_step(v, Key::Enter);
            &&& selected == 0 ==> run == (v, Request::Start(Task::Commit(CommitMode::Commit)))
            &&& selected == 1 ==> run == (v, Request::Start(Task::Commit(CommitMode::AndPush)))
            &&& selected == 2 ==> run == (v, Request::Start(Task::Commit(CommitMode::AndSync)))
            &&& selected == 3 ==> run == (ViewModel { amend: !v.amend, ..v }, Request::Nothing)
            &&& selected > 3 ==> run == (ViewModel { commit_menu: None, ..v }, Request::Nothing)
            &&& click_step(v, Some(MouseTarget::MenuItem(selected))) == run
        }),
        forall|key: Key|
            key == Key::Escape || key == Key::Ctrl('c') || key == Key::Tab || key == Key::Char('v')
                ==> #[trigger] key_step(v, key) == (
                ViewModel { commit_menu: None, ..v },
                Request::Nothing,
            ),
        selected > 0 ==> key_step(v, Key::Up).0.commit_menu == Some(
            CommitMenuState { selected: (selected - 1) as usize },
        ),
        selected < 3 ==> key_step(v, Key::Down).0.commit_menu == Some(
            CommitMenuState { selected: (selected + 1) as usize },
        ),
{
}

/// The menu opens and closes by v, and by its button.
pub proof fn menu_opens(v: ViewModel)
    requires
        on_files(v),
    ensures
        key_step(v, Key::Char('v')).0.commit_menu == Some(CommitMenuState { selected: 0 }),
        key_step(key_step(v, Key::Char('v')).0, Key::Char('v')).0 == v,
        click_step(v, Some(MouseTarget::ToggleMenu)).0.commit_menu == Some(
            CommitMenuState { selected: 0 },
        ),
        click_step(v, Some(MouseTarget::DismissMenu)).0.commit_menu is None,
        click_step(v, Some(MouseTarget::Commit)) == (
            v,
            Request::Start(Task::Commit(CommitMode::Commit)),
        ),
{
}

/// Discarding asks before it does anything: d for the selected file, with what
/// it is, and D for all of them. Only the answer discards.
pub proof fn discarding_asks_first(v: ViewModel)
    requires
        on_files(v),
        v.selected < v.flat.len(),
    ensures
        ({
            let file = v.flat[v.selected as int];
            let (one, request) = key_step(v, Key::Char('d'));
            &&& request is Nothing
            &&& one.confirm == Some(
                ConfirmModel::DiscardFile {
                    path: file.path,
                    renamed_from: file.renamed_from,
                    untracked: file.section == GitSection::Untracked,
                    staged: file.section == GitSection::Staged,
                },
            )
            &&& key_step(v, Key::Char('D')).1 is Nothing
            &&& key_step(v, Key::Char('D')).0.confirm == Some(ConfirmModel::DiscardAll)
            &&& key_step(one, Key::Enter).1 == Request::Discard
            &&& key_step(one, Key::Escape) == (v, Request::Nothing)
            &&& click_step(one, Some(MouseTarget::Confirm(true))).1 == Request::Discard
            &&& click_step(one, Some(MouseTarget::Confirm(false))) == (v, Request::Nothing)
        }),
{
}

/// A button of a file acts on that file, which is selected with it.
pub proof fn file_buttons_act_on_their_file(v: ViewModel, index: usize, staged: bool)
    requires
        index < v.flat.len(),
    ensures
        ({
            let (now, request) = click_step(
                v,
                Some(MouseTarget::FileAction(index, FileAction::Stage(staged))),
            );
            request == Request::Start(Task::SetFileStaged(index, staged)) && now.selected == index
        }),
        ({
            let file = v.flat[index as int];
            let (now, request) = click_step(
                v,
                Some(MouseTarget::FileAction(index, FileAction::Discard)),
            );
            &&& request is Nothing && now.selected == index
            &&& now.confirm == Some(
                ConfirmModel::DiscardFile {
                    path: file.path,
                    renamed_from: file.renamed_from,
                    untracked: file.section == GitSection::Untracked,
                    staged: file.section == GitSection::Staged,
                },
            )
        }),
        click_step(v, Some(MouseTarget::CommitInput)).0.focus == GitFocus::Commit,
        click_step(v, Some(MouseTarget::CloseDiff)).0.diff is None,
        click_step(v, None) == (v, Request::Nothing),
{
}

/// In the message Enter and Ctrl+G commit; Escape leads back to the files and
/// keeps the text. Where the files have the keyboard, e leads to the message.
pub proof fn messages_are_committed(v: ViewModel)
    requires
        bare(v),
        v.diff is None,
    ensures
        v.focus == GitFocus::Commit ==> key_step(v, Key::Enter) == (
            v,
            Request::Start(Task::Commit(CommitMode::Commit)),
        ) && key_step(v, Key::Ctrl('g')) == key_step(v, Key::Enter) && key_step(v, Key::Escape) == (
            ViewModel { focus: GitFocus::Files, ..v },
            Request::Nothing,
        ),
        v.focus == GitFocus::Files ==> key_step(v, Key::Char('e')) == (
            ViewModel { focus: GitFocus::Commit, ..v },
            Request::Nothing,
        ) && key_step(v, Key::Char('m')) == (
            ViewModel { amend: !v.amend, ..v },
            Request::Nothing,
        ),
{
}

/// In the list of the branches Enter switches to the one that is selected, n
/// creates one that the message names, and b or Escape closes the list.
pub proof fn branches_are_chosen(v: ViewModel)
    requires
        v.confirm is None,
        v.show_branches,
        v.branch_selected < v.branches.len() <= usize::MAX,
    ensures
        key_step(v, Key::Enter) == (v, Request::Start(Task::Switch)),
        key_step(v, Key::Char('b')) == (ViewModel { show_branches: false, ..v }, Request::Nothing),
        key_step(v, Key::Escape) == (ViewModel { show_branches: false, ..v }, Request::Nothing),
        key_step(v, Key::Up).0.branch_selected == if v.branch_selected > 0 {
            v.branch_selected - 1
        } else {
            0
        },
        key_step(v, Key::Down).0.branch_selected == if v.branch_selected + 1 < v.branches.len() {
            v.branch_selected + 1
        } else {
            v.branch_selected as int
        },
        ({
            let name = trimmed(v.commit);
            let word = name.len() > 0 && forall|i: int|
                0 <= i < name.len() ==> !whitespace(#[trigger] name[i]);
            &&& word ==> key_step(v, Key::Char('n')) == (v, Request::Start(Task::CreateBranch))
            &&& !word ==> key_step(v, Key::Char('n')).1 is Nothing
        }),
{
}

/// Escape closes what stands in front: the diff, the log, and last the
/// dashboard.
pub proof fn escape_closes_what_is_in_front(v: ViewModel, key: Key)
    requires
        bare(v),
        v.focus == GitFocus::Files,
        key == Key::Escape || key == Key::Ctrl('c'),
    ensures
        v.diff is Some ==> key_step(v, key) == (ViewModel { diff: None, ..v }, Request::Nothing),
        v.diff is None && v.show_log ==> key_step(v, key) == (
            ViewModel { show_log: false, ..v },
            Request::Nothing,
        ),
        v.diff is None && !v.show_log ==> key_step(v, key) == (v, Request::Close),
        v.show_log ==> key_step(v, Key::Char('l')).0.show_log == false,
        !v.show_log && v.root.len() > 0 ==> key_step(v, Key::Char('l')) == (v, Request::ShowLog),
{
}

/// The wheel shows what stands above when it is turned up, and what stands
/// below when it is turned down, by as many rows as it was turned.
pub proof fn wheels_turn_both_ways(offset: usize, amount: int)
    requires
        0 < amount <= offset,
        offset + amount <= usize::MAX,
    ensures
        wheeled(offset, amount) == offset - amount,
        wheeled(offset, -amount) == offset + amount,
{
}

/// The wheel turns the panel that it is over or that is shown: the log where it
/// is open, else the diff, else the list of the files. While a question stands
/// it turns nothing.
pub proof fn wheels_turn_one_panel(v: ViewModel, amount: int)
    requires
        v.mouse_position is None,
        v.focus != GitFocus::History,
    ensures
        ({
            let now = wheel_step(v, amount).0;
            &&& v.confirm is Some ==> wheel_step(v, amount) == (v, Request::Nothing)
            &&& v.confirm is None && v.show_log ==> now == (ViewModel {
                log_scroll: wheeled(v.log_scroll, amount),
                ..v
            })
            &&& v.confirm is None && !v.show_log && v.diff is Some ==> now.diff is Some
                && now.diff->0.scroll == wheeled(anchored(v.diff->0).scroll, amount)
                && now.file_scroll == v.file_scroll
            &&& v.confirm is None && !v.show_log && v.diff is None && v.focus != GitFocus::Diff
                ==> now == (ViewModel { file_scroll: wheeled(v.file_scroll, amount), ..v })
        }),
{
}

/// While the wheel turns the history, the selected commit stays in sight.
pub proof fn selected_commits_stay_in_sight(v: ViewModel, amount: int)
    requires
        v.layout.history_rows.len() > 0,
        v.layout.history_rows.len() <= v.history.len() <= usize::MAX,
    ensures
        ({
            let now = history_wheeled(v, amount);
            let shown = v.layout.history_rows.len();
            &&& now.history_scroll <= now.history_selected < now.history_scroll + shown
            &&& now.history_scroll + shown <= v.history.len()
        }),
{
}

/// What is pasted stands in the message as one line, where the message has the
/// keyboard; elsewhere it is dropped.
pub proof fn pastes_reach_the_message(s: StateModel, text: Seq<char>)
    requires
        s.view is Some,
        s.view->0.commit_cursor == s.view->0.commit.len(),
    ensures
        s.view->0.focus == GitFocus::Commit && s.view->0.confirm is None ==> pasted(
            s,
            text,
        ).view->0.commit == s.view->0.commit + on_one_line(text),
        s.view->0.focus != GitFocus::Commit ==> pasted(s, text) == s,
        !on_one_line(text).contains('\n'),
        on_one_line(text).len() == text.len(),
{
    let v = s.view->0;
    crate::git::line::only_line_feeds_are_left_out(on_one_line(text));
    if v.focus == GitFocus::Commit && v.confirm is None {
        assert(pasted(s, text).view->0.commit =~= v.commit + on_one_line(text));
    }
}

/// More of the history is loaded where there is more and the selection, or the
/// end of what is in sight, is near the end of what is loaded.
pub proof fn nearing_the_end_loads_more(v: ViewModel)
    requires
        !v.show_log,
    ensures
        needs_more(v) <==> v.history_has_more && v.history.len() > 0 && (v.history_selected
            + crate::git::view::HISTORY_PRELOAD_THRESHOLD >= v.history.len() || v.history_scroll
            + v.layout.history_rows.len() + crate::git::view::HISTORY_PRELOAD_THRESHOLD
            >= v.history.len()),
{
}

/// The pointer is forgotten when the window loses the focus, and at every key;
/// nothing else of the dashboard changes then.
pub proof fn pointers_are_forgotten(s: StateModel, v: ViewModel)
    requires
        s.view == Some(v),
        s.job is None,
    ensures
        ({
            let now = crate::git::input::evented(s, crate::events::EventModel::FocusLost).0;
            now.view == Some(ViewModel { mouse_position: None, ..v })
        }),
        crate::git::input::evented(s, crate::events::EventModel::Tick).0 == s,
        crate::git::input::evented(s, crate::events::EventModel::FocusGained).0 == s,
{
}

/// Ctrl+C stops a task that runs, and leaves the dashboard as it is; Escape
/// stops it too, and closes what is in front.
pub proof fn running_tasks_are_stopped(s: StateModel, v: ViewModel)
    requires
        s.view == Some(v),
        s.job is Some,
        on_files(v),
    ensures
        ({
            let stopped = crate::git::input::evented(
                s,
                crate::events::EventModel::Key(Key::Ctrl('c')),
            ).0;
            let closed = crate::git::input::evented(
                s,
                crate::events::EventModel::Key(Key::Escape),
            ).0;
            &&& stopped.job is Some && stopped.job->0.canceled && stopped.view == s.view
            &&& closed.job is Some && closed.job->0.canceled && closed.view is None
        }),
{
}

} // verus!
