//! What becomes of the answers of git.

use vstd::prelude::*;
use crate::git::effects::runs_in;
use crate::git::jobs::{InitModel, SimpleCommand};
use crate::git::operations::{
    file_answered, git_answered, next_limit, readme_answered, root_answered, simple_message,
    visible_file, AskModel, ThenModel, WorkModel,
};
use crate::git::repository::{
    commit_diff, commit_diff_args, diff_flags, file_args, history_args, log_entries,
    porcelain_status, status_args, unified_diff, untracked_diff,
};
use crate::git::view::{
    CommitMode, ConfirmModel, DiffModel, FileModel, GitFocus, GitSection, ViewModel,
    SCROLL_ANCHOR_PENDING,
};
use crate::text::{occurs, text_lines, trimmed};

verus! {

broadcast use vstd::string::group_string_axioms;

/// Whether work waits for an answer to go on in a certain way, with nothing
/// left to do behind it.
pub open spec fn waits(w: WorkModel, v: ViewModel, then: ThenModel) -> bool {
    &&& w.state.view == Some(v)
    &&& w.ask matches AskModel::Git(_, _, t) && t == then
    &&& w.follow is None
    &&& w.farewell is None
}

/// A commit that was made empties the message and turns amending off, says what
/// was done, and is read again; one that was not made keeps the message.
pub proof fn made_commits_empty_the_message(
    w: WorkModel,
    v: ViewModel,
    output: Seq<char>,
    error: Seq<char>,
    now: u64,
)
    requires
        waits(w, v, ThenModel::Committed(CommitMode::Commit)),
    ensures
        ({
            let done = git_answered(w, Ok(output), now);
            let failed = git_answered(w, Err(error), now);
            let shown = done.state.view->0;
            &&& done.state.view is Some && shown.commit.len() == 0 && !shown.amend
                && shown.commit_menu is None && shown.commit_cursor == 0
            &&& shown.notice == (if v.amend {
                "Amended commit."@
            } else {
                "Committed."@
            }) && !shown.notice_error
            &&& runs_in(done, v.root) && done.ask->Git_1 == status_args()
            &&& failed.state.view is Some && failed.state.view->0.commit == v.commit
                && failed.state.view->0.amend == v.amend && failed.ask is Nothing
        }),
{
}

/// A push behind a commit says whether it went through; either way the commit
/// was made, so that the message is empty.
pub proof fn pushes_behind_commits_are_told(
    w: WorkModel,
    v: ViewModel,
    mode: CommitMode,
    output: Seq<char>,
    error: Seq<char>,
    now: u64,
)
    requires
        waits(w, v, ThenModel::Pushed(mode)),
    ensures
        ({
            let done = git_answered(w, Ok(output), now).state.view->0;
            let failed = git_answered(w, Err(error), now).state.view->0;
            &&& mode == CommitMode::AndSync ==> done.notice == "Committed and synced."@
            &&& mode == CommitMode::AndPush ==> done.notice == "Committed and pushed."@
            &&& !done.notice_error && done.commit.len() == 0
            &&& failed.notice == "Committed. Push failed: "@ + error && failed.notice_error
                && failed.commit.len() == 0
        }),
{
}

/// A pull that failed before a commit makes none, and keeps the message.
pub proof fn failed_pulls_make_no_commit(
    w: WorkModel,
    v: ViewModel,
    error: Seq<char>,
    now: u64,
)
    requires
        waits(w, v, ThenModel::Pulled(CommitMode::AndSync)),
    ensures
        ({
            let failed = git_answered(w, Err(error), now);
            &&& runs_in(failed, v.root) && failed.ask->Git_1 == status_args()
            &&& failed.state.view->0.commit == v.commit && failed.state.view->0.notice_error
            &&& failed.state.view->0.notice == "Sync failed before commit: "@ + error
        }),
{
}

/// The branches that were listed are shown in the order of their names, in
/// place of the log and of a diff.
pub proof fn listed_branches_are_shown(
    w: WorkModel,
    v: ViewModel,
    output: Seq<char>,
    now: u64,
)
    requires
        waits(w, v, ThenModel::Branches),
    ensures
        ({
            let shown = git_answered(w, Ok(output), now).state.view->0;
            &&& shown.show_branches && shown.branch_selected == 0 && shown.diff is None
                && !shown.show_log
            &&& crate::order::in_order(shown.branches)
            &&& shown.branches.to_multiset() == crate::git::repository::branch_lines(
                output,
            ).to_multiset()
        }),
{
    crate::order::sorted_is_in_order(crate::git::repository::branch_lines(output));
}

/// A switch to a branch, a new branch and a stash say their name, close what
/// they were chosen from, and use the message up where it named them.
pub proof fn done_switches_say_their_name(
    w: WorkModel,
    v: ViewModel,
    output: Seq<char>,
    now: u64,
)
    requires
        w.state.view == Some(v),
        w.ask is Git,
        v.branch_selected < v.branches.len(),
    ensures
        ({
            let shown = git_answered(w, Ok(output), now).state.view->0;
            &&& w.ask->Git_2 is Switched ==> shown.notice == "Switched to "@
                + v.branches[v.branch_selected as int] + "."@ && !shown.show_branches && shown.commit
                == v.commit
            &&& w.ask->Git_2 is Created ==> shown.notice == "Created branch "@ + trimmed(v.commit)
                + "."@ && !shown.show_branches && shown.commit.len() == 0
            &&& w.ask->Git_2 is Stashed ==> shown.notice == "Stashed."@ && shown.commit.len() == 0
        }),
{
}

/// What a command says when it is done.
pub proof fn done_commands_say_so()
    ensures
        simple_message(SimpleCommand::StageAll) == "Staged all files."@,
        simple_message(SimpleCommand::UnstageAll) == "Unstaged all files."@,
        simple_message(SimpleCommand::Push) == "Pushed."@,
        simple_message(SimpleCommand::Fetch) == "Fetched."@,
        simple_message(SimpleCommand::Pull) == "Pulled."@,
        simple_message(SimpleCommand::Stash) == "Stashed."@,
        simple_message(SimpleCommand::StashPop) == "Restored stash."@,
{
}

/// A diff that was asked for opens at its first change, with the keyboard, in
/// place of the log and of the branches; one that is too long is asked for once
/// more with less around the changes.
pub proof fn asked_diffs_open(
    w: WorkModel,
    v: ViewModel,
    compact: bool,
    output: Seq<char>,
    now: u64,
)
    requires
        waits(w, v, ThenModel::OpenDiff(compact)),
        v.selected < v.flat.len(),
    ensures
        ({
            let file = v.flat[v.selected as int];
            let diff = unified_diff(file.path, file.section == GitSection::Staged, output);
            let done = git_answered(w, Ok(output), now);
            let shown = done.state.view->0;
            if diff.truncated && !compact {
                &&& runs_in(done, v.root)
                &&& done.ask->Git_1 == file_args(
                    "diff"@,
                    diff_flags(file.section == GitSection::Staged, true),
                    seq![file.path],
                )
                &&& done.ask->Git_2 == ThenModel::OpenDiff(true)
                &&& shown == v
            } else {
                &&& done.ask is Nothing && shown.focus == GitFocus::Diff && !shown.show_log
                    && !shown.show_branches
                &&& shown.diff == Some(DiffModel { scroll: SCROLL_ANCHOR_PENDING, ..diff })
            }
        }),
{
}

/// The diff of a commit opens as that of a file does, for the commit that is
/// selected.
pub proof fn asked_commits_open(
    w: WorkModel,
    v: ViewModel,
    compact: bool,
    output: Seq<char>,
    now: u64,
)
    requires
        waits(w, v, ThenModel::OpenCommit(compact)),
        v.history_selected < v.history.len(),
    ensures
        ({
            let entry = v.history[v.history_selected as int];
            let diff = commit_diff(entry, output);
            let done = git_answered(w, Ok(output), now);
            let shown = done.state.view->0;
            if diff.truncated && !compact {
                &&& runs_in(done, v.root) && done.ask->Git_1 == commit_diff_args(entry.hash, true)
                &&& done.ask->Git_2 == ThenModel::OpenCommit(true)
            } else {
                &&& done.ask is Nothing && shown.focus == GitFocus::Diff
                &&& shown.diff == Some(DiffModel { scroll: SCROLL_ANCHOR_PENDING, ..diff })
            }
        }),
{
}

/// A diff in sight that is read again stays where it was scrolled to, and the
/// keyboard stays where it was.
pub proof fn visible_diffs_keep_their_place(
    w: WorkModel,
    v: ViewModel,
    report: bool,
    index: usize,
    output: Seq<char>,
    now: u64,
)
    requires
        waits(w, v, ThenModel::VisibleDiff(report, index, true)),
        index < v.flat.len(),
        v.diff is Some,
    ensures
        ({
            let file = v.flat[index as int];
            let diff = unified_diff(file.path, file.section == GitSection::Staged, output);
            let done = git_answered(w, Ok(output), now);
            &&& done.ask is Nothing
            &&& done.state.view == Some(
                ViewModel { diff: Some(DiffModel { scroll: v.diff->0.scroll, ..diff }), ..v },
            )
        }),
{
}

/// A poll that finds the status as it was reads only the diff in sight; one
/// that finds another status shows it and reads the history. One that failed
/// changes nothing and says nothing, while a refresh that failed says so.
pub proof fn polls_are_quiet(
    w: WorkModel,
    v: ViewModel,
    raw: Seq<char>,
    error: Seq<char>,
    now: u64,
)
    requires
        waits(w, v, ThenModel::Polled),
    ensures
        git_answered(w, Err(error), now).state.view == Some(v),
        git_answered(w, Err(error), now).ask is Nothing,
        v.last_status_raw == Some(raw) ==> git_answered(w, Ok(raw), now).state.view == Some(v),
        v.last_status_raw != Some(raw) ==> git_answered(w, Ok(raw), now).state.view->0.status
            == porcelain_status(raw) && git_answered(w, Ok(raw), now).ask is Git && git_answered(
            w,
            Ok(raw),
            now,
        ).ask->Git_1 == history_args(v.history_limit),
        v.last_status_raw == Some(raw) && v.diff is None ==> git_answered(w, Ok(raw), now).ask
            is Nothing,
{
}

/// A refresh that failed says so and keeps what is shown.
pub proof fn failed_refreshes_say_so(w: WorkModel, v: ViewModel, error: Seq<char>, now: u64)
    requires
        waits(w, v, ThenModel::Refreshed),
    ensures
        ({
            let shown = git_answered(w, Err(error), now).state.view->0;
            &&& shown.notice == "Refresh failed: "@ + error && shown.notice_error
            &&& shown.status == v.status && shown.history == v.history
        }),
{
}

/// More of the history is asked for by a page of fifty; where no more came,
/// there is no more.
pub proof fn history_is_loaded_by_pages(
    w: WorkModel,
    v: ViewModel,
    limit: usize,
    output: Seq<char>,
    now: u64,
)
    requires
        waits(w, v, ThenModel::MoreHistory(limit)),
        v.history_limit + 50 < usize::MAX,
        v.history.len() <= v.history_limit,
    ensures
        next_limit(v) == v.history_limit + 50,
        ({
            let found = log_entries(text_lines(output));
            let shown = git_answered(w, Ok(output), now).state.view->0;
            &&& found.len() > v.history.len() ==> shown.history == found && shown.history_limit
                == limit
            &&& found.len() <= v.history.len() ==> !shown.history_has_more && shown.history
                == v.history
            &&& found.len() > v.history.len() && limit > 0 ==> (shown.history_has_more
                <==> found.len() >= limit)
        }),
{
}

/// The root of a repository is where its status is asked for; a directory that
/// is no repository is offered to become one; a failure is told.
pub proof fn roots_are_opened(
    w: WorkModel,
    cwd: Seq<char>,
    dir: Seq<char>,
    detail: Seq<char>,
)
    requires
        w.ask is Root,
        w.follow is None,
        w.farewell is None,
    ensures
        runs_in(root_answered(w, true, cwd, Ok(dir)), dir),
        root_answered(w, true, cwd, Ok(dir)).ask->Git_1 == status_args(),
        root_answered(w, true, cwd, Err(None)).state.init == Some(
            InitModel { dir: cwd, remote: Seq::empty(), cursor: 0, error: None },
        ),
        root_answered(w, true, cwd, Err(Some(detail))).state.notice == Some(
            "Could not open git dashboard: "@ + detail + "."@,
        ),
        root_answered(w, false, cwd, Ok(dir)).state.notice == Some("git is not installed."@),
        root_answered(w, false, cwd, Ok(dir)).ask is Nothing,
{
}

/// A new file that was read is shown whole; one that could not be read is told.
/// A file of the setup that could not be written ends it with the reason.
pub proof fn read_files_are_shown(
    w: WorkModel,
    v: ViewModel,
    root: Seq<char>,
    path: Seq<char>,
    bytes: Seq<u8>,
    error: Seq<char>,
)
    requires
        w.state.view == Some(v),
        w.ask == AskModel::File(root, path, ThenModel::OpenFile),
        w.follow is None,
        w.farewell is None,
    ensures
        ({
            let shown = file_answered(w, Ok(bytes)).state.view->0;
            let failed = file_answered(w, Err(error)).state.view->0;
            &&& shown.diff == Some(
                DiffModel { scroll: SCROLL_ANCHOR_PENDING, ..untracked_diff(path, bytes) },
            ) && shown.focus == GitFocus::Diff
            &&& failed.notice == "could not read "@ + path + ": "@ + error && failed.notice_error
                && failed.diff == v.diff
        }),
{
}

/// A `README` that could not be written ends the setup with the reason, and one
/// that was written is added.
pub proof fn readmes_are_added(
    w: WorkModel,
    dir: Seq<char>,
    flow: InitModel,
    error: Seq<char>,
)
    requires
        w.ask == AskModel::Readme(dir),
        w.state.init == Some(flow),
        w.follow is None,
        w.farewell is None,
    ensures
        runs_in(readme_answered(w, Ok(())), dir),
        readme_answered(w, Ok(())).ask->Git_1 == seq!["add"@, "README.md"@],
        readme_answered(w, Err(error)).ask is Nothing,
        readme_answered(w, Err(error)).state.init == Some(
            InitModel { error: Some("could not write README.md: "@ + error), ..flow },
        ),
{
}

/// Where git is too old to restore a file, its changes are discarded by a
/// checkout, behind a reset where they were staged.
pub proof fn old_versions_check_files_out(
    w: WorkModel,
    v: ViewModel,
    path: Seq<char>,
    staged: bool,
    error: Seq<char>,
    now: u64,
)
    requires
        waits(
            w,
            v,
            ThenModel::Restored(
                ConfirmModel::DiscardFile { path, renamed_from: None, untracked: false, staged },
            ),
        ),
        occurs(error, "is not a git command"@),
    ensures
        ({
            let next = git_answered(w, Err(error), now);
            let checkout = file_args("checkout"@, Seq::empty(), seq![path]);
            &&& runs_in(next, v.root)
            &&& !staged ==> next.ask->Git_1 == checkout && next.follow is None
            &&& staged ==> next.ask->Git_1 == file_args("reset"@, seq!["HEAD"@], seq![path])
                && next.follow is Some && next.follow->0.args == checkout
        }),
        !occurs(""@, "is not a git command"@) ==> git_answered(w, Err(""@), now).ask is Nothing,
{
    assert(crate::git::operations::discard_targets(path, None, false, staged) =~= seq![path]);
}

/// Where the selected file is gone from the status, the first one is selected;
/// where none was, the selection stays on the list.
pub proof fn gone_files_leave_the_first(v: ViewModel, raw: Seq<char>, now: u64)
    requires
        porcelain_status(raw).all().len() > 0,
    ensures
        ({
            let files = porcelain_status(raw).all();
            let shown = crate::git::operations::with_status(v, raw, now);
            &&& shown.flat == files && shown.status == porcelain_status(raw)
            &&& v.selected < v.flat.len() && (forall|i: int|
                0 <= i < files.len() ==> (#[trigger] files[i]).path
                    != v.flat[v.selected as int].path) ==> shown.selected == 0
            &&& v.selected >= v.flat.len() && v.selected < files.len() ==> shown.selected
                == v.selected
            &&& v.selected >= v.flat.len() && v.selected >= files.len() && files.len() <= usize::MAX
                ==> shown.selected == files.len() - 1
            &&& shown.last_poll == Some(now) && shown.last_status_raw == Some(raw)
        }),
{
    let files = porcelain_status(raw).all();
    if v.selected < v.flat.len() {
        let p = v.flat[v.selected as int].path;
        crate::model::first_position_finds(files, |f: FileModel| f.path == p);
    }
}

/// There may be more of the history where as many commits came as were asked
/// for; the log opens at its newest commit, in place of the branches and of a
/// diff.
pub proof fn full_histories_may_go_on(
    w: WorkModel,
    v: ViewModel,
    output: Seq<char>,
    now: u64,
)
    requires
        waits(w, v, ThenModel::StatusHistory),
        v.history_limit > 0,
    ensures
        ({
            let found = log_entries(text_lines(output));
            let shown = git_answered(w, Ok(output), now).state.view->0;
            let log = crate::git::operations::with_log(v, output);
            &&& shown.history == found && (shown.history_has_more <==> found.len()
                >= v.history_limit)
            &&& log.show_log && log.history == found && log.log_scroll == 0 && log.history_selected
                == 0 && log.diff is None && !log.show_branches && (log.history_has_more
                <==> found.len() >= v.history_limit)
        }),
{
}

/// The file of the diff in sight is the one that is listed under its path and
/// in its section; a commit has none.
pub proof fn diffs_in_sight_belong_to_their_file(v: ViewModel, diff: DiffModel)
    requires
        v.diff == Some(diff),
    ensures
        diff.commit is Some ==> visible_file(v) is None,
        visible_file(v) matches Some(i) ==> 0 <= i < v.flat.len() && v.flat[i].path == diff.path
            && v.flat[i].section == (if diff.untracked {
            GitSection::Untracked
        } else if diff.staged {
            GitSection::Staged
        } else {
            GitSection::Unstaged
        }),
{
    crate::model::first_position_finds(
        v.flat,
        |f: FileModel| crate::git::operations::shows_file(diff, f),
    );
}

/// The history that comes with a repository that is opened is shown from its
/// newest commit.
pub proof fn opened_repositories_show_their_history(
    w: WorkModel,
    v: ViewModel,
    root: Seq<char>,
    raw: Seq<char>,
    error: Seq<char>,
    now: u64,
)
    requires
        waits(w, v, ThenModel::Opened(root)),
    ensures
        ({
            let opened = git_answered(w, Ok(raw), now);
            let shown = opened.state.view->0;
            &&& runs_in(opened, root) && opened.ask->Git_1 == history_args(shown.history_limit)
            &&& shown.root == root && shown.status == porcelain_status(raw) && shown.selected == 0
            &&& git_answered(w, Err(error), now).state.notice == Some(
                "Could not read git status: "@ + error,
            )
        }),
{
}

} // verus!
