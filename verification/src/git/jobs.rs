//! Background git work: what is started, and what its results change.
//!
//! A job works on a copy of the dashboard. Its result is merged with what was
//! typed and moved in the meantime.

use vstd::prelude::*;
use crate::git::view::{
    CommitMenuState, CommitMode, Confirm, DiffModel, EntryModel, FileModel, GitFile, GitFocus,
    GitView, HistoryEntry, LoadedDiff, ScreenPoint, ViewModel,
};
use crate::model::{
    copy_option, first_position, option_view, same_all, same_option, views, Modeled,
};

verus! {

broadcast use vstd::string::group_string_axioms;

/// A git command without arguments of its own.
#[derive(Debug, Clone, Copy, PartialEq, Eq, Structural)]
pub enum SimpleCommand {
    StageAll,
    UnstageAll,
    Push,
    Fetch,
    Pull,
    Stash,
    StashPop,
}

/// What a job does. What it works on stands in the copy of the dashboard that
/// it is started with.
#[derive(Debug, Clone, Copy, PartialEq, Eq, Structural)]
pub enum Task {
    /// Look whether the repository has changed.
    Poll,
    Refresh,
    OpenDashboard,
    /// Make a repository of the directory of the setup and push it.
    Initialize,
    LoadMoreHistory,
    LoadBranches,
    OpenSelectedDiff,
    OpenCommitDiff,
    Commit(CommitMode),
    SetFileStaged(usize, bool),
    /// Do what the confirmation asked.
    Discard,
    /// Switch to the selected branch.
    Switch,
    /// Create a branch named by the message.
    CreateBranch,
    /// Stash under the message.
    StashMessage,
    Simple(SimpleCommand),
}

impl Task {
    /// What is shown while the task runs; empty for one that runs unseen.
    pub open spec fn title(self) -> Seq<char> {
        match self {
            Task::Poll => ""@,
            Task::Refresh => "Refreshing…"@,
            Task::OpenDashboard => "Opening git dashboard…"@,
            Task::Initialize => "Initializing repository…"@,
            Task::LoadMoreHistory => "Loading more history…"@,
            Task::LoadBranches => "Loading branches…"@,
            Task::OpenSelectedDiff => "Loading diff…"@,
            Task::OpenCommitDiff => "Loading commit…"@,
            Task::Commit(_) => "Committing…"@,
            Task::SetFileStaged(_, _) => "Updating index…"@,
            Task::Discard => "Discarding…"@,
            Task::Switch | Task::CreateBranch | Task::StashMessage | Task::Simple(_) =>
                "Running git…"@,
        }
    }

    pub fn label(&self) -> (r: &'static str)
        ensures
            r@ == self.title(),
    {
        match self {
            Task::Poll => "",
            Task::Refresh => "Refreshing…",
            Task::OpenDashboard => "Opening git dashboard…",
            Task::Initialize => "Initializing repository…",
            Task::LoadMoreHistory => "Loading more history…",
            Task::LoadBranches => "Loading branches…",
            Task::OpenSelectedDiff => "Loading diff…",
            Task::OpenCommitDiff => "Loading commit…",
            Task::Commit(_) => "Committing…",
            Task::SetFileStaged(_, _) => "Updating index…",
            Task::Discard => "Discarding…",
            Task::Switch | Task::CreateBranch | Task::StashMessage | Task::Simple(_) =>
                "Running git…",
        }
    }

    /// Whether the task only looks, and gives way to any other.
    pub open spec fn silent(self) -> bool {
        self == Task::Poll
    }
}

/// A job that runs.
#[derive(Debug)]
pub struct GitJob {
    /// Tells a job from those before it.
    pub id: u64,
    pub task: Task,
    pub canceled: bool,
    /// The dashboard as the job was started.
    pub original: Option<GitView>,
}

pub struct JobModel {
    pub id: u64,
    pub task: Task,
    pub canceled: bool,
    pub original: Option<ViewModel>,
}

impl View for GitJob {
    type V = JobModel;

    open spec fn view(&self) -> JobModel {
        JobModel {
            id: self.id,
            task: self.task,
            canceled: self.canceled,
            original: option_view(self.original),
        }
    }
}

/// The setup that is shown outside a work tree: it asks for a remote and makes
/// the first push.
#[derive(Debug)]
pub struct GitInitFlow {
    pub dir: String,
    pub remote: String,
    pub cursor: usize,
    pub error: Option<String>,
}

pub struct InitModel {
    pub dir: Seq<char>,
    pub remote: Seq<char>,
    pub cursor: usize,
    pub error: Option<Seq<char>>,
}

impl View for GitInitFlow {
    type V = InitModel;

    open spec fn view(&self) -> InitModel {
        InitModel {
            dir: self.dir@,
            remote: self.remote@,
            cursor: self.cursor,
            error: option_view(self.error),
        }
    }
}

impl GitInitFlow {
    pub fn new(dir: String) -> (r: Self)
        ensures
            r@ == (InitModel { dir: dir@, remote: Seq::empty(), cursor: 0, error: None }),
    {
        GitInitFlow { dir, remote: String::new(), cursor: 0, error: None }
    }
}

impl Clone for GitInitFlow {
    fn clone(&self) -> (r: Self)
        ensures
            r@ == self@,
    {
        GitInitFlow {
            dir: self.dir.copy(),
            remote: self.remote.copy(),
            cursor: self.cursor,
            error: copy_option(&self.error),
        }
    }
}

/// The git side of the interface.
#[derive(Debug)]
pub struct GitState {
    pub git_view: Option<GitView>,
    pub git_init: Option<GitInitFlow>,
    pub git_job: Option<GitJob>,
    /// Notices for the transcript, the newest last.
    pub notices: Vec<String>,
    /// The number of the next job.
    pub next_job: u64,
}

pub struct StateModel {
    pub view: Option<ViewModel>,
    pub init: Option<InitModel>,
    pub job: Option<JobModel>,
    pub notices: Seq<Seq<char>>,
    pub next_job: u64,
}

impl View for GitState {
    type V = StateModel;

    open spec fn view(&self) -> StateModel {
        StateModel {
            view: option_view(self.git_view),
            init: option_view(self.git_init),
            job: option_view(self.git_job),
            notices: views(self.notices@),
            next_job: self.next_job,
        }
    }
}

impl Default for GitState {
    fn default() -> (r: Self)
        ensures
            r@ == (StateModel {
                view: None,
                init: None,
                job: None,
                notices: Seq::empty(),
                next_job: 0,
            }),
    {
        let r = GitState {
            git_view: None,
            git_init: None,
            git_job: None,
            notices: Vec::new(),
            next_job: 0,
        };
        assert(views(r.notices@) =~= Seq::empty());
        r
    }
}

fn copy_view(view: &Option<GitView>) -> (r: Option<GitView>)
    ensures
        option_view(r) == option_view(*view),
{
    match view {
        Some(v) => Some(v.clone()),
        None => None,
    }
}

pub open spec fn following(id: u64) -> u64 {
    if id == u64::MAX {
        0
    } else {
        (id + 1) as u64
    }
}

impl StateModel {
    pub open spec fn with_view(self, view: ViewModel) -> StateModel {
        StateModel { view: Some(view), ..self }
    }

    pub open spec fn with_notice(self, notice: Seq<char>) -> StateModel {
        StateModel { notices: self.notices.push(notice), ..self }
    }

    /// Whether a task can start: no job runs, or only one that gives way.
    pub open spec fn can_start(self, task: Task) -> bool {
        match self.job {
            Some(job) => job.task.silent() && !task.silent(),
            None => true,
        }
    }

    /// The state after a task was to be started.
    pub open spec fn start(self, task: Task) -> StateModel {
        if self.can_start(task) {
            StateModel {
                job: Some(
                    JobModel {
                        id: self.next_job,
                        task,
                        canceled: false,
                        original: self.view,
                    },
                ),
                next_job: following(self.next_job),
                ..self
            }
        } else {
            self
        }
    }

    /// The state after the running job was canceled.
    pub open spec fn cancel(self) -> StateModel {
        StateModel {
            job: match self.job {
                Some(job) => Some(JobModel { canceled: true, ..job }),
                None => None,
            },
            ..self
        }
    }
}

impl GitState {
    /// Starts a task unless another one runs. One that only looks gives way:
    /// its result is no longer waited for.
    pub fn start(&mut self, task: Task) -> (r: bool)
        ensures
            r == old(self)@.can_start(task),
            final(self)@ == old(self)@.start(task),
    {
        let free = match &self.git_job {
            Some(job) => job.task == Task::Poll && task != Task::Poll,
            None => true,
        };
        if !free {
            return false;
        }
        let original = copy_view(&self.git_view);
        self.git_job = Some(GitJob { id: self.next_job, task, canceled: false, original });
        self.next_job = if self.next_job == u64::MAX {
            0
        } else {
            self.next_job + 1
        };
        true
    }

    /// Cancels the running job and says whether one runs.
    pub fn cancel(&mut self) -> (r: bool)
        ensures
            r == (old(self)@.job is Some),
            final(self)@ == old(self)@.cancel(),
    {
        match &mut self.git_job {
            Some(job) => {
                job.canceled = true;
                true
            },
            None => false,
        }
    }

    pub fn notice(&mut self, text: String)
        ensures
            final(self)@ == old(self)@.with_notice(text@),
    {
        self.notices.push(text);
        assert(views(self.notices@) =~= views(old(self).notices@).push(text@));
    }

    /// The worker of the job that was just started could not be made.
    pub fn start_failed(&mut self, error: &str)
        ensures
            final(self)@ == (StateModel { job: None, ..old(self)@ }).with_notice(
                "Could not start Git worker: "@ + error@,
            ),
    {
        self.git_job = None;
        let mut text = "Could not start Git worker: ".to_owned();
        text.append(error);
        self.notice(text);
    }
}

// ---------------------------------------------------------------------------
// Merging a result

/// A value that the user may have changed since a job was started: the user's
/// where it was, and the job's otherwise.
#[verifier::opaque]
pub open spec fn kept<T>(original: T, current: T, updated: T) -> T {
    if current != original {
        current
    } else {
        updated
    }
}

/// Whether two diffs show the same thing.
pub open spec fn same_target(a: DiffModel, b: DiffModel) -> bool {
    a.path == b.path && a.commit == b.commit && a.staged == b.staged
}

/// The diff after a job: a diff that was closed or replaced in the meantime
/// stays so, and one that was scrolled keeps its place.
#[verifier::opaque]
pub open spec fn merged_diff(
    original: Option<DiffModel>,
    current: Option<DiffModel>,
    updated: Option<DiffModel>,
) -> Option<DiffModel> {
    match (original, current, updated) {
        (Some(old), Some(now), Some(new)) => if same_target(old, now) {
            if same_target(new, now) && now.scroll != old.scroll {
                Some(DiffModel { scroll: now.scroll, ..new })
            } else {
                updated
            }
        } else {
            kept(original, current, updated)
        },
        _ => kept(original, current, updated),
    }
}

/// The place of a file in a list of files.
#[verifier::opaque]
pub open spec fn place_of_file(files: Seq<FileModel>, file: Option<FileModel>) -> usize {
    match file {
        Some(f) => match first_position(
            files,
            |x: FileModel| x.path == f.path && x.section == f.section,
        ) {
            Some(i) => i as usize,
            None => 0,
        },
        None => 0,
    }
}

/// The place of a commit in a history.
#[verifier::opaque]
pub open spec fn place_of_hash(history: Seq<EntryModel>, hash: Option<Seq<char>>) -> usize {
    match hash {
        Some(h) => match first_position(history, |x: EntryModel| x.hash == h) {
            Some(i) => i as usize,
            None => 0,
        },
        None => 0,
    }
}

/// The hash of a commit of a history.
pub open spec fn hash_at(history: Seq<EntryModel>, index: usize) -> Option<Seq<char>> {
    if index < history.len() {
        Some(history[index as int].hash)
    } else {
        None
    }
}

/// The dashboard after a job: the repository as the job found it, with the
/// edits and the moves that were made since the job was started.
pub open spec fn merged(original: ViewModel, current: ViewModel, updated: ViewModel) -> ViewModel {
    let moved = current.selected != original.selected;
    let typed = current.commit != original.commit;
    ViewModel {
        commit: kept(original.commit, current.commit, updated.commit),
        commit_cursor: if typed {
            current.commit_cursor
        } else {
            kept(original.commit_cursor, current.commit_cursor, updated.commit_cursor)
        },
        amend: kept(original.amend, current.amend, updated.amend),
        focus: if moved {
            current.focus
        } else {
            kept(original.focus, current.focus, updated.focus)
        },
        file_scroll: kept(original.file_scroll, current.file_scroll, updated.file_scroll),
        history_scroll: kept(
            original.history_scroll,
            current.history_scroll,
            updated.history_scroll,
        ),
        show_log: kept(original.show_log, current.show_log, updated.show_log),
        log_scroll: kept(original.log_scroll, current.log_scroll, updated.log_scroll),
        show_branches: kept(original.show_branches, current.show_branches, updated.show_branches),
        branch_selected: kept(
            original.branch_selected,
            current.branch_selected,
            updated.branch_selected,
        ),
        confirm: kept(original.confirm, current.confirm, updated.confirm),
        commit_menu: kept(original.commit_menu, current.commit_menu, updated.commit_menu),
        mouse_position: kept(
            original.mouse_position,
            current.mouse_position,
            updated.mouse_position,
        ),
        notice: kept(original.notice, current.notice, updated.notice),
        notice_error: kept(original.notice_error, current.notice_error, updated.notice_error),
        layout: current.layout,
        selected: if moved {
            place_of_file(updated.flat, current.selected_file())
        } else {
            updated.selected
        },
        history_selected: if current.history_selected != original.history_selected {
            place_of_hash(updated.history, hash_at(current.history, current.history_selected))
        } else {
            updated.history_selected
        },
        diff: merged_diff(
            original.diff,
            current.diff,
            if moved {
                current.diff
            } else {
                updated.diff
            },
        ),
        ..updated
    }
}

/// Where a file stands in a list, by its path and its section.
fn find_file(view: &GitView, files: &Vec<GitFile>) -> (r: usize)
    ensures
        r == place_of_file(views(files@), view@.selected_file()),
{
    proof {
        reveal(place_of_file);
    }
    match view.selected_file() {
        None => 0,
        Some(file) => {
            let ghost f = file@;
            let ghost wanted = |x: FileModel| x.path == f.path && x.section == f.section;
            let mut i: usize = 0;
            while i < files.len()
                invariant
                    i <= files@.len(),
                    f == file@,
                    view@.selected_file() == Some(f),
                    wanted == (|x: FileModel| x.path == f.path && x.section == f.section),
                    forall|k: int| 0 <= k < i ==> !wanted(#[trigger] views(files@)[k]),
                decreases files@.len() - i,
            {
                let x = &files[i];
                assert(views(files@)[i as int] == x@);
                if x.path.same(&file.path) && x.section == file.section {
                    proof {
                        reveal(place_of_file);
                        crate::model::first_position_is(views(files@), wanted, i as int);
                    }
                    return i;
                }
                i += 1;
            }
            proof {
                crate::model::no_first_position(views(files@), wanted);
            }
            0
        },
    }
}

/// Where a commit stands in a history, by its hash.
pub(crate) fn find_hash(
    history: &Vec<HistoryEntry>,
    wanted_hash: &Option<String>,
) -> (r: usize)
    ensures
        r == place_of_hash(views(history@), option_view(*wanted_hash)),
{
    proof {
        reveal(place_of_hash);
    }
    match wanted_hash {
        None => 0,
        Some(hash) => {
            let ghost h = hash@;
            let ghost wanted = |x: EntryModel| x.hash == h;
            let mut i: usize = 0;
            while i < history.len()
                invariant
                    i <= history@.len(),
                    h == hash@,
                    option_view(*wanted_hash) == Some(h),
                    wanted == (|x: EntryModel| x.hash == h),
                    forall|k: int| 0 <= k < i ==> !wanted(#[trigger] views(history@)[k]),
                decreases history@.len() - i,
            {
                assert(views(history@)[i as int] == history@[i as int]@);
                if history[i].hash.same(hash) {
                    proof {
                        reveal(place_of_hash);
                        crate::model::first_position_is(views(history@), wanted, i as int);
                    }
                    return i;
                }
                i += 1;
            }
            proof {
                crate::model::no_first_position(views(history@), wanted);
            }
            0
        },
    }
}

pub(crate) fn hash_of(history: &Vec<HistoryEntry>, index: usize) -> (r: Option<
    String,
>)
    ensures
        option_view(r) == hash_at(views(history@), index),
{
    if index < history.len() {
        Some(history[index].hash.copy())
    } else {
        None
    }
}

fn shows_same(a: &LoadedDiff, b: &LoadedDiff) -> (r: bool)
    ensures
        r == same_target(a@, b@),
{
    a.path.same(&b.path) && same_option(&a.commit, &b.commit) && a.staged == b.staged
}

fn merge_diff(
    original: &Option<LoadedDiff>,
    current: &Option<LoadedDiff>,
    updated: &mut Option<LoadedDiff>,
)
    ensures
        option_view(*final(updated)) == merged_diff(
            option_view(*original),
            option_view(*current),
            option_view(*old(updated)),
        ),
{
    proof {
        reveal(kept);
        reveal(merged_diff);
    }
    match (original, current) {
        (Some(was), Some(now)) => {
            if updated.is_some() && shows_same(was, now) {
                match updated {
                    Some(new) => {
                        if shows_same(new, now) && now.scroll != was.scroll {
                            new.scroll = now.scroll;
                        }
                    },
                    None => {},
                }
                return;
            }
        },
        _ => {},
    }
    if !same_option(current, original) {
        *updated = copy_option(current);
    }
}

fn keep_count(original: usize, current: usize, updated: usize) -> (r: usize)
    ensures
        r == kept(original, current, updated),
{
    proof {
        reveal(kept);
    }
    if current != original {
        current
    } else {
        updated
    }
}

fn keep_flag(original: bool, current: bool, updated: bool) -> (r: bool)
    ensures
        r == kept(original, current, updated),
{
    proof {
        reveal(kept);
    }
    if current != original {
        current
    } else {
        updated
    }
}

fn keep_text(original: &String, current: &String, updated: &String) -> (r: String)
    ensures
        r@ == kept(original@, current@, updated@),
{
    proof {
        reveal(kept);
    }
    if !current.same(original) {
        current.copy()
    } else {
        updated.copy()
    }
}

fn keep_confirm(
    original: &Option<Confirm>,
    current: &Option<Confirm>,
    updated: &Option<Confirm>,
) -> (r: Option<Confirm>)
    ensures
        option_view(r) == kept(option_view(*original), option_view(*current), option_view(*updated)),
{
    proof {
        reveal(kept);
    }
    if !same_option(current, original) {
        copy_option(current)
    } else {
        copy_option(updated)
    }
}

fn keep_menu(
    original: Option<CommitMenuState>,
    current: Option<CommitMenuState>,
    updated: Option<CommitMenuState>,
) -> (r: Option<CommitMenuState>)
    ensures
        r == kept(original, current, updated),
{
    proof {
        reveal(kept);
    }
    let same = match (original, current) {
        (Some(x), Some(y)) => x == y,
        (None, None) => true,
        _ => false,
    };
    if same {
        updated
    } else {
        current
    }
}

fn keep_point(
    original: Option<ScreenPoint>,
    current: Option<ScreenPoint>,
    updated: Option<ScreenPoint>,
) -> (r: Option<ScreenPoint>)
    ensures
        r == kept(original, current, updated),
{
    proof {
        reveal(kept);
    }
    let same = match (original, current) {
        (Some(x), Some(y)) => x == y,
        (None, None) => true,
        _ => false,
    };
    if same {
        updated
    } else {
        current
    }
}

fn keep_focus(original: GitFocus, current: GitFocus, updated: GitFocus) -> (r: GitFocus)
    ensures
        r == kept(original, current, updated),
{
    proof {
        reveal(kept);
    }
    if current != original {
        current
    } else {
        updated
    }
}

fn keep_cursor(original: &GitView, current: &GitView, updated: usize) -> (r: usize)
    ensures
        r == if current@.commit != original@.commit {
            current@.commit_cursor
        } else {
            kept(original@.commit_cursor, current@.commit_cursor, updated)
        },
{
    if !current.commit.same(&original.commit) {
        current.commit_cursor
    } else {
        keep_count(original.commit_cursor, current.commit_cursor, updated)
    }
}

fn keep_panel(original: &GitView, current: &GitView, updated: GitFocus) -> (r: GitFocus)
    ensures
        r == if current@.selected != original@.selected {
            current@.focus
        } else {
            kept(original@.focus, current@.focus, updated)
        },
{
    if current.selected != original.selected {
        current.focus
    } else {
        keep_focus(original.focus, current.focus, updated)
    }
}

fn keep_selection(
    original: &GitView,
    current: &GitView,
    files: &Vec<GitFile>,
    updated: usize,
) -> (r: usize)
    ensures
        r == if current@.selected != original@.selected {
            place_of_file(views(files@), current@.selected_file())
        } else {
            updated
        },
{
    if current.selected != original.selected {
        find_file(current, files)
    } else {
        updated
    }
}

fn keep_commit_selection(
    original: &GitView,
    current: &GitView,
    history: &Vec<HistoryEntry>,
    updated: usize,
) -> (r: usize)
    ensures
        r == if current@.history_selected != original@.history_selected {
            place_of_hash(views(history@), hash_at(current@.history, current@.history_selected))
        } else {
            updated
        },
{
    if current.history_selected != original.history_selected {
        let hash = hash_of(&current.history, current.history_selected);
        find_hash(history, &hash)
    } else {
        updated
    }
}

fn keep_diff(original: &GitView, current: &GitView, updated: Option<LoadedDiff>) -> (r: Option<
    LoadedDiff,
>)
    ensures
        option_view(r) == merged_diff(
            original@.diff,
            current@.diff,
            if current@.selected != original@.selected {
                current@.diff
            } else {
                option_view(updated)
            },
        ),
{
    let mut diff = if current.selected != original.selected {
        copy_option(&current.diff)
    } else {
        updated
    };
    merge_diff(&original.diff, &current.diff, &mut diff);
    diff
}

/// Applies the result of a job while keeping the edits and the moves that were
/// made since it was started; see `merged`. A finished commit may clear the
/// message that it was started with, but never one typed since.
pub fn merge_ui(original: &GitView, current: &GitView, updated: GitView) -> (r: GitView)
    ensures
        r@ == merged(original@, current@, updated@),
{
    let selected: usize = keep_selection(original, current, &updated.flat, updated.selected);
    let history_selected: usize = keep_commit_selection(
        original,
        current,
        &updated.history,
        updated.history_selected,
    );
    GitView {
        selected,
        file_scroll: keep_count(original.file_scroll, current.file_scroll, updated.file_scroll),
        focus: keep_panel(original, current, updated.focus),
        commit: keep_text(&original.commit, &current.commit, &updated.commit),
        commit_cursor: keep_cursor(original, current, updated.commit_cursor),
        amend: keep_flag(original.amend, current.amend, updated.amend),
        diff: keep_diff(original, current, updated.diff),
        history_selected,
        history_scroll: keep_count(
            original.history_scroll,
            current.history_scroll,
            updated.history_scroll,
        ),
        show_log: keep_flag(original.show_log, current.show_log, updated.show_log),
        log_scroll: keep_count(original.log_scroll, current.log_scroll, updated.log_scroll),
        show_branches: keep_flag(
            original.show_branches,
            current.show_branches,
            updated.show_branches,
        ),
        branch_selected: keep_count(
            original.branch_selected,
            current.branch_selected,
            updated.branch_selected,
        ),
        confirm: keep_confirm(&original.confirm, &current.confirm, &updated.confirm),
        commit_menu: keep_menu(original.commit_menu, current.commit_menu, updated.commit_menu),
        notice: keep_text(&original.notice, &current.notice, &updated.notice),
        notice_error: keep_flag(original.notice_error, current.notice_error, updated.notice_error),
        mouse_position: keep_point(
            original.mouse_position,
            current.mouse_position,
            updated.mouse_position,
        ),
        layout: current.layout.clone(),
        root: updated.root,
        status: updated.status,
        flat: updated.flat,
        history: updated.history,
        history_limit: updated.history_limit,
        history_has_more: updated.history_has_more,
        branches: updated.branches,
        last_status_raw: updated.last_status_raw,
        last_poll: updated.last_poll,
    }
}

// ---------------------------------------------------------------------------
// The end of a job

/// What a job leaves: the dashboard, the setup and a notice.
#[derive(Debug)]
pub struct OperationState {
    pub git_view: Option<GitView>,
    pub git_init: Option<GitInitFlow>,
    pub notice: Option<String>,
}

pub struct OperationModel {
    pub view: Option<ViewModel>,
    pub init: Option<InitModel>,
    pub notice: Option<Seq<char>>,
}

impl View for OperationState {
    type V = OperationModel;

    open spec fn view(&self) -> OperationModel {
        OperationModel {
            view: option_view(self.git_view),
            init: option_view(self.git_init),
            notice: option_view(self.notice),
        }
    }
}

/// What is heard from a job.
pub enum JobOutcome {
    Running,
    Finished(OperationState),
    /// The worker is gone without a result.
    Lost,
}

pub enum OutcomeModel {
    Running,
    Finished(OperationModel),
    Lost,
}

impl View for JobOutcome {
    type V = OutcomeModel;

    open spec fn view(&self) -> OutcomeModel {
        match self {
            JobOutcome::Running => OutcomeModel::Running,
            JobOutcome::Finished(result) => OutcomeModel::Finished(result@),
            JobOutcome::Lost => OutcomeModel::Lost,
        }
    }
}

/// Whether two dashboards show the same repository.
pub open spec fn same_repository(a: ViewModel, b: ViewModel) -> bool {
    a.status == b.status && a.history == b.history && a.diff == b.diff && a.notice == b.notice
}

/// The remote may be edited while the repository is set up.
pub open spec fn merged_init(current: Option<InitModel>, updated: Option<InitModel>) -> Option<
    InitModel,
> {
    match (current, updated) {
        (Some(now), Some(new)) => Some(
            InitModel { remote: now.remote, cursor: now.cursor, ..new },
        ),
        _ => updated,
    }
}

/// The state after the result of a job that was not canceled, and whether the
/// screen changes.
pub open spec fn applied(s: StateModel, result: OperationModel, silent: bool, now: u64) -> (
    StateModel,
    bool,
) {
    let unchanged = silent && s.view is Some && result.view is Some && same_repository(
        s.view->0,
        result.view->0,
    );
    if unchanged {
        (s.with_view(ViewModel { last_poll: Some(now), ..s.view->0 }), false)
    } else {
        let next = StateModel {
            view: result.view,
            init: merged_init(s.init, result.init),
            ..s
        };
        (
            match result.notice {
                Some(notice) => next.with_notice(notice),
                None => next,
            },
            true,
        )
    }
}

/// How often the repository is looked at while the dashboard is open, in
/// milliseconds.
pub const STATUS_INTERVAL: u64 = 1000;

/// Whether the repository is to be looked at: it never was, or the interval
/// has gone by since.
pub open spec fn due(last_poll: Option<u64>, now: u64) -> bool {
    match last_poll {
        Some(last) => now - last >= STATUS_INTERVAL,
        None => true,
    }
}

pub fn poll_due(view: &GitView, now: u64) -> (r: bool)
    ensures
        r == due(view@.last_poll, now),
{
    match view.last_poll {
        Some(last) => now >= last && now - last >= STATUS_INTERVAL,
        None => true,
    }
}

/// The state after news of the running job, and whether the screen changes.
pub open spec fn settled(s: StateModel, outcome: OutcomeModel, now: u64) -> (StateModel, bool) {
    match s.job {
        None => (s, false),
        Some(job) => {
            let free = StateModel { job: None, ..s };
            if outcome is Running {
                (s, false)
            } else if job.canceled {
                (
                    match s.view {
                        Some(view) => free.with_view(
                            (ViewModel { last_poll: None, ..view }).with_notice(
                                "Git operation canceled; refreshing repository state."@,
                                false,
                            ),
                        ),
                        None => free,
                    },
                    true,
                )
            } else {
                match outcome {
                    OutcomeModel::Running => (s, false),
                    OutcomeModel::Lost => (
                        free.with_notice("Git worker stopped unexpectedly."@),
                        true,
                    ),
                    OutcomeModel::Finished(result) => match job.original {
                        None => applied(free, result, job.task.silent(), now),
                        Some(original) => match (s.view, result.view) {
                            (Some(current), Some(updated)) => applied(
                                free,
                                OperationModel {
                                    view: Some(merged(original, current, updated)),
                                    ..result
                                },
                                job.task.silent(),
                                now,
                            ),
                            _ => (free, true),
                        },
                    },
                }
            }
        },
    }
}

fn apply(state: &mut GitState, result: OperationState, silent: bool, now: u64) -> (r: bool)
    ensures
        (final(state)@, r) == applied(old(state)@, result@, silent, now),
{
    let mut result = result;
    let unchanged = match (&state.git_view, &result.git_view) {
        (Some(current), Some(updated)) => silent && current.status.same(&updated.status)
            && same_all(&current.history, &updated.history) && same_option(
            &current.diff,
            &updated.diff,
        ) && current.notice.same(&updated.notice),
        _ => false,
    };
    if unchanged {
        match &mut state.git_view {
            Some(view) => {
                view.last_poll = Some(now);
            },
            None => {},
        }
        return false;
    }
    match (&state.git_init, &mut result.git_init) {
        (Some(current), Some(updated)) => {
            updated.remote = current.remote.copy();
            updated.cursor = current.cursor;
        },
        _ => {},
    }
    state.git_view = result.git_view;
    state.git_init = result.git_init;
    match result.notice {
        Some(notice) => state.notice(notice),
        None => {},
    }
    true
}

/// Takes in what is heard from the running job, and says whether the screen
/// changes; see `settled`. A dashboard that was closed while a job ran stays
/// closed.
pub fn poll(state: &mut GitState, outcome: JobOutcome, now: u64) -> (r: bool)
    ensures
        (final(state)@, r) == settled(old(state)@, outcome@, now),
{
    match outcome {
        JobOutcome::Running => {
            return false;
        },
        _ => {},
    }
    let job = match state.git_job.take() {
        Some(job) => job,
        None => return false,
    };
    if job.canceled {
        match &mut state.git_view {
            Some(view) => {
                view.last_poll = None;
                view.set_notice(
                    "Git operation canceled; refreshing repository state.".to_owned(),
                    false,
                );
            },
            None => {},
        }
        return true;
    }
    match outcome {
        JobOutcome::Running => false,
        JobOutcome::Lost => {
            state.notice("Git worker stopped unexpectedly.".to_owned());
            true
        },
        JobOutcome::Finished(result) => {
            let silent = job.task == Task::Poll;
            match &job.original {
                None => apply(state, result, silent, now),
                Some(original) => match (&state.git_view, result.git_view) {
                    (Some(current), Some(updated)) => {
                        let view = merge_ui(original, current, updated);
                        let merged = OperationState {
                            git_view: Some(view),
                            git_init: result.git_init,
                            notice: result.notice,
                        };
                        apply(state, merged, silent, now)
                    },
                    _ => true,
                },
            }
        },
    }
}

/// What is heard from a job: nothing changes where it is no longer the one
/// that is waited for.
pub open spec fn heard(s: StateModel, id: u64, outcome: OutcomeModel, now: u64) -> (
    StateModel,
    bool,
) {
    if s.job matches Some(job) && job.id == id {
        settled(s, outcome, now)
    } else {
        (s, false)
    }
}

/// Takes in what is heard from a job, and says whether the screen changes; see
/// `heard`.
pub fn hear(state: &mut GitState, id: u64, outcome: JobOutcome, now: u64) -> (r: bool)
    ensures
        (final(state)@, r) == heard(old(state)@, id, outcome@, now),
{
    let current = match &state.git_job {
        Some(job) => job.id == id,
        None => false,
    };
    if current {
        poll(state, outcome, now)
    } else {
        false
    }
}

// ---------------------------------------------------------------------------
// Laws

/// What was typed into the message while a job ran stays, with its cursor,
/// whatever the job made of the message.
pub proof fn typed_message_is_kept(original: ViewModel, current: ViewModel, updated: ViewModel)
    requires
        current.commit != original.commit,
    ensures
        merged(original, current, updated).commit == current.commit,
        merged(original, current, updated).commit_cursor == current.commit_cursor,
{
    reveal(kept);
}

/// Where nothing was touched while a job ran, its result is shown as it is,
/// under the layout of the screen.
pub proof fn untouched_dashboard_is_replaced(original: ViewModel, updated: ViewModel)
    requires
        original.diff is None || updated.diff is None || same_target(
            original.diff->0,
            updated.diff->0,
        ),
    ensures
        merged(original, original, updated) == (ViewModel { layout: original.layout, ..updated }),
{
    reveal(kept);
    reveal(merged_diff);
}

/// A dashboard that was closed while a job ran stays closed, whatever comes
/// back.
pub proof fn closed_dashboard_stays_closed(s: StateModel, outcome: OutcomeModel, now: u64)
    requires
        s.view is None,
        s.job matches Some(job) ==> job.original is Some,
    ensures
        settled(s, outcome, now).0.view is None,
{
}

/// An action takes the place of a job that only looks: its result is no longer
/// waited for, and the action starts from the dashboard as it is.
pub proof fn actions_supersede_polls(s: StateModel, task: Task)
    requires
        s.job matches Some(job) ==> job.task == Task::Poll,
        task != Task::Poll,
    ensures
        s.can_start(task),
        s.start(task).job == Some(
            JobModel { id: s.next_job, task, canceled: false, original: s.view },
        ),
        s.start(task).view == s.view,
{
}

/// The result of a job that an action took the place of is dropped, whatever
/// it is.
pub proof fn superseded_result_is_dropped(
    s: StateModel,
    task: Task,
    outcome: OutcomeModel,
    now: u64,
)
    requires
        s.job matches Some(job) && job.task == Task::Poll && job.id != s.next_job,
        task != Task::Poll,
    ensures
        heard(s.start(task), s.job->0.id, outcome, now) == (s.start(task), false),
{
}

/// A running action is not disturbed: no other task starts before it ends.
pub proof fn one_action_at_a_time(s: StateModel, task: Task)
    requires
        s.job matches Some(job) && job.task != Task::Poll,
    ensures
        !s.can_start(task),
        s.start(task) == s,
{
}

/// The result of a canceled job is dropped: the dashboard keeps its files, its
/// history and the message.
pub proof fn canceled_result_is_dropped(s: StateModel, outcome: OutcomeModel, now: u64)
    requires
        s.job matches Some(job) && job.canceled,
        !(outcome is Running),
        s.view is Some,
    ensures
        ({
            let after = settled(s, outcome, now).0;
            &&& after.job is None
            &&& after.view is Some
            &&& after.view->0.status == s.view->0.status
            &&& after.view->0.history == s.view->0.history
            &&& after.view->0.commit == s.view->0.commit
            &&& after.notices == s.notices
        }),
{
}

/// Whether one part of the dashboard after a job is right: what the user changed
/// while the job ran is as the user left it, and the rest is as the job found it.
pub open spec fn rightly_merged<T>(original: T, current: T, updated: T, merged: T) -> bool {
    &&& current != original ==> merged == current
    &&& current == original ==> merged == updated
}

/// What the user did while a job ran is not undone by its result, and what the
/// user left alone is replaced by it. The state of the repository is always that
/// of the result.
pub proof fn results_undo_no_action(original: ViewModel, current: ViewModel, updated: ViewModel)
    ensures
        ({
            let now = merged(original, current, updated);
            &&& rightly_merged(original.commit, current.commit, updated.commit, now.commit)
            &&& rightly_merged(original.amend, current.amend, updated.amend, now.amend)
            &&& current.selected == original.selected ==> rightly_merged(
                original.focus,
                current.focus,
                updated.focus,
                now.focus,
            )
            &&& rightly_merged(
                original.file_scroll,
                current.file_scroll,
                updated.file_scroll,
                now.file_scroll,
            )
            &&& rightly_merged(
                original.history_scroll,
                current.history_scroll,
                updated.history_scroll,
                now.history_scroll,
            )
            &&& rightly_merged(original.show_log, current.show_log, updated.show_log, now.show_log)
            &&& rightly_merged(
                original.log_scroll,
                current.log_scroll,
                updated.log_scroll,
                now.log_scroll,
            )
            &&& rightly_merged(
                original.show_branches,
                current.show_branches,
                updated.show_branches,
                now.show_branches,
            )
            &&& rightly_merged(
                original.branch_selected,
                current.branch_selected,
                updated.branch_selected,
                now.branch_selected,
            )
            &&& rightly_merged(original.confirm, current.confirm, updated.confirm, now.confirm)
            &&& rightly_merged(
                original.commit_menu,
                current.commit_menu,
                updated.commit_menu,
                now.commit_menu,
            )
            &&& rightly_merged(
                original.mouse_position,
                current.mouse_position,
                updated.mouse_position,
                now.mouse_position,
            )
            &&& rightly_merged(original.notice, current.notice, updated.notice, now.notice)
            &&& now.status == updated.status && now.flat == updated.flat && now.history
                == updated.history && now.branches == updated.branches && now.root == updated.root
            &&& now.layout == current.layout
        }),
{
    reveal(kept);
}

/// A file that was selected while a job ran stays selected, wherever the result
/// lists it; one that is gone leaves the first. A commit does the same.
pub proof fn selections_follow_their_file(
    original: ViewModel,
    current: ViewModel,
    updated: ViewModel,
    i: int,
)
    requires
        current.selected != original.selected,
        current.selected < current.flat.len(),
        0 <= i < updated.flat.len() <= usize::MAX,
        updated.flat[i].path == current.flat[current.selected as int].path,
        updated.flat[i].section == current.flat[current.selected as int].section,
    ensures
        ({
            let at = merged(original, current, updated).selected;
            &&& at <= i
            &&& updated.flat[at as int].path == current.flat[current.selected as int].path
            &&& updated.flat[at as int].section == current.flat[current.selected as int].section
        }),
{
    reveal(place_of_file);
    let f = current.flat[current.selected as int];
    crate::model::first_position_finds(
        updated.flat,
        |x: FileModel| x.path == f.path && x.section == f.section,
    );
}

/// A commit that was selected while a job ran stays selected, wherever the
/// result lists it.
pub proof fn selections_follow_their_commit(
    original: ViewModel,
    current: ViewModel,
    updated: ViewModel,
    i: int,
)
    requires
        current.history_selected != original.history_selected,
        current.history_selected < current.history.len(),
        0 <= i < updated.history.len() <= usize::MAX,
        updated.history[i].hash == current.history[current.history_selected as int].hash,
    ensures
        ({
            let at = merged(original, current, updated).history_selected;
            &&& at <= i
            &&& updated.history[at as int].hash == current.history[current.history_selected as int].hash
        }),
{
    reveal(place_of_hash);
    let h = current.history[current.history_selected as int].hash;
    crate::model::first_position_finds(updated.history, |x: EntryModel| x.hash == h);
}

/// A diff that is loaded again keeps the place to which it was scrolled while
/// the job ran.
pub proof fn reloaded_diffs_keep_their_place(
    original: ViewModel,
    current: ViewModel,
    updated: ViewModel,
)
    requires
        current.selected == original.selected,
        original.diff is Some && current.diff is Some && updated.diff is Some,
        same_target(original.diff->0, current.diff->0),
        same_target(updated.diff->0, current.diff->0),
    ensures
        ({
            let now = merged(original, current, updated).diff;
            &&& now is Some
            &&& current.diff->0.scroll != original.diff->0.scroll ==> now->0 == (DiffModel {
                scroll: current.diff->0.scroll,
                ..updated.diff->0
            })
            &&& current.diff->0.scroll == original.diff->0.scroll ==> now == updated.diff
        }),
{
    reveal(merged_diff);
}

/// The repository is looked at again once a second, and at once where it was
/// not looked at before.
pub proof fn polls_are_due_every_second(last: u64, now: u64)
    ensures
        due(Some(last), now) <==> now >= last + 1000,
        due(None, now),
{
}

/// A poll that found nothing new changes nothing but the time of the last look;
/// any other result is shown, with its notice.
pub proof fn results_are_shown(
    s: StateModel,
    result: OperationModel,
    silent: bool,
    now: u64,
)
    requires
        s.view is Some,
        result.view is Some,
    ensures
        silent && same_repository(s.view->0, result.view->0) ==> applied(s, result, silent, now).0
            == s.with_view(ViewModel { last_poll: Some(now), ..s.view->0 }),
        !silent || !same_repository(s.view->0, result.view->0) ==> applied(
            s,
            result,
            silent,
            now,
        ).0.view == result.view,
        !silent && result.notice is Some ==> applied(s, result, silent, now).0.notices
            == s.notices.push(result.notice->0),
        !silent && result.notice is None ==> applied(s, result, silent, now).0.notices == s.notices,
{
}

/// A task that stopped without a result frees its place and says so; a running
/// one keeps it. What is heard of another task changes nothing.
pub proof fn lost_tasks_are_told(s: StateModel, now: u64, id: u64, outcome: OutcomeModel)
    requires
        s.job matches Some(job) && !job.canceled,
    ensures
        settled(s, OutcomeModel::Lost, now).0.job is None,
        settled(s, OutcomeModel::Lost, now).0.notices == s.notices.push(
            "Git worker stopped unexpectedly."@,
        ),
        settled(s, OutcomeModel::Lost, now).0.view == s.view,
        settled(s, OutcomeModel::Running, now) == (s, false),
        id != s.job->0.id ==> heard(s, id, outcome, now) == (s, false),
        s.cancel().job is Some && s.cancel().job->0.canceled && s.cancel().job->0.id
            == s.job->0.id,
{
}

/// Every task that is seen has a title, and a poll has none.
pub proof fn tasks_have_titles(task: Task, mode: CommitMode, i: usize, staged: bool)
    ensures
        task == Task::Poll <==> task.silent(),
        Task::Poll.title() == ""@,
        Task::Refresh.title() == "Refreshing…"@,
        Task::Discard.title() == "Discarding…"@,
        Task::Commit(mode).title() == "Committing…"@,
        Task::SetFileStaged(i, staged).title() == "Updating index…"@,
        Task::OpenSelectedDiff.title() == "Loading diff…"@,
        Task::OpenCommitDiff.title() == "Loading commit…"@,
        Task::LoadBranches.title() == "Loading branches…"@,
        Task::LoadMoreHistory.title() == "Loading more history…"@,
        Task::OpenDashboard.title() == "Opening git dashboard…"@,
        Task::Initialize.title() == "Initializing repository…"@,
{
}

} // verus!
