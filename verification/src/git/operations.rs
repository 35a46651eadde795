//! The steps of background git work.
//!
//! A worker asks for one outside action at a time: a git command, the bytes of
//! a file, the root of the work tree or the seeding of a README. What comes
//! back decides what is changed and what is asked for next.

use vstd::prelude::*;
use crate::git::jobs::{
    find_hash, hash_at, hash_of, place_of_hash, GitInitFlow, GitState, InitModel, OperationModel,
    OperationState, SimpleCommand, Task,
};
use crate::git::repository::{
    branch_lines, commit_diff, commit_diff_args, commit_diff_arguments, diff_arguments,
    diff_flags, file_args, file_arguments, history_args, history_arguments, history_count,
    history_page,
    is_unknown_subcommand, load_commit_diff, load_diff, load_untracked_diff, log_entries,
    parse_branches, parse_status_porcelain, porcelain_status, push_word, status_args,
    status_arguments, target_paths, targets, unified_diff, untracked_diff, FindRootError,
};
use crate::git::view::{
    CommitMode, Confirm, ConfirmModel, DiffModel, EntryModel, FileModel, GitFile, GitFocus,
    GitSection, GitView, HistoryEntry, LoadedDiff, ViewModel, HISTORY_PAGE_SIZE,
    SCROLL_ANCHOR_PENDING,
};
use crate::model::{first_position, option_view, views, Modeled};
use crate::text::{chars_of, occurs, string_of, text_lines, trim, trimmed};

verus! {

broadcast use vstd::string::group_string_axioms;

/// What is done with the answer that a worker waits for.
#[derive(Debug)]
pub enum Then {
    Polled,
    Refreshed,
    /// The history after a new status.
    StatusHistory,
    /// The bytes of the shown untracked file; whether a failure is reported.
    VisibleFile(bool),
    /// The diff of the shown file: whether a failure is reported, the file, and
    /// whether the diff is compact.
    VisibleDiff(bool, usize, bool),
    /// The status of a repository that is opened, with its root.
    Opened(String),
    OpenedHistory,
    /// A longer history, with its limit.
    MoreHistory(usize),
    Branches,
    OpenFile,
    /// Whether the diff is compact.
    OpenDiff(bool),
    OpenCommit(bool),
    Staged,
    /// A command with nothing more to it, and what is shown after it.
    Reported(String),
    Switched,
    Created,
    Stashed,
    /// The changes that were to be discarded.
    Restored(Confirm),
    Pulled(CommitMode),
    Committed(CommitMode),
    Pushed(CommitMode),
    InitDone,
    ReadmeAdded,
    /// Whether anything is staged for the first commit.
    InitStaged,
    InitCommitted,
    InitRenamed,
    /// Whether the remote is known.
    InitRemote,
    /// Whether the remote was known before.
    InitRemoteSet(bool),
    InitPushed,
}

pub enum ThenModel {
    Polled,
    Refreshed,
    StatusHistory,
    VisibleFile(bool),
    VisibleDiff(bool, usize, bool),
    Opened(Seq<char>),
    OpenedHistory,
    MoreHistory(usize),
    Branches,
    OpenFile,
    OpenDiff(bool),
    OpenCommit(bool),
    Staged,
    Reported(Seq<char>),
    Switched,
    Created,
    Stashed,
    Restored(ConfirmModel),
    Pulled(CommitMode),
    Committed(CommitMode),
    Pushed(CommitMode),
    InitDone,
    ReadmeAdded,
    InitStaged,
    InitCommitted,
    InitRenamed,
    InitRemote,
    InitRemoteSet(bool),
    InitPushed,
}

impl View for Then {
    type V = ThenModel;

    open spec fn view(&self) -> ThenModel {
        match self {
            Then::Polled => ThenModel::Polled,
            Then::Refreshed => ThenModel::Refreshed,
            Then::StatusHistory => ThenModel::StatusHistory,
            Then::VisibleFile(report) => ThenModel::VisibleFile(*report),
            Then::VisibleDiff(report, index, compact) => ThenModel::VisibleDiff(
                *report,
                *index,
                *compact,
            ),
            Then::Opened(root) => ThenModel::Opened(root@),
            Then::OpenedHistory => ThenModel::OpenedHistory,
            Then::MoreHistory(limit) => ThenModel::MoreHistory(*limit),
            Then::Branches => ThenModel::Branches,
            Then::OpenFile => ThenModel::OpenFile,
            Then::OpenDiff(compact) => ThenModel::OpenDiff(*compact),
            Then::OpenCommit(compact) => ThenModel::OpenCommit(*compact),
            Then::Staged => ThenModel::Staged,
            Then::Reported(message) => ThenModel::Reported(message@),
            Then::Switched => ThenModel::Switched,
            Then::Created => ThenModel::Created,
            Then::Stashed => ThenModel::Stashed,
            Then::Restored(confirm) => ThenModel::Restored(confirm@),
            Then::Pulled(mode) => ThenModel::Pulled(*mode),
            Then::Committed(mode) => ThenModel::Committed(*mode),
            Then::Pushed(mode) => ThenModel::Pushed(*mode),
            Then::InitDone => ThenModel::InitDone,
            Then::ReadmeAdded => ThenModel::ReadmeAdded,
            Then::InitStaged => ThenModel::InitStaged,
            Then::InitCommitted => ThenModel::InitCommitted,
            Then::InitRenamed => ThenModel::InitRenamed,
            Then::InitRemote => ThenModel::InitRemote,
            Then::InitRemoteSet(known) => ThenModel::InitRemoteSet(*known),
            Then::InitPushed => ThenModel::InitPushed,
        }
    }
}

/// What a worker waits for.
#[derive(Debug)]
pub enum Ask {
    /// Nothing: the work is done.
    Nothing,
    /// The root of the work tree around the working directory.
    Root,
    /// A README in a directory, seeded where there is none.
    Readme(String),
    /// A git command: the directory, the arguments, and what follows.
    Git(String, Vec<String>, Then),
    /// The bytes of a file: the directory, the path, and what follows.
    File(String, String, Then),
}

pub enum AskModel {
    Nothing,
    Root,
    Readme(Seq<char>),
    Git(Seq<char>, Seq<Seq<char>>, ThenModel),
    File(Seq<char>, Seq<char>, ThenModel),
}

impl View for Ask {
    type V = AskModel;

    open spec fn view(&self) -> AskModel {
        match self {
            Ask::Nothing => AskModel::Nothing,
            Ask::Root => AskModel::Root,
            Ask::Readme(dir) => AskModel::Readme(dir@),
            Ask::Git(dir, args, then) => AskModel::Git(dir@, views(args@), then@),
            Ask::File(dir, path, then) => AskModel::File(dir@, path@, then@),
        }
    }
}

/// A command that is run once the current steps are done.
#[derive(Debug)]
pub struct Follow {
    pub args: Vec<String>,
    pub message: String,
}

pub struct FollowModel {
    pub args: Seq<Seq<char>>,
    pub message: Seq<char>,
}

impl View for Follow {
    type V = FollowModel;

    open spec fn view(&self) -> FollowModel {
        FollowModel { args: views(self.args@), message: self.message@ }
    }
}

/// A worker between two outside actions.
#[derive(Debug)]
pub struct Work {
    pub state: OperationState,
    pub ask: Ask,
    pub follow: Option<Follow>,
    /// The notice at the end, whatever notices came before.
    pub farewell: Option<String>,
}

pub struct WorkModel {
    pub state: OperationModel,
    pub ask: AskModel,
    pub follow: Option<FollowModel>,
    pub farewell: Option<Seq<char>>,
}

impl View for Work {
    type V = WorkModel;

    open spec fn view(&self) -> WorkModel {
        WorkModel {
            state: self.state@,
            ask: self.ask@,
            follow: option_view(self.follow),
            farewell: option_view(self.farewell),
        }
    }
}

impl OperationModel {
    pub open spec fn with_view(self, view: ViewModel) -> OperationModel {
        OperationModel { view: Some(view), ..self }
    }
}

impl WorkModel {
    pub open spec fn asking(self, ask: AskModel) -> WorkModel {
        WorkModel { ask, ..self }
    }

    /// The state with a dashboard, and a question.
    pub open spec fn with(self, view: ViewModel, ask: AskModel) -> WorkModel {
        WorkModel { state: self.state.with_view(view), ask, ..self }
    }

    /// The end of the current steps: a command that was put off is run, and
    /// otherwise the work is done.
    pub open spec fn finished(self) -> WorkModel {
        match self.follow {
            Some(follow) => match self.state.view {
                Some(view) => WorkModel {
                    ask: AskModel::Git(
                        view.root,
                        follow.args,
                        ThenModel::Reported(follow.message),
                    ),
                    follow: None,
                    ..self
                },
                None => WorkModel { ask: AskModel::Nothing, follow: None, ..self },
            },
            None => WorkModel {
                state: match self.farewell {
                    Some(text) => OperationModel { notice: Some(text), ..self.state },
                    None => self.state,
                },
                ask: AskModel::Nothing,
                ..self
            },
        }
    }

    /// The end of the current steps with a dashboard.
    pub open spec fn finished_with(self, view: ViewModel) -> WorkModel {
        (WorkModel { state: self.state.with_view(view), ..self }).finished()
    }

    pub open spec fn finished_with_notice(self, notice: Seq<char>) -> WorkModel {
        (WorkModel {
            state: OperationModel { notice: Some(notice), ..self.state },
            ..self
        }).finished()
    }
}

impl Work {
    fn ask(self, ask: Ask) -> (r: Work)
        ensures
            r@ == self@.asking(ask@),
    {
        Work { state: self.state, ask, follow: self.follow, farewell: self.farewell }
    }

    fn with(self, view: GitView, ask: Ask) -> (r: Work)
        ensures
            r@ == self@.with(view@, ask@),
    {
        Work {
            state: OperationState {
                git_view: Some(view),
                git_init: self.state.git_init,
                notice: self.state.notice,
            },
            ask,
            follow: self.follow,
            farewell: self.farewell,
        }
    }

    fn finish(self) -> (r: Work)
        ensures
            r@ == self@.finished(),
    {
        match self.follow {
            Some(follow) => {
                let ask = match &self.state.git_view {
                    Some(view) => Ask::Git(
                        view.root.copy(),
                        follow.args,
                        Then::Reported(follow.message),
                    ),
                    None => Ask::Nothing,
                };
                Work { state: self.state, ask, follow: None, farewell: self.farewell }
            },
            None => {
                let notice = match &self.farewell {
                    Some(text) => Some(text.copy()),
                    None => self.state.notice,
                };
                Work {
                    state: OperationState {
                        git_view: self.state.git_view,
                        git_init: self.state.git_init,
                        notice,
                    },
                    ask: Ask::Nothing,
                    follow: None,
                    farewell: self.farewell,
                }
            },
        }
    }

    fn finish_with(self, view: GitView) -> (r: Work)
        ensures
            r@ == self@.finished_with(view@),
    {
        self.with(view, Ask::Nothing).finish()
    }

    fn finish_with_notice(self, notice: String) -> (r: Work)
        ensures
            r@ == self@.finished_with_notice(notice@),
    {
        let work = Work {
            state: OperationState {
                git_view: self.state.git_view,
                git_init: self.state.git_init,
                notice: Some(notice),
            },
            ask: self.ask,
            follow: self.follow,
            farewell: self.farewell,
        };
        work.finish()
    }
}

// ---------------------------------------------------------------------------
// Commands

pub open spec fn simple_args(command: SimpleCommand) -> Seq<Seq<char>> {
    match command {
        SimpleCommand::StageAll => seq!["add"@, "-A"@],
        SimpleCommand::UnstageAll => seq!["reset"@],
        SimpleCommand::Push => seq!["push"@],
        SimpleCommand::Fetch => seq!["fetch"@],
        SimpleCommand::Pull => seq!["pull"@, "--ff-only"@],
        SimpleCommand::Stash => seq!["stash"@, "push"@],
        SimpleCommand::StashPop => seq!["stash"@, "pop"@],
    }
}

pub open spec fn simple_message(command: SimpleCommand) -> Seq<char> {
    match command {
        SimpleCommand::StageAll => "Staged all files."@,
        SimpleCommand::UnstageAll => "Unstaged all files."@,
        SimpleCommand::Push => "Pushed."@,
        SimpleCommand::Fetch => "Fetched."@,
        SimpleCommand::Pull => "Pulled."@,
        SimpleCommand::Stash => "Stashed."@,
        SimpleCommand::StashPop => "Restored stash."@,
    }
}

fn one_word(a: &str) -> (r: Vec<String>)
    ensures
        views(r@) == seq![a@],
{
    let mut args: Vec<String> = Vec::new();
    push_word(&mut args, a);
    assert(views(args@) =~= seq![a@]);
    args
}

fn two_words(a: &str, b: &str) -> (r: Vec<String>)
    ensures
        views(r@) == seq![a@, b@],
{
    let mut args: Vec<String> = Vec::new();
    push_word(&mut args, a);
    push_word(&mut args, b);
    assert(views(args@) =~= seq![a@, b@]);
    args
}

fn three_words(a: &str, b: &str, c: &str) -> (r: Vec<String>)
    ensures
        views(r@) == seq![a@, b@, c@],
{
    let mut args: Vec<String> = Vec::new();
    push_word(&mut args, a);
    push_word(&mut args, b);
    push_word(&mut args, c);
    assert(views(args@) =~= seq![a@, b@, c@]);
    args
}

fn four_words(a: &str, b: &str, c: &str, d: &str) -> (r: Vec<String>)
    ensures
        views(r@) == seq![a@, b@, c@, d@],
{
    let mut args: Vec<String> = Vec::new();
    push_word(&mut args, a);
    push_word(&mut args, b);
    push_word(&mut args, c);
    push_word(&mut args, d);
    assert(views(args@) =~= seq![a@, b@, c@, d@]);
    args
}

fn simple_arguments(command: SimpleCommand) -> (r: Vec<String>)
    ensures
        views(r@) == simple_args(command),
{
    match command {
        SimpleCommand::StageAll => two_words("add", "-A"),
        SimpleCommand::UnstageAll => one_word("reset"),
        SimpleCommand::Push => one_word("push"),
        SimpleCommand::Fetch => one_word("fetch"),
        SimpleCommand::Pull => two_words("pull", "--ff-only"),
        SimpleCommand::Stash => two_words("stash", "push"),
        SimpleCommand::StashPop => two_words("stash", "pop"),
    }
}

fn simple_text(command: SimpleCommand) -> (r: &'static str)
    ensures
        r@ == simple_message(command),
{
    match command {
        SimpleCommand::StageAll => "Staged all files.",
        SimpleCommand::UnstageAll => "Unstaged all files.",
        SimpleCommand::Push => "Pushed.",
        SimpleCommand::Fetch => "Fetched.",
        SimpleCommand::Pull => "Pulled.",
        SimpleCommand::Stash => "Stashed.",
        SimpleCommand::StashPop => "Restored stash.",
    }
}

/// The output of a command; nothing where it failed.
pub open spec fn output_or_nothing(result: Result<Seq<char>, Seq<char>>) -> Seq<char> {
    match result {
        Ok(output) => output,
        Err(_) => Seq::empty(),
    }
}

/// The texts of a result.
pub open spec fn result_text(result: Result<String, String>) -> Result<Seq<char>, Seq<char>> {
    match result {
        Ok(output) => Ok(output@),
        Err(error) => Err(error@),
    }
}

fn output_of(result: Result<String, String>) -> (r: String)
    ensures
        r@ == output_or_nothing(result_text(result)),
{
    match result {
        Ok(output) => output,
        Err(_) => String::new(),
    }
}

/// A list without flags.
fn no_flags() -> (r: Vec<String>)
    ensures
        views(r@) == Seq::<Seq<char>>::empty(),
{
    let r: Vec<String> = Vec::new();
    assert(views(r@) =~= Seq::<Seq<char>>::empty());
    r
}

// ---------------------------------------------------------------------------
// Status and history

/// The selection after the files changed: the file with the path that was
/// selected, and otherwise a place inside the list.
pub open spec fn reselected(selected: usize, path: Option<Seq<char>>, files: Seq<FileModel>) -> usize {
    if files.len() == 0 {
        0
    } else {
        match path {
            Some(p) => match first_position(files, |f: FileModel| f.path == p) {
                Some(i) => i as usize,
                None => 0,
            },
            None => if selected < files.len() {
                selected
            } else {
                (files.len() - 1) as usize
            },
        }
    }
}

/// The dashboard with a new status, before its history is read again.
pub open spec fn with_status(v: ViewModel, raw: Seq<char>, now: u64) -> ViewModel {
    let status = porcelain_status(raw);
    ViewModel {
        last_status_raw: Some(raw),
        last_poll: Some(now),
        status,
        flat: status.all(),
        selected: reselected(
            v.selected,
            match v.selected_file() {
                Some(file) => Some(file.path),
                None => None,
            },
            status.all(),
        ),
        commit_cursor: if v.commit_cursor <= v.commit.len() {
            v.commit_cursor
        } else {
            v.commit.len() as usize
        },
        ..v
    }
}

/// The place of a commit in a new history: the commit that was selected, and
/// otherwise a place inside the history.
pub open spec fn reselected_commit(
    selected: usize,
    hash: Option<Seq<char>>,
    history: Seq<EntryModel>,
) -> usize {
    if history.len() == 0 {
        0
    } else if hash is Some {
        place_of_hash(history, hash)
    } else if selected < history.len() {
        selected
    } else {
        (history.len() - 1) as usize
    }
}

/// The dashboard with its history read again.
pub open spec fn with_history(v: ViewModel, output: Seq<char>) -> ViewModel {
    let history = log_entries(text_lines(output));
    ViewModel {
        history,
        history_has_more: history.len() >= history_count(v.history_limit),
        history_selected: reselected_commit(
            v.history_selected,
            hash_at(v.history, v.history_selected),
            history,
        ),
        ..v
    }
}

fn select_path(selected: usize, path: &Option<String>, files: &Vec<GitFile>) -> (r: usize)
    ensures
        r == reselected(selected, option_view(*path), views(files@)),
{
    if files.len() == 0 {
        return 0;
    }
    match path {
        None => if selected < files.len() {
            selected
        } else {
            files.len() - 1
        },
        Some(p) => {
            let ghost wanted = |f: FileModel| f.path == p@;
            let mut i: usize = 0;
            while i < files.len()
                invariant
                    i <= files@.len(),
                    files@.len() > 0,
                    option_view(*path) == Some(p@),
                    wanted == (|f: FileModel| f.path == p@),
                    forall|k: int| 0 <= k < i ==> !wanted(#[trigger] views(files@)[k]),
                decreases files@.len() - i,
            {
                assert(views(files@)[i as int] == files@[i as int]@);
                if files[i].path.same(p) {
                    proof {
                        crate::model::first_position_is(views(files@), wanted, i as int);
                    }
                    return i;
                }
                i += 1;
            }
            proof {
                crate::model::no_first_position(views(files@), wanted);
            }
            0
        },
    }
}

fn select_commit(selected: usize, hash: &Option<String>, history: &Vec<HistoryEntry>) -> (r: usize)
    ensures
        r == reselected_commit(selected, option_view(*hash), views(history@)),
{
    if history.len() == 0 {
        0
    } else if hash.is_some() {
        find_hash(history, hash)
    } else if selected < history.len() {
        selected
    } else {
        history.len() - 1
    }
}

/// Puts a new status into the dashboard; see `with_status`.
fn set_status(view: GitView, raw: String, now: u64) -> (r: GitView)
    ensures
        r@ == with_status(view@, raw@, now),
{
    let mut view = view;
    let path = match view.selected_file() {
        Some(file) => Some(file.path.copy()),
        None => None,
    };
    let status = parse_status_porcelain(raw.as_str());
    let flat = status.flat();
    view.selected = select_path(view.selected, &path, &flat);
    view.status = status;
    view.flat = flat;
    let len: usize = chars_of(view.commit.as_str()).len();
    if view.commit_cursor > len {
        view.commit_cursor = len;
    }
    view.last_status_raw = Some(raw);
    view.last_poll = Some(now);
    view
}

/// Puts the history into the dashboard; see `with_history`.
fn set_history(view: GitView, output: String) -> (r: GitView)
    ensures
        r@ == with_history(view@, output@),
{
    let mut view = view;
    let hash = hash_of(&view.history, view.history_selected);
    let (history, has_more) = history_page(output.as_str(), view.history_limit);
    view.history_selected = select_commit(view.history_selected, &hash, &history);
    view.history = history;
    view.history_has_more = has_more;
    view
}

/// The question for the history of a dashboard.
pub open spec fn ask_history(v: ViewModel, limit: usize, then: ThenModel) -> AskModel {
    AskModel::Git(v.root, history_args(limit), then)
}

fn asking_history(view: &GitView, limit: usize, then: Then) -> (r: Ask)
    ensures
        r@ == ask_history(view@, limit, then@),
{
    Ask::Git(view.root.copy(), history_arguments(limit), then)
}

pub open spec fn ask_status(v: ViewModel, then: ThenModel) -> AskModel {
    AskModel::Git(v.root, status_args(), then)
}

fn asking_status(view: &GitView, then: Then) -> (r: Ask)
    ensures
        r@ == ask_status(view@, then@),
{
    Ask::Git(view.root.copy(), status_arguments(), then)
}

// ---------------------------------------------------------------------------
// The log

/// The dashboard with its history shown as a log, from the output of git.
pub open spec fn with_log(v: ViewModel, output: Seq<char>) -> ViewModel {
    let history = log_entries(text_lines(output));
    ViewModel {
        show_log: true,
        history,
        history_has_more: history.len() >= history_count(v.history_limit),
        history_selected: 0,
        log_scroll: 0,
        diff: None,
        show_branches: false,
        ..v
    }
}

/// Where the log is read from, and the command that reads it; nothing without
/// a dashboard.
pub fn log_command(state: &GitState) -> (r: Option<(String, Vec<String>)>)
    ensures
        r is Some == state@.view is Some,
        state@.view matches Some(v) ==> (r->0).0@ == v.root && views((r->0).1@) == history_args(
            v.history_limit,
        ),
{
    match &state.git_view {
        Some(view) => Some((view.root.copy(), history_arguments(view.history_limit))),
        None => None,
    }
}

/// Shows the history as a log; see `with_log`.
pub fn open_log(state: &mut GitState, output: &str)
    ensures
        final(state)@ == match old(state)@.view {
            Some(v) => old(state)@.with_view(with_log(v, output@)),
            None => old(state)@,
        },
{
    match state.git_view.take() {
        Some(view) => {
            let mut view = view;
            let (history, has_more) = history_page(output, view.history_limit);
            view.show_log = true;
            view.history = history;
            view.history_has_more = has_more;
            view.history_selected = 0;
            view.log_scroll = 0;
            view.diff = None;
            view.show_branches = false;
            state.git_view = Some(view);
        },
        None => {},
    }
}

// ---------------------------------------------------------------------------
// The shown diff

/// Whether a file is the one that a diff shows.
pub open spec fn shows_file(diff: DiffModel, file: FileModel) -> bool {
    diff.commit is None && file.path == diff.path && file.section == (if diff.untracked {
        GitSection::Untracked
    } else if diff.staged {
        GitSection::Staged
    } else {
        GitSection::Unstaged
    })
}

/// The file that the open diff shows.
pub open spec fn visible_file(v: ViewModel) -> Option<int> {
    match v.diff {
        Some(diff) => first_position(v.flat, |f: FileModel| shows_file(diff, f)),
        None => None,
    }
}

/// The question for the diff of a file.
pub open spec fn ask_diff(v: ViewModel, file: FileModel, of_file: ThenModel, of_diff: ThenModel) -> AskModel {
    if file.section == GitSection::Untracked {
        AskModel::File(v.root, file.path, of_file)
    } else {
        AskModel::Git(
            v.root,
            file_args(
                "diff"@,
                diff_flags(file.section == GitSection::Staged, false),
                seq![file.path],
            ),
            of_diff,
        )
    }
}

/// Reads the open diff again, where it is that of a changed file.
pub open spec fn visible_diff(w: WorkModel, v: ViewModel, report: bool) -> WorkModel {
    match visible_file(v) {
        Some(i) => w.with(
            v,
            ask_diff(
                v,
                v.flat[i],
                ThenModel::VisibleFile(report),
                ThenModel::VisibleDiff(report, i as usize, false),
            ),
        ),
        None => w.finished_with(v),
    }
}

fn is_shown(diff: &LoadedDiff, file: &GitFile) -> (r: bool)
    ensures
        r == shows_file(diff@, file@),
{
    let section = if diff.untracked {
        GitSection::Untracked
    } else if diff.staged {
        GitSection::Staged
    } else {
        GitSection::Unstaged
    };
    diff.commit.is_none() && file.path.same(&diff.path) && file.section == section
}

fn find_visible_file(view: &GitView) -> (r: Option<usize>)
    ensures
        match r {
            Some(i) => visible_file(view@) == Some(i as int) && i < view@.flat.len(),
            None => visible_file(view@) is None,
        },
{
    match &view.diff {
        None => None,
        Some(diff) => {
            let ghost d = diff@;
            let ghost wanted = |f: FileModel| shows_file(d, f);
            let mut i: usize = 0;
            while i < view.flat.len()
                invariant
                    i <= view.flat@.len(),
                    d == diff@,
                    view@.diff == Some(d),
                    wanted == (|f: FileModel| shows_file(d, f)),
                    forall|k: int| 0 <= k < i ==> !wanted(#[trigger] views(view.flat@)[k]),
                decreases view.flat@.len() - i,
            {
                assert(views(view.flat@)[i as int] == view.flat@[i as int]@);
                if is_shown(diff, &view.flat[i]) {
                    proof {
                        crate::model::first_position_is(views(view.flat@), wanted, i as int);
                    }
                    return Some(i);
                }
                i += 1;
            }
            proof {
                crate::model::no_first_position(views(view.flat@), wanted);
            }
            None
        },
    }
}

fn asking_diff(view: &GitView, file: &GitFile, of_file: Then, of_diff: Then) -> (r: Ask)
    ensures
        r@ == ask_diff(view@, file@, of_file@, of_diff@),
{
    if file.section == GitSection::Untracked {
        Ask::File(view.root.copy(), file.path.copy(), of_file)
    } else {
        Ask::Git(view.root.copy(), diff_arguments(file, false), of_diff)
    }
}

fn refresh_visible_diff(work: Work, view: GitView, report: bool) -> (r: Work)
    ensures
        r@ == visible_diff(work@, view@, report),
{
    match find_visible_file(&view) {
        Some(i) => {
            let ask = asking_diff(
                &view,
                &view.flat[i],
                Then::VisibleFile(report),
                Then::VisibleDiff(report, i, false),
            );
            work.with(view, ask)
        },
        None => work.finish_with(view),
    }
}

/// The open diff read again: it keeps its place.
pub open spec fn with_visible(v: ViewModel, diff: DiffModel) -> ViewModel {
    ViewModel {
        diff: Some(
            DiffModel {
                scroll: match v.diff {
                    Some(old_diff) => old_diff.scroll,
                    None => 0,
                },
                ..diff
            },
        ),
        ..v
    }
}

fn set_visible(view: GitView, diff: LoadedDiff) -> (r: GitView)
    ensures
        r@ == with_visible(view@, diff@),
{
    let mut view = view;
    let mut diff = diff;
    diff.scroll = match &view.diff {
        Some(before) => before.scroll,
        None => 0,
    };
    view.diff = Some(diff);
    view
}

/// The dashboard with a diff that was opened.
pub open spec fn with_opened(v: ViewModel, diff: DiffModel) -> ViewModel {
    (ViewModel {
        diff: Some(DiffModel { scroll: SCROLL_ANCHOR_PENDING, ..diff }),
        show_log: false,
        show_branches: false,
        focus: GitFocus::Diff,
        ..v
    }).with_notice(""@, false)
}

fn set_opened(view: GitView, diff: LoadedDiff) -> (r: GitView)
    ensures
        r@ == with_opened(view@, diff@),
{
    let mut view = view;
    let mut diff = diff;
    diff.scroll = SCROLL_ANCHOR_PENDING;
    view.diff = Some(diff);
    view.show_log = false;
    view.show_branches = false;
    view.focus = GitFocus::Diff;
    view.set_notice("".to_owned(), false);
    view
}

fn set_error(view: GitView, error: String) -> (r: GitView)
    ensures
        r@ == view@.with_notice(error@, true),
{
    let mut view = view;
    view.set_notice(error, true);
    view
}

fn set_message(view: GitView, message: String) -> (r: GitView)
    ensures
        r@ == view@.with_notice(message@, false),
{
    let mut view = view;
    view.set_notice(message, false);
    view
}

// ---------------------------------------------------------------------------
// Committing

/// The arguments of a commit. Amending with an empty message keeps the
/// previous one.
pub open spec fn commit_args(message: Seq<char>, amend: bool) -> Seq<Seq<char>> {
    if amend && message.len() == 0 {
        seq!["commit"@, "--amend"@, "--no-edit"@]
    } else if amend {
        seq!["commit"@, "--amend"@, "-m"@, message]
    } else {
        seq!["commit"@, "-m"@, message]
    }
}

fn commit_arguments(message: &str, amend: bool) -> (r: Vec<String>)
    ensures
        views(r@) == commit_args(message@, amend),
{
    if amend && message.is_empty() {
        three_words("commit", "--amend", "--no-edit")
    } else if amend {
        four_words("commit", "--amend", "-m", message)
    } else {
        three_words("commit", "-m", message)
    }
}

fn message_of(view: &GitView) -> (r: String)
    ensures
        r@ == trimmed(view@.commit),
{
    string_of(&trim(&chars_of(view.commit.as_str())))
}

pub open spec fn ask_commit(v: ViewModel, mode: CommitMode) -> AskModel {
    AskModel::Git(v.root, commit_args(trimmed(v.commit), v.amend), ThenModel::Committed(mode))
}

/// The first step of a commit. With synchronizing, a pull comes first, so that
/// the commit lands on the fresh upstream.
pub open spec fn commit_begin(w: WorkModel, v: ViewModel, mode: CommitMode) -> WorkModel {
    if trimmed(v.commit).len() == 0 && !v.amend {
        w.finished_with(v.with_notice("Write a commit message first."@, true))
    } else if mode == CommitMode::AndSync {
        w.with(
            v,
            AskModel::Git(v.root, seq!["pull"@, "--ff-only"@], ThenModel::Pulled(mode)),
        )
    } else {
        w.with(v, ask_commit(v, mode))
    }
}

fn asking_commit(view: &GitView, mode: CommitMode) -> (r: Ask)
    ensures
        r@ == ask_commit(view@, mode),
{
    let message = message_of(view);
    Ask::Git(
        view.root.copy(),
        commit_arguments(message.as_str(), view.amend),
        Then::Committed(mode),
    )
}

fn begin_commit(work: Work, view: GitView, mode: CommitMode) -> (r: Work)
    ensures
        r@ == commit_begin(work@, view@, mode),
{
    let message = message_of(&view);
    if message.as_str().is_empty() && !view.amend {
        return work.finish_with(set_error(view, "Write a commit message first.".to_owned()));
    }
    let ask = if mode == CommitMode::AndSync {
        Ask::Git(view.root.copy(), two_words("pull", "--ff-only"), Then::Pulled(mode))
    } else {
        asking_commit(&view, mode)
    };
    work.with(view, ask)
}

/// Reads the repository again after a step.
pub open spec fn refreshed(w: WorkModel, v: ViewModel) -> WorkModel {
    w.with(v, ask_status(v, ThenModel::Refreshed))
}

fn refresh(work: Work, view: GitView) -> (r: Work)
    ensures
        r@ == refreshed(work@, view@),
{
    let ask = asking_status(&view, Then::Refreshed);
    work.with(view, ask)
}

/// After the pull of a synchronizing commit: a failed pull stops before
/// anything is committed and leaves the message for another try.
pub open spec fn after_pull(
    w: WorkModel,
    v: ViewModel,
    mode: CommitMode,
    result: Result<Seq<char>, Seq<char>>,
) -> WorkModel {
    match result {
        Ok(_) => w.with(v, ask_commit(v, mode)),
        Err(error) => refreshed(
            w,
            v.with_notice("Sync failed before commit: "@ + error, true),
        ),
    }
}

fn pulled(work: Work, view: GitView, mode: CommitMode, result: Result<String, String>) -> (r: Work)
    ensures
        r@ == after_pull(work@, view@, mode, result_text(result)),
{
    match result {
        Ok(_) => {
            let ask = asking_commit(&view, mode);
            work.with(view, ask)
        },
        Err(error) => {
            let mut text = "Sync failed before commit: ".to_owned();
            text.append(error.as_str());
            refresh(work, set_error(view, text))
        },
    }
}

/// The end of a commit: the message is cleared.
pub open spec fn commit_end(w: WorkModel, v: ViewModel, notice: Seq<char>, error: bool) -> WorkModel {
    refreshed(
        w,
        (ViewModel {
            commit: Seq::empty(),
            commit_cursor: 0,
            amend: false,
            commit_menu: None,
            ..v
        }).with_notice(notice, error),
    )
}

fn end_commit(work: Work, view: GitView, notice: String, error: bool) -> (r: Work)
    ensures
        r@ == commit_end(work@, view@, notice@, error),
{
    let mut view = view;
    view.commit = String::new();
    view.commit_cursor = 0;
    view.amend = false;
    view.commit_menu = None;
    view.set_notice(notice, error);
    refresh(work, view)
}

/// After the commit itself.
pub open spec fn after_commit(
    w: WorkModel,
    v: ViewModel,
    mode: CommitMode,
    result: Result<Seq<char>, Seq<char>>,
) -> WorkModel {
    match result {
        Err(error) => w.finished_with(v.with_notice(error, true)),
        Ok(_) => if mode == CommitMode::Commit {
            commit_end(
                w,
                v,
                if v.amend {
                    "Amended commit."@
                } else {
                    "Committed."@
                },
                false,
            )
        } else {
            w.with(v, AskModel::Git(v.root, seq!["push"@], ThenModel::Pushed(mode)))
        },
    }
}

fn committed(
    work: Work,
    view: GitView,
    mode: CommitMode,
    result: Result<String, String>,
) -> (r: Work)
    ensures
        r@ == after_commit(work@, view@, mode, result_text(result)),
{
    match result {
        Err(error) => work.finish_with(set_error(view, error)),
        Ok(_) => {
            if mode == CommitMode::Commit {
                let notice = if view.amend {
                    "Amended commit.".to_owned()
                } else {
                    "Committed.".to_owned()
                };
                end_commit(work, view, notice, false)
            } else {
                let ask = Ask::Git(view.root.copy(), one_word("push"), Then::Pushed(mode));
                work.with(view, ask)
            }
        },
    }
}

/// After the push of a commit.
pub open spec fn after_push(
    w: WorkModel,
    v: ViewModel,
    mode: CommitMode,
    result: Result<Seq<char>, Seq<char>>,
) -> WorkModel {
    match result {
        Ok(_) => commit_end(
            w,
            v,
            if mode == CommitMode::AndSync {
                "Committed and synced."@
            } else {
                "Committed and pushed."@
            },
            false,
        ),
        Err(error) => commit_end(w, v, "Committed. Push failed: "@ + error, true),
    }
}

fn pushed(work: Work, view: GitView, mode: CommitMode, result: Result<String, String>) -> (r: Work)
    ensures
        r@ == after_push(work@, view@, mode, result_text(result)),
{
    match result {
        Ok(_) => {
            let notice = if mode == CommitMode::AndSync {
                "Committed and synced.".to_owned()
            } else {
                "Committed and pushed.".to_owned()
            };
            end_commit(work, view, notice, false)
        },
        Err(error) => {
            let mut text = "Committed. Push failed: ".to_owned();
            text.append(error.as_str());
            end_commit(work, view, text, true)
        },
    }
}

// ---------------------------------------------------------------------------
// Discarding

/// The paths that a confirmation speaks of.
pub open spec fn discard_targets(
    path: Seq<char>,
    renamed_from: Option<Seq<char>>,
    untracked: bool,
    staged: bool,
) -> Seq<Seq<char>> {
    targets(
        if staged {
            GitSection::Staged
        } else if untracked {
            GitSection::Untracked
        } else {
            GitSection::Unstaged
        },
        path,
        renamed_from,
    )
}

/// The flags that restore a file: from the last commit, for a staged one.
pub open spec fn restore_flags(staged: bool) -> Seq<Seq<char>> {
    if staged {
        seq!["--source=HEAD"@, "--staged"@, "--worktree"@]
    } else {
        Seq::empty()
    }
}

/// The command of a confirmation, and what follows it. Untracked files are
/// cleaned, which respects ignored files and nested repositories.
pub open spec fn discard_ask(v: ViewModel, confirm: ConfirmModel) -> AskModel {
    match confirm {
        ConfirmModel::DiscardAll => AskModel::Git(
            v.root,
            seq!["restore"@, "--"@, "."@],
            ThenModel::Reported("Discarded all unstaged changes."@),
        ),
        ConfirmModel::DiscardFile { path, renamed_from, untracked, staged } => {
            let paths = discard_targets(path, renamed_from, untracked, staged);
            if untracked {
                AskModel::Git(
                    v.root,
                    file_args("clean"@, seq!["-f"@, "-d"@], paths),
                    ThenModel::Reported("Cleaned untracked files."@),
                )
            } else {
                AskModel::Git(
                    v.root,
                    file_args("restore"@, restore_flags(staged), paths),
                    ThenModel::Restored(confirm),
                )
            }
        },
    }
}

pub open spec fn discard_begin(w: WorkModel, v: ViewModel) -> WorkModel {
    match v.confirm {
        None => w.finished_with(v),
        Some(confirm) => w.with(ViewModel { confirm: None, ..v }, discard_ask(v, confirm)),
    }
}

fn discard_paths(
    path: &String,
    renamed_from: &Option<String>,
    untracked: bool,
    staged: bool,
) -> (r: Vec<String>)
    ensures
        views(r@) == discard_targets(path@, option_view(*renamed_from), untracked, staged),
{
    let section = if staged {
        GitSection::Staged
    } else if untracked {
        GitSection::Untracked
    } else {
        GitSection::Unstaged
    };
    target_paths(section, path.as_str(), renamed_from)
}

fn restoring_flags(staged: bool) -> (r: Vec<String>)
    ensures
        views(r@) == restore_flags(staged),
{
    if staged {
        three_words("--source=HEAD", "--staged", "--worktree")
    } else {
        no_flags()
    }
}

fn asking_discard(view: &GitView, confirm: Confirm) -> (r: Ask)
    ensures
        r@ == discard_ask(view@, confirm@),
{
    match &confirm {
        Confirm::DiscardAll => Ask::Git(
            view.root.copy(),
            three_words("restore", "--", "."),
            Then::Reported("Discarded all unstaged changes.".to_owned()),
        ),
        Confirm::DiscardFile { path, renamed_from, untracked, staged } => {
            let paths = discard_paths(path, renamed_from, *untracked, *staged);
            if *untracked {
                Ask::Git(
                    view.root.copy(),
                    file_arguments("clean", &two_words("-f", "-d"), &paths),
                    Then::Reported("Cleaned untracked files.".to_owned()),
                )
            } else {
                let args = file_arguments("restore", &restoring_flags(*staged), &paths);
                Ask::Git(view.root.copy(), args, Then::Restored(confirm))
            }
        },
    }
}

fn begin_discard(work: Work, view: GitView) -> (r: Work)
    ensures
        r@ == discard_begin(work@, view@),
{
    let mut view = view;
    match view.confirm.take() {
        None => work.finish_with(view),
        Some(confirm) => {
            let ask = asking_discard(&view, confirm);
            work.with(view, ask)
        },
    }
}

pub open spec fn discarded_text(path: Seq<char>) -> Seq<char> {
    "Discarded "@ + path + "."@
}

/// Where git knows no `restore`: a staged file is taken out of the index
/// first, and then checked out.
pub open spec fn restore_fallback(
    w: WorkModel,
    v: ViewModel,
    staged: bool,
    paths: Seq<Seq<char>>,
    message: Seq<char>,
) -> WorkModel {
    let checkout = file_args("checkout"@, Seq::empty(), paths);
    if staged {
        WorkModel {
            follow: Some(FollowModel { args: checkout, message }),
            ..w.with(
                v,
                AskModel::Git(
                    v.root,
                    file_args("reset"@, seq!["HEAD"@], paths),
                    ThenModel::Reported(""@),
                ),
            )
        }
    } else {
        w.with(v, AskModel::Git(v.root, checkout, ThenModel::Reported(message)))
    }
}

/// After the restoring of a file.
pub open spec fn after_restore(
    w: WorkModel,
    v: ViewModel,
    confirm: ConfirmModel,
    result: Result<Seq<char>, Seq<char>>,
) -> WorkModel {
    match confirm {
        ConfirmModel::DiscardAll => w.finished_with(v),
        ConfirmModel::DiscardFile { path, renamed_from, untracked, staged } => match result {
            Ok(_) => refreshed(w, v.with_notice(discarded_text(path), false)),
            Err(error) => if occurs(error, "is not a git command"@) {
                restore_fallback(
                    w,
                    v,
                    staged,
                    discard_targets(path, renamed_from, untracked, staged),
                    discarded_text(path),
                )
            } else {
                w.finished_with(v.with_notice(error, true))
            },
        },
    }
}

fn discarded(path: &String) -> (r: String)
    ensures
        r@ == discarded_text(path@),
{
    let mut text = "Discarded ".to_owned();
    text.append(path.as_str());
    text.append(".");
    text
}

fn fall_back(
    work: Work,
    view: GitView,
    staged: bool,
    paths: &Vec<String>,
    message: String,
) -> (r: Work)
    ensures
        r@ == restore_fallback(work@, view@, staged, views(paths@), message@),
{
    let checkout = file_arguments("checkout", &no_flags(), paths);
    if staged {
        let args = file_arguments("reset", &one_word("HEAD"), paths);
        let ask = Ask::Git(view.root.copy(), args, Then::Reported("".to_owned()));
        let next = work.with(view, ask);
        Work {
            state: next.state,
            ask: next.ask,
            follow: Some(Follow { args: checkout, message }),
            farewell: next.farewell,
        }
    } else {
        let ask = Ask::Git(view.root.copy(), checkout, Then::Reported(message));
        work.with(view, ask)
    }
}

fn restored(work: Work, view: GitView, confirm: Confirm, result: Result<String, String>) -> (r: Work)
    ensures
        r@ == after_restore(work@, view@, confirm@, result_text(result)),
{
    match confirm {
        Confirm::DiscardAll => work.finish_with(view),
        Confirm::DiscardFile { path, renamed_from, untracked, staged } => match result {
            Ok(_) => refresh(work, set_message(view, discarded(&path))),
            Err(error) => {
                if is_unknown_subcommand(error.as_str()) {
                    let paths = discard_paths(&path, &renamed_from, untracked, staged);
                    fall_back(work, view, staged, &paths, discarded(&path))
                } else {
                    work.finish_with(set_error(view, error))
                }
            },
        },
    }
}

// ---------------------------------------------------------------------------
// Reports

/// The notice after a command: its message and what it printed.
pub open spec fn report_text(message: Seq<char>, output: Seq<char>) -> Seq<char> {
    let detail = trimmed(output);
    trimmed(
        if detail.len() == 0 {
            message
        } else {
            message + " "@ + detail
        },
    )
}

/// After a command with nothing more to it.
pub open spec fn after_report(
    w: WorkModel,
    v: ViewModel,
    message: Seq<char>,
    result: Result<Seq<char>, Seq<char>>,
) -> WorkModel {
    match result {
        Ok(output) => refreshed(w, v.with_notice(report_text(message, output), false)),
        Err(error) => w.finished_with(v.with_notice(error, true)),
    }
}

fn report_simple_result(
    work: Work,
    view: GitView,
    message: String,
    result: Result<String, String>,
) -> (r: Work)
    ensures
        r@ == after_report(work@, view@, message@, result_text(result)),
{
    match result {
        Ok(output) => {
            let detail = trim(&chars_of(output.as_str()));
            let mut text = message;
            if detail.len() > 0 {
                text.append(" ");
                text.append(string_of(&detail).as_str());
            }
            let notice = string_of(&trim(&chars_of(text.as_str())));
            refresh(work, set_message(view, notice))
        },
        Err(error) => work.finish_with(set_error(view, error)),
    }
}

/// After a file was staged or unstaged.
pub open spec fn after_stage(
    w: WorkModel,
    v: ViewModel,
    result: Result<Seq<char>, Seq<char>>,
) -> WorkModel {
    match result {
        Ok(_) => refreshed(w, v.with_notice(""@, false)),
        Err(error) => w.finished_with(v.with_notice(error, true)),
    }
}

fn staged_file(work: Work, view: GitView, result: Result<String, String>) -> (r: Work)
    ensures
        r@ == after_stage(work@, view@, result_text(result)),
{
    match result {
        Ok(_) => refresh(work, set_message(view, "".to_owned())),
        Err(error) => work.finish_with(set_error(view, error)),
    }
}

pub open spec fn branch_at(v: ViewModel) -> Seq<char> {
    if v.branch_selected < v.branches.len() {
        v.branches[v.branch_selected as int]
    } else {
        Seq::empty()
    }
}

/// After the switch to another branch.
pub open spec fn after_switch(
    w: WorkModel,
    v: ViewModel,
    result: Result<Seq<char>, Seq<char>>,
) -> WorkModel {
    match result {
        Ok(_) => refreshed(
            w,
            (ViewModel { show_branches: false, ..v }).with_notice(
                "Switched to "@ + branch_at(v) + "."@,
                false,
            ),
        ),
        Err(error) => w.finished_with(v.with_notice(error, true)),
    }
}

fn branch_name(view: &GitView) -> (r: String)
    ensures
        r@ == branch_at(view@),
{
    if view.branch_selected < view.branches.len() {
        view.branches[view.branch_selected].copy()
    } else {
        String::new()
    }
}

fn switched(work: Work, view: GitView, result: Result<String, String>) -> (r: Work)
    ensures
        r@ == after_switch(work@, view@, result_text(result)),
{
    match result {
        Ok(_) => {
            let mut view = view;
            view.show_branches = false;
            let mut text = "Switched to ".to_owned();
            text.append(branch_name(&view).as_str());
            text.append(".");
            refresh(work, set_message(view, text))
        },
        Err(error) => work.finish_with(set_error(view, error)),
    }
}

/// After a branch named by the message was created.
pub open spec fn after_create(
    w: WorkModel,
    v: ViewModel,
    result: Result<Seq<char>, Seq<char>>,
) -> WorkModel {
    match result {
        Ok(_) => refreshed(
            w,
            (ViewModel {
                show_branches: false,
                commit: Seq::empty(),
                commit_cursor: 0,
                ..v
            }).with_notice("Created branch "@ + trimmed(v.commit) + "."@, false),
        ),
        Err(error) => w.finished_with(v.with_notice(error, true)),
    }
}

fn created(work: Work, view: GitView, result: Result<String, String>) -> (r: Work)
    ensures
        r@ == after_create(work@, view@, result_text(result)),
{
    match result {
        Ok(_) => {
            let mut text = "Created branch ".to_owned();
            text.append(message_of(&view).as_str());
            text.append(".");
            let mut view = view;
            view.show_branches = false;
            view.commit = String::new();
            view.commit_cursor = 0;
            refresh(work, set_message(view, text))
        },
        Err(error) => work.finish_with(set_error(view, error)),
    }
}

/// After the changes were stashed under the message.
pub open spec fn after_stash(
    w: WorkModel,
    v: ViewModel,
    result: Result<Seq<char>, Seq<char>>,
) -> WorkModel {
    match result {
        Ok(_) => refreshed(
            w,
            (ViewModel { commit: Seq::empty(), commit_cursor: 0, ..v }).with_notice(
                "Stashed."@,
                false,
            ),
        ),
        Err(error) => w.finished_with(v.with_notice(error, true)),
    }
}

fn stashed(work: Work, view: GitView, result: Result<String, String>) -> (r: Work)
    ensures
        r@ == after_stash(work@, view@, result_text(result)),
{
    match result {
        Ok(_) => {
            let mut view = view;
            view.commit = String::new();
            view.commit_cursor = 0;
            refresh(work, set_message(view, "Stashed.".to_owned()))
        },
        Err(error) => work.finish_with(set_error(view, error)),
    }
}

/// After the branches were listed.
pub open spec fn after_branches(
    w: WorkModel,
    v: ViewModel,
    result: Result<Seq<char>, Seq<char>>,
) -> WorkModel {
    match result {
        Ok(output) => w.finished_with(
            ViewModel {
                show_branches: true,
                branches: crate::order::sorted(branch_lines(output)),
                branch_selected: 0,
                diff: None,
                show_log: false,
                ..v
            },
        ),
        Err(error) => w.finished_with(v.with_notice(error, true)),
    }
}

fn listed(work: Work, view: GitView, result: Result<String, String>) -> (r: Work)
    ensures
        r@ == after_branches(work@, view@, result_text(result)),
{
    match result {
        Ok(output) => {
            let mut view = view;
            view.show_branches = true;
            view.branches = parse_branches(output.as_str());
            view.branch_selected = 0;
            view.diff = None;
            view.show_log = false;
            work.finish_with(view)
        },
        Err(error) => work.finish_with(set_error(view, error)),
    }
}

// ---------------------------------------------------------------------------
// More history

/// The limit of the next page of history.
pub open spec fn next_limit(v: ViewModel) -> usize {
    let page = if v.history_limit + HISTORY_PAGE_SIZE <= usize::MAX {
        v.history_limit + HISTORY_PAGE_SIZE
    } else {
        usize::MAX as int
    };
    let longer = if v.history.len() < usize::MAX {
        v.history.len() as int + 1
    } else {
        usize::MAX as int
    };
    if page >= longer {
        page as usize
    } else {
        longer as usize
    }
}

fn following_limit(view: &GitView) -> (r: usize)
    ensures
        r == next_limit(view@),
{
    let page: usize = view.history_limit.saturating_add(HISTORY_PAGE_SIZE);
    let longer: usize = view.history.len().saturating_add(1);
    if page >= longer {
        page
    } else {
        longer
    }
}

/// After a longer history was read. One that is no longer proves that the
/// oldest commit was there already.
pub open spec fn with_more_history(v: ViewModel, limit: usize, output: Seq<char>) -> ViewModel {
    let history = log_entries(text_lines(output));
    if history.len() <= v.history.len() {
        ViewModel { history_has_more: false, ..v }
    } else {
        ViewModel {
            history_limit: limit,
            history,
            history_has_more: history.len() >= history_count(limit),
            history_selected: reselected_commit(
                v.history_selected,
                hash_at(v.history, v.history_selected),
                history,
            ),
            history_scroll: if v.history_scroll < history.len() {
                v.history_scroll
            } else {
                (history.len() - 1) as usize
            },
            ..v
        }
    }
}

fn load_more_history(view: GitView, limit: usize, output: String) -> (r: GitView)
    ensures
        r@ == with_more_history(view@, limit, output@),
{
    let mut view = view;
    let (history, has_more) = history_page(output.as_str(), limit);
    if history.len() <= view.history.len() {
        view.history_has_more = false;
        return view;
    }
    let hash = hash_of(&view.history, view.history_selected);
    view.history_selected = select_commit(view.history_selected, &hash, &history);
    if view.history_scroll >= history.len() {
        view.history_scroll = history.len() - 1;
    }
    view.history_limit = limit;
    view.history = history;
    view.history_has_more = has_more;
    view
}

/// The commits that were loaded stay loaded, and the selected one stays
/// selected, when a longer history with the same newest commits is read.
pub proof fn paging_keeps_the_selected_commit(v: ViewModel, limit: usize, output: Seq<char>)
    requires
        v.history_selected < v.history.len(),
        log_entries(text_lines(output)).len() > v.history.len(),
        log_entries(text_lines(output)).len() <= usize::MAX,
        forall|i: int|
            0 <= i < v.history.len() ==> #[trigger] log_entries(text_lines(output))[i]
                == v.history[i],
        forall|i: int, j: int|
            0 <= i < j < log_entries(text_lines(output)).len() ==> (#[trigger] log_entries(
                text_lines(output),
            )[i]).hash != (#[trigger] log_entries(text_lines(output))[j]).hash,
    ensures
        with_more_history(v, limit, output).history_selected == v.history_selected,
        with_more_history(v, limit, output).history.len() > v.history.len(),
{
    let history = log_entries(text_lines(output));
    let at = v.history_selected as int;
    let hash = v.history[at].hash;
    assert(history[at] == v.history[at]);
    reveal(place_of_hash);
    crate::model::first_position_is(history, |x: EntryModel| x.hash == hash, at);
}

// ---------------------------------------------------------------------------
// Setting up a repository

/// The setup shows an error and stays open.
pub open spec fn init_failed(w: WorkModel, text: Seq<char>, error: Seq<char>) -> WorkModel {
    (WorkModel {
        state: OperationModel {
            init: match w.state.init {
                Some(flow) => Some(InitModel { error: Some(text + error), ..flow }),
                None => None,
            },
            ..w.state
        },
        ..w
    }).finished()
}

/// The setup is done: the dashboard opens, and the message stays.
pub open spec fn init_succeeded(w: WorkModel, message: Seq<char>) -> WorkModel {
    WorkModel {
        state: OperationModel { init: None, ..w.state },
        ask: AskModel::Root,
        farewell: Some(message),
        ..w
    }
}

pub open spec fn init_git(w: WorkModel, dir: Seq<char>, args: Seq<Seq<char>>, then: ThenModel) -> WorkModel {
    w.asking(AskModel::Git(dir, args, then))
}

pub open spec fn init_rename(w: WorkModel, dir: Seq<char>) -> WorkModel {
    init_git(w, dir, seq!["branch"@, "-M"@, "main"@], ThenModel::InitRenamed)
}

/// The steps of the setup. Each can be run again: a retry after a failed push
/// keeps the README, makes no second commit and sets the remote anew.
pub open spec fn init_step(
    w: WorkModel,
    flow: InitModel,
    then: ThenModel,
    result: Result<Seq<char>, Seq<char>>,
) -> WorkModel {
    let dir = flow.dir;
    let remote = trimmed(flow.remote);
    match (then, result) {
        (ThenModel::InitDone, Ok(_)) => w.asking(AskModel::Readme(dir)),
        (ThenModel::InitDone, Err(e)) => init_failed(w, "git init failed: "@, e),
        (ThenModel::ReadmeAdded, Ok(_)) => init_git(
            w,
            dir,
            seq!["diff"@, "--cached"@, "--quiet"@],
            ThenModel::InitStaged,
        ),
        (ThenModel::ReadmeAdded, Err(e)) => init_failed(w, "git add failed: "@, e),
        (ThenModel::InitStaged, Ok(_)) => init_rename(w, dir),
        (ThenModel::InitStaged, Err(_)) => init_git(
            w,
            dir,
            seq!["commit"@, "-m"@, "first commit"@],
            ThenModel::InitCommitted,
        ),
        (ThenModel::InitCommitted, Ok(_)) => init_rename(w, dir),
        (ThenModel::InitCommitted, Err(e)) => init_failed(w, "git commit failed: "@, e),
        (ThenModel::InitRenamed, Ok(_)) => if remote.len() == 0 {
            init_succeeded(w, "Initialized a local git repository on branch main."@)
        } else {
            init_git(
                w,
                dir,
                seq!["remote"@, "get-url"@, "origin"@],
                ThenModel::InitRemote,
            )
        },
        (ThenModel::InitRenamed, Err(e)) => init_failed(
            w,
            "could not rename the branch to main: "@,
            e,
        ),
        (ThenModel::InitRemote, Ok(_)) => init_git(
            w,
            dir,
            seq!["remote"@, "set-url"@, "origin"@, remote],
            ThenModel::InitRemoteSet(true),
        ),
        (ThenModel::InitRemote, Err(_)) => init_git(
            w,
            dir,
            seq!["remote"@, "add"@, "origin"@, remote],
            ThenModel::InitRemoteSet(false),
        ),
        (ThenModel::InitRemoteSet(_), Ok(_)) => init_git(
            w,
            dir,
            seq!["push"@, "-u"@, "origin"@, "main"@],
            ThenModel::InitPushed,
        ),
        (ThenModel::InitRemoteSet(known), Err(e)) => init_failed(
            w,
            if known {
                "git remote set-url failed: "@
            } else {
                "git remote add failed: "@
            },
            e,
        ),
        (ThenModel::InitPushed, Ok(_)) => init_succeeded(
            w,
            "Initialized a git repository and pushed to "@ + remote + "."@,
        ),
        (ThenModel::InitPushed, Err(e)) => init_failed(
            w,
            "The local repository is ready on branch main, but the push failed: "@,
            e,
        ),
        _ => w.finished(),
    }
}

fn fail_init(work: Work, text: &str, error: String) -> (r: Work)
    ensures
        r@ == init_failed(work@, text@, error@),
{
    let mut message = text.to_owned();
    message.append(error.as_str());
    let init = match work.state.git_init {
        Some(flow) => Some(
            GitInitFlow {
                dir: flow.dir,
                remote: flow.remote,
                cursor: flow.cursor,
                error: Some(message),
            },
        ),
        None => None,
    };
    let next = Work {
        state: OperationState {
            git_view: work.state.git_view,
            git_init: init,
            notice: work.state.notice,
        },
        ask: work.ask,
        follow: work.follow,
        farewell: work.farewell,
    };
    next.finish()
}

fn succeed_init(work: Work, message: String) -> (r: Work)
    ensures
        r@ == init_succeeded(work@, message@),
{
    Work {
        state: OperationState {
            git_view: work.state.git_view,
            git_init: None,
            notice: work.state.notice,
        },
        ask: Ask::Root,
        follow: work.follow,
        farewell: Some(message),
    }
}

fn rename_init(work: Work, dir: String) -> (r: Work)
    ensures
        r@ == init_rename(work@, dir@),
{
    work.ask(Ask::Git(dir, three_words("branch", "-M", "main"), Then::InitRenamed))
}

fn advance_remote(work: Work, dir: String, remote: &str, then: Then, result: Result<String, String>) -> (r: Work)
    requires
        then@ is InitRenamed || then@ is InitRemote || then@ is InitRemoteSet || then@ is InitPushed,
    ensures
        forall|flow: InitModel|
            flow.dir == dir@ && trimmed(flow.remote) == remote@ ==> r@ == #[trigger] init_step(
                work@,
                flow,
                then@,
                result_text(result),
            ),
{
    match (then, result) {
        (Then::InitRenamed, Ok(_)) => {
            if remote.is_empty() {
                succeed_init(
                    work,
                    "Initialized a local git repository on branch main.".to_owned(),
                )
            } else {
                work.ask(Ask::Git(dir, three_words("remote", "get-url", "origin"), Then::InitRemote))
            }
        },
        (Then::InitRenamed, Err(e)) => fail_init(work, "could not rename the branch to main: ", e),
        (Then::InitRemote, Ok(_)) => work.ask(
            Ask::Git(
                dir,
                four_words("remote", "set-url", "origin", remote),
                Then::InitRemoteSet(true),
            ),
        ),
        (Then::InitRemote, Err(_)) => work.ask(
            Ask::Git(
                dir,
                four_words("remote", "add", "origin", remote),
                Then::InitRemoteSet(false),
            ),
        ),
        (Then::InitRemoteSet(_), Ok(_)) => work.ask(
            Ask::Git(dir, four_words("push", "-u", "origin", "main"), Then::InitPushed),
        ),
        (Then::InitRemoteSet(known), Err(e)) => {
            if known {
                fail_init(work, "git remote set-url failed: ", e)
            } else {
                fail_init(work, "git remote add failed: ", e)
            }
        },
        (Then::InitPushed, Ok(_)) => {
            let mut text = "Initialized a git repository and pushed to ".to_owned();
            text.append(remote);
            text.append(".");
            succeed_init(work, text)
        },
        (Then::InitPushed, Err(e)) => fail_init(
            work,
            "The local repository is ready on branch main, but the push failed: ",
            e,
        ),
        _ => work.finish(),
    }
}

fn advance_init(work: Work, then: Then, result: Result<String, String>) -> (r: Work)
    ensures
        r@ == match work@.state.init {
            Some(flow) => init_step(work@, flow, then@, result_text(result)),
            None => work@.finished(),
        },
{
    let (dir, remote) = match &work.state.git_init {
        Some(flow) => (flow.dir.copy(), string_of(&trim(&chars_of(flow.remote.as_str())))),
        None => return work.finish(),
    };
    match (then, result) {
        (Then::InitDone, Ok(_)) => work.ask(Ask::Readme(dir)),
        (Then::InitDone, Err(e)) => fail_init(work, "git init failed: ", e),
        (Then::ReadmeAdded, Ok(_)) => work.ask(
            Ask::Git(dir, three_words("diff", "--cached", "--quiet"), Then::InitStaged),
        ),
        (Then::ReadmeAdded, Err(e)) => fail_init(work, "git add failed: ", e),
        (Then::InitStaged, Ok(_)) => rename_init(work, dir),
        (Then::InitStaged, Err(_)) => work.ask(
            Ask::Git(dir, three_words("commit", "-m", "first commit"), Then::InitCommitted),
        ),
        (Then::InitCommitted, Ok(_)) => rename_init(work, dir),
        (Then::InitCommitted, Err(e)) => fail_init(work, "git commit failed: ", e),
        (Then::InitRenamed, result) => advance_remote(
            work,
            dir,
            remote.as_str(),
            Then::InitRenamed,
            result,
        ),
        (Then::InitRemote, result) => advance_remote(
            work,
            dir,
            remote.as_str(),
            Then::InitRemote,
            result,
        ),
        (Then::InitRemoteSet(known), result) => advance_remote(
            work,
            dir,
            remote.as_str(),
            Then::InitRemoteSet(known),
            result,
        ),
        (Then::InitPushed, result) => advance_remote(
            work,
            dir,
            remote.as_str(),
            Then::InitPushed,
            result,
        ),
        _ => work.finish(),
    }
}

/// The text of a seeded README: the name of its directory, where it has one
/// that can be written.
pub fn readme_text(title: &Option<String>) -> (r: String)
    ensures
        r@ == "# "@ + (match title {
            Some(title) => title@,
            None => "Project"@,
        }) + "\n"@,
{
    let mut text = "# ".to_owned();
    match title {
        Some(title) => text.append(title.as_str()),
        None => text.append("Project"),
    }
    text.append("\n");
    text
}

/// After the README was seeded, or found there.
pub open spec fn readme_answered(w: WorkModel, result: Result<(), Seq<char>>) -> WorkModel {
    match w.ask {
        AskModel::Readme(dir) => match result {
            Ok(_) => init_git(w, dir, seq!["add"@, "README.md"@], ThenModel::ReadmeAdded),
            Err(e) => init_failed(w, "could not write README.md: "@, e),
        },
        _ => w,
    }
}

/// Goes on after the README was seeded; see `readme_answered`.
pub fn resume_readme(work: Work, result: Result<(), String>) -> (r: Work)
    ensures
        r@ == readme_answered(
            work@,
            match result {
                Ok(_) => Ok(()),
                Err(e) => Err(e@),
            },
        ),
{
    let dir = match &work.ask {
        Ask::Readme(dir) => dir.copy(),
        _ => return work,
    };
    match result {
        Ok(_) => work.ask(Ask::Git(dir, two_words("add", "README.md"), Then::ReadmeAdded)),
        Err(e) => fail_init(work, "could not write README.md: ", e),
    }
}

// ---------------------------------------------------------------------------
// Opening the dashboard

/// After the root of the work tree was looked for. Outside one, the setup is
/// offered.
pub open spec fn root_answered(
    w: WorkModel,
    available: bool,
    cwd: Seq<char>,
    root: Result<Seq<char>, Option<Seq<char>>>,
) -> WorkModel {
    if !(w.ask is Root) {
        w
    } else if !available {
        w.finished_with_notice("git is not installed."@)
    } else {
        match root {
            Ok(dir) => w.asking(AskModel::Git(dir, status_args(), ThenModel::Opened(dir))),
            Err(None) => (WorkModel {
                state: OperationModel {
                    init: Some(
                        InitModel { dir: cwd, remote: Seq::empty(), cursor: 0, error: None },
                    ),
                    ..w.state
                },
                ..w
            }).finished(),
            Err(Some(detail)) => w.finished_with_notice(
                "Could not open git dashboard: "@ + detail + "."@,
            ),
        }
    }
}

/// The model of the root, or of what stood in its way.
pub open spec fn root_model(root: Result<String, FindRootError>) -> Result<
    Seq<char>,
    Option<Seq<char>>,
> {
    match root {
        Ok(dir) => Ok(dir@),
        Err(FindRootError::NotARepo) => Err(None),
        Err(FindRootError::Git(detail)) => Err(Some(detail@)),
    }
}

/// Goes on after the root of the work tree was looked for; see `root_answered`.
pub fn resume_root(
    work: Work,
    available: bool,
    cwd: String,
    root: Result<String, FindRootError>,
) -> (r: Work)
    ensures
        r@ == root_answered(work@, available, cwd@, root_model(root)),
{
    let asked = match &work.ask {
        Ask::Root => true,
        _ => false,
    };
    if !asked {
        return work;
    }
    if !available {
        return work.finish_with_notice("git is not installed.".to_owned());
    }
    match root {
        Ok(dir) => {
            let ask = Ask::Git(dir.copy(), status_arguments(), Then::Opened(dir));
            work.ask(ask)
        },
        Err(FindRootError::NotARepo) => {
            let next = Work {
                state: OperationState {
                    git_view: work.state.git_view,
                    git_init: Some(GitInitFlow::new(cwd)),
                    notice: work.state.notice,
                },
                ask: work.ask,
                follow: work.follow,
                farewell: work.farewell,
            };
            next.finish()
        },
        Err(FindRootError::Git(detail)) => {
            let mut text = "Could not open git dashboard: ".to_owned();
            text.append(detail.as_str());
            text.append(".");
            work.finish_with_notice(text)
        },
    }
}

/// After the status of a repository that is opened.
pub open spec fn after_open(
    w: WorkModel,
    root: Seq<char>,
    result: Result<Seq<char>, Seq<char>>,
    now: u64,
) -> WorkModel {
    match result {
        Ok(raw) => {
            let v = ViewModel {
                last_status_raw: Some(raw),
                last_poll: Some(now),
                ..ViewModel::opened(root, porcelain_status(raw))
            };
            w.with(v, ask_history(v, v.history_limit, ThenModel::OpenedHistory))
        },
        Err(error) => w.finished_with_notice("Could not read git status: "@ + error),
    }
}

fn opened(work: Work, root: String, result: Result<String, String>, now: u64) -> (r: Work)
    ensures
        r@ == after_open(work@, root@, result_text(result), now),
{
    match result {
        Ok(raw) => {
            let status = parse_status_porcelain(raw.as_str());
            let mut view = GitView::new(root, status);
            view.last_status_raw = Some(raw);
            view.last_poll = Some(now);
            let ask = asking_history(&view, view.history_limit, Then::OpenedHistory);
            work.with(view, ask)
        },
        Err(error) => {
            let mut text = "Could not read git status: ".to_owned();
            text.append(error.as_str());
            work.finish_with_notice(text)
        },
    }
}

/// The dashboard with the history that it is opened with.
pub open spec fn with_first_history(v: ViewModel, output: Seq<char>) -> ViewModel {
    let history = log_entries(text_lines(output));
    ViewModel {
        history,
        history_has_more: history.len() >= history_count(v.history_limit),
        ..v
    }
}

fn set_first_history(view: GitView, output: String) -> (r: GitView)
    ensures
        r@ == with_first_history(view@, output@),
{
    let mut view = view;
    let (history, has_more) = history_page(output.as_str(), view.history_limit);
    view.history = history;
    view.history_has_more = has_more;
    view
}

// ---------------------------------------------------------------------------
// Polling and refreshing

/// After the status that a poll asked for: where nothing changed, the open
/// diff alone is read again.
pub open spec fn after_poll(
    w: WorkModel,
    v: ViewModel,
    result: Result<Seq<char>, Seq<char>>,
    now: u64,
) -> WorkModel {
    match result {
        Err(_) => w.finished_with(v),
        Ok(raw) => if v.last_status_raw == Some(raw) {
            visible_diff(w, v, false)
        } else {
            let next = with_status(v, raw, now);
            w.with(next, ask_history(next, next.history_limit, ThenModel::StatusHistory))
        },
    }
}

fn same_raw(a: &Option<String>, raw: &String) -> (r: bool)
    ensures
        r == (option_view(*a) == Some(raw@)),
{
    match a {
        Some(text) => text.same(raw),
        None => false,
    }
}

fn apply_status(work: Work, view: GitView, raw: String, now: u64) -> (r: Work)
    ensures
        ({
            let next = with_status(view@, raw@, now);
            r@ == work@.with(
                next,
                ask_history(next, next.history_limit, ThenModel::StatusHistory),
            )
        }),
{
    let view = set_status(view, raw, now);
    let ask = asking_history(&view, view.history_limit, Then::StatusHistory);
    work.with(view, ask)
}

fn polled(work: Work, view: GitView, result: Result<String, String>, now: u64) -> (r: Work)
    ensures
        r@ == after_poll(work@, view@, result_text(result), now),
{
    match result {
        Err(_) => work.finish_with(view),
        Ok(raw) => {
            if same_raw(&view.last_status_raw, &raw) {
                refresh_visible_diff(work, view, false)
            } else {
                apply_status(work, view, raw, now)
            }
        },
    }
}

pub open spec fn after_refresh(
    w: WorkModel,
    v: ViewModel,
    result: Result<Seq<char>, Seq<char>>,
    now: u64,
) -> WorkModel {
    match result {
        Ok(raw) => {
            let next = with_status(v, raw, now);
            w.with(next, ask_history(next, next.history_limit, ThenModel::StatusHistory))
        },
        Err(error) => w.finished_with(v.with_notice("Refresh failed: "@ + error, true)),
    }
}

fn reread(work: Work, view: GitView, result: Result<String, String>, now: u64) -> (r: Work)
    ensures
        r@ == after_refresh(work@, view@, result_text(result), now),
{
    match result {
        Ok(raw) => apply_status(work, view, raw, now),
        Err(error) => {
            let mut text = "Refresh failed: ".to_owned();
            text.append(error.as_str());
            work.finish_with(set_error(view, text))
        },
    }
}

/// After the diff of the shown file was asked for.
pub open spec fn after_visible_diff(
    w: WorkModel,
    v: ViewModel,
    report: bool,
    index: usize,
    compact: bool,
    result: Result<Seq<char>, Seq<char>>,
) -> WorkModel {
    match result {
        Err(error) => w.finished_with(
            if report {
                v.with_notice(error, true)
            } else {
                v
            },
        ),
        Ok(output) => if index < v.flat.len() {
            let file = v.flat[index as int];
            let staged = file.section == GitSection::Staged;
            let diff = unified_diff(file.path, staged, output);
            if diff.truncated && !compact {
                w.with(
                    v,
                    AskModel::Git(
                        v.root,
                        file_args("diff"@, diff_flags(staged, true), seq![file.path]),
                        ThenModel::VisibleDiff(report, index, true),
                    ),
                )
            } else {
                w.finished_with(with_visible(v, diff))
            }
        } else {
            w.finished_with(v)
        },
    }
}

fn visible_diff_read(
    work: Work,
    view: GitView,
    report: bool,
    index: usize,
    compact: bool,
    result: Result<String, String>,
) -> (r: Work)
    ensures
        r@ == after_visible_diff(
            work@,
            view@,
            report,
            index,
            compact,
            result_text(result),
        ),
{
    match result {
        Err(error) => {
            if report {
                work.finish_with(set_error(view, error))
            } else {
                work.finish_with(view)
            }
        },
        Ok(output) => {
            if index < view.flat.len() {
                assert(views(view.flat@)[index as int] == view.flat@[index as int]@);
                match load_diff(&view.flat[index], compact, output.as_str()) {
                    Ok(diff) => work.finish_with(set_visible(view, diff)),
                    Err(args) => {
                        let ask = Ask::Git(
                            view.root.copy(),
                            args,
                            Then::VisibleDiff(report, index, true),
                        );
                        work.with(view, ask)
                    },
                }
            } else {
                work.finish_with(view)
            }
        },
    }
}

/// After the diff of the selected file was asked for.
pub open spec fn after_diff(
    w: WorkModel,
    v: ViewModel,
    compact: bool,
    result: Result<Seq<char>, Seq<char>>,
) -> WorkModel {
    match result {
        Err(error) => w.finished_with(v.with_notice(error, true)),
        Ok(output) => match v.selected_file() {
            None => w.finished_with(v),
            Some(file) => {
                let staged = file.section == GitSection::Staged;
                let diff = unified_diff(file.path, staged, output);
                if diff.truncated && !compact {
                    w.with(
                        v,
                        AskModel::Git(
                            v.root,
                            file_args("diff"@, diff_flags(staged, true), seq![file.path]),
                            ThenModel::OpenDiff(true),
                        ),
                    )
                } else {
                    w.finished_with(with_opened(v, diff))
                }
            },
        },
    }
}

fn diff_read(work: Work, view: GitView, compact: bool, result: Result<String, String>) -> (r: Work)
    ensures
        r@ == after_diff(work@, view@, compact, result_text(result)),
{
    match result {
        Err(error) => work.finish_with(set_error(view, error)),
        Ok(output) => {
            let loaded = match view.selected_file() {
                None => None,
                Some(file) => Some(load_diff(file, compact, output.as_str())),
            };
            match loaded {
                None => work.finish_with(view),
                Some(Ok(diff)) => work.finish_with(set_opened(view, diff)),
                Some(Err(args)) => {
                    let ask = Ask::Git(view.root.copy(), args, Then::OpenDiff(true));
                    work.with(view, ask)
                },
            }
        },
    }
}

/// After the diff of the selected commit was asked for.
pub open spec fn after_commit_diff(
    w: WorkModel,
    v: ViewModel,
    compact: bool,
    result: Result<Seq<char>, Seq<char>>,
) -> WorkModel {
    match result {
        Err(error) => w.finished_with(v.with_notice(error, true)),
        Ok(output) => if v.history_selected < v.history.len() {
            let entry = v.history[v.history_selected as int];
            let diff = commit_diff(entry, output);
            if diff.truncated && !compact {
                w.with(
                    v,
                    AskModel::Git(
                        v.root,
                        commit_diff_args(entry.hash, true),
                        ThenModel::OpenCommit(true),
                    ),
                )
            } else {
                w.finished_with(with_opened(v, diff))
            }
        } else {
            w.finished_with(v)
        },
    }
}

fn commit_diff_read(
    work: Work,
    view: GitView,
    compact: bool,
    result: Result<String, String>,
) -> (r: Work)
    ensures
        r@ == after_commit_diff(work@, view@, compact, result_text(result)),
{
    match result {
        Err(error) => work.finish_with(set_error(view, error)),
        Ok(output) => {
            if view.history_selected < view.history.len() {
                assert(views(view.history@)[view.history_selected as int]
                    == view.history@[view.history_selected as int]@);
                match load_commit_diff(
                    &view.history[view.history_selected],
                    compact,
                    output.as_str(),
                ) {
                    Ok(diff) => work.finish_with(set_opened(view, diff)),
                    Err(args) => {
                        let ask = Ask::Git(view.root.copy(), args, Then::OpenCommit(true));
                        work.with(view, ask)
                    },
                }
            } else {
                work.finish_with(view)
            }
        },
    }
}

// ---------------------------------------------------------------------------
// Answers

/// What follows the answer of a git command for a dashboard.
pub open spec fn view_step(
    w: WorkModel,
    v: ViewModel,
    then: ThenModel,
    result: Result<Seq<char>, Seq<char>>,
    now: u64,
) -> WorkModel {
    match then {
        ThenModel::Polled => after_poll(w, v, result, now),
        ThenModel::Refreshed => after_refresh(w, v, result, now),
        ThenModel::StatusHistory => visible_diff(
            w,
            with_history(v, output_or_nothing(result)),
            true,
        ),
        ThenModel::VisibleDiff(report, index, compact) => after_visible_diff(
            w,
            v,
            report,
            index,
            compact,
            result,
        ),
        ThenModel::OpenedHistory => w.finished_with(
            with_first_history(v, output_or_nothing(result)),
        ),
        ThenModel::MoreHistory(limit) => w.finished_with(
            with_more_history(v, limit, output_or_nothing(result)),
        ),
        ThenModel::Branches => after_branches(w, v, result),
        ThenModel::OpenDiff(compact) => after_diff(w, v, compact, result),
        ThenModel::OpenCommit(compact) => after_commit_diff(w, v, compact, result),
        ThenModel::Staged => after_stage(w, v, result),
        ThenModel::Reported(message) => after_report(w, v, message, result),
        ThenModel::Switched => after_switch(w, v, result),
        ThenModel::Created => after_create(w, v, result),
        ThenModel::Stashed => after_stash(w, v, result),
        ThenModel::Restored(confirm) => after_restore(w, v, confirm, result),
        ThenModel::Pulled(mode) => after_pull(w, v, mode, result),
        ThenModel::Committed(mode) => after_commit(w, v, mode, result),
        ThenModel::Pushed(mode) => after_push(w, v, mode, result),
        _ => w.finished_with(v),
    }
}

fn advance_view(
    work: Work,
    view: GitView,
    then: Then,
    result: Result<String, String>,
    now: u64,
) -> (r: Work)
    ensures
        r@ == view_step(work@, view@, then@, result_text(result), now),
{
    match then {
        Then::Polled => polled(work, view, result, now),
        Then::Refreshed => reread(work, view, result, now),
        Then::StatusHistory => {
            let view = set_history(view, output_of(result));
            refresh_visible_diff(work, view, true)
        },
        Then::VisibleDiff(report, index, compact) => visible_diff_read(
            work,
            view,
            report,
            index,
            compact,
            result,
        ),
        Then::OpenedHistory => work.finish_with(set_first_history(view, output_of(result))),
        Then::MoreHistory(limit) => work.finish_with(
            load_more_history(view, limit, output_of(result)),
        ),
        Then::Branches => listed(work, view, result),
        Then::OpenDiff(compact) => diff_read(work, view, compact, result),
        Then::OpenCommit(compact) => commit_diff_read(work, view, compact, result),
        Then::Staged => staged_file(work, view, result),
        Then::Reported(message) => report_simple_result(work, view, message, result),
        Then::Switched => switched(work, view, result),
        Then::Created => created(work, view, result),
        Then::Stashed => stashed(work, view, result),
        Then::Restored(confirm) => restored(work, view, confirm, result),
        Then::Pulled(mode) => pulled(work, view, mode, result),
        Then::Committed(mode) => committed(work, view, mode, result),
        Then::Pushed(mode) => pushed(work, view, mode, result),
        _ => work.finish_with(view),
    }
}

/// Whether an answer belongs to the setup of a repository.
pub open spec fn of_init(then: ThenModel) -> bool {
    then is InitDone || then is ReadmeAdded || then is InitStaged || then is InitCommitted || then
        is InitRenamed || then is InitRemote || then is InitRemoteSet || then is InitPushed
}

fn is_of_init(then: &Then) -> (r: bool)
    ensures
        r == of_init(then@),
{
    match then {
        Then::InitDone
        | Then::ReadmeAdded
        | Then::InitStaged
        | Then::InitCommitted
        | Then::InitRenamed
        | Then::InitRemote
        | Then::InitRemoteSet(_)
        | Then::InitPushed => true,
        _ => false,
    }
}

/// What follows the answer of a git command.
pub open spec fn git_answered(w: WorkModel, result: Result<Seq<char>, Seq<char>>, now: u64) -> WorkModel {
    match w.ask {
        AskModel::Git(_, _, then) => if of_init(then) {
            match w.state.init {
                Some(flow) => init_step(w, flow, then, result),
                None => w.finished(),
            }
        } else {
            match then {
                ThenModel::Opened(root) => after_open(w, root, result, now),
                _ => match w.state.view {
                    Some(v) => view_step(w, v, then, result, now),
                    None => w.finished(),
                },
            }
        },
        _ => w,
    }
}

/// The next step does not depend on the question that was answered, nor on
/// the dashboard that it replaces.
proof fn steps_replace_the_view(
    a: WorkModel,
    b: WorkModel,
    v: ViewModel,
    then: ThenModel,
    result: Result<Seq<char>, Seq<char>>,
    now: u64,
)
    requires
        a.follow == b.follow,
        a.farewell == b.farewell,
        a.state.init == b.state.init,
        a.state.notice == b.state.notice,
    ensures
        view_step(a, v, then, result, now) == view_step(b, v, then, result, now),
{
    assert forall|x: ViewModel, ask: AskModel| #[trigger] a.with(x, ask) == b.with(x, ask) by {}
    assert forall|x: ViewModel| #[trigger] a.finished_with(x) == b.finished_with(x) by {}
}

proof fn steps_replace_the_question(
    a: WorkModel,
    b: WorkModel,
    flow: InitModel,
    then: ThenModel,
    root: Seq<char>,
    result: Result<Seq<char>, Seq<char>>,
    now: u64,
)
    requires
        a.follow == b.follow,
        a.farewell == b.farewell,
        a.state == b.state,
    ensures
        init_step(a, flow, then, result) == init_step(b, flow, then, result),
        after_open(a, root, result, now) == after_open(b, root, result, now),
        a.finished() == b.finished(),
{
    assert forall|ask: AskModel| #[trigger] a.asking(ask) == b.asking(ask) by {}
    assert(a.finished() == b.finished());
}

/// Goes on after a git command; see `git_answered`.
pub fn resume_git(work: Work, result: Result<String, String>, now: u64) -> (r: Work)
    ensures
        r@ == git_answered(work@, result_text(result), now),
{
    let ghost before = work@;
    let Work { state, ask, follow, farewell } = work;
    match ask {
        Ask::Git(_, _, then) => {
            if is_of_init(&then) {
                let rest = Work { state, ask: Ask::Nothing, follow, farewell };
                proof {
                    steps_replace_the_question(
                        rest@,
                        before,
                        rest@.state.init->0,
                        then@,
                        Seq::empty(),
                        result_text(result),
                        now,
                    );
                }
                return advance_init(rest, then, result);
            }
            match then {
                Then::Opened(root) => {
                    let rest = Work { state, ask: Ask::Nothing, follow, farewell };
                    proof {
                        steps_replace_the_question(
                            rest@,
                            before,
                            arbitrary(),
                            ThenModel::Polled,
                            root@,
                            result_text(result),
                            now,
                        );
                    }
                    opened(rest, root, result, now)
                },
                then => {
                    let OperationState { git_view, git_init, notice } = state;
                    let rest = Work {
                        state: OperationState { git_view: None, git_init, notice },
                        ask: Ask::Nothing,
                        follow,
                        farewell,
                    };
                    match git_view {
                        Some(view) => {
                            proof {
                                steps_replace_the_view(
                                    rest@,
                                    before,
                                    view@,
                                    then@,
                                    result_text(result),
                                    now,
                                );
                            }
                            advance_view(rest, view, then, result, now)
                        },
                        None => rest.finish(),
                    }
                },
            }
        },
        other => Work { state, ask: other, follow, farewell },
    }
}

/// The message where a file could not be read.
pub open spec fn unreadable(path: Seq<char>, error: Seq<char>) -> Seq<char> {
    "could not read "@ + path + ": "@ + error
}

/// What follows the bytes of a file.
pub open spec fn file_answered(w: WorkModel, result: Result<Seq<u8>, Seq<char>>) -> WorkModel {
    match (w.ask, w.state.view) {
        (AskModel::File(_, path, ThenModel::VisibleFile(report)), Some(v)) => w.finished_with(
            match result {
                Ok(bytes) => with_visible(v, untracked_diff(path, bytes)),
                Err(error) => if report {
                    v.with_notice(unreadable(path, error), true)
                } else {
                    v
                },
            },
        ),
        (AskModel::File(_, path, ThenModel::OpenFile), Some(v)) => w.finished_with(
            match result {
                Ok(bytes) => with_opened(v, untracked_diff(path, bytes)),
                Err(error) => v.with_notice(unreadable(path, error), true),
            },
        ),
        (AskModel::File(_, _, _), _) => w.finished(),
        _ => w,
    }
}

fn unreadable_text(path: &String, error: &String) -> (r: String)
    ensures
        r@ == unreadable(path@, error@),
{
    let mut text = "could not read ".to_owned();
    text.append(path.as_str());
    text.append(": ");
    text.append(error.as_str());
    text
}

/// Goes on after the bytes of a file, of which at most one more than the limit
/// need be read; see `file_answered`.
pub fn resume_file(work: Work, result: Result<Vec<u8>, String>) -> (r: Work)
    ensures
        r@ == file_answered(
            work@,
            match result {
                Ok(bytes) => Ok(bytes@),
                Err(error) => Err(error@),
            },
        ),
{
    let Work { state, ask, follow, farewell } = work;
    match ask {
        Ask::File(_, path, then) => {
            let OperationState { git_view, git_init, notice } = state;
            let rest = Work {
                state: OperationState { git_view: None, git_init, notice },
                ask: Ask::Nothing,
                follow,
                farewell,
            };
            match (then, git_view) {
                (Then::VisibleFile(report), Some(view)) => match result {
                    Ok(bytes) => rest.finish_with(
                        set_visible(view, load_untracked_diff(path.as_str(), &bytes)),
                    ),
                    Err(error) => {
                        if report {
                            rest.finish_with(set_error(view, unreadable_text(&path, &error)))
                        } else {
                            rest.finish_with(view)
                        }
                    },
                },
                (Then::OpenFile, Some(view)) => match result {
                    Ok(bytes) => rest.finish_with(
                        set_opened(view, load_untracked_diff(path.as_str(), &bytes)),
                    ),
                    Err(error) => rest.finish_with(
                        set_error(view, unreadable_text(&path, &error)),
                    ),
                },
                (_, git_view) => {
                    let OperationState { git_view: _, git_init, notice } = rest.state;
                    let whole = Work {
                        state: OperationState { git_view, git_init, notice },
                        ask: Ask::Nothing,
                        follow: rest.follow,
                        farewell: rest.farewell,
                    };
                    whole.finish()
                },
            }
        },
        other => Work { state, ask: other, follow, farewell },
    }
}

// ---------------------------------------------------------------------------
// The first step

/// The first step of a task on a dashboard.
pub open spec fn view_begin(w: WorkModel, v: ViewModel, task: Task) -> WorkModel {
    match task {
        Task::Poll => w.with(v, ask_status(v, ThenModel::Polled)),
        Task::Refresh => w.with(v, ask_status(v, ThenModel::Refreshed)),
        Task::LoadMoreHistory => if v.history_has_more {
            w.with(v, ask_history(v, next_limit(v), ThenModel::MoreHistory(next_limit(v))))
        } else {
            w.finished_with(v)
        },
        Task::LoadBranches => w.with(
            v,
            AskModel::Git(
                v.root,
                seq!["branch"@, "--format=%(refname:short)"@],
                ThenModel::Branches,
            ),
        ),
        Task::OpenSelectedDiff => match v.selected_file() {
            Some(file) => w.with(
                v,
                ask_diff(v, file, ThenModel::OpenFile, ThenModel::OpenDiff(false)),
            ),
            None => w.finished_with(v),
        },
        Task::OpenCommitDiff => match hash_at(v.history, v.history_selected) {
            Some(hash) => w.with(
                v,
                AskModel::Git(
                    v.root,
                    commit_diff_args(hash, false),
                    ThenModel::OpenCommit(false),
                ),
            ),
            None => w.finished_with(v),
        },
        Task::Commit(mode) => commit_begin(w, v, mode),
        Task::SetFileStaged(index, staged) => if index < v.flat.len() {
            let file = v.flat[index as int];
            w.with(
                v,
                AskModel::Git(
                    v.root,
                    file_args(
                        if staged {
                            "add"@
                        } else {
                            "reset"@
                        },
                        Seq::empty(),
                        targets(file.section, file.path, file.renamed_from),
                    ),
                    ThenModel::Staged,
                ),
            )
        } else {
            w.finished_with(v)
        },
        Task::Discard => discard_begin(w, v),
        Task::Switch => if v.branch_selected < v.branches.len() {
            w.with(
                v,
                AskModel::Git(v.root, seq!["switch"@, branch_at(v)], ThenModel::Switched),
            )
        } else {
            w.finished_with(v)
        },
        Task::CreateBranch => w.with(
            v,
            AskModel::Git(
                v.root,
                seq!["switch"@, "-c"@, trimmed(v.commit)],
                ThenModel::Created,
            ),
        ),
        Task::StashMessage => w.with(
            v,
            AskModel::Git(
                v.root,
                seq!["stash"@, "push"@, "-m"@, trimmed(v.commit)],
                ThenModel::Stashed,
            ),
        ),
        Task::Simple(command) => w.with(
            v,
            AskModel::Git(
                v.root,
                simple_args(command),
                ThenModel::Reported(simple_message(command)),
            ),
        ),
        Task::OpenDashboard | Task::Initialize => w.finished_with(v),
    }
}

/// The first step of a task.
pub open spec fn begun(state: OperationModel, task: Task) -> WorkModel {
    let w = WorkModel { state, ask: AskModel::Nothing, follow: None, farewell: None };
    match task {
        Task::OpenDashboard => w.asking(AskModel::Root),
        Task::Initialize => match state.init {
            Some(flow) => w.asking(AskModel::Git(flow.dir, seq!["init"@], ThenModel::InitDone)),
            None => w,
        },
        _ => match state.view {
            Some(v) => view_begin(w, v, task),
            None => w,
        },
    }
}

fn begin_file(work: Work, view: GitView, index: usize, staged: bool) -> (r: Work)
    ensures
        r@ == view_begin(work@, view@, Task::SetFileStaged(index, staged)),
{
    if index >= view.flat.len() {
        return work.finish_with(view);
    }
    let file = &view.flat[index];
    assert(views(view.flat@)[index as int] == file@);
    let paths = target_paths(file.section, file.path.as_str(), &file.renamed_from);
    let args = if staged {
        file_arguments("add", &no_flags(), &paths)
    } else {
        // Without a commit to name, unstaging works on an unborn branch too.
        file_arguments("reset", &no_flags(), &paths)
    };
    let ask = Ask::Git(view.root.copy(), args, Then::Staged);
    work.with(view, ask)
}

fn begin_selected_diff(work: Work, view: GitView) -> (r: Work)
    ensures
        r@ == view_begin(work@, view@, Task::OpenSelectedDiff),
{
    let ask = match view.selected_file() {
        Some(file) => Some(asking_diff(&view, file, Then::OpenFile, Then::OpenDiff(false))),
        None => None,
    };
    match ask {
        Some(ask) => work.with(view, ask),
        None => work.finish_with(view),
    }
}

fn begin_commit_diff(work: Work, view: GitView) -> (r: Work)
    ensures
        r@ == view_begin(work@, view@, Task::OpenCommitDiff),
{
    if view.history_selected >= view.history.len() {
        return work.finish_with(view);
    }
    let entry = &view.history[view.history_selected];
    assert(views(view.history@)[view.history_selected as int] == entry@);
    let args = commit_diff_arguments(entry, false);
    let ask = Ask::Git(view.root.copy(), args, Then::OpenCommit(false));
    work.with(view, ask)
}

fn begin_view(work: Work, view: GitView, task: Task) -> (r: Work)
    ensures
        r@ == view_begin(work@, view@, task),
{
    match task {
        Task::Poll => {
            let ask = asking_status(&view, Then::Polled);
            work.with(view, ask)
        },
        Task::Refresh => refresh(work, view),
        Task::LoadMoreHistory => {
            if !view.history_has_more {
                return work.finish_with(view);
            }
            let limit: usize = following_limit(&view);
            let ask = asking_history(&view, limit, Then::MoreHistory(limit));
            work.with(view, ask)
        },
        Task::LoadBranches => {
            let args = two_words("branch", "--format=%(refname:short)");
            let ask = Ask::Git(view.root.copy(), args, Then::Branches);
            work.with(view, ask)
        },
        Task::OpenSelectedDiff => begin_selected_diff(work, view),
        Task::OpenCommitDiff => begin_commit_diff(work, view),
        Task::Commit(mode) => begin_commit(work, view, mode),
        Task::SetFileStaged(index, staged) => begin_file(work, view, index, staged),
        Task::Discard => begin_discard(work, view),
        Task::Switch => {
            if view.branch_selected >= view.branches.len() {
                return work.finish_with(view);
            }
            let branch = branch_name(&view);
            let args = two_words("switch", branch.as_str());
            let ask = Ask::Git(view.root.copy(), args, Then::Switched);
            work.with(view, ask)
        },
        Task::CreateBranch => {
            let name = message_of(&view);
            let args = three_words("switch", "-c", name.as_str());
            let ask = Ask::Git(view.root.copy(), args, Then::Created);
            work.with(view, ask)
        },
        Task::StashMessage => {
            let message = message_of(&view);
            let args = four_words("stash", "push", "-m", message.as_str());
            let ask = Ask::Git(view.root.copy(), args, Then::Stashed);
            work.with(view, ask)
        },
        Task::Simple(command) => {
            let ask = Ask::Git(
                view.root.copy(),
                simple_arguments(command),
                Then::Reported(simple_text(command).to_owned()),
            );
            work.with(view, ask)
        },
        Task::OpenDashboard | Task::Initialize => work.finish_with(view),
    }
}

/// The first step of a task on a copy of the dashboard and of the setup; see
/// `begun`.
pub fn begin(view: Option<GitView>, init: Option<GitInitFlow>, task: Task) -> (r: Work)
    ensures
        r@ == begun(
            OperationModel { view: option_view(view), init: option_view(init), notice: None },
            task,
        ),
{
    match task {
        Task::OpenDashboard => Work {
            state: OperationState { git_view: view, git_init: init, notice: None },
            ask: Ask::Root,
            follow: None,
            farewell: None,
        },
        Task::Initialize => {
            let ask = match &init {
                Some(flow) => Ask::Git(flow.dir.copy(), one_word("init"), Then::InitDone),
                None => Ask::Nothing,
            };
            Work {
                state: OperationState { git_view: view, git_init: init, notice: None },
                ask,
                follow: None,
                farewell: None,
            }
        },
        _ => {
            let work = Work {
                state: OperationState { git_view: None, git_init: init, notice: None },
                ask: Ask::Nothing,
                follow: None,
                farewell: None,
            };
            match view {
                Some(view) => begin_view(work, view, task),
                None => work,
            }
        },
    }
}

// ---------------------------------------------------------------------------
// Laws

/// A failed pull commits nothing: the message stays for another try, and only
/// the status is read again.
pub proof fn failed_sync_keeps_the_message(w: WorkModel, v: ViewModel, mode: CommitMode, error: Seq<char>)
    ensures
        after_pull(w, v, mode, Err(error)).state.view is Some,
        after_pull(w, v, mode, Err(error)).state.view->0.commit == v.commit,
        after_pull(w, v, mode, Err(error)).ask == ask_status(v, ThenModel::Refreshed),
{
}

/// A failed commit keeps the message too.
pub proof fn failed_commit_keeps_the_message(
    w: WorkModel,
    v: ViewModel,
    mode: CommitMode,
    error: Seq<char>,
)
    ensures
        after_commit(w, v, mode, Err(error)).state.view is Some,
        after_commit(w, v, mode, Err(error)).state.view->0.commit == v.commit,
        after_commit(w, v, mode, Err(error)).state.view->0.notice == error,
{
}

/// A refresh keeps the selected file selected, wherever it moved, as long as
/// it is still changed.
pub proof fn refresh_keeps_the_selected_file(v: ViewModel, raw: Seq<char>, now: u64, at: int)
    requires
        v.selected < v.flat.len(),
        0 <= at < porcelain_status(raw).all().len() <= usize::MAX,
        porcelain_status(raw).all()[at].path == v.flat[v.selected as int].path,
    ensures
        with_status(v, raw, now).selected < with_status(v, raw, now).flat.len(),
        with_status(v, raw, now).flat[with_status(v, raw, now).selected as int].path
            == v.flat[v.selected as int].path,
        with_status(v, raw, now).commit == v.commit,
{
    let path = v.flat[v.selected as int].path;
    let files = porcelain_status(raw).all();
    crate::model::first_position_finds(files, |f: FileModel| f.path == path);
}

/// The setup can be run again after its push failed: from the same directory
/// it goes through the same steps, and the error is kept beside what was typed.
pub proof fn failed_push_keeps_the_setup(w: WorkModel, flow: InitModel, error: Seq<char>)
    requires
        w.state.init == Some(flow),
        w.follow is None,
        w.farewell is None,
    ensures
        ({
            let after = init_step(w, flow, ThenModel::InitPushed, Err(error));
            &&& after.ask == AskModel::Nothing
            &&& after.state.init is Some
            &&& after.state.init->0.dir == flow.dir
            &&& after.state.init->0.remote == flow.remote
            &&& after.state.init->0.error is Some
        }),
{
}

} // verus!
