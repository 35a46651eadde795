//! What the git dashboard shows and where.

use vstd::prelude::*;
use crate::model::{
    copy_all, copy_list, copy_option, option_view, same_all, same_option, views, Modeled,
};

verus! {

broadcast use vstd::string::group_string_axioms;

// ---------------------------------------------------------------------------
// Repository data

#[derive(Debug, Clone, Copy, PartialEq, Eq, Structural)]
pub enum GitSection {
    Staged,
    Unstaged,
    Untracked,
}

impl GitSection {
    /// The heading of the section.
    pub open spec fn heading(self) -> Seq<char> {
        match self {
            GitSection::Staged => "STAGED"@,
            GitSection::Unstaged => "UNSTAGED"@,
            GitSection::Untracked => "UNTRACKED"@,
        }
    }

    pub fn title(self) -> (r: &'static str)
        ensures
            r@ == self.heading(),
    {
        match self {
            GitSection::Staged => "STAGED",
            GitSection::Unstaged => "UNSTAGED",
            GitSection::Untracked => "UNTRACKED",
        }
    }
}

/// A changed file: one row of the dashboard.
#[derive(Debug, PartialEq, Eq)]
pub struct GitFile {
    pub path: String,
    /// The index column of the short status.
    pub x: char,
    /// The work-tree column of the short status.
    pub y: char,
    pub section: GitSection,
    pub renamed_from: Option<String>,
}

pub struct FileModel {
    pub path: Seq<char>,
    pub x: char,
    pub y: char,
    pub section: GitSection,
    pub renamed_from: Option<Seq<char>>,
}

impl View for GitFile {
    type V = FileModel;

    open spec fn view(&self) -> FileModel {
        FileModel {
            path: self.path@,
            x: self.x,
            y: self.y,
            section: self.section,
            renamed_from: option_view(self.renamed_from),
        }
    }
}

impl FileModel {
    /// The letter that tells how the file was changed.
    pub open spec fn label(self) -> char {
        match self.section {
            GitSection::Staged => self.x,
            GitSection::Unstaged => self.y,
            GitSection::Untracked => 'U',
        }
    }
}

impl GitFile {
    pub fn status_label(&self) -> (r: char)
        ensures
            r == self@.label(),
    {
        match self.section {
            GitSection::Staged => self.x,
            GitSection::Unstaged => self.y,
            GitSection::Untracked => 'U',
        }
    }
}

impl Modeled for GitFile {
    fn copy(&self) -> (r: Self) {
        GitFile {
            path: self.path.copy(),
            x: self.x,
            y: self.y,
            section: self.section,
            renamed_from: copy_option(&self.renamed_from),
        }
    }

    fn same(&self, other: &Self) -> (r: bool) {
        self.path.same(&other.path) && self.x == other.x && self.y == other.y && self.section
            == other.section && same_option(&self.renamed_from, &other.renamed_from)
    }
}

/// The changed files of a work tree and the state of its branch.
#[derive(Debug, PartialEq, Eq)]
pub struct GitStatus {
    pub branch: String,
    pub upstream: Option<String>,
    pub ahead: usize,
    pub behind: usize,
    pub staged: Vec<GitFile>,
    pub unstaged: Vec<GitFile>,
    pub untracked: Vec<GitFile>,
}

pub struct StatusModel {
    pub branch: Seq<char>,
    pub upstream: Option<Seq<char>>,
    pub ahead: usize,
    pub behind: usize,
    pub staged: Seq<FileModel>,
    pub unstaged: Seq<FileModel>,
    pub untracked: Seq<FileModel>,
}

impl View for GitStatus {
    type V = StatusModel;

    open spec fn view(&self) -> StatusModel {
        StatusModel {
            branch: self.branch@,
            upstream: option_view(self.upstream),
            ahead: self.ahead,
            behind: self.behind,
            staged: views(self.staged@),
            unstaged: views(self.unstaged@),
            untracked: views(self.untracked@),
        }
    }
}

impl Modeled for GitStatus {
    fn copy(&self) -> (r: Self) {
        GitStatus {
            branch: self.branch.copy(),
            upstream: copy_option(&self.upstream),
            ahead: self.ahead,
            behind: self.behind,
            staged: copy_all(&self.staged),
            unstaged: copy_all(&self.unstaged),
            untracked: copy_all(&self.untracked),
        }
    }

    fn same(&self, other: &Self) -> (r: bool) {
        self.branch.same(&other.branch) && same_option(&self.upstream, &other.upstream)
            && self.ahead == other.ahead && self.behind == other.behind && same_all(
            &self.staged,
            &other.staged,
        ) && same_all(&self.unstaged, &other.unstaged) && same_all(
            &self.untracked,
            &other.untracked,
        )
    }
}

pub open spec fn empty_status() -> StatusModel {
    StatusModel {
        branch: Seq::empty(),
        upstream: None,
        ahead: 0,
        behind: 0,
        staged: Seq::empty(),
        unstaged: Seq::empty(),
        untracked: Seq::empty(),
    }
}

impl Default for GitStatus {
    fn default() -> (r: Self)
        ensures
            r@ == empty_status(),
    {
        let r = GitStatus {
            branch: String::new(),
            upstream: None,
            ahead: 0,
            behind: 0,
            staged: Vec::new(),
            unstaged: Vec::new(),
            untracked: Vec::new(),
        };
        assert(views(r.staged@) =~= Seq::empty());
        assert(views(r.unstaged@) =~= Seq::empty());
        assert(views(r.untracked@) =~= Seq::empty());
        r
    }
}

impl StatusModel {
    /// No file is changed.
    pub open spec fn clean(self) -> bool {
        self.staged.len() == 0 && self.unstaged.len() == 0 && self.untracked.len() == 0
    }

    /// All changed files, in the order of their rows.
    pub open spec fn all(self) -> Seq<FileModel> {
        self.staged + self.unstaged + self.untracked
    }
}

impl GitStatus {
    pub fn is_clean(&self) -> (r: bool)
        ensures
            r == self@.clean(),
    {
        self.staged.is_empty() && self.unstaged.is_empty() && self.untracked.is_empty()
    }

    /// All changed files, in the order of their rows.
    pub fn flat(&self) -> (r: Vec<GitFile>)
        ensures
            views(r@) == self@.all(),
    {
        let mut r = copy_all(&self.staged);
        let mut unstaged = copy_all(&self.unstaged);
        let mut untracked = copy_all(&self.untracked);
        let ghost a = r@;
        let ghost b = unstaged@;
        let ghost c = untracked@;
        r.append(&mut unstaged);
        r.append(&mut untracked);
        assert(r@ =~= a + b + c);
        assert(views(r@) =~= views(a) + views(b) + views(c));
        r
    }
}

/// A commit of the history.
#[derive(Debug, PartialEq, Eq)]
pub struct HistoryEntry {
    pub hash: String,
    pub short: String,
    pub refs: String,
    pub author: String,
    pub date: String,
    pub subject: String,
}

pub struct EntryModel {
    pub hash: Seq<char>,
    pub short: Seq<char>,
    pub refs: Seq<char>,
    pub author: Seq<char>,
    pub date: Seq<char>,
    pub subject: Seq<char>,
}

impl View for HistoryEntry {
    type V = EntryModel;

    open spec fn view(&self) -> EntryModel {
        EntryModel {
            hash: self.hash@,
            short: self.short@,
            refs: self.refs@,
            author: self.author@,
            date: self.date@,
            subject: self.subject@,
        }
    }
}

impl Modeled for HistoryEntry {
    fn copy(&self) -> (r: Self) {
        HistoryEntry {
            hash: self.hash.copy(),
            short: self.short.copy(),
            refs: self.refs.copy(),
            author: self.author.copy(),
            date: self.date.copy(),
            subject: self.subject.copy(),
        }
    }

    fn same(&self, other: &Self) -> (r: bool) {
        self.hash.same(&other.hash) && self.short.same(&other.short) && self.refs.same(&other.refs)
            && self.author.same(&other.author) && self.date.same(&other.date) && self.subject.same(
            &other.subject,
        )
    }
}

impl Default for HistoryEntry {
    fn default() -> (r: Self)
        ensures
            r@ == (EntryModel {
                hash: Seq::empty(),
                short: Seq::empty(),
                refs: Seq::empty(),
                author: Seq::empty(),
                date: Seq::empty(),
                subject: Seq::empty(),
            }),
    {
        HistoryEntry {
            hash: String::new(),
            short: String::new(),
            refs: String::new(),
            author: String::new(),
            date: String::new(),
            subject: String::new(),
        }
    }
}

#[derive(Debug, Clone, Copy, PartialEq, Eq, Structural)]
pub enum DiffKind {
    Hunk,
    Context,
    Added,
    Removed,
}

/// A line of a diff with its numbers in the old and the new file.
#[derive(Debug, PartialEq, Eq)]
pub struct DiffLine {
    pub old_no: Option<usize>,
    pub new_no: Option<usize>,
    pub kind: DiffKind,
    pub text: String,
}

pub struct LineModel {
    pub old_no: Option<usize>,
    pub new_no: Option<usize>,
    pub kind: DiffKind,
    pub text: Seq<char>,
}

impl View for DiffLine {
    type V = LineModel;

    open spec fn view(&self) -> LineModel {
        LineModel {
            old_no: self.old_no,
            new_no: self.new_no,
            kind: self.kind,
            text: self.text@,
        }
    }
}

fn same_number(a: Option<usize>, b: Option<usize>) -> (r: bool)
    ensures
        r == (a == b),
{
    match (a, b) {
        (Some(x), Some(y)) => x == y,
        (None, None) => true,
        _ => false,
    }
}

impl Modeled for DiffLine {
    fn copy(&self) -> (r: Self) {
        DiffLine {
            old_no: self.old_no,
            new_no: self.new_no,
            kind: self.kind,
            text: self.text.copy(),
        }
    }

    fn same(&self, other: &Self) -> (r: bool) {
        same_number(self.old_no, other.old_no) && same_number(self.new_no, other.new_no)
            && self.kind == other.kind && self.text.same(&other.text)
    }
}

/// A diff that is shown beside the dashboard.
#[derive(Debug, PartialEq, Eq)]
pub struct LoadedDiff {
    pub path: String,
    pub staged: bool,
    pub untracked: bool,
    /// The commit that the diff belongs to, where it is not of the work tree.
    pub commit: Option<String>,
    pub lines: Vec<DiffLine>,
    pub added: usize,
    pub removed: usize,
    /// The first row that is shown.
    pub scroll: usize,
    pub binary: bool,
    pub truncated: bool,
}

pub struct DiffModel {
    pub path: Seq<char>,
    pub staged: bool,
    pub untracked: bool,
    pub commit: Option<Seq<char>>,
    pub lines: Seq<LineModel>,
    pub added: usize,
    pub removed: usize,
    pub scroll: usize,
    pub binary: bool,
    pub truncated: bool,
}

impl View for LoadedDiff {
    type V = DiffModel;

    open spec fn view(&self) -> DiffModel {
        DiffModel {
            path: self.path@,
            staged: self.staged,
            untracked: self.untracked,
            commit: option_view(self.commit),
            lines: views(self.lines@),
            added: self.added,
            removed: self.removed,
            scroll: self.scroll,
            binary: self.binary,
            truncated: self.truncated,
        }
    }
}

impl Modeled for LoadedDiff {
    fn copy(&self) -> (r: Self) {
        LoadedDiff {
            path: self.path.copy(),
            staged: self.staged,
            untracked: self.untracked,
            commit: copy_option(&self.commit),
            lines: copy_all(&self.lines),
            added: self.added,
            removed: self.removed,
            scroll: self.scroll,
            binary: self.binary,
            truncated: self.truncated,
        }
    }

    fn same(&self, other: &Self) -> (r: bool) {
        self.path.same(&other.path) && self.staged == other.staged && self.untracked
            == other.untracked && same_option(&self.commit, &other.commit) && same_all(
            &self.lines,
            &other.lines,
        ) && self.added == other.added && self.removed == other.removed && self.scroll
            == other.scroll && self.binary == other.binary && self.truncated == other.truncated
    }
}

impl Clone for LoadedDiff {
    fn clone(&self) -> (r: Self)
        ensures
            r@ == self@,
    {
        self.copy()
    }
}

// ---------------------------------------------------------------------------
// Screen geometry

/// The rows of the panel above the files: title, message box, commit button,
/// summary, notice and a blank row.
pub const FIXED_ROWS: usize = 8;

/// The rows of the history section besides its commits: header and details.
pub const HISTORY_CHROME_ROWS: usize = 3;

/// The commits that stay visible however many files there are.
pub const MIN_HISTORY_ENTRIES: usize = 5;

pub const COMMIT_BOX_TOP: usize = 1;

pub const COMMIT_BOX_INPUT: usize = 2;

pub const COMMIT_BOX_HEIGHT: usize = 3;

pub const MENU_ITEMS: usize = 4;

pub const MENU_TOP: usize = 5;

pub const MENU_HEIGHT: usize = 6;

pub const CONFIRM_TOP: usize = 8;

pub const CONFIRM_HEIGHT: usize = 4;

/// The distance to the oldest loaded commit at which older ones are loaded.
pub const HISTORY_PRELOAD_THRESHOLD: usize = 10;

pub const INITIAL_HISTORY_LIMIT: usize = 50;

pub const HISTORY_PAGE_SIZE: usize = 50;

/// Marks a diff that was opened and not drawn yet: its first change is looked
/// for once the width of the pane is known.
pub const SCROLL_ANCHOR_PENDING: usize = usize::MAX;

/// A cell of the screen, counted from zero.
#[derive(Debug, Clone, Copy, PartialEq, Eq, Structural)]
pub struct ScreenPoint {
    pub row: usize,
    pub column: usize,
}

#[derive(Debug, Clone, Copy, PartialEq, Eq, Structural)]
pub enum FileAction {
    /// Stage the file, or unstage it.
    Stage(bool),
    Discard,
}

/// Cells of a row that act on a file.
#[derive(Debug, Clone, Copy, PartialEq, Eq, Structural)]
pub struct FileActionHit {
    pub row: usize,
    pub x0: usize,
    pub x1: usize,
    pub index: usize,
    pub action: FileAction,
}

/// Cells of a row that answer the confirmation.
#[derive(Debug, Clone, Copy, PartialEq, Eq, Structural)]
pub struct ConfirmHit {
    pub row: usize,
    pub x0: usize,
    pub x1: usize,
    pub confirm: bool,
}

/// What the mouse points at.
#[derive(Debug, Clone, Copy, PartialEq, Eq, Structural)]
pub enum MouseTarget {
    Confirm(bool),
    CloseDiff,
    MenuItem(usize),
    DismissMenu,
    Commit,
    ToggleMenu,
    CommitInput,
    StageAll,
    FileAction(usize, FileAction),
    File(usize),
    History(usize),
}

/// Where the controls of the dashboard were drawn.
#[derive(Debug, PartialEq, Eq)]
pub struct GitLayout {
    pub divider: usize,
    pub height: usize,
    pub right_width: usize,
    pub commit_row: usize,
    pub commit_box_top: usize,
    pub commit_x0: usize,
    pub commit_x1: usize,
    pub commit_button_row: usize,
    pub commit_button_x0: usize,
    pub commit_button_x1: usize,
    pub menu_button_x0: usize,
    pub menu_button_x1: usize,
    /// The row and the column of the control that closes the left pane.
    pub close_button: Option<(usize, usize)>,
    /// Rows and the files that they show.
    pub file_rows: Vec<(usize, usize)>,
    pub actions: Vec<FileActionHit>,
    pub stage_all_row: Option<usize>,
    /// Rows and the commits that they show.
    pub history_rows: Vec<(usize, usize)>,
    /// Rows and the items of the open menu that they show.
    pub menu_rows: Vec<(usize, usize)>,
    pub confirm_rows: Vec<ConfirmHit>,
}

pub struct LayoutModel {
    pub divider: usize,
    pub height: usize,
    pub right_width: usize,
    pub commit_row: usize,
    pub commit_box_top: usize,
    pub commit_x0: usize,
    pub commit_x1: usize,
    pub commit_button_row: usize,
    pub commit_button_x0: usize,
    pub commit_button_x1: usize,
    pub menu_button_x0: usize,
    pub menu_button_x1: usize,
    pub close_button: Option<(usize, usize)>,
    pub file_rows: Seq<(usize, usize)>,
    pub actions: Seq<FileActionHit>,
    pub stage_all_row: Option<usize>,
    pub history_rows: Seq<(usize, usize)>,
    pub menu_rows: Seq<(usize, usize)>,
    pub confirm_rows: Seq<ConfirmHit>,
}

impl View for GitLayout {
    type V = LayoutModel;

    open spec fn view(&self) -> LayoutModel {
        LayoutModel {
            divider: self.divider,
            height: self.height,
            right_width: self.right_width,
            commit_row: self.commit_row,
            commit_box_top: self.commit_box_top,
            commit_x0: self.commit_x0,
            commit_x1: self.commit_x1,
            commit_button_row: self.commit_button_row,
            commit_button_x0: self.commit_button_x0,
            commit_button_x1: self.commit_button_x1,
            menu_button_x0: self.menu_button_x0,
            menu_button_x1: self.menu_button_x1,
            close_button: self.close_button,
            file_rows: self.file_rows@,
            actions: self.actions@,
            stage_all_row: self.stage_all_row,
            history_rows: self.history_rows@,
            menu_rows: self.menu_rows@,
            confirm_rows: self.confirm_rows@,
        }
    }
}

pub open spec fn empty_layout() -> LayoutModel {
    LayoutModel {
        divider: 0,
        height: 0,
        right_width: 0,
        commit_row: 0,
        commit_box_top: 0,
        commit_x0: 0,
        commit_x1: 0,
        commit_button_row: 0,
        commit_button_x0: 0,
        commit_button_x1: 0,
        menu_button_x0: 0,
        menu_button_x1: 0,
        close_button: None,
        file_rows: Seq::empty(),
        actions: Seq::empty(),
        stage_all_row: None,
        history_rows: Seq::empty(),
        menu_rows: Seq::empty(),
        confirm_rows: Seq::empty(),
    }
}

impl Default for GitLayout {
    fn default() -> (r: Self)
        ensures
            r@ == empty_layout(),
    {
        GitLayout {
            divider: 0,
            height: 0,
            right_width: 0,
            commit_row: 0,
            commit_box_top: 0,
            commit_x0: 0,
            commit_x1: 0,
            commit_button_row: 0,
            commit_button_x0: 0,
            commit_button_x1: 0,
            menu_button_x0: 0,
            menu_button_x1: 0,
            close_button: None,
            file_rows: Vec::new(),
            actions: Vec::new(),
            stage_all_row: None,
            history_rows: Vec::new(),
            menu_rows: Vec::new(),
            confirm_rows: Vec::new(),
        }
    }
}

impl Clone for GitLayout {
    fn clone(&self) -> (r: Self)
        ensures
            r@ == self@,
    {
        GitLayout {
            divider: self.divider,
            height: self.height,
            right_width: self.right_width,
            commit_row: self.commit_row,
            commit_box_top: self.commit_box_top,
            commit_x0: self.commit_x0,
            commit_x1: self.commit_x1,
            commit_button_row: self.commit_button_row,
            commit_button_x0: self.commit_button_x0,
            commit_button_x1: self.commit_button_x1,
            menu_button_x0: self.menu_button_x0,
            menu_button_x1: self.menu_button_x1,
            close_button: self.close_button,
            file_rows: copy_list(&self.file_rows),
            actions: copy_list(&self.actions),
            stage_all_row: self.stage_all_row,
            history_rows: copy_list(&self.history_rows),
            menu_rows: copy_list(&self.menu_rows),
            confirm_rows: copy_list(&self.confirm_rows),
        }
    }
}

/// What a row shows, by the first pair for the row.
pub open spec fn row_entry(rows: Seq<(usize, usize)>, row: usize) -> Option<usize>
    decreases rows.len(),
{
    if rows.len() == 0 {
        None
    } else {
        match row_entry(rows.drop_last(), row) {
            Some(index) => Some(index),
            None => if rows.last().0 == row {
                Some(rows.last().1)
            } else {
                None
            },
        }
    }
}

fn find_row(rows: &Vec<(usize, usize)>, row: usize) -> (r: Option<usize>)
    ensures
        r == row_entry(rows@, row),
{
    let mut found: Option<usize> = None;
    let mut i: usize = 0;
    while i < rows.len()
        invariant
            i <= rows@.len(),
            found == row_entry(rows@.take(i as int), row),
        decreases rows@.len() - i,
    {
        assert(rows@.take(i + 1).drop_last() =~= rows@.take(i as int));
        if found.is_none() && rows[i].0 == row {
            found = Some(rows[i].1);
        }
        i += 1;
    }
    assert(rows@.take(i as int) =~= rows@);
    found
}

/// The action on a file at a cell, by the first hit.
pub open spec fn action_at(hits: Seq<FileActionHit>, p: ScreenPoint) -> Option<MouseTarget>
    decreases hits.len(),
{
    if hits.len() == 0 {
        None
    } else {
        match action_at(hits.drop_last(), p) {
            Some(target) => Some(target),
            None => {
                let hit = hits.last();
                if hit.row == p.row && hit.x0 <= p.column < hit.x1 {
                    Some(MouseTarget::FileAction(hit.index, hit.action))
                } else {
                    None
                }
            },
        }
    }
}

fn find_action(hits: &Vec<FileActionHit>, p: ScreenPoint) -> (r: Option<MouseTarget>)
    ensures
        r == action_at(hits@, p),
{
    let mut found: Option<MouseTarget> = None;
    let mut i: usize = 0;
    while i < hits.len()
        invariant
            i <= hits@.len(),
            found == action_at(hits@.take(i as int), p),
        decreases hits@.len() - i,
    {
        assert(hits@.take(i + 1).drop_last() =~= hits@.take(i as int));
        let hit = &hits[i];
        if found.is_none() && hit.row == p.row && hit.x0 <= p.column && p.column < hit.x1 {
            found = Some(MouseTarget::FileAction(hit.index, hit.action));
        }
        i += 1;
    }
    assert(hits@.take(i as int) =~= hits@);
    found
}

/// The answer at a cell, by the first hit.
pub open spec fn answer_at(hits: Seq<ConfirmHit>, p: ScreenPoint) -> Option<MouseTarget>
    decreases hits.len(),
{
    if hits.len() == 0 {
        None
    } else {
        match answer_at(hits.drop_last(), p) {
            Some(target) => Some(target),
            None => {
                let hit = hits.last();
                if hit.row == p.row && hit.x0 <= p.column < hit.x1 {
                    Some(MouseTarget::Confirm(hit.confirm))
                } else {
                    None
                }
            },
        }
    }
}

fn find_answer(hits: &Vec<ConfirmHit>, p: ScreenPoint) -> (r: Option<MouseTarget>)
    ensures
        r == answer_at(hits@, p),
{
    let mut found: Option<MouseTarget> = None;
    let mut i: usize = 0;
    while i < hits.len()
        invariant
            i <= hits@.len(),
            found == answer_at(hits@.take(i as int), p),
        decreases hits@.len() - i,
    {
        assert(hits@.take(i + 1).drop_last() =~= hits@.take(i as int));
        let hit = &hits[i];
        if found.is_none() && hit.row == p.row && hit.x0 <= p.column && p.column < hit.x1 {
            found = Some(MouseTarget::Confirm(hit.confirm));
        }
        i += 1;
    }
    assert(hits@.take(i as int) =~= hits@);
    found
}

impl LayoutModel {
    /// Whether a cell lies in the panel on the right.
    pub open spec fn in_panel(self, p: ScreenPoint) -> bool {
        self.divider < p.column && p.column - self.divider <= self.right_width
    }

    /// What a cell of the panel shows where no overlay covers it.
    pub open spec fn panel_target(self, p: ScreenPoint) -> Option<MouseTarget> {
        if p.row == self.commit_button_row && self.commit_button_x0 <= p.column
            < self.commit_button_x1 {
            Some(MouseTarget::Commit)
        } else if p.row == self.commit_button_row && self.menu_button_x0 <= p.column
            < self.menu_button_x1 {
            Some(MouseTarget::ToggleMenu)
        } else if self.commit_box_top <= p.row && p.row - self.commit_box_top < COMMIT_BOX_HEIGHT
            && self.commit_x0 <= p.column < self.commit_x1 {
            Some(MouseTarget::CommitInput)
        } else if !self.in_panel(p) {
            None
        } else if self.stage_all_row == Some(p.row) && self.right_width - (p.column - self.divider)
            < 3 {
            Some(MouseTarget::StageAll)
        } else {
            match action_at(self.actions, p) {
                Some(target) => Some(target),
                None => match row_entry(self.file_rows, p.row) {
                    Some(index) => Some(MouseTarget::File(index)),
                    None => match row_entry(self.history_rows, p.row) {
                        Some(index) => Some(MouseTarget::History(index)),
                        None => None,
                    },
                },
            }
        }
    }

    /// What a cell shows. A confirmation takes the whole screen; an open menu
    /// takes every cell, and those outside it close it.
    pub open spec fn target(self, p: ScreenPoint) -> Option<MouseTarget> {
        if self.confirm_rows.len() > 0 {
            answer_at(self.confirm_rows, p)
        } else if self.menu_rows.len() > 0 {
            match row_entry(self.menu_rows, p.row) {
                Some(item) => if self.in_panel(p) {
                    Some(MouseTarget::MenuItem(item))
                } else {
                    Some(MouseTarget::DismissMenu)
                },
                None => Some(MouseTarget::DismissMenu),
            }
        } else if self.close_button == Some((p.row, p.column)) {
            Some(MouseTarget::CloseDiff)
        } else {
            self.panel_target(p)
        }
    }
}

impl GitLayout {
    /// Whether a cell lies in the panel on the right.
    pub fn holds(&self, p: ScreenPoint) -> (r: bool)
        ensures
            r == self@.in_panel(p),
    {
        self.divider < p.column && p.column - self.divider <= self.right_width
    }

    /// Whether a row shows a commit.
    pub fn commit_at(&self, row: usize) -> (r: bool)
        ensures
            r == (row_entry(self@.history_rows, row) is Some),
    {
        find_row(&self.history_rows, row).is_some()
    }

    fn panel_target(&self, p: ScreenPoint) -> (r: Option<MouseTarget>)
        ensures
            r == self@.panel_target(p),
    {
        if p.row == self.commit_button_row && self.commit_button_x0 <= p.column && p.column
            < self.commit_button_x1 {
            return Some(MouseTarget::Commit);
        }
        if p.row == self.commit_button_row && self.menu_button_x0 <= p.column && p.column
            < self.menu_button_x1 {
            return Some(MouseTarget::ToggleMenu);
        }
        if self.commit_box_top <= p.row && p.row - self.commit_box_top < COMMIT_BOX_HEIGHT
            && self.commit_x0 <= p.column && p.column < self.commit_x1 {
            return Some(MouseTarget::CommitInput);
        }
        if !self.holds(p) {
            return None;
        }
        match self.stage_all_row {
            Some(row) => {
                if row == p.row && self.right_width - (p.column - self.divider) < 3 {
                    return Some(MouseTarget::StageAll);
                }
            },
            None => {},
        }
        let action = find_action(&self.actions, p);
        if action.is_some() {
            return action;
        }
        match find_row(&self.file_rows, p.row) {
            Some(index) => return Some(MouseTarget::File(index)),
            None => {},
        }
        match find_row(&self.history_rows, p.row) {
            Some(index) => Some(MouseTarget::History(index)),
            None => None,
        }
    }

    /// What a cell shows; see `LayoutModel::target`.
    pub fn target(&self, p: ScreenPoint) -> (r: Option<MouseTarget>)
        ensures
            r == self@.target(p),
    {
        if self.confirm_rows.len() > 0 {
            return find_answer(&self.confirm_rows, p);
        }
        if self.menu_rows.len() > 0 {
            return match find_row(&self.menu_rows, p.row) {
                Some(item) => if self.holds(p) {
                    Some(MouseTarget::MenuItem(item))
                } else {
                    Some(MouseTarget::DismissMenu)
                },
                None => Some(MouseTarget::DismissMenu),
            };
        }
        match self.close_button {
            Some((row, column)) => {
                if row == p.row && column == p.column {
                    return Some(MouseTarget::CloseDiff);
                }
            },
            None => {},
        }
        self.panel_target(p)
    }
}

// ---------------------------------------------------------------------------
// The dashboard

#[derive(Debug, Clone, Copy, PartialEq, Eq, Structural)]
pub enum GitFocus {
    Files,
    Commit,
    Diff,
    History,
}

#[derive(Debug, Clone, Copy, PartialEq, Eq, Structural)]
pub enum CommitMode {
    Commit,
    AndPush,
    AndSync,
}

/// The open menu of commit options.
#[derive(Debug, Clone, Copy, PartialEq, Eq, Structural)]
pub struct CommitMenuState {
    pub selected: usize,
}

impl Default for CommitMenuState {
    fn default() -> (r: Self)
        ensures
            r.selected == 0,
    {
        CommitMenuState { selected: 0 }
    }
}

/// A destructive action that waits for an answer.
#[derive(Debug, PartialEq, Eq)]
pub enum Confirm {
    DiscardFile { path: String, renamed_from: Option<String>, untracked: bool, staged: bool },
    DiscardAll,
}

pub enum ConfirmModel {
    DiscardFile {
        path: Seq<char>,
        renamed_from: Option<Seq<char>>,
        untracked: bool,
        staged: bool,
    },
    DiscardAll,
}

impl View for Confirm {
    type V = ConfirmModel;

    open spec fn view(&self) -> ConfirmModel {
        match self {
            Confirm::DiscardFile { path, renamed_from, untracked, staged } =>
                ConfirmModel::DiscardFile {
                path: path@,
                renamed_from: option_view(*renamed_from),
                untracked: *untracked,
                staged: *staged,
            },
            Confirm::DiscardAll => ConfirmModel::DiscardAll,
        }
    }
}

impl Modeled for Confirm {
    fn copy(&self) -> (r: Self) {
        match self {
            Confirm::DiscardFile { path, renamed_from, untracked, staged } =>
                Confirm::DiscardFile {
                path: path.copy(),
                renamed_from: copy_option(renamed_from),
                untracked: *untracked,
                staged: *staged,
            },
            Confirm::DiscardAll => Confirm::DiscardAll,
        }
    }

    fn same(&self, other: &Self) -> (r: bool) {
        match (self, other) {
            (
                Confirm::DiscardFile { path, renamed_from, untracked, staged },
                Confirm::DiscardFile {
                    path: path2,
                    renamed_from: renamed_from2,
                    untracked: untracked2,
                    staged: staged2,
                },
            ) => path.same(path2) && same_option(renamed_from, renamed_from2) && *untracked
                == *untracked2 && *staged == *staged2,
            (Confirm::DiscardAll, Confirm::DiscardAll) => true,
            _ => false,
        }
    }
}

/// The state of the git dashboard.
#[derive(Debug)]
pub struct GitView {
    pub root: String,
    pub status: GitStatus,
    /// All changed files, in the order of their rows.
    pub flat: Vec<GitFile>,
    pub selected: usize,
    pub file_scroll: usize,
    pub focus: GitFocus,
    pub commit: String,
    /// The place of the cursor in the commit message, in characters.
    pub commit_cursor: usize,
    pub amend: bool,
    pub diff: Option<LoadedDiff>,
    pub history: Vec<HistoryEntry>,
    pub history_selected: usize,
    pub history_scroll: usize,
    pub history_limit: usize,
    pub history_has_more: bool,
    pub show_log: bool,
    pub log_scroll: usize,
    pub show_branches: bool,
    pub branches: Vec<String>,
    pub branch_selected: usize,
    pub confirm: Option<Confirm>,
    pub commit_menu: Option<CommitMenuState>,
    pub notice: String,
    pub notice_error: bool,
    pub mouse_position: Option<ScreenPoint>,
    pub layout: GitLayout,
    /// The status output that the shown files come from.
    pub last_status_raw: Option<String>,
    /// When the repository was last looked at, in milliseconds.
    pub last_poll: Option<u64>,
}

pub struct ViewModel {
    pub root: Seq<char>,
    pub status: StatusModel,
    pub flat: Seq<FileModel>,
    pub selected: usize,
    pub file_scroll: usize,
    pub focus: GitFocus,
    pub commit: Seq<char>,
    pub commit_cursor: usize,
    pub amend: bool,
    pub diff: Option<DiffModel>,
    pub history: Seq<EntryModel>,
    pub history_selected: usize,
    pub history_scroll: usize,
    pub history_limit: usize,
    pub history_has_more: bool,
    pub show_log: bool,
    pub log_scroll: usize,
    pub show_branches: bool,
    pub branches: Seq<Seq<char>>,
    pub branch_selected: usize,
    pub confirm: Option<ConfirmModel>,
    pub commit_menu: Option<CommitMenuState>,
    pub notice: Seq<char>,
    pub notice_error: bool,
    pub mouse_position: Option<ScreenPoint>,
    pub layout: LayoutModel,
    pub last_status_raw: Option<Seq<char>>,
    pub last_poll: Option<u64>,
}

impl View for GitView {
    type V = ViewModel;

    open spec fn view(&self) -> ViewModel {
        ViewModel {
            root: self.root@,
            status: self.status@,
            flat: views(self.flat@),
            selected: self.selected,
            file_scroll: self.file_scroll,
            focus: self.focus,
            commit: self.commit@,
            commit_cursor: self.commit_cursor,
            amend: self.amend,
            diff: option_view(self.diff),
            history: views(self.history@),
            history_selected: self.history_selected,
            history_scroll: self.history_scroll,
            history_limit: self.history_limit,
            history_has_more: self.history_has_more,
            show_log: self.show_log,
            log_scroll: self.log_scroll,
            show_branches: self.show_branches,
            branches: views(self.branches@),
            branch_selected: self.branch_selected,
            confirm: option_view(self.confirm),
            commit_menu: self.commit_menu,
            notice: self.notice@,
            notice_error: self.notice_error,
            mouse_position: self.mouse_position,
            layout: self.layout@,
            last_status_raw: option_view(self.last_status_raw),
            last_poll: self.last_poll,
        }
    }
}

impl Clone for GitView {
    fn clone(&self) -> (r: Self)
        ensures
            r@ == self@,
    {
        GitView {
            root: self.root.copy(),
            status: self.status.copy(),
            flat: copy_all(&self.flat),
            selected: self.selected,
            file_scroll: self.file_scroll,
            focus: self.focus,
            commit: self.commit.copy(),
            commit_cursor: self.commit_cursor,
            amend: self.amend,
            diff: copy_option(&self.diff),
            history: copy_all(&self.history),
            history_selected: self.history_selected,
            history_scroll: self.history_scroll,
            history_limit: self.history_limit,
            history_has_more: self.history_has_more,
            show_log: self.show_log,
            log_scroll: self.log_scroll,
            show_branches: self.show_branches,
            branches: copy_all(&self.branches),
            branch_selected: self.branch_selected,
            confirm: copy_option(&self.confirm),
            commit_menu: self.commit_menu,
            notice: self.notice.copy(),
            notice_error: self.notice_error,
            mouse_position: self.mouse_position,
            layout: self.layout.clone(),
            last_status_raw: copy_option(&self.last_status_raw),
            last_poll: self.last_poll,
        }
    }
}

/// A row of the file area.
#[derive(Debug, Clone, Copy, PartialEq, Eq, Structural)]
pub enum FileAreaRow {
    Header(GitSection),
    File(usize),
}

/// The files from `from` up to `to`, one row each.
pub open spec fn file_run(from: int, to: int) -> Seq<FileAreaRow> {
    Seq::new((to - from) as nat, |i: int| FileAreaRow::File((from + i) as usize))
}

/// A group of files under a header; nothing where the group is empty.
pub open spec fn file_group(section: GitSection, from: int, to: int) -> Seq<FileAreaRow> {
    if from < to {
        seq![FileAreaRow::Header(section)] + file_run(from, to)
    } else {
        Seq::empty()
    }
}

/// The rows of the file area: the staged files, and then the unstaged and the
/// untracked ones together.
pub open spec fn area_rows(status: StatusModel) -> Seq<FileAreaRow> {
    let staged = status.staged.len() as int;
    let all = status.all().len() as int;
    file_group(GitSection::Staged, 0, staged) + file_group(GitSection::Unstaged, staged, all)
}

fn push_group(rows: &mut Vec<FileAreaRow>, section: GitSection, from: usize, to: usize)
    ensures
        final(rows)@ == old(rows)@ + file_group(section, from as int, to as int),
{
    if from >= to {
        assert(rows@ =~= old(rows)@ + file_group(section, from as int, to as int));
        return;
    }
    rows.push(FileAreaRow::Header(section));
    let ghost head = rows@;
    let mut i: usize = from;
    while i < to
        invariant
            from <= i <= to,
            rows@ == head + file_run(from as int, i as int),
        decreases to - i,
    {
        rows.push(FileAreaRow::File(i));
        i += 1;
        assert(rows@ =~= head + file_run(from as int, i as int));
    }
    assert(rows@ =~= old(rows)@ + file_group(section, from as int, to as int));
}

impl GitStatus {
    /// A status that holds fewer files than can be counted.
    pub open spec fn countable(&self) -> bool {
        self@.all().len() < usize::MAX
    }
}

/// The rows of the file area; see `area_rows`.
pub fn file_area_rows(view: &GitView) -> (r: Vec<FileAreaRow>)
    requires
        view.status.countable(),
    ensures
        r@ == area_rows(view.status@),
{
    let staged: usize = view.status.staged.len();
    let all: usize = staged + view.status.unstaged.len() + view.status.untracked.len();
    let mut rows: Vec<FileAreaRow> = Vec::new();
    push_group(&mut rows, GitSection::Staged, 0, staged);
    push_group(&mut rows, GitSection::Unstaged, staged, all);
    assert(rows@ =~= area_rows(view.status@));
    rows
}

/// The row of a file in the file area.
pub open spec fn file_row(rows: Seq<FileAreaRow>, file: usize) -> Option<int> {
    crate::model::first_position(rows, |row: FileAreaRow| row == FileAreaRow::File(file))
}

fn find_file_row(rows: &Vec<FileAreaRow>, file: usize) -> (r: Option<usize>)
    ensures
        match r {
            Some(i) => file_row(rows@, file) == Some(i as int) && i < rows@.len(),
            None => file_row(rows@, file) is None,
        },
{
    let ghost wanted = |row: FileAreaRow| row == FileAreaRow::File(file);
    let mut i: usize = 0;
    while i < rows.len()
        invariant
            i <= rows@.len(),
            wanted == (|row: FileAreaRow| row == FileAreaRow::File(file)),
            forall|k: int| 0 <= k < i ==> !wanted(#[trigger] rows@[k]),
        decreases rows@.len() - i,
    {
        if rows[i] == FileAreaRow::File(file) {
            proof {
                crate::model::first_position_is(rows@, wanted, i as int);
            }
            return Some(i);
        }
        i += 1;
    }
    proof {
        crate::model::no_first_position(rows@, wanted);
    }
    None
}

/// The scroll position nearest to `scroll` at which a row is inside a window.
pub open spec fn scrolled_to(scroll: usize, row: int, window: usize) -> usize {
    if row < scroll {
        row as usize
    } else if window > 0 && row >= scroll + window {
        (row + 1 - window) as usize
    } else {
        scroll
    }
}

fn scroll_to(scroll: usize, row: usize, window: usize) -> (r: usize)
    ensures
        r == scrolled_to(scroll, row as int, window),
{
    if row < scroll {
        row
    } else if window > 0 && row - scroll >= window {
        row - (window - 1)
    } else {
        scroll
    }
}

impl ViewModel {
    /// A dashboard as it is opened.
    pub open spec fn opened(root: Seq<char>, status: StatusModel) -> ViewModel {
        ViewModel {
            root,
            status,
            flat: status.all(),
            selected: 0,
            file_scroll: 0,
            focus: GitFocus::Files,
            commit: Seq::empty(),
            commit_cursor: 0,
            amend: false,
            diff: None,
            history: Seq::empty(),
            history_selected: 0,
            history_scroll: 0,
            history_limit: INITIAL_HISTORY_LIMIT,
            history_has_more: false,
            show_log: false,
            log_scroll: 0,
            show_branches: false,
            branches: Seq::empty(),
            branch_selected: 0,
            confirm: None,
            commit_menu: None,
            notice: Seq::empty(),
            notice_error: false,
            mouse_position: None,
            layout: empty_layout(),
            last_status_raw: None,
            last_poll: None,
        }
    }

    pub open spec fn with_notice(self, notice: Seq<char>, error: bool) -> ViewModel {
        ViewModel { notice, notice_error: error, ..self }
    }

    pub open spec fn selected_file(self) -> Option<FileModel> {
        if self.selected < self.flat.len() {
            Some(self.flat[self.selected as int])
        } else {
            None
        }
    }

    /// What the mouse points at.
    pub open spec fn mouse_target(self) -> Option<MouseTarget> {
        match self.mouse_position {
            Some(p) => self.layout.target(p),
            None => None,
        }
    }

    /// The file whose row the mouse is on.
    pub open spec fn hovered_file(self) -> Option<usize> {
        match self.mouse_target() {
            Some(MouseTarget::File(index)) => Some(index),
            Some(MouseTarget::FileAction(index, _)) => Some(index),
            _ => None,
        }
    }

    /// The commit whose row the mouse is on.
    pub open spec fn hovered_history(self) -> Option<usize> {
        match self.mouse_target() {
            Some(MouseTarget::History(index)) => Some(index),
            _ => None,
        }
    }
}

impl GitView {
    pub fn new(root: String, status: GitStatus) -> (r: Self)
        ensures
            r@ == ViewModel::opened(root@, status@),
    {
        let flat = status.flat();
        let r = GitView {
            root,
            status,
            flat,
            selected: 0,
            file_scroll: 0,
            focus: GitFocus::Files,
            commit: String::new(),
            commit_cursor: 0,
            amend: false,
            diff: None,
            history: Vec::new(),
            history_selected: 0,
            history_scroll: 0,
            history_limit: INITIAL_HISTORY_LIMIT,
            history_has_more: false,
            show_log: false,
            log_scroll: 0,
            show_branches: false,
            branches: Vec::new(),
            branch_selected: 0,
            confirm: None,
            commit_menu: None,
            notice: String::new(),
            notice_error: false,
            mouse_position: None,
            layout: GitLayout::default(),
            last_status_raw: None,
            last_poll: None,
        };
        assert(views(r.history@) =~= Seq::empty());
        assert(views(r.branches@) =~= Seq::empty());
        r
    }

    pub fn set_notice(&mut self, notice: String, error: bool)
        ensures
            final(self)@ == old(self)@.with_notice(notice@, error),
    {
        self.notice = notice;
        self.notice_error = error;
    }

    pub fn selected_file(&self) -> (r: Option<&GitFile>)
        ensures
            match r {
                Some(file) => self@.selected_file() == Some(file@),
                None => self@.selected_file() is None,
            },
    {
        if self.selected < self.flat.len() {
            Some(&self.flat[self.selected])
        } else {
            None
        }
    }

    /// What the mouse points at.
    pub fn mouse_target(&self) -> (r: Option<MouseTarget>)
        ensures
            r == self@.mouse_target(),
    {
        match self.mouse_position {
            Some(p) => self.layout.target(p),
            None => None,
        }
    }

    pub fn hovered_file(&self) -> (r: Option<usize>)
        ensures
            r == self@.hovered_file(),
    {
        match self.mouse_target() {
            Some(MouseTarget::File(index)) => Some(index),
            Some(MouseTarget::FileAction(index, _)) => Some(index),
            _ => None,
        }
    }

    pub fn hovered_history(&self) -> (r: Option<usize>)
        ensures
            r == self@.hovered_history(),
    {
        match self.mouse_target() {
            Some(MouseTarget::History(index)) => Some(index),
            _ => None,
        }
    }

    /// Scrolls the files as little as shows the selected one.
    pub fn ensure_selection_visible(&mut self, capacity: usize)
        requires
            old(self).status.countable(),
        ensures
            final(self)@ == (ViewModel {
                file_scroll: match file_row(area_rows(old(self)@.status), old(self)@.selected) {
                    Some(row) => scrolled_to(old(self)@.file_scroll, row, capacity),
                    None => old(self)@.file_scroll,
                },
                ..old(self)@
            }),
    {
        let rows = file_area_rows(self);
        match find_file_row(&rows, self.selected) {
            Some(row) => {
                self.file_scroll = scroll_to(self.file_scroll, row, capacity);
            },
            None => {},
        }
    }

    /// Scrolls the history as little as shows the selected commit.
    pub fn ensure_history_visible(&mut self, capacity: usize)
        ensures
            final(self)@ == (ViewModel {
                history_scroll: if old(self)@.history_selected < old(self)@.history.len() {
                    scrolled_to(
                        old(self)@.history_scroll,
                        old(self)@.history_selected as int,
                        capacity,
                    )
                } else {
                    old(self)@.history_scroll
                },
                ..old(self)@
            }),
    {
        if self.history_selected < self.history.len() {
            self.history_scroll = scroll_to(self.history_scroll, self.history_selected, capacity);
        }
    }
}

/// A row leads to the entry that it was drawn for, and to no other.
pub proof fn rows_lead_to_their_entry(rows: Seq<(usize, usize)>, row: usize)
    ensures
        row_entry(rows, row) matches Some(index) ==> exists|k: int|
            0 <= k < rows.len() && #[trigger] rows[k] == (row, index),
        row_entry(rows, row) is None ==> forall|k: int|
            0 <= k < rows.len() ==> (#[trigger] rows[k]).0 != row,
    decreases rows.len(),
{
    if rows.len() > 0 {
        let before = rows.drop_last();
        rows_lead_to_their_entry(before, row);
        match row_entry(before, row) {
            Some(index) => {
                let k = choose|k: int| 0 <= k < before.len() && #[trigger] before[k] == (row, index);
                assert(rows[k] == (row, index));
            },
            None => {
                assert forall|k: int| 0 <= k < before.len() implies (#[trigger] rows[k]).0
                    != row by {
                    assert(before[k] == rows[k]);
                }
                assert(rows[rows.len() - 1] == rows.last());
            },
        }
    }
}

/// Whether a place lies on a button.
pub open spec fn on_action(hit: FileActionHit, p: ScreenPoint) -> bool {
    hit.row == p.row && hit.x0 <= p.column < hit.x1
}

/// A place on a button leads to what that button does to its file; a place on
/// none leads to nothing.
pub proof fn buttons_lead_to_their_file(hits: Seq<FileActionHit>, p: ScreenPoint)
    ensures
        action_at(hits, p) matches Some(target) ==> exists|k: int|
            0 <= k < hits.len() && on_action(#[trigger] hits[k], p) && target
                == MouseTarget::FileAction(hits[k].index, hits[k].action),
        action_at(hits, p) is None ==> forall|k: int|
            0 <= k < hits.len() ==> !on_action(#[trigger] hits[k], p),
    decreases hits.len(),
{
    if hits.len() > 0 {
        let before = hits.drop_last();
        buttons_lead_to_their_file(before, p);
        match action_at(before, p) {
            Some(target) => {
                let k = choose|k: int|
                    0 <= k < before.len() && on_action(#[trigger] before[k], p) && target
                        == MouseTarget::FileAction(before[k].index, before[k].action);
                assert(hits[k] == before[k]);
            },
            None => {
                assert forall|k: int| 0 <= k < before.len() implies !on_action(
                    #[trigger] hits[k],
                    p,
                ) by {
                    assert(before[k] == hits[k]);
                }
                assert(hits[hits.len() - 1] == hits.last());
            },
        }
    }
}

/// While a question stands, only its answers can be hit: the one that a place
/// lies on.
pub proof fn questions_take_every_click(layout: LayoutModel, p: ScreenPoint)
    requires
        layout.confirm_rows.len() > 0,
    ensures
        layout.target(p) matches Some(target) ==> exists|k: int|
            0 <= k < layout.confirm_rows.len() && target == MouseTarget::Confirm(
                (#[trigger] layout.confirm_rows[k]).confirm,
            ) && layout.confirm_rows[k].row == p.row && layout.confirm_rows[k].x0 <= p.column
                < layout.confirm_rows[k].x1,
{
    answers_lead(layout.confirm_rows, p);
}

proof fn answers_lead(hits: Seq<ConfirmHit>, p: ScreenPoint)
    ensures
        answer_at(hits, p) matches Some(target) ==> exists|k: int|
            0 <= k < hits.len() && target == MouseTarget::Confirm((#[trigger] hits[k]).confirm)
                && hits[k].row == p.row && hits[k].x0 <= p.column < hits[k].x1,
    decreases hits.len(),
{
    if hits.len() > 0 {
        let before = hits.drop_last();
        answers_lead(before, p);
        match answer_at(before, p) {
            Some(target) => {
                let k = choose|k: int|
                    0 <= k < before.len() && target == MouseTarget::Confirm(
                        (#[trigger] before[k]).confirm,
                    ) && before[k].row == p.row && before[k].x0 <= p.column < before[k].x1;
                assert(hits[k] == before[k]);
            },
            None => {
                assert(hits[hits.len() - 1] == hits.last());
            },
        }
    }
}

/// While the menu of the commit is open, a click on one of its lines takes that
/// line, and a click anywhere else closes it.
pub proof fn open_menus_take_every_click(layout: LayoutModel, p: ScreenPoint, item: usize)
    requires
        layout.confirm_rows.len() == 0,
        layout.menu_rows.len() > 0,
    ensures
        layout.in_panel(p) && row_entry(layout.menu_rows, p.row) == Some(item) ==> layout.target(p)
            == Some(MouseTarget::MenuItem(item)),
        !layout.in_panel(p) || row_entry(layout.menu_rows, p.row) is None ==> layout.target(p)
            == Some(MouseTarget::DismissMenu),
{
}

/// In the panel a row of a file leads to the file, and a row of the history to
/// the commit, but for the buttons that stand in it.
pub proof fn panel_rows_lead_to_files_and_commits(layout: LayoutModel, p: ScreenPoint, index: usize)
    requires
        layout.confirm_rows.len() == 0,
        layout.menu_rows.len() == 0,
        layout.close_button != Some((p.row, p.column)),
        layout.in_panel(p),
        p.row != layout.commit_button_row,
        p.row < layout.commit_box_top || p.row >= layout.commit_box_top + 3,
        layout.stage_all_row != Some(p.row),
        action_at(layout.actions, p) is None,
    ensures
        row_entry(layout.file_rows, p.row) == Some(index) ==> layout.target(p) == Some(
            MouseTarget::File(index),
        ),
        row_entry(layout.file_rows, p.row) is None && row_entry(layout.history_rows, p.row) == Some(
            index,
        ) ==> layout.target(p) == Some(MouseTarget::History(index)),
        row_entry(layout.file_rows, p.row) is None && row_entry(layout.history_rows, p.row) is None
            ==> layout.target(p) is None,
{
}

/// The buttons of the message lead to what is written on them.
pub proof fn message_buttons_lead(layout: LayoutModel, p: ScreenPoint)
    requires
        layout.confirm_rows.len() == 0,
        layout.menu_rows.len() == 0,
        layout.close_button != Some((p.row, p.column)),
    ensures
        p.row == layout.commit_button_row && layout.commit_button_x0 <= p.column
            < layout.commit_button_x1 ==> layout.target(p) == Some(MouseTarget::Commit),
        p.row == layout.commit_button_row && layout.commit_button_x1 <= p.column
            && layout.menu_button_x0 <= p.column < layout.menu_button_x1 ==> layout.target(p)
            == Some(MouseTarget::ToggleMenu),
{
}

/// Every file has one row, under the heading of what it belongs to: the staged
/// ones under the first, and the others under the second.
pub proof fn files_stand_under_their_heading(status: StatusModel, i: int)
    requires
        0 <= i < status.all().len() < usize::MAX,
    ensures
        ({
            let rows = area_rows(status);
            let n = status.staged.len() as int;
            let first: int = if n > 0 {
                1
            } else {
                0
            };
            &&& i < n ==> rows[0] == FileAreaRow::Header(GitSection::Staged) && rows[1 + i]
                == FileAreaRow::File(i as usize)
            &&& i >= n ==> rows[n + first] == FileAreaRow::Header(GitSection::Unstaged)
                && rows[i + first + 1] == FileAreaRow::File(i as usize)
            &&& rows.len() <= status.all().len() + 2
        }),
        i < status.staged.len() ==> status.all()[i] == status.staged[i],
        status.staged.len() <= i < status.staged.len() + status.unstaged.len() ==> status.all()[i]
            == status.unstaged[i - status.staged.len()],
        i >= status.staged.len() + status.unstaged.len() ==> status.all()[i]
            == status.untracked[i - status.staged.len() - status.unstaged.len()],
{
}

/// A row that is selected comes into sight, and the list moves no further than
/// that; where it is in sight, the list stays.
pub proof fn selected_rows_come_into_sight(scroll: usize, row: int, window: usize)
    requires
        0 <= row < usize::MAX,
        window > 0,
        scroll + window <= usize::MAX,
    ensures
        ({
            let now = scrolled_to(scroll, row, window);
            &&& now <= row < now + window
            &&& scroll <= row < scroll + window ==> now == scroll
            &&& row < scroll ==> now == row
            &&& row >= scroll + window ==> now + window == row + 1
        }),
{
}

/// A file is marked by what happened to it where it is listed.
pub proof fn files_are_marked(path: Seq<char>, x: char, y: char)
    ensures
        ({
            let file = |section: GitSection|
                FileModel { path, x, y, section, renamed_from: None };
            &&& file(GitSection::Staged).label() == x
            &&& file(GitSection::Unstaged).label() == y
            &&& file(GitSection::Untracked).label() == 'U'
        }),
{
}

/// The pointer is over a file on its row and on its buttons, and over a commit
/// on its row.
pub proof fn pointers_are_over_what_they_hit(v: ViewModel, index: usize, action: FileAction)
    ensures
        v.mouse_target() == Some(MouseTarget::File(index)) ==> v.hovered_file() == Some(index)
            && v.hovered_history() is None,
        v.mouse_target() == Some(MouseTarget::FileAction(index, action)) ==> v.hovered_file()
            == Some(index),
        v.mouse_target() == Some(MouseTarget::History(index)) ==> v.hovered_history() == Some(
            index,
        ) && v.hovered_file() is None,
        v.mouse_target() is None ==> v.hovered_file() is None && v.hovered_history() is None,
        v.mouse_position is None ==> v.mouse_target() is None,
{
}

/// A repository is opened with its files listed and nothing typed or chosen.
pub proof fn dashboards_open_on_the_files(root: Seq<char>, status: StatusModel)
    ensures
        ({
            let v = ViewModel::opened(root, status);
            &&& v.flat == status.staged + status.unstaged + status.untracked
            &&& v.selected == 0 && v.focus == GitFocus::Files && v.commit.len() == 0 && !v.amend
            &&& v.diff is None && v.confirm is None && v.commit_menu is None && !v.show_log
                && !v.show_branches
            &&& v.root == root && v.status == status
        }),
{
}

} // verus!
