//! Where the parts of the dashboard stand on the screen.

use vstd::prelude::*;
use crate::git::input::{history_start, history_top};
use crate::git::view::{
    area_rows, file_area_rows, file_row, scrolled_to, ConfirmHit, FileAction, FileActionHit,
    FileAreaRow, FileModel, GitFile, GitLayout, GitSection, GitView, LayoutModel, ViewModel,
    COMMIT_BOX_HEIGHT, COMMIT_BOX_INPUT, COMMIT_BOX_TOP, CONFIRM_TOP, FIXED_ROWS,
    HISTORY_CHROME_ROWS, MENU_ITEMS, MENU_TOP, MIN_HISTORY_ENTRIES,
};
use crate::markdown::{visible_columns, visible_width};
use crate::model::views;
use crate::rows::{at_least, at_most, larger, minus, smaller};

verus! {

broadcast use vstd::string::group_string_axioms;

// ---------------------------------------------------------------------------
// Widths

/// The width of the panel on a screen.
pub open spec fn panel_columns(columns: nat) -> nat {
    if columns < 60 {
        at_least(at_most(30, minus(columns, 12)), 20)
    } else {
        at_most(at_least(columns * 35 / 100, 30), 44)
    }
}

pub fn panel_width(columns: usize) -> (r: usize)
    ensures
        r as nat == panel_columns(columns as nat),
        20 <= r <= 44,
{
    if columns < 60 {
        larger(smaller(30, columns.saturating_sub(12)), 20)
    } else if columns < 1000 {
        smaller(larger((columns * 35) / 100, 30), 44)
    } else {
        assert(columns * 35 / 100 >= 44);
        44
    }
}

/// The columns of the commit button: all that the menu button leaves.
pub open spec fn button_columns(width: nat) -> nat {
    minus(width, visible_columns("│ ∨ (v)"@))
}

pub fn commit_button_width(width: usize) -> (r: usize)
    ensures
        r as nat == button_columns(width as nat),
        r <= width,
{
    width.saturating_sub(visible_width("│ ∨ (v)"))
}

/// The parts of the screen: the panel takes the right side, a divider stands
/// before it, and the last row is left for the hint.
pub struct Screen {
    pub columns: nat,
    pub rows: nat,
}

impl Screen {
    /// A screen is drawn with at least 40 columns and 10 rows.
    pub open spec fn of(columns: usize, rows: usize) -> Screen {
        Screen { columns: at_least(columns as nat, 40), rows: at_least(rows as nat, 10) }
    }

    pub open spec fn right(self) -> nat {
        at_most(panel_columns(self.columns), (self.columns - 21) as nat)
    }

    pub open spec fn divider(self) -> nat {
        (self.columns - self.right() - 1) as nat
    }

    pub open spec fn height(self) -> nat {
        (self.rows - 1) as nat
    }
}

// ---------------------------------------------------------------------------
// Rows of the panel

/// The rows that the files ask for.
pub open spec fn files_needed(v: ViewModel) -> nat {
    if v.status.clean() {
        2
    } else {
        area_rows(v.status).len()
    }
}

/// How the rows below the fixed ones are shared: the rows of the files, the
/// commits of the history, and blank rows between them. Where all fits, the
/// blank rows push the history to the bottom. Else the history keeps its
/// minimum, and a short history gives its rows back to the files.
pub open spec fn shared_rows(files: nat, history: nat, height: nat) -> (nat, nat, nat) {
    let available = minus(height, FIXED_ROWS as nat);
    if files + history + HISTORY_CHROME_ROWS <= available {
        (
            at_least(files, 1),
            history,
            (available - (files + history + HISTORY_CHROME_ROWS)) as nat,
        )
    } else {
        let most = at_least(
            minus(available, (MIN_HISTORY_ENTRIES + HISTORY_CHROME_ROWS) as nat),
            1,
        );
        let shown = at_least(at_most(files, most), 1);
        let rest = minus(available, shown + HISTORY_CHROME_ROWS as nat);
        if rest >= history {
            (
                at_least(
                    at_most(
                        files,
                        at_least(minus(available, history + HISTORY_CHROME_ROWS as nat), 1),
                    ),
                    1,
                ),
                history,
                0,
            )
        } else {
            (shown, at_least(rest, 1), 0)
        }
    }
}

pub open spec fn view_rows(v: ViewModel, height: nat) -> (nat, nat, nat) {
    shared_rows(files_needed(v), v.history.len(), height)
}

/// The shares of the panel fill it to the last row.
pub proof fn shares_fill_the_panel(files: nat, history: nat, height: nat)
    requires
        files >= 2,
        height >= FIXED_ROWS + HISTORY_CHROME_ROWS + 2,
    ensures
        ({
            let (f, h, pad) = shared_rows(files, history, height);
            FIXED_ROWS + f + pad + h + HISTORY_CHROME_ROWS == height
        }),
{
}

/// The history is shown whole or with its minimum, wherever the panel has room
/// for a file beside it.
pub proof fn history_keeps_its_minimum(files: nat, history: nat, height: nat)
    requires
        height >= FIXED_ROWS + HISTORY_CHROME_ROWS + MIN_HISTORY_ENTRIES + 1,
    ensures
        ({
            let (f, h, pad) = shared_rows(files, history, height);
            h >= at_most(history, MIN_HISTORY_ENTRIES as nat) && f >= 1
        }),
{
}

/// Shares the rows of the panel; see `shared_rows`.
pub fn panel_split(view: &GitView, content_height: usize) -> (r: (usize, usize, usize))
    requires
        view.status.countable(),
    ensures
        (r.0 as nat, r.1 as nat, r.2 as nat) == view_rows(view@, content_height as nat),
{
    let available: usize = content_height.saturating_sub(FIXED_ROWS);
    let files: usize = if view.status.is_clean() {
        2
    } else {
        file_area_rows(view).len()
    };
    let history: usize = view.history.len();
    let wanted: usize = files.saturating_add(history).saturating_add(HISTORY_CHROME_ROWS);
    if wanted <= available {
        (larger(files, 1), history, available - wanted)
    } else {
        let most: usize = larger(
            available.saturating_sub(MIN_HISTORY_ENTRIES + HISTORY_CHROME_ROWS),
            1,
        );
        let shown: usize = larger(smaller(files, most), 1);
        let rest: usize = available.saturating_sub(shown.saturating_add(HISTORY_CHROME_ROWS));
        if rest >= history {
            let left: usize = larger(
                available.saturating_sub(history.saturating_add(HISTORY_CHROME_ROWS)),
                1,
            );
            (larger(smaller(files, left), 1), history, 0)
        } else {
            (shown, larger(rest, 1), 0)
        }
    }
}

/// The first row of the file area that is shown.
pub open spec fn area_start(v: ViewModel, capacity: nat) -> nat {
    at_most(v.file_scroll as nat, minus(area_rows(v.status).len(), capacity))
}

pub fn file_area_start(view: &GitView, rows: &Vec<FileAreaRow>, file_capacity: usize) -> (r: usize)
    requires
        rows@ == area_rows(view.status@),
    ensures
        r as nat == area_start(view@, file_capacity as nat),
        r <= rows@.len(),
{
    let n: usize = rows.len();
    smaller(view.file_scroll, n.saturating_sub(file_capacity))
}

/// The rows of the file area that are shown.
pub open spec fn area_shown(v: ViewModel, capacity: nat) -> Seq<FileAreaRow> {
    let rows = area_rows(v.status);
    let start = area_start(v, capacity) as int;
    rows.subrange(
        start,
        if start + capacity < rows.len() {
            start + capacity
        } else {
            rows.len() as int
        },
    )
}

// ---------------------------------------------------------------------------
// Targets of the mouse

/// The rows that show files, and which.
pub open spec fn file_hits(drawn: Seq<FileAreaRow>) -> Seq<(usize, usize)>
    decreases drawn.len(),
{
    if drawn.len() == 0 {
        Seq::empty()
    } else {
        let before = file_hits(drawn.drop_last());
        match drawn.last() {
            FileAreaRow::File(file) => before.push(
                ((FIXED_ROWS + drawn.len() - 1) as usize, file),
            ),
            FileAreaRow::Header(_) => before,
        }
    }
}

/// The two actions of a file: undo takes the left half of the action cell,
/// and staging the right half.
pub open spec fn action_pair(
    file: FileModel,
    row: usize,
    index: usize,
    x0: usize,
    x1: usize,
) -> Seq<FileActionHit> {
    seq![
        FileActionHit { row, x0, x1: (x0 + 3) as usize, index, action: FileAction::Discard },
        FileActionHit {
            row,
            x0: (x0 + 3) as usize,
            x1,
            index,
            action: FileAction::Stage(file.section != GitSection::Staged),
        },
    ]
}

pub open spec fn action_hits(
    flat: Seq<FileModel>,
    drawn: Seq<FileAreaRow>,
    x0: usize,
    x1: usize,
) -> Seq<FileActionHit>
    decreases drawn.len(),
{
    if drawn.len() == 0 {
        Seq::empty()
    } else {
        let before = action_hits(flat, drawn.drop_last(), x0, x1);
        match drawn.last() {
            FileAreaRow::File(file) => if file < flat.len() {
                before + action_pair(
                    flat[file as int],
                    (FIXED_ROWS + drawn.len() - 1) as usize,
                    file,
                    x0,
                    x1,
                )
            } else {
                before
            },
            FileAreaRow::Header(_) => before,
        }
    }
}

/// The row of the heading that stages all files.
pub open spec fn stage_all_hit(drawn: Seq<FileAreaRow>) -> Option<usize>
    decreases drawn.len(),
{
    if drawn.len() == 0 {
        None
    } else if drawn.last() == FileAreaRow::Header(GitSection::Unstaged) {
        Some((FIXED_ROWS + drawn.len() - 1) as usize)
    } else {
        stage_all_hit(drawn.drop_last())
    }
}

/// The rows that show commits, and which.
pub open spec fn history_hits(first: nat, top: nat, n: nat) -> Seq<(usize, usize)> {
    Seq::new(n, |k: int| ((first + k) as usize, (top + k) as usize))
}

pub open spec fn menu_hits() -> Seq<(usize, usize)> {
    Seq::new(MENU_ITEMS as nat, |k: int| ((MENU_TOP + 1 + k) as usize, k as usize))
}

/// The answers of the confirmation.
pub open spec fn confirm_hits(base: nat) -> Seq<ConfirmHit> {
    let row = (CONFIRM_TOP + 2) as usize;
    seq![
        ConfirmHit { row, x0: (base + 2) as usize, x1: (base + 11) as usize, confirm: true },
        ConfirmHit { row, x0: (base + 13) as usize, x1: (base + 19) as usize, confirm: false },
    ]
}

/// The rows of the file area that are drawn above the hint.
pub open spec fn area_drawn(v: ViewModel, capacity: nat, height: nat) -> Seq<FileAreaRow> {
    let shown = area_shown(v, capacity);
    shown.take(at_most(shown.len(), minus(height, FIXED_ROWS as nat)) as int)
}

/// The first row of the commits on the screen.
pub open spec fn history_row(v: ViewModel, height: nat) -> nat {
    let (files, history, pad) = view_rows(v, height);
    FIXED_ROWS as nat + (if v.status.clean() {
        2
    } else {
        area_drawn(v, files, height).len()
    }) + pad + 1
}

/// The commits that are drawn.
pub open spec fn commits_drawn(v: ViewModel, height: nat) -> nat {
    let (files, history, pad) = view_rows(v, height);
    at_most(
        at_most(history, minus(v.history.len(), history_start(v, history) as nat)),
        minus(height, history_row(v, height)),
    )
}

/// Where the controls of a dashboard stand on a screen.
pub open spec fn layout_of(v: ViewModel, screen: Screen) -> LayoutModel {
    let right = screen.right();
    let divider = screen.divider();
    let height = screen.height();
    let base = divider + 1;
    let (files, history, pad) = view_rows(v, height);
    let drawn = area_drawn(v, files, height);
    LayoutModel {
        divider: divider as usize,
        height: height as usize,
        right_width: right as usize,
        commit_row: COMMIT_BOX_INPUT,
        commit_box_top: COMMIT_BOX_TOP,
        commit_x0: base as usize,
        commit_x1: (base + right) as usize,
        commit_button_row: (COMMIT_BOX_TOP + COMMIT_BOX_HEIGHT) as usize,
        commit_button_x0: base as usize,
        commit_button_x1: (base + button_columns(right)) as usize,
        menu_button_x0: (base + button_columns(right)) as usize,
        menu_button_x1: (base + right) as usize,
        close_button: if v.diff is Some || v.show_log || v.show_branches {
            Some((0, 0))
        } else {
            None
        },
        file_rows: file_hits(drawn),
        actions: action_hits(
            v.flat,
            drawn,
            (base + minus(right, 6)) as usize,
            (base + right) as usize,
        ),
        stage_all_row: stage_all_hit(drawn),
        history_rows: history_hits(
            history_row(v, height),
            history_start(v, history) as nat,
            commits_drawn(v, height),
        ),
        menu_rows: if v.commit_menu is Some {
            menu_hits()
        } else {
            Seq::empty()
        },
        confirm_rows: if v.confirm is Some {
            confirm_hits(base)
        } else {
            Seq::empty()
        },
    }
}

/// The dashboard scrolled as little as shows the selections.
pub open spec fn scrolled_into_view(v: ViewModel, files: nat, history: nat) -> ViewModel {
    ViewModel {
        file_scroll: match file_row(area_rows(v.status), v.selected) {
            Some(row) => scrolled_to(v.file_scroll, row, files as usize),
            None => v.file_scroll,
        },
        history_scroll: if v.history_selected < v.history.len() {
            scrolled_to(v.history_scroll, v.history_selected as int, history as usize)
        } else {
            v.history_scroll
        },
        ..v
    }
}

/// The dashboard as it is laid out on a screen.
pub open spec fn laid_out(v: ViewModel, screen: Screen) -> ViewModel {
    let (files, history, _) = view_rows(v, screen.height());
    let shown = scrolled_into_view(v, files, history);
    ViewModel { layout: layout_of(shown, screen), ..shown }
}

fn file_targets(
    flat: &Vec<GitFile>,
    area: &Vec<FileAreaRow>,
    from: usize,
    to: usize,
    x0: usize,
    x1: usize,
) -> (r: (Vec<(usize, usize)>, Vec<FileActionHit>, Option<usize>))
    requires
        from <= to <= area@.len(),
        to - from + FIXED_ROWS <= usize::MAX,
        x0 + 3 <= usize::MAX,
    ensures
        r.0@ == file_hits(area@.subrange(from as int, to as int)),
        r.1@ == action_hits(views(flat@), area@.subrange(from as int, to as int), x0, x1),
        r.2 == stage_all_hit(area@.subrange(from as int, to as int)),
{
    let mut rows: Vec<(usize, usize)> = Vec::new();
    let mut actions: Vec<FileActionHit> = Vec::new();
    let mut stage_all: Option<usize> = None;
    let mut i: usize = from;
    while i < to
        invariant
            from <= i <= to <= area@.len(),
            to - from + FIXED_ROWS <= usize::MAX,
            x0 + 3 <= usize::MAX,
            rows@ == file_hits(area@.subrange(from as int, i as int)),
            actions@ == action_hits(views(flat@), area@.subrange(from as int, i as int), x0, x1),
            stage_all == stage_all_hit(area@.subrange(from as int, i as int)),
        decreases to - i,
    {
        let ghost now = area@.subrange(from as int, i + 1);
        assert(now.drop_last() =~= area@.subrange(from as int, i as int));
        assert(now.last() == area@[i as int]);
        let row: usize = FIXED_ROWS + (i - from);
        match area[i] {
            FileAreaRow::Header(section) => {
                if section == GitSection::Unstaged {
                    stage_all = Some(row);
                }
            },
            FileAreaRow::File(file) => {
                rows.push((row, file));
                if file < flat.len() {
                    let ghost before = actions@;
                    let stage = flat[file].section != GitSection::Staged;
                    actions.push(
                        FileActionHit {
                            row,
                            x0,
                            x1: x0 + 3,
                            index: file,
                            action: FileAction::Discard,
                        },
                    );
                    actions.push(
                        FileActionHit {
                            row,
                            x0: x0 + 3,
                            x1,
                            index: file,
                            action: FileAction::Stage(stage),
                        },
                    );
                    assert(actions@ =~= before + action_pair(
                        views(flat@)[file as int],
                        row,
                        file,
                        x0,
                        x1,
                    ));
                }
            },
        }
        i += 1;
    }
    (rows, actions, stage_all)
}

fn history_targets(first: usize, top: usize, n: usize) -> (r: Vec<(usize, usize)>)
    requires
        first + n <= usize::MAX,
        top + n <= usize::MAX,
    ensures
        r@ == history_hits(first as nat, top as nat, n as nat),
{
    let mut r: Vec<(usize, usize)> = Vec::new();
    let mut i: usize = 0;
    while i < n
        invariant
            i <= n,
            first + n <= usize::MAX,
            top + n <= usize::MAX,
            r@ == history_hits(first as nat, top as nat, i as nat),
        decreases n - i,
    {
        r.push((first + i, top + i));
        i += 1;
        assert(r@ =~= history_hits(first as nat, top as nat, i as nat));
    }
    assert(r@ =~= history_hits(first as nat, top as nat, n as nat));
    r
}

fn menu_targets(open: bool) -> (r: Vec<(usize, usize)>)
    ensures
        r@ == if open {
            menu_hits()
        } else {
            Seq::empty()
        },
{
    let mut r: Vec<(usize, usize)> = Vec::new();
    if open {
        let mut i: usize = 0;
        while i < MENU_ITEMS
            invariant
                i <= MENU_ITEMS,
                r@ == menu_hits().take(i as int),
            decreases MENU_ITEMS - i,
        {
            r.push((MENU_TOP + 1 + i, i));
            i += 1;
            assert(r@ =~= menu_hits().take(i as int));
        }
        assert(r@ =~= menu_hits());
    }
    r
}

fn confirm_targets(open: bool, base: usize) -> (r: Vec<ConfirmHit>)
    requires
        base + 19 <= usize::MAX,
    ensures
        r@ == if open {
            confirm_hits(base as nat)
        } else {
            Seq::empty()
        },
{
    let mut r: Vec<ConfirmHit> = Vec::new();
    if open {
        let row: usize = CONFIRM_TOP + 2;
        r.push(ConfirmHit { row, x0: base + 2, x1: base + 11, confirm: true });
        r.push(ConfirmHit { row, x0: base + 13, x1: base + 19, confirm: false });
        assert(r@ =~= confirm_hits(base as nat));
    }
    r
}

/// The room between the files and the bottom is never less than what the
/// blank rows take.
proof fn history_begins_inside(v: ViewModel, height: nat)
    requires
        height >= 9,
    ensures
        ({
            let (files, history, pad) = view_rows(v, height);
            let drawn = area_drawn(v, files, height);
            &&& pad <= height
            &&& FIXED_ROWS + (if v.status.clean() {
                2
            } else {
                drawn.len()
            }) + pad <= height + 1
        }),
{
    let (files, history, pad) = view_rows(v, height);
    let shown = area_shown(v, files);
    let rows = area_rows(v.status);
    let start = area_start(v, files);
    if v.status.clean() {
        assert(rows.len() == 0);
    } else {
        assert(shown.len() <= files);
    }
}

/// The rows of the file area, and those of them that are drawn.
fn drawn_area(view: &GitView, files: usize, height: usize) -> (r: (
    Vec<FileAreaRow>,
    usize,
    usize,
))
    requires
        view.status.countable(),
        height >= FIXED_ROWS,
    ensures
        r.1 <= r.2 <= r.0@.len(),
        r.0@.subrange(r.1 as int, r.2 as int) == area_drawn(view@, files as nat, height as nat),
        r.2 - r.1 <= height - FIXED_ROWS,
{
    let area = file_area_rows(view);
    let total: usize = area.len();
    let start: usize = file_area_start(view, &area, files);
    let end: usize = if files < total - start {
        start + files
    } else {
        total
    };
    let room: usize = height - FIXED_ROWS;
    let stop: usize = if room < end - start {
        start + room
    } else {
        end
    };
    assert(area@.subrange(start as int, stop as int) =~= area_drawn(
        view@,
        files as nat,
        height as nat,
    ));
    (area, start, stop)
}

fn drawn_history(view: &GitView, height: usize, drawn: usize, history: usize, pad: usize) -> (r: Vec<
    (usize, usize),
>)
    requires
        9 <= height < usize::MAX,
        ({
            let (f, h, p) = view_rows(view@, height as nat);
            h == history && p == pad && drawn == area_drawn(view@, f, height as nat).len()
        }),
    ensures
        r@ == history_hits(
            history_row(view@, height as nat),
            history_start(view@, history as nat) as nat,
            commits_drawn(view@, height as nat),
        ),
{
    proof {
        history_begins_inside(view@, height as nat);
    }
    let above: usize = if view.status.is_clean() {
        2
    } else {
        drawn
    };
    let first: usize = FIXED_ROWS + above + pad + 1;
    let top: usize = history_top(view, history);
    let commits: usize = view.history.len();
    let n: usize = smaller(
        smaller(history, commits.saturating_sub(top)),
        height.saturating_sub(first),
    );
    history_targets(first, top, n)
}

fn computed_layout(view: &GitView, columns: usize, rows: usize) -> (r: GitLayout)
    requires
        view.status.countable(),
        columns >= 40,
        rows >= 10,
    ensures
        r@ == layout_of(view@, Screen::of(columns, rows)),
{
    let right: usize = smaller(panel_width(columns), columns - 21);
    let divider: usize = columns - right - 1;
    let height: usize = rows - 1;
    let base: usize = divider + 1;
    let button: usize = commit_button_width(right);
    let (files, history, pad) = panel_split(view, height);
    let (area, start, stop) = drawn_area(view, files, height);
    let x0: usize = base + right.saturating_sub(6);
    let (file_rows, actions, stage_all_row) = file_targets(
        &view.flat,
        &area,
        start,
        stop,
        x0,
        base + right,
    );
    let history_rows = drawn_history(view, height, stop - start, history, pad);
    GitLayout {
        divider,
        height,
        right_width: right,
        commit_row: COMMIT_BOX_INPUT,
        commit_box_top: COMMIT_BOX_TOP,
        commit_x0: base,
        commit_x1: base + right,
        commit_button_row: COMMIT_BOX_TOP + COMMIT_BOX_HEIGHT,
        commit_button_x0: base,
        commit_button_x1: base + button,
        menu_button_x0: base + button,
        menu_button_x1: base + right,
        close_button: if view.diff.is_some() || view.show_log || view.show_branches {
            Some((0, 0))
        } else {
            None
        },
        file_rows,
        actions,
        stage_all_row,
        history_rows,
        menu_rows: menu_targets(view.commit_menu.is_some()),
        confirm_rows: confirm_targets(view.confirm.is_some(), base),
    }
}

/// Lays the dashboard out on a screen: scrolls the selections into view and
/// notes where the controls stand.
pub fn lay_out(view: &mut GitView, columns: usize, rows: usize)
    requires
        old(view).status.countable(),
        columns >= 40,
        rows >= 10,
    ensures
        final(view)@ == laid_out(old(view)@, Screen::of(columns, rows)),
{
    let (files, history, _pad) = panel_split(view, rows - 1);
    view.ensure_selection_visible(files);
    view.ensure_history_visible(history);
    assert(view@ == scrolled_into_view(old(view)@, files as nat, history as nat));
    let layout = computed_layout(view, columns, rows);
    view.layout = layout;
}

/// The panel takes about a third of a wide screen, within bounds, and leaves
/// room for what stands left of it.
pub proof fn panels_leave_room(screen: Screen)
    requires
        screen.columns >= 40,
        screen.rows >= 10,
    ensures
        20 <= panel_columns(screen.columns) <= 44,
        screen.columns >= 60 ==> panel_columns(screen.columns) >= 30,
        screen.divider() + 1 + screen.right() == screen.columns,
        screen.divider() >= 20,
        screen.height() == screen.rows - 1,
{
}

/// What the pointer can hit lies where it is drawn: the buttons of the message
/// beside each other in the panel, the answers of a question where one is
/// asked, and the menu where it is open.
pub proof fn targets_lie_where_they_are_drawn(v: ViewModel, screen: Screen)
    requires
        40 <= screen.columns <= 10000,
        10 <= screen.rows <= 10000,
        button_columns(screen.right()) <= screen.right(),
    ensures
        ({
            let l = layout_of(v, screen);
            &&& l.divider == screen.divider() && l.right_width == screen.right()
            &&& l.commit_button_x0 == l.divider + 1 && l.commit_button_x1 == l.menu_button_x0
                && l.menu_button_x1 == l.divider + 1 + l.right_width
            &&& l.confirm_rows.len() > 0 <==> v.confirm is Some
            &&& l.menu_rows.len() > 0 <==> v.commit_menu is Some
            &&& l.close_button is Some <==> v.diff is Some || v.show_log || v.show_branches
            &&& v.commit_menu is Some ==> l.menu_rows.len() == 4 && forall|k: int|
                0 <= k < 4 ==> (#[trigger] l.menu_rows[k]).1 == k
            &&& v.confirm is Some ==> l.confirm_rows.len() == 2 && l.confirm_rows[0].confirm
                && !l.confirm_rows[1].confirm && l.confirm_rows[0].x1 <= l.confirm_rows[1].x0
        }),
{
}

/// A selected file and a selected commit are scrolled into sight; what is in
/// sight stays where it is.
pub proof fn selections_are_scrolled_into_sight(v: ViewModel, files: nat, history: nat)
    requires
        0 < history <= 10000,
        v.history_selected < v.history.len() <= 10000,
        v.history_scroll <= 10000,
    ensures
        ({
            let now = scrolled_into_view(v, files, history);
            &&& now.history_scroll <= v.history_selected < now.history_scroll + history
            &&& v.history_scroll <= v.history_selected < v.history_scroll + history
                ==> now.history_scroll == v.history_scroll
            &&& now.selected == v.selected && now.flat == v.flat
        }),
{
}

} // verus!
