//! The screen of the dashboard.

use vstd::prelude::*;
use crate::git::diff::{countable, pane, render_diff_pane, shown_from, shows_lines};
use crate::git::jobs::{GitState, JobModel, StateModel, Task};
use crate::git::layout::{laid_out, lay_out, panel_split, panel_width, view_rows, Screen};
use crate::git::panel::{
    commit_cursor_position, confirm_message, cursor_position, listed, panel, question,
    render_right, Palette,
};
use crate::git::view::{DiffModel, EntryModel, GitFocus, GitView, HistoryEntry, ViewModel};
use crate::markdown::{
    ansi_after, ansi_after_join, columns, fit_width, fitted, fitted_is_exact, lines_of, reset,
    reset_is_hidden, sanitize_plain, sanitized, sgr, sgr_is_hidden, stripped, total_columns,
    total_columns_join, Ansi,
};
use crate::rows::{
    at_least, at_most, blank_rows, larger, minus, push_blank_rows, push_row, size_rows, sized,
    smaller,
};
use crate::style::{
    hidden_cursor, painted, selected_row, selection, selection_style, status, status_style,
};
use crate::text::{cat2, cat3, cat4, cat5, chars_of};

verus! {

broadcast use vstd::string::group_string_axioms;

// ---------------------------------------------------------------------------
// The hint

/// What the keys do at the moment.
pub open spec fn view_hint(v: ViewModel) -> Seq<char> {
    match v.confirm {
        Some(confirm) => " "@ + question(confirm) + " Enter confirms · Esc keeps it"@,
        None => if v.show_branches {
            " ↑↓ select · Enter switch · n new from message box · b/Esc close"@
        } else {
            match v.focus {
                GitFocus::Commit =>
                    " Type message · Enter commit · Ctrl+G commit · Esc files · Tab panels"@,
                GitFocus::Diff =>
                    " ↑↓/PgUp/PgDn scroll · Space stage/unstage · Enter/Esc close diff"@,
                GitFocus::History => " ↑↓ select commit · Enter view · Tab message · Esc files"@,
                GitFocus::Files => if v.show_log {
                    " ↑↓ scroll log · l/Esc close · r refresh"@
                } else if v.diff is Some {
                    " ↑↓ files · Enter preview · Space/+/- stage · d discard · Tab panels · Esc close diff"@
                } else {
                    " ↑↓ move · Enter diff · Space/+/- stage · a all · d discard · Tab panels · e message · C commit · v menu · p push · b branches · l log · s stash · Esc close"@
                },
            }
        },
    }
}

/// The hint: the running operation, or else what the keys do.
pub open spec fn hint(job: Option<JobModel>, v: ViewModel) -> Seq<char> {
    match job {
        Some(job) if job.task.title().len() > 0 => job.task.title() + "  Ctrl+C cancels"@,
        _ => view_hint(v),
    }
}

fn view_hint_line(view: &GitView) -> (r: String)
    ensures
        r@ == view_hint(view@),
{
    match &view.confirm {
        Some(confirm) => cat3(
            " ",
            confirm_message(confirm).as_str(),
            " Enter confirms · Esc keeps it",
        ),
        None => if view.show_branches {
            " ↑↓ select · Enter switch · n new from message box · b/Esc close".to_owned()
        } else {
            match view.focus {
                GitFocus::Commit =>
                    " Type message · Enter commit · Ctrl+G commit · Esc files · Tab panels".to_owned(),
                GitFocus::Diff =>
                    " ↑↓/PgUp/PgDn scroll · Space stage/unstage · Enter/Esc close diff".to_owned(),
                GitFocus::History =>
                    " ↑↓ select commit · Enter view · Tab message · Esc files".to_owned(),
                GitFocus::Files => if view.show_log {
                    " ↑↓ scroll log · l/Esc close · r refresh".to_owned()
                } else if view.diff.is_some() {
                    " ↑↓ files · Enter preview · Space/+/- stage · d discard · Tab panels · Esc close diff".to_owned()
                } else {
                    " ↑↓ move · Enter diff · Space/+/- stage · a all · d discard · Tab panels · e message · C commit · v menu · p push · b branches · l log · s stash · Esc close".to_owned()
                },
            }
        },
    }
}

/// The hint below a dashboard while an operation runs, or none.
pub fn hint_line(job: Option<Task>, view: &GitView) -> (r: String)
    ensures
        r@ == match job {
            Some(task) if task.title().len() > 0 => task.title() + "  Ctrl+C cancels"@,
            _ => view_hint(view@),
        },
{
    match job {
        Some(task) => {
            let label = task.label();
            let n: usize = chars_of(label).len();
            if n > 0 {
                return cat2(label, "  Ctrl+C cancels");
            }
        },
        None => {},
    }
    view_hint_line(view)
}

// ---------------------------------------------------------------------------
// The left side

pub open spec fn branch_line(v: ViewModel, p: Palette, index: int, width: nat) -> Seq<char> {
    let selected = index == v.branch_selected;
    let row = fitted(
        (if selected {
            "›"@
        } else {
            " "@
        }) + " "@ + (if v.branches[index] == v.status.branch {
            "● "@
        } else {
            "  "@
        }) + sanitized(v.branches[index]),
        width,
    );
    if selected {
        painted(row, selection(p.selection))
    } else {
        row
    }
}

/// The list of branches.
pub open spec fn branch_rows(v: ViewModel, p: Palette, width: nat, height: nat) -> Seq<Seq<char>> {
    let heading = seq![
        fitted(
            "\x1b[1mBranches\x1b[0m \x1b[2mEnter switch · n new from message · Esc close\x1b[0m"@,
            width,
        ),
    ];
    let body = if v.branches.len() == 0 {
        seq![fitted("\x1b[2mNo branches found.\x1b[0m"@, width)]
    } else {
        Seq::new(v.branches.len(), |i: int| branch_line(v, p, i, width))
    };
    sized(heading + body, width, height)
}

pub fn render_branches(view: &GitView, p: Palette, width: usize, height: usize) -> (r: Vec<String>)
    ensures
        lines_of(r@) == branch_rows(view@, p, width as nat, height as nat),
{
    let mut rows: Vec<String> = Vec::new();
    push_row(
        &mut rows,
        fit_width(
            "\x1b[1mBranches\x1b[0m \x1b[2mEnter switch · n new from message · Esc close\x1b[0m",
            width,
        ),
    );
    let ghost heading = lines_of(rows@);
    assert(heading =~= seq![
        fitted(
            "\x1b[1mBranches\x1b[0m \x1b[2mEnter switch · n new from message · Esc close\x1b[0m"@,
            width as nat,
        ),
    ]);
    let n: usize = view.branches.len();
    if n == 0 {
        push_row(&mut rows, fit_width("\x1b[2mNo branches found.\x1b[0m", width));
        assert(lines_of(rows@) =~= heading + seq![
            fitted("\x1b[2mNo branches found.\x1b[0m"@, width as nat),
        ]);
    } else {
        let style = selection_style(p.selection);
        let ghost all = Seq::new(
            view@.branches.len(),
            |i: int| branch_line(view@, p, i, width as nat),
        );
        let mut i: usize = 0;
        assert(lines_of(rows@) =~= heading + all.take(0));
        while i < n
            invariant
                i <= n,
                n == view.branches@.len(),
                style@ == selection(p.selection),
                all == Seq::new(
                    view@.branches.len(),
                    |i: int| branch_line(view@, p, i, width as nat),
                ),
                lines_of(rows@) == heading + all.take(i as int),
            decreases n - i,
        {
            assert(view@.branches[i as int] == view.branches@[i as int]@);
            let selected = i == view.branch_selected;
            let marker = if selected {
                "›"
            } else {
                " "
            };
            let mark = if view.branches[i] == view.status.branch {
                "● "
            } else {
                "  "
            };
            let text = cat4(marker, " ", mark, sanitize_plain(view.branches[i].as_str()).as_str());
            let row = fit_width(text.as_str(), width);
            let drawn = if selected {
                selected_row(row.as_str(), style.as_str())
            } else {
                row
            };
            push_row(&mut rows, drawn);
            i += 1;
            assert(lines_of(rows@) =~= heading + all.take(i as int));
        }
        assert(all.take(n as int) =~= all);
    }
    size_rows(&mut rows, width, height);
    rows
}

pub open spec fn log_line(entry: EntryModel, width: nat) -> Seq<char> {
    fitted(
        sanitized(entry.short) + " "@ + sanitized(entry.subject) + " "@ + (if entry.refs.len()
            == 0 {
            ""@
        } else {
            "("@ + sanitized(entry.refs) + ")"@
        }),
        width,
    )
}

/// The first commit of the log that is shown.
pub open spec fn log_top(v: ViewModel, height: nat) -> nat {
    at_most(v.log_scroll as nat, minus(v.history.len(), minus(height, 1)))
}

/// The log.
pub open spec fn log_rows(v: ViewModel, width: nat, height: nat) -> Seq<Seq<char>> {
    let heading = seq![
        fitted("\x1b[1mLog\x1b[0m \x1b[2m↑↓ scroll · l/Esc close\x1b[0m"@, width),
    ];
    let body = if v.history.len() == 0 {
        seq![fitted("\x1b[2mNo commits yet.\x1b[0m"@, width)]
    } else {
        let top = log_top(v, height);
        Seq::new(
            at_most(minus(height, 1), minus(v.history.len(), top)),
            |i: int| log_line(v.history[top + i], width),
        )
    };
    sized(heading + body, width, height)
}

fn render_log_line(entry: &HistoryEntry, width: usize) -> (r: String)
    ensures
        r@ == log_line(entry@, width as nat),
{
    let n: usize = chars_of(entry.refs.as_str()).len();
    let refs = if n == 0 {
        "".to_owned()
    } else {
        cat3("(", sanitize_plain(entry.refs.as_str()).as_str(), ")")
    };
    let text = cat5(
        sanitize_plain(entry.short.as_str()).as_str(),
        " ",
        sanitize_plain(entry.subject.as_str()).as_str(),
        " ",
        refs.as_str(),
    );
    fit_width(text.as_str(), width)
}

/// Draws the log. A scroll position past the bottom is brought back to it, so
/// that scrolling stops there and turns at once.
pub fn render_log(view: &mut GitView, width: usize, height: usize) -> (r: Vec<String>)
    ensures
        lines_of(r@) == log_rows(old(view)@, width as nat, height as nat),
        final(view)@ == (ViewModel {
            log_scroll: if old(view)@.history.len() == 0 {
                old(view)@.log_scroll
            } else {
                log_top(old(view)@, height as nat) as usize
            },
            ..old(view)@
        }),
{
    let mut rows: Vec<String> = Vec::new();
    push_row(
        &mut rows,
        fit_width("\x1b[1mLog\x1b[0m \x1b[2m↑↓ scroll · l/Esc close\x1b[0m", width),
    );
    let ghost heading = lines_of(rows@);
    assert(heading =~= seq![
        fitted("\x1b[1mLog\x1b[0m \x1b[2m↑↓ scroll · l/Esc close\x1b[0m"@, width as nat),
    ]);
    let total: usize = view.history.len();
    if total == 0 {
        push_row(&mut rows, fit_width("\x1b[2mNo commits yet.\x1b[0m", width));
        assert(lines_of(rows@) =~= heading + seq![
            fitted("\x1b[2mNo commits yet.\x1b[0m"@, width as nat),
        ]);
    } else {
        let body: usize = height.saturating_sub(1);
        let top: usize = smaller(view.log_scroll, total.saturating_sub(body));
        view.log_scroll = top;
        let n: usize = smaller(body, total - top);
        let ghost v = view@;
        let ghost all = Seq::new(n as nat, |i: int| log_line(v.history[top + i], width as nat));
        let mut i: usize = 0;
        assert(lines_of(rows@) =~= heading + all.take(0));
        while i < n
            invariant
                i <= n,
                top + n <= total,
                total == view.history@.len(),
                v == view@,
                all == Seq::new(n as nat, |i: int| log_line(v.history[top + i], width as nat)),
                lines_of(rows@) == heading + all.take(i as int),
            decreases n - i,
        {
            assert(v.history[top + i] == view.history@[top + i]@);
            push_row(&mut rows, render_log_line(&view.history[top + i], width));
            i += 1;
            assert(lines_of(rows@) =~= heading + all.take(i as int));
        }
        assert(all.take(n as int) =~= all);
        assert(all =~= Seq::new(
            at_most(
                minus(height as nat, 1),
                minus(old(view)@.history.len(), log_top(old(view)@, height as nat)),
            ),
            |i: int|
                log_line(old(view)@.history[log_top(old(view)@, height as nat) + i], width as nat),
        ));
    }
    size_rows(&mut rows, width, height);
    rows
}

/// The transcript behind the panel, at the bottom of the screen.
pub open spec fn transcript_rows(transcript: Seq<Seq<char>>, width: nat, height: nat) -> Seq<
    Seq<char>,
> {
    let rows = transcript.map_values(|row: Seq<char>| fitted(row, width));
    if rows.len() < height {
        blank_rows(width, (height - rows.len()) as nat) + rows
    } else {
        rows.take(height as int)
    }
}

fn render_transcript(transcript: &Vec<String>, width: usize, height: usize) -> (r: Vec<String>)
    ensures
        lines_of(r@) == transcript_rows(lines_of(transcript@), width as nat, height as nat),
{
    let ghost all = lines_of(transcript@).map_values(|row: Seq<char>| fitted(row, width as nat));
    let total: usize = transcript.len();
    let n: usize = smaller(total, height);
    let mut rows: Vec<String> = Vec::new();
    push_blank_rows(&mut rows, width, height.saturating_sub(total));
    let ghost above = lines_of(rows@);
    assert(above =~= blank_rows(width as nat, minus(height as nat, total as nat)));
    let mut i: usize = 0;
    assert(lines_of(rows@) =~= above + all.take(0));
    while i < n
        invariant
            i <= n,
            n <= transcript@.len(),
            all == lines_of(transcript@).map_values(|row: Seq<char>| fitted(row, width as nat)),
            lines_of(rows@) == above + all.take(i as int),
        decreases n - i,
    {
        push_row(&mut rows, fit_width(transcript[i].as_str(), width));
        i += 1;
        assert(lines_of(rows@) =~= above + all.take(i as int));
    }
    assert(lines_of(rows@) =~= transcript_rows(
        lines_of(transcript@),
        width as nat,
        height as nat,
    ));
    rows
}

/// What stands left of the panel: the branches, the log, the open diff, or
/// else the transcript.
pub open spec fn left_rows(
    v: ViewModel,
    p: Palette,
    transcript: Seq<Seq<char>>,
    width: nat,
    height: nat,
) -> Seq<Seq<char>> {
    if v.show_branches {
        branch_rows(v, p, width, height)
    } else if v.show_log {
        log_rows(v, width, height)
    } else {
        match v.diff {
            Some(diff) => pane(diff, width, height),
            None => transcript_rows(transcript, width, height),
        }
    }
}

/// The dashboard after the left side was drawn: scroll positions are brought
/// inside what they scroll.
pub open spec fn left_drawn(v: ViewModel, width: nat, height: nat) -> ViewModel {
    if v.show_branches {
        v
    } else if v.show_log {
        ViewModel {
            log_scroll: if v.history.len() == 0 {
                v.log_scroll
            } else {
                log_top(v, height) as usize
            },
            ..v
        }
    } else {
        match v.diff {
            Some(diff) => ViewModel {
                diff: Some(
                    DiffModel {
                        scroll: if shows_lines(diff) {
                            shown_from(diff, width, height) as usize
                        } else {
                            diff.scroll
                        },
                        ..diff
                    },
                ),
                ..v
            },
            None => v,
        }
    }
}

/// Whether a dashboard can be drawn, as every dashboard in memory can: all
/// files are listed, and the rows of the diff can be counted.
pub open spec fn drawable(v: ViewModel) -> bool {
    listed(v) && (v.diff matches Some(diff) ==> countable(diff))
}

pub fn render_left(
    view: &mut GitView,
    p: Palette,
    transcript: &Vec<String>,
    width: usize,
    height: usize,
) -> (r: Vec<String>)
    requires
        drawable(old(view)@),
    ensures
        lines_of(r@) == left_rows(
            old(view)@,
            p,
            lines_of(transcript@),
            width as nat,
            height as nat,
        ),
        final(view)@ == left_drawn(old(view)@, width as nat, height as nat),
{
    if view.show_branches {
        return render_branches(view, p, width, height);
    }
    if view.show_log {
        return render_log(view, width, height);
    }
    match &mut view.diff {
        Some(diff) => render_diff_pane(diff, width, height),
        None => render_transcript(transcript, width, height),
    }
}

// ---------------------------------------------------------------------------
// The screen

/// Two sides with the divider between them.
pub open spec fn beside(left: Seq<char>, right: Seq<char>, left_width: nat, right_width: nat) -> Seq<
    char,
> {
    fitted(left, left_width) + "\x1b[2m│\x1b[0m"@ + fitted(right, right_width)
}

/// The whole screen: the two sides, and the hint on the last row.
pub open spec fn screen_rows(
    v: ViewModel,
    job: Option<JobModel>,
    p: Palette,
    transcript: Seq<Seq<char>>,
    screen: Screen,
) -> Seq<Seq<char>> {
    let shown = laid_out(v, screen);
    let height = screen.height();
    let (files, history, pad) = view_rows(v, height);
    let left = left_rows(shown, p, transcript, screen.divider(), height);
    let right = panel(shown, p, screen.right(), height, files, history, pad);
    Seq::new(height, |i: int| beside(left[i], right[i], screen.divider(), screen.right())).push(
        fitted(status(p.accent) + hint(job, shown) + "\x1b[0m"@, screen.columns),
    )
}

/// The dashboard after it was drawn.
pub open spec fn drawn(v: ViewModel, screen: Screen) -> ViewModel {
    left_drawn(laid_out(v, screen), screen.divider(), screen.height())
}

/// Where the cursor stands: in the message box while it is edited, and hidden
/// otherwise.
pub open spec fn screen_cursor(v: ViewModel, screen: Screen) -> (nat, nat) {
    let shown = laid_out(v, screen);
    if v.focus == GitFocus::Commit && v.confirm is None {
        cursor_position(
            screen.divider(),
            shown.layout.commit_row as nat,
            v.commit,
            v.commit_cursor,
            at_least(minus(screen.right(), 4), 1),
            screen.columns,
        )
    } else {
        (0, 0)
    }
}

/// Every pane that can stand left of the panel is as high as it.
proof fn left_is_high_enough(
    v: ViewModel,
    p: Palette,
    transcript: Seq<Seq<char>>,
    width: nat,
    height: nat,
)
    ensures
        left_rows(v, p, transcript, width, height).len() == height,
{
}

fn join_sides(
    left: &Vec<String>,
    right: &Vec<String>,
    left_width: usize,
    right_width: usize,
) -> (r: Vec<String>)
    requires
        left@.len() == right@.len(),
    ensures
        lines_of(r@) == Seq::new(
            left@.len(),
            |i: int|
                beside(
                    lines_of(left@)[i],
                    lines_of(right@)[i],
                    left_width as nat,
                    right_width as nat,
                ),
        ),
{
    let ghost all = Seq::new(
        left@.len(),
        |i: int|
            beside(
                lines_of(left@)[i],
                lines_of(right@)[i],
                left_width as nat,
                right_width as nat,
            ),
    );
    let mut r: Vec<String> = Vec::new();
    let mut i: usize = 0;
    assert(lines_of(r@) =~= all.take(0));
    while i < left.len()
        invariant
            i <= left@.len(),
            left@.len() == right@.len(),
            all == Seq::new(
                left@.len(),
                |i: int|
                    beside(
                        lines_of(left@)[i],
                        lines_of(right@)[i],
                        left_width as nat,
                        right_width as nat,
                    ),
            ),
            lines_of(r@) == all.take(i as int),
        decreases left@.len() - i,
    {
        let a = fit_width(left[i].as_str(), left_width);
        let b = fit_width(right[i].as_str(), right_width);
        let row = cat3(a.as_str(), "\x1b[2m│\x1b[0m", b.as_str());
        assert(row@ == all[i as int]);
        push_row(&mut r, row);
        i += 1;
        assert(lines_of(r@) =~= all.take(i as int));
    }
    assert(all.take(i as int) =~= all);
    r
}

fn render_cursor(view: &GitView, right: usize, divider: usize, columns: usize) -> (r: (
    usize,
    usize,
))
    requires
        view.layout.commit_row < usize::MAX,
    ensures
        (r.0 as nat, r.1 as nat) == if view@.focus == GitFocus::Commit && view@.confirm is None {
            cursor_position(
                divider as nat,
                view@.layout.commit_row as nat,
                view@.commit,
                view@.commit_cursor,
                at_least(minus(right as nat, 4), 1),
                columns as nat,
            )
        } else {
            (0nat, 0nat)
        },
{
    if view.focus == GitFocus::Commit && view.confirm.is_none() {
        let width: usize = larger(right.saturating_sub(4), 1);
        commit_cursor_position(
            divider,
            view.layout.commit_row,
            view.commit.as_str(),
            view.commit_cursor,
            width,
            columns,
        )
    } else {
        hidden_cursor()
    }
}

/// Draws the panel of a dashboard that is laid out.
fn render_panel(
    view: &GitView,
    p: Palette,
    split: (usize, usize, usize),
    right: usize,
    height: usize,
) -> (r: Vec<String>)
    requires
        listed(view@),
    ensures
        lines_of(r@) == panel(
            view@,
            p,
            right as nat,
            height as nat,
            split.0 as nat,
            split.1 as nat,
            split.2 as nat,
        ),
        r@.len() == height,
{
    let r = render_right(view, p, right, height, split.0, split.1, split.2);
    assert(lines_of(r@).len() == height);
    r
}

fn render_view(
    view: &mut GitView,
    job: Option<Task>,
    p: Palette,
    transcript: &Vec<String>,
    columns: usize,
    rows: usize,
) -> (r: (Vec<String>, (usize, usize)))
    requires
        drawable(old(view)@),
        columns >= 40,
        rows >= 10,
    ensures
        forall|job_model: Option<JobModel>|
            job == (match job_model {
                Some(j) => Some(j.task),
                None => None::<Task>,
            }) ==> lines_of(r.0@) == #[trigger] screen_rows(
                old(view)@,
                job_model,
                p,
                lines_of(transcript@),
                Screen::of(columns, rows),
            ),
        (r.1.0 as nat, r.1.1 as nat) == screen_cursor(old(view)@, Screen::of(columns, rows)),
        final(view)@ == drawn(old(view)@, Screen::of(columns, rows)),
{
    let ghost screen = Screen::of(columns, rows);
    let right: usize = smaller(panel_width(columns), columns - 21);
    let divider: usize = columns - right - 1;
    let height: usize = rows - 1;
    let split = panel_split(view, height);
    lay_out(view, columns, rows);
    let ghost shown = view@;
    let cursor = render_cursor(view, right, divider, columns);
    let hint_text = hint_line(job, view);
    let right_rows = render_panel(view, p, split, right, height);
    let left = render_left(view, p, transcript, divider, height);
    proof {
        left_is_high_enough(shown, p, lines_of(transcript@), divider as nat, height as nat);
        assert(lines_of(left@).len() == height);
    }
    let mut frame = join_sides(&left, &right_rows, divider, right);
    let style = status_style(p.accent);
    let text = cat3(style.as_str(), hint_text.as_str(), "\x1b[0m");
    push_row(&mut frame, fit_width(text.as_str(), columns));
    proof {
        assert forall|job_model: Option<JobModel>|
            job == (match job_model {
                Some(j) => Some(j.task),
                None => None::<Task>,
            }) implies lines_of(frame@) == #[trigger] screen_rows(
            old(view)@,
            job_model,
            p,
            lines_of(transcript@),
            screen,
        ) by {
            assert(lines_of(frame@) =~= screen_rows(
                old(view)@,
                job_model,
                p,
                lines_of(transcript@),
                screen,
            ));
        }
    }
    (frame, cursor)
}

/// Draws the dashboard on a screen; a blank one where no dashboard is open.
pub fn render(
    state: &mut GitState,
    p: Palette,
    transcript: &Vec<String>,
    columns: usize,
    rows: usize,
) -> (r: (Vec<String>, (usize, usize)))
    requires
        old(state)@.view matches Some(v) ==> drawable(v),
    ensures
        match old(state)@.view {
            Some(v) => {
                let screen = Screen::of(columns, rows);
                &&& lines_of(r.0@) == screen_rows(
                    v,
                    old(state)@.job,
                    p,
                    lines_of(transcript@),
                    screen,
                )
                &&& (r.1.0 as nat, r.1.1 as nat) == screen_cursor(v, screen)
                &&& final(state)@ == (StateModel { view: Some(drawn(v, screen)), ..old(state)@ })
            },
            None => {
                let screen = Screen::of(columns, rows);
                &&& lines_of(r.0@) == blank_rows(screen.columns, screen.rows)
                &&& r.1 == (0usize, 0usize)
                &&& final(state)@ == old(state)@
            },
        },
{
    let columns: usize = larger(columns, 40);
    let rows: usize = larger(rows, 10);
    let job = match &state.git_job {
        Some(job) => Some(job.task),
        None => None,
    };
    match &mut state.git_view {
        Some(view) => render_view(view, job, p, transcript, columns, rows),
        None => {
            let mut frame: Vec<String> = Vec::new();
            push_blank_rows(&mut frame, columns, rows);
            assert(lines_of(frame@) =~= blank_rows(columns as nat, rows as nat));
            (frame, hidden_cursor())
        },
    }
}

// ---------------------------------------------------------------------------
// Laws

/// Drawing fills the screen: there is a row for each row of it.
pub proof fn screen_is_filled(
    v: ViewModel,
    job: Option<JobModel>,
    p: Palette,
    transcript: Seq<Seq<char>>,
    screen: Screen,
)
    requires
        screen.rows >= 1,
    ensures
        screen_rows(v, job, p, transcript, screen).len() == screen.rows,
{
}

/// Drawing changes nothing but scroll positions and the layout.
pub proof fn drawing_only_scrolls(v: ViewModel, screen: Screen)
    ensures
        ({
            let after = drawn(v, screen);
            &&& after.status == v.status && after.flat == v.flat && after.selected == v.selected
            &&& after.focus == v.focus && after.commit == v.commit && after.commit_cursor
                == v.commit_cursor
            &&& after.history == v.history && after.history_selected == v.history_selected
            &&& after.confirm == v.confirm && after.commit_menu == v.commit_menu
            &&& after.notice == v.notice && after.mouse_position == v.mouse_position
            &&& (after.diff is Some) == (v.diff is Some)
            &&& v.diff is Some ==> after.diff->Some_0.lines == v.diff->Some_0.lines
        }),
{
}

/// Scrolling the log stops at the bottom: drawing brings the position inside
/// the log, where drawing again leaves it, so that turning back moves at once.
pub proof fn log_stops_at_the_bottom(v: ViewModel, width: nat, height: nat)
    requires
        v.show_log,
        !v.show_branches,
        v.history.len() > 0,
    ensures
        ({
            let after = left_drawn(v, width, height);
            &&& after.log_scroll <= minus(v.history.len(), minus(height, 1))
            &&& left_drawn(after, width, height) == after
            &&& log_rows(after, width, height) == log_rows(v, width, height)
        }),
{
}

/// Every row is as wide as the screen, counting the divider between the two
/// sides as one column.
pub proof fn rows_are_as_wide_as_the_screen(
    v: ViewModel,
    job: Option<JobModel>,
    p: Palette,
    transcript: Seq<Seq<char>>,
    screen: Screen,
    i: int,
)
    requires
        columns(' ') == 1,
        screen.rows >= 1,
        screen.columns >= 40,
        0 <= i < screen.rows,
    ensures
        ({
            let row = screen_rows(v, job, p, transcript, screen)[i];
            &&& ansi_after(row) == Ansi::Text
            &&& total_columns(stripped(row)) == (if i == screen.rows - 1 {
                screen.columns as int
            } else {
                screen.columns - 1 + columns('│')
            })
        }),
{
    if i == screen.rows - 1 {
        let shown = laid_out(v, screen);
        fitted_is_exact(status(p.accent) + hint(job, shown) + "\x1b[0m"@, screen.columns);
    } else {
        let shown = laid_out(v, screen);
        let height = screen.height();
        let (files, history, pad) = view_rows(v, height);
        let left = left_rows(shown, p, transcript, screen.divider(), height)[i];
        let right = panel(shown, p, screen.right(), height, files, history, pad)[i];
        let a = fitted(left, screen.divider());
        let b = fitted(right, screen.right());
        let bar = "\x1b[2m│\x1b[0m"@;
        fitted_is_exact(left, screen.divider());
        fitted_is_exact(right, screen.right());
        divider_is_one_character();
        ansi_after_join(a, bar);
        ansi_after_join(a + bar, b);
        total_columns_join(stripped(a), stripped(bar));
        total_columns_join(stripped(a + bar), stripped(b));
        assert(beside(left, right, screen.divider(), screen.right()) =~= a + bar + b);
    }
}

proof fn divider_is_one_character()
    ensures
        ansi_after("\x1b[2m│\x1b[0m"@) == Ansi::Text,
        stripped("\x1b[2m│\x1b[0m"@) == seq!['│'],
        total_columns(seq!['│']) == columns('│'),
{
    let bar = "\x1b[2m│\x1b[0m"@;
    reveal_strlit("\x1b[2m│\x1b[0m");
    sgr_is_hidden(seq!['2']);
    reset_is_hidden();
    reveal_strlit("\x1b[0m");
    let dim = sgr(seq!['2']);
    let mark = seq!['│'];
    assert(mark.drop_last() =~= Seq::empty());
    reveal_with_fuel(stripped, 2);
    reveal_with_fuel(ansi_after, 2);
    reveal_with_fuel(total_columns, 2);
    assert(stripped(mark) =~= mark);
    ansi_after_join(dim, mark);
    ansi_after_join(dim + mark, reset());
    assert(bar =~= dim + mark + reset());
    assert(stripped(bar) =~= mark);
}

} // verus!
