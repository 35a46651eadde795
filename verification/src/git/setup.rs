//! The setup that is shown outside a work tree.

use vstd::prelude::*;
use crate::events::{Event, EventModel, Key};
use crate::git::input::{join_lines, on_one_line};
use crate::git::jobs::{GitInitFlow, GitState, InitModel, StateModel, Task};
use crate::git::line::{edited, inserted, line_edit, line_insert, Line};
use crate::git::panel::{commit_visible_text, rule, ruled, shown_cursor, visible_part};
use crate::markdown::{
    fit_width, fitted, lines_of, repeat, sanitize_plain, sanitized, spaces, truncate_visible,
    truncated,
};
use crate::rows::{
    at_least, at_most, blank_rows, larger, minus, place_row, placed, push_blank_rows, smaller,
};
use crate::style::{hidden_cursor, status, status_style, UiColor};
use crate::text::{cat2, cat3, chars_of};

verus! {

broadcast use vstd::string::group_string_axioms;

// ---------------------------------------------------------------------------
// Events

/// The setup after its line was edited. Typing takes a stale error away.
pub open spec fn setup_keyed(flow: InitModel, key: Key) -> InitModel {
    match edited(Line { text: flow.remote, cursor: flow.cursor }, key) {
        Some(line) => InitModel { remote: line.text, cursor: line.cursor, error: None, ..flow },
        None => InitModel { error: None, ..flow },
    }
}

/// The state after an event: `Enter` starts the first commit, `Escape` closes
/// the setup, and what is typed or pasted goes into the remote.
pub open spec fn setup_evented(s: StateModel, event: EventModel) -> StateModel {
    if event == EventModel::Key(Key::Ctrl('c')) && s.job is Some {
        s.cancel()
    } else {
        match s.init {
            None => s,
            Some(flow) => match event {
                EventModel::Paste(text) => {
                    let line = inserted(
                        Line { text: flow.remote, cursor: flow.cursor },
                        on_one_line(text),
                    );
                    StateModel {
                        init: Some(
                            InitModel {
                                remote: line.text,
                                cursor: line.cursor,
                                error: None,
                                ..flow
                            },
                        ),
                        ..s
                    }
                },
                EventModel::Key(Key::Escape) => StateModel { init: None, ..s.cancel() },
                EventModel::Key(Key::Enter) => s.start(Task::Initialize),
                EventModel::Key(key) => StateModel { init: Some(setup_keyed(flow, key)), ..s },
                _ => s,
            },
        }
    }
}

pub fn handle_init_event(state: &mut GitState, event: Event)
    ensures
        final(state)@ == setup_evented(old(state)@, event@),
{
    match &event {
        Event::Key(Key::Ctrl(c)) => {
            if *c == 'c' {
                let running = state.cancel();
                if running {
                    return;
                }
                assert(state@ == old(state)@);
            }
        },
        _ => {},
    }
    if state.git_init.is_none() {
        return;
    }
    match event {
        Event::Paste(text) => {
            let clean = join_lines(text.as_str());
            match &mut state.git_init {
                Some(flow) => {
                    line_insert(&mut flow.remote, &mut flow.cursor, clean.as_str());
                    flow.error = None;
                },
                None => {},
            }
        },
        Event::Key(Key::Escape) => {
            let _running = state.cancel();
            state.git_init = None;
        },
        Event::Key(Key::Enter) => {
            let _started = state.start(Task::Initialize);
        },
        Event::Key(key) => {
            match &mut state.git_init {
                Some(flow) => {
                    let _edited = line_edit(&mut flow.remote, &mut flow.cursor, key);
                    flow.error = None;
                },
                None => {},
            }
        },
        _ => {},
    }
}

// ---------------------------------------------------------------------------
// The screen

/// The width of the box.
pub open spec fn box_columns(columns: nat) -> nat {
    at_most(at_least(minus(columns, 4), 30), 68)
}

pub open spec fn box_inner(columns: nat) -> nat {
    at_least(minus(box_columns(columns), 2), 10)
}

/// The columns of the line that is edited.
pub open spec fn field_columns(inner: nat) -> nat {
    at_least(minus(inner, 4), 8)
}

/// The row that shows the last error, or what the setup will run.
pub open spec fn info_line(flow: InitModel, inner: nat) -> Seq<char> {
    match flow.error {
        Some(error) => "\x1b[1;31m│ "@ + truncated(sanitized(error), at_least(minus(inner, 2), 8))
            + "\x1b[0m"@,
        None => "\x1b[2m"@ + truncated(
            "│ Runs: init · seed README · commit · branch main · push -u origin main"@,
            at_least(inner, 8),
        ) + "\x1b[0m"@,
    }
}

/// The lines of the box.
pub open spec fn box_lines(flow: InitModel, inner: nat) -> Seq<Seq<char>> {
    seq![
        ruled("\x1b[2m╭─ Initialize git repository "@, inner, "╮\x1b[0m"@),
        "│ "@ + truncated(
            sanitized("Not a git repository: "@ + flow.dir),
            at_least(minus(inner, 2), 8),
        ),
        truncated("│ Remote URL (empty = local repository only):"@, at_least(inner, 8)),
        "│ > "@ + sanitized(visible_part(flow.remote, flow.cursor, field_columns(inner))),
        info_line(flow, inner),
        ruled("\x1b[2m╰─ Enter initialize · Esc cancel "@, inner, "╯\x1b[0m"@),
    ]
}

/// A row of the screen with a line of the box in its middle.
pub open spec fn box_row(line: Seq<char>, columns: nat) -> Seq<char> {
    let width = box_columns(columns);
    let left = minus(columns, width) / 2;
    spaces(left) + fitted(line, width) + spaces(minus(columns, left + width))
}

/// The first row of the box.
pub open spec fn box_first(rows: nat) -> nat {
    minus(rows / 2, 3)
}

/// The screen with the first lines of the box in its middle. The last row is
/// left for the hint.
pub open spec fn boxed(lines: Seq<Seq<char>>, columns: nat, rows: nat) -> Seq<Seq<char>>
    decreases lines.len(),
{
    if lines.len() == 0 {
        blank_rows(columns, rows)
    } else {
        let above = boxed(lines.drop_last(), columns, rows);
        let row = box_first(rows) + lines.len() - 1;
        if row < rows - 1 {
            placed(above, row as nat, box_row(lines.last(), columns), columns)
        } else {
            above
        }
    }
}

/// The screen of the setup.
pub open spec fn setup_rows(flow: InitModel, accent: UiColor, columns: nat, rows: nat) -> Seq<
    Seq<char>,
> {
    placed(
        boxed(box_lines(flow, box_inner(columns)), columns, rows),
        (rows - 1) as nat,
        fitted(
            status(accent)
                + " Enter initialize · Esc cancel (empty URL = local-only repository)"@
                + "\x1b[0m"@,
            columns,
        ),
        columns,
    )
}

/// Where the cursor stands in the remote, counted from one.
pub open spec fn setup_cursor(flow: InitModel, columns: nat, rows: nat) -> (nat, nat) {
    let left = minus(columns, box_columns(columns)) / 2;
    (
        box_first(rows) + 4,
        at_most(
            left + 5 + shown_cursor(flow.remote, flow.cursor, field_columns(box_inner(columns))),
            minus(columns, 1),
        ),
    )
}

fn render_info(flow: &GitInitFlow, inner: usize) -> (r: String)
    ensures
        r@ == info_line(flow@, inner as nat),
{
    match &flow.error {
        Some(error) => {
            let text = truncate_visible(
                sanitize_plain(error.as_str()).as_str(),
                larger(inner.saturating_sub(2), 8),
            );
            cat3("\x1b[1;31m│ ", text.as_str(), "\x1b[0m")
        },
        None => {
            let text = truncate_visible(
                "│ Runs: init · seed README · commit · branch main · push -u origin main",
                larger(inner, 8),
            );
            cat3("\x1b[2m", text.as_str(), "\x1b[0m")
        },
    }
}

fn render_box(flow: &GitInitFlow, inner: usize) -> (r: Vec<String>)
    ensures
        lines_of(r@) == box_lines(flow@, inner as nat),
        r@.len() == 6,
{
    let place = cat2("Not a git repository: ", flow.dir.as_str());
    let shown_place = truncate_visible(
        sanitize_plain(place.as_str()).as_str(),
        larger(inner.saturating_sub(2), 8),
    );
    let part = commit_visible_text(
        flow.remote.as_str(),
        flow.cursor,
        larger(inner.saturating_sub(4), 8),
    );
    let mut lines: Vec<String> = Vec::new();
    lines.push(rule("\x1b[2m╭─ Initialize git repository ", inner, "╮\x1b[0m"));
    lines.push(cat2("│ ", shown_place.as_str()));
    lines.push(
        truncate_visible("│ Remote URL (empty = local repository only):", larger(inner, 8)),
    );
    lines.push(cat2("│ > ", sanitize_plain(part.as_str()).as_str()));
    lines.push(render_info(flow, inner));
    lines.push(rule("\x1b[2m╰─ Enter initialize · Esc cancel ", inner, "╯\x1b[0m"));
    assert(lines_of(lines@) =~= box_lines(flow@, inner as nat));
    lines
}

fn render_box_row(line: &str, columns: usize) -> (r: String)
    ensures
        r@ == box_row(line@, columns as nat),
{
    let width: usize = smaller(larger(columns.saturating_sub(4), 30), 68);
    let left: usize = columns.saturating_sub(width) / 2;
    let trailing: usize = columns.saturating_sub(left.saturating_add(width));
    cat3(
        repeat(' ', left).as_str(),
        fit_width(line, width).as_str(),
        repeat(' ', trailing).as_str(),
    )
}

fn render_boxed(lines: &Vec<String>, columns: usize, rows: usize) -> (r: Vec<String>)
    requires
        rows >= 10,
        lines@.len() <= 6,
    ensures
        lines_of(r@) == boxed(lines_of(lines@), columns as nat, rows as nat),
{
    let first: usize = (rows / 2).saturating_sub(3);
    let ghost all = lines_of(lines@);
    let mut frame: Vec<String> = Vec::new();
    push_blank_rows(&mut frame, columns, rows);
    assert(lines_of(frame@) =~= blank_rows(columns as nat, rows as nat));
    let mut i: usize = 0;
    assert(all.take(0) =~= Seq::empty());
    while i < lines.len()
        invariant
            i <= lines@.len() <= 6,
            rows >= 10,
            first as nat == box_first(rows as nat),
            all == lines_of(lines@),
            lines_of(frame@) == boxed(all.take(i as int), columns as nat, rows as nat),
        decreases lines@.len() - i,
    {
        assert(all.take(i + 1).drop_last() =~= all.take(i as int));
        let row: usize = first + i;
        if row < rows - 1 {
            place_row(&mut frame, row, render_box_row(lines[i].as_str(), columns), columns);
        }
        i += 1;
    }
    assert(all.take(i as int) =~= all);
    frame
}

/// Draws the setup on a screen; a blank one where no setup is open.
pub fn render_init(state: &GitState, accent: UiColor, columns: usize, rows: usize) -> (r: (
    Vec<String>,
    (usize, usize),
))
    ensures
        ({
            let columns = at_least(columns as nat, 40);
            let rows = at_least(rows as nat, 10);
            match state@.init {
                Some(flow) => {
                    &&& lines_of(r.0@) == setup_rows(flow, accent, columns, rows)
                    &&& (r.1.0 as nat, r.1.1 as nat) == setup_cursor(flow, columns, rows)
                },
                None => lines_of(r.0@) == blank_rows(columns, rows) && r.1 == (0usize, 0usize),
            }
        }),
{
    let columns: usize = larger(columns, 40);
    let rows: usize = larger(rows, 10);
    match &state.git_init {
        None => {
            let mut frame: Vec<String> = Vec::new();
            push_blank_rows(&mut frame, columns, rows);
            assert(lines_of(frame@) =~= blank_rows(columns as nat, rows as nat));
            (frame, hidden_cursor())
        },
        Some(flow) => {
            let width: usize = smaller(larger(columns.saturating_sub(4), 30), 68);
            let left: usize = columns.saturating_sub(width) / 2;
            let inner: usize = larger(width.saturating_sub(2), 10);
            let field: usize = larger(inner.saturating_sub(4), 8);
            let lines = render_box(flow, inner);
            let mut frame = render_boxed(&lines, columns, rows);
            let text = cat3(
                status_style(accent).as_str(),
                " Enter initialize · Esc cancel (empty URL = local-only repository)",
                "\x1b[0m",
            );
            place_row(&mut frame, rows - 1, fit_width(text.as_str(), columns), columns);
            let len: usize = chars_of(flow.remote.as_str()).len();
            let shown: usize = if len <= field {
                if flow.cursor < len {
                    flow.cursor
                } else {
                    len
                }
            } else {
                let part = commit_visible_text(flow.remote.as_str(), flow.cursor, field);
                chars_of(part.as_str()).len()
            };
            let first: usize = (rows / 2).saturating_sub(3);
            let column: usize = smaller((left + 5).saturating_add(shown), columns - 1);
            (frame, (first + 4, column))
        },
    }
}

/// Typing after a failure takes the error away, and a second `Enter` tries
/// again with what was typed.
pub proof fn failed_setup_is_retried(s: StateModel, key: Key)
    requires
        s.init is Some,
        s.job is None,
        key != Key::Escape,
        key != Key::Enter,
    ensures
        ({
            let typed = setup_evented(s, EventModel::Key(key));
            let again = setup_evented(typed, EventModel::Key(Key::Enter));
            &&& typed.init is Some && typed.init->0.error is None
            &&& again.job is Some && again.job->0.task == Task::Initialize
            &&& again.init == typed.init
        }),
{
}

/// Enter makes the repository with the address that was typed, and nothing else
/// does; Escape leaves the setup. A key edits the address.
pub proof fn enter_sets_up(s: StateModel, flow: InitModel, key: Key)
    requires
        s.init == Some(flow),
        s.job is None,
        s.next_job < u64::MAX,
    ensures
        ({
            let now = setup_evented(s, EventModel::Key(key));
            &&& now.job is Some <==> key == Key::Enter
            &&& key == Key::Enter ==> now.job->0.task == Task::Initialize && now.init == s.init
            &&& now.init is None <==> key == Key::Escape
            &&& key != Key::Enter && key != Key::Escape ==> {
                let line = Line { text: flow.remote, cursor: flow.cursor };
                let typed = match edited(line, key) {
                    Some(typed) => typed,
                    None => line,
                };
                &&& now.init->0.remote == typed.text && now.init->0.cursor == typed.cursor
                &&& now.init->0.dir == flow.dir
            }
        }),
{
}

/// What is pasted stands in the address, as one line.
pub proof fn addresses_are_pasted(s: StateModel, flow: InitModel, text: Seq<char>)
    requires
        s.init == Some(flow),
        s.job is None,
        flow.cursor == flow.remote.len(),
        !text.contains('\n'),
        flow.remote.len() + text.len() < usize::MAX,
    ensures
        setup_evented(s, EventModel::Paste(text)).init->0.remote == flow.remote + text,
{
    assert(on_one_line(text) =~= text) by {
        assert forall|i: int| 0 <= i < text.len() implies #[trigger] on_one_line(text)[i]
            == text[i] by {
            assert(text.contains(text[i]));
        }
    }
    crate::git::line::only_line_feeds_are_left_out(text);
    assert(setup_evented(s, EventModel::Paste(text)).init->0.remote =~= flow.remote + text);
}

} // verus!
