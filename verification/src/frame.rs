//! The parts of the main view: the composer, the menu under it, and the room
//! that is left for the conversation.

use vstd::prelude::*;
use vstd::utf8::encode_utf8;
use crate::completion::{
    completion_window, menu, menu_rows, pairs, sync_completion_filter, waits_for_files,
    CompletionModel, CompletionState, COMPLETION_MENU_ROWS,
};
use crate::editor::{cursor_is_inside, masked, text_rows, Editor, EditorModel};
use crate::markdown::{
    fit_width, fitted, lines_of, repeat, repeated, spaces, visible_columns,
};
use crate::model::option_view;
use crate::picker::picker_is_plan_handoff;
use crate::questions::{
    bounded_cursor, bounded_input_view, bounded_rows, focus_of, handoff_focus, handoff_rows,
    inside, place_of, question_view, render_plan_handoff_input, render_question_input, ActiveQuestion,
    QuestionModel,
};
use crate::rows::{at_least, at_most, larger, minus, push_row, rows_between, smaller};
use crate::state::{picker_is_secret, state_model, StateModel, ViewState};
use crate::style::{
    foreground, foreground_color, painted, selected_row, selection, selection_style, status,
    status_style, UiColor,
};
use crate::text::{cat2, cat3, cat4, cat5, cat7, cat8, chars_of, count_of, decimal, same};

verus! {

broadcast use vstd::string::group_string_axioms;

// ---------------------------------------------------------------------------
// Images

/// The pictures that a terminal can show.
#[derive(Clone, Copy, Debug, PartialEq, Eq, Structural)]
pub enum ImageSupport {
    Nothing,
    Png,
    All,
}

impl ImageSupport {
    pub fn accepts(self, media_type: &str) -> (r: bool)
        ensures
            r == match self {
                ImageSupport::Nothing => false,
                ImageSupport::Png => media_type@ == "image/png"@,
                ImageSupport::All => media_type@ == "image/png"@ || media_type@ == "image/jpeg"@
                    || media_type@ == "image/gif"@ || media_type@ == "image/webp"@,
            },
    {
        match self {
            ImageSupport::Nothing => false,
            ImageSupport::Png => same(media_type, "image/png"),
            ImageSupport::All => same(media_type, "image/png") || same(media_type, "image/jpeg")
                || same(media_type, "image/gif") || same(media_type, "image/webp"),
        }
    }
}

// ---------------------------------------------------------------------------
// Views

/// The views that may lie over the conversation.
#[derive(Clone, Copy, Debug)]
pub struct Overlays {
    pub git_init: bool,
    pub process_view: bool,
    pub git_view: bool,
    pub subagent_view: bool,
    pub viewer_open: bool,
}

/// The view that is drawn.
#[derive(Clone, Copy, Debug, PartialEq, Eq, Structural)]
pub enum Front {
    GitInit,
    Processes,
    Git,
    Subagents,
    BlockViewer,
    Conversation,
}

/// The view in front of the others.
pub open spec fn front_of(open: Overlays) -> Front {
    if open.git_init {
        Front::GitInit
    } else if open.process_view {
        Front::Processes
    } else if open.git_view {
        Front::Git
    } else if open.subagent_view {
        Front::Subagents
    } else if open.viewer_open {
        Front::BlockViewer
    } else {
        Front::Conversation
    }
}

pub fn front(open: Overlays) -> (r: Front)
    ensures
        r == front_of(open),
{
    if open.git_init {
        Front::GitInit
    } else if open.process_view {
        Front::Processes
    } else if open.git_view {
        Front::Git
    } else if open.subagent_view {
        Front::Subagents
    } else if open.viewer_open {
        Front::BlockViewer
    } else {
        Front::Conversation
    }
}

// ---------------------------------------------------------------------------
// Borders

/// The upper border of the composer, with a label where it has room. A label
/// takes the room of its bytes.
pub open spec fn top_border(width: nat, label: Option<Seq<char>>) -> Seq<char> {
    match label {
        None => repeated('─', width),
        Some(text) => if encode_utf8(text).len() + 3 > width {
            repeated('─', width)
        } else {
            "─ "@ + text + " "@ + repeated('─', (width - encode_utf8(text).len() - 3) as nat)
        },
    }
}

pub fn composer_top_border(width: usize, label: Option<&str>) -> (r: String)
    ensures
        r@ == top_border(
            width as nat,
            match label {
                Some(text) => Some(text@),
                None => None,
            },
        ),
{
    match label {
        None => repeat('─', width),
        Some(text) => {
            let n: usize = text.as_bytes().len();
            if width < 3 || n > width - 3 {
                return repeat('─', width);
            }
            cat4("─ ", text, " ", repeat('─', width - n - 3).as_str())
        },
    }
}

/// The lower border, with a hint where a key queues the message.
pub open spec fn bottom_border(width: nat, hint: bool) -> Seq<char> {
    if hint {
        repeated('─', minus(width, 12)) + " Tab queues "@
    } else {
        repeated('─', width)
    }
}

pub(crate) fn composer_bottom_border(width: usize, hint: bool) -> (r: String)
    ensures
        r@ == bottom_border(width as nat, hint),
{
    if hint {
        cat2(repeat('─', width.saturating_sub(12)).as_str(), " Tab queues ")
    } else {
        repeat('─', width)
    }
}

// ---------------------------------------------------------------------------
// Work in the background

/// The two colors of the notice.
pub open spec fn cyan() -> UiColor {
    UiColor { red: 116, green: 199, blue: 213 }
}

pub open spec fn amber() -> UiColor {
    UiColor { red: 232, green: 202, blue: 118 }
}

pub open spec fn square(a: u8, b: u8) -> int {
    (a - b) * (a - b)
}

/// How far apart two colors look: red weighs more in light colors, blue in
/// dark ones, and green most.
pub open spec fn color_distance(a: UiColor, b: UiColor) -> int {
    let mean = (a.red + b.red) / 2;
    ((512 + mean) * square(a.red, b.red)) / 256 + 4 * square(a.green, b.green) + ((767 - mean)
        * square(a.blue, b.blue)) / 256
}

fn squared_delta(a: u8, b: u8) -> (r: u32)
    ensures
        r == square(a, b),
        r <= 65025,
{
    let d: u32 = if a < b {
        (b - a) as u32
    } else {
        (a - b) as u32
    };
    assert(d * d <= 65025 && d * d == (a - b) * (a - b)) by (nonlinear_arith)
        requires
            d <= 255,
            d == a - b || d == b - a,
    ;
    d * d
}

pub fn perceptual_color_distance(left: UiColor, right: UiColor) -> (r: u32)
    ensures
        r == color_distance(left, right),
{
    let mean: u32 = (left.red as u32 + right.red as u32) / 2;
    let red: u32 = squared_delta(left.red, right.red);
    let green: u32 = squared_delta(left.green, right.green);
    let blue: u32 = squared_delta(left.blue, right.blue);
    assert(0 <= (512 + mean) * red <= 767 * 65025) by (nonlinear_arith)
        requires
            mean <= 255,
            red <= 65025,
    ;
    assert(0 <= (767 - mean) * blue <= 767 * 65025) by (nonlinear_arith)
        requires
            mean <= 255,
            blue <= 65025,
    ;
    ((512 + mean) * red) / 256 + 4 * green + ((767 - mean) * blue) / 256
}

/// The notice has the one of its two colors that differs more from the accent.
pub open spec fn notice_color(accent: UiColor) -> UiColor {
    if color_distance(accent, cyan()) >= color_distance(accent, amber()) {
        cyan()
    } else {
        amber()
    }
}

pub fn background_notice_color(accent: UiColor) -> (r: UiColor)
    ensures
        r == notice_color(accent),
{
    let first = UiColor::new(116, 199, 213);
    let second = UiColor::new(232, 202, 118);
    if perceptual_color_distance(accent, first) >= perceptual_color_distance(accent, second) {
        first
    } else {
        second
    }
}

pub open spec fn background_notice(count: nat, width: nat, accent: UiColor) -> Seq<char> {
    let color = notice_color(accent);
    if width < 48 {
        fitted(
            " "@ + foreground(color) + "\x1b[1m"@ + decimal(count) + " bg\x1b[22m "@ + status(color)
                + "running · /ps\x1b[0m"@,
            width,
        )
    } else {
        fitted(
            " "@ + foreground(color) + "●  \x1b[1m"@ + decimal(count) + (if count == 1 {
                " background terminal"@
            } else {
                " background terminals"@
            }) + "\x1b[22m "@ + status(color) + "running  ·  /ps to view\x1b[0m"@,
            width,
        )
    }
}

pub fn render_background_process_notice(count: usize, width: usize, accent: UiColor) -> (r: String)
    ensures
        r@ == background_notice(count as nat, width as nat, accent),
{
    let color = background_notice_color(accent);
    let bright = foreground_color(color);
    let dim = status_style(color);
    let number = count_of(count);
    if width < 48 {
        let text = cat7(
            " ",
            bright.as_str(),
            "\x1b[1m",
            number.as_str(),
            " bg\x1b[22m ",
            dim.as_str(),
            "running · /ps\x1b[0m",
        );
        return fit_width(text.as_str(), width);
    }
    let noun = if count == 1 {
        " background terminal"
    } else {
        " background terminals"
    };
    let text = cat8(
        " ",
        bright.as_str(),
        "●  \x1b[1m",
        number.as_str(),
        noun,
        "\x1b[22m ",
        dim.as_str(),
        "running  ·  /ps to view\x1b[0m",
    );
    fit_width(text.as_str(), width)
}

// ---------------------------------------------------------------------------
// The menu under the composer

/// A text filled up with spaces to a number of characters.
pub open spec fn filled(text: Seq<char>, n: nat) -> Seq<char> {
    text + spaces(minus(n, text.len()))
}

fn fill(text: &str, n: usize) -> (r: String)
    ensures
        r@ == filled(text@, n as nat),
{
    let count: usize = chars_of(text).len();
    cat2(text, repeat(' ', n.saturating_sub(count)).as_str())
}

pub open spec fn entry_row(
    entry: (Seq<char>, Seq<char>),
    selected: bool,
    columns: nat,
    color: UiColor,
) -> Seq<char> {
    let line = fitted("  "@ + filled(entry.0, 18) + " "@ + entry.1, columns);
    if selected {
        painted(line, selection(color))
    } else {
        line
    }
}

/// The first entry of a menu that is shown: the selected one is among them.
pub open spec fn window_start(count: nat, selected: nat, capacity: nat) -> nat {
    if count == 0 || capacity == 0 {
        0
    } else {
        minus(at_most(selected, (count - 1) as nat) + 1, at_most(capacity, count))
    }
}

pub open spec fn window_end(count: nat, selected: nat, capacity: nat) -> nat {
    if count == 0 || capacity == 0 {
        0
    } else {
        window_start(count, selected, capacity) + at_most(capacity, count)
    }
}

pub open spec fn rest_text(count: nat, wraps_to: Seq<char>) -> Seq<char> {
    if count > 0 {
        decimal(count) + " more"@
    } else {
        "wraps to "@ + wraps_to
    }
}

fn describe_rest(count: usize, wraps_to: &str) -> (r: String)
    ensures
        r@ == rest_text(count as nat, wraps_to@),
{
    if count > 0 {
        cat2(count_of(count).as_str(), " more")
    } else {
        cat2("wraps to ", wraps_to)
    }
}

/// The row above the entries of a menu that is longer than its room.
pub open spec fn above_row(above: nat, columns: nat, accent: UiColor) -> Seq<char> {
    fitted(
        "  "@ + foreground(accent) + "↑\x1b[0m \x1b[2m"@ + rest_text(above, "end"@)
            + "\x1b[0m"@,
        columns,
    )
}

/// The row below them.
pub open spec fn below_row(below: nat, selected: nat, count: nat, columns: nat, accent: UiColor) -> Seq<
    char,
> {
    fitted(
        "  "@ + foreground(accent) + "↓\x1b[0m \x1b[2m"@ + rest_text(below, "start"@) + " · "@
            + decimal(selected + 1) + "/"@ + decimal(count) + "\x1b[0m"@,
        columns,
    )
}

pub open spec fn entry_rows(
    entries: Seq<(Seq<char>, Seq<char>)>,
    selected: nat,
    start: nat,
    end: nat,
    columns: nat,
    color: UiColor,
) -> Seq<Seq<char>> {
    Seq::new(
        minus(end, start),
        |i: int| entry_row(entries[start + i], start + i == selected, columns, color),
    )
}

/// The rows of a menu of which a number of entries have room.
#[verifier::opaque]
pub open spec fn menu_view(
    entries: Seq<(Seq<char>, Seq<char>)>,
    selected: nat,
    capacity: nat,
    columns: nat,
    color: UiColor,
    accent: UiColor,
) -> Seq<Seq<char>> {
    let start = window_start(entries.len(), selected, capacity);
    let end = window_end(entries.len(), selected, capacity);
    let rows = entry_rows(entries, selected, start, end, columns, color);
    if entries.len() > end - start {
        seq![above_row(start, columns, accent)] + rows + seq![
            below_row((entries.len() - end) as nat, selected, entries.len(), columns, accent),
        ]
    } else {
        rows
    }
}

fn render_entries(
    entries: &Vec<(String, String)>,
    selected: usize,
    start: usize,
    end: usize,
    columns: usize,
    color: UiColor,
    lines: &mut Vec<String>,
)
    requires
        start <= end <= entries@.len(),
    ensures
        lines_of(final(lines)@) == lines_of(old(lines)@) + entry_rows(
            pairs(entries@),
            selected as nat,
            start as nat,
            end as nat,
            columns as nat,
            color,
        ),
{
    let ghost all = entry_rows(
        pairs(entries@),
        selected as nat,
        start as nat,
        end as nat,
        columns as nat,
        color,
    );
    let style = selection_style(color);
    let mut i: usize = start;
    assert(lines_of(lines@) =~= lines_of(old(lines)@) + all.take(0));
    while i < end
        invariant
            start <= i <= end <= entries@.len(),
            all == entry_rows(
                pairs(entries@),
                selected as nat,
                start as nat,
                end as nat,
                columns as nat,
                color,
            ),
            style@ == selection(color),
            lines_of(lines@) == lines_of(old(lines)@) + all.take(i - start),
        decreases end - i,
    {
        assert(pairs(entries@)[i as int] == (entries@[i as int].0@, entries@[i as int].1@));
        let label = fill(entries[i].0.as_str(), 18);
        let text = cat4("  ", label.as_str(), " ", entries[i].1.as_str());
        let line = fit_width(text.as_str(), columns);
        let row = if i == selected {
            selected_row(line.as_str(), style.as_str())
        } else {
            line
        };
        assert(row@ == all[i - start]);
        push_row(lines, row);
        i += 1;
        assert(lines_of(lines@) =~= lines_of(old(lines)@) + all.take(i - start));
    }
    assert(all.take(end - start) =~= all);
}

/// Draws a menu; see `menu_view`.
pub fn render_menu(
    entries: &Vec<(String, String)>,
    selected: usize,
    capacity: usize,
    columns: usize,
    color: UiColor,
    accent: UiColor,
) -> (r: Vec<String>)
    requires
        entries@.len() > 0 ==> selected < entries@.len(),
    ensures
        lines_of(r@) == menu_view(
            pairs(entries@),
            selected as nat,
            capacity as nat,
            columns as nat,
            color,
            accent,
        ),
{
    proof {
        reveal(menu_view);
    }
    let count: usize = entries.len();
    assert(pairs(entries@).len() == count);
    let window = completion_window(count, selected, capacity);
    let start: usize = window.start;
    let end: usize = window.end;
    assert(start as nat == window_start(count as nat, selected as nat, capacity as nat));
    assert(end as nat == window_end(count as nat, selected as nat, capacity as nat));
    let mut lines: Vec<String> = Vec::new();
    let cut = count > end - start;
    let hue = foreground_color(accent);
    let ghost head: Seq<Seq<char>> = if cut {
        seq![above_row(start as nat, columns as nat, accent)]
    } else {
        Seq::empty()
    };
    assert(lines_of(lines@) =~= Seq::empty());
    if cut {
        let rest = describe_rest(start, "end");
        let text = cat5("  ", hue.as_str(), "↑\x1b[0m \x1b[2m", rest.as_str(), "\x1b[0m");
        push_row(&mut lines, fit_width(text.as_str(), columns));
    }
    assert(lines_of(lines@) =~= head);
    render_entries(entries, selected, start, end, columns, color, &mut lines);
    if cut {
        let rest = describe_rest(count - end, "start");
        let place = cat3(
            count_of(selected + 1).as_str(),
            "/",
            count_of(count).as_str(),
        );
        let text = cat7(
            "  ",
            hue.as_str(),
            "↓\x1b[0m \x1b[2m",
            rest.as_str(),
            " · ",
            place.as_str(),
            "\x1b[0m",
        );
        assert(text@ =~= "  "@ + foreground(accent) + "↓\x1b[0m \x1b[2m"@ + rest_text(
            (count - end) as nat,
            "start"@,
        ) + " · "@ + decimal((selected + 1) as nat) + "/"@ + decimal(count as nat) + "\x1b[0m"@);
        push_row(&mut lines, fit_width(text.as_str(), columns));
    }
    assert(lines_of(lines@) =~= menu_view(
        pairs(entries@),
        selected as nat,
        capacity as nat,
        columns as nat,
        color,
        accent,
    ));
    lines
}

// ---------------------------------------------------------------------------
// What stands in the composer

/// A search in the conversation.
#[derive(Debug)]
pub struct Search {
    pub query: String,
    /// The match that is shown, counted from one, and how many there are.
    pub position: Option<(usize, usize)>,
}

pub struct SearchModel {
    pub query: Seq<char>,
    pub position: Option<(usize, usize)>,
}

impl View for Search {
    type V = SearchModel;

    open spec fn view(&self) -> SearchModel {
        SearchModel { query: self.query@, position: self.position }
    }
}

/// What is shown around the conversation.
#[derive(Debug)]
pub struct FrameParts {
    pub question: Option<ActiveQuestion>,
    /// The processes that run in the background.
    pub background: usize,
    pub status_line: Option<String>,
    pub search: Option<Search>,
    /// Something was copied a moment ago.
    pub copied: bool,
}

pub struct PartsModel {
    pub question: Option<QuestionModel>,
    pub background: nat,
    pub status_line: Option<Seq<char>>,
    pub search: Option<SearchModel>,
    pub copied: bool,
}

impl View for FrameParts {
    type V = PartsModel;

    open spec fn view(&self) -> PartsModel {
        PartsModel {
            question: option_view(self.question),
            background: self.background as nat,
            status_line: option_view(self.status_line),
            search: option_view(self.search),
            copied: self.copied,
        }
    }
}

pub open spec fn one_if(holds: bool) -> nat {
    if holds {
        1
    } else {
        0
    }
}

impl PartsModel {
    /// The rows under the composer.
    pub open spec fn below(self) -> nat {
        one_if(self.background > 0) + one_if(self.status_line is Some)
    }

    pub open spec fn search_rows(self) -> nat {
        one_if(self.search is Some)
    }
}

/// The rows that the composer may take, and that a question may take.
pub open spec fn most_input(rows: nat) -> nat {
    at_least(rows / 3, 1)
}

pub open spec fn most_question(parts: PartsModel, rows: nat) -> nat {
    at_least(minus(rows, 2 + parts.below() + parts.search_rows()), 1)
}

/// The part of a long message that is shown: the row of the cursor is in it.
pub open spec fn message_start(count: nat, row: nat, most: nat) -> nat {
    at_most(minus(row + 1, most), minus(count, most))
}

pub struct InputView {
    pub rows: Seq<Seq<char>>,
    pub cursor: Option<(nat, nat)>,
}

/// A message in the composer.
pub open spec fn message_view(text: Seq<char>, at: int, inner: nat, most: nat) -> InputView {
    let rows = text_rows(text, inner);
    let before = text_rows(text.take(at), inner);
    let start = message_start(rows.len(), (before.len() - 1) as nat, most);
    InputView {
        rows: rows.subrange(start as int, at_most(start + most, rows.len()) as int),
        cursor: Some(((before.len() - 1 - start) as nat, visible_columns(before.last()))),
    }
}

/// The menu that hands a plan over stands in the composer.
pub open spec fn hands_over(s: StateModel) -> bool {
    s.picker is Some && s.picker->0.is_handoff()
}

/// What stands in the composer: a question, the menu that hands a plan over, or
/// the message.
#[verifier::opaque]
pub open spec fn input_view(
    s: StateModel,
    e: EditorModel,
    parts: PartsModel,
    inner: nat,
    rows: nat,
) -> InputView {
    match parts.question {
        Some(question) => {
            let view = question_view(question, inner, s.selection_color, rows <= 10);
            let focus = focus_of(view.cursor, view.focus);
            let most = most_question(parts, rows);
            InputView {
                rows: bounded_rows(view.rows, focus, most),
                cursor: bounded_cursor(view.cursor, view.rows.len(), focus, most),
            }
        },
        None => if hands_over(s) {
            let picker = s.picker->0;
            InputView {
                rows: bounded_rows(
                    handoff_rows(picker, inner, s.selection_color, rows <= 10),
                    handoff_focus(picker, inner, s.selection_color, rows <= 10),
                    most_input(rows),
                ),
                cursor: None,
            }
        } else {
            message_view(
                if s.is_secret() {
                    masked(e.text)
                } else {
                    e.text
                },
                e.at(),
                inner,
                most_input(rows),
            )
        },
    }
}

fn render_message(state: &ViewState, editor: &Editor, inner: usize, most: usize) -> (r: (
    Vec<String>,
    Option<(usize, usize)>,
))
    requires
        most > 0,
    ensures
        ({
            let text = if state@.is_secret() {
                masked(editor@.text)
            } else {
                editor@.text
            };
            let view = message_view(text, editor@.at(), inner as nat, most as nat);
            &&& lines_of(r.0@) == view.rows
            &&& place_of(r.1) == view.cursor
            &&& r.0@.len() <= most
            &&& inside(place_of(r.1), r.0@.len())
        }),
{
    let secret = picker_is_secret(state);
    let layout = if secret {
        editor.masked_layout(inner)
    } else {
        editor.layout(inner)
    };
    let ghost text = if state@.is_secret() {
        masked(editor@.text)
    } else {
        editor@.text
    };
    proof {
        cursor_is_inside(text, editor@.at(), inner as nat);
    }
    let count: usize = layout.lines.len();
    assert(lines_of(layout.lines@).len() == count);
    let row: usize = layout.cursor_row;
    let start: usize = smaller(
        row.saturating_add(1).saturating_sub(most),
        count.saturating_sub(most),
    );
    let end: usize = if most < count - start {
        start + most
    } else {
        count
    };
    let lines = rows_between(&layout.lines, start, end);
    assert(lines_of(lines@).len() == lines@.len());
    (lines, Some((row - start, layout.cursor_col)))
}

fn render_input(
    state: &ViewState,
    editor: &Editor,
    parts: &FrameParts,
    inner: usize,
    rows: usize,
) -> (r: (Vec<String>, Option<(usize, usize)>))
    requires
        rows >= 8,
        parts.question is Some ==> parts.question->0.options@.len() < usize::MAX,
    ensures
        ({
            let view = input_view(state@, editor@, parts@, inner as nat, rows as nat);
            &&& lines_of(r.0@) == view.rows
            &&& place_of(r.1) == view.cursor
            &&& r.0@.len() + 2 + parts@.below() + parts@.search_rows() <= rows
            &&& inside(place_of(r.1), r.0@.len())
        }),
{
    proof {
        reveal(input_view);
        reveal(state_model);
    }
    let compact = rows <= 10;
    let most: usize = larger(rows / 3, 1);
    match &parts.question {
        Some(question) => {
            let (lines, cursor, focus) = render_question_input(
                question,
                inner,
                state.selection_color,
                compact,
            );
            assert(lines_of(lines@).len() == lines@.len());
            let mut taken: usize = 2;
            if parts.background > 0 {
                taken = taken + 1;
            }
            if parts.status_line.is_some() {
                taken = taken + 1;
            }
            if parts.search.is_some() {
                taken = taken + 1;
            }
            proof {
                crate::questions::question_cursor_is_inside(
                    question@,
                    inner as nat,
                    state@.selection_color,
                    compact,
                );
            }
            bounded_input_view(lines, cursor, focus, larger(rows.saturating_sub(taken), 1))
        },
        None => {
            match &state.picker {
                Some(picker) => {
                    if picker_is_plan_handoff(picker) {
                        let (lines, focus) = render_plan_handoff_input(
                            picker,
                            inner,
                            state.selection_color,
                            compact,
                        );
                        assert(lines_of(lines@).len() == lines@.len());
                        return bounded_input_view(lines, None, focus, most);
                    }
                },
                None => {},
            }
            render_message(state, editor, inner, most)
        },
    }
}

// ---------------------------------------------------------------------------
// The plan of a frame

/// The measures of a frame and the parts of it that do not depend on the
/// conversation.
#[derive(Debug)]
pub struct FramePlan {
    pub columns: usize,
    pub rows: usize,
    pub input: Vec<String>,
    /// The place of the cursor in the composer.
    pub cursor: Option<(usize, usize)>,
    pub menu: Vec<String>,
    /// The rows that are left for the conversation.
    pub transcript_height: usize,
}

pub struct PlanModel {
    pub columns: nat,
    pub rows: nat,
    pub input: Seq<Seq<char>>,
    pub cursor: Option<(nat, nat)>,
    pub menu: Seq<Seq<char>>,
    pub transcript_height: nat,
}

impl View for FramePlan {
    type V = PlanModel;

    open spec fn view(&self) -> PlanModel {
        PlanModel {
            columns: self.columns as nat,
            rows: self.rows as nat,
            input: lines_of(self.input@),
            cursor: place_of(self.cursor),
            menu: lines_of(self.menu@),
            transcript_height: self.transcript_height as nat,
        }
    }
}

impl PlanModel {
    /// What the composer and the menu take.
    pub open spec fn fixed_rows(self, parts: PartsModel) -> nat {
        self.input.len() + 2 + self.menu.len() + parts.search_rows() + parts.below()
    }

    /// A plan that leaves the conversation what the rest does not take, and
    /// whose cursor stands in the composer.
    pub open spec fn wf(self, parts: PartsModel) -> bool {
        &&& self.columns >= 20
        &&& self.rows >= 8
        &&& self.transcript_height == minus(self.rows, self.fixed_rows(parts))
        &&& self.input.len() + 2 + parts.below() + parts.search_rows() <= self.rows
        &&& inside(self.cursor, self.input.len())
    }
}

/// The menu is shown where neither a picker nor a question is open.
pub open spec fn shows_menu(s: StateModel, parts: PartsModel) -> bool {
    s.picker is None && parts.question is None
}

/// The menu of the composer, with the selection among its entries.
#[verifier::opaque]
pub open spec fn menu_synced(s: StateModel, e: EditorModel, c: CompletionModel, parts: PartsModel) -> (
    Seq<(Seq<char>, Seq<char>)>,
    CompletionModel,
) {
    if shows_menu(s, parts) {
        let synced = c.synced(e);
        let entries = menu(synced, e);
        (
            entries,
            if entries.len() > 0 {
                CompletionModel {
                    index: at_most(synced.index as nat, (entries.len() - 1) as nat) as usize,
                    ..synced
                }
            } else {
                synced
            },
        )
    } else {
        (Seq::empty(), c)
    }
}

/// The columns that a row of the composer has on a screen.
pub open spec fn composer_columns(columns: nat) -> nat {
    (at_least(columns, 20) - 2) as nat
}

pub fn composer_width(columns: usize) -> (r: usize)
    ensures
        r as nat == composer_columns(columns as nat),
{
    larger(columns, 20) - 2
}

#[verifier::opaque]
pub open spec fn planned(
    s: StateModel,
    e: EditorModel,
    c: CompletionModel,
    parts: PartsModel,
    columns: nat,
    rows: nat,
) -> (PlanModel, CompletionModel) {
    let width = at_least(columns, 20);
    let height = at_least(rows, 8);
    let input = input_view(s, e, parts, composer_columns(columns), height);
    let (entries, completion) = menu_synced(s, e, c, parts);
    let room = at_most(
        COMPLETION_MENU_ROWS as nat,
        minus(height, input.rows.len() + 2 + parts.below()),
    );
    let list = menu_view(
        entries,
        completion.index as nat,
        room,
        width,
        s.selection_color,
        s.accent_color,
    );
    (
        PlanModel {
            columns: width,
            rows: height,
            input: input.rows,
            cursor: input.cursor,
            menu: list,
            transcript_height: minus(
                height,
                input.rows.len() + 2 + list.len() + parts.search_rows() + parts.below(),
            ),
        },
        completion,
    )
}

fn sync_menu(
    state: &ViewState,
    editor: &Editor,
    completion: &mut CompletionState,
    parts: &FrameParts,
) -> (r: Vec<(String, String)>)
    requires
        old(completion).wf(),
        shows_menu(state@, parts@) ==> !waits_for_files(old(completion)@, editor@),
    ensures
        ({
            let (entries, after) = menu_synced(state@, editor@, old(completion)@, parts@);
            &&& pairs(r@) == entries
            &&& final(completion)@ == after
        }),
        final(completion).wf(),
        r@.len() > 0 ==> final(completion)@.index < r@.len(),
{
    proof {
        reveal(state_model);
        reveal(menu_synced);
    }
    if state.picker.is_some() || parts.question.is_some() {
        let none: Vec<(String, String)> = Vec::new();
        assert(pairs(none@) =~= Seq::empty());
        return none;
    }
    sync_completion_filter(completion, editor);
    let entries = menu_rows(completion, editor);
    let count: usize = entries.len();
    assert(pairs(entries@).len() == count);
    if count > 0 {
        completion.completion_index = smaller(completion.completion_index, count - 1);
    }
    entries
}

fn draw_menu(
    state: &ViewState,
    entries: &Vec<(String, String)>,
    selected: usize,
    room: usize,
    width: usize,
) -> (r: Vec<String>)
    requires
        entries@.len() > 0 ==> selected < entries@.len(),
    ensures
        lines_of(r@) == menu_view(
            pairs(entries@),
            selected as nat,
            room as nat,
            width as nat,
            state@.selection_color,
            state@.accent_color,
        ),
{
    proof {
        reveal(state_model);
    }
    if entries.len() > 0 {
        return render_menu(
            entries,
            selected,
            room,
            width,
            state.selection_color,
            state.accent_color,
        );
    }
    proof {
        reveal(menu_view);
    }
    assert(pairs(entries@).len() == 0);
    let none: Vec<String> = Vec::new();
    assert(lines_of(none@) =~= Seq::empty());
    none
}

/// Plans a frame; see `planned`.
#[verifier::rlimit(30)]
pub fn plan_frame(
    state: &ViewState,
    editor: &Editor,
    completion: &mut CompletionState,
    parts: &FrameParts,
    columns: usize,
    rows: usize,
) -> (plan: FramePlan)
    requires
        old(completion).wf(),
        shows_menu(state@, parts@) ==> !waits_for_files(old(completion)@, editor@),
        parts.question is Some ==> parts.question->0.options@.len() < usize::MAX,
    ensures
        (plan@, final(completion)@) == planned(
            state@,
            editor@,
            old(completion)@,
            parts@,
            columns as nat,
            rows as nat,
        ),
        plan@.wf(parts@),
        final(completion).wf(),
{
    proof {
        reveal(planned);
    }
    let width: usize = larger(columns, 20);
    let height: usize = larger(rows, 8);
    let (input, cursor) = render_input(state, editor, parts, composer_width(columns), height);
    assert(lines_of(input@).len() == input@.len());
    let mut left: usize = height - 2 - input.len();
    if parts.background > 0 {
        left = left - 1;
    }
    if parts.status_line.is_some() {
        left = left - 1;
    }
    let room: usize = smaller(COMPLETION_MENU_ROWS, left);
    let entries = sync_menu(state, editor, completion, parts);
    assert(pairs(entries@).len() == entries@.len());
    let list = draw_menu(state, &entries, completion.completion_index, room, width);
    assert(lines_of(list@).len() == list@.len());
    if parts.search.is_some() {
        left = left - 1;
    }
    let transcript_height: usize = left.saturating_sub(list.len());
    FramePlan { columns: width, rows: height, input, cursor, menu: list, transcript_height }
}

// ---------------------------------------------------------------------------
// Laws

/// The selected entry of a menu is among those that are shown, wherever there
/// is room for one.
pub proof fn selected_entry_is_shown(count: nat, selected: nat, capacity: nat)
    requires
        selected < count,
        capacity > 0,
    ensures
        window_start(count, selected, capacity) <= selected < window_end(count, selected, capacity)
            <= count,
        window_end(count, selected, capacity) - window_start(count, selected, capacity) <= capacity,
{
}

/// The notice of work in the background never has the color of the accent.
pub proof fn notice_differs_from_the_accent(accent: UiColor)
    ensures
        notice_color(accent) != accent,
{
    assert(color_distance(cyan(), cyan()) < color_distance(cyan(), amber()))
        by (nonlinear_arith);
    assert(color_distance(amber(), amber()) < color_distance(amber(), cyan()))
        by (nonlinear_arith);
}

/// A border is as wide as it is asked for, and carries its label where there is
/// room for it.
pub proof fn borders_carry_their_label(width: nat, label: Seq<char>, hint: bool)
    requires
        width >= 12,
    ensures
        top_border(width, None) == repeated('─', width),
        encode_utf8(label).len() + 3 <= width ==> top_border(width, Some(label)) == "─ "@ + label
            + " "@ + repeated('─', (width - encode_utf8(label).len() - 3) as nat),
        encode_utf8(label).len() + 3 > width ==> top_border(width, Some(label)) == repeated(
            '─',
            width,
        ),
        bottom_border(width, false) == repeated('─', width),
        bottom_border(width, true) == repeated('─', (width - 12) as nat) + " Tab queues "@,
{
}

/// A color is not distant from itself, and two colors are as distant from each
/// other either way; the notice takes the color that is more distant.
pub proof fn distances_are_mutual(a: UiColor, b: UiColor, accent: UiColor)
    ensures
        color_distance(a, a) == 0,
        color_distance(a, b) == color_distance(b, a),
        color_distance(accent, notice_color(accent)) >= color_distance(accent, cyan()),
        color_distance(accent, notice_color(accent)) >= color_distance(accent, amber()),
        notice_color(accent) == cyan() || notice_color(accent) == amber(),
{
    assert((a.red - a.red) * (a.red - a.red) == 0) by (nonlinear_arith);
    assert((a.green - a.green) * (a.green - a.green) == 0) by (nonlinear_arith);
    assert((a.blue - a.blue) * (a.blue - a.blue) == 0) by (nonlinear_arith);
    assert((512 + (a.red + a.red) / 2) * 0 == 0) by (nonlinear_arith);
    assert((767 - (a.red + a.red) / 2) * 0 == 0) by (nonlinear_arith);
    assert((a.red - b.red) * (a.red - b.red) == (b.red - a.red) * (b.red - a.red))
        by (nonlinear_arith);
    assert((a.green - b.green) * (a.green - b.green) == (b.green - a.green) * (b.green - a.green))
        by (nonlinear_arith);
    assert((a.blue - b.blue) * (a.blue - b.blue) == (b.blue - a.blue) * (b.blue - a.blue))
        by (nonlinear_arith);
}

} // verus!
