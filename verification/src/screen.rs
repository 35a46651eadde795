//! Frames of the main view and of the viewer of one block.

use vstd::prelude::*;
use crate::editor::{Editor, EditorModel};
use crate::frame::{
    background_notice, bottom_border, composer_bottom_border, composer_top_border, hands_over,
    render_background_process_notice, top_border, FrameParts, FramePlan, PartsModel, PlanModel,
    SearchModel, Search,
};
use crate::markdown::{
    char_columns, columns, fit_width, fitted, lines_of, strip_ansi, stripped, visible_columns,
    visible_width,
};
use crate::picker::{picker_is_plan_handoff, picker_rows, render_picker};
use crate::questions::inside;
use crate::rows::{
    at_least, at_most, blank_rows, larger, minus, push_blank_rows, push_row, push_rows,
    rows_between, smaller,
};
use crate::state::{state_model, StateModel, ViewState};
use crate::style::{foreground, foreground_color, selection, selection_style, UiColor};
use crate::text::{cat2, cat3, cat4, cat5, cat6, cat7, chars_of, count_of, decimal, string_of};

verus! {

broadcast use vstd::string::group_string_axioms;

// ---------------------------------------------------------------------------
// The conversation

/// A row of the conversation and the entry that it belongs to.
#[derive(Debug)]
pub struct TranscriptRow {
    pub text: String,
    pub owner: Option<usize>,
}

pub struct RowModel {
    pub text: Seq<char>,
    pub owner: Option<usize>,
}

impl View for TranscriptRow {
    type V = RowModel;

    open spec fn view(&self) -> RowModel {
        RowModel { text: self.text@, owner: self.owner }
    }
}

/// A picture in the conversation.
#[derive(Clone, Copy, Debug, PartialEq, Eq, Structural)]
pub struct FrameImage {
    pub key: usize,
    pub row: usize,
    pub column: usize,
    pub columns: usize,
    pub rows: usize,
}

/// The rows of the conversation that have room.
#[derive(Debug)]
pub struct TranscriptWindow {
    pub rows: Vec<TranscriptRow>,
    pub images: Vec<FrameImage>,
    pub total_lines: usize,
    pub max_scroll: usize,
    /// The conversation has no entries.
    pub is_empty: bool,
    pub focused: bool,
    pub selected: Option<usize>,
    /// What is shown while the conversation has no entries.
    pub welcome: Vec<String>,
}

pub struct WindowModel {
    pub rows: Seq<RowModel>,
    pub images: Seq<FrameImage>,
    pub total_lines: nat,
    pub max_scroll: nat,
    pub is_empty: bool,
    pub focused: bool,
    pub selected: Option<usize>,
    pub welcome: Seq<Seq<char>>,
}

impl View for TranscriptWindow {
    type V = WindowModel;

    open spec fn view(&self) -> WindowModel {
        WindowModel {
            rows: self.rows@.map_values(|row: TranscriptRow| row@),
            images: self.images@,
            total_lines: self.total_lines as nat,
            max_scroll: self.max_scroll as nat,
            is_empty: self.is_empty,
            focused: self.focused,
            selected: self.selected,
            welcome: lines_of(self.welcome@),
        }
    }
}

/// A row of the conversation; those of the selected entry are marked.
pub open spec fn transcript_row(row: RowModel, w: WindowModel, width: nat, accent: UiColor) -> Seq<
    char,
> {
    let line = fitted(row.text, width);
    if w.focused && row.owner == w.selected && width > 1 {
        foreground(accent) + "▌\x1b[0m"@ + fitted(line, (width - 1) as nat)
    } else {
        line
    }
}

/// The conversation, at the bottom of its room.
pub open spec fn conversation_rows(w: WindowModel, width: nat, height: nat, accent: UiColor) -> Seq<
    Seq<char>,
> {
    blank_rows(width, minus(height, w.rows.len())) + Seq::new(
        w.rows.len(),
        |i: int| transcript_row(w.rows[i], w, width, accent),
    )
}

fn same_owner(a: Option<usize>, b: Option<usize>) -> (r: bool)
    ensures
        r == (a == b),
{
    match (a, b) {
        (Some(x), Some(y)) => x == y,
        (None, None) => true,
        _ => false,
    }
}

fn render_conversation(w: &TranscriptWindow, width: usize, height: usize, accent: UiColor) -> (r: Vec<
    String,
>)
    ensures
        lines_of(r@) == conversation_rows(w@, width as nat, height as nat, accent),
{
    let mut lines: Vec<String> = Vec::new();
    assert(lines_of(lines@) =~= Seq::empty());
    let n: usize = w.rows.len();
    assert(w@.rows.len() == n);
    push_blank_rows(&mut lines, width, height.saturating_sub(n));
    let ghost blank = blank_rows(width as nat, minus(height as nat, n as nat));
    let ghost all = Seq::new(
        w@.rows.len(),
        |i: int| transcript_row(w@.rows[i], w@, width as nat, accent),
    );
    assert(lines_of(lines@) =~= blank + all.take(0));
    let hue = foreground_color(accent);
    let mut i: usize = 0;
    while i < n
        invariant
            i <= n,
            n == w.rows@.len(),
            hue@ == foreground(accent),
            all == Seq::new(
                w@.rows.len(),
                |i: int| transcript_row(w@.rows[i], w@, width as nat, accent),
            ),
            w@.rows.len() == n,
            lines_of(lines@) == blank + all.take(i as int),
        decreases n - i,
    {
        let row = &w.rows[i];
        assert(w@.rows[i as int] == row@);
        let line = fit_width(row.text.as_str(), width);
        let marked = w.focused && same_owner(row.owner, w.selected) && width > 1;
        let shown = if marked {
            cat3(hue.as_str(), "▌\x1b[0m", fit_width(line.as_str(), width - 1).as_str())
        } else {
            line
        };
        assert(shown@ == all[i as int]);
        push_row(&mut lines, shown);
        i += 1;
        assert(lines_of(lines@) =~= blank + all.take(i as int));
    }
    assert(all.take(n as int) =~= all);
    lines
}

// ---------------------------------------------------------------------------
// The scroll bar

/// Where the scroll bar stands.
#[derive(Clone, Copy, Debug, PartialEq, Eq, Structural)]
pub struct ScrollGeometry {
    pub rows: usize,
    pub columns: usize,
    pub max_scroll: usize,
    pub travel: usize,
    pub thumb_length: usize,
}

/// The thumb takes the part of the bar that the visible rows are of all rows.
pub open spec fn thumb_rows(height: nat, total: nat) -> nat {
    at_least((height * height) / total, 1)
}

/// The rows above the thumb: none at the oldest row, all that are left at the
/// newest.
pub open spec fn thumb_start(travel: nat, max_scroll: nat, offset: nat) -> nat {
    minus(travel, (at_most(offset, max_scroll) * travel) / max_scroll)
}

pub fn scroll_bar_span(height: usize, total_lines: usize) -> (r: (usize, usize))
    requires
        0 < height < total_lines,
    ensures
        r.0 == thumb_rows(height as nat, total_lines as nat),
        r.1 == height - r.0,
        0 < r.0 <= height,
{
    let h: u128 = height as u128;
    let t: u128 = total_lines as u128;
    assert(h * h <= u128::MAX) by (nonlinear_arith)
        requires
            h <= 0xffff_ffff_ffff_ffff,
    ;
    assert((h * h) / (t as int) <= h) by (nonlinear_arith)
        requires
            0 < h < t,
    ;
    let part: u128 = (h * h) / t;
    let length: usize = larger(part as usize, 1);
    (length, height - length)
}

pub fn scroll_bar_position(travel: usize, max_scroll: usize, offset: usize) -> (r: usize)
    requires
        max_scroll > 0,
    ensures
        r == thumb_start(travel as nat, max_scroll as nat, offset as nat),
        r <= travel,
{
    let o: u128 = smaller(offset, max_scroll) as u128;
    let v: u128 = travel as u128;
    let m: u128 = max_scroll as u128;
    assert(o * v <= u128::MAX) by (nonlinear_arith)
        requires
            o <= 0xffff_ffff_ffff_ffff,
            v <= 0xffff_ffff_ffff_ffff,
    ;
    assert((o * v) / (m as int) <= v) by (nonlinear_arith)
        requires
            o <= m,
            0 < m,
    ;
    let part: u128 = (o * v) / m;
    travel - part as usize
}

/// A menu other than the one that hands a plan over covers the conversation.
pub open spec fn covered(s: StateModel) -> bool {
    s.picker is Some && !s.picker->0.is_handoff()
}

/// The scroll bar is shown where there is something to scroll to.
pub open spec fn scroll_geometry(
    s: StateModel,
    show: bool,
    height: nat,
    total: nat,
    max_scroll: nat,
    width: nat,
) -> Option<ScrollGeometry> {
    if !show || covered(s) || max_scroll == 0 || height == 0 || total <= height || width == 0 {
        None
    } else {
        Some(
            ScrollGeometry {
                rows: height as usize,
                columns: width as usize,
                max_scroll: max_scroll as usize,
                travel: (height - thumb_rows(height, total)) as usize,
                thumb_length: thumb_rows(height, total) as usize,
            },
        )
    }
}

/// The character in the last column of a row.
pub open spec fn last_cell(line: Seq<char>) -> Seq<char> {
    let text = stripped(line);
    if text.len() > 0 && columns(text.last()) == 1 {
        seq![text.last()]
    } else {
        seq![' ']
    }
}

/// A row whose last column has a background.
pub open spec fn with_thumb(line: Seq<char>, thumb: Seq<char>, width: nat) -> Seq<char> {
    fitted(line, minus(width, 1)) + thumb + last_cell(line) + "\x1b[0m"@
}

fn overlay_last_cell(line: &str, thumb: &str, width: usize) -> (r: String)
    ensures
        r@ == with_thumb(line@, thumb@, width as nat),
{
    let text = chars_of(strip_ansi(line).as_str());
    let n: usize = text.len();
    let mut cell: Vec<char> = Vec::new();
    if n > 0 && char_columns(text[n - 1]) == 1 {
        cell.push(text[n - 1]);
    } else {
        cell.push(' ');
    }
    assert(cell@ =~= last_cell(line@));
    let last = string_of(&cell);
    cat4(
        fit_width(line, width.saturating_sub(1)).as_str(),
        thumb,
        last.as_str(),
        "\x1b[0m",
    )
}

/// Rows with the scroll bar in their last column.
pub open spec fn barred(
    region: Seq<Seq<char>>,
    geometry: Option<ScrollGeometry>,
    offset: nat,
    thumb: Seq<char>,
) -> Seq<Seq<char>> {
    match geometry {
        None => region,
        Some(g) => {
            let start = thumb_start(g.travel as nat, g.max_scroll as nat, offset);
            Seq::new(
                region.len(),
                |i: int|
                    if start <= i < start + g.thumb_length {
                        with_thumb(region[i], thumb, g.columns as nat)
                    } else {
                        region[i]
                    },
            )
        },
    }
}

/// Draws the scroll bar over the rows of the conversation.
pub fn apply_scroll_bar(
    region: &mut Vec<String>,
    state: &ViewState,
    show: bool,
    total_lines: usize,
    max_scroll: usize,
    columns: usize,
    thumb: &str,
) -> (geometry: Option<ScrollGeometry>)
    ensures
        geometry == scroll_geometry(
            state@,
            show,
            old(region)@.len(),
            total_lines as nat,
            max_scroll as nat,
            columns as nat,
        ),
        lines_of(final(region)@) == barred(
            lines_of(old(region)@),
            geometry,
            state@.scroll_offset as nat,
            thumb@,
        ),
        final(region)@.len() == old(region)@.len(),
{
    proof {
        reveal(state_model);
    }
    let height: usize = region.len();
    let hidden = match &state.picker {
        Some(picker) => !picker_is_plan_handoff(picker),
        None => false,
    };
    if !show || hidden || max_scroll == 0 || height == 0 || total_lines <= height || columns == 0 {
        return None;
    }
    let (thumb_length, travel) = scroll_bar_span(height, total_lines);
    let geometry = ScrollGeometry { rows: height, columns, max_scroll, travel, thumb_length };
    let start: usize = scroll_bar_position(travel, max_scroll, state.scroll_offset);
    let ghost before = lines_of(region@);
    let ghost all = barred(before, Some(geometry), state@.scroll_offset as nat, thumb@);
    let mut shown: Vec<String> = Vec::new();
    assert(before.len() == height);
    assert(lines_of(shown@) =~= all.take(0));
    let mut i: usize = 0;
    while i < height
        invariant
            i <= height,
            height == region@.len(),
            before == lines_of(region@),
            before.len() == height,
            geometry.columns == columns,
            geometry.travel == travel,
            geometry.thumb_length == thumb_length,
            geometry.max_scroll == max_scroll,
            thumb_length + travel == height,
            start <= travel,
            start == thumb_start(travel as nat, max_scroll as nat, state@.scroll_offset as nat),
            all == barred(before, Some(geometry), state@.scroll_offset as nat, thumb@),
            lines_of(shown@) == all.take(i as int),
        decreases height - i,
    {
        assert(before[i as int] == region@[i as int]@);
        let line = if i >= start && i < start + thumb_length {
            overlay_last_cell(region[i].as_str(), thumb, columns)
        } else {
            region[i].clone()
        };
        assert(line@ == all[i as int]);
        push_row(&mut shown, line);
        i += 1;
        assert(lines_of(shown@) =~= all.take(i as int));
    }
    assert(all.take(height as int) =~= all);
    assert(lines_of(shown@).len() == shown@.len());
    *region = shown;
    Some(geometry)
}

// ---------------------------------------------------------------------------
// The toast

pub open spec fn toast_rows(accent: UiColor) -> Seq<Seq<char>> {
    let color = foreground(accent);
    seq![
        color + "┌─────────┐\x1b[0m"@,
        color + "│\x1b[0m Copied! "@ + color + "│\x1b[0m"@,
        color + "└─────────┘\x1b[0m"@,
    ]
}

/// Rows with a note at the upper right that something was copied.
pub open spec fn toasted(rows: Seq<Seq<char>>, width: nat, accent: UiColor) -> Seq<Seq<char>> {
    Seq::new(
        rows.len(),
        |i: int|
            if i < 3 {
                fitted(rows[i], minus(width, 11)) + toast_rows(accent)[i]
            } else {
                rows[i]
            },
    )
}

pub fn render_copy_toast(frame: &mut Vec<String>, columns: usize, accent: UiColor)
    ensures
        lines_of(final(frame)@) == toasted(lines_of(old(frame)@), columns as nat, accent),
        final(frame)@.len() == old(frame)@.len(),
{
    let color = foreground_color(accent);
    let mut toast: Vec<String> = Vec::new();
    toast.push(cat2(color.as_str(), "┌─────────┐\x1b[0m"));
    toast.push(cat4(color.as_str(), "│\x1b[0m Copied! ", color.as_str(), "│\x1b[0m"));
    toast.push(cat2(color.as_str(), "└─────────┘\x1b[0m"));
    assert(lines_of(toast@) =~= toast_rows(accent));
    let left: usize = columns.saturating_sub(11);
    let ghost before = lines_of(frame@);
    let ghost all = toasted(before, columns as nat, accent);
    let n: usize = frame.len();
    let mut shown: Vec<String> = Vec::new();
    let mut i: usize = 0;
    assert(lines_of(shown@) =~= all.take(0));
    assert(before.len() == n);
    while i < n
        invariant
            i <= n,
            n == frame@.len(),
            before == lines_of(frame@),
            before.len() == n,
            toast@.len() == 3,
            lines_of(toast@) == toast_rows(accent),
            left as nat == minus(columns as nat, 11),
            all == toasted(before, columns as nat, accent),
            lines_of(shown@) == all.take(i as int),
        decreases n - i,
    {
        assert(before[i as int] == frame@[i as int]@);
        let line = if i < 3 {
            assert(toast_rows(accent)[i as int] == toast@[i as int]@);
            cat2(fit_width(frame[i].as_str(), left).as_str(), toast[i].as_str())
        } else {
            frame[i].clone()
        };
        assert(line@ == all[i as int]);
        push_row(&mut shown, line);
        i += 1;
        assert(lines_of(shown@) =~= all.take(i as int));
    }
    assert(all.take(n as int) =~= all);
    assert(lines_of(shown@).len() == shown@.len());
    *frame = shown;
}

// ---------------------------------------------------------------------------
// The frame

pub open spec fn position_text(position: Option<(usize, usize)>) -> Seq<char> {
    match position {
        Some(place) => decimal(place.0 as nat) + "/"@ + decimal(place.1 as nat),
        None => "0/0"@,
    }
}

/// The row of a search.
pub open spec fn search_row(search: SearchModel, width: nat, accent: UiColor) -> Seq<char> {
    fitted(
        " "@ + foreground(accent) + "Find\x1b[0m  "@ + search.query + "  \x1b[2m"@ + position_text(
            search.position,
        ) + " · Enter next · ↑ previous · Esc close\x1b[0m"@,
        width,
    )
}

fn render_search(search: &Search, width: usize, accent: UiColor) -> (r: String)
    ensures
        r@ == search_row(search@, width as nat, accent),
{
    let position = match search.position {
        Some((current, total)) => cat3(
            count_of(current).as_str(),
            "/",
            count_of(total).as_str(),
        ),
        None => "0/0".to_owned(),
    };
    let text = cat7(
        " ",
        foreground_color(accent).as_str(),
        "Find\x1b[0m  ",
        search.query.as_str(),
        "  \x1b[2m",
        position.as_str(),
        " · Enter next · ↑ previous · Esc close\x1b[0m",
    );
    fit_width(text.as_str(), width)
}

/// What stands in the upper border of the composer.
pub open spec fn composer_label(s: StateModel) -> Option<Seq<char>> {
    if hands_over(s) {
        Some("Plan ready"@)
    } else if s.turn_running && !s.goal_running && s.plan_draft {
        Some("Planning"@)
    } else if s.turn_running && !s.goal_running && s.active_plan is Some {
        Some("Plan turn"@)
    } else {
        None
    }
}

/// The rows of the composer.
pub open spec fn composer_rows(
    input: Seq<Seq<char>>,
    label: Option<Seq<char>>,
    hint: bool,
    width: nat,
    accent: UiColor,
) -> Seq<Seq<char>> {
    let color = foreground(accent);
    let inner = minus(width, 2);
    seq![color + "┌"@ + top_border(inner, label) + "┐\x1b[0m"@] + Seq::new(
        input.len(),
        |i: int| color + "│\x1b[0m"@ + fitted(input[i], inner) + color + "│\x1b[0m"@,
    ) + seq![color + "└"@ + bottom_border(inner, hint) + "┘\x1b[0m"@]
}

fn push_composer(
    frame: &mut Vec<String>,
    input: &Vec<String>,
    label: Option<&str>,
    hint: bool,
    width: usize,
    accent: UiColor,
)
    ensures
        lines_of(final(frame)@) == lines_of(old(frame)@) + composer_rows(
            lines_of(input@),
            match label {
                Some(text) => Some(text@),
                None => None,
            },
            hint,
            width as nat,
            accent,
        ),
{
    let color = foreground_color(accent);
    let inner: usize = width.saturating_sub(2);
    let ghost name = match label {
        Some(text) => Some(text@),
        None => None,
    };
    let top = composer_top_border(inner, label);
    push_row(frame, cat4(color.as_str(), "┌", top.as_str(), "┐\x1b[0m"));
    let ghost head = lines_of(old(frame)@) + seq![
        foreground(accent) + "┌"@ + top_border(inner as nat, name) + "┐\x1b[0m"@,
    ];
    let ghost rows = lines_of(input@);
    let ghost all = Seq::new(
        rows.len(),
        |i: int|
            foreground(accent) + "│\x1b[0m"@ + fitted(rows[i], inner as nat) + foreground(accent)
                + "│\x1b[0m"@,
    );
    let n: usize = input.len();
    assert(rows.len() == n);
    assert(lines_of(frame@) =~= head + all.take(0));
    let mut i: usize = 0;
    while i < n
        invariant
            i <= n,
            n == input@.len(),
            rows == lines_of(input@),
            rows.len() == n,
            color@ == foreground(accent),
            all == Seq::new(
                rows.len(),
                |i: int|
                    foreground(accent) + "│\x1b[0m"@ + fitted(rows[i], inner as nat) + foreground(
                        accent,
                    ) + "│\x1b[0m"@,
            ),
            lines_of(frame@) == head + all.take(i as int),
        decreases n - i,
    {
        assert(rows[i as int] == input@[i as int]@);
        let line = cat5(
            color.as_str(),
            "│\x1b[0m",
            fit_width(input[i].as_str(), inner).as_str(),
            color.as_str(),
            "│\x1b[0m",
        );
        assert(line@ == all[i as int]);
        push_row(frame, line);
        i += 1;
        assert(lines_of(frame@) =~= head + all.take(i as int));
    }
    assert(all.take(n as int) =~= all);
    let bottom = composer_bottom_border(inner, hint);
    push_row(frame, cat4(color.as_str(), "└", bottom.as_str(), "┘\x1b[0m"));
    assert(lines_of(frame@) =~= lines_of(old(frame)@) + composer_rows(
        rows,
        name,
        hint,
        width as nat,
        accent,
    ));
}

/// What fills the room of the conversation: a menu, the welcome, or the
/// conversation.
pub open spec fn region_rows(
    s: StateModel,
    e: EditorModel,
    w: WindowModel,
    width: nat,
    height: nat,
) -> Seq<Seq<char>> {
    if covered(s) {
        picker_rows(
            s.picker->0,
            e,
            selection(s.selection_color),
            foreground(s.accent_color),
            width,
            height,
        )
    } else if w.rows.len() == 0 && w.is_empty {
        w.welcome
    } else {
        conversation_rows(w, width, height, s.accent_color)
    }
}

/// The rows under the conversation.
pub open spec fn lower_rows(s: StateModel, e: EditorModel, parts: PartsModel, plan: PlanModel) -> Seq<
    Seq<char>,
> {
    let hint = parts.question is None && s.turn_running && (e.text.len() > 0 || e.images.len() > 0)
        && plan.menu.len() == 0;
    (match parts.search {
        Some(search) => seq![search_row(search, plan.columns, s.accent_color)],
        None => Seq::empty(),
    }) + composer_rows(plan.input, composer_label(s), hint, plan.columns, s.accent_color)
        + plan.menu + (if parts.background > 0 {
        seq![background_notice(parts.background, plan.columns, s.accent_color)]
    } else {
        Seq::empty()
    }) + (match parts.status_line {
        Some(line) => seq![line],
        None => Seq::empty(),
    })
}

/// Where the cursor stands, counted from one; a cursor at zero is hidden.
pub open spec fn frame_cursor(s: StateModel, parts: PartsModel, plan: PlanModel) -> (nat, nat) {
    if plan.cursor is None || hands_over(s) {
        (0, 0)
    } else {
        match parts.search {
            Some(search) => (
                plan.transcript_height + 1,
                at_most(8 + visible_columns(search.query), minus(plan.columns, 1)),
            ),
            None => {
                let place = plan.cursor->0;
                (
                    plan.transcript_height + 2 + place.0,
                    at_most(2 + place.1, minus(plan.columns, 1)),
                )
            },
        }
    }
}

pub struct FrameModel {
    pub rows: Seq<Seq<char>>,
    pub cursor: (nat, nat),
    pub images: Seq<FrameImage>,
    pub geometry: Option<ScrollGeometry>,
}

#[verifier::opaque]
pub open spec fn composed(
    s: StateModel,
    e: EditorModel,
    parts: PartsModel,
    plan: PlanModel,
    w: WindowModel,
    show: bool,
    thumb: Seq<char>,
) -> FrameModel {
    let region = region_rows(s, e, w, plan.columns, plan.transcript_height);
    let geometry = scroll_geometry(
        s,
        show,
        region.len(),
        w.total_lines,
        w.max_scroll,
        plan.columns,
    );
    let rows = barred(region, geometry, s.scroll_offset as nat, thumb) + lower_rows(
        s,
        e,
        parts,
        plan,
    );
    FrameModel {
        rows: if parts.copied {
            toasted(rows, plan.columns, s.accent_color)
        } else {
            rows
        },
        cursor: frame_cursor(s, parts, plan),
        images: if covered(s) {
            Seq::empty()
        } else {
            w.images
        },
        geometry,
    }
}

/// A frame that is ready to be shown.
#[derive(Debug)]
pub struct RenderedFrame {
    pub lines: Vec<String>,
    pub cursor: (usize, usize),
    pub images: Vec<FrameImage>,
    pub scroll_geometry: Option<ScrollGeometry>,
}

impl View for RenderedFrame {
    type V = FrameModel;

    open spec fn view(&self) -> FrameModel {
        FrameModel {
            rows: lines_of(self.lines@),
            cursor: (self.cursor.0 as nat, self.cursor.1 as nat),
            images: self.images@,
            geometry: self.scroll_geometry,
        }
    }
}

fn render_region(
    state: &ViewState,
    editor: &Editor,
    w: &TranscriptWindow,
    width: usize,
    height: usize,
) -> (r: Vec<String>)
    ensures
        lines_of(r@) == region_rows(state@, editor@, w@, width as nat, height as nat),
{
    proof {
        reveal(state_model);
    }
    match &state.picker {
        Some(picker) => {
            if !picker_is_plan_handoff(picker) {
                return render_picker(
                    picker,
                    editor,
                    selection_style(state.selection_color).as_str(),
                    foreground_color(state.accent_color).as_str(),
                    width,
                    height,
                );
            }
        },
        None => {},
    }
    assert(w@.rows.len() == w.rows@.len());
    if w.rows.len() == 0 && w.is_empty {
        let n: usize = w.welcome.len();
        let rows = rows_between(&w.welcome, 0, n);
        assert(lines_of(w.welcome@).len() == n);
        assert(lines_of(rows@) =~= lines_of(w.welcome@));
        return rows;
    }
    render_conversation(w, width, height, state.accent_color)
}

fn label_of(state: &ViewState) -> (r: Option<&'static str>)
    ensures
        composer_label(state@) == match r {
            Some(text) => Some(text@),
            None => None,
        },
{
    proof {
        reveal(state_model);
    }
    let handoff = match &state.picker {
        Some(picker) => picker_is_plan_handoff(picker),
        None => false,
    };
    if handoff {
        Some("Plan ready")
    } else if state.turn_running && !state.goal_running && state.plan_draft {
        Some("Planning")
    } else if state.turn_running && !state.goal_running && state.active_plan.is_some() {
        Some("Plan turn")
    } else {
        None
    }
}

fn push_lower(
    frame: &mut Vec<String>,
    state: &ViewState,
    editor: &Editor,
    parts: &FrameParts,
    plan: &FramePlan,
)
    ensures
        lines_of(final(frame)@) == lines_of(old(frame)@) + lower_rows(
            state@,
            editor@,
            parts@,
            plan@,
        ),
{
    proof {
        reveal(state_model);
    }
    let accent = state.accent_color;
    match &parts.search {
        Some(search) => {
            push_row(frame, render_search(search, plan.columns, accent));
        },
        None => {},
    }
    let menu_rows: usize = plan.menu.len();
    assert(plan@.menu.len() == menu_rows);
    let label = label_of(state);
    let empty = editor.is_empty();
    let hint = parts.question.is_none() && state.turn_running && !empty && menu_rows == 0;
    push_composer(frame, &plan.input, label, hint, plan.columns, accent);
    let list = rows_between(&plan.menu, 0, menu_rows);
    assert(lines_of(list@) =~= lines_of(plan.menu@));
    push_rows(frame, list);
    if parts.background > 0 {
        push_row(frame, render_background_process_notice(parts.background, plan.columns, accent));
    }
    match &parts.status_line {
        Some(line) => {
            push_row(frame, line.clone());
        },
        None => {},
    }
    assert(lines_of(frame@) =~= lines_of(old(frame)@) + lower_rows(
        state@,
        editor@,
        parts@,
        plan@,
    ));
}

fn place_cursor(state: &ViewState, parts: &FrameParts, plan: &FramePlan) -> (r: (usize, usize))
    requires
        plan@.wf(parts@),
    ensures
        (r.0 as nat, r.1 as nat) == frame_cursor(state@, parts@, plan@),
{
    proof {
        reveal(state_model);
    }
    let handoff = match &state.picker {
        Some(picker) => picker_is_plan_handoff(picker),
        None => false,
    };
    if handoff {
        return (0, 0);
    }
    let last: usize = plan.columns - 1;
    match plan.cursor {
        None => (0, 0),
        Some((row, column)) => match &parts.search {
            Some(search) => {
                let width: usize = visible_width(search.query.as_str());
                (plan.transcript_height + 1, smaller(width.saturating_add(8), last))
            },
            None => (plan.transcript_height + 2 + row, smaller(column.saturating_add(2), last)),
        },
    }
}

fn copy_images(images: &Vec<FrameImage>) -> (r: Vec<FrameImage>)
    ensures
        r@ == images@,
{
    let mut r: Vec<FrameImage> = Vec::new();
    let mut i: usize = 0;
    while i < images.len()
        invariant
            i <= images@.len(),
            r@ == images@.take(i as int),
        decreases images@.len() - i,
    {
        r.push(images[i]);
        i += 1;
        assert(r@ =~= images@.take(i as int));
    }
    assert(images@.take(i as int) =~= images@);
    r
}

/// Puts a frame together; see `composed`.
pub fn compose_frame(
    state: &ViewState,
    editor: &Editor,
    parts: &FrameParts,
    plan: &FramePlan,
    window: &TranscriptWindow,
    show_scroll_bar: bool,
    thumb: &str,
) -> (frame: RenderedFrame)
    requires
        plan@.wf(parts@),
    ensures
        frame@ == composed(state@, editor@, parts@, plan@, window@, show_scroll_bar, thumb@),
{
    proof {
        reveal(state_model);
        reveal(composed);
    }
    let mut lines = render_region(state, editor, window, plan.columns, plan.transcript_height);
    assert(lines_of(lines@).len() == lines@.len());
    let geometry = apply_scroll_bar(
        &mut lines,
        state,
        show_scroll_bar,
        window.total_lines,
        window.max_scroll,
        plan.columns,
        thumb,
    );
    push_lower(&mut lines, state, editor, parts, plan);
    if parts.copied {
        render_copy_toast(&mut lines, plan.columns, state.accent_color);
    }
    let hidden = match &state.picker {
        Some(picker) => !picker_is_plan_handoff(picker),
        None => false,
    };
    let images = if hidden {
        Vec::new()
    } else {
        copy_images(&window.images)
    };
    let cursor = place_cursor(state, parts, plan);
    RenderedFrame { lines, cursor, images, scroll_geometry: geometry }
}

// ---------------------------------------------------------------------------
// The viewer of one block

pub open spec fn block_title(label: Seq<char>, number: nat, accent: UiColor) -> Seq<char> {
    " "@ + foreground(accent) + label + " "@ + decimal(number) + " · Esc close · y copy\x1b[0m"@
}

/// How far the viewer is scrolled: never past the first row.
pub open spec fn block_offset(offset: nat, total: nat, rows: nat) -> nat {
    at_most(offset, minus(total, minus(rows, 2)))
}

/// The viewer of a block, with the newest rows at the bottom.
pub open spec fn block_rows(
    title: Seq<char>,
    body: Seq<Seq<char>>,
    offset: nat,
    width: nat,
    rows: nat,
) -> Seq<Seq<char>> {
    let height = minus(rows, 2);
    let end = (body.len() - block_offset(offset, body.len(), rows)) as nat;
    let start = minus(end, height);
    seq![fitted(title, width)] + blank_rows(width, (height - (end - start)) as nat) + Seq::new(
        (end - start) as nat,
        |i: int| fitted(body[start + i], width),
    ) + seq![
        fitted(
            " \x1b[2m"@ + decimal(end) + "/"@ + decimal(body.len()) + " lines\x1b[0m"@,
            width,
        ),
    ]
}

pub(crate) fn push_fitted_rows(
    lines: &mut Vec<String>,
    body: &Vec<String>,
    start: usize,
    end: usize,
    width: usize,
)
    requires
        start <= end <= body@.len(),
    ensures
        lines_of(final(lines)@) == lines_of(old(lines)@) + Seq::new(
            (end - start) as nat,
            |i: int| fitted(lines_of(body@)[start + i], width as nat),
        ),
{
    let ghost all = Seq::new(
        (end - start) as nat,
        |i: int| fitted(lines_of(body@)[start + i], width as nat),
    );
    let mut i: usize = start;
    assert(lines_of(lines@) =~= lines_of(old(lines)@) + all.take(0));
    while i < end
        invariant
            start <= i <= end <= body@.len(),
            all == Seq::new(
                (end - start) as nat,
                |i: int| fitted(lines_of(body@)[start + i], width as nat),
            ),
            lines_of(lines@) == lines_of(old(lines)@) + all.take(i - start),
        decreases end - i,
    {
        assert(lines_of(body@)[i as int] == body@[i as int]@);
        let line = fit_width(body[i].as_str(), width);
        assert(line@ == all[i - start]);
        push_row(lines, line);
        i += 1;
        assert(lines_of(lines@) =~= lines_of(old(lines)@) + all.take(i - start));
    }
    assert(all.take(end - start) =~= all);
}

/// Draws the viewer of a block and keeps its scrolling inside the block.
pub fn render_block_viewer(
    state: &mut ViewState,
    label: &str,
    number: usize,
    body: &Vec<String>,
    columns: usize,
    rows: usize,
) -> (r: (Vec<String>, (usize, usize)))
    ensures
        ({
            let width = at_least(columns as nat, 20);
            let height = at_least(rows as nat, 8);
            let offset = block_offset(old(state)@.scroll_offset as nat, body@.len(), height);
            &&& lines_of(r.0@) == block_rows(
                block_title(label@, number as nat, old(state)@.accent_color),
                lines_of(body@),
                offset,
                width,
                height,
            )
            &&& r.1.0 as nat == height
            &&& r.1.1 == 1
            &&& final(state)@ == (StateModel { scroll_offset: offset as usize, ..old(state)@ })
            &&& r.0@.len() == height
        }),
{
    proof {
        reveal(state_model);
    }
    let width: usize = larger(columns, 20);
    let full: usize = larger(rows, 8);
    let title = cat6(
        " ",
        foreground_color(state.accent_color).as_str(),
        label,
        " ",
        count_of(number).as_str(),
        " · Esc close · y copy\x1b[0m",
    );
    let height: usize = full - 2;
    let total: usize = body.len();
    assert(lines_of(body@).len() == total);
    state.scroll_offset = smaller(state.scroll_offset, total.saturating_sub(height));
    let end: usize = total - state.scroll_offset;
    let start: usize = end.saturating_sub(height);
    let mut lines: Vec<String> = Vec::new();
    assert(lines_of(lines@) =~= Seq::empty());
    push_row(&mut lines, fit_width(title.as_str(), width));
    push_blank_rows(&mut lines, width, height - (end - start));
    push_fitted_rows(&mut lines, body, start, end, width);
    let footer = cat5(
        " \x1b[2m",
        count_of(end).as_str(),
        "/",
        count_of(total).as_str(),
        " lines\x1b[0m",
    );
    push_row(&mut lines, fit_width(footer.as_str(), width));
    let ghost offset = block_offset(old(state)@.scroll_offset as nat, body@.len(), full as nat);
    assert(lines_of(lines@) =~= block_rows(
        block_title(label@, number as nat, old(state)@.accent_color),
        lines_of(body@),
        offset,
        width as nat,
        full as nat,
    ));
    assert(lines_of(lines@).len() == lines@.len());
    (lines, (full, 1))
}

// ---------------------------------------------------------------------------
// Laws

/// A frame fills the screen wherever its fixed parts have room and the
/// conversation, or the welcome in its place, keeps to the rows it was given.
pub proof fn frame_fills_the_screen(
    s: StateModel,
    e: EditorModel,
    parts: PartsModel,
    plan: PlanModel,
    w: WindowModel,
    show: bool,
    thumb: Seq<char>,
)
    requires
        plan.wf(parts),
        plan.fixed_rows(parts) <= plan.rows,
        w.rows.len() <= plan.transcript_height,
        w.welcome.len() == plan.transcript_height,
    ensures
        composed(s, e, parts, plan, w, show, thumb).rows.len() == plan.rows,
{
    reveal(composed);
    assert(lower_rows(s, e, parts, plan).len() == plan.fixed_rows(parts));
}

/// A cursor that is shown stands on the screen.
pub proof fn cursor_stands_on_the_screen(s: StateModel, parts: PartsModel, plan: PlanModel)
    requires
        plan.wf(parts),
        plan.fixed_rows(parts) <= plan.rows,
    ensures
        ({
            let (row, column) = frame_cursor(s, parts, plan);
            row <= plan.rows && column < plan.columns && (row == 0 <==> plan.cursor is None
                || hands_over(s))
        }),
{
}

/// A menu that covers the conversation hides its pictures and its scroll bar.
pub proof fn menus_cover_the_conversation(
    s: StateModel,
    e: EditorModel,
    parts: PartsModel,
    plan: PlanModel,
    w: WindowModel,
    show: bool,
    thumb: Seq<char>,
)
    requires
        covered(s),
    ensures
        composed(s, e, parts, plan, w, show, thumb).images.len() == 0,
        composed(s, e, parts, plan, w, show, thumb).geometry is None,
{
    reveal(composed);
}

/// The thumb lies at the bottom of the bar at the newest row and at its top at
/// the oldest.
pub proof fn thumb_spans_the_bar(travel: nat, max_scroll: nat)
    requires
        max_scroll > 0,
    ensures
        thumb_start(travel, max_scroll, 0) == travel,
        thumb_start(travel, max_scroll, max_scroll) == 0,
{
    assert((0nat * travel) / max_scroll == 0) by (nonlinear_arith)
        requires
            max_scroll > 0,
    ;
    assert((max_scroll * travel) / max_scroll == travel) by (nonlinear_arith)
        requires
            max_scroll > 0,
    ;
}

/// The thumb is as long a part of the bar as the rows in sight are of all rows,
/// and one row at least.
pub proof fn thumbs_show_the_part_in_sight(height: nat, total: nat)
    requires
        0 < height < total,
    ensures
        1 <= thumb_rows(height, total) <= height,
        height * height >= total ==> thumb_rows(height, total) * total <= height * height < (
        thumb_rows(height, total) + 1) * total,
{
    assert((height * height) / total <= height) by (nonlinear_arith)
        requires
            0 < height < total,
    ;
    if height * height >= total {
        let n = (height * height) / total;
        assert(n * total <= height * height < (n + 1) * total && n >= 1) by (nonlinear_arith)
            requires
                n == (height * height) / total,
                0 < total <= height * height,
        ;
    }
}

/// The bar is shown where there is something out of sight, where it is wanted,
/// and where no menu covers the conversation.
pub proof fn bars_are_shown_where_rows_are_hidden(
    s: StateModel,
    show: bool,
    height: nat,
    total: nat,
    max_scroll: nat,
    width: nat,
)
    ensures
        scroll_geometry(s, show, height, total, max_scroll, width) is Some <==> show && !covered(s)
            && max_scroll > 0 && 0 < height < total && width > 0,
{
}

} // verus!
