//! Panels and tables of the full-screen dashboards.

use vstd::prelude::*;
use crate::markdown::{
    char_columns, columns, fit_width, fitted, fitted_is_exact, lines_of, repeat, repeated, spaces,
    visible_columns, visible_width,
};
use crate::rows::{at_least, at_most, larger, minus, push_row, smaller};
use crate::style::{
    foreground, foreground_color, painted, selected_row, selection, selection_style, status,
    status_style, UiColor,
};
use crate::text::{cat2, cat3, cat4, cat5, cat6, count_of, decimal, joined};

verus! {

broadcast use vstd::string::group_string_axioms;

/// The rows of a panel besides its items.
pub const BASE_PANEL_CHROME_ROWS: usize = 7;

pub const MAX_PANEL_WIDTH: usize = 116;

#[derive(Debug, Clone, Copy, PartialEq, Eq, Structural)]
pub enum Alignment {
    Left,
    Right,
}

/// A column of a table.
pub struct Column {
    pub header: &'static str,
    pub width: usize,
    pub alignment: Alignment,
}

impl Column {
    pub fn new(header: &'static str, width: usize, alignment: Alignment) -> (r: Self)
        ensures
            r == (Column { header, width, alignment }),
    {
        Column { header, width, alignment }
    }
}

// ---------------------------------------------------------------------------
// Tables

/// A cell of a width. A text that is too wide is cut and ends in an ellipsis.
pub open spec fn cell(text: Seq<char>, width: nat, alignment: Alignment) -> Seq<char> {
    if width == 0 {
        Seq::empty()
    } else if visible_columns(text) > width {
        if width == 1 {
            "…"@
        } else {
            fitted(text, (width - 1) as nat) + "…"@
        }
    } else {
        let pad = spaces((width - visible_columns(text)) as nat);
        match alignment {
            Alignment::Left => text + pad,
            Alignment::Right => pad + text,
        }
    }
}

fn fit_cell(text: &str, width: usize, alignment: Alignment) -> (r: String)
    ensures
        r@ == cell(text@, width as nat, alignment),
{
    if width == 0 {
        return String::new();
    }
    let used: usize = visible_width(text);
    if used > width {
        return if width == 1 {
            "…".to_owned()
        } else {
            cat2(fit_width(text, width - 1).as_str(), "…")
        };
    }
    let pad = repeat(' ', width - used);
    match alignment {
        Alignment::Left => cat2(text, pad.as_str()),
        Alignment::Right => cat2(pad.as_str(), text),
    }
}

/// The cells of a row, each in its column.
pub open spec fn cells_of(columns: Seq<Column>, texts: Seq<Seq<char>>) -> Seq<Seq<char>> {
    Seq::new(columns.len(), |i: int| cell(texts[i], columns[i].width as nat, columns[i].alignment))
}

/// A row of a table: the cells with a space between them.
pub open spec fn table_row(columns: Seq<Column>, texts: Seq<Seq<char>>, width: nat) -> Seq<char> {
    fitted(joined(cells_of(columns, texts), " "@), width)
}

/// The headers of the columns.
pub open spec fn headers(columns: Seq<Column>) -> Seq<Seq<char>> {
    columns.map_values(|column: Column| column.header@)
}

pub fn render_row(columns: &[Column], cells: &[String], width: usize) -> (r: String)
    requires
        columns@.len() == cells@.len(),
    ensures
        r@ == table_row(columns@, lines_of(cells@), width as nat),
{
    let ghost all = cells_of(columns@, lines_of(cells@));
    let mut line: String = String::new();
    let mut i: usize = 0;
    assert(all.take(0) =~= Seq::empty());
    while i < columns.len()
        invariant
            i <= columns@.len(),
            columns@.len() == cells@.len(),
            all == cells_of(columns@, lines_of(cells@)),
            line@ == joined(all.take(i as int), " "@),
        decreases columns@.len() - i,
    {
        assert(all.take(i + 1).drop_last() =~= all.take(i as int));
        let text = fit_cell(cells[i].as_str(), columns[i].width, columns[i].alignment);
        assert(text@ == all[i as int]);
        if i > 0 {
            line.append(" ");
        }
        line.append(text.as_str());
        if i == 0 {
            assert(line@ =~= joined(all.take(1), " "@));
        }
        i += 1;
    }
    assert(all.take(i as int) =~= all);
    fit_width(line.as_str(), width)
}

pub fn render_header(columns: &[Column], width: usize) -> (r: String)
    ensures
        r@ == table_row(columns@, headers(columns@), width as nat),
{
    let mut cells: Vec<String> = Vec::new();
    let mut i: usize = 0;
    assert(lines_of(cells@) =~= headers(columns@).take(0));
    while i < columns.len()
        invariant
            i <= columns@.len(),
            lines_of(cells@) == headers(columns@).take(i as int),
        decreases columns@.len() - i,
    {
        push_row(&mut cells, columns[i].header.to_owned());
        i += 1;
        assert(lines_of(cells@) =~= headers(columns@).take(i as int));
    }
    assert(headers(columns@).take(i as int) =~= headers(columns@));
    assert(lines_of(cells@).len() == cells@.len());
    render_row(columns, &cells, width)
}

/// How many items there are, and how many of them are active.
pub open spec fn summary_text(active: usize, total: usize, active_label: Seq<char>) -> Seq<char> {
    if active == 0 {
        decimal(total as nat) + " tracked"@
    } else if active == total {
        decimal(active as nat) + " "@ + active_label
    } else {
        decimal(active as nat) + " "@ + active_label + " · "@ + decimal(total as nat) + " tracked"@
    }
}

pub fn summary(active: usize, total: usize, active_label: &str) -> (r: String)
    ensures
        r@ == summary_text(active, total, active_label@),
{
    if active == 0 {
        cat2(count_of(total).as_str(), " tracked")
    } else if active == total {
        cat3(count_of(active).as_str(), " ", active_label)
    } else {
        cat6(
            count_of(active).as_str(),
            " ",
            active_label,
            " · ",
            count_of(total).as_str(),
            " tracked",
        )
    }
}

// ---------------------------------------------------------------------------
// Panels

pub struct PanelRow {
    pub content: String,
    pub selected: bool,
}

pub struct PanelContent<'a> {
    pub title: &'a str,
    pub summary: &'a str,
    pub header: &'a str,
    pub rows: &'a [PanelRow],
    pub hint: &'a str,
    pub accent: UiColor,
    pub selection: UiColor,
}

/// The measures of a panel in the middle of the screen.
#[derive(Debug, Clone, Copy, PartialEq, Eq, Structural)]
pub struct Panel {
    pub columns: usize,
    pub rows: usize,
    pub width: usize,
    pub inner_width: usize,
    pub visible_rows: usize,
    pub header_spacing: bool,
}

/// The rows of a panel besides its items, with or without a blank row below
/// the header.
pub open spec fn chrome_rows(spacing: bool) -> nat {
    if spacing {
        8
    } else {
        7
    }
}

/// The measures of a panel for a number of items. It is only as high as they
/// ask for, and keeps a margin where the screen is high enough.
pub open spec fn panel_measures(columns: usize, rows: usize, item_count: usize) -> Panel {
    let columns = at_least(columns as nat, 20);
    let rows = at_least(rows as nat, 8);
    let width = if columns >= 28 {
        at_most((columns - 4) as nat, MAX_PANEL_WIDTH as nat)
    } else {
        columns
    };
    let spacing = rows >= 9;
    let margin: nat = if rows >= chrome_rows(spacing) + 5 {
        4
    } else {
        0
    };
    let capacity = at_least(minus(minus(rows, margin), chrome_rows(spacing)), 1);
    Panel {
        columns: columns as usize,
        rows: rows as usize,
        width: width as usize,
        inner_width: (width - 2) as usize,
        visible_rows: at_most(at_least(item_count as nat, 1), capacity) as usize,
        header_spacing: spacing,
    }
}

impl Panel {
    /// The panel fits on its screen.
    pub open spec fn wf(self) -> bool {
        &&& chrome_rows(self.header_spacing) + self.visible_rows <= self.rows
        &&& self.inner_width + 2 == self.width
        &&& self.width <= self.columns
    }

    pub fn new(columns: usize, rows: usize, item_count: usize) -> (r: Self)
        ensures
            r == panel_measures(columns, rows, item_count),
            r.wf(),
            r.visible_rows >= 1,
    {
        let columns: usize = larger(columns, 20);
        let rows: usize = larger(rows, 8);
        let width: usize = if columns >= 28 {
            smaller(columns - 4, MAX_PANEL_WIDTH)
        } else {
            columns
        };
        let header_spacing = rows >= 9;
        let chrome: usize = if header_spacing {
            BASE_PANEL_CHROME_ROWS + 1
        } else {
            BASE_PANEL_CHROME_ROWS
        };
        let margin: usize = if rows >= chrome + 5 {
            4
        } else {
            0
        };
        let capacity: usize = larger(rows.saturating_sub(margin).saturating_sub(chrome), 1);
        Panel {
            columns,
            rows,
            width,
            inner_width: width - 2,
            visible_rows: smaller(larger(item_count, 1), capacity),
            header_spacing,
        }
    }

    pub fn inner_width(&self) -> (r: usize)
        ensures
            r == self.inner_width,
    {
        self.inner_width
    }

    pub fn capacity(&self) -> (r: usize)
        ensures
            r == self.visible_rows,
    {
        self.visible_rows
    }
}

/// A row between the borders of a panel.
pub open spec fn bordered_row(content: Seq<char>, inner: nat) -> Seq<char> {
    "\x1b[2m│\x1b[0m"@ + fitted(content, inner) + "\x1b[2m│\x1b[0m"@
}

fn bordered(content: &str, inner: usize) -> (r: String)
    ensures
        r@ == bordered_row(content@, inner as nat),
{
    cat3("\x1b[2m│\x1b[0m", fit_width(content, inner).as_str(), "\x1b[2m│\x1b[0m")
}

/// A line across a panel.
pub open spec fn rule_row(left: Seq<char>, inner: nat, right: Seq<char>) -> Seq<char> {
    "\x1b[2m"@ + left + repeated('─', inner) + right + "\x1b[0m"@
}

fn rule(left: &str, inner: usize, right: &str) -> (r: String)
    ensures
        r@ == rule_row(left@, inner as nat, right@),
{
    cat5("\x1b[2m", left, repeat('─', inner).as_str(), right, "\x1b[0m")
}

/// The title on the left and the summary on the right; the title alone where
/// there is no room for both.
pub open spec fn title_text(title: Seq<char>, summary: Seq<char>, width: nat, accent: UiColor) -> Seq<
    char,
> {
    let used = visible_columns(title) + visible_columns(summary);
    let styled = foreground(accent) + "\x1b[1m"@ + title + "\x1b[0m"@;
    if used + 1 > width {
        fitted(styled, width)
    } else {
        styled + spaces((width - used) as nat) + status(accent) + summary + "\x1b[0m"@
    }
}

fn title_line(title: &str, summary: &str, width: usize, accent: UiColor) -> (r: String)
    ensures
        r@ == title_text(title@, summary@, width as nat, accent),
{
    let used: usize = visible_width(title).saturating_add(visible_width(summary));
    let styled = cat4(foreground_color(accent).as_str(), "\x1b[1m", title, "\x1b[0m");
    if used >= width {
        return fit_width(styled.as_str(), width);
    }
    cat5(
        styled.as_str(),
        repeat(' ', width - used).as_str(),
        status_style(accent).as_str(),
        summary,
        "\x1b[0m",
    )
}

/// A row of an item.
pub open spec fn item_row(content: Seq<char>, selected: bool, inner: nat, color: UiColor) -> Seq<
    char,
> {
    let row = fitted(content, inner);
    bordered_row(
        if selected {
            painted(row, selection(color))
        } else {
            row
        },
        inner,
    )
}

/// The rows of the items.
pub open spec fn item_rows(rows: Seq<PanelRow>, inner: nat, color: UiColor) -> Seq<Seq<char>> {
    rows.map_values(|row: PanelRow| item_row(row.content@, row.selected, inner, color))
}

/// The rows of a panel from its upper to its lower border.
pub open spec fn panel_rows(panel: Panel, content: PanelContent) -> Seq<Seq<char>> {
    let inner = panel.inner_width as nat;
    let head = seq![
        rule_row("╭"@, inner, "╮"@),
        bordered_row(title_text(content.title@, content.summary@, inner, content.accent), inner),
        rule_row("├"@, inner, "┤"@),
        bordered_row("\x1b[2m"@ + content.header@ + "\x1b[0m"@, inner),
    ];
    let gap = if panel.header_spacing {
        seq![bordered_row(""@, inner)]
    } else {
        Seq::empty()
    };
    let foot = seq![
        rule_row("├"@, inner, "┤"@),
        bordered_row(status(content.accent) + content.hint@ + "\x1b[0m"@, inner),
        rule_row("╰"@, inner, "╯"@),
    ];
    head + gap + item_rows(content.rows@, inner, content.selection) + foot
}

/// The screen with the panel in its middle.
pub open spec fn panel_frame(panel: Panel, content: PanelContent) -> Seq<Seq<char>> {
    let rows = panel_rows(panel, content);
    let top = minus(panel.rows as nat, rows.len()) / 2;
    let left = minus(panel.columns as nat, panel.width as nat) / 2;
    Seq::new(
        panel.rows as nat,
        |i: int|
            if top <= i < top + rows.len() {
                fitted(spaces(left) + rows[i - top], panel.columns as nat)
            } else {
                spaces(panel.columns as nat)
            },
    )
}

impl Panel {
    fn panel_lines(&self, content: &PanelContent) -> (r: Vec<String>)
        ensures
            lines_of(r@) == panel_rows(*self, *content),
    {
        let inner: usize = self.inner_width;
        let mut rows: Vec<String> = Vec::new();
        push_row(&mut rows, rule("╭", inner, "╮"));
        push_row(
            &mut rows,
            bordered(
                title_line(content.title, content.summary, inner, content.accent).as_str(),
                inner,
            ),
        );
        push_row(&mut rows, rule("├", inner, "┤"));
        push_row(
            &mut rows,
            bordered(cat3("\x1b[2m", content.header, "\x1b[0m").as_str(), inner),
        );
        if self.header_spacing {
            push_row(&mut rows, bordered("", inner));
        }
        let ghost above = lines_of(rows@);
        let ghost items = item_rows(content.rows@, inner as nat, content.selection);
        let style = selection_style(content.selection);
        let mut i: usize = 0;
        assert(lines_of(rows@) =~= above + items.take(0));
        while i < content.rows.len()
            invariant
                i <= content.rows@.len(),
                style@ == selection(content.selection),
                items == item_rows(content.rows@, inner as nat, content.selection),
                lines_of(rows@) == above + items.take(i as int),
            decreases content.rows@.len() - i,
        {
            let item = &content.rows[i];
            let row = fit_width(item.content.as_str(), inner);
            let drawn = if item.selected {
                selected_row(row.as_str(), style.as_str())
            } else {
                row
            };
            push_row(&mut rows, bordered(drawn.as_str(), inner));
            assert(items[i as int] == item_row(
                item.content@,
                item.selected,
                inner as nat,
                content.selection,
            ));
            i += 1;
            assert(lines_of(rows@) =~= above + items.take(i as int));
        }
        assert(items.take(i as int) =~= items);
        push_row(&mut rows, rule("├", inner, "┤"));
        push_row(
            &mut rows,
            bordered(
                cat3(status_style(content.accent).as_str(), content.hint, "\x1b[0m").as_str(),
                inner,
            ),
        );
        push_row(&mut rows, rule("╰", inner, "╯"));
        assert(lines_of(rows@) =~= panel_rows(*self, *content));
        rows
    }

    /// Draws the panel in the middle of the screen. Every row of the screen
    /// takes all its columns.
    pub fn render(&self, content: PanelContent) -> (r: Vec<String>)
        requires
            self.wf(),
            content.rows@.len() == self.visible_rows,
        ensures
            lines_of(r@) == panel_frame(*self, content),
            r@.len() == self.rows,
            forall|i: int|
                0 <= i < r@.len() ==> visible_columns((#[trigger] r@[i])@) == self.columns,
    {
        let rows = self.panel_lines(&content);
        let n: usize = rows.len();
        assert(lines_of(rows@).len() == n);
        let top: usize = self.rows.saturating_sub(n) / 2;
        let left: usize = self.columns.saturating_sub(self.width) / 2;
        let _space: usize = char_columns(' ');
        let ghost all = panel_frame(*self, content);
        let mut frame: Vec<String> = Vec::new();
        let mut i: usize = 0;
        assert(lines_of(frame@) =~= all.take(0));
        while i < self.rows
            invariant
                i <= self.rows,
                self.wf(),
                n == rows@.len(),
                top + n <= self.rows,
                top as nat == minus(self.rows as nat, n as nat) / 2,
                left as nat == minus(self.columns as nat, self.width as nat) / 2,
                lines_of(rows@) == panel_rows(*self, content),
                lines_of(rows@).len() == n,
                all == panel_frame(*self, content),
                columns(' ') == 1,
                frame@.len() == i,
                lines_of(frame@) == all.take(i as int),
                forall|k: int|
                    0 <= k < frame@.len() ==> visible_columns((#[trigger] frame@[k])@)
                        == self.columns,
            decreases self.rows - i,
        {
            let row = if top <= i && i < top + n {
                fit_width(
                    cat2(repeat(' ', left).as_str(), rows[i - top].as_str()).as_str(),
                    self.columns,
                )
            } else {
                proof {
                    let empty = Seq::<char>::empty();
                    fitted_is_exact(empty, self.columns as nat);
                    assert(fitted(empty, self.columns as nat) =~= spaces(self.columns as nat));
                }
                repeat(' ', self.columns)
            };
            assert(row@ == all[i as int]);
            push_row(&mut frame, row);
            i += 1;
            assert(lines_of(frame@) =~= all.take(i as int));
            assert forall|k: int| 0 <= k < frame@.len() implies visible_columns(
                (#[trigger] frame@[k])@,
            ) == self.columns by {
                assert(lines_of(frame@)[k] == frame@[k]@);
                assert(lines_of(frame@)[k] == all[k]);
            }
        }
        assert(all.take(i as int) =~= all);
        frame
    }
}

// ---------------------------------------------------------------------------
// Laws

/// A text that fits its cell stands at the left or at the right of it, as its
/// column says; one that does not ends in an ellipsis.
pub proof fn cells_are_aligned(text: Seq<char>, width: nat)
    requires
        width > 1,
    ensures
        visible_columns(text) <= width ==> cell(text, width, Alignment::Left) == text + spaces(
            (width - visible_columns(text)) as nat,
        ) && cell(text, width, Alignment::Right) == spaces((width - visible_columns(text)) as nat)
            + text,
        visible_columns(text) > width ==> cell(text, width, Alignment::Left) == fitted(
            text,
            (width - 1) as nat,
        ) + "…"@ && cell(text, width, Alignment::Right) == cell(text, width, Alignment::Left),
{
}

/// The summary tells how many run and how many are tracked, and neither twice.
pub proof fn summaries_tell_each_number_once(active: usize, total: usize, label: Seq<char>)
    requires
        active <= total,
    ensures
        active == 0 ==> summary_text(active, total, label) == decimal(total as nat) + " tracked"@,
        0 < active == total ==> summary_text(active, total, label) == decimal(total as nat) + " "@
            + label,
        0 < active < total ==> summary_text(active, total, label) == decimal(active as nat) + " "@
            + label + " · "@ + decimal(total as nat) + " tracked"@,
{
}

/// The items of a panel stand between its head and its foot in their order, the
/// selected one painted and the others not.
pub proof fn panels_list_their_items(panel: Panel, content: PanelContent, i: int)
    requires
        0 <= i < content.rows@.len(),
    ensures
        ({
            let rows = panel_rows(panel, content);
            let inner = panel.inner_width as nat;
            let row = content.rows@[i];
            let at = i + 4 + if panel.header_spacing {
                1int
            } else {
                0
            };
            &&& !row.selected ==> rows[at] == bordered_row(fitted(row.content@, inner), inner)
            &&& row.selected ==> rows[at] == bordered_row(
                painted(fitted(row.content@, inner), selection(content.selection)),
                inner,
            )
            &&& rows.len() == content.rows@.len() + chrome_rows(panel.header_spacing)
        }),
{
}

/// A panel stands in the middle of the screen, with no more room above it than
/// below.
pub proof fn panels_stand_in_the_middle(panel: Panel, content: PanelContent, i: int)
    requires
        panel_rows(panel, content).len() <= panel.rows,
        panel.width <= panel.columns,
        0 <= i < panel_rows(panel, content).len(),
    ensures
        ({
            let frame = panel_frame(panel, content);
            let rows = panel_rows(panel, content);
            let top = (panel.rows - rows.len()) / 2;
            &&& frame.len() == panel.rows
            &&& frame[top + i] == fitted(
                spaces(((panel.columns - panel.width) / 2) as nat) + rows[i],
                panel.columns as nat,
            )
            &&& top <= panel.rows - rows.len() - top <= top + 1
        }),
{
}

/// A panel is as wide as the screen leaves it, up to its limit, and shows as
/// many items as have room, and one at least.
pub proof fn panels_are_as_large_as_the_screen(columns: usize, rows: usize, count: usize)
    requires
        columns >= 28,
        rows >= 13,
        columns <= usize::MAX - 4,
    ensures
        ({
            let panel = panel_measures(columns, rows, count);
            &&& panel.width == (if columns - 4 < 116 {
                columns - 4
            } else {
                116
            })
            &&& panel.visible_rows == (if count == 0 {
                1
            } else if count < rows - 12 {
                count as int
            } else if rows - 12 < 1 {
                1
            } else {
                rows - 12
            })
        }),
{
}

/// A row of a table takes the width of its panel, whatever its cells hold.
pub proof fn rows_take_the_width(columns: Seq<Column>, texts: Seq<Seq<char>>, width: nat)
    requires
        crate::markdown::columns(' ') == 1,
    ensures
        crate::markdown::total_columns(
            crate::markdown::stripped(table_row(columns, texts, width)),
        ) == width,
{
    crate::markdown::fitted_is_exact(joined(cells_of(columns, texts), " "@), width);
}

} // verus!
