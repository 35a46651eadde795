//! Texts with tables.

use vstd::prelude::*;
use crate::editor::{text_rows, wrap_text};
use crate::markdown::{fit_width, fitted, lines_of, repeat, repeated, visible_columns, visible_width};
use crate::rows::{at_least, larger, push_row, push_rows};
use crate::text::{
    cat4, chars_of, split_chars_on, split_lines, split_on, string_of, text_lines, texts, trim,
    trimmed,
};

verus! {

broadcast use vstd::string::group_string_axioms;

// ---------------------------------------------------------------------------
// Rows of a table

pub open spec fn is_row(line: Seq<char>) -> bool {
    line.len() > 0 && line[0] == '|'
}

/// The parts of a row: what stands before its first bar does not count, nor
/// does a blank behind its last one.
pub open spec fn row_parts(line: Seq<char>) -> Seq<Seq<char>> {
    let parts = split_on(line, '|');
    if parts.len() > 1 && trimmed(parts.last()).len() == 0 {
        parts.subrange(1, parts.len() - 1)
    } else {
        parts.subrange(1, parts.len() as int)
    }
}

pub open spec fn row_cells(line: Seq<char>) -> Seq<Seq<char>> {
    row_parts(line).map_values(|part: Seq<char>| trimmed(part))
}

/// A row of dashes.
pub open spec fn is_dash(c: char) -> bool {
    c == '-' || c == ':'
}

pub open spec fn all_dashes(cell: Seq<char>) -> bool {
    cell.len() > 0 && forall|i: int| 0 <= i < cell.len() ==> is_dash(#[trigger] cell[i])
}

pub open spec fn is_rule(cells: Seq<Seq<char>>) -> bool {
    cells.len() > 0 && forall|i: int| 0 <= i < cells.len() ==> all_dashes(#[trigger] cells[i])
}

fn parse_row(line: &Vec<char>) -> (r: Vec<String>)
    ensures
        lines_of(r@) == row_cells(line@),
{
    let parts = split_chars_on(line, '|');
    let ghost whole = split_on(line@, '|');
    let n: usize = parts.len();
    assert(texts(parts@).len() == n);
    assert(whole.last() == parts@[n - 1]@);
    let blank = trim(&parts[n - 1]).len() == 0;
    let end: usize = if n > 1 && blank {
        n - 1
    } else {
        n
    };
    let ghost cells = row_cells(line@);
    assert(row_parts(line@) == whole.subrange(1, end as int));
    let mut r: Vec<String> = Vec::new();
    let mut i: usize = 1;
    assert(lines_of(r@) =~= cells.take(0));
    while i < end
        invariant
            1 <= i <= end <= n,
            n == parts@.len(),
            whole == texts(parts@),
            cells == row_cells(line@),
            row_parts(line@) == whole.subrange(1, end as int),
            lines_of(r@) == cells.take(i - 1),
        decreases end - i,
    {
        let cell = string_of(&trim(&parts[i]));
        assert(whole[i as int] == parts@[i as int]@);
        assert(whole.subrange(1, end as int)[i - 1] == whole[i as int]);
        assert(cells[i - 1] == trimmed(whole[i as int]));
        push_row(&mut r, cell);
        i += 1;
        assert(lines_of(r@) =~= cells.take(i - 1));
    }
    assert(lines_of(r@) =~= cells);
    r
}

fn dashes(cell: &str) -> (r: bool)
    ensures
        r == all_dashes(cell@),
{
    let chars = chars_of(cell);
    if chars.len() == 0 {
        return false;
    }
    let mut i: usize = 0;
    while i < chars.len()
        invariant
            i <= chars@.len(),
            chars@ == cell@,
            forall|k: int| 0 <= k < i ==> is_dash(#[trigger] cell@[k]),
        decreases chars@.len() - i,
    {
        if chars[i] != '-' && chars[i] != ':' {
            assert(!is_dash(cell@[i as int]));
            return false;
        }
        i += 1;
    }
    true
}

fn is_rule_row(cells: &Vec<String>) -> (r: bool)
    ensures
        r == is_rule(lines_of(cells@)),
{
    let ghost all = lines_of(cells@);
    if cells.len() == 0 {
        return false;
    }
    let mut i: usize = 0;
    while i < cells.len()
        invariant
            i <= cells@.len(),
            all == lines_of(cells@),
            forall|k: int| 0 <= k < i ==> all_dashes(#[trigger] all[k]),
        decreases cells@.len() - i,
    {
        assert(all[i as int] == cells@[i as int]@);
        if !dashes(cells[i].as_str()) {
            assert(!all_dashes(all[i as int]));
            return false;
        }
        i += 1;
    }
    true
}

// ---------------------------------------------------------------------------
// Measures of a table

/// A table: the cells of its rows.
pub open spec fn cells_of(lines: Seq<Seq<char>>) -> Seq<Seq<Seq<char>>> {
    lines.map_values(|line: Seq<char>| row_cells(line))
}

pub open spec fn cell_at(cells: Seq<Seq<char>>, k: int) -> Seq<char> {
    if k < cells.len() {
        cells[k]
    } else {
        ""@
    }
}

/// The columns of a table: as many as its longest row has.
pub open spec fn column_count(rows: Seq<Seq<Seq<char>>>) -> nat
    decreases rows.len(),
{
    if rows.len() == 0 {
        0
    } else {
        at_least(column_count(rows.drop_last()), rows.last().len())
    }
}

/// The width of a column: that of its widest cell.
pub open spec fn widest(rows: Seq<Seq<Seq<char>>>, k: int) -> nat
    decreases rows.len(),
{
    if rows.len() == 0 {
        0
    } else if is_rule(rows.last()) {
        widest(rows.drop_last(), k)
    } else {
        at_least(widest(rows.drop_last(), k), visible_columns(cell_at(rows.last(), k)))
    }
}

pub open spec fn column_widths(rows: Seq<Seq<Seq<char>>>) -> Seq<nat> {
    Seq::new(column_count(rows), |k: int| widest(rows, k))
}

/// The cells of rows of strings.
pub open spec fn grid(rows: Seq<Vec<String>>) -> Seq<Seq<Seq<char>>> {
    rows.map_values(|row: Vec<String>| lines_of(row@))
}

pub open spec fn sizes(widths: Seq<usize>) -> Seq<nat> {
    widths.map_values(|w: usize| w as nat)
}

fn count_columns(rows: &Vec<Vec<String>>) -> (r: usize)
    ensures
        r as nat == column_count(grid(rows@)),
{
    let ghost all = grid(rows@);
    let mut n: usize = 0;
    let mut i: usize = 0;
    while i < rows.len()
        invariant
            i <= rows@.len(),
            all == grid(rows@),
            n as nat == column_count(all.take(i as int)),
        decreases rows@.len() - i,
    {
        assert(all.take(i + 1).drop_last() =~= all.take(i as int));
        assert(all.take(i + 1).last() == lines_of(rows@[i as int]@));
        assert(lines_of(rows@[i as int]@).len() == rows@[i as int]@.len());
        n = larger(n, rows[i].len());
        i += 1;
    }
    assert(all.take(i as int) =~= all);
    n
}

fn measure(rows: &Vec<Vec<String>>, k: usize) -> (r: usize)
    ensures
        r as nat == widest(grid(rows@), k as int),
{
    proof {
        reveal_strlit("");
    }
    let ghost all = grid(rows@);
    let mut n: usize = 0;
    let mut i: usize = 0;
    while i < rows.len()
        invariant
            i <= rows@.len(),
            all == grid(rows@),
            n as nat == widest(all.take(i as int), k as int),
        decreases rows@.len() - i,
    {
        assert(all.take(i + 1).drop_last() =~= all.take(i as int));
        let row = &rows[i];
        assert(all.take(i + 1).last() == lines_of(row@));
        assert(lines_of(row@).len() == row@.len());
        if !is_rule_row(row) {
            let cell = if k < row.len() {
                assert(lines_of(row@)[k as int] == row@[k as int]@);
                row[k].as_str()
            } else {
                ""
            };
            n = larger(n, visible_width(cell));
        }
        i += 1;
    }
    assert(all.take(i as int) =~= all);
    n
}

fn measure_columns(rows: &Vec<Vec<String>>) -> (r: Vec<usize>)
    ensures
        sizes(r@) == column_widths(grid(rows@)),
{
    let n: usize = count_columns(rows);
    let ghost all = column_widths(grid(rows@));
    let mut r: Vec<usize> = Vec::new();
    let mut k: usize = 0;
    while k < n
        invariant
            k <= n,
            n as nat == column_count(grid(rows@)),
            all == column_widths(grid(rows@)),
            sizes(r@) == all.take(k as int),
        decreases n - k,
    {
        let w: usize = measure(rows, k);
        let ghost before = sizes(r@);
        r.push(w);
        assert(sizes(r@) =~= before.push(w as nat));
        assert(all[k as int] == w as nat);
        k += 1;
        assert(sizes(r@) =~= all.take(k as int));
    }
    assert(sizes(r@) =~= all);
    r
}

// ---------------------------------------------------------------------------
// Drawing

/// A rule over the first columns of a table.
pub open spec fn rule_text(
    widths: Seq<nat>,
    n: nat,
    left: Seq<char>,
    mid: Seq<char>,
    right: Seq<char>,
) -> Seq<char>
    decreases n,
{
    if n == 0 {
        left
    } else {
        rule_text(widths, (n - 1) as nat, left, mid, right) + "──"@ + repeated('─', widths[n - 1])
            + (if n == widths.len() {
            right
        } else {
            mid
        })
    }
}

/// The first cells of a row.
pub open spec fn cells_text(cells: Seq<Seq<char>>, widths: Seq<nat>, n: nat) -> Seq<char>
    decreases n,
{
    if n == 0 {
        "│"@
    } else {
        cells_text(cells, widths, (n - 1) as nat) + " "@ + fitted(
            cell_at(cells, n - 1),
            widths[n - 1],
        ) + " │"@
    }
}

pub open spec fn table_line(cells: Seq<Seq<char>>, widths: Seq<nat>) -> Seq<char> {
    if is_rule(cells) {
        rule_text(widths, widths.len(), "├"@, "┼"@, "┤"@)
    } else {
        cells_text(cells, widths, widths.len())
    }
}

/// The rows of a table, with a frame around it. A row of dashes is a rule.
pub open spec fn table_rows(lines: Seq<Seq<char>>, width: nat) -> Seq<Seq<char>> {
    let rows = cells_of(lines);
    let widths = column_widths(rows);
    seq![fitted(rule_text(widths, widths.len(), "┌"@, "┬"@, "┐"@), width)] + Seq::new(
        lines.len(),
        |i: int| fitted(table_line(rows[i], widths), width),
    ) + seq![fitted(rule_text(widths, widths.len(), "└"@, "┴"@, "┘"@), width)]
}

fn render_rule(widths: &Vec<usize>, left: &str, mid: &str, right: &str) -> (r: String)
    ensures
        r@ == rule_text(sizes(widths@), widths@.len(), left@, mid@, right@),
{
    let n: usize = widths.len();
    let mut r = left.to_owned();
    let mut k: usize = 0;
    while k < n
        invariant
            k <= n,
            n == widths@.len(),
            r@ == rule_text(sizes(widths@), k as nat, left@, mid@, right@),
        decreases n - k,
    {
        assert(sizes(widths@)[k as int] == widths@[k as int] as nat);
        assert(sizes(widths@).len() == n);
        let end = if k + 1 == n {
            right
        } else {
            mid
        };
        r = cat4(r.as_str(), "──", repeat('─', widths[k]).as_str(), end);
        k += 1;
    }
    r
}

fn render_cells(cells: &Vec<String>, widths: &Vec<usize>) -> (r: String)
    ensures
        r@ == cells_text(lines_of(cells@), sizes(widths@), widths@.len()),
{
    let n: usize = widths.len();
    let mut r = "│".to_owned();
    let mut k: usize = 0;
    while k < n
        invariant
            k <= n,
            n == widths@.len(),
            r@ == cells_text(lines_of(cells@), sizes(widths@), k as nat),
        decreases n - k,
    {
        assert(sizes(widths@)[k as int] == widths@[k as int] as nat);
        assert(lines_of(cells@).len() == cells@.len());
        let cell = if k < cells.len() {
            assert(lines_of(cells@)[k as int] == cells@[k as int]@);
            cells[k].as_str()
        } else {
            ""
        };
        r = cat4(r.as_str(), " ", fit_width(cell, widths[k]).as_str(), " │");
        k += 1;
    }
    r
}

fn render_table(lines: &Vec<Vec<char>>, from: usize, to: usize, width: usize) -> (r: Vec<String>)
    requires
        from <= to <= lines@.len(),
    ensures
        lines_of(r@) == table_rows(
            texts(lines@).subrange(from as int, to as int),
            width as nat,
        ),
{
    let ghost part = texts(lines@).subrange(from as int, to as int);
    let ghost all = cells_of(part);
    let mut rows: Vec<Vec<String>> = Vec::new();
    let mut i: usize = from;
    assert(grid(rows@) =~= all.take(0));
    while i < to
        invariant
            from <= i <= to <= lines@.len(),
            part == texts(lines@).subrange(from as int, to as int),
            all == cells_of(part),
            grid(rows@) == all.take(i - from),
        decreases to - i,
    {
        let row = parse_row(&lines[i]);
        let ghost before = grid(rows@);
        let ghost cells = lines_of(row@);
        assert(part[i - from] == texts(lines@)[i as int]);
        assert(texts(lines@)[i as int] == lines@[i as int]@);
        assert(all[i - from] == cells);
        rows.push(row);
        assert(grid(rows@) =~= before.push(cells));
        i += 1;
        assert(grid(rows@) =~= all.take(i - from));
    }
    assert(grid(rows@) =~= all);
    let widths = measure_columns(&rows);
    let ghost sides = column_widths(all);
    assert(sizes(widths@).len() == widths@.len());
    let mut r: Vec<String> = Vec::new();
    assert(lines_of(r@) =~= Seq::empty());
    push_row(&mut r, fit_width(render_rule(&widths, "┌", "┬", "┐").as_str(), width));
    let ghost head = seq![fitted(rule_text(sides, sides.len(), "┌"@, "┬"@, "┐"@), width as nat)];
    let ghost body = Seq::new(
        part.len(),
        |i: int| fitted(table_line(all[i], sides), width as nat),
    );
    let n: usize = rows.len();
    assert(grid(rows@).len() == n);
    assert(lines_of(r@) =~= head + body.take(0));
    let mut k: usize = 0;
    while k < n
        invariant
            k <= n,
            n == rows@.len(),
            all == grid(rows@),
            all.len() == part.len(),
            all.len() == n,
            sides == sizes(widths@),
            sides.len() == widths@.len(),
            body == Seq::new(
                part.len(),
                |i: int| fitted(table_line(all[i], sides), width as nat),
            ),
            lines_of(r@) == head + body.take(k as int),
        decreases n - k,
    {
        let row = &rows[k];
        assert(all[k as int] == lines_of(row@));
        let text = if is_rule_row(row) {
            render_rule(&widths, "├", "┼", "┤")
        } else {
            render_cells(row, &widths)
        };
        let line = fit_width(text.as_str(), width);
        assert(line@ == body[k as int]);
        push_row(&mut r, line);
        k += 1;
        assert(lines_of(r@) =~= head + body.take(k as int));
    }
    push_row(&mut r, fit_width(render_rule(&widths, "└", "┴", "┘").as_str(), width));
    assert(lines_of(r@) =~= table_rows(part, width as nat));
    r
}

// ---------------------------------------------------------------------------
// Texts

/// How many of the last lines are rows of a table.
pub open spec fn last_rows(lines: Seq<Seq<char>>) -> nat
    decreases lines.len(),
{
    if lines.len() > 0 && is_row(lines.last()) {
        last_rows(lines.drop_last()) + 1
    } else {
        0
    }
}

/// The rows of a text: its tables, and its other lines wrapped.
pub open spec fn rendered(lines: Seq<Seq<char>>, width: nat) -> Seq<Seq<char>>
    decreases lines.len(),
{
    if lines.len() == 0 {
        Seq::empty()
    } else if last_rows(lines) == 0 {
        rendered(lines.drop_last(), width) + text_rows(lines.last(), width)
    } else if last_rows(lines) <= lines.len() {
        let start = lines.len() - last_rows(lines);
        rendered(lines.take(start), width) + table_rows(
            lines.subrange(start, lines.len() as int),
            width,
        )
    } else {
        Seq::empty()
    }
}

proof fn last_rows_are_counted(lines: Seq<Seq<char>>, start: int)
    requires
        0 <= start <= lines.len(),
        forall|i: int| start <= i < lines.len() ==> is_row(#[trigger] lines[i]),
        start > 0 ==> !is_row(lines[start - 1]),
    ensures
        last_rows(lines) == lines.len() - start,
    decreases lines.len() - start,
{
    if start < lines.len() {
        assert(is_row(lines[lines.len() - 1]));
        last_rows_are_counted(lines.drop_last(), start);
    }
}

fn is_row_line(line: &Vec<char>) -> (r: bool)
    ensures
        r == is_row(line@),
{
    line.len() > 0 && line[0] == '|'
}

/// Draws a text with its tables; see `rendered`.
pub fn render(text: &str, width: usize) -> (r: Vec<String>)
    ensures
        lines_of(r@) == rendered(text_lines(text@), width as nat),
{
    let lines = split_lines(&chars_of(text));
    let ghost all = text_lines(text@);
    let n: usize = lines.len();
    assert(all.len() == n);
    let mut r: Vec<String> = Vec::new();
    let mut i: usize = 0;
    assert(lines_of(r@) =~= rendered(all.take(0), width as nat));
    while i < n
        invariant
            i <= n,
            n == lines@.len(),
            all == texts(lines@),
            all.len() == n,
            0 < i < n && is_row(all[i as int]) ==> !is_row(all[i - 1]),
            lines_of(r@) == rendered(all.take(i as int), width as nat),
        decreases n - i,
    {
        assert(all[i as int] == lines@[i as int]@);
        let mut end: usize = i;
        let ghost start = i as int;
        while end < n && is_row_line(&lines[end])
            invariant
                start <= end <= n,
                n == lines@.len(),
                all == texts(lines@),
                all.len() == n,
                forall|k: int| start <= k < end ==> is_row(#[trigger] all[k]),
            ensures
                start <= end <= n,
                forall|k: int| start <= k < end ==> is_row(#[trigger] all[k]),
                end < n ==> !is_row(all[end as int]),
            decreases n - end,
        {
            assert(all[end as int] == lines@[end as int]@);
            end += 1;
        }
        if end > i {
            let rows = render_table(&lines, i, end, width);
            let ghost now = all.take(end as int);
            proof {
                assert forall|k: int| start <= k < now.len() implies is_row(#[trigger] now[k]) by {
                    assert(is_row(all[k]));
                }
                assert(is_row(all[start]));
                last_rows_are_counted(now, start);
                assert(now.take(start) =~= all.take(start));
                assert(now.subrange(start, now.len() as int) =~= all.subrange(start, end as int));
            }
            push_rows(&mut r, rows);
            i = end;
        } else {
            let rows = wrap_text(&lines[i], width);
            let ghost now = all.take(i + 1);
            proof {
                assert(!is_row(all[start]));
                assert(now.last() == all[start]);
                assert(now.drop_last() =~= all.take(start));
            }
            push_rows(&mut r, rows);
            i += 1;
        }
    }
    assert(all.take(i as int) =~= all);
    r
}

// ---------------------------------------------------------------------------
// Laws

/// A table takes a row for each of its lines, and two for its frame.
pub proof fn tables_keep_their_rows(lines: Seq<Seq<char>>, width: nat)
    requires
        lines.len() > 0,
        forall|i: int| 0 <= i < lines.len() ==> is_row(#[trigger] lines[i]),
    ensures
        rendered(lines, width).len() == lines.len() + 2,
{
    last_rows_are_counted(lines, 0);
    assert(rendered(lines.take(0), width).len() == 0);
}

/// A row of a table as it is written: its cells between bars.
pub open spec fn written_row(cells: Seq<Seq<char>>) -> Seq<char>
    decreases cells.len(),
{
    if cells.len() == 0 {
        seq!['|']
    } else {
        written_row(cells.drop_last()) + seq![' '] + cells.last() + seq![' ', '|']
    }
}

proof fn written_parts(cells: Seq<Seq<char>>)
    requires
        forall|i: int| 0 <= i < cells.len() ==> !(#[trigger] cells[i]).contains('|'),
    ensures
        written_row(cells).len() > 0 && written_row(cells)[0] == '|',
        split_on(written_row(cells), '|').len() == cells.len() + 2,
        split_on(written_row(cells), '|').last().len() == 0,
        forall|i: int|
            0 <= i < cells.len() ==> #[trigger] split_on(written_row(cells), '|')[i + 1] == seq![' ']
                + cells[i] + seq![' '],
    decreases cells.len(),
{
    if cells.len() == 0 {
        reveal_with_fuel(split_on, 3);
        assert(seq!['|'].drop_last() =~= Seq::<char>::empty());
    } else {
        let before = cells.drop_last();
        assert forall|i: int| 0 <= i < before.len() implies !(#[trigger] before[i]).contains('|') by {
            assert(before[i] == cells[i]);
        }
        written_parts(before);
        let head = written_row(before);
        let cell = cells.last();
        assert(cell == cells[cells.len() - 1]);
        let middle = seq![' '] + cell + seq![' '];
        assert(!middle.contains('|')) by {
            if middle.contains('|') {
                let k = choose|k: int| 0 <= k < middle.len() && middle[k] == '|';
                assert(cell[k - 1] == '|');
            }
        }
        let none = Seq::<char>::empty();
        bar_ends(before);
        let open = head.drop_last();
        assert(open.push('|') =~= head);
        crate::text::split_at_separator(open, middle, '|');
        crate::text::split_without_separator(middle, '|');
        crate::text::split_at_separator(open, none, '|');
        crate::text::split_without_separator(none, '|');
        assert(open.push('|') + none =~= head);
        crate::text::split_at_separator(head + middle, none, '|');
        assert(written_row(cells) =~= (head + middle).push('|') + none);
        assert(split_on(head, '|') == split_on(open, '|') + seq![none]);
        assert(split_on(head + middle, '|') == split_on(open, '|') + seq![middle]);
        let parts = split_on(written_row(cells), '|');
        assert(parts == split_on(open, '|') + seq![middle] + seq![none]);
        assert forall|i: int| 0 <= i < cells.len() implies #[trigger] parts[i + 1] == seq![' ']
            + cells[i] + seq![' '] by {
            if i < before.len() {
                assert(split_on(head, '|')[i + 1] == seq![' '] + before[i] + seq![' ']);
                assert(parts[i + 1] == split_on(open, '|')[i + 1]);
            }
        }
    }
}

proof fn bar_ends(cells: Seq<Seq<char>>)
    ensures
        written_row(cells).len() > 0,
        written_row(cells).last() == '|',
{
}

/// A row that is written with its cells between bars is read as these cells.
pub proof fn cells_read_back(cells: Seq<Seq<char>>)
    requires
        forall|i: int| 0 <= i < cells.len() ==> !(#[trigger] cells[i]).contains('|'),
        forall|i: int| 0 <= i < cells.len() ==> trimmed(#[trigger] cells[i]) == cells[i],
    ensures
        is_row(written_row(cells)),
        row_cells(written_row(cells)) == cells,
{
    written_parts(cells);
    let parts = split_on(written_row(cells), '|');
    crate::text::trimmed_text_stays(Seq::<char>::empty());
    assert(parts.last() =~= Seq::<char>::empty());
    let inner = row_parts(written_row(cells));
    assert(inner == parts.subrange(1, parts.len() - 1));
    assert forall|i: int| 0 <= i < cells.len() implies #[trigger] row_cells(written_row(cells))[i]
        == cells[i] by {
        assert(inner[i] == parts[i + 1]);
        blanks_are_trimmed(cells[i]);
    }
    assert(row_cells(written_row(cells)) =~= cells);
}

proof fn blanks_are_trimmed(s: Seq<char>)
    requires
        trimmed(s) == s,
    ensures
        trimmed(seq![' '] + s + seq![' ']) == s,
{
    crate::text::white_space_is_blank();
    let t = seq![' '] + s + seq![' '];
    let a = crate::text::trimming_cuts_white_space(s);
    let b = crate::text::trimming_cuts_white_space(t);
    assert(s.subrange(a.0, a.1) == s);
    assert(a.0 == 0 && a.1 == s.len());
    if s.len() > 0 {
        assert(t[1] == s[0] && t[s.len() as int] == s[s.len() - 1]);
        assert(b.0 <= 1 && b.1 >= s.len() + 1);
        assert(t[0] == ' ' && t[s.len() as int + 1] == ' ');
        assert(b.0 == 1 && b.1 == s.len() + 1);
        assert(t.subrange(1, s.len() as int + 1) =~= s);
    } else {
        if b.0 < b.1 {
            assert(t[b.0] == ' ');
        }
        assert(t.subrange(b.0, b.1) =~= s);
    }
}

/// A column is as wide as its widest cell: no cell is wider, and one is as wide
/// where the column has a width at all. Rules have no width.
pub proof fn columns_hold_their_widest_cell(rows: Seq<Seq<Seq<char>>>, k: int)
    ensures
        forall|i: int|
            0 <= i < rows.len() && !is_rule(rows[i]) ==> visible_columns(
                cell_at(#[trigger] rows[i], k),
            ) <= widest(rows, k),
        widest(rows, k) > 0 ==> exists|i: int|
            0 <= i < rows.len() && !is_rule(rows[i]) && visible_columns(
                cell_at(#[trigger] rows[i], k),
            ) == widest(rows, k),
    decreases rows.len(),
{
    if rows.len() > 0 {
        let before = rows.drop_last();
        columns_hold_their_widest_cell(before, k);
        assert forall|i: int| 0 <= i < rows.len() && !is_rule(rows[i]) implies visible_columns(
            cell_at(#[trigger] rows[i], k),
        ) <= widest(rows, k) by {
            if i < before.len() {
                assert(before[i] == rows[i]);
            }
        }
        if widest(rows, k) > 0 {
            if widest(rows, k) == widest(before, k) {
                let i = choose|i: int|
                    0 <= i < before.len() && !is_rule(before[i]) && visible_columns(
                        cell_at(#[trigger] before[i], k),
                    ) == widest(before, k);
                assert(rows[i] == before[i]);
            } else {
                assert(rows[rows.len() - 1] == rows.last());
            }
        }
    }
}

/// A table has as many columns as its longest row.
pub proof fn tables_have_room_for_every_cell(rows: Seq<Seq<Seq<char>>>)
    ensures
        forall|i: int| 0 <= i < rows.len() ==> (#[trigger] rows[i]).len() <= column_count(rows),
        column_widths(rows).len() == column_count(rows),
    decreases rows.len(),
{
    if rows.len() > 0 {
        let before = rows.drop_last();
        tables_have_room_for_every_cell(before);
        assert forall|i: int| 0 <= i < rows.len() implies (#[trigger] rows[i]).len() <= column_count(
            rows,
        ) by {
            if i < before.len() {
                assert(before[i] == rows[i]);
            }
        }
    }
}

/// A line that is no row of a table is wrapped behind what stands before it.
pub proof fn other_lines_are_wrapped(lines: Seq<Seq<char>>, line: Seq<char>, width: nat)
    requires
        !is_row(line),
    ensures
        rendered(lines.push(line), width) == rendered(lines, width) + text_rows(line, width),
        rendered(Seq::empty(), width).len() == 0,
{
    assert(lines.push(line).drop_last() =~= lines);
}

/// A row of a table has a cell for each column, in their order, each as wide as
/// its column; a rule is drawn as one.
pub proof fn rows_are_drawn_cell_by_cell(cells: Seq<Seq<char>>, widths: Seq<nat>, n: nat)
    requires
        n < widths.len(),
    ensures
        cells_text(cells, widths, n + 1) == cells_text(cells, widths, n) + " "@ + fitted(
            if n < cells.len() {
                cells[n as int]
            } else {
                ""@
            },
            widths[n as int],
        ) + " │"@,
        cells_text(cells, widths, 0) == "│"@,
        !is_rule(cells) ==> table_line(cells, widths) == cells_text(cells, widths, widths.len()),
        is_rule(cells) ==> table_line(cells, widths) == rule_text(
            widths,
            widths.len(),
            "├"@,
            "┼"@,
            "┤"@,
        ),
{
}

} // verus!
