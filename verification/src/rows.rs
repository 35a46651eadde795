//! Rows of the screen.

use vstd::prelude::*;
use crate::markdown::{lines_of, repeat, spaces};

verus! {

broadcast use vstd::string::group_string_axioms;

/// A difference that does not go below zero.
pub open spec fn minus(a: nat, b: nat) -> nat {
    if a < b {
        0
    } else {
        (a - b) as nat
    }
}

pub open spec fn at_least(n: nat, least: nat) -> nat {
    if n < least {
        least
    } else {
        n
    }
}

pub open spec fn at_most(n: nat, most: nat) -> nat {
    if n > most {
        most
    } else {
        n
    }
}

pub fn larger(a: usize, b: usize) -> (r: usize)
    ensures
        r as nat == at_least(a as nat, b as nat),
{
    if a < b {
        b
    } else {
        a
    }
}

pub fn smaller(a: usize, b: usize) -> (r: usize)
    ensures
        r as nat == at_most(a as nat, b as nat),
{
    if a > b {
        b
    } else {
        a
    }
}

/// Blank rows of a width.
pub open spec fn blank_rows(width: nat, n: nat) -> Seq<Seq<char>> {
    Seq::new(n, |i: int| spaces(width))
}

/// Rows cut to a height, or filled up to it with blank ones.
pub open spec fn sized(rows: Seq<Seq<char>>, width: nat, height: nat) -> Seq<Seq<char>> {
    if rows.len() < height {
        rows + blank_rows(width, (height - rows.len()) as nat)
    } else {
        rows.take(height as int)
    }
}

/// Rows with one row replaced. Where there are fewer rows, blank ones are put
/// before it.
pub open spec fn placed(rows: Seq<Seq<char>>, at: nat, row: Seq<char>, width: nat) -> Seq<
    Seq<char>,
> {
    if at < rows.len() {
        rows.update(at as int, row)
    } else {
        sized(rows, width, at).push(row)
    }
}

/// Rows with a block of rows placed from a row on.
pub open spec fn overlaid(
    rows: Seq<Seq<char>>,
    at: nat,
    block: Seq<Seq<char>>,
    width: nat,
) -> Seq<Seq<char>>
    decreases block.len(),
{
    if block.len() == 0 {
        rows
    } else {
        placed(
            overlaid(rows, at, block.drop_last(), width),
            (at + block.len() - 1) as nat,
            block.last(),
            width,
        )
    }
}

pub fn push_row(rows: &mut Vec<String>, row: String)
    ensures
        lines_of(final(rows)@) == lines_of(old(rows)@).push(row@),
{
    rows.push(row);
    assert(lines_of(rows@) =~= lines_of(old(rows)@).push(row@));
}

pub fn push_rows(rows: &mut Vec<String>, more: Vec<String>)
    ensures
        lines_of(final(rows)@) == lines_of(old(rows)@) + lines_of(more@),
{
    let mut more = more;
    let ghost added = more@;
    rows.append(&mut more);
    assert(lines_of(rows@) =~= lines_of(old(rows)@) + lines_of(added));
}

/// Adds blank rows.
pub fn push_blank_rows(rows: &mut Vec<String>, width: usize, n: usize)
    ensures
        lines_of(final(rows)@) == lines_of(old(rows)@) + blank_rows(width as nat, n as nat),
{
    let mut i: usize = 0;
    assert(lines_of(rows@) =~= lines_of(old(rows)@) + blank_rows(width as nat, 0));
    while i < n
        invariant
            i <= n,
            lines_of(rows@) == lines_of(old(rows)@) + blank_rows(width as nat, i as nat),
        decreases n - i,
    {
        push_row(rows, repeat(' ', width));
        assert(blank_rows(width as nat, (i + 1) as nat) =~= blank_rows(width as nat, i as nat).push(
            spaces(width as nat),
        ));
        i += 1;
        assert(lines_of(rows@) =~= lines_of(old(rows)@) + blank_rows(width as nat, i as nat));
    }
}

/// Cuts or fills rows to a height; see `sized`.
pub fn size_rows(rows: &mut Vec<String>, width: usize, height: usize)
    ensures
        lines_of(final(rows)@) == sized(lines_of(old(rows)@), width as nat, height as nat),
{
    let n: usize = rows.len();
    assert(lines_of(rows@).len() == n);
    if n < height {
        push_blank_rows(rows, width, height - n);
    } else {
        rows.truncate(height);
        assert(lines_of(rows@) =~= lines_of(old(rows)@).take(height as int));
    }
}

/// Places a row; see `placed`.
pub fn place_row(rows: &mut Vec<String>, at: usize, row: String, width: usize)
    ensures
        lines_of(final(rows)@) == placed(lines_of(old(rows)@), at as nat, row@, width as nat),
{
    let n: usize = rows.len();
    assert(lines_of(rows@).len() == n);
    if at < n {
        rows.set(at, row);
        assert(lines_of(rows@) =~= lines_of(old(rows)@).update(at as int, row@));
    } else {
        size_rows(rows, width, at);
        push_row(rows, row);
    }
}

/// Places a block of rows; see `overlaid`.
pub fn overlay_rows(rows: &mut Vec<String>, at: usize, block: &Vec<String>, width: usize)
    requires
        at + block@.len() <= usize::MAX,
    ensures
        lines_of(final(rows)@) == overlaid(
            lines_of(old(rows)@),
            at as nat,
            lines_of(block@),
            width as nat,
        ),
{
    let ghost all = lines_of(block@);
    let mut i: usize = 0;
    assert(all.take(0) =~= Seq::empty());
    while i < block.len()
        invariant
            i <= block@.len(),
            at + block@.len() <= usize::MAX,
            all == lines_of(block@),
            lines_of(rows@) == overlaid(
                lines_of(old(rows)@),
                at as nat,
                all.take(i as int),
                width as nat,
            ),
        decreases block@.len() - i,
    {
        assert(all.take(i + 1).drop_last() =~= all.take(i as int));
        place_row(rows, at + i, block[i].clone(), width);
        i += 1;
    }
    assert(all.take(i as int) =~= all);
}

/// The rows from one up to another.
pub fn rows_between(rows: &Vec<String>, from: usize, to: usize) -> (r: Vec<String>)
    requires
        from <= to <= rows@.len(),
    ensures
        lines_of(r@) == lines_of(rows@).subrange(from as int, to as int),
{
    let mut r: Vec<String> = Vec::new();
    let mut i: usize = from;
    assert(lines_of(r@) =~= lines_of(rows@).subrange(from as int, from as int));
    while i < to
        invariant
            from <= i <= to <= rows@.len(),
            lines_of(r@) == lines_of(rows@).subrange(from as int, i as int),
        decreases to - i,
    {
        push_row(&mut r, rows[i].clone());
        i += 1;
        assert(lines_of(r@) =~= lines_of(rows@).subrange(from as int, i as int));
    }
    r
}

/// Rows that are filled up to a height have that height.
pub proof fn sized_is_exact(rows: Seq<Seq<char>>, width: nat, height: nat)
    ensures
        sized(rows, width, height).len() == height,
{
}

/// A row is put where it belongs, and the other rows stay; where there are not
/// so many, blank ones come between.
pub proof fn rows_are_put_in_place(rows: Seq<Seq<char>>, at: nat, row: Seq<char>, width: nat, i: int)
    requires
        0 <= i,
        i < rows.len() || i <= at,
    ensures
        placed(rows, at, row, width)[at as int] == row,
        i != at && i < rows.len() ==> placed(rows, at, row, width)[i] == rows[i],
        rows.len() <= i < at ==> placed(rows, at, row, width)[i] == spaces(width),
        at < rows.len() ==> placed(rows, at, row, width).len() == rows.len(),
{
}

/// Rows that are sized keep their beginning, and are filled with blank ones.
pub proof fn sized_rows_keep_their_beginning(
    rows: Seq<Seq<char>>,
    width: nat,
    height: nat,
    i: int,
)
    requires
        0 <= i < height,
    ensures
        i < rows.len() ==> sized(rows, width, height)[i] == rows[i],
        i >= rows.len() ==> sized(rows, width, height)[i] == spaces(width),
{
}

} // verus!
