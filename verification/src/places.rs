//! Places in a wrapped text: the rows and columns that the cursor moves by.

use vstd::prelude::*;
use crate::editor::{pieces_of, text_rows};
use crate::markdown::{char_columns, chunks, columns, total_columns};
use crate::text::split_on;

verus! {

/// The row of a place in a text that is wrapped at a width.
pub open spec fn row_of(text: Seq<char>, at: int, width: nat) -> int {
    text_rows(text.take(at), width).len() - 1
}

/// The columns of the row before a place.
pub open spec fn column_of(text: Seq<char>, at: int, width: nat) -> nat {
    total_columns(text_rows(text.take(at), width).last())
}

/// The place of a row that is next to a column: the last one that is not
/// behind it, or the first of the row. Only the first places are looked at.
pub open spec fn place_on(
    text: Seq<char>,
    width: nat,
    row: int,
    column: nat,
    places: int,
) -> Option<int>
    decreases places,
{
    if places <= 0 {
        None
    } else {
        let before = place_on(text, width, row, column, places - 1);
        let p = places - 1;
        if row_of(text, p, width) == row && (before is None || column_of(text, p, width)
            <= column) {
            Some(p)
        } else {
            before
        }
    }
}

/// The place next to a column, on the row above or below a place.
pub open spec fn place_beside(text: Seq<char>, at: int, width: nat, up: bool) -> Option<int> {
    let row = row_of(text, at, width);
    place_on(
        text,
        width,
        if up {
            row - 1
        } else {
            row + 1
        },
        column_of(text, at, width),
        text.len() as int + 1,
    )
}

/// Where a text ends once it is wrapped.
struct Place {
    row: usize,
    column: usize,
    /// Whether the last line is empty.
    blank: bool,
}

impl Place {
    spec fn ends(self, s: Seq<char>, width: nat) -> bool {
        let rows = text_rows(s, width);
        &&& rows.len() > 0
        &&& self.row == rows.len() - 1
        &&& self.column == total_columns(rows.last())
        &&& self.blank == (split_on(s, '\n').last().len() == 0)
        &&& self.column <= width || self.column <= 3
    }
}

proof fn rows_after(s: Seq<char>, c: char, width: nat)
    ensures
        ({
            let rows = text_rows(s, width);
            let now = text_rows(s.push(c), width);
            let blank = split_on(s, '\n').last().len() == 0;
            &&& rows.len() > 0
            &&& c == '\n' ==> now == rows.push(Seq::empty()) && split_on(
                s.push(c),
                '\n',
            ).last().len() == 0
            &&& c != '\n' ==> split_on(s.push(c), '\n').last().len() > 0
            &&& c != '\n' && (blank || total_columns(rows.last()) + columns(c) <= width) ==> now
                == rows.drop_last().push(rows.last().push(c))
            &&& c != '\n' && !blank && total_columns(rows.last()) + columns(c) > width ==> now
                == rows.push(seq![c])
            &&& blank ==> rows.last().len() == 0
        }),
{
    let before = split_on(s, '\n');
    let after = split_on(s.push(c), '\n');
    let rows = text_rows(s, width);
    let now = text_rows(s.push(c), width);
    assert(s.push(c).drop_last() =~= s);
    crate::text::split_joins_back(s, '\n');
    let line = before.last();
    let head = pieces_of(before.drop_last(), width);
    if c == '\n' {
        assert(after.drop_last() =~= before);
        assert(after.last() =~= Seq::<char>::empty());
        assert(now =~= rows.push(Seq::empty()));
    } else {
        assert(after.drop_last() =~= before.drop_last());
        assert(after.last() =~= line.push(c));
        assert(line.push(c).drop_last() =~= line);
        if line.len() == 0 {
            assert(line =~= Seq::empty());
            reveal_with_fuel(chunks, 2);
            assert(chunks(line.push(c), width) =~= seq![seq![c]]);
            assert(rows =~= head.push(Seq::empty()));
            assert(rows.drop_last() =~= head);
            assert(rows.last().push(c) =~= seq![c]);
            assert(now =~= head.push(seq![c]));
        } else {
            let pieces = chunks(line, width);
            assert(pieces.len() > 0);
            assert(rows == head + pieces);
            assert(rows.last() == pieces.last());
            assert(rows.drop_last() =~= head + pieces.drop_last());
            if total_columns(pieces.last()) + columns(c) <= width {
                assert(now =~= rows.drop_last().push(rows.last().push(c)));
            } else {
                assert(now =~= rows.push(seq![c]));
            }
        }
    }
}

proof fn rows_of_nothing(width: nat)
    ensures
        text_rows(Seq::empty(), width) == seq![Seq::<char>::empty()],
        split_on(Seq::empty(), '\n').last().len() == 0,
{
    reveal_with_fuel(pieces_of, 2);
    let parts = split_on(Seq::empty(), '\n');
    assert(parts.drop_last() =~= Seq::empty());
    assert(text_rows(Seq::empty(), width) =~= seq![Seq::<char>::empty()]);
}

fn first_place(width: usize) -> (r: Place)
    ensures
        r.ends(Seq::empty(), width as nat),
        r.row == 0,
{
    proof {
        rows_of_nothing(width as nat);
    }
    Place { row: 0, column: 0, blank: true }
}

fn next_place(place: Place, c: char, width: usize, Ghost(s): Ghost<Seq<char>>) -> (r: Place)
    requires
        place.ends(s, width as nat),
        place.row < usize::MAX,
    ensures
        r.ends(s.push(c), width as nat),
        r.row <= place.row + 1,
{
    proof {
        rows_after(s, c, width as nat);
        reveal_with_fuel(total_columns, 2);
        let last = text_rows(s, width as nat).last();
        assert(last.push(c).drop_last() =~= last);
        assert(seq![c].drop_last() =~= Seq::<char>::empty());
    }
    if c == '\n' {
        return Place { row: place.row + 1, column: 0, blank: true };
    }
    let w: usize = char_columns(c);
    if place.blank {
        Place { row: place.row, column: w, blank: false }
    } else if w <= width && place.column <= width - w {
        Place { row: place.row, column: place.column + w, blank: false }
    } else {
        Place { row: place.row + 1, column: w, blank: false }
    }
}

fn place_at(text: &Vec<char>, at: usize, width: usize) -> (r: Place)
    requires
        at <= text@.len(),
    ensures
        r.ends(text@.take(at as int), width as nat),
        r.row <= at,
{
    let mut place = first_place(width);
    let mut i: usize = 0;
    assert(text@.take(0) =~= Seq::empty());
    while i < at
        invariant
            i <= at <= text@.len(),
            place.ends(text@.take(i as int), width as nat),
            place.row <= i,
        decreases at - i,
    {
        place = next_place(place, text[i], width, Ghost(text@.take(i as int)));
        assert(text@.take(i as int).push(text@[i as int]) =~= text@.take(i + 1));
        i += 1;
    }
    place
}

/// Finds the place above or below the cursor; see `place_beside`.
pub fn find_beside(text: &Vec<char>, at: usize, width: usize, up: bool) -> (r: Option<usize>)
    requires
        at <= text@.len(),
    ensures
        match r {
            Some(p) => p <= text@.len() && place_beside(text@, at as int, width as nat, up)
                == Some(p as int),
            None => place_beside(text@, at as int, width as nat, up) is None,
        },
{
    let start = place_at(text, at, width);
    let ghost w = width as nat;
    let ghost wanted = if up {
        start.row - 1
    } else {
        start.row + 1
    };
    let ghost column = start.column as nat;
    let mut best: Option<usize> = None;
    let mut place = first_place(width);
    let mut i: usize = 0;
    assert(text@.take(0) =~= Seq::empty());
    while i <= text.len()
        invariant
            i <= text@.len() + 1,
            w == width as nat,
            start.ends(text@.take(at as int), w),
            wanted == if up {
                start.row - 1
            } else {
                start.row + 1
            },
            column == start.column as nat,
            i <= text@.len() ==> place.ends(text@.take(i as int), w) && place.row <= i,
            match best {
                Some(p) => p <= text@.len() && place_on(text@, w, wanted, column, i as int) == Some(
                    p as int,
                ),
                None => place_on(text@, w, wanted, column, i as int) is None,
            },
        decreases text@.len() + 1 - i,
    {
        let there = if up {
            start.row > 0 && place.row == start.row - 1
        } else {
            place.row > 0 && place.row - 1 == start.row
        };
        if there && (best.is_none() || place.column <= start.column) {
            best = Some(i);
        }
        if i == text.len() {
            return best;
        }
        place = next_place(place, text[i], width, Ghost(text@.take(i as int)));
        assert(text@.take(i as int).push(text@[i as int]) =~= text@.take(i + 1));
        i += 1;
    }
    best
}

// ---------------------------------------------------------------------------
// Laws

/// The place that is chosen on a row is the last one whose column is not behind
/// the column that is wanted; where there is none, it is the first of the row.
/// None is chosen only where the row has no place.
pub proof fn nearest_place_is_chosen(
    text: Seq<char>,
    width: nat,
    row: int,
    column: nat,
    places: int,
)
    ensures
        match place_on(text, width, row, column, places) {
            Some(p) => {
                &&& 0 <= p < places
                &&& row_of(text, p, width) == row
                &&& forall|q: int|
                    p < q < places && #[trigger] row_of(text, q, width) == row ==> column_of(
                        text,
                        q,
                        width,
                    ) > column
                &&& column_of(text, p, width) <= column || forall|q: int|
                    0 <= q < p ==> #[trigger] row_of(text, q, width) != row
            },
            None => forall|q: int| 0 <= q < places ==> #[trigger] row_of(text, q, width) != row,
        },
    decreases places,
{
    if places > 0 {
        nearest_place_is_chosen(text, width, row, column, places - 1);
    }
}

} // verus!
