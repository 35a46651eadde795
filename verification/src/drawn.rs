//! What is drawn.

use vstd::prelude::*;
use crate::editor::{masked, text_rows, EditorModel};
use crate::frame::{
    background_notice, entry_row, front_of, input_view, menu_view, message_view, window_end,
    window_start, Overlays, PartsModel, PlanModel,
};
use crate::highlight::{
    comment_marker, highlighted, keyword, quoted_length, styled, word_char, word_length,
};
use crate::markdown::{
    ansi_after, chunks, columns, cut, fitted, reset, sgr, sgr_parameters, spaces, stripped,
    total_columns, truncated, visible_columns, wrap, wrapped, Ansi, ESC,
};
use crate::rows::{minus, overlaid};
use crate::screen::{
    barred, block_rows, composer_label, composer_rows, conversation_rows, frame_cursor,
    lower_rows, search_row, toast_rows, toasted, with_thumb, ScrollGeometry, WindowModel,
};
use crate::state::StateModel;
use crate::style::{foreground, painted, selection, UiColor};
use crate::text::{digit, starts};

verus! {

broadcast use vstd::string::group_string_axioms;

// ---------------------------------------------------------------------------
// Cells

proof fn plain_is_text(s: Seq<char>)
    requires
        !s.contains(ESC),
    ensures
        ansi_after(s) == Ansi::Text,
        stripped(s) == s,
        s.len() > 0 ==> !s.drop_last().contains(ESC),
    decreases s.len(),
{
    if s.len() > 0 {
        let before = s.drop_last();
        assert(!before.contains(ESC)) by {
            if before.contains(ESC) {
                let k = choose|k: int| 0 <= k < before.len() && before[k] == ESC;
                assert(s[k] == ESC);
            }
        }
        plain_is_text(before);
        assert(s.last() != ESC) by {
            assert(s[s.len() - 1] == s.last());
        }
        assert(before.push(s.last()) =~= s);
    }
}

/// A text without styles that is cut to a width keeps its first characters, as
/// many as fit: the next one would not. The number of them is `n`.
pub proof fn cut_text_keeps_its_beginning(s: Seq<char>, width: nat) -> (n: int)
    requires
        !s.contains(ESC),
    ensures
        0 <= n <= s.len(),
        cut(s, width).kept == s.take(n),
        cut(s, width).used == total_columns(s.take(n)),
        cut(s, width).used <= width,
        n < s.len() ==> total_columns(s.take(n)) + columns(s[n]) > width,
        cut(s, width).full <==> n < s.len(),
        cut(s, width).pending.len() == 0,
    decreases s.len(),
{
    if s.len() == 0 {
        assert(s.take(0) =~= Seq::<char>::empty());
        0
    } else {
        plain_is_text(s);
        let before = s.drop_last();
        plain_is_text(before);
        let m = cut_text_keeps_its_beginning(before, width);
        assert(s.last() == s[s.len() - 1]);
        assert(s.contains(s.last()));
        assert(before.take(m) =~= s.take(m));
        if m < before.len() {
            assert(before[m] == s[m]);
            m
        } else if total_columns(before) + columns(s.last()) > width {
            assert(before.take(m) =~= before);
            m
        } else {
            assert(before.take(m) =~= before);
            assert(s.take(s.len() as int) =~= s);
            assert(before.push(s.last()) =~= s);
            s.len() as int
        }
    }
}

/// A text that fits its cell stands in it as it is, with blanks behind it; one
/// that does not is cut.
pub proof fn cells_hold_their_text(s: Seq<char>, width: nat)
    requires
        !s.contains(ESC),
    ensures
        total_columns(s) <= width ==> fitted(s, width) == s + spaces(
            (width - total_columns(s)) as nat,
        ),
        exists|n: int|
            0 <= n <= s.len() && total_columns(#[trigger] s.take(n)) <= width && fitted(s, width)
                == s.take(n) + spaces((width - total_columns(s.take(n))) as nat),
{
    let n = cut_text_keeps_its_beginning(s, width);
    let none = Seq::<char>::empty();
    let blank = spaces((width - cut(s, width).used) as nat);
    assert(s.take(n) + blank + none =~= s.take(n) + blank);
    if total_columns(s) <= width {
        if n < s.len() {
            let head = s.take(n + 1);
            assert(head.drop_last() =~= s.take(n));
            assert(total_columns(head) == total_columns(s.take(n)) + columns(s[n]));
            assert(s =~= head + s.skip(n + 1));
            crate::markdown::total_columns_join(head, s.skip(n + 1));
        }
        assert(s.take(n) =~= s);
    }
}

/// A text that is too long ends in an ellipsis, and is no wider than it may be;
/// one that is not stays as it is.
pub proof fn long_texts_end_in_an_ellipsis(s: Seq<char>, width: nat)
    requires
        !s.contains(ESC),
        total_columns(s) <= usize::MAX,
        width > 0,
    ensures
        total_columns(s) <= width ==> truncated(s, width) == s,
        total_columns(s) > width ==> truncated(s, width).last() == '…' && exists|n: int|
            0 <= n < s.len() && total_columns(#[trigger] s.take(n)) < width && truncated(s, width)
                == s.take(n).push('…'),
{
    plain_is_text(s);
    if total_columns(s) > width {
        let n = cut_text_keeps_its_beginning(s, (width - 1) as nat);
        if n == s.len() {
            assert(s.take(n) =~= s);
        }
        assert(truncated(s, width) == s.take(n).push('…'));
        assert(total_columns(s.take(n)) < width);
    }
}

proof fn style_is_carried(p: Seq<char>, t: Seq<char>, width: nat)
    requires
        sgr_parameters(p),
        p.len() > 0,
        p != seq!['0'],
        !t.contains(ESC),
    ensures
        ({
            let w = wrap(sgr(p) + t, width);
            let rows = chunks(t, width);
            &&& ansi_after(sgr(p) + t) == Ansi::Text
            &&& w.style == sgr(p) && w.pending.len() == 0
            &&& t.len() == 0 ==> w.done.len() == 0 && w.current == sgr(p) && !w.filled && w.used == 0
            &&& t.len() > 0 ==> w.filled && rows.len() > 0 && w.done.len() == rows.len() - 1
                && w.current == sgr(p) + rows.last() && w.used == total_columns(rows.last())
            &&& forall|i: int|
                0 <= i < w.done.len() ==> #[trigger] w.done[i] == sgr(p) + rows[i] + reset()
        }),
    decreases t.len(),
{
    let s = sgr(p);
    crate::markdown::sgr_is_hidden(p);
    if t.len() == 0 {
        assert(s + t =~= s);
        opening_sets_the_style(p, width);
    } else {
        let before = t.drop_last();
        plain_is_text(t);
        style_is_carried(p, before, width);
        let c = t.last();
        assert(t.contains(c)) by {
            assert(t[t.len() - 1] == c);
        }
        assert((s + t).drop_last() =~= s + before);
        assert((s + t).last() == c);
        let rows = chunks(before, width);
        if rows.len() > 0 && total_columns(rows.last()) + columns(c) <= width {
            assert(s + rows.last().push(c) =~= (s + rows.last()).push(c));
            assert(rows.last().push(c).drop_last() =~= rows.last());
        } else {
            assert(seq![c].drop_last() =~= Seq::<char>::empty());
            assert(total_columns(seq![c]) == columns(c)) by {
                reveal_with_fuel(total_columns, 2);
            }
            assert(s.push(c) =~= s + seq![c]);
        }
    }
}

proof fn opening_sets_the_style(p: Seq<char>, width: nat)
    requires
        sgr_parameters(p),
        p.len() > 0,
        p != seq!['0'],
    ensures
        ({
            let w = wrap(sgr(p), width);
            &&& w.style == sgr(p) && w.pending.len() == 0 && w.done.len() == 0 && w.current == sgr(
                p,
            ) && !w.filled && w.used == 0
        }),
{
    let s = sgr(p);
    let open = seq![ESC, '['] + p;
    pending_grows(p, width);
    assert(s.drop_last() =~= open);
    assert(s.last() == 'm');
    reveal_strlit("\x1b[0m");
    reveal_strlit("\x1b[m");
    let all = wrap(open, width).pending.push('m');
    assert(all =~= s);
    assert(s != "\x1b[0m"@) by {
        if s == "\x1b[0m"@ {
            assert("\x1b[0m"@.len() == 4);
            assert(s.len() == p.len() + 3);
            assert(s[2] == p[0]);
            assert("\x1b[0m"@[2] == '0');
            assert(p =~= seq!['0']);
        }
    }
    assert(s != "\x1b[m"@) by {
        assert("\x1b[m"@.len() == 3);
        assert(s.len() == p.len() + 3);
    }
    assert(Seq::<char>::empty() + s =~= s);
}

proof fn pending_grows(p: Seq<char>, width: nat)
    requires
        sgr_parameters(p),
    ensures
        ({
            let open = seq![ESC, '['] + p;
            let w = wrap(open, width);
            &&& ansi_after(open) == Ansi::Sequence
            &&& w.pending == open && w.done.len() == 0 && w.current.len() == 0 && !w.filled
                && w.used == 0 && w.style.len() == 0
        }),
    decreases p.len(),
{
    let open = seq![ESC, '['] + p;
    if p.len() == 0 {
        assert(open =~= seq![ESC, '[']);
        assert(open.drop_last() =~= seq![ESC]);
        assert(seq![ESC].drop_last() =~= Seq::<char>::empty());
        reveal_with_fuel(wrap, 3);
        reveal_with_fuel(ansi_after, 3);
        assert(wrap(seq![ESC], width).pending =~= seq![ESC]);
        assert(wrap(open, width).pending =~= open);
    } else {
        let before = p.drop_last();
        assert forall|i: int| 0 <= i < before.len() implies ('0' <= #[trigger] before[i] <= '9'
            || before[i] == ';') by {
            assert(before[i] == p[i]);
        }
        pending_grows(before, width);
        assert(open.drop_last() =~= seq![ESC, '['] + before);
        assert(open.last() == p[p.len() - 1]);
        assert((seq![ESC, '['] + before).push(p.last()) =~= open);
    }
}

/// A styled line that is wrapped has its style on every row, from its beginning
/// to its end, and none of it behind a row.
pub proof fn wrapped_rows_keep_their_style(p: Seq<char>, t: Seq<char>, width: nat, i: int)
    requires
        sgr_parameters(p),
        p.len() > 0,
        p != seq!['0'],
        !t.contains(ESC),
        t.len() > 0,
        0 <= i < chunks(t, width).len(),
    ensures
        wrapped(sgr(p) + t, width).len() == chunks(t, width).len(),
        wrapped(sgr(p) + t, width)[i] == sgr(p) + chunks(t, width)[i] + reset(),
{
    style_is_carried(p, t, width);
}

/// A line that is painted goes on in its paint behind every style that ends in
/// it.
pub proof fn paint_goes_on_behind_styles(a: Seq<char>, b: Seq<char>, style: Seq<char>)
    requires
        !a.contains(ESC),
        !b.contains(ESC),
    ensures
        painted(a + reset() + b, style) == style + a + reset() + style + b + reset(),
        painted(a, style) == style + a + reset(),
{
    reveal_strlit("\x1b[0m");
    let r = reset();
    assert(r.len() == 4 && r[0] == ESC);
    let line = a + r + b;
    nothing_to_find(a, r);
    nothing_to_find(b, r);
    assert forall|k: int| 0 <= k < a.len() implies !#[trigger] crate::text::occurs_at(
        line,
        r,
        k,
    ) by {
        if crate::text::occurs_at(line, r, k) {
            assert(line.subrange(k, k + 4)[0] == line[k]);
            assert(line[k] == a[k]);
            assert(a.contains(ESC));
        }
    }
    assert(line.subrange(a.len() as int, a.len() as int + 4) =~= r);
    assert(crate::text::occurs_at(line, r, a.len() as int));
    crate::text::index_from_finds(line, r, 0);
    let at = crate::text::index_of(line, r)->0;
    assert(at == a.len());
    assert(line.take(at) =~= a);
    assert(line.skip(at + 4) =~= b);
    let parts = crate::text::split_text(line, r);
    assert(parts =~= seq![a, b]);
    assert(seq![a, b].drop_last() =~= seq![a]);
    reveal_with_fuel(crate::text::joined, 3);
    assert(crate::text::joined(parts, r + style) == a + (r + style) + b);
    assert(painted(line, style) =~= style + a + r + style + b + r);
}

proof fn nothing_to_find(s: Seq<char>, r: Seq<char>)
    requires
        !s.contains(ESC),
        r.len() > 0,
        r[0] == ESC,
    ensures
        crate::text::index_of(s, r) is None,
        crate::text::split_text(s, r) == seq![s],
{
    crate::text::index_from_finds(s, r, 0);
    match crate::text::index_of(s, r) {
        Some(i) => {
            assert(s.subrange(i, i + r.len() as int)[0] == s[i]);
            assert(s.contains(ESC));
        },
        None => {},
    }
}

/// What is laid over rows covers these rows and no others.
pub proof fn overlays_cover_their_rows(
    rows: Seq<Seq<char>>,
    at: nat,
    block: Seq<Seq<char>>,
    width: nat,
    i: int,
)
    requires
        at + block.len() <= rows.len(),
        0 <= i < rows.len(),
    ensures
        overlaid(rows, at, block, width).len() == rows.len(),
        at <= i < at + block.len() ==> overlaid(rows, at, block, width)[i] == block[i - at],
        i < at || i >= at + block.len() ==> overlaid(rows, at, block, width)[i] == rows[i],
    decreases block.len(),
{
    if block.len() > 0 {
        overlays_cover_their_rows(rows, at, block.drop_last(), width, i);
    }
}

// ---------------------------------------------------------------------------
// Highlighted code

proof fn word_is_run(w: Seq<char>, rest: Seq<char>)
    requires
        forall|i: int| 0 <= i < w.len() ==> word_char(#[trigger] w[i]),
        rest.len() == 0 || !word_char(rest[0]),
    ensures
        word_length(w + rest) == w.len(),
    decreases w.len(),
{
    let s = w + rest;
    if w.len() > 0 {
        assert(s[0] == w[0]);
        let tail = w.skip(1);
        assert forall|i: int| 0 <= i < tail.len() implies word_char(#[trigger] tail[i]) by {
            assert(tail[i] == w[i + 1]);
        }
        word_is_run(tail, rest);
        assert(s.skip(1) =~= tail + rest);
    } else {
        assert(s =~= rest);
    }
}

/// A word of a language that is one of its keywords is bold, a number is
/// colored, and any other word is plain; what follows is read anew.
pub proof fn words_are_highlighted(language: Seq<char>, w: Seq<char>, rest: Seq<char>)
    requires
        language.len() > 0,
        w.len() > 0,
        forall|i: int| 0 <= i < w.len() ==> word_char(#[trigger] w[i]),
        rest.len() == 0 || !word_char(rest[0]),
    ensures
        digit(w[0]) ==> highlighted(language, w + rest) == "\x1b[35m"@ + w + "\x1b[0m"@
            + highlighted(language, rest),
        !digit(w[0]) && keyword(language, w) ==> highlighted(language, w + rest) == "\x1b[1;34m"@
            + w + "\x1b[0m"@ + highlighted(language, rest),
        !digit(w[0]) && !keyword(language, w) ==> highlighted(language, w + rest) == w
            + highlighted(language, rest),
{
    word_is_run(w, rest);
    let s = w + rest;
    assert(s[0] == w[0]);
    assert(word_char(w[0]));
    assert(s.take(w.len() as int) =~= w);
    assert(s.skip(w.len() as int) =~= rest);
    reveal_strlit("#");
    reveal_strlit("//");
    reveal_strlit("");
    let marker = comment_marker(language);
    if marker.len() > 0 && starts(s, marker) {
        assert(s.take(marker.len() as int)[0] == s[0]);
        assert(marker[0] == '#' || marker[0] == '/');
    }
}

/// A comment goes to the end of its line, and is dim.
pub proof fn comments_go_to_the_end(language: Seq<char>, rest: Seq<char>)
    requires
        comment_marker(language).len() > 0,
    ensures
        highlighted(language, comment_marker(language) + rest) == "\x1b[2;36m"@ + (comment_marker(
            language,
        ) + rest) + "\x1b[0m"@,
{
    let marker = comment_marker(language);
    let s = marker + rest;
    assert(s.take(marker.len() as int) =~= marker);
    assert(s.take(s.len() as int) =~= s);
    assert(s.skip(s.len() as int) =~= Seq::<char>::empty());
    let none = Seq::<char>::empty();
    assert(highlighted(language, none) =~= none);
    assert(highlighted(language, s) == styled("\x1b[2;36m"@, s) + none);
    assert(styled("\x1b[2;36m"@, s) + none =~= "\x1b[2;36m"@ + s + "\x1b[0m"@);
}

proof fn quoted_is_run(t: Seq<char>, rest: Seq<char>)
    requires
        !t.contains('"'),
    ensures
        quoted_length(t.push('"') + rest, '"') == t.len() + 1,
    decreases t.len(),
{
    let s = t.push('"') + rest;
    if t.len() > 0 {
        assert(s[0] == t[0]);
        assert(t.contains(t[0]));
        let tail = t.skip(1);
        assert(!tail.contains('"')) by {
            if tail.contains('"') {
                let k = choose|k: int| 0 <= k < tail.len() && tail[k] == '"';
                assert(t[k + 1] == '"');
            }
        }
        quoted_is_run(tail, rest);
        assert(s.skip(1) =~= tail.push('"') + rest);
    } else {
        assert(s[0] == '"');
    }
}

/// A text in quotes is green, with its quotes.
pub proof fn quotes_are_highlighted(language: Seq<char>, t: Seq<char>, rest: Seq<char>)
    requires
        language.len() > 0,
        !t.contains('"'),
    ensures
        ({
            let quoted = seq!['"'] + t.push('"');
            highlighted(language, quoted + rest) == "\x1b[32m"@ + quoted + "\x1b[0m"@ + highlighted(
                language,
                rest,
            )
        }),
{
    let quoted = seq!['"'] + t.push('"');
    let s = quoted + rest;
    quoted_is_run(t, rest);
    assert(s.skip(1) =~= t.push('"') + rest);
    assert(s[0] == '"');
    assert(s.take(quoted.len() as int) =~= quoted);
    assert(s.skip(quoted.len() as int) =~= rest);
    reveal_strlit("#");
    reveal_strlit("//");
    reveal_strlit("");
    let marker = comment_marker(language);
    if marker.len() > 0 && starts(s, marker) {
        assert(s.take(marker.len() as int)[0] == s[0]);
        assert(marker[0] == '#' || marker[0] == '/');
    }
}

// ---------------------------------------------------------------------------
// The conversation

/// The rows of the conversation stand at the bottom of their region, in their
/// order, below blank ones; the rows of the block that is selected are marked
/// where the blocks have the keyboard, and no others.
pub proof fn conversation_stands_at_the_bottom(
    w: WindowModel,
    width: nat,
    height: nat,
    accent: UiColor,
    i: int,
)
    requires
        w.rows.len() <= height,
        0 <= i < height,
        width > 1,
    ensures
        ({
            let rows = conversation_rows(w, width, height, accent);
            let blank = height - w.rows.len();
            let row = w.rows[i - blank];
            &&& rows.len() == height
            &&& i < blank ==> rows[i] == spaces(width)
            &&& i >= blank && !(w.focused && row.owner == w.selected) ==> rows[i] == fitted(
                row.text,
                width,
            )
            &&& i >= blank && w.focused && row.owner == w.selected ==> starts(
                rows[i],
                foreground(accent) + "▌\x1b[0m"@,
            )
        }),
{
    let rows = conversation_rows(w, width, height, accent);
    let blank = height - w.rows.len();
    if i >= blank {
        let row = w.rows[i - blank];
        if w.focused && row.owner == w.selected {
            let mark = foreground(accent) + "▌\x1b[0m"@;
            assert(rows[i].take(mark.len() as int) =~= mark);
        }
    }
}

/// The viewer shows the end of a block where nothing was scrolled, and as many
/// rows further up as were; its title stands above, and how far it is below.
pub proof fn viewers_show_a_window(
    title: Seq<char>,
    body: Seq<Seq<char>>,
    offset: nat,
    width: nat,
    rows: nat,
    i: int,
)
    requires
        rows > 2,
        body.len() >= rows - 2,
        offset <= body.len() - (rows - 2),
        0 <= i < rows - 2,
    ensures
        ({
            let shown = block_rows(title, body, offset, width, rows);
            &&& shown.len() == rows
            &&& shown[0] == fitted(title, width)
            &&& shown[i + 1] == fitted(body[body.len() - offset - (rows - 2) + i], width)
        }),
{
}

/// The bar of the conversation marks the rows of its thumb and changes no
/// others.
pub proof fn thumbs_mark_their_rows(
    region: Seq<Seq<char>>,
    g: ScrollGeometry,
    offset: nat,
    thumb: Seq<char>,
    i: int,
)
    requires
        0 <= i < region.len(),
    ensures
        barred(region, None, offset, thumb) == region,
        ({
            let rows = barred(region, Some(g), offset, thumb);
            let start = crate::screen::thumb_start(g.travel as nat, g.max_scroll as nat, offset);
            &&& rows.len() == region.len()
            &&& start <= i < start + g.thumb_length ==> rows[i] == with_thumb(
                region[i],
                thumb,
                g.columns as nat,
            )
            &&& i < start || i >= start + g.thumb_length ==> rows[i] == region[i]
        }),
{
}

/// That something was copied is told in the upper right corner; the other rows
/// stay.
pub proof fn copies_are_told_in_the_corner(
    rows: Seq<Seq<char>>,
    width: nat,
    accent: UiColor,
    i: int,
)
    requires
        0 <= i < rows.len(),
    ensures
        toasted(rows, width, accent).len() == rows.len(),
        i >= 3 ==> toasted(rows, width, accent)[i] == rows[i],
        i < 3 ==> toasted(rows, width, accent)[i] == fitted(rows[i], minus(width, 11)) + toast_rows(
            accent,
        )[i],
{
}

/// Below the conversation stand the search, the composer with its menu, the
/// notice of what runs in the background and the status line, in this order and
/// each only where there is one.
pub proof fn lower_rows_stand_in_order(
    s: StateModel,
    e: EditorModel,
    parts: PartsModel,
    plan: PlanModel,
)
    ensures
        ({
            let rows = lower_rows(s, e, parts, plan);
            let n = rows.len() as int;
            let tail: int = if parts.status_line is Some {
                1
            } else {
                0
            };
            &&& parts.status_line is Some ==> rows[n - 1] == parts.status_line->0
            &&& parts.background > 0 ==> rows[n - tail - 1] == background_notice(
                parts.background,
                plan.columns,
                s.accent_color,
            )
            &&& parts.search is Some ==> rows[0] == search_row(
                parts.search->0,
                plan.columns,
                s.accent_color,
            )
            &&& n == plan.input.len() + 2 + plan.menu.len() + tail + (if parts.background > 0 {
                1int
            } else {
                0
            }) + (if parts.search is Some {
                1int
            } else {
                0
            })
        }),
{
}

/// The rows of the composer stand between its borders, in their order.
pub proof fn composers_frame_their_rows(
    input: Seq<Seq<char>>,
    label: Option<Seq<char>>,
    hint: bool,
    width: nat,
    accent: UiColor,
    i: int,
)
    requires
        0 <= i < input.len(),
    ensures
        ({
            let rows = composer_rows(input, label, hint, width, accent);
            let side = foreground(accent) + "│\x1b[0m"@;
            &&& rows.len() == input.len() + 2
            &&& rows[i + 1] == side + fitted(input[i], minus(width, 2)) + foreground(accent)
                + "│\x1b[0m"@
        }),
{
}

/// What the composer is labelled: a plan that waits for an answer, one that is
/// being made, and one that is being carried out.
pub proof fn composers_are_labelled(s: StateModel)
    ensures
        !crate::frame::hands_over(s) && !s.turn_running ==> composer_label(s) is None,
        !crate::frame::hands_over(s) && s.turn_running && s.goal_running ==> composer_label(s)
            is None,
        !crate::frame::hands_over(s) && s.turn_running && !s.goal_running && s.plan_draft
            ==> composer_label(s) == Some("Planning"@),
        !crate::frame::hands_over(s) && s.turn_running && !s.goal_running && !s.plan_draft
            && s.active_plan is Some ==> composer_label(s) == Some("Plan turn"@),
        crate::frame::hands_over(s) ==> composer_label(s) == Some("Plan ready"@),
{
}

/// The cursor stands in the composer where the text goes on, or behind what is
/// sought.
pub proof fn cursors_stand_where_text_goes_on(s: StateModel, parts: PartsModel, plan: PlanModel)
    requires
        plan.cursor is Some,
        !crate::frame::hands_over(s),
    ensures
        ({
            let place = plan.cursor->0;
            parts.search is None && place.1 + 3 < plan.columns ==> frame_cursor(s, parts, plan) == (
                plan.transcript_height + 2 + place.0,
                2 + place.1,
            )
        }),
        parts.search is Some && visible_columns(parts.search->0.query) + 9 < plan.columns
            ==> frame_cursor(s, parts, plan) == (
            plan.transcript_height + 1,
            8 + visible_columns(parts.search->0.query),
        ),
{
}

// ---------------------------------------------------------------------------
// The composer

/// The message is shown around the cursor: the row of the cursor is among those
/// that are shown, at the place that is told, and they are the rows of the
/// message one behind the other.
pub proof fn messages_are_shown_around_the_cursor(
    text: Seq<char>,
    at: int,
    inner: nat,
    most: nat,
    i: int,
)
    requires
        0 <= at <= text.len(),
        most > 0,
        text_rows(text.take(at), inner).len() <= text_rows(text, inner).len(),
        text_rows(text.take(at), inner).len() > 0,
    ensures
        ({
            let view = message_view(text, at, inner, most);
            let rows = text_rows(text, inner);
            let row = text_rows(text.take(at), inner).len() - 1;
            let place = view.cursor->0;
            &&& view.cursor is Some && place.0 < view.rows.len() <= most
            &&& 0 <= i < view.rows.len() ==> view.rows[i] == rows[row - place.0 + i]
            &&& place.1 == visible_columns(text_rows(text.take(at), inner).last())
            &&& rows.len() <= most ==> view.rows == rows
        }),
{
    let view = message_view(text, at, inner, most);
    let rows = text_rows(text, inner);
    if rows.len() <= most {
        assert(view.rows =~= rows);
    }
}

/// A secret that is typed is shown by dots, one for each character.
pub proof fn secrets_are_shown_by_dots(
    s: StateModel,
    e: EditorModel,
    parts: PartsModel,
    inner: nat,
    rows: nat,
)
    requires
        parts.question is None,
        !crate::frame::hands_over(s),
    ensures
        s.is_secret() ==> input_view(s, e, parts, inner, rows) == message_view(
            masked(e.text),
            e.at(),
            inner,
            crate::frame::most_input(rows),
        ),
        !s.is_secret() ==> input_view(s, e, parts, inner, rows) == message_view(
            e.text,
            e.at(),
            inner,
            crate::frame::most_input(rows),
        ),
{
    reveal(input_view);
}

/// The menu shows its entries in their order, the selected one painted and the
/// others not; where not all of them have room, it tells how many are left out.
pub proof fn menus_paint_the_selected(
    entries: Seq<(Seq<char>, Seq<char>)>,
    selected: nat,
    capacity: nat,
    columns: nat,
    color: UiColor,
    accent: UiColor,
    i: int,
)
    requires
        selected < entries.len(),
        capacity > 0,
        window_start(entries.len(), selected, capacity) <= i < window_end(
            entries.len(),
            selected,
            capacity,
        ),
    ensures
        ({
            let rows = menu_view(entries, selected, capacity, columns, color, accent);
            let start = window_start(entries.len(), selected, capacity) as int;
            let all = entries.len() <= capacity;
            let row = rows[i - start + if all {
                0int
            } else {
                1
            }];
            &&& i != selected ==> row == entry_row(entries[i], false, columns, color)
            &&& i == selected ==> row == painted(
                entry_row(entries[i], false, columns, color),
                selection(color),
            )
            &&& all ==> rows.len() == entries.len() && start == 0
            &&& !all ==> rows.len() == capacity + 2
        }),
{
    reveal(menu_view);
    crate::frame::selected_entry_is_shown(entries.len(), selected, capacity);
}

/// What is open stands in front; where several are, the setup of a repository
/// before the processes, these before the dashboard of git, that before the
/// subagents and these before a block.
pub proof fn what_is_open_stands_in_front(open: Overlays)
    ensures
        open.git_init ==> front_of(open) is GitInit,
        !open.git_init && open.process_view ==> front_of(open) is Processes,
        !open.git_init && !open.process_view && open.git_view ==> front_of(open) is Git,
        !open.git_init && !open.process_view && !open.git_view && open.subagent_view ==> front_of(
            open,
        ) is Subagents,
        !open.git_init && !open.process_view && !open.git_view && !open.subagent_view
            && open.viewer_open ==> front_of(open) is BlockViewer,
        !open.git_init && !open.process_view && !open.git_view && !open.subagent_view
            && !open.viewer_open ==> front_of(open) is Conversation,
{
}

} // verus!
