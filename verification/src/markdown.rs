//! Terminal text: display widths, escape sequences, fitting and wrapping.
//!
//! An escape sequence is ESC and one more character, or ESC `[` up to a final
//! character between `@` and `~`. It takes no columns.

use vstd::prelude::*;
use crate::text::{control, is_control};

verus! {

broadcast use vstd::string::group_string_axioms;

/// The columns that a character takes on the screen, by its Unicode properties.
/// `None` stands for a control character.
pub uninterp spec fn unicode_columns(c: char) -> Option<nat>;

/// `UnicodeWidthChar::width`: no width exactly for the control characters, one
/// column for printable ASCII, and never more than three.
#[verifier::external_body]
fn unicode_width_of(c: char) -> (r: Option<usize>)
    ensures
        r is Some <==> unicode_columns(c) is Some,
        r is Some ==> r->0 as nat == unicode_columns(c)->0,
        r is None <==> control(c),
        ' ' <= c <= '~' ==> r == Some(1usize),
        r is Some ==> r->0 <= 3,
{
    unicode_width::UnicodeWidthChar::width(c)
}

/// The columns that a text takes on the screen, by the Unicode properties of
/// its characters and of their combinations.
pub uninterp spec fn unicode_text_columns(s: Seq<char>) -> nat;

/// `UnicodeWidthStr::width`: a function of the text alone.
#[verifier::external_body]
pub(crate) fn text_columns(s: &str) -> (r: usize)
    ensures
        r as nat == unicode_text_columns(s@),
{
    unicode_width::UnicodeWidthStr::width(s)
}

/// The columns of a character; a control character takes none.
pub open spec fn columns(c: char) -> nat {
    match unicode_columns(c) {
        Some(n) => n,
        None => 0,
    }
}

pub fn char_columns(c: char) -> (r: usize)
    ensures
        r as nat == columns(c),
        r <= 3,
        ' ' <= c <= '~' ==> r == 1,
{
    match unicode_width_of(c) {
        Some(n) => n,
        None => 0,
    }
}

/// The columns of a text without escape sequences.
pub open spec fn total_columns(s: Seq<char>) -> nat
    decreases s.len(),
{
    if s.len() == 0 {
        0
    } else {
        total_columns(s.drop_last()) + columns(s.last())
    }
}

// ---------------------------------------------------------------------------
// Escape sequences

pub const ESC: char = '\u{1b}';

/// Where a reader of terminal text stands.
#[derive(Debug, Clone, Copy, PartialEq, Eq, Structural)]
pub enum Ansi {
    Text,
    Escape,
    Sequence,
}

pub open spec fn ansi_step(state: Ansi, c: char) -> Ansi {
    match state {
        Ansi::Text => if c == ESC {
            Ansi::Escape
        } else {
            Ansi::Text
        },
        Ansi::Escape => if c == '[' {
            Ansi::Sequence
        } else {
            Ansi::Text
        },
        Ansi::Sequence => if '@' <= c <= '~' {
            Ansi::Text
        } else {
            Ansi::Sequence
        },
    }
}

fn ansi_next(state: Ansi, c: char) -> (r: Ansi)
    ensures
        r == ansi_step(state, c),
{
    match state {
        Ansi::Text => if c == ESC {
            Ansi::Escape
        } else {
            Ansi::Text
        },
        Ansi::Escape => if c == '[' {
            Ansi::Sequence
        } else {
            Ansi::Text
        },
        Ansi::Sequence => if '@' <= c && c <= '~' {
            Ansi::Text
        } else {
            Ansi::Sequence
        },
    }
}

/// Where a reader stands after a text.
pub open spec fn ansi_after(s: Seq<char>) -> Ansi
    decreases s.len(),
{
    if s.len() == 0 {
        Ansi::Text
    } else {
        ansi_step(ansi_after(s.drop_last()), s.last())
    }
}

/// Whether a character in this state is shown.
pub open spec fn shown(state: Ansi, c: char) -> bool {
    state == Ansi::Text && c != ESC
}

/// A text without its escape sequences.
pub open spec fn stripped(s: Seq<char>) -> Seq<char>
    decreases s.len(),
{
    if s.len() == 0 {
        s
    } else if shown(ansi_after(s.drop_last()), s.last()) {
        stripped(s.drop_last()).push(s.last())
    } else {
        stripped(s.drop_last())
    }
}

/// The columns that a text takes on the screen, at most the largest `usize`.
pub open spec fn visible_columns(s: Seq<char>) -> nat {
    if total_columns(stripped(s)) <= usize::MAX {
        total_columns(stripped(s))
    } else {
        usize::MAX as nat
    }
}

/// A text without its escape sequences.
pub fn strip_ansi(text: &str) -> (r: String)
    ensures
        r@ == stripped(text@),
{
    let mut r: String = String::new();
    let mut state = Ansi::Text;
    for c in it: text.chars()
        invariant
            it.seq() == text@,
            state == ansi_after(text@.take(it.index())),
            r@ == stripped(text@.take(it.index())),
    {
        assert(text@.take(it.index() + 1).drop_last() =~= text@.take(it.index()));
        if let Ansi::Text = state {
            if c != ESC {
                r.push(c);
            }
        }
        state = ansi_next(state, c);
    }
    assert(text@.take(text@.len() as int) =~= text@);
    r
}

/// The columns that a text takes on the screen.
pub fn visible_width(text: &str) -> (r: usize)
    ensures
        r as nat == visible_columns(text@),
{
    let mut r: usize = 0;
    let mut state = Ansi::Text;
    for c in it: text.chars()
        invariant
            it.seq() == text@,
            state == ansi_after(text@.take(it.index())),
            r as nat == visible_columns(text@.take(it.index())),
    {
        let ghost before = text@.take(it.index());
        let ghost now = text@.take(it.index() + 1);
        assert(now.drop_last() =~= before);
        if let Ansi::Text = state {
            if c != ESC {
                assert(stripped(now).drop_last() =~= stripped(before));
                r = r.saturating_add(char_columns(c));
            }
        }
        state = ansi_next(state, c);
    }
    assert(text@.take(text@.len() as int) =~= text@);
    r
}

pub proof fn ansi_after_join(a: Seq<char>, b: Seq<char>)
    requires
        ansi_after(a) == Ansi::Text,
    ensures
        ansi_after(a + b) == ansi_after(b),
        stripped(a + b) == stripped(a) + stripped(b),
    decreases b.len(),
{
    if b.len() == 0 {
        assert(a + b =~= a);
        assert(stripped(a) + stripped(b) =~= stripped(a));
    } else {
        ansi_after_join(a, b.drop_last());
        assert((a + b).drop_last() =~= a + b.drop_last());
        assert(stripped(a + b) =~= stripped(a) + stripped(b));
    }
}

pub proof fn total_columns_join(a: Seq<char>, b: Seq<char>)
    ensures
        total_columns(a + b) == total_columns(a) + total_columns(b),
    decreases b.len(),
{
    if b.len() == 0 {
        assert(a + b =~= a);
    } else {
        total_columns_join(a, b.drop_last());
        assert((a + b).drop_last() =~= a + b.drop_last());
    }
}

// ---------------------------------------------------------------------------
// Repetition

/// A character repeated.
pub open spec fn repeated(c: char, n: nat) -> Seq<char> {
    Seq::new(n, |i: int| c)
}

pub fn repeat(c: char, n: usize) -> (r: String)
    ensures
        r@ == repeated(c, n as nat),
{
    let mut r: String = String::new();
    let mut i: usize = 0;
    while i < n
        invariant
            i <= n,
            r@ == repeated(c, i as nat),
        decreases n - i,
    {
        r.push(c);
        i += 1;
        assert(r@ =~= repeated(c, i as nat));
    }
    r
}

pub open spec fn spaces(n: nat) -> Seq<char> {
    repeated(' ', n)
}

// ---------------------------------------------------------------------------
// Fitting

/// The sequence that ends all styles.
pub open spec fn reset() -> Seq<char> {
    "\x1b[0m"@
}

/// What is kept of a text that is cut to a width.
pub struct Cut {
    /// The characters that fit, and the complete escape sequences.
    pub kept: Seq<char>,
    /// The escape sequence that is not complete yet.
    pub pending: Seq<char>,
    /// The columns of the characters that fit.
    pub used: nat,
    /// Whether a character did not fit.
    pub full: bool,
}

pub open spec fn cut_step(k: Cut, state: Ansi, c: char, width: nat) -> Cut {
    if shown(state, c) {
        if k.full || k.used + columns(c) > width {
            Cut { full: true, ..k }
        } else {
            Cut { kept: k.kept.push(c), used: k.used + columns(c), ..k }
        }
    } else if ansi_step(state, c) == Ansi::Text {
        Cut { kept: k.kept + k.pending.push(c), pending: Seq::empty(), ..k }
    } else {
        Cut { pending: k.pending.push(c), ..k }
    }
}

/// A text cut to a width: the characters up to the first that does not fit,
/// and every complete escape sequence.
pub open spec fn cut(s: Seq<char>, width: nat) -> Cut
    decreases s.len(),
{
    if s.len() == 0 {
        Cut { kept: Seq::empty(), pending: Seq::empty(), used: 0, full: false }
    } else {
        cut_step(cut(s.drop_last(), width), ansi_after(s.drop_last()), s.last(), width)
    }
}

/// A text cut or padded with spaces to a width. Styles end with it.
pub open spec fn fitted(s: Seq<char>, width: nat) -> Seq<char> {
    let k = cut(s, width);
    k.kept + spaces((width - k.used) as nat) + if s.contains(ESC) {
        reset()
    } else {
        Seq::empty()
    }
}

pub proof fn cut_fits(s: Seq<char>, width: nat)
    ensures
        cut(s, width).used <= width,
        ansi_after(cut(s, width).kept) == Ansi::Text,
        total_columns(stripped(cut(s, width).kept)) == cut(s, width).used,
        ansi_after(cut(s, width).pending) == ansi_after(s),
        stripped(cut(s, width).pending).len() == 0,
    decreases s.len(),
{
    if s.len() > 0 {
        let before = s.drop_last();
        cut_fits(before, width);
        let k = cut(before, width);
        let c = s.last();
        let state = ansi_after(before);
        if shown(state, c) {
            assert(k.kept.push(c).drop_last() =~= k.kept);
            assert(stripped(k.kept.push(c)).drop_last() =~= stripped(k.kept));
        } else {
            let p = k.pending.push(c);
            assert(p.drop_last() =~= k.pending);
            assert(ansi_after(p) == ansi_step(state, c));
            assert(stripped(p) =~= stripped(k.pending));
            if ansi_step(state, c) == Ansi::Text {
                ansi_after_join(k.kept, p);
                assert(stripped(k.kept) + stripped(p) =~= stripped(k.kept));
            }
        }
    }
}

proof fn spaces_are_plain(n: nat)
    ensures
        ansi_after(spaces(n)) == Ansi::Text,
        stripped(spaces(n)) == spaces(n),
        columns(' ') == 1 ==> total_columns(spaces(n)) == n,
    decreases n,
{
    if n > 0 {
        let m = (n - 1) as nat;
        spaces_are_plain(m);
        assert(spaces(n).drop_last() =~= spaces(m));
        assert(stripped(spaces(n)) =~= spaces(n));
    }
}

/// The parameters of a style sequence: digits and semicolons.
pub open spec fn sgr_parameters(s: Seq<char>) -> bool {
    forall|i: int| 0 <= i < s.len() ==> ('0' <= #[trigger] s[i] <= '9' || s[i] == ';')
}

pub open spec fn sgr(parameters: Seq<char>) -> Seq<char> {
    (seq![ESC, '['] + parameters).push('m')
}

proof fn sgr_opens(parameters: Seq<char>)
    requires
        sgr_parameters(parameters),
    ensures
        ansi_after(seq![ESC, '['] + parameters) == Ansi::Sequence,
        stripped(seq![ESC, '['] + parameters) == Seq::<char>::empty(),
    decreases parameters.len(),
{
    let s = seq![ESC, '['] + parameters;
    if parameters.len() == 0 {
        assert(s.drop_last() =~= seq![ESC]);
        assert(s.drop_last().drop_last() =~= Seq::<char>::empty());
        reveal_with_fuel(ansi_after, 3);
        reveal_with_fuel(stripped, 3);
    } else {
        let before = parameters.drop_last();
        assert forall|i: int| 0 <= i < before.len() implies ('0' <= #[trigger] before[i] <= '9'
            || before[i] == ';') by {
            assert(before[i] == parameters[i]);
        }
        sgr_opens(before);
        assert(parameters.last() == parameters[parameters.len() - 1]);
        assert(s.drop_last() =~= seq![ESC, '['] + before);
    }
}

/// A style sequence is complete and shows nothing.
pub proof fn sgr_is_hidden(parameters: Seq<char>)
    requires
        sgr_parameters(parameters),
    ensures
        ansi_after(sgr(parameters)) == Ansi::Text,
        stripped(sgr(parameters)) == Seq::<char>::empty(),
{
    sgr_opens(parameters);
    assert(sgr(parameters).drop_last() =~= seq![ESC, '['] + parameters);
}

pub proof fn reset_is_hidden()
    ensures
        ansi_after(reset()) == Ansi::Text,
        stripped(reset()) == Seq::<char>::empty(),
{
    reveal_strlit("\x1b[0m");
    sgr_is_hidden(seq!['0']);
    assert(reset() =~= sgr(seq!['0']));
}

/// Whatever a text holds, it takes exactly the width that it was fitted to.
pub proof fn fitted_is_exact(s: Seq<char>, width: nat)
    requires
        columns(' ') == 1,
    ensures
        total_columns(stripped(fitted(s, width))) == width,
        ansi_after(fitted(s, width)) == Ansi::Text,
{
    cut_fits(s, width);
    let k = cut(s, width);
    let pad = spaces((width - k.used) as nat);
    spaces_are_plain((width - k.used) as nat);
    reset_is_hidden();
    ansi_after_join(k.kept, pad);
    total_columns_join(stripped(k.kept), pad);
    let tail: Seq<char> = if s.contains(ESC) {
        reset()
    } else {
        Seq::empty()
    };
    ansi_after_join(k.kept + pad, tail);
    assert(stripped(k.kept + pad) + Seq::<char>::empty() =~= stripped(k.kept + pad));
}

/// The part of a text that is kept when it is cut to a width, and its columns.
fn cut_text(text: &str, width: usize) -> (r: (String, usize))
    ensures
        r.0@ == cut(text@, width as nat).kept,
        r.1 as nat == cut(text@, width as nat).used,
        r.1 <= width,
{
    let mut kept: String = String::new();
    let mut pending: String = String::new();
    let mut used: usize = 0;
    let mut full = false;
    let mut state = Ansi::Text;
    for c in it: text.chars()
        invariant
            it.seq() == text@,
            state == ansi_after(text@.take(it.index())),
            cut(text@.take(it.index()), width as nat) == (Cut {
                kept: kept@,
                pending: pending@,
                used: used as nat,
                full,
            }),
            used <= width,
    {
        assert(text@.take(it.index() + 1).drop_last() =~= text@.take(it.index()));
        let next = ansi_next(state, c);
        let text_char = match state {
            Ansi::Text => c != ESC,
            _ => false,
        };
        if text_char {
            let w: usize = char_columns(c);
            if full || w > width - used {
                full = true;
            } else {
                kept.push(c);
                used = used + w;
            }
        } else {
            pending.push(c);
            if let Ansi::Text = next {
                kept.append(pending.as_str());
                pending = String::new();
            }
        }
        state = next;
    }
    assert(text@.take(text@.len() as int) =~= text@);
    (kept, used)
}

fn has_char(text: &str, wanted: char) -> (r: bool)
    ensures
        r == text@.contains(wanted),
{
    let mut found = false;
    for c in it: text.chars()
        invariant
            it.seq() == text@,
            found ==> text@.contains(wanted),
            !found ==> forall|j: int| 0 <= j < it.index() ==> text@[j] != wanted,
    {
        if c == wanted {
            assert(text@[it.index()] == wanted);
            found = true;
        }
    }
    found
}

/// A text cut or padded to a width; see `fitted`.
pub fn fit_width(text: &str, width: usize) -> (r: String)
    ensures
        r@ == fitted(text@, width as nat),
        width as nat == visible_columns(r@),
{
    let (kept, used) = cut_text(text, width);
    let mut r = kept;
    let pad = repeat(' ', width - used);
    r.append(pad.as_str());
    let escape = has_char(text, ESC);
    if escape {
        r.append("\x1b[0m");
    }
    let _space: usize = char_columns(' ');
    proof {
        assert(r@ =~= fitted(text@, width as nat));
        fitted_is_exact(text@, width as nat);
    }
    r
}

// ---------------------------------------------------------------------------
// Truncation and sanitizing

/// A text that takes at most a width: where it is wider, it is cut to leave
/// one column, and an ellipsis marks the cut.
pub open spec fn truncated(s: Seq<char>, width: nat) -> Seq<char> {
    if visible_columns(s) <= width {
        s
    } else {
        cut(
            s,
            if width == 0 {
                0
            } else {
                (width - 1) as nat
            },
        ).kept.push('…')
    }
}

/// A text with a space for each control character.
pub open spec fn sanitized(s: Seq<char>) -> Seq<char> {
    s.map_values(
        |c: char|
            if control(c) {
                ' '
            } else {
                c
            },
    )
}

pub fn sanitize_plain(text: &str) -> (r: String)
    ensures
        r@ == sanitized(text@),
{
    let mut r: String = String::new();
    for c in it: text.chars()
        invariant
            it.seq() == text@,
            r@ == sanitized(text@.take(it.index())),
    {
        if is_control(c) {
            r.push(' ');
        } else {
            r.push(c);
        }
        assert(r@ =~= sanitized(text@.take(it.index() + 1)));
    }
    assert(text@.take(text@.len() as int) =~= text@);
    r
}

/// Sanitized text holds no control character, so nothing in it can act on the
/// terminal: it is shown as it stands.
pub proof fn sanitized_is_plain(s: Seq<char>)
    ensures
        forall|i: int| 0 <= i < sanitized(s).len() ==> !control(#[trigger] sanitized(s)[i]),
        sanitized(s).len() == s.len(),
        ansi_after(sanitized(s)) == Ansi::Text,
        stripped(sanitized(s)) == sanitized(s),
    decreases s.len(),
{
    if s.len() > 0 {
        sanitized_is_plain(s.drop_last());
        assert(sanitized(s).drop_last() =~= sanitized(s.drop_last()));
        assert(!control(sanitized(s).last()));
        assert(stripped(sanitized(s)) =~= sanitized(s));
    } else {
        assert(sanitized(s) =~= s);
    }
}

/// A text cut to a width with an ellipsis; see `truncated`.
pub fn truncate_visible(text: &str, width: usize) -> (r: String)
    ensures
        r@ == truncated(text@, width as nat),
{
    if visible_width(text) <= width {
        return text.to_owned();
    }
    let (kept, _) = cut_text(
        text,
        if width == 0 {
            0
        } else {
            width - 1
        },
    );
    let mut r = kept;
    r.push('…');
    r
}

// ---------------------------------------------------------------------------
// Wrapping

/// A text cut into pieces that take at most a width each; a character that is
/// wider makes a piece of its own.
pub open spec fn chunks(s: Seq<char>, width: nat) -> Seq<Seq<char>>
    decreases s.len(),
{
    if s.len() == 0 {
        Seq::empty()
    } else {
        let before = chunks(s.drop_last(), width);
        let c = s.last();
        if before.len() > 0 && total_columns(before.last()) + columns(c) <= width {
            before.drop_last().push(before.last().push(c))
        } else {
            before.push(seq![c])
        }
    }
}

/// The texts of a list of strings.
pub open spec fn lines_of(v: Seq<String>) -> Seq<Seq<char>> {
    v.map_values(|t: String| t@)
}

/// Cuts a text into pieces; see `chunks`.
pub fn split_chars(text: &str, width: usize) -> (r: Vec<String>)
    ensures
        lines_of(r@) == chunks(text@, width as nat),
{
    let mut done: Vec<String> = Vec::new();
    let mut current: String = String::new();
    let mut started = false;
    let mut used: usize = 0;
    let mut over = false;
    for c in it: text.chars()
        invariant
            it.seq() == text@,
            started == (it.index() > 0),
            !started ==> done@.len() == 0,
            started ==> chunks(text@.take(it.index()), width as nat) == lines_of(done@).push(
                current@,
            ),
            !over ==> used as nat == total_columns(current@) && used <= width,
            over ==> total_columns(current@) > width,
            !started ==> current@.len() == 0 && !over,
    {
        let ghost before = text@.take(it.index());
        let ghost pieces = chunks(before, width as nat);
        assert(text@.take(it.index() + 1).drop_last() =~= before);
        let w: usize = char_columns(c);
        let ghost single = seq![c];
        assert(single.drop_last() =~= Seq::<char>::empty());
        assert(total_columns(single) == columns(c)) by {
            reveal_with_fuel(total_columns, 2);
        }
        assert(current@.push(c).drop_last() =~= current@);
        if started {
            assert(pieces.last() == current@);
            assert(pieces.drop_last() =~= lines_of(done@));
        }
        if started && !over && w <= width - used {
            current.push(c);
            used = used + w;
        } else {
            if started {
                let ghost old_done = done@;
                let ghost old_current = current@;
                done.push(current);
                assert(lines_of(done@) =~= lines_of(old_done).push(old_current));
            } else {
                assert(pieces =~= Seq::empty());
            }
            current = String::new();
            current.push(c);
            assert(current@ =~= single);
            started = true;
            over = w > width;
            used = w;
        }
        assert(chunks(text@.take(it.index() + 1), width as nat) =~= lines_of(done@).push(current@));
    }
    assert(text@.take(text@.len() as int) =~= text@);
    if started {
        let ghost old_done = done@;
        done.push(current);
        assert(lines_of(done@) =~= lines_of(old_done).push(current@));
    } else {
        assert(lines_of(done@) =~= Seq::empty());
    }
    done
}

/// Wrapping of a styled text, part of the way.
pub struct Wrap {
    pub done: Seq<Seq<char>>,
    pub current: Seq<char>,
    /// Whether the current piece holds a character that is shown.
    pub filled: bool,
    /// The columns of the current piece.
    pub used: nat,
    /// The escape sequences since the last reset.
    pub style: Seq<char>,
    /// The escape sequence that is not complete yet.
    pub pending: Seq<char>,
}

pub open spec fn is_reset(s: Seq<char>) -> bool {
    s == "\x1b[0m"@ || s == "\x1b[m"@
}

/// A piece with its styles ended.
pub open spec fn closed_piece(piece: Seq<char>, style: Seq<char>) -> Seq<char> {
    if style.len() > 0 {
        piece + reset()
    } else {
        piece
    }
}

pub open spec fn wrap_step(w: Wrap, state: Ansi, c: char, width: nat) -> Wrap {
    if shown(state, c) {
        if w.filled && w.used + columns(c) > width {
            Wrap {
                done: w.done.push(closed_piece(w.current, w.style)),
                current: w.style.push(c),
                filled: true,
                used: columns(c),
                ..w
            }
        } else {
            Wrap { current: w.current.push(c), filled: true, used: w.used + columns(c), ..w }
        }
    } else {
        let p = w.pending.push(c);
        if ansi_step(state, c) == Ansi::Text {
            Wrap {
                current: w.current + p,
                pending: Seq::empty(),
                style: if is_reset(p) {
                    Seq::empty()
                } else {
                    w.style + p
                },
                ..w
            }
        } else {
            Wrap { pending: p, ..w }
        }
    }
}

pub open spec fn wrap(s: Seq<char>, width: nat) -> Wrap
    decreases s.len(),
{
    if s.len() == 0 {
        Wrap {
            done: Seq::empty(),
            current: Seq::empty(),
            filled: false,
            used: 0,
            style: Seq::empty(),
            pending: Seq::empty(),
        }
    } else {
        wrap_step(wrap(s.drop_last(), width), ansi_after(s.drop_last()), s.last(), width)
    }
}

/// A styled text cut into pieces that take at most a width each, at least one.
/// Each piece begins with the styles that are in force and ends them.
pub open spec fn wrapped(s: Seq<char>, width: nat) -> Seq<Seq<char>> {
    let w = wrap(s, width);
    w.done.push(closed_piece(w.current, w.style))
}

/// The pieces without styles of a wrapped text.
pub open spec fn plain_pieces(pieces: Seq<Seq<char>>) -> Seq<Seq<char>> {
    pieces.map_values(|p: Seq<char>| stripped(p))
}

proof fn closed_piece_is_plain(piece: Seq<char>, style: Seq<char>)
    requires
        ansi_after(piece) == Ansi::Text,
    ensures
        stripped(closed_piece(piece, style)) == stripped(piece),
{
    reset_is_hidden();
    ansi_after_join(piece, reset());
    assert(stripped(piece) + Seq::<char>::empty() =~= stripped(piece));
}

proof fn wrap_follows(s: Seq<char>, width: nat)
    ensures
        ({
            let w = wrap(s, width);
            &&& ansi_after(w.current) == Ansi::Text
            &&& ansi_after(w.style) == Ansi::Text
            &&& stripped(w.style).len() == 0
            &&& ansi_after(w.pending) == ansi_after(s)
            &&& stripped(w.pending).len() == 0
            &&& w.used == total_columns(stripped(w.current))
            &&& w.filled == (stripped(w.current).len() > 0)
            &&& !w.filled ==> w.done.len() == 0 && stripped(s).len() == 0
            &&& w.filled ==> chunks(stripped(s), width) == plain_pieces(w.done).push(
                stripped(w.current),
            )
        }),
    decreases s.len(),
{
    if s.len() == 0 {
        assert(stripped(s).len() == 0);
    } else {
        let before = s.drop_last();
        wrap_follows(before, width);
        let w = wrap(before, width);
        let c = s.last();
        let state = ansi_after(before);
        let now = wrap(s, width);
        if shown(state, c) {
            let plain = stripped(before);
            assert(stripped(s).drop_last() =~= plain);
            assert(stripped(s).last() == c);
            let pieces = chunks(plain, width);
            if w.filled {
                assert(pieces.last() == stripped(w.current));
                assert(pieces.drop_last() =~= plain_pieces(w.done));
            } else {
                assert(plain =~= Seq::<char>::empty());
                assert(pieces =~= Seq::empty());
            }
            if w.filled && w.used + columns(c) > width {
                closed_piece_is_plain(w.current, w.style);
                let one = w.style.push(c);
                assert(one.drop_last() =~= w.style);
                assert(stripped(one) =~= seq![c]);
                assert(stripped(one).drop_last() =~= Seq::<char>::empty());
                reveal_with_fuel(total_columns, 2);
                assert(plain_pieces(now.done) =~= plain_pieces(w.done).push(stripped(w.current)));
                assert(chunks(stripped(s), width) =~= plain_pieces(now.done).push(
                    stripped(now.current),
                ));
            } else {
                let longer = w.current.push(c);
                assert(longer.drop_last() =~= w.current);
                assert(stripped(longer).drop_last() =~= stripped(w.current));
                if !w.filled {
                    assert(stripped(longer) =~= seq![c]);
                }
                assert(chunks(stripped(s), width) =~= plain_pieces(now.done).push(
                    stripped(now.current),
                ));
            }
        } else {
            let p = w.pending.push(c);
            assert(p.drop_last() =~= w.pending);
            assert(stripped(p) =~= stripped(w.pending));
            if ansi_step(state, c) == Ansi::Text {
                ansi_after_join(w.current, p);
                ansi_after_join(w.style, p);
                assert(stripped(w.current) + stripped(p) =~= stripped(w.current));
            }
        }
    }
}

/// Wrapping a styled text cuts it where the plain text would be cut, and shows
/// the same characters.
pub proof fn styles_do_not_move_the_cuts(s: Seq<char>, width: nat)
    ensures
        stripped(s).len() > 0 ==> plain_pieces(wrapped(s, width)) == chunks(stripped(s), width),
        stripped(s).len() == 0 ==> wrapped(s, width).len() == 1,
{
    wrap_follows(s, width);
    let w = wrap(s, width);
    closed_piece_is_plain(w.current, w.style);
    if stripped(s).len() > 0 {
        assert(plain_pieces(wrapped(s, width)) =~= plain_pieces(w.done).push(stripped(w.current)));
    } else {
        assert(chunks(stripped(s), width).len() == 0);
    }
}

fn is_reset_text(s: &String) -> (r: bool)
    ensures
        r == is_reset(s@),
{
    crate::text::same(s.as_str(), "\x1b[0m") || crate::text::same(s.as_str(), "\x1b[m")
}

fn close_piece(piece: &mut String, style: &String)
    ensures
        final(piece)@ == closed_piece(old(piece)@, style@),
{
    if !style.as_str().is_empty() {
        piece.append("\x1b[0m");
    }
}

/// Wraps a styled text; see `wrapped`.
pub fn wrap_ansi_hard(text: &str, width: usize) -> (r: Vec<String>)
    ensures
        lines_of(r@) == wrapped(text@, width as nat),
{
    let mut done: Vec<String> = Vec::new();
    let mut current: String = String::new();
    let mut filled = false;
    let mut used: usize = 0;
    let mut style: String = String::new();
    let mut pending: String = String::new();
    let mut state = Ansi::Text;
    let mut over = false;
    assert(lines_of(done@) =~= Seq::empty());
    for c in it: text.chars()
        invariant
            it.seq() == text@,
            state == ansi_after(text@.take(it.index())),
            ({
                let w = wrap(text@.take(it.index()), width as nat);
                &&& w.done == lines_of(done@)
                &&& w.current == current@
                &&& w.filled == filled
                &&& w.style == style@
                &&& w.pending == pending@
                &&& !over ==> w.used == used && used <= width
                &&& over ==> w.used > width && filled
            }),
    {
        assert(text@.take(it.index() + 1).drop_last() =~= text@.take(it.index()));
        let next = ansi_next(state, c);
        let text_char = match state {
            Ansi::Text => c != ESC,
            _ => false,
        };
        if text_char {
            let w: usize = char_columns(c);
            if filled && (over || w > width - used) {
                let ghost old_done = done@;
                close_piece(&mut current, &style);
                let ghost piece = current@;
                done.push(current);
                assert(lines_of(done@) =~= lines_of(old_done).push(piece));
                current = style.clone();
                current.push(c);
                over = w > width;
                used = w;
            } else {
                current.push(c);
                filled = true;
                if w > width - used {
                    over = true;
                } else {
                    used = used + w;
                }
            }
        } else {
            pending.push(c);
            if let Ansi::Text = next {
                current.append(pending.as_str());
                if is_reset_text(&pending) {
                    style = String::new();
                } else {
                    style.append(pending.as_str());
                }
                pending = String::new();
            }
        }
        state = next;
    }
    assert(text@.take(text@.len() as int) =~= text@);
    close_piece(&mut current, &style);
    let ghost old_done = done@;
    done.push(current);
    assert(lines_of(done@) =~= lines_of(old_done).push(current@));
    done
}

/// A control character is shown as a blank, and every other character as it is:
/// what is shown stands where it stood.
pub proof fn control_characters_are_blanked(s: Seq<char>, i: int)
    requires
        0 <= i < s.len(),
    ensures
        sanitized(s).len() == s.len(),
        control(s[i]) ==> sanitized(s)[i] == ' ',
        !control(s[i]) ==> sanitized(s)[i] == s[i],
{
}

} // verus!
