//! Colors and the styles that rows are painted with.

use vstd::prelude::*;
use crate::markdown::{
    ansi_after, ansi_after_join, reset, reset_is_hidden, sgr, sgr_is_hidden, sgr_parameters,
    stripped, Ansi,
};
use crate::text::{
    decimal, decimal_of, index_of, joined_first, occurs_at, replace, replaced, split_text,
};

verus! {

broadcast use vstd::string::group_string_axioms;

/// A color of the interface.
#[derive(Debug, Clone, Copy, PartialEq, Eq, Structural)]
pub struct UiColor {
    pub red: u8,
    pub green: u8,
    pub blue: u8,
}

impl UiColor {
    pub fn new(red: u8, green: u8, blue: u8) -> (r: Self)
        ensures
            r == (UiColor { red, green, blue }),
    {
        UiColor { red, green, blue }
    }

    /// The default accent.
    pub fn white() -> (r: Self)
        ensures
            r == white_color(),
    {
        UiColor { red: 238, green: 238, blue: 238 }
    }
}

pub open spec fn white_color() -> UiColor {
    UiColor { red: 238, green: 238, blue: 238 }
}

/// Invalid one-based coordinates stand for a cursor that is not shown.
pub fn hidden_cursor() -> (r: (usize, usize))
    ensures
        r == (0usize, 0usize),
{
    (0, 0)
}

/// Three numbers with semicolons between them.
pub open spec fn channels(a: nat, b: nat, c: nat) -> Seq<char> {
    decimal(a) + ";"@ + decimal(b) + ";"@ + decimal(c)
}

fn push_channels(text: &mut String, a: u8, b: u8, c: u8)
    ensures
        final(text)@ == old(text)@ + channels(a as nat, b as nat, c as nat),
{
    text.append(decimal_of(a as u64).as_str());
    text.append(";");
    text.append(decimal_of(b as u64).as_str());
    text.append(";");
    text.append(decimal_of(c as u64).as_str());
    assert(text@ =~= old(text)@ + channels(a as nat, b as nat, c as nat));
}

/// The sequence that writes in a color.
pub open spec fn foreground(color: UiColor) -> Seq<char> {
    "\x1b[38;2;"@ + channels(color.red as nat, color.green as nat, color.blue as nat) + "m"@
}

pub fn foreground_color(color: UiColor) -> (r: String)
    ensures
        r@ == foreground(color),
{
    let mut text = "\x1b[38;2;".to_owned();
    push_channels(&mut text, color.red, color.green, color.blue);
    text.append("m");
    text
}

/// The sequence that paints behind the text in a color.
pub open spec fn background(red: u8, green: u8, blue: u8) -> Seq<char> {
    "\x1b[48;2;"@ + channels(red as nat, green as nat, blue as nat) + "m"@
}

pub fn background_color(color: UiColor) -> (r: String)
    ensures
        r@ == background(color.red, color.green, color.blue),
{
    let mut text = "\x1b[48;2;".to_owned();
    push_channels(&mut text, color.red, color.green, color.blue);
    text.append("m");
    text
}

/// How light a color looks, out of 255,000.
pub open spec fn luminance(color: UiColor) -> int {
    color.red * 299 + color.green * 587 + color.blue * 114
}

/// The gray of the text on a color: near black on a light one, near white on a
/// dark one. At 120,000 both contrast about equally.
pub open spec fn text_gray(color: UiColor) -> nat {
    if luminance(color) >= 120000 {
        16
    } else {
        250
    }
}

/// The style of a selected row: the color behind, and readable text on it.
pub open spec fn selection(color: UiColor) -> Seq<char> {
    let gray = text_gray(color);
    "\x1b[38;2;"@ + channels(gray, gray, gray) + ";48;2;"@ + channels(
        color.red as nat,
        color.green as nat,
        color.blue as nat,
    ) + "m"@
}

pub fn selection_style(color: UiColor) -> (r: String)
    ensures
        r@ == selection(color),
{
    let light: u32 = color.red as u32 * 299 + color.green as u32 * 587 + color.blue as u32 * 114;
    let gray: u8 = if light >= 120000 {
        16
    } else {
        250
    };
    let mut text = "\x1b[38;2;".to_owned();
    push_channels(&mut text, gray, gray, gray);
    text.append(";48;2;");
    push_channels(&mut text, color.red, color.green, color.blue);
    text.append("m");
    text
}

/// A row in a style. The style goes on after each reset inside the row, so
/// that colored parts cannot cut it short.
pub open spec fn painted(line: Seq<char>, style: Seq<char>) -> Seq<char> {
    style + replaced(line, reset(), reset() + style) + reset()
}

pub fn selected_row(line: &str, style: &str) -> (r: String)
    ensures
        r@ == painted(line@, style@),
{
    let mut again = "\x1b[0m".to_owned();
    again.append(style);
    proof {
        reveal_strlit("\x1b[0m");
    }
    let body = replace(line, "\x1b[0m", again.as_str());
    let mut r = style.to_owned();
    r.append(body.as_str());
    r.append("\x1b[0m");
    r
}

/// A muted selection color, for the row under the pointer.
pub open spec fn hover_tint(color: UiColor) -> UiColor {
    UiColor {
        red: (24 + color.red / 8) as u8,
        green: (24 + color.green / 8) as u8,
        blue: (24 + color.blue / 8) as u8,
    }
}

pub fn hovered_row(line: &str, color: UiColor) -> (r: String)
    ensures
        r@ == painted(line@, selection(hover_tint(color))),
{
    let tint = UiColor::new(24 + color.red / 8, 24 + color.green / 8, 24 + color.blue / 8);
    selected_row(line, selection_style(tint).as_str())
}

/// A channel blended half way to light gray.
pub open spec fn muted(value: u8) -> nat {
    ((value + 200) / 2) as nat
}

/// The style of status and hint lines: the accent blended to light gray, so
/// that dark accents stay legible.
pub open spec fn status(color: UiColor) -> Seq<char> {
    "\x1b[38;2;"@ + channels(muted(color.red), muted(color.green), muted(color.blue)) + "m"@
}

fn mute(value: u8) -> (r: u8)
    ensures
        r as nat == muted(value),
{
    ((value as u16 + 200) / 2) as u8
}

pub fn status_style(color: UiColor) -> (r: String)
    ensures
        r@ == status(color),
{
    let mut text = "\x1b[38;2;".to_owned();
    push_channels(&mut text, mute(color.red), mute(color.green), mute(color.blue));
    text.append("m");
    text
}

// ---------------------------------------------------------------------------
// Laws

/// Whether every reset in a line stands where a sequence can begin.
pub open spec fn resets_stand_free(line: Seq<char>) -> bool {
    forall|i: int| #[trigger] occurs_at(line, reset(), i) ==> ansi_after(line.take(i)) == Ansi::Text
}

proof fn replacing_resets_shows_the_same(line: Seq<char>, style: Seq<char>)
    requires
        resets_stand_free(line),
        ansi_after(style) == Ansi::Text,
        stripped(style).len() == 0,
    ensures
        stripped(replaced(line, reset(), reset() + style)) == stripped(line),
        ansi_after(replaced(line, reset(), reset() + style)) == ansi_after(line),
    decreases line.len(),
{
    reveal_strlit("\x1b[0m");
    let r = reset();
    let again = r + style;
    crate::text::index_from_finds(line, r, 0);
    match index_of(line, r) {
        None => {
            assert(split_text(line, r) =~= seq![line]);
            assert(replaced(line, r, again) =~= line);
        },
        Some(i) => {
            let head = line.take(i);
            let tail = line.skip(i + r.len());
            assert(line =~= head + r + tail);
            assert forall|k: int| #[trigger] occurs_at(tail, r, k) implies ansi_after(tail.take(k))
                == Ansi::Text by {
                let at = i + r.len() + k;
                assert(line.subrange(at, at + r.len()) =~= tail.subrange(k, k + r.len()));
                assert(occurs_at(line, r, at));
                assert(line.take(at) =~= (head + r) + tail.take(k));
                reset_is_hidden();
                ansi_after_join(head, r);
                ansi_after_join(head + r, tail.take(k));
            }
            replacing_resets_shows_the_same(tail, style);
            let rest = split_text(tail, r);
            assert(rest.len() > 0);
            joined_first(head, rest, again);
            let now = replaced(tail, r, again);
            assert(replaced(line, r, again) == head + again + now);
            reset_is_hidden();
            ansi_after_join(r, style);
            ansi_after_join(head, again);
            ansi_after_join(head + again, now);
            ansi_after_join(head, r);
            ansi_after_join(head + r, tail);
            assert(stripped(head) + Seq::<char>::empty() + stripped(tail) =~= stripped(line));
            assert(stripped(r) + stripped(style) =~= Seq::<char>::empty());
            assert(stripped(replaced(line, r, again)) =~= stripped(line));
        },
    }
}

/// Painting a row changes nothing that it shows.
pub proof fn painting_shows_the_same(line: Seq<char>, style: Seq<char>)
    requires
        resets_stand_free(line),
        ansi_after(line) == Ansi::Text,
        ansi_after(style) == Ansi::Text,
        stripped(style).len() == 0,
    ensures
        stripped(painted(line, style)) == stripped(line),
{
    replacing_resets_shows_the_same(line, style);
    let body = replaced(line, reset(), reset() + style);
    reset_is_hidden();
    ansi_after_join(style, body);
    ansi_after_join(style + body, reset());
    assert(stripped(painted(line, style)) =~= stripped(line));
}

proof fn channels_are_parameters(a: nat, b: nat, c: nat)
    ensures
        sgr_parameters(channels(a, b, c)),
{
    reveal_strlit(";");
    crate::text::decimal_reads_back(a);
    crate::text::decimal_reads_back(b);
    crate::text::decimal_reads_back(c);
    let s = channels(a, b, c);
    let la = decimal(a).len();
    let lb = decimal(b).len();
    assert forall|i: int| 0 <= i < s.len() implies ('0' <= #[trigger] s[i] <= '9' || s[i] == ';') by {
        if i < la {
            assert(s[i] == decimal(a)[i]);
        } else if i == la {
        } else if i < la + 1 + lb {
            assert(s[i] == decimal(b)[i - la - 1]);
        } else if i == la + 1 + lb {
        } else {
            assert(s[i] == decimal(c)[i - la - lb - 2]);
        }
    }
}

/// The styles of selected rows show nothing of their own.
pub proof fn selection_is_hidden(color: UiColor)
    ensures
        ansi_after(selection(color)) == Ansi::Text,
        stripped(selection(color)).len() == 0,
{
    let gray = text_gray(color);
    let first = channels(gray, gray, gray);
    let second = channels(color.red as nat, color.green as nat, color.blue as nat);
    channels_are_parameters(gray, gray, gray);
    channels_are_parameters(color.red as nat, color.green as nat, color.blue as nat);
    reveal_strlit("\x1b[38;2;");
    reveal_strlit(";48;2;");
    reveal_strlit("m");
    let head = seq!['3', '8', ';', '2', ';'];
    let middle = seq![';', '4', '8', ';', '2', ';'];
    let parameters = head + first + middle + second;
    assert forall|i: int| 0 <= i < parameters.len() implies ('0' <= #[trigger] parameters[i] <= '9'
        || parameters[i] == ';') by {
        let a = head.len();
        let b = a + first.len();
        let c = b + middle.len();
        if i < a {
        } else if i < b {
            assert(parameters[i] == first[i - a]);
        } else if i < c {
            assert(parameters[i] == middle[i - b]);
        } else {
            assert(parameters[i] == second[i - c]);
        }
    }
    assert(selection(color) =~= sgr(parameters));
    sgr_is_hidden(parameters);
}

/// A selection is written dark on a bright color and bright on a dark one: the
/// brighter the color, the darker the text.
pub proof fn selections_can_be_read(a: UiColor, b: UiColor)
    ensures
        a.red * 299 + a.green * 587 + a.blue * 114 >= 120000 <==> text_gray(a) == 16,
        a.red * 299 + a.green * 587 + a.blue * 114 < 120000 <==> text_gray(a) == 250,
        luminance(a) <= luminance(b) ==> text_gray(a) >= text_gray(b),
        text_gray(white_color()) == 16,
{
}

/// A color is written by its red, its green and its blue, in this order, as a
/// foreground or as a background.
pub proof fn colors_are_written_by_their_parts(color: UiColor)
    ensures
        foreground(color) == "\x1b[38;2;"@ + (decimal(color.red as nat) + ";"@ + decimal(
            color.green as nat,
        ) + ";"@ + decimal(color.blue as nat)) + "m"@,
        background(color.red, color.green, color.blue) == "\x1b[48;2;"@ + (decimal(
            color.red as nat,
        ) + ";"@ + decimal(color.green as nat) + ";"@ + decimal(color.blue as nat)) + "m"@,
{
}

/// A muted color lies half way to a light gray, and a tint an eighth of the way
/// from a dark one.
pub proof fn muted_colors_lie_half_way(color: UiColor)
    ensures
        ({
            let half = |value: u8, shade: nat| 2 * shade <= value + 200 < 2 * shade + 2;
            &&& half(color.red, muted(color.red))
            &&& half(color.green, muted(color.green))
            &&& half(color.blue, muted(color.blue))
        }),
        ({
            let tint = hover_tint(color);
            let eighth = |value: u8, shade: u8| 8 * (shade - 24) <= value < 8 * (shade - 24) + 8;
            &&& eighth(color.red, tint.red)
            &&& eighth(color.green, tint.green)
            &&& eighth(color.blue, tint.blue)
        }),
        status(color) == "\x1b[38;2;"@ + (decimal(muted(color.red)) + ";"@ + decimal(
            muted(color.green),
        ) + ";"@ + decimal(muted(color.blue))) + "m"@,
{
}

} // verus!
