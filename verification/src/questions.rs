//! Choices that take the place of the composer: questions of the model, and
//! the handing over of a plan.

use vstd::prelude::*;
use crate::editor::{cursor_is_inside, text_rows, wrap_text, Editor, EditorModel};
use crate::markdown::{
    fit_width, fitted, lines_of, repeat, spaces, visible_columns, visible_width,
};
use crate::model::{option_view, views};
use crate::picker::{ItemModel, Picker, PickerItem, PickerModel};
use crate::picker::action::{ActionModel, PickerAction};
use crate::rows::{at_least, at_most, larger, minus, push_row, push_rows, rows_between, smaller};
use crate::style::{painted, selected_row, selection, selection_style, UiColor};
use crate::text::{cat2, cat3, cat4, chars_of, count_of, decimal, decimal_of};

verus! {

broadcast use vstd::string::group_string_axioms;

// ---------------------------------------------------------------------------
// Rows of a choice

/// Rows with a text before the first and another before the rest.
pub open spec fn prefixed(rows: Seq<Seq<char>>, first: Seq<char>, rest: Seq<char>) -> Seq<Seq<char>> {
    Seq::new(
        rows.len(),
        |i: int|
            if i == 0 {
                first + rows[i]
            } else {
                rest + rows[i]
            },
    )
}

pub open spec fn choice_content(label: Seq<char>, description: Seq<char>, recommended: bool) -> Seq<char> {
    let named = label + (if recommended {
        " (Recommended)"@
    } else {
        ""@
    });
    if description.len() == 0 {
        named
    } else {
        named + " · "@ + description
    }
}

pub open spec fn choice_prefix(number: nat) -> Seq<char> {
    " "@ + decimal(number) + ". "@
}

/// The rows of a choice, wrapped behind its number; those of the selected one
/// are highlighted.
pub open spec fn choice_rows(
    number: nat,
    label: Seq<char>,
    description: Seq<char>,
    recommended: bool,
    selected: bool,
    width: nat,
    color: UiColor,
) -> Seq<Seq<char>> {
    let prefix = choice_prefix(number);
    let indent = visible_columns(prefix);
    let rows = prefixed(
        text_rows(
            choice_content(label, description, recommended),
            at_least(minus(width, indent), 1),
        ),
        prefix,
        spaces(indent),
    );
    Seq::new(
        rows.len(),
        |i: int|
            if selected {
                painted(fitted(rows[i], width), selection(color))
            } else {
                fitted(rows[i], width)
            },
    )
}

pub fn render_choice_lines(
    number: usize,
    label: &str,
    description: &str,
    recommended: bool,
    selected: bool,
    width: usize,
    color: UiColor,
) -> (r: Vec<String>)
    ensures
        lines_of(r@) == choice_rows(
            number as nat,
            label@,
            description@,
            recommended,
            selected,
            width as nat,
            color,
        ),
{
    let prefix = cat3(" ", count_of(number).as_str(), ". ");
    let indent: usize = visible_width(prefix.as_str());
    let continuation = repeat(' ', indent);
    let mark = if recommended {
        " (Recommended)"
    } else {
        ""
    };
    let n: usize = chars_of(description).len();
    let content = if n == 0 {
        cat2(label, mark)
    } else {
        cat4(label, mark, " · ", description)
    };
    assert(content@ =~= choice_content(label@, description@, recommended));
    let style = selection_style(color);
    let pieces = wrap_text(
        &chars_of(content.as_str()),
        larger(width.saturating_sub(indent), 1),
    );
    let ghost all = choice_rows(
        number as nat,
        label@,
        description@,
        recommended,
        selected,
        width as nat,
        color,
    );
    let ghost parts = lines_of(pieces@);
    let mut r: Vec<String> = Vec::new();
    let mut i: usize = 0;
    assert(lines_of(r@) =~= all.take(0));
    assert(parts.len() == pieces@.len());
    while i < pieces.len()
        invariant
            i <= pieces@.len(),
            prefix@ == choice_prefix(number as nat),
            indent as nat == visible_columns(prefix@),
            continuation@ == spaces(indent as nat),
            content@ == choice_content(label@, description@, recommended),
            style@ == selection(color),
            parts == lines_of(pieces@),
            parts.len() == pieces@.len(),
            parts == text_rows(
                content@,
                at_least(minus(width as nat, indent as nat), 1),
            ),
            all == choice_rows(
                number as nat,
                label@,
                description@,
                recommended,
                selected,
                width as nat,
                color,
            ),
            lines_of(r@) == all.take(i as int),
        decreases pieces@.len() - i,
    {
        assert(parts[i as int] == pieces@[i as int]@);
        let start = if i == 0 {
            prefix.as_str()
        } else {
            continuation.as_str()
        };
        let line = fit_width(cat2(start, pieces[i].as_str()).as_str(), width);
        let row = if selected {
            selected_row(line.as_str(), style.as_str())
        } else {
            line
        };
        push_row(&mut r, row);
        i += 1;
        assert(lines_of(r@) =~= all.take(i as int));
    }
    assert(lines_of(r@) =~= all);
    r
}

// ---------------------------------------------------------------------------
// The handing over of a plan

/// The rows of the first choices of a menu.
pub open spec fn handoff_choices(p: PickerModel, n: nat, width: nat, color: UiColor) -> Seq<Seq<char>>
    decreases n,
{
    if n == 0 {
        Seq::empty()
    } else {
        handoff_choices(p, (n - 1) as nat, width, color) + handoff_choice(
            p.items[n - 1],
            n,
            n - 1 == p.selected,
            width,
            color,
        )
    }
}

/// The rows of one choice.
#[verifier::opaque]
pub open spec fn handoff_choice(
    item: ItemModel,
    number: nat,
    selected: bool,
    width: nat,
    color: UiColor,
) -> Seq<Seq<char>> {
    choice_rows(
        number,
        item.label,
        item.description,
        item.action == ActionModel::ImplementPlan,
        selected,
        width,
        color,
    )
}

fn render_handoff_choice(
    item: &PickerItem,
    number: usize,
    selected: bool,
    width: usize,
    color: UiColor,
) -> (r: Vec<String>)
    ensures
        lines_of(r@) == handoff_choice(item@, number as nat, selected, width as nat, color),
{
    proof {
        reveal(handoff_choice);
    }
    let recommended = match &item.action {
        PickerAction::ImplementPlan => true,
        _ => false,
    };
    render_choice_lines(
        number,
        item.label.as_str(),
        item.description.as_str(),
        recommended,
        selected,
        width,
        color,
    )
}

pub open spec fn heading_rows(compact: bool, width: nat) -> Seq<Seq<char>> {
    if compact {
        Seq::empty()
    } else {
        seq![fitted("Choose what happens next"@, width)]
    }
}

pub open spec fn handoff_hint(compact: bool, width: nat) -> Seq<Seq<char>> {
    if compact {
        Seq::empty()
    } else {
        seq![fitted(" ↑/↓ choose · 1–2 select · Enter confirm · Esc return"@, width)]
    }
}

/// The rows of the menu that hands a plan over.
pub open spec fn handoff_rows(p: PickerModel, width: nat, color: UiColor, compact: bool) -> Seq<
    Seq<char>,
> {
    heading_rows(compact, width) + handoff_choices(p, p.items.len(), width, color) + handoff_hint(
        compact,
        width,
    )
}

/// The row at which the selected choice begins.
pub open spec fn handoff_focus(p: PickerModel, width: nat, color: UiColor, compact: bool) -> nat {
    if p.selected < p.items.len() {
        heading_rows(compact, width).len() + handoff_choices(
            p,
            p.selected as nat,
            width,
            color,
        ).len()
    } else {
        0
    }
}

pub fn render_plan_handoff_input(picker: &Picker, width: usize, color: UiColor, compact: bool) -> (r: (
    Vec<String>,
    usize,
))
    ensures
        lines_of(r.0@) == handoff_rows(picker@, width as nat, color, compact),
        r.1 as nat == handoff_focus(picker@, width as nat, color, compact),
{
    let mut lines: Vec<String> = Vec::new();
    let mut focus: usize = 0;
    assert(lines_of(lines@) =~= Seq::empty());
    if !compact {
        push_row(&mut lines, fit_width("Choose what happens next", width));
    }
    let ghost head = heading_rows(compact, width as nat);
    assert(lines_of(lines@) =~= head);
    let n: usize = picker.items.len();
    let mut i: usize = 0;
    assert(lines_of(lines@) =~= head + handoff_choices(picker@, 0, width as nat, color));
    while i < n
        invariant
            i <= n,
            n == picker.items@.len(),
            head == heading_rows(compact, width as nat),
            lines_of(lines@) == head + handoff_choices(picker@, i as nat, width as nat, color),
            focus as nat == (if picker@.selected < i {
                handoff_focus(picker@, width as nat, color, compact)
            } else {
                0
            }),
        decreases n - i,
    {
        let item = &picker.items[i];
        assert(picker@.items[i as int] == item@);
        let selected = i == picker.selected;
        if selected {
            focus = lines.len();
            assert(lines_of(lines@).len() == focus);
        }
        push_rows(&mut lines, render_handoff_choice(item, i + 1, selected, width, color));
        i += 1;
        assert(lines_of(lines@) =~= head + handoff_choices(
            picker@,
            i as nat,
            width as nat,
            color,
        ));
    }
    if !compact {
        push_row(
            &mut lines,
            fit_width(" ↑/↓ choose · 1–2 select · Enter confirm · Esc return", width),
        );
    }
    assert(lines_of(lines@) =~= handoff_rows(picker@, width as nat, color, compact));
    (lines, focus)
}

// ---------------------------------------------------------------------------
// Questions

/// An answer that is offered.
#[derive(Debug)]
pub struct QuestionOption {
    pub label: String,
    pub description: String,
}

pub struct OptionModel {
    pub label: Seq<char>,
    pub description: Seq<char>,
}

impl View for QuestionOption {
    type V = OptionModel;

    open spec fn view(&self) -> OptionModel {
        OptionModel { label: self.label@, description: self.description@ }
    }
}

/// A question of the model that waits for an answer.
#[derive(Debug)]
pub struct ActiveQuestion {
    /// Counted from one.
    pub number: usize,
    pub count: usize,
    /// The seconds until the recommended answer is taken.
    pub seconds_left: Option<u64>,
    pub text: String,
    pub options: Vec<QuestionOption>,
    pub recommended: usize,
    pub selected: usize,
    /// An answer of one's own that is being written.
    pub custom: Option<Editor>,
}

pub struct QuestionModel {
    pub number: usize,
    pub count: usize,
    pub seconds_left: Option<u64>,
    pub text: Seq<char>,
    pub options: Seq<OptionModel>,
    pub recommended: usize,
    pub selected: usize,
    pub custom: Option<EditorModel>,
}

impl View for ActiveQuestion {
    type V = QuestionModel;

    open spec fn view(&self) -> QuestionModel {
        QuestionModel {
            number: self.number,
            count: self.count,
            seconds_left: self.seconds_left,
            text: self.text@,
            options: views(self.options@),
            recommended: self.recommended,
            selected: self.selected,
            custom: option_view(self.custom),
        }
    }
}

pub open spec fn countdown(seconds: Option<u64>) -> Seq<char> {
    match seconds {
        Some(n) => " · "@ + decimal(at_most(n as nat + 1, u64::MAX as nat)) + "s"@,
        None => ""@,
    }
}

fn show_countdown(seconds: Option<u64>) -> (r: String)
    ensures
        r@ == countdown(seconds),
{
    match seconds {
        Some(n) => cat3(" · ", decimal_of(n.saturating_add(1)).as_str(), "s"),
        None => "".to_owned(),
    }
}

pub open spec fn question_heading(q: QuestionModel, compact: bool) -> Seq<char> {
    let place = decimal(q.number as nat) + "/"@ + decimal(q.count as nat) + countdown(
        q.seconds_left,
    );
    if compact {
        place + " · "@ + q.text
    } else {
        "Question "@ + place
    }
}

/// The question itself.
pub open spec fn question_head(q: QuestionModel, width: nat, compact: bool) -> Seq<Seq<char>> {
    text_rows(question_heading(q, compact), width) + (if compact {
        Seq::empty()
    } else {
        text_rows(q.text, width)
    })
}

fn render_head(question: &ActiveQuestion, width: usize, compact: bool) -> (r: Vec<String>)
    ensures
        lines_of(r@) == question_head(question@, width as nat, compact),
{
    let place = cat4(
        count_of(question.number).as_str(),
        "/",
        count_of(question.count).as_str(),
        show_countdown(question.seconds_left).as_str(),
    );
    let heading = if compact {
        cat3(place.as_str(), " · ", question.text.as_str())
    } else {
        cat2("Question ", place.as_str())
    };
    assert(heading@ =~= question_heading(question@, compact));
    let mut lines = wrap_text(&chars_of(heading.as_str()), width);
    if !compact {
        let text = wrap_text(&chars_of(question.text.as_str()), width);
        push_rows(&mut lines, text);
    }
    assert(lines_of(lines@) =~= question_head(question@, width as nat, compact));
    lines
}

/// The rows of the first answers that are offered; the last of all stands for
/// an answer of one's own.
pub open spec fn answer_rows(q: QuestionModel, n: nat, width: nat, color: UiColor, compact: bool) -> Seq<
    Seq<char>,
>
    decreases n,
{
    if n == 0 {
        Seq::empty()
    } else {
        let i = n - 1;
        let label = if i < q.options.len() {
            q.options[i].label
        } else {
            "Other…"@
        };
        let description = if compact {
            ""@
        } else if i < q.options.len() {
            q.options[i].description
        } else {
            "Write your own answer"@
        };
        answer_rows(q, i as nat, width, color, compact) + choice_rows(
            n,
            label,
            description,
            i < q.options.len() && i == q.recommended,
            i == q.selected,
            width,
            color,
        )
    }
}

pub open spec fn answer_hint(q: QuestionModel, width: nat, compact: bool) -> Seq<Seq<char>> {
    if compact {
        Seq::empty()
    } else {
        seq![
            fitted(
                " ↑/↓ choose · 1–"@ + decimal(q.options.len() + 1)
                    + " select · Enter confirm · Esc cancel"@,
                width,
            ),
            ""@,
        ]
    }
}

/// The rows of a question with the answers that are offered.
pub open spec fn choosing_rows(q: QuestionModel, width: nat, color: UiColor, compact: bool) -> Seq<
    Seq<char>,
> {
    question_head(q, width, compact) + answer_rows(
        q,
        q.options.len() + 1,
        width,
        color,
        compact,
    ) + answer_hint(q, width, compact)
}

/// The row at which the selected answer begins.
pub open spec fn choosing_focus(q: QuestionModel, width: nat, color: UiColor, compact: bool) -> nat {
    let head = question_head(q, width, compact).len();
    if q.selected <= q.options.len() {
        head + answer_rows(q, q.selected as nat, width, color, compact).len()
    } else {
        head
    }
}

fn render_answers(
    question: &ActiveQuestion,
    lines: &mut Vec<String>,
    width: usize,
    color: UiColor,
    compact: bool,
) -> (focus: usize)
    requires
        question.options@.len() < usize::MAX,
        lines_of(old(lines)@) == question_head(question@, width as nat, compact),
    ensures
        lines_of(final(lines)@) == lines_of(old(lines)@) + answer_rows(
            question@,
            question@.options.len() + 1,
            width as nat,
            color,
            compact,
        ),
        focus as nat == choosing_focus(question@, width as nat, color, compact),
{
    let ghost head = lines_of(lines@);
    let n: usize = question.options.len();
    let mut focus: usize = lines.len();
    let mut i: usize = 0;
    assert(lines_of(lines@).len() == focus);
    assert(lines_of(lines@) =~= head + answer_rows(question@, 0, width as nat, color, compact));
    while i <= n
        invariant
            i <= n + 1,
            n == question.options@.len(),
            n < usize::MAX,
            head == question_head(question@, width as nat, compact),
            lines_of(lines@) == head + answer_rows(
                question@,
                i as nat,
                width as nat,
                color,
                compact,
            ),
            focus as nat == (if question@.selected < i {
                choosing_focus(question@, width as nat, color, compact)
            } else {
                head.len()
            }),
        decreases n + 1 - i,
    {
        let selected = i == question.selected;
        if selected {
            focus = lines.len();
            assert(lines_of(lines@).len() == focus);
        }
        let label = if i < n {
            question.options[i].label.as_str()
        } else {
            "Other…"
        };
        let description = if compact {
            ""
        } else if i < n {
            question.options[i].description.as_str()
        } else {
            "Write your own answer"
        };
        if i < n {
            assert(question@.options[i as int] == question.options@[i as int]@);
        }
        let rows = render_choice_lines(
            i + 1,
            label,
            description,
            i < n && i == question.recommended,
            selected,
            width,
            color,
        );
        push_rows(lines, rows);
        i += 1;
        assert(lines_of(lines@) =~= head + answer_rows(
            question@,
            i as nat,
            width as nat,
            color,
            compact,
        ));
    }
    focus
}

pub open spec fn custom_intro(compact: bool, width: nat) -> Seq<Seq<char>> {
    if compact {
        Seq::empty()
    } else {
        seq![""@, fitted(" Your answer"@, width)]
    }
}

pub open spec fn custom_hint(compact: bool, width: nat) -> Seq<Seq<char>> {
    if compact {
        Seq::empty()
    } else {
        seq![
            fitted(" Enter submit · Shift+Enter newline · Esc choices · Ctrl+C cancel"@, width),
            ""@,
        ]
    }
}

/// The rows of a question with an answer of one's own.
pub open spec fn writing_rows(q: QuestionModel, editor: EditorModel, width: nat, compact: bool) -> Seq<
    Seq<char>,
> {
    let answer = text_rows(editor.text, width);
    question_head(q, width, compact) + custom_intro(compact, width) + Seq::new(
        answer.len(),
        |i: int| fitted(answer[i], width),
    ) + custom_hint(compact, width)
}

/// Where the cursor stands in such an answer.
pub open spec fn writing_cursor(q: QuestionModel, editor: EditorModel, width: nat, compact: bool) -> (
    nat,
    nat,
) {
    let before = text_rows(editor.text.take(editor.at()), width);
    (
        (question_head(q, width, compact).len() + custom_intro(compact, width).len()
            + before.len() - 1) as nat,
        visible_columns(before.last()),
    )
}

fn push_fitted(lines: &mut Vec<String>, more: &Vec<String>, width: usize)
    ensures
        lines_of(final(lines)@) == lines_of(old(lines)@) + Seq::new(
            more@.len(),
            |i: int| fitted(lines_of(more@)[i], width as nat),
        ),
{
    let ghost all = Seq::new(more@.len(), |i: int| fitted(lines_of(more@)[i], width as nat));
    let mut i: usize = 0;
    assert(lines_of(lines@) =~= lines_of(old(lines)@) + all.take(0));
    while i < more.len()
        invariant
            i <= more@.len(),
            all == Seq::new(more@.len(), |i: int| fitted(lines_of(more@)[i], width as nat)),
            lines_of(lines@) == lines_of(old(lines)@) + all.take(i as int),
        decreases more@.len() - i,
    {
        push_row(lines, fit_width(more[i].as_str(), width));
        assert(lines_of(more@)[i as int] == more@[i as int]@);
        i += 1;
        assert(lines_of(lines@) =~= lines_of(old(lines)@) + all.take(i as int));
    }
    assert(all.take(i as int) =~= all);
}

/// What a question shows: the rows, the cursor where an answer is being
/// written, and the row that has to be seen.
pub struct QuestionView {
    pub rows: Seq<Seq<char>>,
    pub cursor: Option<(nat, nat)>,
    pub focus: nat,
}

#[verifier::opaque]
pub open spec fn question_view(q: QuestionModel, width: nat, color: UiColor, compact: bool) -> QuestionView {
    match q.custom {
        Some(editor) => QuestionView {
            rows: writing_rows(q, editor, width, compact),
            cursor: Some(writing_cursor(q, editor, width, compact)),
            focus: writing_cursor(q, editor, width, compact).0,
        },
        None => QuestionView {
            rows: choosing_rows(q, width, color, compact),
            cursor: None,
            focus: choosing_focus(q, width, color, compact),
        },
    }
}

/// The place of a cursor as a model.
pub open spec fn place_of(cursor: Option<(usize, usize)>) -> Option<(nat, nat)> {
    match cursor {
        Some(place) => Some((place.0 as nat, place.1 as nat)),
        None => None,
    }
}

/// A cursor that is shown stands in one of some rows.
pub open spec fn inside(cursor: Option<(nat, nat)>, rows: nat) -> bool {
    match cursor {
        Some(place) => place.0 < rows,
        None => true,
    }
}

/// Draws a question; see `question_view`.
pub fn render_question_input(question: &ActiveQuestion, width: usize, color: UiColor, compact: bool) -> (r: (
    Vec<String>,
    Option<(usize, usize)>,
    usize,
))
    requires
        question.options@.len() < usize::MAX,
    ensures
        ({
            let view = question_view(question@, width as nat, color, compact);
            &&& lines_of(r.0@) == view.rows
            &&& place_of(r.1) == view.cursor
            &&& r.2 as nat == view.focus
        }),
{
    proof {
        reveal(question_view);
    }
    let mut lines = render_head(question, width, compact);
    match &question.custom {
        Some(editor) => {
            if !compact {
                push_row(&mut lines, "".to_owned());
                push_row(&mut lines, fit_width(" Your answer", width));
            }
            assert(lines_of(lines@) =~= question_head(question@, width as nat, compact)
                + custom_intro(compact, width as nat));
            let layout = editor.layout(width);
            let start: usize = lines.len();
            assert(lines_of(lines@).len() == start);
            let ghost written = lines_of(layout.lines@);
            assert(written.len() == layout.lines@.len());
            push_fitted(&mut lines, &layout.lines, width);
            let total: usize = lines.len();
            assert(lines_of(lines@).len() == total);
            proof {
                cursor_is_inside(editor@.text, editor@.at(), width as nat);
            }
            let cursor: (usize, usize) = (start + layout.cursor_row, layout.cursor_col);
            if !compact {
                push_row(
                    &mut lines,
                    fit_width(
                        " Enter submit · Shift+Enter newline · Esc choices · Ctrl+C cancel",
                        width,
                    ),
                );
                push_row(&mut lines, "".to_owned());
            }
            assert(lines_of(lines@) =~= writing_rows(question@, editor@, width as nat, compact));
            let focus: usize = cursor.0;
            (lines, Some(cursor), focus)
        },
        None => {
            let focus: usize = render_answers(question, &mut lines, width, color, compact);
            let n: usize = question.options.len();
            assert(question@.options.len() == n);
            if !compact {
                let text = cat3(
                    " ↑/↓ choose · 1–",
                    count_of(n + 1).as_str(),
                    " select · Enter confirm · Esc cancel",
                );
                push_row(&mut lines, fit_width(text.as_str(), width));
                push_row(&mut lines, "".to_owned());
            }
            assert(lines_of(lines@) =~= choosing_rows(question@, width as nat, color, compact));
            (lines, None, focus)
        },
    }
}

// ---------------------------------------------------------------------------
// A part of the rows

/// The part of some rows that is shown: all, or those around a row.
pub open spec fn part_start(count: nat, focus: nat, most: nat) -> nat {
    if count <= most {
        0
    } else {
        at_most(minus(at_most(focus, (count - 1) as nat), most / 2), (count - most) as nat)
    }
}

pub open spec fn bounded_rows(rows: Seq<Seq<char>>, focus: nat, most: nat) -> Seq<Seq<char>> {
    if rows.len() <= most {
        rows
    } else {
        let start = part_start(rows.len(), focus, most) as int;
        rows.subrange(start, start + most)
    }
}

/// The cursor in that part; none where it lies outside.
pub open spec fn bounded_cursor(
    cursor: Option<(nat, nat)>,
    count: nat,
    focus: nat,
    most: nat,
) -> Option<(nat, nat)> {
    if count <= most {
        cursor
    } else {
        let start = part_start(count, focus, most);
        match cursor {
            Some(place) => if start <= place.0 < start + most {
                Some(((place.0 - start) as nat, place.1))
            } else {
                None
            },
            None => None,
        }
    }
}

/// The row that has to be seen: that of the cursor, where there is one.
pub open spec fn focus_of(cursor: Option<(nat, nat)>, focus: nat) -> nat {
    match cursor {
        Some(place) => place.0,
        None => focus,
    }
}

pub fn bounded_input_view(
    lines: Vec<String>,
    cursor: Option<(usize, usize)>,
    focus_row: usize,
    max_lines: usize,
) -> (r: (Vec<String>, Option<(usize, usize)>))
    ensures
        lines_of(r.0@) == bounded_rows(
            lines_of(lines@),
            focus_of(place_of(cursor), focus_row as nat),
            at_least(max_lines as nat, 1),
        ),
        place_of(r.1) == bounded_cursor(
            place_of(cursor),
            lines@.len(),
            focus_of(place_of(cursor), focus_row as nat),
            at_least(max_lines as nat, 1),
        ),
        r.0@.len() <= at_least(max_lines as nat, 1),
        inside(place_of(cursor), lines@.len()) ==> inside(place_of(r.1), r.0@.len()),
{
    let most: usize = larger(max_lines, 1);
    let count: usize = lines.len();
    assert(lines_of(lines@).len() == count);
    if count <= most {
        return (lines, cursor);
    }
    let focus: usize = match cursor {
        Some(place) => place.0,
        None => focus_row,
    };
    let start: usize = smaller(
        smaller(focus, count - 1).saturating_sub(most / 2),
        count - most,
    );
    let end: usize = start + most;
    let shown = rows_between(&lines, start, end);
    let place = match cursor {
        Some((row, column)) => if start <= row && row < end {
            Some((row - start, column))
        } else {
            None
        },
        None => None,
    };
    assert(lines_of(shown@).len() == shown@.len());
    (shown, place)
}

/// The cursor stands in one of the rows of a question.
pub proof fn question_cursor_is_inside(q: QuestionModel, width: nat, color: UiColor, compact: bool)
    ensures
        ({
            let view = question_view(q, width, color, compact);
            inside(view.cursor, view.rows.len())
        }),
{
    reveal(question_view);
    match q.custom {
        Some(editor) => {
            cursor_is_inside(editor.text, editor.at(), width);
        },
        None => {},
    }
}

// ---------------------------------------------------------------------------
// Laws

/// The row that has to be seen is among those that are shown, and the cursor
/// with it.
pub proof fn focus_is_shown(
    rows: Seq<Seq<char>>,
    cursor: Option<(nat, nat)>,
    focus: nat,
    most: nat,
)
    requires
        most > 0,
        focus_of(cursor, focus) < rows.len(),
    ensures
        ({
            let row = focus_of(cursor, focus);
            let start = part_start(rows.len(), row, most);
            &&& start <= row < start + bounded_rows(rows, row, most).len()
            &&& bounded_rows(rows, row, most)[row - start] == rows[row as int]
            &&& cursor is Some ==> bounded_cursor(cursor, rows.len(), row, most) is Some
        }),
{
}

/// The answers of a question are listed in their order and counted from one,
/// the recommended one marked and the selected one painted; behind them one's
/// own answer is offered.
pub proof fn answers_are_listed_in_order(
    q: QuestionModel,
    n: nat,
    width: nat,
    color: UiColor,
    compact: bool,
)
    requires
        n <= q.options.len(),
    ensures
        answer_rows(q, 0, width, color, compact).len() == 0,
        n < q.options.len() && !compact ==> answer_rows(q, n + 1, width, color, compact)
            == answer_rows(q, n, width, color, compact) + choice_rows(
            n + 1,
            q.options[n as int].label,
            q.options[n as int].description,
            n == q.recommended,
            n == q.selected,
            width,
            color,
        ),
        n == q.options.len() && !compact ==> answer_rows(q, n + 1, width, color, compact)
            == answer_rows(q, n, width, color, compact) + choice_rows(
            n + 1,
            "Other…"@,
            "Write your own answer"@,
            false,
            n == q.selected,
            width,
            color,
        ),
{
}

/// A choice is drawn with its number before its first row and the others below
/// its text; painted where it is selected, and only there.
pub proof fn choices_are_numbered(
    number: nat,
    label: Seq<char>,
    recommended: bool,
    width: nat,
    color: UiColor,
    i: int,
)
    requires
        ({
            let indent = visible_columns(" "@ + decimal(number) + ". "@);
            0 <= i < text_rows(
                choice_content(label, ""@, recommended),
                at_least(minus(width, indent), 1),
            ).len()
        }),
    ensures
        ({
            let prefix = " "@ + decimal(number) + ". "@;
            let indent = visible_columns(prefix);
            let text = text_rows(
                choice_content(label, ""@, recommended),
                at_least(minus(width, indent), 1),
            );
            let plain = choice_rows(number, label, ""@, recommended, false, width, color);
            let marked = choice_rows(number, label, ""@, recommended, true, width, color);
            &&& plain.len() == text.len() && marked.len() == text.len()
            &&& i == 0 ==> plain[i] == fitted(prefix + text[i], width)
            &&& i > 0 ==> plain[i] == fitted(spaces(indent) + text[i], width)
            &&& marked[i] == painted(plain[i], selection(color))
        }),
        recommended ==> choice_content(label, ""@, recommended) == label + " (Recommended)"@,
        !recommended ==> choice_content(label, ""@, recommended) == label,
{
    reveal_strlit("");
    assert(label + ""@ =~= label);
}

/// The heading tells which question it is, of how many, and how many seconds
/// are left where they are counted.
pub proof fn headings_count_the_questions(q: QuestionModel, n: u64)
    requires
        n < u64::MAX,
    ensures
        q.seconds_left is None ==> question_heading(q, false) == "Question "@ + (decimal(
            q.number as nat,
        ) + "/"@ + decimal(q.count as nat)),
        q.seconds_left == Some(n) ==> question_heading(q, false) == "Question "@ + (decimal(
            q.number as nat,
        ) + "/"@ + decimal(q.count as nat) + (" · "@ + decimal((n + 1) as nat) + "s"@)),
{
    reveal_strlit("");
    let place = decimal(q.number as nat) + "/"@ + decimal(q.count as nat);
    assert(place + ""@ =~= place);
}

/// One's own answer stands below the question, and the cursor in it; the rows
/// that are shown are those of the question one behind the other.
pub proof fn own_answers_are_shown(
    q: QuestionModel,
    editor: EditorModel,
    width: nat,
    color: UiColor,
    i: int,
)
    requires
        q.custom == Some(editor),
        0 <= i < text_rows(editor.text, width).len(),
    ensures
        ({
            let view = question_view(q, width, color, false);
            let head = question_head(q, width, false).len() + 2;
            &&& view.rows[head + i] == fitted(text_rows(editor.text, width)[i], width)
            &&& view.cursor is Some
        }),
{
    reveal(question_view);
}

/// The handoff of a plan lists its answers in their order, and recommends to
/// implement it.
pub proof fn handoffs_recommend_to_implement(
    p: PickerModel,
    n: nat,
    width: nat,
    color: UiColor,
)
    requires
        n < p.items.len(),
    ensures
        handoff_choices(p, n + 1, width, color) == handoff_choices(p, n, width, color)
            + choice_rows(
            n + 1,
            p.items[n as int].label,
            p.items[n as int].description,
            p.items[n as int].action == ActionModel::ImplementPlan,
            n == p.selected,
            width,
            color,
        ),
        handoff_choices(p, 0, width, color).len() == 0,
{
    reveal(handoff_choice);
}

} // verus!
