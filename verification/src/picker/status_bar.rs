//! The menus in which the status bar is laid out, and what they change.

use vstd::prelude::*;
use crate::config::{
    all_kinds, BarItemModel, BarModel, StatusBarConfig, StatusBarFormat, StatusBarItemConfig,
    StatusBarKind, StatusBarStyle, StatusBarVisibility,
};
use crate::markdown::{text_columns, unicode_text_columns};
use crate::model::{option_view, views};
use crate::rows::{at_most, minus, smaller};
use crate::text::{
    cat2, cat5, chars_of, count_of, decimal, is_whitespace, same, whitespace,
};
use super::{choice, offer, ItemModel, Picker, PickerItem, PickerModel};
use super::action::{ActionModel, PickerAction};

verus! {

broadcast use vstd::string::group_string_axioms;

// ---------------------------------------------------------------------------
// Descriptions

/// What the `Debug` format of a text is.
pub uninterp spec fn quoted(s: Seq<char>) -> Seq<char>;

/// The `Debug` format of `str`: a function of the text alone.
#[verifier::external_body]
fn quote(s: &str) -> (r: String)
    ensures
        r@ == quoted(s@),
{
    format!("{s:?}")
}

pub open spec fn label_summary(label: Option<Seq<char>>) -> Seq<char> {
    match label {
        None => "default label"@,
        Some(label) => if label.len() == 0 {
            "no label"@
        } else {
            "label "@ + quoted(label)
        },
    }
}

fn describe_label(label: &Option<String>) -> (r: String)
    ensures
        r@ == label_summary(option_view(*label)),
{
    match label {
        None => "default label".to_owned(),
        Some(label) => {
            let n: usize = chars_of(label.as_str()).len();
            if n == 0 {
                "no label".to_owned()
            } else {
                cat2("label ", quote(label.as_str()).as_str())
            }
        },
    }
}

pub open spec fn blank(s: Seq<char>) -> bool {
    forall|i: int| 0 <= i < s.len() ==> whitespace(#[trigger] s[i])
}

/// What is said of a separator: one that cannot be seen is described by the
/// columns that it takes.
pub open spec fn separator_summary(separator: Seq<char>) -> Seq<char> {
    if separator.len() == 0 {
        "No separator"@
    } else if blank(separator) {
        decimal(unicode_text_columns(separator)) + " space columns"@
    } else {
        quoted(separator)
    }
}

pub fn separator_description(separator: &str) -> (r: String)
    ensures
        r@ == separator_summary(separator@),
{
    let chars = chars_of(separator);
    let n: usize = chars.len();
    if n == 0 {
        return "No separator".to_owned();
    }
    let mut i: usize = 0;
    while i < n
        invariant
            i <= n,
            n == chars@.len(),
            n > 0,
            chars@ == separator@,
            forall|k: int| 0 <= k < i ==> whitespace(#[trigger] chars@[k]),
        decreases n - i,
    {
        if !is_whitespace(chars[i]) {
            assert(!whitespace(separator@[i as int]));
            return quote(separator);
        }
        i += 1;
    }
    cat2(count_of(text_columns(separator)).as_str(), " space columns")
}

// ---------------------------------------------------------------------------
// The layout

pub open spec fn bar_item_choice(item: BarItemModel, index: usize) -> ItemModel {
    choice(
        item.kind.title(),
        item.format.name() + " · "@ + item.visibility.name() + " · "@ + label_summary(item.label),
        ActionModel::OpenStatusBarItem { index, selected: 0 },
    )
}

pub open spec fn editor_choices(layout: BarModel) -> Seq<ItemModel> {
    Seq::new(layout.items.len(), |i: int| bar_item_choice(layout.items[i], i as usize)) + seq![
        choice(
            "Add item…"@,
            decimal(minus(6, layout.items.len())) + " available"@,
            ActionModel::OpenStatusBarAdd,
        ),
        choice("Color style"@, layout.style.name(), ActionModel::OpenStatusBarStyles),
        choice(
            "Separator"@,
            separator_summary(layout.separator),
            ActionModel::OpenStatusBarSeparators,
        ),
        choice(
            "Reset to default"@,
            "Restore the built-in items and appearance"@,
            ActionModel::ResetStatusBar,
        ),
        choice("Save"@, "Write this layout to global settings"@, ActionModel::SaveStatusBar),
    ]
}

/// The list of the items of the status bar.
#[verifier::opaque]
pub open spec fn editor_menu(layout: BarModel, selected: usize) -> PickerModel {
    PickerModel {
        title: "Status bar"@,
        hint: "K/J reorder  d remove  Enter edit  Esc discard"@,
        items: editor_choices(layout),
        selected: at_most(selected as nat, layout.items.len() + 4) as usize,
        editing: None,
        parent: Some(ActionModel::CancelStatusBarEditor),
    }
}

/// The list of the items of a layout; see `editor_menu`.
pub fn status_bar_editor_picker(layout: &StatusBarConfig, selected: usize) -> (r: Picker)
    ensures
        r@ == editor_menu(layout@, selected),
{
    proof {
        reveal(editor_menu);
    }
    let ghost all = editor_choices(layout@);
    let mut items: Vec<PickerItem> = Vec::new();
    let n: usize = layout.items.len();
    let mut i: usize = 0;
    assert(views(items@) =~= all.take(0));
    while i < n
        invariant
            i <= n,
            n == layout.items@.len(),
            all == editor_choices(layout@),
            views(items@) == all.take(i as int),
        decreases n - i,
    {
        proof {
            reveal(editor_menu);
        }
        let item = &layout.items[i];
        assert(layout@.items[i as int] == item@);
        let description = cat5(
            item.format.as_str(),
            " · ",
            item.visibility.as_str(),
            " · ",
            describe_label(&item.label).as_str(),
        );
        offer(
            &mut items,
            item.kind.label(),
            description.as_str(),
            PickerAction::OpenStatusBarItem { index: i, selected: 0 },
        );
        i += 1;
        assert(views(items@) =~= all.take(i as int));
    }
    let free: usize = 6usize.saturating_sub(n);
    offer(
        &mut items,
        "Add item…",
        cat2(count_of(free).as_str(), " available").as_str(),
        PickerAction::OpenStatusBarAdd,
    );
    offer(&mut items, "Color style", layout.style.as_str(), PickerAction::OpenStatusBarStyles);
    offer(
        &mut items,
        "Separator",
        separator_description(layout.separator.as_str()).as_str(),
        PickerAction::OpenStatusBarSeparators,
    );
    offer(
        &mut items,
        "Reset to default",
        "Restore the built-in items and appearance",
        PickerAction::ResetStatusBar,
    );
    offer(
        &mut items,
        "Save",
        "Write this layout to global settings",
        PickerAction::SaveStatusBar,
    );
    assert(views(items@) =~= all);
    let count: usize = items.len();
    assert(views(items@).len() == count);
    Picker {
        title: "Status bar".to_owned(),
        hint: "K/J reorder  d remove  Enter edit  Esc discard".to_owned(),
        selected: smaller(selected, count - 1),
        items,
        editing: None,
        parent: Some(PickerAction::CancelStatusBarEditor),
    }
}

pub open spec fn shown_label(label: Option<Seq<char>>) -> Seq<char> {
    match label {
        None => "Built-in label"@,
        Some(label) => if label.len() == 0 {
            "Hidden"@
        } else {
            label
        },
    }
}

pub open spec fn text_or_nothing(label: Option<Seq<char>>) -> Seq<char> {
    match label {
        None => ""@,
        Some(label) => label,
    }
}

pub open spec fn other_visibility(visibility: StatusBarVisibility) -> StatusBarVisibility {
    match visibility {
        StatusBarVisibility::Auto => StatusBarVisibility::Always,
        StatusBarVisibility::Always => StatusBarVisibility::Auto,
    }
}

pub open spec fn item_choices(item: BarItemModel, index: usize) -> Seq<ItemModel> {
    let always = seq![
        choice("Format"@, item.format.name(), ActionModel::OpenStatusBarFormats(index)),
        choice(
            "Custom label…"@,
            shown_label(item.label),
            ActionModel::EditStatusBarLabel { index, initial: text_or_nothing(item.label) },
        ),
        choice(
            "Use built-in label"@,
            "Clear the label override"@,
            ActionModel::ResetStatusBarLabel(index),
        ),
    ];
    if item.kind.comes_and_goes() {
        always.push(
            choice(
                "Visibility"@,
                item.visibility.name(),
                ActionModel::SetStatusBarVisibility {
                    index,
                    visibility: other_visibility(item.visibility),
                },
            ),
        )
    } else {
        always
    }
}

/// What can be changed of an item.
#[verifier::opaque]
pub open spec fn item_menu(layout: BarModel, index: usize, selected: usize) -> PickerModel {
    let item = layout.items[index as int];
    let items = item_choices(item, index);
    PickerModel {
        title: item.kind.title(),
        hint: "Enter change  Esc back"@,
        items,
        selected: at_most(selected as nat, minus(items.len(), 1)) as usize,
        editing: None,
        parent: Some(ActionModel::OpenStatusBarEditor { selected: index }),
    }
}

/// What can be changed of an item; see `item_menu`.
pub fn status_bar_item_picker(layout: &StatusBarConfig, index: usize, selected: usize) -> (r: Picker)
    requires
        index < layout.items@.len(),
    ensures
        r@ == item_menu(layout@, index, selected),
{
    proof {
        reveal(item_menu);
    }
    let item = &layout.items[index];
    assert(layout@.items[index as int] == item@);
    let mut items: Vec<PickerItem> = Vec::new();
    offer(
        &mut items,
        "Format",
        item.format.as_str(),
        PickerAction::OpenStatusBarFormats(index),
    );
    let initial = match &item.label {
        None => "",
        Some(label) => label.as_str(),
    };
    let n: usize = chars_of(initial).len();
    let shown = match &item.label {
        None => "Built-in label",
        Some(label) => if n == 0 {
            "Hidden"
        } else {
            label.as_str()
        },
    };
    offer(
        &mut items,
        "Custom label…",
        shown,
        PickerAction::EditStatusBarLabel { index, initial: initial.to_owned() },
    );
    offer(
        &mut items,
        "Use built-in label",
        "Clear the label override",
        PickerAction::ResetStatusBarLabel(index),
    );
    if item.kind.is_dynamic() {
        let visibility = if item.visibility == StatusBarVisibility::Auto {
            StatusBarVisibility::Always
        } else {
            StatusBarVisibility::Auto
        };
        offer(
            &mut items,
            "Visibility",
            item.visibility.as_str(),
            PickerAction::SetStatusBarVisibility { index, visibility },
        );
    }
    assert(views(items@) =~= item_choices(item@, index));
    let count: usize = items.len();
    assert(views(items@).len() == count);
    Picker {
        title: item.kind.label().to_owned(),
        hint: "Enter change  Esc back".to_owned(),
        selected: smaller(selected, count.saturating_sub(1)),
        items,
        editing: None,
        parent: Some(PickerAction::OpenStatusBarEditor { selected: index }),
    }
}

/// The choice of the format of an item.
#[verifier::opaque]
pub open spec fn format_menu(layout: BarModel, index: usize) -> PickerModel {
    let item = layout.items[index as int];
    PickerModel {
        title: item.kind.title() + " format"@,
        hint: "Enter select  Esc back"@,
        items: seq![
            choice(
                "current"@,
                "Match the original status bar"@,
                ActionModel::SetStatusBarFormat { index, format: StatusBarFormat::Current },
            ),
            choice(
                "compact"@,
                "Show the shortest useful value"@,
                ActionModel::SetStatusBarFormat { index, format: StatusBarFormat::Compact },
            ),
            choice(
                "detailed"@,
                "Add a descriptive label and detail"@,
                ActionModel::SetStatusBarFormat { index, format: StatusBarFormat::Detailed },
            ),
        ],
        selected: match item.format {
            StatusBarFormat::Current => 0,
            StatusBarFormat::Compact => 1,
            StatusBarFormat::Detailed => 2,
        },
        editing: None,
        parent: Some(ActionModel::OpenStatusBarItem { index, selected: 0 }),
    }
}

/// The choice of the format of an item; see `format_menu`.
pub fn status_bar_format_picker(layout: &StatusBarConfig, index: usize) -> (r: Picker)
    requires
        index < layout.items@.len(),
    ensures
        r@ == format_menu(layout@, index),
{
    proof {
        reveal(format_menu);
    }
    let item = &layout.items[index];
    assert(layout@.items[index as int] == item@);
    let mut items: Vec<PickerItem> = Vec::new();
    offer(
        &mut items,
        "current",
        "Match the original status bar",
        PickerAction::SetStatusBarFormat { index, format: StatusBarFormat::Current },
    );
    offer(
        &mut items,
        "compact",
        "Show the shortest useful value",
        PickerAction::SetStatusBarFormat { index, format: StatusBarFormat::Compact },
    );
    offer(
        &mut items,
        "detailed",
        "Add a descriptive label and detail",
        PickerAction::SetStatusBarFormat { index, format: StatusBarFormat::Detailed },
    );
    assert(views(items@) =~= format_menu(layout@, index).items);
    Picker {
        title: cat2(item.kind.label(), " format"),
        hint: "Enter select  Esc back".to_owned(),
        items,
        selected: match item.format {
            StatusBarFormat::Current => 0,
            StatusBarFormat::Compact => 1,
            StatusBarFormat::Detailed => 2,
        },
        editing: None,
        parent: Some(PickerAction::OpenStatusBarItem { index, selected: 0 }),
    }
}

/// Whether a layout has an item of a kind.
pub open spec fn has_kind(items: Seq<BarItemModel>, kind: StatusBarKind) -> bool {
    exists|i: int| 0 <= i < items.len() && (#[trigger] items[i]).kind == kind
}

pub(crate) fn shows_kind(items: &Vec<StatusBarItemConfig>, kind: StatusBarKind) -> (r: bool)
    ensures
        r == has_kind(views(items@), kind),
{
    let mut i: usize = 0;
    while i < items.len()
        invariant
            i <= items@.len(),
            forall|k: int| 0 <= k < i ==> (#[trigger] views(items@)[k]).kind != kind,
        decreases items@.len() - i,
    {
        if items[i].kind == kind {
            assert(views(items@)[i as int].kind == kind);
            return true;
        }
        i += 1;
    }
    false
}

/// The kinds of a list that a layout does not have.
pub open spec fn missing_choices(kinds: Seq<StatusBarKind>, layout: BarModel) -> Seq<ItemModel>
    decreases kinds.len(),
{
    if kinds.len() == 0 {
        Seq::empty()
    } else {
        let before = missing_choices(kinds.drop_last(), layout);
        let kind = kinds.last();
        if has_kind(layout.items, kind) {
            before
        } else {
            before.push(choice(kind.title(), kind.name(), ActionModel::AddStatusBarItem(kind)))
        }
    }
}

/// The choice of an item to add.
#[verifier::opaque]
pub open spec fn add_menu(layout: BarModel) -> PickerModel {
    PickerModel {
        title: "Add status item"@,
        hint: "Enter add  Esc back"@,
        items: missing_choices(all_kinds(), layout),
        selected: 0,
        editing: None,
        parent: Some(ActionModel::OpenStatusBarEditor { selected: layout.items.len() as usize }),
    }
}

/// The choice of an item to add; see `add_menu`.
pub fn status_bar_add_picker(layout: &StatusBarConfig) -> (r: Picker)
    ensures
        r@ == add_menu(layout@),
{
    proof {
        reveal(add_menu);
    }
    let kinds = StatusBarKind::all();
    let mut items: Vec<PickerItem> = Vec::new();
    let mut i: usize = 0;
    assert(views(items@) =~= missing_choices(kinds@.take(0), layout@));
    while i < kinds.len()
        invariant
            i <= kinds@.len(),
            kinds@ == all_kinds(),
            views(items@) == missing_choices(kinds@.take(i as int), layout@),
        decreases kinds@.len() - i,
    {
        proof {
            reveal(add_menu);
        }
        let kind = kinds[i];
        assert(kinds@.take(i + 1).drop_last() =~= kinds@.take(i as int));
        if !shows_kind(&layout.items, kind) {
            offer(&mut items, kind.label(), kind.as_str(), PickerAction::AddStatusBarItem(kind));
        }
        i += 1;
    }
    assert(kinds@.take(i as int) =~= all_kinds());
    Picker {
        title: "Add status item".to_owned(),
        hint: "Enter add  Esc back".to_owned(),
        items,
        selected: 0,
        editing: None,
        parent: Some(PickerAction::OpenStatusBarEditor { selected: layout.items.len() }),
    }
}

/// A row behind those of the items.
pub open spec fn row_behind(layout: BarModel, n: nat) -> usize {
    at_most(layout.items.len() + n, usize::MAX as nat) as usize
}

/// The choice of the colors of the bar.
#[verifier::opaque]
pub open spec fn style_menu(layout: BarModel) -> PickerModel {
    PickerModel {
        title: "Status-bar color style"@,
        hint: "Enter select  Esc back"@,
        items: seq![
            choice(
                "mixed"@,
                "Accent model, mute other items"@,
                ActionModel::SetStatusBarStyle(StatusBarStyle::Mixed),
            ),
            choice(
                "accent"@,
                "Use the accent color for every item"@,
                ActionModel::SetStatusBarStyle(StatusBarStyle::Accent),
            ),
            choice(
                "muted"@,
                "Use the muted accent for every item"@,
                ActionModel::SetStatusBarStyle(StatusBarStyle::Muted),
            ),
            choice(
                "plain"@,
                "Use the terminal's default foreground"@,
                ActionModel::SetStatusBarStyle(StatusBarStyle::Plain),
            ),
        ],
        selected: match layout.style {
            StatusBarStyle::Mixed => 0,
            StatusBarStyle::Accent => 1,
            StatusBarStyle::Muted => 2,
            StatusBarStyle::Plain => 3,
        },
        editing: None,
        parent: Some(
            ActionModel::OpenStatusBarEditor { selected: row_behind(layout, 1) },
        ),
    }
}

/// The choice of the colors of the bar; see `style_menu`.
pub fn status_bar_style_picker(layout: &StatusBarConfig) -> (r: Picker)
    ensures
        r@ == style_menu(layout@),
{
    proof {
        reveal(style_menu);
    }
    let mut items: Vec<PickerItem> = Vec::new();
    offer(
        &mut items,
        "mixed",
        "Accent model, mute other items",
        PickerAction::SetStatusBarStyle(StatusBarStyle::Mixed),
    );
    offer(
        &mut items,
        "accent",
        "Use the accent color for every item",
        PickerAction::SetStatusBarStyle(StatusBarStyle::Accent),
    );
    offer(
        &mut items,
        "muted",
        "Use the muted accent for every item",
        PickerAction::SetStatusBarStyle(StatusBarStyle::Muted),
    );
    offer(
        &mut items,
        "plain",
        "Use the terminal's default foreground",
        PickerAction::SetStatusBarStyle(StatusBarStyle::Plain),
    );
    assert(views(items@) =~= style_menu(layout@).items);
    Picker {
        title: "Status-bar color style".to_owned(),
        hint: "Enter select  Esc back".to_owned(),
        items,
        selected: match layout.style {
            StatusBarStyle::Mixed => 0,
            StatusBarStyle::Accent => 1,
            StatusBarStyle::Muted => 2,
            StatusBarStyle::Plain => 3,
        },
        editing: None,
        parent: Some(
            PickerAction::OpenStatusBarEditor { selected: layout.items.len().saturating_add(1) },
        ),
    }
}

/// The separators that are offered by name.
pub open spec fn separators() -> Seq<(Seq<char>, Seq<char>)> {
    seq![
        ("Dot"@, "  ·  "@),
        ("Pipe"@, " | "@),
        ("Slash"@, " / "@),
        ("Space"@, " "@),
        ("None"@, ""@),
    ]
}

fn separator_entry(i: usize) -> (r: (&'static str, &'static str))
    requires
        i < 5,
    ensures
        (r.0@, r.1@) == separators()[i as int],
{
    if i == 0 {
        ("Dot", "  ·  ")
    } else if i == 1 {
        ("Pipe", " | ")
    } else if i == 2 {
        ("Slash", " / ")
    } else if i == 3 {
        ("Space", " ")
    } else {
        ("None", "")
    }
}

/// The row of a separator: that of its name, or that of the entry by hand.
pub open spec fn separator_row(separator: Seq<char>) -> usize {
    if separator == "  ·  "@ {
        0
    } else if separator == " | "@ {
        1
    } else if separator == " / "@ {
        2
    } else if separator == " "@ {
        3
    } else if separator == ""@ {
        4
    } else {
        5
    }
}

/// The choice of the separator.
#[verifier::opaque]
pub open spec fn separator_menu(layout: BarModel) -> PickerModel {
    PickerModel {
        title: "Status-bar separator"@,
        hint: "Enter select  Esc back"@,
        items: Seq::new(
            5,
            |i: int|
                choice(
                    separators()[i].0,
                    separator_summary(separators()[i].1),
                    ActionModel::SetStatusBarSeparator(separators()[i].1),
                ),
        ).push(
            choice(
                "Custom…"@,
                separator_summary(layout.separator),
                ActionModel::EditStatusBarSeparator(layout.separator),
            ),
        ),
        selected: separator_row(layout.separator),
        editing: None,
        parent: Some(
            ActionModel::OpenStatusBarEditor { selected: row_behind(layout, 2) },
        ),
    }
}

fn find_separator(separator: &str) -> (r: usize)
    ensures
        r == separator_row(separator@),
{
    let mut i: usize = 0;
    while i < 5
        invariant
            i <= 5,
            forall|k: int| 0 <= k < i ==> (#[trigger] separators()[k]).1 != separator@,
        decreases 5 - i,
    {
        let entry = separator_entry(i);
        if same(entry.1, separator) {
            assert(forall|k: int| 0 <= k < i ==> (#[trigger] separators()[k]).1 != separator@);
            assert(i > 0 ==> separators()[0].1 != separator@);
            assert(i > 1 ==> separators()[1].1 != separator@);
            assert(i > 2 ==> separators()[2].1 != separator@);
            assert(i > 3 ==> separators()[3].1 != separator@);
            return i;
        }
        i += 1;
    }
    assert(separators()[0].1 != separator@);
    assert(separators()[1].1 != separator@);
    assert(separators()[2].1 != separator@);
    assert(separators()[3].1 != separator@);
    assert(separators()[4].1 != separator@);
    5
}

/// The choice of the separator; see `separator_menu`.
pub fn status_bar_separator_picker(layout: &StatusBarConfig) -> (r: Picker)
    ensures
        r@ == separator_menu(layout@),
{
    proof {
        reveal(separator_menu);
    }
    let ghost all = separator_menu(layout@).items;
    let mut items: Vec<PickerItem> = Vec::new();
    let mut i: usize = 0;
    assert(views(items@) =~= all.take(0));
    while i < 5
        invariant
            i <= 5,
            all == separator_menu(layout@).items,
            views(items@) == all.take(i as int),
        decreases 5 - i,
    {
        proof {
            reveal(separator_menu);
        }
        let (name, separator) = separator_entry(i);
        offer(
            &mut items,
            name,
            separator_description(separator).as_str(),
            PickerAction::SetStatusBarSeparator(separator.to_owned()),
        );
        i += 1;
        assert(views(items@) =~= all.take(i as int));
    }
    offer(
        &mut items,
        "Custom…",
        separator_description(layout.separator.as_str()).as_str(),
        PickerAction::EditStatusBarSeparator(layout.separator.clone()),
    );
    assert(views(items@) =~= all);
    Picker {
        title: "Status-bar separator".to_owned(),
        hint: "Enter select  Esc back".to_owned(),
        items,
        selected: find_separator(layout.separator.as_str()),
        editing: None,
        parent: Some(
            PickerAction::OpenStatusBarEditor { selected: layout.items.len().saturating_add(2) },
        ),
    }
}

// ---------------------------------------------------------------------------
// Laws

proof fn missing_is_missing(kinds: Seq<StatusBarKind>, layout: BarModel, kind: StatusBarKind)
    ensures
        (exists|i: int|
            0 <= i < missing_choices(kinds, layout).len() && (#[trigger] missing_choices(
                kinds,
                layout,
            )[i]).action == ActionModel::AddStatusBarItem(kind)) <==> (kinds.contains(kind)
            && !has_kind(layout.items, kind)),
    decreases kinds.len(),
{
    if kinds.len() > 0 {
        let before = kinds.drop_last();
        missing_is_missing(before, layout, kind);
        let list = missing_choices(before, layout);
        let now = missing_choices(kinds, layout);
        assert(kinds =~= before.push(kinds.last()));
        assert(kinds.contains(kind) <==> before.contains(kind) || kinds.last() == kind) by {
            if before.contains(kind) {
                let i = choose|i: int| 0 <= i < before.len() && before[i] == kind;
                assert(kinds[i] == kind);
            }
            if kinds.last() == kind {
                assert(kinds[kinds.len() - 1] == kind);
            }
        }
        let wanted = ActionModel::AddStatusBarItem(kind);
        if exists|i: int| 0 <= i < list.len() && (#[trigger] list[i]).action == wanted {
            let i = choose|i: int| 0 <= i < list.len() && (#[trigger] list[i]).action == wanted;
            assert(now[i].action == wanted);
        }
        if kinds.last() == kind && !has_kind(layout.items, kind) {
            assert(now[now.len() - 1].action == wanted);
        }
        if exists|i: int| 0 <= i < now.len() && (#[trigger] now[i]).action == wanted {
            let i = choose|i: int| 0 <= i < now.len() && (#[trigger] now[i]).action == wanted;
            if i < list.len() {
                assert(list[i].action == wanted);
            }
        }
    }
}

/// An item can be added exactly where the layout does not have one of its kind,
/// so that no kind is ever shown twice.
pub proof fn only_missing_items_are_added(layout: BarModel, kind: StatusBarKind)
    ensures
        (exists|i: int|
            0 <= i < add_menu(layout).items.len() && (#[trigger] add_menu(layout).items[i]).action
                == ActionModel::AddStatusBarItem(kind)) <==> !has_kind(layout.items, kind),
{
    reveal(add_menu);
    missing_is_missing(all_kinds(), layout, kind);
    assert(all_kinds()[match kind {
        StatusBarKind::Model => 0,
        StatusBarKind::Reasoning => 1,
        StatusBarKind::Context => 2,
        StatusBarKind::PromptCache => 3,
        StatusBarKind::Goal => 4,
        StatusBarKind::Queue => 5,
    }] == kind);
}

/// A label is told by what it is: a built-in one, none at all, or its text; and
/// it is edited from its text.
pub proof fn labels_are_told(item: BarItemModel, index: usize)
    ensures
        ({
            let told = item.format.name() + " · "@ + item.visibility.name() + " · "@;
            let line = bar_item_choice(item, index).description;
            let edited = item_choices(item, index)[1];
            &&& item.label is None ==> line == told + "default label"@ && edited.description
                == "Built-in label"@
            &&& item.label == Some(Seq::<char>::empty()) ==> line == told + "no label"@
                && edited.description == "Hidden"@
            &&& (item.label matches Some(label) && label.len() > 0) ==> line == told + ("label "@
                + quoted(item.label->0)) && edited.description == item.label->0
                && edited.action->EditStatusBarLabel_initial == item.label->0
            &&& edited.action is EditStatusBarLabel && edited.action->EditStatusBarLabel_index
                == index
        }),
{
}

/// A separator of blanks is told by how many columns it takes, another by its
/// text.
pub proof fn separators_are_told(separator: Seq<char>)
    ensures
        separator.len() == 0 ==> separator_summary(separator) == "No separator"@,
        separator.len() > 0 && (forall|i: int|
            0 <= i < separator.len() ==> whitespace(#[trigger] separator[i]))
            ==> separator_summary(separator) == decimal(unicode_text_columns(separator))
            + " space columns"@,
        (exists|i: int| 0 <= i < separator.len() && !whitespace(#[trigger] separator[i]))
            ==> separator_summary(separator) == quoted(separator),
{
}

} // verus!
