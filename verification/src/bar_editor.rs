//! How the status bar is laid out anew: changes are made to a draft, which is
//! shown at once and can be discarded.

use vstd::prelude::*;
use crate::config::{
    default_bar, new_bar_item, BarItemModel, BarModel, StatusBarConfig, StatusBarFormat,
    StatusBarItemConfig, StatusBarKind, StatusBarStyle, StatusBarVisibility,
};
use crate::model::{option_view, views, Modeled};
use crate::picker::{Picker, PickerModel};
use crate::picker::action::{ActionModel, PickerAction};
use crate::picker::status_bar::{
    add_menu, editor_menu, format_menu, has_kind, item_menu, row_behind, separator_menu, shows_kind,
    status_bar_add_picker, status_bar_editor_picker, status_bar_format_picker,
    status_bar_item_picker, status_bar_separator_picker, status_bar_style_picker, style_menu,
};
use crate::queue::{move_target, moved, target_of};
use crate::state::{state_model, StateModel, ViewState};

verus! {

broadcast use vstd::string::group_string_axioms;

/// A layout after a change, and the menu that is shown then.
pub struct Drafted {
    pub layout: BarModel,
    pub menu: PickerModel,
}

pub open spec fn listing(layout: BarModel, selected: int) -> Drafted {
    Drafted { layout, menu: editor_menu(layout, selected as usize) }
}

/// An item of a layout exchanged for another.
pub open spec fn with_item(layout: BarModel, index: usize, item: BarItemModel) -> BarModel {
    BarModel { items: layout.items.update(index as int, item), ..layout }
}

/// The menu of an item, with one of its rows selected.
pub open spec fn item_shown(layout: BarModel, index: usize, selected: usize) -> Drafted {
    Drafted { layout, menu: item_menu(layout, index, selected) }
}

/// A layout after an action on an item that it has.
pub open spec fn item_drafted(layout: BarModel, index: usize, action: ActionModel) -> Drafted {
    let item = layout.items[index as int];
    match action {
        ActionModel::OpenStatusBarItem { index: _, selected } => item_shown(
            layout,
            index,
            selected,
        ),
        ActionModel::OpenStatusBarFormats(_) => Drafted {
            layout,
            menu: format_menu(layout, index),
        },
        ActionModel::SetStatusBarFormat { index: _, format } => item_shown(
            with_item(layout, index, BarItemModel { format, ..item }),
            index,
            0,
        ),
        ActionModel::SetStatusBarVisibility { index: _, visibility } => item_shown(
            with_item(layout, index, BarItemModel { visibility, ..item }),
            index,
            3,
        ),
        ActionModel::ApplyStatusBarLabel { index: _, label } => item_shown(
            with_item(layout, index, BarItemModel { label: Some(label), ..item }),
            index,
            1,
        ),
        ActionModel::ResetStatusBarLabel(_) => item_shown(
            with_item(layout, index, BarItemModel { label: None, ..item }),
            index,
            2,
        ),
        ActionModel::MoveStatusBarItem { index: _, direction } => {
            let target = move_target(layout.items.len(), index as nat, direction as int);
            listing(
                if target == index {
                    layout
                } else {
                    BarModel {
                        items: moved(layout.items, index as int, target as int),
                        ..layout
                    }
                },
                target as int,
            )
        },
        ActionModel::RemoveStatusBarItem(_) => listing(
            BarModel { items: layout.items.remove(index as int), ..layout },
            index as int,
        ),
        _ => listing(layout, index as int),
    }
}

/// The item that an action is about.
pub open spec fn item_of(action: ActionModel) -> Option<usize> {
    match action {
        ActionModel::OpenStatusBarItem { index, selected } => Some(index),
        ActionModel::OpenStatusBarFormats(index) => Some(index),
        ActionModel::SetStatusBarFormat { index, format } => Some(index),
        ActionModel::SetStatusBarVisibility { index, visibility } => Some(index),
        ActionModel::ApplyStatusBarLabel { index, label } => Some(index),
        ActionModel::ResetStatusBarLabel(index) => Some(index),
        ActionModel::MoveStatusBarItem { index, direction } => Some(index),
        ActionModel::RemoveStatusBarItem(index) => Some(index),
        _ => None,
    }
}

/// A layout after an action on it as a whole.
pub open spec fn layout_drafted(layout: BarModel, action: ActionModel) -> Option<Drafted> {
    let count = layout.items.len() as int;
    match action {
        ActionModel::OpenStatusBarEditor { selected } => Some(listing(layout, selected as int)),
        ActionModel::OpenStatusBarAdd => Some(Drafted { layout, menu: add_menu(layout) }),
        ActionModel::AddStatusBarItem(kind) => Some(
            if has_kind(layout.items, kind) {
                listing(layout, count)
            } else {
                listing(
                    BarModel { items: layout.items.push(new_bar_item(kind)), ..layout },
                    count,
                )
            },
        ),
        ActionModel::OpenStatusBarStyles => Some(Drafted { layout, menu: style_menu(layout) }),
        ActionModel::SetStatusBarStyle(style) => Some(
            listing(BarModel { style, ..layout }, row_behind(layout, 1) as int),
        ),
        ActionModel::OpenStatusBarSeparators => Some(
            Drafted { layout, menu: separator_menu(layout) },
        ),
        ActionModel::SetStatusBarSeparator(separator) => Some(
            listing(BarModel { separator, ..layout }, row_behind(layout, 2) as int),
        ),
        ActionModel::ApplyStatusBarSeparator(separator) => Some(
            listing(BarModel { separator, ..layout }, row_behind(layout, 2) as int),
        ),
        ActionModel::ResetStatusBar => Some(listing(default_bar(), 0)),
        _ => None,
    }
}

/// A layout after an action, where it is one of the editor of the status bar.
/// An item that is not there leads back to the list.
pub open spec fn drafted(layout: BarModel, action: ActionModel) -> Option<Drafted> {
    match item_of(action) {
        Some(index) => Some(
            if index < layout.items.len() {
                item_drafted(layout, index, action)
            } else {
                listing(layout, index as int)
            },
        ),
        None => layout_drafted(layout, action),
    }
}

/// The state after an action, and the action where it is another.
#[verifier::opaque]
pub open spec fn bar_handled(s: StateModel, action: ActionModel) -> (
    StateModel,
    Option<ActionModel>,
) {
    match drafted(s.layout(), action) {
        Some(now) => (
            StateModel {
                status_bar_draft: Some(now.layout),
                picker: Some(now.menu),
                ..s
            },
            None,
        ),
        None => (s, Some(action)),
    }
}

// ---------------------------------------------------------------------------
// Changes of items

fn put_item(layout: &mut StatusBarConfig, index: usize, item: StatusBarItemConfig)
    requires
        index < old(layout).items@.len(),
    ensures
        final(layout)@ == with_item(old(layout)@, index, item@),
        final(layout).items@.len() == old(layout).items@.len(),
{
    let ghost now = item@;
    layout.items.set(index, item);
    assert(views(layout.items@) =~= views(old(layout).items@).update(index as int, now));
}

fn change_item(layout: &mut StatusBarConfig, index: usize, action: PickerAction) -> (r: Picker)
    requires
        index < old(layout).items@.len(),
        item_of(action@) == Some(index),
    ensures
        (Drafted { layout: final(layout)@, menu: r@ }) == item_drafted(
            old(layout)@,
            index,
            action@,
        ),
{
    let mut item = layout.items[index].copy();
    assert(layout@.items[index as int] == item@);
    match action {
        PickerAction::OpenStatusBarItem { selected, .. } => status_bar_item_picker(
            layout,
            index,
            selected,
        ),
        PickerAction::OpenStatusBarFormats(_) => status_bar_format_picker(layout, index),
        PickerAction::SetStatusBarFormat { format, .. } => {
            item.format = format;
            put_item(layout, index, item);
            status_bar_item_picker(layout, index, 0)
        },
        PickerAction::SetStatusBarVisibility { visibility, .. } => {
            item.visibility = visibility;
            put_item(layout, index, item);
            status_bar_item_picker(layout, index, 3)
        },
        PickerAction::ApplyStatusBarLabel { label, .. } => {
            item.label = Some(label);
            put_item(layout, index, item);
            status_bar_item_picker(layout, index, 1)
        },
        PickerAction::ResetStatusBarLabel(_) => {
            item.label = None;
            put_item(layout, index, item);
            status_bar_item_picker(layout, index, 2)
        },
        PickerAction::MoveStatusBarItem { direction, .. } => {
            let count: usize = layout.items.len();
            let target: usize = target_of(count, index, direction);
            if target != index {
                let item = layout.items.remove(index);
                layout.items.insert(target, item);
                assert(views(layout.items@) =~= moved(
                    views(old(layout).items@),
                    index as int,
                    target as int,
                ));
            }
            status_bar_editor_picker(layout, target)
        },
        PickerAction::RemoveStatusBarItem(_) => {
            let _item = layout.items.remove(index);
            assert(views(layout.items@) =~= views(old(layout).items@).remove(index as int));
            status_bar_editor_picker(layout, index)
        },
        _ => status_bar_editor_picker(layout, index),
    }
}

fn item_index_of(action: &PickerAction) -> (r: Option<usize>)
    ensures
        r == item_of(action@),
{
    match action {
        PickerAction::OpenStatusBarItem { index, .. } => Some(*index),
        PickerAction::OpenStatusBarFormats(index) => Some(*index),
        PickerAction::SetStatusBarFormat { index, .. } => Some(*index),
        PickerAction::SetStatusBarVisibility { index, .. } => Some(*index),
        PickerAction::ApplyStatusBarLabel { index, .. } => Some(*index),
        PickerAction::ResetStatusBarLabel(index) => Some(*index),
        PickerAction::MoveStatusBarItem { index, .. } => Some(*index),
        PickerAction::RemoveStatusBarItem(index) => Some(*index),
        _ => None,
    }
}

fn change_layout(layout: &mut StatusBarConfig, action: PickerAction) -> (r: Result<
    Picker,
    PickerAction,
>)
    ensures
        match r {
            Ok(menu) => layout_drafted(old(layout)@, action@) == Some(
                Drafted { layout: final(layout)@, menu: menu@ },
            ),
            Err(other) => layout_drafted(old(layout)@, action@) is None && other@ == action@
                && final(layout)@ == old(layout)@,
        },
{
    let count: usize = layout.items.len();
    assert(layout@.items.len() == count);
    match action {
        PickerAction::OpenStatusBarEditor { selected } => Ok(
            status_bar_editor_picker(layout, selected),
        ),
        PickerAction::OpenStatusBarAdd => Ok(status_bar_add_picker(layout)),
        PickerAction::AddStatusBarItem(kind) => {
            if !shows_kind(&layout.items, kind) {
                layout.items.push(StatusBarItemConfig::new(kind));
                assert(views(layout.items@) =~= views(old(layout).items@).push(
                    new_bar_item(kind),
                ));
            }
            Ok(status_bar_editor_picker(layout, count))
        },
        PickerAction::OpenStatusBarStyles => Ok(status_bar_style_picker(layout)),
        PickerAction::SetStatusBarStyle(style) => {
            layout.style = style;
            Ok(status_bar_editor_picker(layout, count.saturating_add(1)))
        },
        PickerAction::OpenStatusBarSeparators => Ok(status_bar_separator_picker(layout)),
        PickerAction::SetStatusBarSeparator(separator) => {
            layout.separator = separator;
            Ok(status_bar_editor_picker(layout, count.saturating_add(2)))
        },
        PickerAction::ApplyStatusBarSeparator(separator) => {
            layout.separator = separator;
            Ok(status_bar_editor_picker(layout, count.saturating_add(2)))
        },
        PickerAction::ResetStatusBar => {
            *layout = StatusBarConfig::default();
            Ok(status_bar_editor_picker(layout, 0))
        },
        action => Err(action),
    }
}

/// Performs an action of the editor of the status bar; see `bar_handled`.
pub fn handle_editor_action(state: &mut ViewState, action: PickerAction) -> (r: Option<PickerAction>)
    ensures
        (final(state)@, option_view(r)) == bar_handled(old(state)@, action@),
{
    proof {
        reveal(state_model);
        reveal(bar_handled);
    }
    let mut layout = state.layout().copy();
    assert(layout@.items.len() == layout.items@.len());
    let index = item_index_of(&action);
    let menu = match index {
        Some(index) => if index < layout.items.len() {
            change_item(&mut layout, index, action)
        } else {
            status_bar_editor_picker(&layout, index)
        },
        None => match change_layout(&mut layout, action) {
            Ok(menu) => menu,
            Err(action) => return Some(action),
        },
    };
    state.status_bar_draft = Some(layout);
    state.picker = Some(menu);
    None
}

// ---------------------------------------------------------------------------
// Laws

/// Whether no kind of item is shown twice.
pub open spec fn kinds_differ(items: Seq<BarItemModel>) -> bool {
    forall|i: int, j: int|
        0 <= i < j < items.len() ==> (#[trigger] items[i]).kind != (#[trigger] items[j]).kind
}

proof fn moving_keeps_kinds(items: Seq<BarItemModel>, from: int, to: int)
    requires
        kinds_differ(items),
        0 <= from < items.len(),
        0 <= to < items.len(),
    ensures
        kinds_differ(moved(items, from, to)),
{
    let now = moved(items, from, to);
    let rest = items.remove(from);
    assert forall|i: int, j: int| 0 <= i < j < now.len() implies (#[trigger] now[i]).kind != (
    #[trigger] now[j]).kind by {
        let ri = if i < to {
            i
        } else {
            i - 1
        };
        let rj = if j < to {
            j
        } else {
            j - 1
        };
        let oi = if ri < from {
            ri
        } else {
            ri + 1
        };
        let oj = if rj < from {
            rj
        } else {
            rj + 1
        };
        if i == to {
            assert(now[i] == items[from]);
            assert(now[j] == rest[rj] && rest[rj] == items[oj]);
        } else if j == to {
            assert(now[j] == items[from]);
            assert(now[i] == rest[ri] && rest[ri] == items[oi]);
        } else {
            assert(now[i] == rest[ri] && rest[ri] == items[oi]);
            assert(now[j] == rest[rj] && rest[rj] == items[oj]);
        }
    }
}

proof fn removing_keeps_kinds(items: Seq<BarItemModel>, index: int)
    requires
        kinds_differ(items),
        0 <= index < items.len(),
    ensures
        kinds_differ(items.remove(index)),
{
}

proof fn changing_keeps_kinds(items: Seq<BarItemModel>, index: int, item: BarItemModel)
    requires
        kinds_differ(items),
        0 <= index < items.len(),
        item.kind == items[index].kind,
    ensures
        kinds_differ(items.update(index, item)),
{
}

proof fn adding_keeps_kinds(items: Seq<BarItemModel>, kind: StatusBarKind)
    requires
        kinds_differ(items),
        !has_kind(items, kind),
    ensures
        kinds_differ(items.push(new_bar_item(kind))),
{
}

/// No change shows a kind of item twice.
pub proof fn kinds_stay_different(layout: BarModel, action: ActionModel)
    requires
        kinds_differ(layout.items),
        drafted(layout, action) is Some,
    ensures
        kinds_differ(drafted(layout, action)->0.layout.items),
{
    let items = layout.items;
    let index = match item_of(action) {
        Some(index) => index as int,
        None => items.len() as int,
    };
    if index < items.len() {
        let item = items[index];
        removing_keeps_kinds(items, index);
        match action {
            ActionModel::SetStatusBarFormat { index: _, format } => changing_keeps_kinds(
                items,
                index,
                BarItemModel { format, ..item },
            ),
            ActionModel::SetStatusBarVisibility { index: _, visibility } => changing_keeps_kinds(
                items,
                index,
                BarItemModel { visibility, ..item },
            ),
            ActionModel::ApplyStatusBarLabel { index: _, label } => changing_keeps_kinds(
                items,
                index,
                BarItemModel { label: Some(label), ..item },
            ),
            ActionModel::ResetStatusBarLabel(_) => changing_keeps_kinds(
                items,
                index,
                BarItemModel { label: None, ..item },
            ),
            ActionModel::MoveStatusBarItem { index: _, direction } => moving_keeps_kinds(
                items,
                index,
                move_target(items.len(), index as nat, direction as int) as int,
            ),
            _ => {},
        }
    } else {
        match action {
            ActionModel::AddStatusBarItem(kind) => {
                if !has_kind(items, kind) {
                    adding_keeps_kinds(items, kind);
                }
            },
            _ => {},
        }
    }
}

/// The layout in force is never changed by the editor: only the draft is.
pub proof fn draft_alone_is_changed(s: StateModel, action: ActionModel)
    ensures
        bar_handled(s, action).0.status_bar == s.status_bar,
        bar_handled(s, action).1 is Some ==> bar_handled(s, action).0 == s,
{
    reveal(bar_handled);
}

/// An item that was moved by one place is moved back by the opposite move.
pub proof fn moving_items_back_undoes(layout: BarModel, index: usize)
    requires
        index + 1 < layout.items.len() <= usize::MAX,
    ensures
        ({
            let there = drafted(
                layout,
                ActionModel::MoveStatusBarItem { index, direction: 1isize },
            )->0.layout;
            let action = ActionModel::MoveStatusBarItem {
                index: (index + 1) as usize,
                direction: (-1) as isize,
            };
            drafted(there, action)->0.layout == layout
        }),
{
    let there = moved(layout.items, index as int, index + 1);
    assert(moved(there, index + 1, index as int) =~= layout.items);
}

/// A change of one item of the status bar sets that part of it, and leaves the
/// other parts, the other items and the rest of the layout.
pub proof fn item_changes_set_one_part(
    layout: BarModel,
    index: usize,
    format: StatusBarFormat,
    visibility: StatusBarVisibility,
    label: Seq<char>,
)
    requires
        index < layout.items.len(),
    ensures
        ({
            let item = layout.items[index as int];
            let sets = |action: ActionModel, now: BarItemModel|
                drafted(layout, action) is Some && drafted(layout, action)->0.layout == (BarModel {
                    items: layout.items.update(index as int, now),
                    ..layout
                });
            &&& sets(
                ActionModel::SetStatusBarFormat { index, format },
                BarItemModel { format, ..item },
            )
            &&& sets(
                ActionModel::SetStatusBarVisibility { index, visibility },
                BarItemModel { visibility, ..item },
            )
            &&& sets(
                ActionModel::ApplyStatusBarLabel { index, label },
                BarItemModel { label: Some(label), ..item },
            )
            &&& sets(
                ActionModel::ResetStatusBarLabel(index),
                BarItemModel { label: None, ..item },
            )
        }),
{
}

/// An item that is removed is gone, and one that is added stands last, unless
/// there is one of its kind; the style and the separator are set as chosen, and
/// a reset brings the layout back that is in force at first.
pub proof fn layouts_are_changed_as_chosen(
    layout: BarModel,
    index: usize,
    kind: StatusBarKind,
    style: StatusBarStyle,
    separator: Seq<char>,
)
    ensures
        ({
            let now = |action: ActionModel| drafted(layout, action)->0.layout;
            &&& index < layout.items.len() ==> now(ActionModel::RemoveStatusBarItem(index)).items
                == layout.items.remove(index as int)
            &&& !has_kind(layout.items, kind) ==> now(ActionModel::AddStatusBarItem(kind)).items
                == layout.items.push(new_bar_item(kind))
            &&& has_kind(layout.items, kind) ==> now(ActionModel::AddStatusBarItem(kind)) == layout
            &&& now(ActionModel::SetStatusBarStyle(style)) == (BarModel { style, ..layout })
            &&& now(ActionModel::SetStatusBarSeparator(separator)) == (BarModel {
                separator,
                ..layout
            })
            &&& now(ActionModel::ApplyStatusBarSeparator(separator)) == (BarModel {
                separator,
                ..layout
            })
            &&& now(ActionModel::ResetStatusBar) == default_bar()
        }),
{
}

/// An item that is moved up changes places with the one before it; one that is
/// moved down with the one behind it.
pub proof fn moved_items_change_places(layout: BarModel, index: usize)
    requires
        index < layout.items.len() <= usize::MAX,
    ensures
        ({
            let up = drafted(
                layout,
                ActionModel::MoveStatusBarItem { index, direction: (-1) as isize },
            )->0.layout.items;
            if index == 0 {
                up == layout.items
            } else {
                up == layout.items.update(index - 1, layout.items[index as int]).update(
                    index as int,
                    layout.items[index - 1],
                )
            }
        }),
        ({
            let down = drafted(
                layout,
                ActionModel::MoveStatusBarItem { index, direction: 1isize },
            )->0.layout.items;
            if index + 1 == layout.items.len() {
                down == layout.items
            } else {
                down == layout.items.update(index + 1, layout.items[index as int]).update(
                    index as int,
                    layout.items[index + 1],
                )
            }
        }),
{
    let up = drafted(
        layout,
        ActionModel::MoveStatusBarItem { index, direction: (-1) as isize },
    )->0.layout.items;
    let down = drafted(
        layout,
        ActionModel::MoveStatusBarItem { index, direction: 1isize },
    )->0.layout.items;
    if index > 0 {
        assert(up =~= layout.items.update(index - 1, layout.items[index as int]).update(
            index as int,
            layout.items[index - 1],
        ));
    }
    if index + 1 < layout.items.len() {
        assert(down =~= layout.items.update(index + 1, layout.items[index as int]).update(
            index as int,
            layout.items[index + 1],
        ));
    }
}

} // verus!
