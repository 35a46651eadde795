//! Menus to choose from.

use vstd::prelude::*;
use crate::editor::{Editor, EditorModel, Submission, SubmissionModel};
use crate::events::Key;
use crate::git::input::{join_lines, on_one_line};
use crate::markdown::{
    char_columns, columns, fit_width, fitted, fitted_is_exact, lines_of, repeat, repeated, spaces,
    visible_columns,
};
use crate::model::{option_view, views, Modeled};
use crate::rows::{at_least, at_most, larger, minus, push_row, smaller};
use crate::style::{painted, selected_row};
use crate::text::{cat3, cat6, chars_of, string_of, trim, trimmed};
pub mod action;
pub mod models;
pub mod settings;
pub mod status_bar;

use self::action::{ActionModel, ConnectEditField, PickerAction, SettingsLocation};

verus! {

broadcast use vstd::string::group_string_axioms;

/// A choice.
#[derive(Debug)]
pub struct PickerItem {
    pub label: String,
    pub description: String,
    pub action: PickerAction,
}

pub struct ItemModel {
    pub label: Seq<char>,
    pub description: Seq<char>,
    pub action: ActionModel,
}

impl View for PickerItem {
    type V = ItemModel;

    open spec fn view(&self) -> ItemModel {
        ItemModel {
            label: self.label@,
            description: self.description@,
            action: self.action@,
        }
    }
}

pub open spec fn choice(label: Seq<char>, description: Seq<char>, action: ActionModel) -> ItemModel {
    ItemModel { label, description, action }
}

/// Adds a choice to a list.
pub(crate) fn offer(items: &mut Vec<PickerItem>, label: &str, description: &str, action: PickerAction)
    ensures
        views(final(items)@) == views(old(items)@).push(choice(label@, description@, action@)),
{
    items.push(
        PickerItem { label: label.to_owned(), description: description.to_owned(), action },
    );
    assert(views(items@) =~= views(old(items)@).push(choice(label@, description@, action@)));
}

/// What is being edited in a picker.
#[derive(Debug)]
pub enum PickerEdit {
    /// The setting of a key.
    Setting(String),
    SecretSetting(String),
    Model { save: bool },
    Queued(usize),
    StatusBarLabel(usize),
    StatusBarSeparator,
    Connect { field: ConnectEditField, secret: bool },
}

pub enum EditModel {
    Setting(Seq<char>),
    SecretSetting(Seq<char>),
    Model { save: bool },
    Queued(usize),
    StatusBarLabel(usize),
    StatusBarSeparator,
    Connect { field: ConnectEditField, secret: bool },
}

impl View for PickerEdit {
    type V = EditModel;

    open spec fn view(&self) -> EditModel {
        match self {
            PickerEdit::Setting(a) => EditModel::Setting(a@),
            PickerEdit::SecretSetting(a) => EditModel::SecretSetting(a@),
            PickerEdit::Model { save } => EditModel::Model { save: *save },
            PickerEdit::Queued(a) => EditModel::Queued(*a),
            PickerEdit::StatusBarLabel(a) => EditModel::StatusBarLabel(*a),
            PickerEdit::StatusBarSeparator => EditModel::StatusBarSeparator,
            PickerEdit::Connect { field, secret } => EditModel::Connect { field: *field, secret: *secret },
        }
    }
}

impl Clone for PickerEdit {
    fn clone(&self) -> (r: Self)
        ensures
            r@ == self@,
    {
        match self {
            PickerEdit::Setting(a) => PickerEdit::Setting(a.clone()),
            PickerEdit::SecretSetting(a) => PickerEdit::SecretSetting(a.clone()),
            PickerEdit::Model { save } => PickerEdit::Model { save: *save },
            PickerEdit::Queued(a) => PickerEdit::Queued(*a),
            PickerEdit::StatusBarLabel(a) => PickerEdit::StatusBarLabel(*a),
            PickerEdit::StatusBarSeparator => PickerEdit::StatusBarSeparator,
            PickerEdit::Connect { field, secret } => PickerEdit::Connect { field: *field, secret: *secret },
        }
    }
}

/// A menu: choices, one of which is selected.
#[derive(Debug)]
pub struct Picker {
    pub title: String,
    pub hint: String,
    pub items: Vec<PickerItem>,
    pub selected: usize,
    pub editing: Option<PickerEdit>,
    /// What `Escape` asks for. A menu that stands alone has none.
    pub parent: Option<PickerAction>,
}

pub struct PickerModel {
    pub title: Seq<char>,
    pub hint: Seq<char>,
    pub items: Seq<ItemModel>,
    pub selected: usize,
    pub editing: Option<EditModel>,
    pub parent: Option<ActionModel>,
}

impl View for Picker {
    type V = PickerModel;

    open spec fn view(&self) -> PickerModel {
        PickerModel {
            title: self.title@,
            hint: self.hint@,
            items: views(self.items@),
            selected: self.selected,
            editing: option_view(self.editing),
            parent: option_view(self.parent),
        }
    }
}

impl PickerModel {
    /// What the selected choice asks for.
    pub open spec fn chosen(self) -> Option<ActionModel> {
        if self.selected < self.items.len() {
            Some(self.items[self.selected as int].action)
        } else {
            None
        }
    }

    /// The menu that hands a plan over.
    pub open spec fn is_handoff(self) -> bool {
        self.items.len() >= 2 && self.items[0].action == ActionModel::ImplementPlan
            && self.items[1].action == ActionModel::ReturnFromPlan
    }

    /// The last choice, or zero where there is none.
    pub open spec fn last(self) -> nat {
        minus(self.items.len(), 1)
    }

    pub open spec fn with_selected(self, selected: nat) -> PickerModel {
        PickerModel { selected: selected as usize, ..self }
    }

    pub open spec fn with_edit(self, edit: EditModel) -> PickerModel {
        PickerModel { editing: Some(edit), ..self }
    }

    /// Whether what is typed must not be shown.
    pub open spec fn is_secret(self) -> bool {
        match self.editing {
            Some(EditModel::Connect { secret, .. }) => secret,
            Some(EditModel::SecretSetting(_)) => true,
            _ => false,
        }
    }
}

impl Picker {
    /// What the selected choice asks for.
    pub fn chosen(&self) -> (r: Option<PickerAction>)
        ensures
            option_view(r) == self@.chosen(),
    {
        if self.selected < self.items.len() {
            let action = self.items[self.selected].action.clone();
            assert(self@.items[self.selected as int] == self.items@[self.selected as int]@);
            Some(action)
        } else {
            None
        }
    }

    pub fn is_secret(&self) -> (r: bool)
        ensures
            r == self@.is_secret(),
    {
        match &self.editing {
            Some(PickerEdit::Connect { secret, .. }) => *secret,
            Some(PickerEdit::SecretSetting(_)) => true,
            _ => false,
        }
    }
}

pub fn picker_is_plan_handoff(picker: &Picker) -> (r: bool)
    ensures
        r == picker@.is_handoff(),
{
    let n: usize = picker.items.len();
    if n < 2 {
        return false;
    }
    assert(picker@.items[0] == picker.items@[0]@);
    assert(picker@.items[1] == picker.items@[1]@);
    let first = match picker.items[0].action {
        PickerAction::ImplementPlan => true,
        _ => false,
    };
    let second = match picker.items[1].action {
        PickerAction::ReturnFromPlan => true,
        _ => false,
    };
    first && second
}

// ---------------------------------------------------------------------------
// Keys

/// A menu after a key: the menu itself where it stays open, the composer, and
/// what is asked for.
pub struct Step {
    pub picker: Option<PickerModel>,
    pub editor: EditorModel,
    pub action: Option<ActionModel>,
}

pub open spec fn stays(p: PickerModel, e: EditorModel) -> Step {
    Step { picker: Some(p), editor: e, action: None }
}

pub open spec fn closes(e: EditorModel, action: ActionModel) -> Step {
    Step { picker: None, editor: e, action: Some(action) }
}

/// The place of the setting that the selected choice edits.
pub open spec fn edited_location(action: Option<ActionModel>) -> Option<SettingsLocation> {
    match action {
        Some(ActionModel::EditSetting { key, initial, location }) => location,
        Some(ActionModel::EditSecretSetting { key, location }) => location,
        _ => None,
    }
}

/// What an edit asks for with a value.
pub open spec fn applied_edit(
    edit: EditModel,
    value: Seq<char>,
    location: Option<SettingsLocation>,
) -> ActionModel {
    match edit {
        EditModel::Setting(key) => ActionModel::ApplySetting {
            argument: key + " "@ + trimmed(value),
            location,
        },
        EditModel::SecretSetting(key) => ActionModel::ApplySetting {
            argument: key + " "@ + trimmed(value),
            location,
        },
        EditModel::Model { save } => if save {
            ActionModel::SaveModel(trimmed(value))
        } else {
            ActionModel::SwitchModel(trimmed(value))
        },
        EditModel::Queued(index) => ActionModel::ApplyQueued { index, value },
        EditModel::StatusBarLabel(index) => ActionModel::ApplyStatusBarLabel {
            index,
            label: value,
        },
        EditModel::StatusBarSeparator => ActionModel::ApplyStatusBarSeparator(value),
        EditModel::Connect { field, secret } => ActionModel::ApplyConnect {
            field,
            value: trimmed(value),
        },
    }
}

/// Whether an edit can be applied without a value.
pub open spec fn takes_nothing(edit: EditModel) -> bool {
    match edit {
        EditModel::StatusBarLabel(_) => true,
        EditModel::StatusBarSeparator => true,
        _ => false,
    }
}

/// A menu in which something is edited, after a key.
pub open spec fn edit_step(p: PickerModel, e: EditorModel, edit: EditModel, key: Key) -> Step {
    match key {
        Key::Escape => stays(PickerModel { editing: None, ..p }, e.cleared()),
        Key::Enter => if takes_nothing(edit) || e.text.len() > 0 {
            closes(e.cleared(), applied_edit(edit, e.text, edited_location(p.chosen())))
        } else {
            stays(p, e)
        },
        Key::Up => stays(p, e),
        Key::Down => stays(p, e),
        Key::Ctrl(c) => if c == 'c' {
            stays(PickerModel { editing: None, ..p }, e.cleared())
        } else {
            stays(p, e.keyed(key).0)
        },
        _ => stays(p, e.keyed(key).0),
    }
}

/// A menu with an edit begun from a text.
pub open spec fn begun(p: PickerModel, e: EditorModel, initial: Seq<char>, edit: EditModel) -> Step {
    stays(p.with_edit(edit), e.cleared().pasted(initial))
}

/// A menu after its selected choice was confirmed: some choices are edited in
/// the menu, the others close it.
pub open spec fn enter_step(p: PickerModel, e: EditorModel) -> Step {
    match p.chosen() {
        None => stays(p, e),
        Some(action) => match action {
            ActionModel::EditSetting { key, initial, location } => begun(
                p,
                e,
                initial,
                EditModel::Setting(key),
            ),
            ActionModel::EditSecretSetting { key, location } => stays(
                p.with_edit(EditModel::SecretSetting(key)),
                e.cleared(),
            ),
            ActionModel::EditModel { save, initial } => begun(
                p,
                e,
                initial,
                EditModel::Model { save },
            ),
            ActionModel::EditConnect { field, initial, secret } => begun(
                p,
                e,
                initial,
                EditModel::Connect { field, secret },
            ),
            ActionModel::EditStatusBarLabel { index, initial } => begun(
                p,
                e,
                initial,
                EditModel::StatusBarLabel(index),
            ),
            ActionModel::EditStatusBarSeparator(initial) => begun(
                p,
                e,
                initial,
                EditModel::StatusBarSeparator,
            ),
            ActionModel::ConnectToggleReasoning(_) => closes(
                e,
                ActionModel::ConnectConfirmReasoning,
            ),
            _ => closes(e, action),
        },
    }
}

/// The question before a session is deleted.
pub open spec fn delete_question(
    id: Seq<char>,
    label: Seq<char>,
    description: Seq<char>,
    selected: usize,
) -> PickerModel {
    PickerModel {
        title: "Delete session?"@,
        hint: "Enter confirm  Esc back"@,
        selected: 0,
        items: seq![
            choice("Cancel"@, "Keep this session"@, ActionModel::OpenResume { selected }),
            choice(
                "Delete"@,
                label + " · "@ + description,
                ActionModel::DeleteSession(id),
            ),
        ],
        editing: None,
        parent: Some(ActionModel::OpenResume { selected }),
    }
}

/// A menu after the deletion of its selected choice was asked for.
pub open spec fn delete_step(p: PickerModel, e: EditorModel) -> Step {
    match p.chosen() {
        Some(ActionModel::ResumeSession(id)) => {
            let item = p.items[p.selected as int];
            stays(delete_question(id, item.label, item.description, p.selected), e)
        },
        Some(ActionModel::SwitchModel(model)) => Step {
            action: Some(
                ActionModel::ConfirmRemoveModel { model, save: false, selected: p.selected },
            ),
            ..stays(p, e)
        },
        Some(ActionModel::SaveModel(model)) => Step {
            action: Some(
                ActionModel::ConfirmRemoveModel { model, save: true, selected: p.selected },
            ),
            ..stays(p, e)
        },
        Some(ActionModel::SendQueued(index)) => Step {
            action: Some(ActionModel::RemoveQueued(index)),
            ..stays(p, e)
        },
        Some(ActionModel::OpenStatusBarItem { index, selected }) => Step {
            action: Some(ActionModel::RemoveStatusBarItem(index)),
            ..stays(p, e)
        },
        _ => stays(p, e),
    }
}

/// A menu after its selected choice was moved.
pub open spec fn move_step(p: PickerModel, e: EditorModel, direction: isize) -> Step {
    match p.chosen() {
        Some(ActionModel::SendQueued(index)) => closes(
            e,
            ActionModel::MoveQueued { index, direction },
        ),
        Some(ActionModel::OpenStatusBarItem { index, selected }) => closes(
            e,
            ActionModel::MoveStatusBarItem { index, direction },
        ),
        _ => stays(p, e),
    }
}

/// A menu after a character.
pub open spec fn char_step(
    p: PickerModel,
    e: EditorModel,
    queued: Seq<SubmissionModel>,
    c: char,
) -> Step {
    if p.is_handoff() && c == '1' {
        stays(p.with_selected(0), e)
    } else if p.is_handoff() && c == '2' {
        stays(p.with_selected(1), e)
    } else if c == 'k' {
        stays(p.with_selected(minus(p.selected as nat, 1)), e)
    } else if c == 'j' {
        stays(p.with_selected(at_most(p.selected as nat + 1, p.last())), e)
    } else if c == ' ' {
        match p.chosen() {
            Some(ActionModel::ConnectToggleReasoning(index)) => Step {
                action: Some(ActionModel::ConnectToggleReasoning(index)),
                ..stays(p, e)
            },
            _ => stays(p, e),
        }
    } else if c == 'e' {
        match p.chosen() {
            Some(ActionModel::SendQueued(index)) => if index < queued.len() {
                stays(
                    p.with_edit(EditModel::Queued(index)),
                    e.cleared().restored(queued[index as int]),
                )
            } else {
                stays(p, e)
            },
            _ => stays(p, e),
        }
    } else if c == 'K' {
        move_step(p, e, (-1) as isize)
    } else if c == 'J' {
        move_step(p, e, 1isize)
    } else if c == 'd' {
        delete_step(p, e)
    } else {
        stays(p, e)
    }
}

/// A menu after a key.
pub open spec fn picker_step(
    p: PickerModel,
    e: EditorModel,
    queued: Seq<SubmissionModel>,
    key: Key,
) -> Step {
    match p.editing {
        Some(edit) => edit_step(p, e, edit, key),
        None => match key {
            Key::Escape => Step { picker: None, editor: e, action: p.parent },
            Key::Ctrl(c) => if c == 'c' {
                Step { picker: None, editor: e, action: p.parent }
            } else {
                stays(p, e)
            },
            Key::Up => stays(p.with_selected(minus(p.selected as nat, 1)), e),
            Key::Down => stays(p.with_selected(at_most(p.selected as nat + 1, p.last())), e),
            Key::PageUp => stays(p.with_selected(minus(p.selected as nat, 5)), e),
            Key::PageDown => stays(p.with_selected(at_most(p.selected as nat + 5, p.last())), e),
            Key::Enter => enter_step(p, e),
            Key::Delete => delete_step(p, e),
            Key::Char(c) => char_step(p, e, queued, c),
            _ => stays(p, e),
        },
    }
}

fn location_of(action: &Option<PickerAction>) -> (r: Option<SettingsLocation>)
    ensures
        r == edited_location(option_view(*action)),
{
    match action {
        Some(PickerAction::EditSetting { location, .. }) => *location,
        Some(PickerAction::EditSecretSetting { location, .. }) => *location,
        _ => None,
    }
}

fn trim_text(text: &str) -> (r: String)
    ensures
        r@ == trimmed(text@),
{
    string_of(&trim(&chars_of(text)))
}

fn apply_edit(edit: PickerEdit, value: String, location: Option<SettingsLocation>) -> (r:
    PickerAction)
    ensures
        r@ == applied_edit(edit@, value@, location),
{
    match edit {
        PickerEdit::Setting(key) => PickerAction::ApplySetting {
            argument: cat3(key.as_str(), " ", trim_text(value.as_str()).as_str()),
            location,
        },
        PickerEdit::SecretSetting(key) => PickerAction::ApplySetting {
            argument: cat3(key.as_str(), " ", trim_text(value.as_str()).as_str()),
            location,
        },
        PickerEdit::Model { save } => if save {
            PickerAction::SaveModel(trim_text(value.as_str()))
        } else {
            PickerAction::SwitchModel(trim_text(value.as_str()))
        },
        PickerEdit::Queued(index) => PickerAction::ApplyQueued { index, value },
        PickerEdit::StatusBarLabel(index) => PickerAction::ApplyStatusBarLabel {
            index,
            label: value,
        },
        PickerEdit::StatusBarSeparator => PickerAction::ApplyStatusBarSeparator(value),
        PickerEdit::Connect { field, .. } => PickerAction::ApplyConnect {
            field,
            value: trim_text(value.as_str()),
        },
    }
}

fn step_edit(picker: Picker, editor: &mut Editor, edit: PickerEdit, key: Key) -> (r: (
    Option<Picker>,
    Option<PickerAction>,
))
    requires
        old(editor).wf(),
    ensures
        final(editor).wf(),
        (Step { picker: option_view(r.0), editor: final(editor)@, action: option_view(r.1) })
            == edit_step(picker@, old(editor)@, edit@, key),
{
    let mut picker = picker;
    if key == Key::Escape || key == Key::Ctrl('c') {
        editor.clear();
        picker.editing = None;
        return (Some(picker), None);
    }
    if key == Key::Enter {
        let alone = match &edit {
            PickerEdit::StatusBarLabel(_) => true,
            PickerEdit::StatusBarSeparator => true,
            _ => false,
        };
        let location = location_of(&picker.chosen());
        if alone {
            let value = editor.text();
            editor.clear();
            return (None, Some(apply_edit(edit, value, location)));
        }
        return match editor.take_text() {
            Some(value) => (None, Some(apply_edit(edit, value, location))),
            None => (Some(picker), None),
        };
    }
    if key == Key::Up || key == Key::Down {
        return (Some(picker), None);
    }
    let _action = editor.handle_key(key);
    (Some(picker), None)
}

fn begin_edit(picker: Picker, editor: &mut Editor, initial: &str, edit: PickerEdit) -> (r: (
    Option<Picker>,
    Option<PickerAction>,
))
    requires
        old(editor).wf(),
    ensures
        final(editor).wf(),
        (Step { picker: option_view(r.0), editor: final(editor)@, action: option_view(r.1) })
            == begun(picker@, old(editor)@, initial@, edit@),
{
    let mut picker = picker;
    editor.clear();
    editor.paste(initial);
    picker.editing = Some(edit);
    (Some(picker), None)
}

fn step_enter(picker: Picker, editor: &mut Editor) -> (r: (Option<Picker>, Option<PickerAction>))
    requires
        old(editor).wf(),
    ensures
        final(editor).wf(),
        (Step { picker: option_view(r.0), editor: final(editor)@, action: option_view(r.1) })
            == enter_step(picker@, old(editor)@),
{
    let mut picker = picker;
    match picker.chosen() {
        None => (Some(picker), None),
        Some(action) => match action {
            PickerAction::EditSetting { key, initial, .. } => begin_edit(
                picker,
                editor,
                initial.as_str(),
                PickerEdit::Setting(key),
            ),
            PickerAction::EditSecretSetting { key, .. } => {
                editor.clear();
                picker.editing = Some(PickerEdit::SecretSetting(key));
                (Some(picker), None)
            },
            PickerAction::EditModel { save, initial } => begin_edit(
                picker,
                editor,
                initial.as_str(),
                PickerEdit::Model { save },
            ),
            PickerAction::EditConnect { field, initial, secret } => begin_edit(
                picker,
                editor,
                initial.as_str(),
                PickerEdit::Connect { field, secret },
            ),
            PickerAction::EditStatusBarLabel { index, initial } => begin_edit(
                picker,
                editor,
                initial.as_str(),
                PickerEdit::StatusBarLabel(index),
            ),
            PickerAction::EditStatusBarSeparator(initial) => begin_edit(
                picker,
                editor,
                initial.as_str(),
                PickerEdit::StatusBarSeparator,
            ),
            PickerAction::ConnectToggleReasoning(_) => (
                None,
                Some(PickerAction::ConnectConfirmReasoning),
            ),
            action => (None, Some(action)),
        },
    }
}

fn delete_session_confirm(id: String, label: &str, description: &str, resume_selected: usize) -> (r:
    Picker)
    ensures
        r@ == delete_question(id@, label@, description@, resume_selected),
{
    let mut items: Vec<PickerItem> = Vec::new();
    offer(
        &mut items,
        "Cancel",
        "Keep this session",
        PickerAction::OpenResume { selected: resume_selected },
    );
    let text = cat3(label, " · ", description);
    offer(&mut items, "Delete", text.as_str(), PickerAction::DeleteSession(id));
    let r = Picker {
        title: "Delete session?".to_owned(),
        hint: "Enter confirm  Esc back".to_owned(),
        selected: 0,
        items,
        editing: None,
        parent: Some(PickerAction::OpenResume { selected: resume_selected }),
    };
    assert(r@.items =~= delete_question(id@, label@, description@, resume_selected).items);
    r
}

fn step_delete(picker: Picker) -> (r: (Option<Picker>, Option<PickerAction>))
    ensures
        forall|e: EditorModel|
            (Step { picker: option_view(r.0), editor: e, action: option_view(r.1) })
                == #[trigger] delete_step(picker@, e),
{
    match picker.chosen() {
        Some(PickerAction::ResumeSession(id)) => {
            let selected: usize = picker.selected;
            assert(picker@.items[selected as int] == picker.items@[selected as int]@);
            let label = picker.items[selected].label.clone();
            let description = picker.items[selected].description.clone();
            (
                Some(delete_session_confirm(id, label.as_str(), description.as_str(), selected)),
                None,
            )
        },
        Some(PickerAction::SwitchModel(model)) => {
            let selected: usize = picker.selected;
            (Some(picker), Some(PickerAction::ConfirmRemoveModel { model, save: false, selected }))
        },
        Some(PickerAction::SaveModel(model)) => {
            let selected: usize = picker.selected;
            (Some(picker), Some(PickerAction::ConfirmRemoveModel { model, save: true, selected }))
        },
        Some(PickerAction::SendQueued(index)) => (
            Some(picker),
            Some(PickerAction::RemoveQueued(index)),
        ),
        Some(PickerAction::OpenStatusBarItem { index, .. }) => (
            Some(picker),
            Some(PickerAction::RemoveStatusBarItem(index)),
        ),
        _ => (Some(picker), None),
    }
}

fn step_move(picker: Picker, direction: isize) -> (r: (Option<Picker>, Option<PickerAction>))
    ensures
        forall|e: EditorModel|
            (Step { picker: option_view(r.0), editor: e, action: option_view(r.1) })
                == #[trigger] move_step(picker@, e, direction),
{
    match picker.chosen() {
        Some(PickerAction::SendQueued(index)) => (
            None,
            Some(PickerAction::MoveQueued { index, direction }),
        ),
        Some(PickerAction::OpenStatusBarItem { index, .. }) => (
            None,
            Some(PickerAction::MoveStatusBarItem { index, direction }),
        ),
        _ => (Some(picker), None),
    }
}

/// Moves the selection up.
fn up(picker: Picker, n: usize) -> (r: Picker)
    ensures
        r@ == picker@.with_selected(minus(picker@.selected as nat, n as nat)),
{
    let mut picker = picker;
    picker.selected = picker.selected.saturating_sub(n);
    picker
}

/// Moves the selection down, up to the last choice.
fn down(picker: Picker, n: usize) -> (r: Picker)
    ensures
        r@ == picker@.with_selected(
            at_most((picker@.selected + n) as nat, picker@.last()),
        ),
{
    let mut picker = picker;
    let count: usize = picker.items.len();
    let last: usize = count.saturating_sub(1);
    picker.selected = smaller(picker.selected.saturating_add(n), last);
    picker
}

fn step_char(picker: Picker, editor: &mut Editor, queued: &Vec<Submission>, c: char) -> (r: (
    Option<Picker>,
    Option<PickerAction>,
))
    requires
        old(editor).wf(),
    ensures
        final(editor).wf(),
        (Step { picker: option_view(r.0), editor: final(editor)@, action: option_view(r.1) })
            == char_step(picker@, old(editor)@, views(queued@), c),
{
    let mut picker = picker;
    let handoff = picker_is_plan_handoff(&picker);
    if handoff && c == '1' {
        picker.selected = 0;
        return (Some(picker), None);
    }
    if handoff && c == '2' {
        picker.selected = 1;
        return (Some(picker), None);
    }
    if c == 'k' {
        return (Some(up(picker, 1)), None);
    }
    if c == 'j' {
        return (Some(down(picker, 1)), None);
    }
    if c == ' ' {
        return match picker.chosen() {
            Some(PickerAction::ConnectToggleReasoning(index)) => (
                Some(picker),
                Some(PickerAction::ConnectToggleReasoning(index)),
            ),
            _ => (Some(picker), None),
        };
    }
    if c == 'e' {
        match picker.chosen() {
            Some(PickerAction::SendQueued(index)) => {
                if index < queued.len() {
                    assert(views(queued@)[index as int] == queued@[index as int]@);
                    editor.clear();
                    editor.restore_submission(queued[index].copy());
                    picker.editing = Some(PickerEdit::Queued(index));
                }
            },
            _ => {},
        }
        return (Some(picker), None);
    }
    if c == 'K' {
        return step_move(picker, -1);
    }
    if c == 'J' {
        return step_move(picker, 1);
    }
    if c == 'd' {
        return step_delete(picker);
    }
    (Some(picker), None)
}

/// Gives a key to a menu; see `picker_step`.
pub fn step_picker(picker: Picker, editor: &mut Editor, queued: &Vec<Submission>, key: Key) -> (r: (
    Option<Picker>,
    Option<PickerAction>,
))
    requires
        old(editor).wf(),
    ensures
        final(editor).wf(),
        (Step { picker: option_view(r.0), editor: final(editor)@, action: option_view(r.1) })
            == picker_step(picker@, old(editor)@, views(queued@), key),
{
    let edit = match &picker.editing {
        Some(edit) => Some(edit.clone()),
        None => None,
    };
    match edit {
        Some(edit) => step_edit(picker, editor, edit, key),
        None => match key {
            Key::Escape => (None, picker.parent),
            Key::Ctrl(c) => if c == 'c' {
                (None, picker.parent)
            } else {
                (Some(picker), None)
            },
            Key::Up => (Some(up(picker, 1)), None),
            Key::Down => (Some(down(picker, 1)), None),
            Key::PageUp => (Some(up(picker, 5)), None),
            Key::PageDown => (Some(down(picker, 5)), None),
            Key::Enter => step_enter(picker, editor),
            Key::Delete => step_delete(picker),
            Key::Char(c) => step_char(picker, editor, queued, c),
            _ => (Some(picker), None),
        },
    }
}

// ---------------------------------------------------------------------------
// Drawing

/// The width of the box of a menu.
pub open spec fn box_columns(columns: nat) -> nat {
    at_most(at_least(minus(columns, 4), 16), columns)
}

/// The choices that have room.
pub open spec fn capacity(p: PickerModel, height: nat) -> nat {
    at_most(at_least(minus(height, 5), 1), at_least(p.items.len(), 1))
}

/// The first choice that is shown: the selected one stays in the middle as
/// long as there are choices below.
pub open spec fn first_item(p: PickerModel, height: nat) -> nat {
    at_most(
        minus(p.selected as nat, capacity(p, height) / 2),
        minus(p.items.len(), capacity(p, height)),
    )
}

pub open spec fn last_item(p: PickerModel, height: nat) -> nat {
    at_most(first_item(p, height) + capacity(p, height), p.items.len())
}

/// A row between the borders of the box.
pub open spec fn framed(left: nat, outline: Seq<char>, content: Seq<char>, inner: nat) -> Seq<char> {
    spaces(left) + outline + "│\x1b[0m"@ + fitted(content, inner) + outline + "│\x1b[0m"@
}

/// A border of the box.
pub open spec fn border(
    left: nat,
    outline: Seq<char>,
    start: Seq<char>,
    inner: nat,
    end: Seq<char>,
) -> Seq<char> {
    spaces(left) + outline + start + repeated('─', inner) + end + "\x1b[0m"@
}

/// What is said of a choice. While it is edited, what is typed is shown, or as
/// many bullets.
pub open spec fn shown_description(p: PickerModel, e: EditorModel, index: int) -> Seq<char> {
    if index == p.selected && p.editing is Some {
        if e.text.len() == 0 {
            "type a value below…"@
        } else if p.is_secret() {
            repeated('•', e.text.len())
        } else {
            on_one_line(e.text)
        }
    } else {
        p.items[index].description
    }
}

pub open spec fn item_text(p: PickerModel, e: EditorModel, index: int) -> Seq<char> {
    " "@ + (if index == p.selected {
        "›"@
    } else {
        " "@
    }) + " "@ + p.items[index].label + "  ·  "@ + shown_description(p, e, index)
}

pub open spec fn item_row(
    p: PickerModel,
    e: EditorModel,
    style: Seq<char>,
    index: int,
    inner: nat,
) -> Seq<char> {
    if index == p.selected {
        painted(fitted(item_text(p, e, index), inner), style)
    } else {
        item_text(p, e, index)
    }
}

/// The rows of the box.
pub open spec fn box_rows(
    p: PickerModel,
    e: EditorModel,
    style: Seq<char>,
    outline: Seq<char>,
    columns: nat,
    height: nat,
) -> Seq<Seq<char>> {
    let inner = minus(box_columns(columns), 2);
    let left = minus(columns, box_columns(columns)) / 2;
    let first = first_item(p, height);
    seq![
        border(left, outline, "┌"@, inner, "┐"@),
        framed(left, outline, " \x1b[1m"@ + p.title + "\x1b[0m"@, inner),
        border(left, outline, "├"@, inner, "┤"@),
    ] + Seq::new(
        minus(last_item(p, height), first),
        |i: int| framed(left, outline, item_row(p, e, style, first + i, inner), inner),
    ) + seq![
        framed(
            left,
            outline,
            " \x1b[2m"@ + (if p.editing is Some {
                "Edit below  Enter save  Esc cancel edit"@
            } else {
                p.hint
            }) + "\x1b[0m"@,
            inner,
        ),
        border(left, outline, "└"@, inner, "┘"@),
    ]
}

/// A menu in the middle of an area.
pub open spec fn picker_rows(
    p: PickerModel,
    e: EditorModel,
    style: Seq<char>,
    outline: Seq<char>,
    columns: nat,
    height: nat,
) -> Seq<Seq<char>> {
    let rows = box_rows(p, e, style, outline, columns, height);
    let shown = at_most(rows.len(), height);
    let top = (height - shown) as nat / 2;
    Seq::new(
        height,
        |i: int|
            if top <= i < top + shown {
                fitted(rows[i - top], columns)
            } else {
                spaces(columns)
            },
    )
}

fn render_frame(left: usize, outline: &str, content: &str, inner: usize) -> (r: String)
    ensures
        r@ == framed(left as nat, outline@, content@, inner as nat),
{
    cat6(
        repeat(' ', left).as_str(),
        outline,
        "│\x1b[0m",
        fit_width(content, inner).as_str(),
        outline,
        "│\x1b[0m",
    )
}

fn render_border(left: usize, outline: &str, start: &str, inner: usize, end: &str) -> (r: String)
    ensures
        r@ == border(left as nat, outline@, start@, inner as nat, end@),
{
    cat6(
        repeat(' ', left).as_str(),
        outline,
        start,
        repeat('─', inner).as_str(),
        end,
        "\x1b[0m",
    )
}

fn render_description(picker: &Picker, editor: &Editor, index: usize) -> (r: String)
    requires
        index < picker.items@.len(),
    ensures
        r@ == shown_description(picker@, editor@, index as int),
{
    assert(picker@.items[index as int] == picker.items@[index as int]@);
    if index == picker.selected && picker.editing.is_some() {
        let n: usize = chars_of(editor.text.as_str()).len();
        if n == 0 {
            "type a value below…".to_owned()
        } else if picker.is_secret() {
            repeat('•', n)
        } else {
            join_lines(editor.text.as_str())
        }
    } else {
        picker.items[index].description.clone()
    }
}

fn render_item(picker: &Picker, editor: &Editor, style: &str, index: usize, inner: usize) -> (r:
    String)
    requires
        index < picker.items@.len(),
    ensures
        r@ == item_row(picker@, editor@, style@, index as int, inner as nat),
{
    assert(picker@.items[index as int] == picker.items@[index as int]@);
    let selected = index == picker.selected;
    let marker = if selected {
        "›"
    } else {
        " "
    };
    let text = cat6(
        " ",
        marker,
        " ",
        picker.items[index].label.as_str(),
        "  ·  ",
        render_description(picker, editor, index).as_str(),
    );
    if selected {
        selected_row(fit_width(text.as_str(), inner).as_str(), style)
    } else {
        text
    }
}

fn render_box(
    picker: &Picker,
    editor: &Editor,
    style: &str,
    outline: &str,
    columns: usize,
    height: usize,
) -> (r: Vec<String>)
    ensures
        lines_of(r@) == box_rows(
            picker@,
            editor@,
            style@,
            outline@,
            columns as nat,
            height as nat,
        ),
{
    let box_width: usize = smaller(larger(columns.saturating_sub(4), 16), columns);
    let inner: usize = box_width.saturating_sub(2);
    let left: usize = columns.saturating_sub(box_width) / 2;
    let count: usize = picker.items.len();
    let room: usize = smaller(larger(height.saturating_sub(5), 1), larger(count, 1));
    let first: usize = smaller(
        picker.selected.saturating_sub(room / 2),
        count.saturating_sub(room),
    );
    let last: usize = smaller(first.saturating_add(room), count);
    let mut rows: Vec<String> = Vec::new();
    push_row(&mut rows, render_border(left, outline, "┌", inner, "┐"));
    let title = cat3(" \x1b[1m", picker.title.as_str(), "\x1b[0m");
    push_row(&mut rows, render_frame(left, outline, title.as_str(), inner));
    push_row(&mut rows, render_border(left, outline, "├", inner, "┤"));
    let ghost above = lines_of(rows@);
    let ghost all = Seq::new(
        minus(last as nat, first as nat),
        |i: int|
            framed(
                left as nat,
                outline@,
                item_row(picker@, editor@, style@, first + i, inner as nat),
                inner as nat,
            ),
    );
    let mut i: usize = first;
    assert(lines_of(rows@) =~= above + all.take(0));
    while i < last
        invariant
            first <= i <= last <= picker.items@.len() || i == first,
            last <= picker.items@.len(),
            all == Seq::new(
                minus(last as nat, first as nat),
                |i: int|
                    framed(
                        left as nat,
                        outline@,
                        item_row(picker@, editor@, style@, first + i, inner as nat),
                        inner as nat,
                    ),
            ),
            lines_of(rows@) == above + all.take(i - first),
        decreases last - i,
    {
        let row = render_item(picker, editor, style, i, inner);
        push_row(&mut rows, render_frame(left, outline, row.as_str(), inner));
        i += 1;
        assert(lines_of(rows@) =~= above + all.take(i - first));
    }
    assert(all.take(i - first) =~= all);
    let hint = if picker.editing.is_some() {
        "Edit below  Enter save  Esc cancel edit"
    } else {
        picker.hint.as_str()
    };
    let text = cat3(" \x1b[2m", hint, "\x1b[0m");
    push_row(&mut rows, render_frame(left, outline, text.as_str(), inner));
    push_row(&mut rows, render_border(left, outline, "└", inner, "┘"));
    assert(lines_of(rows@) =~= box_rows(
        picker@,
        editor@,
        style@,
        outline@,
        columns as nat,
        height as nat,
    ));
    rows
}

/// Draws a menu in the middle of an area; see `picker_rows`. Every row takes
/// all columns.
pub fn render_picker(
    picker: &Picker,
    editor: &Editor,
    selection: &str,
    outline: &str,
    columns: usize,
    height: usize,
) -> (r: Vec<String>)
    ensures
        lines_of(r@) == picker_rows(
            picker@,
            editor@,
            selection@,
            outline@,
            columns as nat,
            height as nat,
        ),
        r@.len() == height,
        forall|i: int| 0 <= i < r@.len() ==> visible_columns((#[trigger] r@[i])@) == columns,
{
    let rows = render_box(picker, editor, selection, outline, columns, height);
    let n: usize = rows.len();
    assert(lines_of(rows@).len() == n);
    let shown: usize = smaller(n, height);
    let top: usize = (height - shown) / 2;
    let _space: usize = char_columns(' ');
    let ghost all = picker_rows(
        picker@,
        editor@,
        selection@,
        outline@,
        columns as nat,
        height as nat,
    );
    let mut r: Vec<String> = Vec::new();
    let mut i: usize = 0;
    assert(lines_of(r@) =~= all.take(0));
    while i < height
        invariant
            i <= height,
            n == rows@.len(),
            shown as nat == at_most(n as nat, height as nat),
            top as nat == (height - shown) as nat / 2,
            lines_of(rows@) == box_rows(
                picker@,
                editor@,
                selection@,
                outline@,
                columns as nat,
                height as nat,
            ),
            lines_of(rows@).len() == n,
            all == picker_rows(
                picker@,
                editor@,
                selection@,
                outline@,
                columns as nat,
                height as nat,
            ),
            crate::markdown::columns(' ') == 1,
            r@.len() == i,
            lines_of(r@) == all.take(i as int),
            forall|k: int| 0 <= k < r@.len() ==> visible_columns((#[trigger] r@[k])@) == columns,
        decreases height - i,
    {
        let row = if top <= i && i - top < shown {
            fit_width(rows[i - top].as_str(), columns)
        } else {
            proof {
                let empty = Seq::<char>::empty();
                fitted_is_exact(empty, columns as nat);
                assert(fitted(empty, columns as nat) =~= spaces(columns as nat));
            }
            repeat(' ', columns)
        };
        assert(row@ == all[i as int]);
        push_row(&mut r, row);
        i += 1;
        assert(lines_of(r@) =~= all.take(i as int));
        assert forall|k: int| 0 <= k < r@.len() implies visible_columns((#[trigger] r@[k])@)
            == columns by {
            assert(lines_of(r@)[k] == r@[k]@);
            assert(lines_of(r@)[k] == all[k]);
        }
    }
    assert(all.take(i as int) =~= all);
    r
}

// ---------------------------------------------------------------------------
// Laws

/// Moving keeps the selection among the choices.
pub proof fn selection_stays_inside(
    p: PickerModel,
    e: EditorModel,
    queued: Seq<SubmissionModel>,
    key: Key,
)
    requires
        p.selected < p.items.len() <= usize::MAX,
        key == Key::Up || key == Key::Down || key == Key::PageUp || key == Key::PageDown,
    ensures
        ({
            let now = picker_step(p, e, queued, key).picker;
            now is Some && now->0.selected < now->0.items.len() && now->0.items == p.items
        }),
{
}

/// `Escape` leaves an edit before it leaves the menu: the first press ends the
/// edit and clears the composer, the second asks for what the menu came from.
pub proof fn escape_leaves_step_by_step(
    p: PickerModel,
    e: EditorModel,
    queued: Seq<SubmissionModel>,
)
    requires
        p.editing is Some,
    ensures
        ({
            let first = picker_step(p, e, queued, Key::Escape);
            let second = picker_step(first.picker->0, first.editor, queued, Key::Escape);
            &&& first.picker is Some && first.picker->0.editing is None && first.action is None
            &&& first.editor.text.len() == 0
            &&& second.picker is None && second.action == p.parent
        }),
{
}

/// The selected choice is always among those that are shown.
pub proof fn selected_item_is_shown(p: PickerModel, height: nat)
    requires
        p.selected < p.items.len(),
    ensures
        first_item(p, height) <= p.selected < last_item(p, height) <= p.items.len(),
        last_item(p, height) - first_item(p, height) == capacity(p, height),
        height >= p.items.len() + 5 ==> first_item(p, height) == 0 && last_item(p, height)
            == p.items.len(),
{
}

/// A secret that is typed is shown by bullets only.
pub proof fn secrets_are_masked(p: PickerModel, e: EditorModel)
    requires
        p.is_secret(),
        e.text.len() > 0,
    ensures
        shown_description(p, e, p.selected as int) == repeated('•', e.text.len()),
{
}

/// A session is deleted only by a second choice: the first answer of the
/// question keeps it.
pub proof fn deletion_is_confirmed(p: PickerModel, e: EditorModel, queued: Seq<SubmissionModel>)
    requires
        p.editing is None,
        p.chosen() matches Some(ActionModel::ResumeSession(_)),
    ensures
        ({
            let asked = picker_step(p, e, queued, Key::Delete);
            let answered = picker_step(asked.picker->0, e, queued, Key::Enter);
            &&& asked.picker is Some && asked.action is None
            &&& answered.action == Some(ActionModel::OpenResume { selected: p.selected })
        }),
{
}

/// Up and Down select the item before and the item behind, k and j too, and the
/// page keys the fifth from there; the selection stays on the list. Nothing is
/// chosen yet.
pub proof fn keys_move_the_selection(
    p: PickerModel,
    e: EditorModel,
    queued: Seq<SubmissionModel>,
    key: Key,
)
    requires
        p.editing is None,
        p.selected < p.items.len() <= usize::MAX,
    ensures
        ({
            let step = picker_step(p, e, queued, key);
            let far = |n: int| if n >= p.items.len() {
                p.items.len() - 1
            } else if n < 0 {
                0
            } else {
                n
            };
            let goes = |n: int|
                step.action is None && step.editor == e && step.picker == Some(
                    (PickerModel { selected: far(n) as usize, ..p }),
                );
            &&& key == Key::Up || key == Key::Char('k') ==> goes(p.selected - 1)
            &&& key == Key::Down || key == Key::Char('j') ==> goes(p.selected + 1)
            &&& key == Key::PageUp ==> goes(p.selected - 5)
            &&& key == Key::PageDown ==> goes(p.selected + 5)
        }),
{
}

/// Escape and Ctrl+C leave the list for the one that it came from, whatever is
/// selected; where a value is being edited they end only that.
pub proof fn escape_goes_back(
    p: PickerModel,
    e: EditorModel,
    queued: Seq<SubmissionModel>,
    key: Key,
)
    requires
        key == Key::Escape || key == Key::Ctrl('c'),
    ensures
        p.editing is None ==> picker_step(p, e, queued, key).picker is None && picker_step(
            p,
            e,
            queued,
            key,
        ).action == p.parent && picker_step(p, e, queued, key).editor == e,
        p.editing is Some ==> picker_step(p, e, queued, key).picker == Some(
            (PickerModel { editing: None, ..p }),
        ) && picker_step(p, e, queued, key).action is None && picker_step(
            p,
            e,
            queued,
            key,
        ).editor.text.len() == 0,
{
}

/// Whether choosing an item opens an editor for its value in place of the
/// action itself.
pub open spec fn asks_for_text(action: ActionModel) -> bool {
    action is EditSetting || action is EditSecretSetting || action is EditModel || action
        is EditConnect || action is EditStatusBarLabel || action is EditStatusBarSeparator
}

/// Enter hands on the action of the item that is selected and closes the list.
/// Where a value is asked for, the list stays and the value that was in force
/// is there to be edited, but a secret is not.
pub proof fn enter_chooses_the_selected(
    p: PickerModel,
    e: EditorModel,
    queued: Seq<SubmissionModel>,
)
    requires
        p.editing is None,
        p.selected < p.items.len(),
    ensures
        ({
            let action = p.items[p.selected as int].action;
            let step = picker_step(p, e, queued, Key::Enter);
            &&& !asks_for_text(action) && !(action is ConnectToggleReasoning) ==> step.action
                == Some(action) && step.picker is None && step.editor == e
            &&& asks_for_text(action) ==> step.action is None && step.picker is Some
                && step.picker->0.editing is Some && step.picker->0.items == p.items
                && step.picker->0.selected == p.selected
            &&& action matches ActionModel::EditSetting { key, initial, location } ==> step.editor
                == e.cleared().pasted(initial) && step.picker->0.editing == Some(
                EditModel::Setting(key),
            )
            &&& action matches ActionModel::EditSecretSetting { key, location } ==> step.editor
                == e.cleared() && step.picker->0.is_secret()
            &&& action matches ActionModel::EditModel { save, initial } ==> step.editor
                == e.cleared().pasted(initial) && step.picker->0.editing == Some(
                EditModel::Model { save },
            )
            &&& action matches ActionModel::EditConnect { field, initial, secret } ==> step.editor
                == e.cleared().pasted(initial) && step.picker->0.editing == Some(
                EditModel::Connect { field, secret },
            )
        }),
{
}

/// A value that was typed is applied to what it was typed for, without the white
/// space around it where that has no meaning; the composer is empty again.
/// Nothing is applied where nothing was typed, unless a value may be empty.
pub proof fn typed_values_are_applied(
    p: PickerModel,
    e: EditorModel,
    queued: Seq<SubmissionModel>,
    edit: EditModel,
)
    requires
        p.editing == Some(edit),
    ensures
        ({
            let step = picker_step(p, e, queued, Key::Enter);
            let done = |action: ActionModel|
                step.picker is None && step.editor.text.len() == 0 && step.action == Some(action);
            &&& e.text.len() == 0 && !(edit is StatusBarLabel) && !(edit is StatusBarSeparator)
                ==> step.picker == Some(p) && step.action is None
            &&& e.text.len() > 0 ==> match edit {
                EditModel::Setting(key) | EditModel::SecretSetting(key) => step.picker is None
                    && step.action is Some && step.action->0 is ApplySetting
                    && step.action->0->ApplySetting_argument == key + " "@ + trimmed(e.text),
                EditModel::Model { save } => done(
                    if save {
                        ActionModel::SaveModel(trimmed(e.text))
                    } else {
                        ActionModel::SwitchModel(trimmed(e.text))
                    },
                ),
                EditModel::Queued(index) => done(
                    ActionModel::ApplyQueued { index, value: e.text },
                ),
                EditModel::Connect { field, secret } => done(
                    ActionModel::ApplyConnect { field, value: trimmed(e.text) },
                ),
                _ => true,
            }
            &&& edit matches EditModel::StatusBarLabel(index) ==> done(
                ActionModel::ApplyStatusBarLabel { index, label: e.text },
            )
            &&& edit is StatusBarSeparator ==> done(ActionModel::ApplyStatusBarSeparator(e.text))
        }),
{
}

/// While a value is edited the other keys go to the composer, and the list
/// stays as it is.
pub proof fn editing_keys_reach_the_composer(
    p: PickerModel,
    e: EditorModel,
    queued: Seq<SubmissionModel>,
    key: Key,
)
    requires
        p.editing is Some,
        key != Key::Escape && key != Key::Enter && key != Key::Up && key != Key::Down && key
            != Key::Ctrl('c'),
    ensures
        picker_step(p, e, queued, key).picker == Some(p),
        picker_step(p, e, queued, key).editor == e.keyed(key).0,
        picker_step(p, e, queued, key).action is None,
        picker_step(p, e, queued, Key::Up).editor == e,
        picker_step(p, e, queued, Key::Down).editor == e,
{
}

/// d and Delete ask to remove what is selected: a session and a model after a
/// question, of which the safe answer is selected; a message and an item of the
/// status bar at once. What cannot be removed stays.
pub proof fn deleting_removes_the_selected(
    p: PickerModel,
    e: EditorModel,
    queued: Seq<SubmissionModel>,
    key: Key,
)
    requires
        p.editing is None,
        key == Key::Char('d') || key == Key::Delete,
        p.selected < p.items.len(),
    ensures
        ({
            let step = picker_step(p, e, queued, key);
            match p.items[p.selected as int].action {
                ActionModel::ResumeSession(id) => {
                    let question = step.picker->0;
                    &&& step.action is None && step.picker is Some
                    &&& question.selected == 0 && question.items.len() == 2
                    &&& question.items[0].action == ActionModel::OpenResume { selected: p.selected }
                    &&& question.items[1].action == ActionModel::DeleteSession(id)
                    &&& question.parent == Some(ActionModel::OpenResume { selected: p.selected })
                },
                ActionModel::SwitchModel(model) => step.action == Some(
                    ActionModel::ConfirmRemoveModel { model, save: false, selected: p.selected },
                ),
                ActionModel::SaveModel(model) => step.action == Some(
                    ActionModel::ConfirmRemoveModel { model, save: true, selected: p.selected },
                ),
                ActionModel::SendQueued(index) => step.action == Some(
                    ActionModel::RemoveQueued(index),
                ),
                ActionModel::OpenStatusBarItem { index, selected } => step.action == Some(
                    ActionModel::RemoveStatusBarItem(index),
                ),
                _ => step.action is None && step.picker == Some(p),
            }
        }),
{
}

/// K moves what is selected up and J down, where it has an order; e edits a
/// waiting message, which stands in the composer with its images.
pub proof fn letters_reorder_and_edit(
    p: PickerModel,
    e: EditorModel,
    queued: Seq<SubmissionModel>,
)
    requires
        p.editing is None,
        p.selected < p.items.len(),
    ensures
        ({
            let up = picker_step(p, e, queued, Key::Char('K')).action;
            let down = picker_step(p, e, queued, Key::Char('J')).action;
            let edit = picker_step(p, e, queued, Key::Char('e'));
            match p.items[p.selected as int].action {
                ActionModel::SendQueued(index) => {
                    &&& up matches Some(ActionModel::MoveQueued { index: i, direction })
                        && i == index && direction == -1
                    &&& down matches Some(ActionModel::MoveQueued { index: i, direction })
                        && i == index && direction == 1
                    &&& index < queued.len() ==> edit.editor == e.cleared().restored(
                        queued[index as int],
                    ) && edit.picker is Some && edit.picker->0.editing == Some(
                        EditModel::Queued(index),
                    )
                },
                ActionModel::OpenStatusBarItem { index, selected } => {
                    &&& up matches Some(ActionModel::MoveStatusBarItem { index: i, direction })
                        && i == index && direction == -1
                    &&& down matches Some(ActionModel::MoveStatusBarItem { index: i, direction })
                        && i == index && direction == 1
                },
                _ => up is None && down is None && edit.picker == Some(p),
            }
        }),
{
}

/// The handoff of a plan takes its two answers by their numbers.
pub proof fn handoffs_are_numbered(p: PickerModel, e: EditorModel, queued: Seq<SubmissionModel>)
    requires
        p.editing is None,
        p.is_handoff(),
    ensures
        picker_step(p, e, queued, Key::Char('1')).picker matches Some(now) && now.items[
            now.selected as int].action == ActionModel::ImplementPlan,
        picker_step(p, e, queued, Key::Char('2')).picker matches Some(now) && now.items[
            now.selected as int].action == ActionModel::ReturnFromPlan,
{
}

/// An item is drawn with its label and its description, the selected one
/// marked and painted; while a value is edited it stands in place of the
/// description, and a secret by dots.
pub proof fn items_show_their_value(p: PickerModel, e: EditorModel, style: Seq<char>, i: int, inner: nat)
    requires
        0 <= i < p.items.len(),
    ensures
        i != p.selected ==> item_row(p, e, style, i, inner) == " "@ + " "@ + " "@ + p.items[i].label
            + "  ·  "@ + p.items[i].description,
        i == p.selected && p.editing is None ==> item_row(p, e, style, i, inner) == painted(
            fitted(" "@ + "›"@ + " "@ + p.items[i].label + "  ·  "@ + p.items[i].description, inner),
            style,
        ),
        i == p.selected && p.editing is Some && e.text.len() > 0 && p.is_secret()
            ==> shown_description(p, e, i) == repeated('•', e.text.len()),
        i == p.selected && p.editing is Some && e.text.len() > 0 && !p.is_secret()
            ==> shown_description(p, e, i) == on_one_line(e.text),
{
}

} // verus!
