//! The menus of models and reasoning levels.

use vstd::prelude::*;
use crate::config::{Config, ConfigModel};
use crate::model::{
    first_position, first_position_is, no_first_position, option_view, views, Modeled,
};
use crate::order::{alphabetical, arrange, arranged, put_named, Named};
use crate::text::{begins, cat2, cat3, chars_of, is, same, starts, string_of, sub_chars};
use super::{choice, offer, ItemModel, Picker, PickerItem, PickerModel};
use super::action::{
    ActionModel, PickerAction, SettingsCategory, SettingsItem, SettingsLocation,
};
use super::settings::{at, back_to, default_model, go_back_to};

verus! {

broadcast use vstd::string::group_string_axioms;

/// A model that is offered.
#[derive(Debug)]
pub struct ListedModel {
    /// The model with the name of its provider before it.
    pub id: String,
    pub name: String,
}

pub struct ListedEntry {
    pub id: Seq<char>,
    pub name: Seq<char>,
}

impl View for ListedModel {
    type V = ListedEntry;

    open spec fn view(&self) -> ListedEntry {
        ListedEntry { id: self.id@, name: self.name@ }
    }
}

impl Modeled for ListedModel {
    fn copy(&self) -> (r: Self) {
        ListedModel { id: self.id.clone(), name: self.name.clone() }
    }

    fn same(&self, other: &Self) -> (r: bool) {
        self.id.same(&other.id) && self.name.same(&other.name)
    }
}

impl Named for ListedModel {
    open spec fn name_in(model: ListedEntry) -> Seq<char> {
        model.id
    }

    fn name(&self) -> (r: Vec<char>) {
        chars_of(self.id.as_str())
    }
}

// ---------------------------------------------------------------------------
// The list

pub open spec fn lists(list: Seq<ListedEntry>, id: Seq<char>) -> bool {
    exists|i: int| 0 <= i < list.len() && (#[trigger] list[i]).id == id
}

fn is_listed(list: &Vec<ListedModel>, id: &str) -> (r: bool)
    ensures
        r == lists(views(list@), id@),
{
    let mut i: usize = 0;
    while i < list.len()
        invariant
            i <= list@.len(),
            forall|k: int| 0 <= k < i ==> (#[trigger] views(list@)[k]).id != id@,
        decreases list@.len() - i,
    {
        if same(list[i].id.as_str(), id) {
            assert(views(list@)[i as int].id == id@);
            return true;
        }
        i += 1;
    }
    false
}

/// A list with a model that it does not hold put in its place.
pub open spec fn with_model(list: Seq<ListedEntry>, id: Seq<char>, name: Seq<char>) -> Seq<
    ListedEntry,
> {
    if lists(list, id) {
        list
    } else {
        arranged::<ListedModel>(list.push(ListedEntry { id, name }))
    }
}

fn include_model(list: &Vec<ListedModel>, id: &str, name: &str) -> (r: Vec<ListedModel>)
    ensures
        views(r@) == with_model(views(list@), id@, name@),
{
    let mut r = crate::model::copy_all(list);
    if is_listed(list, id) {
        return r;
    }
    let ghost before = views(r@);
    r.push(ListedModel { id: id.to_owned(), name: name.to_owned() });
    assert(views(r@) =~= before.push(ListedEntry { id: id@, name: name@ }));
    arrange(&r)
}

pub open spec fn is_described(text: Seq<char>) -> spec_fn(ItemModel) -> bool {
    |item: ItemModel| item.description == text
}

/// The first choice with a description.
pub open spec fn described(items: Seq<ItemModel>, text: Seq<char>) -> Option<int> {
    first_position(items, is_described(text))
}

fn find_described(items: &Vec<PickerItem>, text: &str) -> (r: Option<usize>)
    ensures
        match r {
            Some(i) => described(views(items@), text@) == Some(i as int) && i < items@.len(),
            None => described(views(items@), text@) is None,
        },
{
    let ghost all = views(items@);
    let ghost wanted = is_described(text@);
    let mut i: usize = 0;
    while i < items.len()
        invariant
            i <= items@.len(),
            all == views(items@),
            wanted == is_described(text@),
            forall|k: int| 0 <= k < i ==> !wanted(#[trigger] all[k]),
        decreases items@.len() - i,
    {
        assert(all[i as int] == items@[i as int]@);
        if same(items[i].description.as_str(), text) {
            proof {
                first_position_is(all, wanted, i as int);
            }
            return Some(i);
        }
        i += 1;
    }
    proof {
        no_first_position(all, wanted);
    }
    None
}

// ---------------------------------------------------------------------------
// Models

pub open spec fn model_action(id: Seq<char>, save: bool) -> ActionModel {
    if save {
        ActionModel::SaveModel(id)
    } else {
        ActionModel::SwitchModel(id)
    }
}

/// The model that a menu starts from: the default one where it is saved.
pub open spec fn model_in_use(config: ConfigModel, model: Seq<char>, save: bool) -> Seq<char> {
    if save {
        default_model(config, model)
    } else {
        model
    }
}

/// The choices of a menu of models. The model in use is among them.
pub open spec fn model_choices(list: Seq<ListedEntry>, in_use: Seq<char>, save: bool) -> Seq<
    ItemModel,
> {
    let all = with_model(
        list,
        in_use,
        if save {
            "Current default"@
        } else {
            "Current model"@
        },
    );
    Seq::new(
        all.len(),
        |i: int| choice(all[i].name, all[i].id, model_action(all[i].id, save)),
    ).push(
        choice(
            "Use another model ID…"@,
            "Enter a model not listed above"@,
            ActionModel::EditModel { save, initial: ""@ },
        ),
    )
}

pub open spec fn or_first(position: Option<int>) -> usize {
    match position {
        Some(i) => i as usize,
        None => 0,
    }
}

#[verifier::opaque]
pub open spec fn model_menu(
    list: Seq<ListedEntry>,
    config: ConfigModel,
    model: Seq<char>,
    save: bool,
) -> PickerModel {
    let in_use = model_in_use(config, model, save);
    let items = model_choices(list, in_use, save);
    PickerModel {
        title: if save {
            "Default model"@
        } else {
            "Choose model"@
        },
        hint: "↑/↓ move  Enter select  d remove  Esc cancel"@,
        items,
        selected: or_first(described(items, in_use)),
        editing: None,
        parent: if save {
            Some(back_to(SettingsCategory::Model, SettingsItem::DefaultModel))
        } else {
            None
        },
    }
}

fn list_models(list: &Vec<ListedModel>, in_use: &str, save: bool) -> (r: Vec<PickerItem>)
    ensures
        views(r@) == model_choices(views(list@), in_use@, save),
{
    let name = if save {
        "Current default"
    } else {
        "Current model"
    };
    let models = include_model(list, in_use, name);
    let ghost all = model_choices(views(list@), in_use@, save);
    let mut items: Vec<PickerItem> = Vec::new();
    let n: usize = models.len();
    let mut i: usize = 0;
    assert(views(models@).len() == n);
    assert(views(items@) =~= all.take(0));
    while i < n
        invariant
            i <= n,
            n == models@.len(),
            views(models@) == with_model(views(list@), in_use@, name@),
            name@ == (if save {
                "Current default"@
            } else {
                "Current model"@
            }),
            views(models@).len() == n,
            all == model_choices(views(list@), in_use@, save),
            views(items@) == all.take(i as int),
        decreases n - i,
    {
        let id = models[i].id.clone();
        assert(views(models@)[i as int] == models@[i as int]@);
        let action = if save {
            PickerAction::SaveModel(id)
        } else {
            PickerAction::SwitchModel(id)
        };
        offer(&mut items, models[i].name.as_str(), models[i].id.as_str(), action);
        i += 1;
        assert(views(items@) =~= all.take(i as int));
    }
    offer(
        &mut items,
        "Use another model ID…",
        "Enter a model not listed above",
        PickerAction::EditModel { save, initial: "".to_owned() },
    );
    assert(views(items@) =~= all);
    items
}

/// A menu of models; see `model_menu`.
pub fn model_picker(list: &Vec<ListedModel>, config: &Config, model: &str, save: bool) -> (r: Picker)
    ensures
        r@ == model_menu(views(list@), config@, model@, save),
{
    proof {
        reveal(model_menu);
    }
    let in_use = if save {
        match &config.model {
            Some(default) => default.as_str(),
            None => model,
        }
    } else {
        model
    };
    let items = list_models(list, in_use, save);
    let selected: usize = match find_described(&items, in_use) {
        Some(i) => i,
        None => 0,
    };
    let title = if save {
        "Default model"
    } else {
        "Choose model"
    };
    let parent = if save {
        Some(go_back_to(SettingsCategory::Model, SettingsItem::DefaultModel))
    } else {
        None
    };
    Picker {
        title: title.to_owned(),
        hint: "↑/↓ move  Enter select  d remove  Esc cancel".to_owned(),
        items,
        selected,
        editing: None,
        parent,
    }
}

/// A menu made anew, with the row that was selected before: the entry by hand
/// stays selected, and a model where it is still listed.
pub open spec fn refreshed(now: PickerModel, before: PickerModel) -> PickerModel {
    if before.selected >= before.items.len() || now.items.len() == 0 {
        now
    } else if before.selected == before.items.len() - 1 {
        PickerModel { selected: (now.items.len() - 1) as usize, ..now }
    } else {
        match described(now.items, before.items[before.selected as int].description) {
            Some(i) => PickerModel { selected: i as usize, ..now },
            None => now,
        }
    }
}

fn keep_selection(now: Picker, before: &Picker) -> (r: Picker)
    ensures
        r@ == refreshed(now@, before@),
{
    let mut now = now;
    let n: usize = now.items.len();
    let count: usize = before.items.len();
    if before.selected >= count || n == 0 {
        return now;
    }
    if before.selected == count - 1 {
        now.selected = n - 1;
        return now;
    }
    assert(before@.items[before.selected as int] == before.items@[before.selected as int]@);
    match find_described(&now.items, before.items[before.selected].description.as_str()) {
        Some(i) => now.selected = i,
        None => {},
    }
    now
}

/// The menu of models after the list was loaded again.
pub fn refreshed_model_picker(
    list: &Vec<ListedModel>,
    config: &Config,
    model: &str,
    save: bool,
    before: &Picker,
) -> (r: Picker)
    ensures
        r@ == refreshed(model_menu(views(list@), config@, model@, save), before@),
{
    proof {
        reveal(model_menu);
    }
    keep_selection(model_picker(list, config, model, save), before)
}

// ---------------------------------------------------------------------------
// The removal of a model

/// Whether a model is one that the Codex account lists.
pub open spec fn is_codex_model(id: Seq<char>) -> bool {
    starts(id, "openai-codex:"@)
}

/// The question before a model is removed, or why it cannot be. The models
/// that can be removed are those that the settings name with their providers.
#[verifier::opaque]
pub open spec fn removal_question(
    configured: Seq<Seq<char>>,
    model: Seq<char>,
    save: bool,
    selected: usize,
) -> Result<PickerModel, Seq<char>> {
    if is_codex_model(model) {
        Err("`"@ + model + "` comes from the Codex account catalog and cannot be removed."@)
    } else if !configured.contains(model) {
        Err("`"@ + model + "` is not a configured provider model."@)
    } else {
        Ok(
            PickerModel {
                title: "Remove model?"@,
                hint: "Enter confirm  Esc back"@,
                items: seq![
                    choice(
                        "Cancel"@,
                        "Keep this model"@,
                        ActionModel::OpenModelsAt { save, selected },
                    ),
                    choice(
                        "Remove"@,
                        model,
                        ActionModel::RemoveModel { model, save, selected },
                    ),
                ],
                selected: 0,
                editing: None,
                parent: Some(ActionModel::OpenModelsAt { save, selected }),
            },
        )
    }
}

fn holds(list: &Vec<String>, text: &str) -> (r: bool)
    ensures
        r == views(list@).contains(text@),
{
    let mut i: usize = 0;
    while i < list.len()
        invariant
            i <= list@.len(),
            forall|k: int| 0 <= k < i ==> #[trigger] views(list@)[k] != text@,
        decreases list@.len() - i,
    {
        if same(list[i].as_str(), text) {
            assert(views(list@)[i as int] == text@);
            return true;
        }
        i += 1;
    }
    false
}

/// Asks before a model is removed; see `removal_question`. `configured` holds
/// the models that the settings name, with their providers.
pub fn remove_model_confirm(configured: &Vec<String>, model: &str, save: bool, selected: usize) -> (r:
    Result<Picker, String>)
    ensures
        match r {
            Ok(picker) => removal_question(views(configured@), model@, save, selected) == Ok::<
                PickerModel,
                Seq<char>,
            >(picker@),
            Err(error) => removal_question(views(configured@), model@, save, selected) == Err::<
                PickerModel,
                Seq<char>,
            >(error@),
        },
{
    proof {
        reveal(removal_question);
    }
    if begins(&chars_of(model), "openai-codex:") {
        return Err(
            cat3("`", model, "` comes from the Codex account catalog and cannot be removed."),
        );
    }
    if !holds(configured, model) {
        return Err(cat3("`", model, "` is not a configured provider model."));
    }
    let mut items: Vec<PickerItem> = Vec::new();
    offer(
        &mut items,
        "Cancel",
        "Keep this model",
        PickerAction::OpenModelsAt { save, selected },
    );
    offer(
        &mut items,
        "Remove",
        model,
        PickerAction::RemoveModel { model: model.to_owned(), save, selected },
    );
    assert(views(items@) =~= seq![
        choice("Cancel"@, "Keep this model"@, ActionModel::OpenModelsAt { save, selected }),
        choice("Remove"@, model@, ActionModel::RemoveModel { model: model@, save, selected }),
    ]);
    Ok(
        Picker {
            title: "Remove model?".to_owned(),
            hint: "Enter confirm  Esc back".to_owned(),
            items,
            selected: 0,
            editing: None,
            parent: Some(PickerAction::OpenModelsAt { save, selected }),
        },
    )
}

// ---------------------------------------------------------------------------
// The model of the subagents

pub open spec fn subagent_place() -> Option<SettingsLocation> {
    at(SettingsCategory::Subagents, SettingsItem::SubagentModel)
}

fn subagent_location() -> (r: Option<SettingsLocation>)
    ensures
        r == subagent_place(),
{
    Some(
        SettingsLocation {
            category: SettingsCategory::Subagents,
            item: SettingsItem::SubagentModel,
        },
    )
}

pub open spec fn subagent_action(id: Seq<char>) -> ActionModel {
    ActionModel::ApplySetting { argument: "subagent_model "@ + id, location: subagent_place() }
}

/// The models that are listed for the subagents: one in use that is not listed
/// stands among them.
pub open spec fn subagent_models(list: Seq<ListedEntry>, current: Seq<char>) -> Seq<ListedEntry> {
    if current == "inherit"@ {
        list
    } else {
        with_model(list, current, "Current subagent model"@)
    }
}

pub open spec fn subagent_choices(list: Seq<ListedEntry>, current: Seq<char>) -> Seq<ItemModel> {
    let all = subagent_models(list, current);
    seq![
        choice("Inherit"@, "Use the model of the conversation"@, subagent_action("inherit"@)),
    ] + Seq::new(
        all.len(),
        |i: int| choice(all[i].name, all[i].id, subagent_action(all[i].id)),
    ).push(
        choice(
            "Use another model ID…"@,
            "Enter a model not listed above"@,
            ActionModel::EditSetting {
                key: "subagent_model"@,
                initial: ""@,
                location: subagent_place(),
            },
        ),
    )
}

/// The choice of the model of the subagents.
#[verifier::opaque]
pub open spec fn subagent_menu(list: Seq<ListedEntry>, current: Seq<char>) -> PickerModel {
    PickerModel {
        title: "Default subagent model"@,
        hint: "↑/↓ move  Enter select  Esc cancel"@,
        items: subagent_choices(list, current),
        selected: if current == "inherit"@ {
            0
        } else {
            or_first(described(subagent_choices(list, current), current))
        },
        editing: None,
        parent: Some(back_to(SettingsCategory::Subagents, SettingsItem::SubagentModel)),
    }
}

fn list_subagent_models(list: &Vec<ListedModel>, current: &str, inherits: bool) -> (r: Vec<
    PickerItem,
>)
    requires
        inherits == (current@ == "inherit"@),
    ensures
        views(r@) == subagent_choices(views(list@), current@),
{
    let models = if inherits {
        crate::model::copy_all(list)
    } else {
        include_model(list, current, "Current subagent model")
    };
    let ghost all = subagent_choices(views(list@), current@);
    let mut items: Vec<PickerItem> = Vec::new();
    offer(
        &mut items,
        "Inherit",
        "Use the model of the conversation",
        PickerAction::ApplySetting {
            argument: cat2("subagent_model ", "inherit"),
            location: subagent_location(),
        },
    );
    let n: usize = models.len();
    let mut i: usize = 0;
    assert(views(models@).len() == n);
    assert(views(items@) =~= all.take(1));
    while i < n
        invariant
            i <= n,
            n == models@.len(),
            views(models@) == subagent_models(views(list@), current@),
            views(models@).len() == n,
            all == subagent_choices(views(list@), current@),
            views(items@) == all.take(i + 1),
        decreases n - i,
    {
        assert(views(models@)[i as int] == models@[i as int]@);
        let argument = cat2("subagent_model ", models[i].id.as_str());
        offer(
            &mut items,
            models[i].name.as_str(),
            models[i].id.as_str(),
            PickerAction::ApplySetting { argument, location: subagent_location() },
        );
        i += 1;
        assert(views(items@) =~= all.take(i + 1));
    }
    offer(
        &mut items,
        "Use another model ID…",
        "Enter a model not listed above",
        PickerAction::EditSetting {
            key: "subagent_model".to_owned(),
            initial: "".to_owned(),
            location: subagent_location(),
        },
    );
    assert(views(items@) =~= all);
    items
}

/// The choice of the model of the subagents; see `subagent_menu`.
pub fn subagent_model_picker(list: &Vec<ListedModel>, current: &str) -> (r: Picker)
    ensures
        r@ == subagent_menu(views(list@), current@),
{
    proof {
        reveal(subagent_menu);
    }
    let inherits = is(&chars_of(current), "inherit");
    let items = list_subagent_models(list, current, inherits);
    let selected: usize = if inherits {
        0
    } else {
        match find_described(&items, current) {
            Some(i) => i,
            None => 0,
        }
    };
    Picker {
        title: "Default subagent model".to_owned(),
        hint: "↑/↓ move  Enter select  Esc cancel".to_owned(),
        items,
        selected,
        editing: None,
        parent: Some(go_back_to(SettingsCategory::Subagents, SettingsItem::SubagentModel)),
    }
}

pub fn refreshed_subagent_model_picker(list: &Vec<ListedModel>, current: &str, before: &Picker) -> (r:
    Picker)
    ensures
        r@ == refreshed(subagent_menu(views(list@), current@), before@),
{
    proof {
        reveal(subagent_menu);
    }
    keep_selection(subagent_model_picker(list, current), before)
}

// ---------------------------------------------------------------------------
// Reasoning levels

/// What `char::to_uppercase` makes of a character.
pub uninterp spec fn uppercase(c: char) -> Seq<char>;

/// `char::to_uppercase`: a function of the character alone.
#[verifier::external_body]
fn to_uppercase(c: char) -> (r: String)
    ensures
        r@ == uppercase(c),
{
    c.to_uppercase().collect()
}

/// A level with its first letter in upper case.
pub open spec fn effort_title(effort: Seq<char>) -> Seq<char> {
    if effort.len() == 0 {
        effort
    } else {
        uppercase(effort[0]) + effort.skip(1)
    }
}

pub fn title_case_effort(effort: &str) -> (r: String)
    ensures
        r@ == effort_title(effort@),
{
    let chars = chars_of(effort);
    let n: usize = chars.len();
    if n == 0 {
        return effort.to_owned();
    }
    let first = to_uppercase(chars[0]);
    let rest = string_of(&sub_chars(&chars, 1, n));
    assert(rest@ =~= effort@.skip(1));
    cat2(first.as_str(), rest.as_str())
}

pub open spec fn effort_summary(effort: Seq<char>) -> Seq<char> {
    if effort == "minimal"@ {
        "Fastest, least deliberation"@
    } else if effort == "low"@ {
        "Fast with light deliberation"@
    } else if effort == "medium"@ {
        "Balanced speed and depth"@
    } else if effort == "high"@ {
        "More thorough reasoning"@
    } else if effort == "xhigh"@ {
        "Very thorough reasoning"@
    } else if effort == "max"@ {
        "Maximum available reasoning"@
    } else {
        ""@
    }
}

pub fn reasoning_description(effort: &str) -> (r: &'static str)
    ensures
        r@ == effort_summary(effort@),
{
    let chars = chars_of(effort);
    if is(&chars, "minimal") {
        "Fastest, least deliberation"
    } else if is(&chars, "low") {
        "Fast with light deliberation"
    } else if is(&chars, "medium") {
        "Balanced speed and depth"
    } else if is(&chars, "high") {
        "More thorough reasoning"
    } else if is(&chars, "xhigh") {
        "Very thorough reasoning"
    } else if is(&chars, "max") {
        "Maximum available reasoning"
    } else {
        ""
    }
}

/// The choices of a menu of levels.
pub open spec fn reasoning_choices(efforts: Seq<Seq<char>>, save: bool) -> Seq<ItemModel> {
    seq![
        choice(
            "Provider default"@,
            "Do not request a specific effort"@,
            ActionModel::SetReasoning { effort: None, save },
        ),
    ] + Seq::new(
        efforts.len(),
        |i: int|
            choice(
                effort_title(efforts[i]),
                effort_summary(efforts[i]),
                ActionModel::SetReasoning { effort: Some(efforts[i]), save },
            ),
    )
}

pub open spec fn is_text(text: Seq<char>) -> spec_fn(Seq<char>) -> bool {
    |t: Seq<char>| t == text
}

/// The row of the level in use; that of the default of the provider where none
/// is, or where the model does not offer it.
pub open spec fn reasoning_row(efforts: Seq<Seq<char>>, current: Option<Seq<char>>) -> usize {
    match current {
        None => 0,
        Some(effort) => match first_position(efforts, is_text(effort)) {
            Some(i) => (i + 1) as usize,
            None => 0,
        },
    }
}

#[verifier::opaque]
pub open spec fn reasoning_menu(
    efforts: Seq<Seq<char>>,
    config: ConfigModel,
    model: Seq<char>,
    save: bool,
) -> PickerModel {
    PickerModel {
        title: "Reasoning · "@ + model,
        hint: "↑/↓ move  Enter select  Esc cancel"@,
        items: reasoning_choices(efforts, save),
        selected: reasoning_row(efforts, config.reasoning_effort),
        editing: None,
        parent: if save {
            Some(back_to(SettingsCategory::Model, SettingsItem::ReasoningEffort))
        } else {
            None
        },
    }
}

fn find_effort(efforts: &Vec<String>, current: &Option<String>) -> (r: usize)
    ensures
        r == reasoning_row(views(efforts@), option_view(*current)),
{
    let wanted = match current {
        None => return 0,
        Some(wanted) => wanted,
    };
    let ghost all = views(efforts@);
    let ghost test = is_text(wanted@);
    let mut i: usize = 0;
    while i < efforts.len()
        invariant
            i <= efforts@.len(),
            all == views(efforts@),
            option_view(*current) == Some(wanted@),
            test == is_text(wanted@),
            forall|k: int| 0 <= k < i ==> !test(#[trigger] all[k]),
        decreases efforts@.len() - i,
    {
        assert(all[i as int] == efforts@[i as int]@);
        if same(efforts[i].as_str(), wanted.as_str()) {
            proof {
                first_position_is(all, test, i as int);
            }
            return i + 1;
        }
        i += 1;
    }
    proof {
        no_first_position(all, test);
    }
    0
}

/// A menu of the levels that a model offers; see `reasoning_menu`. `model` is
/// the name of the model without its provider.
pub fn reasoning_picker(efforts: &Vec<String>, config: &Config, model: &str, save: bool) -> (r:
    Picker)
    ensures
        r@ == reasoning_menu(views(efforts@), config@, model@, save),
{
    proof {
        reveal(reasoning_menu);
    }
    let ghost all = reasoning_choices(views(efforts@), save);
    let mut items: Vec<PickerItem> = Vec::new();
    offer(
        &mut items,
        "Provider default",
        "Do not request a specific effort",
        PickerAction::SetReasoning { effort: None, save },
    );
    let n: usize = efforts.len();
    let mut i: usize = 0;
    assert(views(items@) =~= all.take(1));
    while i < n
        invariant
            i <= n,
            n == efforts@.len(),
            all == reasoning_choices(views(efforts@), save),
            views(items@) == all.take(i + 1),
        decreases n - i,
    {
        let effort = efforts[i].as_str();
        assert(views(efforts@)[i as int] == effort@);
        offer(
            &mut items,
            title_case_effort(effort).as_str(),
            reasoning_description(effort),
            PickerAction::SetReasoning { effort: Some(effort.to_owned()), save },
        );
        i += 1;
        assert(views(items@) =~= all.take(i + 1));
    }
    assert(views(items@) =~= all);
    let parent = if save {
        Some(go_back_to(SettingsCategory::Model, SettingsItem::ReasoningEffort))
    } else {
        None
    };
    Picker {
        title: cat2("Reasoning · ", model),
        hint: "↑/↓ move  Enter select  Esc cancel".to_owned(),
        items,
        selected: find_effort(efforts, &config.reasoning_effort),
        editing: None,
        parent,
    }
}

// ---------------------------------------------------------------------------
// Laws

/// The entry by hand stays selected when the list is loaded again.
pub proof fn manual_entry_stays_selected(
    list: Seq<ListedEntry>,
    config: ConfigModel,
    model: Seq<char>,
    save: bool,
    before: PickerModel,
)
    requires
        before.items.len() > 0,
        before.selected == before.items.len() - 1,
        model_menu(list, config, model, save).items.len() <= usize::MAX,
    ensures
        refreshed(model_menu(list, config, model, save), before).chosen() == Some(
            ActionModel::EditModel { save, initial: ""@ },
        ),
{
    reveal(model_menu);
}

proof fn put_lists(list: Seq<ListedEntry>, model: ListedEntry, id: Seq<char>)
    requires
        lists(list, id) || model.id == id,
    ensures
        lists(put_named::<ListedModel>(list, model), id),
    decreases list.len(),
{
    let now = put_named::<ListedModel>(list, model);
    if list.len() == 0 || alphabetical(list.last().id, model.id) {
        if model.id == id {
            assert(now[list.len() as int].id == id);
        } else {
            let i = choose|i: int| 0 <= i < list.len() && (#[trigger] list[i]).id == id;
            assert(now[i].id == id);
        }
    } else {
        let before = list.drop_last();
        let head = put_named::<ListedModel>(before, model);
        if model.id != id {
            let i = choose|i: int| 0 <= i < list.len() && (#[trigger] list[i]).id == id;
            if i == list.len() - 1 {
                assert(now.last().id == id);
                assert(now[now.len() - 1].id == id);
            } else {
                assert(before[i].id == id);
            }
        }
        if model.id == id || lists(before, id) {
            put_lists(before, model, id);
            let k = choose|k: int| 0 <= k < head.len() && (#[trigger] head[k]).id == id;
            assert(now[k].id == id);
        }
    }
}

proof fn arranged_lists(list: Seq<ListedEntry>, id: Seq<char>)
    requires
        lists(list, id),
    ensures
        lists(arranged::<ListedModel>(list), id),
    decreases list.len(),
{
    let i = choose|i: int| 0 <= i < list.len() && (#[trigger] list[i]).id == id;
    if i < list.len() - 1 {
        assert(list.drop_last()[i].id == id);
        arranged_lists(list.drop_last(), id);
    }
    put_lists(arranged::<ListedModel>(list.drop_last()), list.last(), id);
}

/// The model in use is always offered, whether it is listed or not.
pub proof fn model_in_use_is_offered(
    list: Seq<ListedEntry>,
    config: ConfigModel,
    model: Seq<char>,
    save: bool,
)
    ensures
        ({
            let menu = model_menu(list, config, model, save);
            let in_use = model_in_use(config, model, save);
            exists|i: int|
                0 <= i < menu.items.len() && (#[trigger] menu.items[i]).action == model_action(
                    in_use,
                    save,
                )
        }),
{
    reveal(model_menu);
    let in_use = model_in_use(config, model, save);
    let name = if save {
        "Current default"@
    } else {
        "Current model"@
    };
    let all = with_model(list, in_use, name);
    if !lists(list, in_use) {
        let longer = list.push(ListedEntry { id: in_use, name });
        assert(longer[list.len() as int].id == in_use);
        arranged_lists(longer, in_use);
    }
    assert(lists(all, in_use));
    let i = choose|i: int| 0 <= i < all.len() && (#[trigger] all[i]).id == in_use;
    let menu = model_menu(list, config, model, save);
    assert(menu.items[i].action == model_action(in_use, save));
}

/// A model that the account lists is never offered for removal, and every
/// other one only where the settings name it.
pub proof fn account_models_are_kept(
    configured: Seq<Seq<char>>,
    model: Seq<char>,
    save: bool,
    selected: usize,
)
    ensures
        removal_question(configured, model, save, selected) is Ok <==> !is_codex_model(model)
            && configured.contains(model),
{
    reveal(removal_question);
}

/// Every known level of reasoning is described; another has no description.
pub proof fn levels_are_described(effort: Seq<char>)
    ensures
        effort_summary("minimal"@) == "Fastest, least deliberation"@,
        effort_summary("low"@) == "Fast with light deliberation"@,
        effort_summary("medium"@) == "Balanced speed and depth"@,
        effort_summary("high"@) == "More thorough reasoning"@,
        effort_summary("xhigh"@) == "Very thorough reasoning"@,
        effort_summary("max"@) == "Maximum available reasoning"@,
        effort != "minimal"@ && effort != "low"@ && effort != "medium"@ && effort != "high"@
            && effort != "xhigh"@ && effort != "max"@ ==> effort_summary(effort) == ""@,
        effort.len() > 0 ==> effort_title(effort) == uppercase(effort[0]) + effort.skip(1),
{
    reveal_strlit("minimal");
    reveal_strlit("low");
    reveal_strlit("medium");
    reveal_strlit("high");
    reveal_strlit("xhigh");
    reveal_strlit("max");
    assert("minimal"@.len() == 7 && "medium"@.len() == 6 && "high"@.len() == 4);
    assert("xhigh"@.len() == 5 && "low"@.len() == 3 && "max"@.len() == 3);
    assert("low"@[0] == 'l' && "max"@[0] == 'm');
}

} // verus!
