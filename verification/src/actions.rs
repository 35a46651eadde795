//! What a choice in a menu leads to.

use vstd::prelude::*;
use crate::bar_editor::{bar_handled, handle_editor_action};
use crate::config::{StatusBarConfig, WebSearchProvider};
use crate::connection::{ConnectWork, WorkModel};
use crate::facts::{facts_model, Facts, FactsModel};
use crate::model::{copy_all, copy_option, option_view};
use crate::picker::PickerModel;
use crate::picker::action::{
    ActionModel, ConnectionPlan, PickerAction, PlanModel, SettingsCategory, SettingsItem,
    SettingsLocation,
};
use crate::picker::models::{
    model_menu, model_picker, reasoning_menu, reasoning_picker, removal_question,
    remove_model_confirm, subagent_menu, subagent_model_picker,
};
use crate::picker::settings::{
    accent_menu, category_menu, color_picker, item_index, root_menu, search_menu,
    selection_color_picker, selection_menu, settings_category_picker_from, settings_item_index,
    settings_picker, web_search_provider_picker,
};
use crate::queue::{handle_queue_picker_action, promote_queued, queue_handled, queue_promoted};
use crate::settings::{setting_change, settings, ChangeModel, ConfigChange};
use crate::state::{
    connect_opened, connection_handled, handle_connection, item_selected, open_connection,
    select_picker_item, state_model, ColorPreview, StateModel, ViewState,
};
use crate::style::UiColor;
use crate::summary::{settings_text, show_settings};
use crate::text::cat2;

verus! {

broadcast use vstd::string::group_string_axioms;

/// What follows a change of the settings.
#[derive(Debug, Clone, Copy, PartialEq, Eq, Structural)]
pub enum After {
    Stay,
    /// Show the setting again.
    Location(SettingsLocation),
    /// Choose the effort of a Codex model, or show the default model again.
    DefaultModel,
    /// Leave the editor of the status bar, or go back to it.
    StatusBar,
}

/// What the agent is asked to do.
#[derive(Debug)]
pub enum Request {
    Nothing,
    SwitchModel(String),
    /// Change the settings and go on from there.
    Change { change: ConfigChange, after: After },
    /// Ask the model for an effort, or for none.
    SetEffort(Option<String>),
    LoadSession(String),
    DeleteSession { id: String, selected: usize },
    ListSessions { selected: usize },
    /// Save a connection.
    SavePlan(ConnectionPlan),
    /// Remove a model from the settings of its provider.
    RemoveModel { model: String, save: bool, selected: usize },
}

pub enum RequestModel {
    Nothing,
    SwitchModel(Seq<char>),
    Change { change: ChangeModel, after: After },
    SetEffort(Option<Seq<char>>),
    LoadSession(Seq<char>),
    DeleteSession { id: Seq<char>, selected: usize },
    ListSessions { selected: usize },
    SavePlan(PlanModel),
    RemoveModel { model: Seq<char>, save: bool, selected: usize },
}

impl View for Request {
    type V = RequestModel;

    open spec fn view(&self) -> RequestModel {
        match self {
            Request::Nothing => RequestModel::Nothing,
            Request::SwitchModel(a) => RequestModel::SwitchModel(a@),
            Request::Change { change, after } => RequestModel::Change { change: change@, after: *after },
            Request::SetEffort(a) => RequestModel::SetEffort(option_view(*a)),
            Request::LoadSession(a) => RequestModel::LoadSession(a@),
            Request::DeleteSession { id, selected } => RequestModel::DeleteSession { id: id@, selected: *selected },
            Request::ListSessions { selected } => RequestModel::ListSessions { selected: *selected },
            Request::SavePlan(a) => RequestModel::SavePlan(a@),
            Request::RemoveModel { model, save, selected } => RequestModel::RemoveModel { model: model@, save: *save, selected: *selected },
        }
    }
}

// ---------------------------------------------------------------------------
// Menus

/// The page of a setting, with the setting selected.
#[verifier::opaque]
pub open spec fn location_menu(f: FactsModel, location: SettingsLocation) -> PickerModel {
    category_menu(
        f.config,
        f.model,
        f.codex,
        f.context_window,
        f.catalog,
        location.category,
        item_index(location.category, location.item),
    )
}

/// Shows a setting on its page.
pub fn open_settings_location(state: &mut ViewState, facts: &Facts, location: SettingsLocation)
    ensures
        final(state)@ == old(state)@.with_picker(Some(location_menu(facts@, location))),
{
    proof {
        reveal(facts_model);
        reveal(location_menu);
    }
    state.set_picker(Some(
        settings_category_picker_from(
            &facts.config,
            facts.model.as_str(),
            facts.codex,
            facts.context_window,
            &facts.catalog,
            location.category,
            settings_item_index(location.category, location.item),
        ),
    ));
}

pub open spec fn on_interface(item: SettingsItem) -> SettingsLocation {
    SettingsLocation { category: SettingsCategory::Interface, item }
}

pub fn interface_location(item: SettingsItem) -> (r: SettingsLocation)
    ensures
        r == on_interface(item),
{
    SettingsLocation { category: SettingsCategory::Interface, item }
}

/// Colors begin to be tried.
pub open spec fn preview_begun(s: StateModel, selection: Option<UiColor>) -> StateModel {
    StateModel {
        color_preview: Some(
            ColorPreview {
                accent: s.accent_color,
                selection: s.selection_color,
                follows: selection is None,
            },
        ),
        ..s
    }
}

/// The state with the menu of models or efforts that an action opens.
#[verifier::opaque]
pub open spec fn models_opened(s: StateModel, f: FactsModel, action: ActionModel) -> Option<StateModel> {
    match action {
        ActionModel::OpenModels { save } => Some(
            s.with_picker(Some(model_menu(f.models, f.config, f.model, save))),
        ),
        ActionModel::OpenModelsAt { save, selected } => Some(
            item_selected(
                s.with_picker(Some(model_menu(f.models, f.config, f.model, save))),
                selected,
            ),
        ),
        ActionModel::ConfirmRemoveModel { model, save, selected } => Some(
            match removal_question(f.configured, model, save, selected) {
                Ok(menu) => s.with_picker(Some(menu)),
                Err(error) => s.noted(error),
            },
        ),
        ActionModel::OpenReasoning { save } => Some(
            s.with_picker(Some(reasoning_menu(f.efforts, f.config, f.reasoning_model, save))),
        ),
        ActionModel::OpenSubagentModels => Some(
            s.with_picker(Some(subagent_menu(f.models, f.config.subagent_model))),
        ),
        _ => None,
    }
}

/// The state with the menu of settings that an action opens.
#[verifier::opaque]
pub open spec fn settings_opened(s: StateModel, f: FactsModel, action: ActionModel) -> Option<
    StateModel,
> {
    match action {
        ActionModel::OpenAccentColor => Some(
            preview_begun(
                s.with_picker(Some(accent_menu(f.config.accent_color))),
                f.config.selection_color,
            ),
        ),
        ActionModel::OpenSelectionColor => Some(
            preview_begun(
                s.with_picker(Some(selection_menu(f.config.selection_color))),
                f.config.selection_color,
            ),
        ),
        ActionModel::OpenWebSearchProviders => Some(
            s.with_picker(Some(search_menu(f.config.web_search_provider))),
        ),
        ActionModel::OpenSettingsRoot { selected } => Some(
            item_selected(s.with_picker(Some(root_menu())), selected),
        ),
        ActionModel::OpenSettingsCategory { category, selected } => Some(
            s.with_picker(
                Some(
                    category_menu(
                        f.config,
                        f.model,
                        f.codex,
                        f.context_window,
                        f.catalog,
                        category,
                        selected,
                    ),
                ),
            ),
        ),
        _ => None,
    }
}

/// The state with the menu that an action opens, where it opens one.
#[verifier::opaque]
pub open spec fn opened(s: StateModel, f: FactsModel, action: ActionModel) -> Option<StateModel> {
    match models_opened(s, f, action) {
        Some(now) => Some(now),
        None => settings_opened(s, f, action),
    }
}

fn open_models(state: &mut ViewState, facts: &Facts, action: &PickerAction) -> (r: bool)
    ensures
        match models_opened(old(state)@, facts@, action@) {
            Some(now) => r && final(state)@ == now,
            None => !r && final(state)@ == old(state)@,
        },
{
    proof {
        reveal(facts_model);
        reveal(models_opened);
    }
    match action {
        PickerAction::OpenModels { save } => {
            state.set_picker(Some(
                model_picker(&facts.models, &facts.config, facts.model.as_str(), *save),
            ));
            true
        },
        PickerAction::OpenModelsAt { save, selected } => {
            state.set_picker(Some(
                model_picker(&facts.models, &facts.config, facts.model.as_str(), *save),
            ));
            select_picker_item(state, *selected);
            true
        },
        PickerAction::ConfirmRemoveModel { model, save, selected } => {
            match remove_model_confirm(&facts.configured, model.as_str(), *save, *selected) {
                Ok(picker) => state.set_picker(Some(picker)),
                Err(error) => state.notice(error.as_str()),
            }
            true
        },
        PickerAction::OpenReasoning { save } => {
            state.set_picker(Some(
                reasoning_picker(
                    &facts.efforts,
                    &facts.config,
                    facts.reasoning_model.as_str(),
                    *save,
                ),
            ));
            true
        },
        PickerAction::OpenSubagentModels => {
            state.set_picker(Some(
                subagent_model_picker(&facts.models, facts.config.subagent_model.as_str()),
            ));
            true
        },
        _ => false,
    }
}

fn open_settings(state: &mut ViewState, facts: &Facts, action: &PickerAction) -> (r: bool)
    ensures
        match settings_opened(old(state)@, facts@, action@) {
            Some(now) => r && final(state)@ == now,
            None => !r && final(state)@ == old(state)@,
        },
{
    proof {
        reveal(facts_model);
        reveal(settings_opened);
    }
    match action {
        PickerAction::OpenAccentColor => {
            state.set_picker(Some(color_picker(facts.config.accent_color)));
            state.begin_color_preview(facts.config.selection_color);
            true
        },
        PickerAction::OpenSelectionColor => {
            state.set_picker(Some(selection_color_picker(facts.config.selection_color)));
            state.begin_color_preview(facts.config.selection_color);
            true
        },
        PickerAction::OpenWebSearchProviders => {
            state.set_picker(Some(web_search_provider_picker(facts.config.web_search_provider)));
            true
        },
        PickerAction::OpenSettingsRoot { selected } => {
            state.set_picker(Some(settings_picker()));
            select_picker_item(state, *selected);
            true
        },
        PickerAction::OpenSettingsCategory { category, selected } => {
            state.set_picker(Some(
                settings_category_picker_from(
                    &facts.config,
                    facts.model.as_str(),
                    facts.codex,
                    facts.context_window,
                    &facts.catalog,
                    *category,
                    *selected,
                ),
            ));
            true
        },
        _ => false,
    }
}

fn open_menu(state: &mut ViewState, facts: &Facts, action: &PickerAction) -> (r: bool)
    ensures
        match opened(old(state)@, facts@, action@) {
            Some(now) => r && final(state)@ == now,
            None => !r && final(state)@ == old(state)@,
        },
{
    proof {
        reveal(opened);
    }
    open_models(state, facts, action) || open_settings(state, facts, action)
}

// ---------------------------------------------------------------------------
// Changes of the settings

/// The change that an action stands for, and the setting that is shown after
/// it.
#[verifier::opaque]
pub open spec fn plain_change(action: ActionModel) -> Option<(ChangeModel, SettingsLocation)> {
    match action {
        ActionModel::SetHideReasoning(enabled) => Some(
            (ChangeModel::HideReasoning(enabled), on_interface(SettingsItem::ReasoningDisplay)),
        ),
        ActionModel::SetAccentColor(color) => Some(
            (ChangeModel::AccentColor(color), on_interface(SettingsItem::AccentColor)),
        ),
        ActionModel::SetSelectionColor(color) => Some(
            (ChangeModel::SelectionColor(color), on_interface(SettingsItem::SelectionColor)),
        ),
        ActionModel::SetScrollBar(enabled) => Some(
            (ChangeModel::ScrollBar(enabled), on_interface(SettingsItem::ScrollBar)),
        ),
        ActionModel::SetScrollBarAutoHide(enabled) => Some(
            (
                ChangeModel::ScrollBarAutoHide(enabled),
                on_interface(SettingsItem::ScrollBarAutoHide),
            ),
        ),
        ActionModel::SetBell(enabled) => Some(
            (ChangeModel::Bell(enabled), on_interface(SettingsItem::Bell)),
        ),
        ActionModel::SetAutoCompact(enabled) => Some(
            (
                ChangeModel::AutoCompact(enabled),
                SettingsLocation {
                    category: SettingsCategory::Context,
                    item: SettingsItem::AutoCompact,
                },
            ),
        ),
        ActionModel::SetWebBrowsing(enabled) => Some(
            (
                ChangeModel::WebBrowsing(enabled),
                SettingsLocation {
                    category: SettingsCategory::Web,
                    item: SettingsItem::WebBrowsingEnabled,
                },
            ),
        ),
        ActionModel::SetWebSearchProvider(provider) => Some(
            (
                ChangeModel::WebSearchProvider(provider),
                SettingsLocation {
                    category: SettingsCategory::Web,
                    item: SettingsItem::WebSearchProvider,
                },
            ),
        ),
        ActionModel::SetSubagents(enabled) => Some(
            (
                ChangeModel::Subagents(enabled),
                SettingsLocation {
                    category: SettingsCategory::Subagents,
                    item: SettingsItem::SubagentsEnabled,
                },
            ),
        ),
        ActionModel::Reload => Some(
            (
                ChangeModel::Reload,
                SettingsLocation {
                    category: SettingsCategory::Advanced,
                    item: SettingsItem::Reload,
                },
            ),
        ),
        _ => None,
    }
}

fn change_of(action: &PickerAction) -> (r: Option<(ConfigChange, SettingsLocation)>)
    ensures
        match r {
            Some(pair) => plain_change(action@) == Some((pair.0@, pair.1)),
            None => plain_change(action@) is None,
        },
{
    proof {
        reveal(plain_change);
    }
    match action {
        PickerAction::SetHideReasoning(enabled) => Some(
            (
                ConfigChange::HideReasoning(*enabled),
                interface_location(SettingsItem::ReasoningDisplay),
            ),
        ),
        PickerAction::SetAccentColor(color) => Some(
            (ConfigChange::AccentColor(*color), interface_location(SettingsItem::AccentColor)),
        ),
        PickerAction::SetSelectionColor(color) => Some(
            (
                ConfigChange::SelectionColor(*color),
                interface_location(SettingsItem::SelectionColor),
            ),
        ),
        PickerAction::SetScrollBar(enabled) => Some(
            (ConfigChange::ScrollBar(*enabled), interface_location(SettingsItem::ScrollBar)),
        ),
        PickerAction::SetScrollBarAutoHide(enabled) => Some(
            (
                ConfigChange::ScrollBarAutoHide(*enabled),
                interface_location(SettingsItem::ScrollBarAutoHide),
            ),
        ),
        PickerAction::SetBell(enabled) => Some(
            (ConfigChange::Bell(*enabled), interface_location(SettingsItem::Bell)),
        ),
        PickerAction::SetAutoCompact(enabled) => Some(
            (
                ConfigChange::AutoCompact(*enabled),
                SettingsLocation {
                    category: SettingsCategory::Context,
                    item: SettingsItem::AutoCompact,
                },
            ),
        ),
        PickerAction::SetWebBrowsing(enabled) => Some(
            (
                ConfigChange::WebBrowsing(*enabled),
                SettingsLocation {
                    category: SettingsCategory::Web,
                    item: SettingsItem::WebBrowsingEnabled,
                },
            ),
        ),
        PickerAction::SetWebSearchProvider(provider) => Some(
            (
                ConfigChange::WebSearchProvider(*provider),
                SettingsLocation {
                    category: SettingsCategory::Web,
                    item: SettingsItem::WebSearchProvider,
                },
            ),
        ),
        PickerAction::SetSubagents(enabled) => Some(
            (
                ConfigChange::Subagents(*enabled),
                SettingsLocation {
                    category: SettingsCategory::Subagents,
                    item: SettingsItem::SubagentsEnabled,
                },
            ),
        ),
        PickerAction::Reload => Some(
            (
                ConfigChange::Reload,
                SettingsLocation {
                    category: SettingsCategory::Advanced,
                    item: SettingsItem::Reload,
                },
            ),
        ),
        _ => None,
    }
}

/// A change that is written out like an argument of the command. One that
/// cannot be read is refused with a word on why; where nothing is written the
/// settings are shown.
#[verifier::opaque]
pub open spec fn setting_asked(
    s: StateModel,
    f: FactsModel,
    argument: Seq<char>,
    after: After,
) -> (StateModel, RequestModel) {
    match setting_change(argument, f.model) {
        Ok(Some(change)) => (s, RequestModel::Change { change, after }),
        Ok(None) => (s.noted(settings_text(f)), RequestModel::Nothing),
        Err(error) => (
            s.noted("Could not change setting: "@ + error),
            RequestModel::Nothing,
        ),
    }
}

/// Reads a change of the settings; see `setting_asked`.
pub fn ask_setting(state: &mut ViewState, facts: &Facts, argument: &str, after: After) -> (r: Request)
    ensures
        (final(state)@, r@) == setting_asked(old(state)@, facts@, argument@, after),
{
    proof {
        reveal(facts_model);
        reveal(setting_asked);
    }
    match settings(argument, facts.model.as_str()) {
        Ok(Some(change)) => Request::Change { change, after },
        Ok(None) => {
            state.notice(show_settings(facts).as_str());
            Request::Nothing
        },
        Err(error) => {
            state.notice(cat2("Could not change setting: ", error.as_str()).as_str());
            Request::Nothing
        },
    }
}

pub open spec fn effort_word(effort: Option<Seq<char>>) -> Seq<char> {
    match effort {
        Some(effort) => effort,
        None => "default"@,
    }
}

pub open spec fn picker_row(s: StateModel) -> usize {
    match s.picker {
        Some(picker) => picker.selected,
        None => 0,
    }
}

fn row_of(state: &ViewState) -> (r: usize)
    ensures
        r == picker_row(state@),
{
    proof {
        reveal(state_model);
    }
    match &state.picker {
        Some(picker) => picker.selected,
        None => 0,
    }
}

fn implement_plan(state: &mut ViewState)
    ensures
        final(state)@ == (StateModel { pending_plan_implementation: true, ..old(state)@ }),
{
    proof {
        reveal(state_model);
    }
    state.pending_plan_implementation = true;
}

/// The page of the status bar, without a draft.
pub open spec fn bar_left(s: StateModel, f: FactsModel) -> StateModel {
    StateModel { status_bar_draft: None, ..s }.with_picker(
        Some(location_menu(f, on_interface(SettingsItem::StatusBar))),
    )
}

fn drop_draft(state: &mut ViewState)
    ensures
        final(state)@ == (StateModel { status_bar_draft: None, ..old(state)@ }),
{
    proof {
        reveal(state_model);
    }
    state.status_bar_draft = None;
}

fn cancel_bar_editor(state: &mut ViewState, facts: &Facts)
    ensures
        final(state)@ == bar_left(old(state)@, facts@),
{
    drop_draft(state);
    open_settings_location(state, facts, interface_location(SettingsItem::StatusBar));
}

/// The draft is to be saved, where there is one.
pub open spec fn bar_saved(s: StateModel, f: FactsModel) -> (StateModel, RequestModel) {
    match s.status_bar_draft {
        Some(layout) => (
            s,
            RequestModel::Change {
                change: ChangeModel::StatusBar(layout),
                after: After::StatusBar,
            },
        ),
        None => (
            s.with_picker(Some(location_menu(f, on_interface(SettingsItem::StatusBar)))),
            RequestModel::Nothing,
        ),
    }
}

fn copy_draft(state: &ViewState) -> (r: Option<StatusBarConfig>)
    ensures
        option_view(r) == state@.status_bar_draft,
{
    proof {
        reveal(state_model);
    }
    copy_option(&state.status_bar_draft)
}

fn save_bar(state: &mut ViewState, facts: &Facts) -> (r: Request)
    ensures
        (final(state)@, r@) == bar_saved(old(state)@, facts@),
{
    match copy_draft(state) {
        Some(layout) => Request::Change {
            change: ConfigChange::StatusBar(layout),
            after: After::StatusBar,
        },
        None => {
            open_settings_location(state, facts, interface_location(SettingsItem::StatusBar));
            Request::Nothing
        },
    }
}

/// What the agent is asked to do at once.
#[verifier::opaque]
pub open spec fn handed_on(action: ActionModel) -> Option<RequestModel> {
    match action {
        ActionModel::SwitchModel(model) => Some(RequestModel::SwitchModel(model)),
        ActionModel::ResumeSession(id) => Some(RequestModel::LoadSession(id)),
        ActionModel::OpenResume { selected } => Some(RequestModel::ListSessions { selected }),
        ActionModel::ApplyConnectionPlan(plan) => Some(RequestModel::SavePlan(plan)),
        ActionModel::RemoveModel { model, save, selected } => Some(
            RequestModel::RemoveModel { model, save, selected },
        ),
        _ => None,
    }
}

fn hand_on(action: PickerAction) -> (r: Result<Request, PickerAction>)
    ensures
        match r {
            Ok(request) => handed_on(action@) == Some(request@),
            Err(other) => handed_on(action@) is None && other@ == action@,
        },
{
    proof {
        reveal(handed_on);
    }
    match action {
        PickerAction::SwitchModel(model) => Ok(Request::SwitchModel(model)),
        PickerAction::ResumeSession(id) => Ok(Request::LoadSession(id)),
        PickerAction::OpenResume { selected } => Ok(Request::ListSessions { selected }),
        PickerAction::ApplyConnectionPlan(plan) => Ok(Request::SavePlan(plan)),
        PickerAction::RemoveModel { model, save, selected } => Ok(
            Request::RemoveModel { model, save, selected },
        ),
        action => Err(action),
    }
}

/// The state after an action that opens no menu and is no plain change, and
/// what the agent is asked to do.
#[verifier::opaque]
pub open spec fn requested(s: StateModel, f: FactsModel, action: ActionModel) -> (
    StateModel,
    RequestModel,
) {
    match action {
        ActionModel::SaveModel(model) => setting_asked(
            s,
            f,
            "model "@ + model,
            After::DefaultModel,
        ),
        ActionModel::SetReasoning { effort, save } => if save {
            setting_asked(
                s,
                f,
                "reasoning_effort "@ + effort_word(effort),
                After::Location(
                    SettingsLocation {
                        category: SettingsCategory::Model,
                        item: SettingsItem::ReasoningEffort,
                    },
                ),
            )
        } else {
            (s, RequestModel::SetEffort(effort))
        },
        ActionModel::CancelStatusBarEditor => (bar_left(s, f), RequestModel::Nothing),
        ActionModel::SaveStatusBar => bar_saved(s, f),
        ActionModel::DeleteSession(id) => (
            s,
            RequestModel::DeleteSession { id, selected: picker_row(s) },
        ),
        ActionModel::ApplySetting { argument, location } => setting_asked(
            s,
            f,
            argument,
            match location {
                Some(location) => After::Location(location),
                None => After::Stay,
            },
        ),
        ActionModel::ShowSettings => (s.noted(settings_text(f)), RequestModel::Nothing),
        ActionModel::ImplementPlan => (
            StateModel { pending_plan_implementation: true, ..s },
            RequestModel::Nothing,
        ),
        ActionModel::SendQueued(index) => (queue_promoted(s, index).0, RequestModel::Nothing),
        _ => (s, RequestModel::Nothing),
    }
}

#[verifier::rlimit(60)]
fn request(state: &mut ViewState, facts: &Facts, action: PickerAction) -> (r: Request)
    ensures
        (final(state)@, r@) == requested(old(state)@, facts@, action@),
{
    proof {
        reveal(requested);
    }
    match action {
        PickerAction::SaveModel(model) => {
            let argument = cat2("model ", model.as_str());
            ask_setting(state, facts, argument.as_str(), After::DefaultModel)
        },
        PickerAction::SetReasoning { effort, save } => {
            if !save {
                return Request::SetEffort(effort);
            }
            let word = match &effort {
                Some(effort) => effort.as_str(),
                None => "default",
            };
            let argument = cat2("reasoning_effort ", word);
            ask_setting(
                state,
                facts,
                argument.as_str(),
                After::Location(
                    SettingsLocation {
                        category: SettingsCategory::Model,
                        item: SettingsItem::ReasoningEffort,
                    },
                ),
            )
        },
        PickerAction::CancelStatusBarEditor => {
            cancel_bar_editor(state, facts);
            Request::Nothing
        },
        PickerAction::SaveStatusBar => save_bar(state, facts),
        PickerAction::DeleteSession(id) => {
            let selected: usize = row_of(state);
            Request::DeleteSession { id, selected }
        },
        PickerAction::ApplySetting { argument, location } => {
            let after = match location {
                Some(location) => After::Location(location),
                None => After::Stay,
            };
            ask_setting(state, facts, argument.as_str(), after)
        },
        PickerAction::ShowSettings => {
            state.notice(show_settings(facts).as_str());
            Request::Nothing
        },
        PickerAction::ImplementPlan => {
            implement_plan(state);
            Request::Nothing
        },
        PickerAction::SendQueued(index) => {
            let _promoted = promote_queued(state, index);
            Request::Nothing
        },
        _ => Request::Nothing,
    }
}

/// The state after an action that is neither one of the queue, nor of a setup,
/// nor of the editor of the status bar.
#[verifier::opaque]
pub open spec fn decided(s: StateModel, f: FactsModel, action: ActionModel) -> (
    StateModel,
    RequestModel,
) {
    match opened(s, f, action) {
        Some(now) => (now, RequestModel::Nothing),
        None => match plain_change(action) {
            Some(pair) => (
                s,
                RequestModel::Change { change: pair.0, after: After::Location(pair.1) },
            ),
            None => match handed_on(action) {
                Some(request) => (s, request),
                None => requested(s, f, action),
            },
        },
    }
}

fn decide(state: &mut ViewState, facts: &Facts, action: PickerAction) -> (r: Request)
    ensures
        (final(state)@, r@) == decided(old(state)@, facts@, action@),
{
    proof {
        reveal(decided);
    }
    if open_menu(state, facts, &action) {
        return Request::Nothing;
    }
    match change_of(&action) {
        Some((change, location)) => Request::Change { change, after: After::Location(location) },
        None => match hand_on(action) {
            Ok(request) => request,
            Err(action) => request(state, facts, action),
        },
    }
}

/// A state, what is to be done in the background, and what the agent is asked
/// to do.
pub struct Activated {
    pub state: StateModel,
    pub work: WorkModel,
    pub request: RequestModel,
}

/// The state after the parts of the interface that take an action on their own
/// have seen it.
pub open spec fn activated(s: StateModel, f: FactsModel, action: ActionModel) -> Activated {
    match queue_handled(s, action) {
        (now, None) => Activated {
            state: now,
            work: WorkModel::Nothing,
            request: RequestModel::Nothing,
        },
        (now, Some(action)) => match action {
            ActionModel::OpenConnect { from_settings } => Activated {
                state: connect_opened(now, f.catalog, from_settings),
                work: WorkModel::Nothing,
                request: RequestModel::Nothing,
            },
            _ => {
                let (now, work, left) = connection_handled(now, action, f.codex_models);
                match left {
                    None => Activated { state: now, work, request: RequestModel::Nothing },
                    Some(action) => match bar_handled(now, action) {
                        (now, None) => Activated {
                            state: now,
                            work,
                            request: RequestModel::Nothing,
                        },
                        (now, Some(action)) => {
                            let (now, request) = decided(now, f, action);
                            Activated { state: now, work, request }
                        },
                    },
                }
            },
        },
    }
}

/// Performs an action; see `activated`. What it takes from the agent is left
/// to be done.
pub fn activate_picker_action(state: &mut ViewState, facts: &Facts, action: PickerAction) -> (r: (
    ConnectWork,
    Request,
))
    ensures
        (Activated { state: final(state)@, work: r.0@, request: r.1@ }) == activated(
            old(state)@,
            facts@,
            action@,
        ),
{
    proof {
        reveal(facts_model);
    }
    let action = match handle_queue_picker_action(state, action) {
        None => return (ConnectWork::Nothing, Request::Nothing),
        Some(action) => action,
    };
    match &action {
        PickerAction::OpenConnect { from_settings } => {
            open_connection(state, copy_all(&facts.catalog), *from_settings);
            return (ConnectWork::Nothing, Request::Nothing);
        },
        _ => {},
    }
    let (work, left) = handle_connection(state, action, &facts.codex_models);
    let action = match left {
        None => return (work, Request::Nothing),
        Some(action) => action,
    };
    let action = match handle_editor_action(state, action) {
        None => return (work, Request::Nothing),
        Some(action) => action,
    };
    let request = decide(state, facts, action);
    (work, request)
}

// ---------------------------------------------------------------------------
// Laws

/// A choice of a color, a switch or a provider changes that setting alone, and
/// nothing is shown before the change is made.
pub proof fn plain_changes_wait(s: StateModel, f: FactsModel, action: ActionModel)
    requires
        plain_change(action) is Some,
    ensures
        decided(s, f, action).0 == s,
        match plain_change(action) {
            Some(pair) => decided(s, f, action).1 == (RequestModel::Change {
                change: pair.0,
                after: After::Location(pair.1),
            }),
            None => false,
        },
{
    reveal(opened);
    reveal(models_opened);
    reveal(settings_opened);
    reveal(plain_change);
    reveal(decided);
}

/// Discarding the layout of the status bar leaves the one in force.
pub proof fn discarding_keeps_the_layout(s: StateModel, f: FactsModel)
    ensures
        decided(s, f, ActionModel::CancelStatusBarEditor).0.layout() == s.status_bar,
        decided(s, f, ActionModel::CancelStatusBarEditor).1 == RequestModel::Nothing,
{
    reveal(opened);
    reveal(models_opened);
    reveal(settings_opened);
    reveal(plain_change);
    reveal(handed_on);
    reveal(requested);
    reveal(decided);
}

/// A session is resumed, deleted or listed by the agent alone: the state waits.
pub proof fn session_actions_wait(s: StateModel, f: FactsModel, id: Seq<char>, selected: usize)
    ensures
        decided(s, f, ActionModel::ResumeSession(id)) == (s, RequestModel::LoadSession(id)),
        decided(s, f, ActionModel::OpenResume { selected }) == (
            s,
            RequestModel::ListSessions { selected },
        ),
{
    reveal(opened);
    reveal(models_opened);
    reveal(settings_opened);
    reveal(plain_change);
    reveal(handed_on);
    reveal(requested);
    reveal(decided);
}

/// A choice in the settings asks for the change of that setting, to the value
/// that was chosen, and leads back to its line.
pub proof fn choices_change_their_setting(
    s: StateModel,
    f: FactsModel,
    on: bool,
    color: UiColor,
    selection: Option<UiColor>,
    provider: WebSearchProvider,
)
    ensures
        ({
            let asks = |action: ActionModel, change: ChangeModel|
                decided(s, f, action).0 == s && decided(s, f, action).1 is Change && decided(
                    s,
                    f,
                    action,
                ).1->Change_change == change;
            &&& asks(ActionModel::SetHideReasoning(on), ChangeModel::HideReasoning(on))
            &&& asks(ActionModel::SetAccentColor(color), ChangeModel::AccentColor(color))
            &&& asks(
                ActionModel::SetSelectionColor(selection),
                ChangeModel::SelectionColor(selection),
            )
            &&& asks(ActionModel::SetScrollBar(on), ChangeModel::ScrollBar(on))
            &&& asks(ActionModel::SetScrollBarAutoHide(on), ChangeModel::ScrollBarAutoHide(on))
            &&& asks(ActionModel::SetBell(on), ChangeModel::Bell(on))
            &&& asks(ActionModel::SetAutoCompact(on), ChangeModel::AutoCompact(on))
            &&& asks(ActionModel::SetWebBrowsing(on), ChangeModel::WebBrowsing(on))
            &&& asks(
                ActionModel::SetWebSearchProvider(provider),
                ChangeModel::WebSearchProvider(provider),
            )
            &&& asks(ActionModel::SetSubagents(on), ChangeModel::Subagents(on))
            &&& asks(ActionModel::Reload, ChangeModel::Reload)
        }),
{
    reveal(decided);
    reveal(opened);
    reveal(models_opened);
    reveal(settings_opened);
    reveal(plain_change);
}

/// A model that is chosen is switched to, or becomes the default; a level of
/// reasoning is set for the session, or becomes the default.
pub proof fn models_and_levels_are_asked_for(
    s: StateModel,
    f: FactsModel,
    model: Seq<char>,
    effort: Option<Seq<char>>,
    save: bool,
    selected: usize,
)
    requires
        model.len() > 0,
        forall|i: int| 0 <= i < model.len() ==> !crate::text::whitespace(#[trigger] model[i]),
    ensures
        decided(s, f, ActionModel::SwitchModel(model)) == (s, RequestModel::SwitchModel(model)),
        decided(s, f, ActionModel::SaveModel(model)) == (
            s,
            RequestModel::Change { change: ChangeModel::Model(model), after: After::DefaultModel },
        ),
        decided(s, f, ActionModel::SetReasoning { effort, save: false }) == (
            s,
            RequestModel::SetEffort(effort),
        ),
        decided(s, f, ActionModel::RemoveModel { model, save, selected }) == (
            s,
            RequestModel::RemoveModel { model, save, selected },
        ),
        decided(s, f, ActionModel::DeleteSession(model)).1 == (RequestModel::DeleteSession {
            id: model,
            selected: picker_row(s),
        }),
        decided(s, f, ActionModel::ImplementPlan).0.pending_plan_implementation,
{
    reveal(decided);
    reveal(opened);
    reveal(models_opened);
    reveal(settings_opened);
    reveal(plain_change);
    reveal(handed_on);
    reveal(requested);
    reveal(setting_asked);
    reveal_strlit("model ");
    reveal_strlit("model");
    reveal_strlit(" ");
    assert("model "@ + model =~= "model"@ + " "@ + model);
    crate::text::white_space_is_blank();
    crate::assigning::settings_are_named_with_a_value("model"@, model, f.model);
    crate::assigning::texts_are_set_by_name(model, f.model);
}

/// While a color is tried, what was in force before is remembered, and whether
/// the selection follows the accent.
pub proof fn trying_remembers_the_colors(s: StateModel, f: FactsModel)
    ensures
        forall|action: ActionModel|
            action is OpenAccentColor || action is OpenSelectionColor ==> {
                let now = (#[trigger] decided(s, f, action)).0;
                &&& now.color_preview == Some(
                    ColorPreview {
                        accent: s.accent_color,
                        selection: s.selection_color,
                        follows: f.config.selection_color is None,
                    },
                )
                &&& now.picker is Some
                &&& now.accent_color == s.accent_color && now.selection_color == s.selection_color
            },
{
    reveal(decided);
    reveal(opened);
    reveal(models_opened);
    reveal(settings_opened);
}

/// A setting that is typed is changed where it can be read; otherwise the
/// reason is told, and without a name all settings are shown.
pub proof fn typed_settings_are_changed_or_told(
    s: StateModel,
    f: FactsModel,
    argument: Seq<char>,
    after: After,
)
    ensures
        ({
            let (now, request) = setting_asked(s, f, argument, after);
            let read = setting_change(argument, f.model);
            &&& (read matches Ok(Some(change))) ==> now == s && request == (RequestModel::Change {
                change: read->Ok_0->0,
                after,
            })
            &&& read == Ok::<Option<ChangeModel>, Seq<char>>(None) ==> now.notices
                == s.notices.push(settings_text(f)) && request is Nothing
            &&& (read matches Err(error)) ==> now.notices == s.notices.push(
                "Could not change setting: "@ + read->Err_0,
            ) && request is Nothing
        }),
{
    reveal(setting_asked);
}

/// A choice that neither the queue, nor a connection, nor the status bar takes
/// is decided on its own; it starts no work in the background.
pub proof fn choices_reach_their_owner(s: StateModel, f: FactsModel, on: bool, color: UiColor)
    requires
        s.connection is None,
        s.status_bar_draft is None,
    ensures
        activated(s, f, ActionModel::SetBell(on)).request == decided(
            s,
            f,
            ActionModel::SetBell(on),
        ).1,
        activated(s, f, ActionModel::SetAccentColor(color)).request == decided(
            s,
            f,
            ActionModel::SetAccentColor(color),
        ).1,
        activated(s, f, ActionModel::SetBell(on)).work is Nothing,
        activated(s, f, ActionModel::OpenConnect { from_settings: on }).request is Nothing,
        activated(s, f, ActionModel::OpenConnect { from_settings: on }).state.picker is Some,
{
    reveal(bar_handled);
    reveal(queue_handled);
}

} // verus!
