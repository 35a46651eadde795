//! What comes of a request to the agent.

use vstd::prelude::*;
use crate::actions::{
    interface_location, location_menu, on_interface, open_settings_location, After,
};
use crate::facts::{facts_model, selection_in_force, Facts, FactsModel};
use crate::model::{copy_option, option_view, views, Modeled};
use crate::picker::action::{SettingsCategory, SettingsItem, SettingsLocation};
use crate::picker::models::{model_menu, model_picker, reasoning_menu, reasoning_picker};
use crate::picker::status_bar::{editor_menu, status_bar_editor_picker};
use crate::sessions::attempt_of;
use crate::state::{item_selected, select_picker_item, state_model, StateModel, ViewState};
use crate::text::{cat2, cat3, cat4, cat5};

verus! {

broadcast use vstd::string::group_string_axioms;

/// What came of a change of the settings.
#[derive(Debug)]
pub enum ConfigEffect {
    Applied,
    /// The settings of the project remain in force.
    Overridden,
    /// The directory that was to be removed was not listed.
    SkillDirectoryNotConfigured(String),
}

pub enum EffectModel {
    Applied,
    Overridden,
    SkillDirectoryNotConfigured(Seq<char>),
}

impl View for ConfigEffect {
    type V = EffectModel;

    open spec fn view(&self) -> EffectModel {
        match self {
            ConfigEffect::Applied => EffectModel::Applied,
            ConfigEffect::Overridden => EffectModel::Overridden,
            ConfigEffect::SkillDirectoryNotConfigured(path) => {
                EffectModel::SkillDirectoryNotConfigured(path@)
            },
        }
    }
}

/// What is said of an effect: nothing where the change is in force.
pub open spec fn effect_noted(s: StateModel, f: FactsModel, effect: EffectModel) -> StateModel {
    match effect {
        EffectModel::Applied => s,
        EffectModel::Overridden => s.noted(
            "Saved to `"@ + f.config.config_path + "`, but project settings in `"@
                + f.project_config + "` remain effective."@,
        ),
        EffectModel::SkillDirectoryNotConfigured(path) => s.noted(
            "Skill directory `"@ + path + "` is not configured."@,
        ),
    }
}

pub fn notice_config_effect(state: &mut ViewState, facts: &Facts, effect: &ConfigEffect)
    ensures
        final(state)@ == effect_noted(old(state)@, facts@, effect@),
{
    proof {
        reveal(facts_model);
    }
    match effect {
        ConfigEffect::Applied => {},
        ConfigEffect::Overridden => {
            let text = cat5(
                "Saved to `",
                facts.config.config_path.as_str(),
                "`, but project settings in `",
                facts.project_config.as_str(),
                "` remain effective.",
            );
            state.notice(text.as_str());
        },
        ConfigEffect::SkillDirectoryNotConfigured(path) => {
            let text = cat3("Skill directory `", path.as_str(), "` is not configured.");
            state.notice(text.as_str());
        },
    }
}

/// The state with the settings in force.
pub open spec fn config_shown(s: StateModel, f: FactsModel) -> StateModel {
    StateModel {
        model: f.model,
        reasoning_effort: f.effective_effort,
        hide_reasoning: f.config.hide_reasoning,
        accent_color: f.config.accent_color,
        selection_color: selection_in_force(f.config),
        status_bar: f.config.status_bar,
        subagents_enabled: f.config.subagents,
        scroll_bar_enabled: f.config.scroll_bar,
        scroll_bar_auto_hide: f.config.scroll_bar_auto_hide,
        bell: f.config.bell,
        context_window: f.context_window,
        ..s
    }
}

fn show_config(state: &mut ViewState, facts: &Facts)
    ensures
        final(state)@ == config_shown(old(state)@, facts@),
{
    proof {
        reveal(state_model);
        reveal(facts_model);
    }
    state.model = facts.model.clone();
    state.reasoning_effort = copy_option(&facts.effective_effort);
    state.hide_reasoning = facts.config.hide_reasoning;
    state.accent_color = facts.config.accent_color;
    state.selection_color = facts.config.effective_selection_color();
    state.status_bar = facts.config.status_bar.copy();
    state.subagents_enabled = facts.config.subagents;
    state.scroll_bar_enabled = facts.config.scroll_bar;
    state.scroll_bar_auto_hide = facts.config.scroll_bar_auto_hide;
    state.bell = facts.config.bell;
    state.context_window = facts.context_window;
}

/// The state after a change that was made.
pub open spec fn went_on(s: StateModel, f: FactsModel, after: After) -> StateModel {
    match after {
        After::Stay => s,
        After::Location(location) => s.with_picker(Some(location_menu(f, location))),
        After::DefaultModel => if f.codex {
            s.with_picker(Some(reasoning_menu(f.efforts, f.config, f.reasoning_model, true)))
        } else {
            s.with_picker(
                Some(
                    location_menu(
                        f,
                        SettingsLocation {
                            category: SettingsCategory::Model,
                            item: SettingsItem::DefaultModel,
                        },
                    ),
                ),
            )
        },
        After::StatusBar => StateModel { status_bar_draft: None, ..s }.with_picker(
            Some(location_menu(f, on_interface(SettingsItem::StatusBar))),
        ),
    }
}

fn go_on(state: &mut ViewState, facts: &Facts, after: After)
    ensures
        final(state)@ == went_on(old(state)@, facts@, after),
{
    proof {
        reveal(state_model);
        reveal(facts_model);
    }
    match after {
        After::Stay => {},
        After::Location(location) => open_settings_location(state, facts, location),
        After::DefaultModel => {
            if facts.codex {
                state.set_picker(Some(
                    reasoning_picker(
                        &facts.efforts,
                        &facts.config,
                        facts.reasoning_model.as_str(),
                        true,
                    ),
                ));
            } else {
                open_settings_location(
                    state,
                    facts,
                    SettingsLocation {
                        category: SettingsCategory::Model,
                        item: SettingsItem::DefaultModel,
                    },
                );
            }
        },
        After::StatusBar => {
            state.status_bar_draft = None;
            open_settings_location(state, facts, interface_location(SettingsItem::StatusBar));
        },
    }
}

pub open spec fn change_outcome(r: Result<ConfigEffect, String>) -> Result<EffectModel, Seq<char>> {
    match r {
        Ok(effect) => Ok(effect@),
        Err(error) => Err(error@),
    }
}

/// The state after a change of the settings was made or refused. A layout of
/// the status bar that was not saved is not lost.
pub open spec fn change_settled(
    s: StateModel,
    f: FactsModel,
    after: After,
    outcome: Result<EffectModel, Seq<char>>,
) -> StateModel {
    match outcome {
        Ok(effect) => went_on(effect_noted(config_shown(s, f), f, effect), f, after),
        Err(error) => {
            let now = s.noted("Could not change setting: "@ + error);
            if after == After::StatusBar {
                now.with_picker(Some(editor_menu(now.layout(), 0)))
            } else {
                now
            }
        },
    }
}

/// Shows what came of a change; see `change_settled`. `facts` are those after
/// the change.
pub fn settle_change(
    state: &mut ViewState,
    facts: &Facts,
    after: After,
    outcome: &Result<ConfigEffect, String>,
)
    ensures
        final(state)@ == change_settled(old(state)@, facts@, after, change_outcome(*outcome)),
{
    match outcome {
        Ok(effect) => {
            show_config(state, facts);
            notice_config_effect(state, facts, effect);
            go_on(state, facts, after);
        },
        Err(error) => {
            state.notice(cat2("Could not change setting: ", error.as_str()).as_str());
            if after == After::StatusBar {
                let picker = status_bar_editor_picker(state.layout(), 0);
                state.set_picker(Some(picker));
            }
        },
    }
}

/// The state with the model in use.
pub open spec fn model_refreshed(s: StateModel, f: FactsModel) -> StateModel {
    StateModel {
        model: f.model,
        reasoning_effort: f.effective_effort,
        context_window: f.context_window,
        context_tokens: 0,
        ..s
    }
}

pub fn refresh_model_selection(state: &mut ViewState, facts: &Facts)
    ensures
        final(state)@ == model_refreshed(old(state)@, facts@),
{
    proof {
        reveal(state_model);
        reveal(facts_model);
    }
    state.model = facts.model.clone();
    state.reasoning_effort = copy_option(&facts.effective_effort);
    state.context_window = facts.context_window;
    state.context_tokens = 0;
}

/// The state after another model was taken. A Codex model is asked for its
/// effort.
pub open spec fn model_switched(s: StateModel, f: FactsModel) -> StateModel {
    let now = model_refreshed(s, f);
    if f.codex {
        now.with_picker(Some(reasoning_menu(f.efforts, f.config, f.reasoning_model, false)))
    } else {
        now.noted("Switched to "@ + f.model + "."@)
    }
}

/// Shows another model; see `model_switched`.
pub fn settle_switch(state: &mut ViewState, facts: &Facts)
    ensures
        final(state)@ == model_switched(old(state)@, facts@),
{
    proof {
        reveal(facts_model);
    }
    refresh_model_selection(state, facts);
    if facts.codex {
        state.set_picker(Some(
            reasoning_picker(
                &facts.efforts,
                &facts.config,
                facts.reasoning_model.as_str(),
                false,
            ),
        ));
    } else {
        state.notice(cat3("Switched to ", facts.model.as_str(), ".").as_str());
    }
}

pub open spec fn effort_label(effort: Option<Seq<char>>) -> Seq<char> {
    match effort {
        Some(effort) => effort,
        None => "provider default"@,
    }
}

/// The state after another effort was taken. Nothing is said over a response
/// that is running.
pub open spec fn effort_set(s: StateModel, f: FactsModel, effort: Option<Seq<char>>) -> StateModel {
    let now = StateModel { reasoning_effort: effort, ..s };
    if s.turn_running {
        now
    } else {
        now.noted("Using "@ + f.model + " with "@ + effort_label(effort) + " reasoning."@)
    }
}

/// Shows another effort; see `effort_set`.
pub fn settle_effort(state: &mut ViewState, facts: &Facts, effort: Option<String>)
    ensures
        final(state)@ == effort_set(old(state)@, facts@, option_view(effort)),
{
    proof {
        reveal(state_model);
        reveal(facts_model);
    }
    let label = match &effort {
        Some(effort) => effort.clone(),
        None => "provider default".to_owned(),
    };
    state.reasoning_effort = effort;
    if !state.turn_running {
        let text = cat5(
            "Using ",
            facts.model.as_str(),
            " with ",
            label.as_str(),
            " reasoning.",
        );
        state.notice(text.as_str());
    }
}

pub open spec fn effects_noted(s: StateModel, f: FactsModel, effects: Seq<EffectModel>) -> StateModel
    decreases effects.len(),
{
    if effects.len() == 0 {
        s
    } else {
        effect_noted(effects_noted(s, f, effects.drop_last()), f, effects.last())
    }
}

pub open spec fn plan_outcome(r: Result<Vec<ConfigEffect>, String>) -> Result<
    Seq<EffectModel>,
    Seq<char>,
> {
    match r {
        Ok(effects) => Ok(views(effects@)),
        Err(error) => Err(error@),
    }
}

/// The state after a connection was saved, or could not be.
pub open spec fn plan_settled(
    s: StateModel,
    f: FactsModel,
    provider_label: Seq<char>,
    outcome: Result<Seq<EffectModel>, Seq<char>>,
) -> StateModel {
    match outcome {
        Ok(effects) => model_refreshed(effects_noted(s, f, effects), f).noted(
            provider_label + " connection saved."@,
        ),
        Err(error) => s.noted("Could not save connection: "@ + error),
    }
}

/// Shows what came of a connection; see `plan_settled`. `facts` are those
/// after it was saved.
pub fn settle_plan(
    state: &mut ViewState,
    facts: &Facts,
    provider_label: &str,
    outcome: &Result<Vec<ConfigEffect>, String>,
)
    ensures
        final(state)@ == plan_settled(
            old(state)@,
            facts@,
            provider_label@,
            plan_outcome(*outcome),
        ),
{
    match outcome {
        Ok(effects) => {
            let ghost all = views(effects@);
            let mut i: usize = 0;
            assert(all.take(0) =~= Seq::empty());
            while i < effects.len()
                invariant
                    i <= effects@.len(),
                    all == views(effects@),
                    state@ == effects_noted(old(state)@, facts@, all.take(i as int)),
                decreases effects@.len() - i,
            {
                assert(all.take(i + 1).drop_last() =~= all.take(i as int));
                assert(all.take(i + 1).last() == effects@[i as int]@);
                notice_config_effect(state, facts, &effects[i]);
                i += 1;
            }
            assert(all.take(i as int) =~= all);
            refresh_model_selection(state, facts);
            state.notice(cat2(provider_label, " connection saved.").as_str());
        },
        Err(error) => state.notice(
            cat2("Could not save connection: ", error.as_str()).as_str(),
        ),
    }
}

/// The state after a model was removed from the settings, or could not be. The
/// models are shown again.
pub open spec fn removal_settled(
    s: StateModel,
    f: FactsModel,
    model: Seq<char>,
    save: bool,
    selected: usize,
    outcome: Result<(), Seq<char>>,
) -> StateModel {
    item_selected(
        s.with_picker(Some(model_menu(f.models, f.config, f.model, save))),
        selected,
    ).noted(
        match outcome {
            Ok(()) => "Removed `"@ + model + "`."@,
            Err(error) => "Could not remove `"@ + model + "`: "@ + error,
        },
    )
}

/// Shows what came of the removal of a model; see `removal_settled`. `facts`
/// are those after it.
pub fn settle_removal(
    state: &mut ViewState,
    facts: &Facts,
    model: &str,
    save: bool,
    selected: usize,
    outcome: &Result<(), String>,
)
    ensures
        final(state)@ == removal_settled(
            old(state)@,
            facts@,
            model@,
            save,
            selected,
            attempt_of(*outcome),
        ),
{
    proof {
        reveal(facts_model);
    }
    state.set_picker(Some(model_picker(&facts.models, &facts.config, facts.model.as_str(), save)));
    select_picker_item(state, selected);
    match outcome {
        Ok(()) => state.notice(cat3("Removed `", model, "`.").as_str()),
        Err(error) => state.notice(
            cat4("Could not remove `", model, "`: ", error.as_str()).as_str(),
        ),
    }
}

// ---------------------------------------------------------------------------
// Laws

/// A change that is refused leaves the settings that are shown as they are.
pub proof fn refused_changes_change_nothing(
    s: StateModel,
    f: FactsModel,
    after: After,
    error: Seq<char>,
)
    ensures
        ({
            let now = change_settled(s, f, after, Err(error));
            &&& now.accent_color == s.accent_color && now.selection_color == s.selection_color
            &&& now.status_bar == s.status_bar && now.status_bar_draft == s.status_bar_draft
            &&& now.model == s.model && now.reasoning_effort == s.reasoning_effort
            &&& now.notices == s.notices.push("Could not change setting: "@ + error)
        }),
{
}

/// A change that is in force is not remarked on.
pub proof fn changes_in_force_are_silent(s: StateModel, f: FactsModel, after: After)
    ensures
        change_settled(s, f, after, Ok(EffectModel::Applied)).notices == s.notices,
{
}

/// A setting that is changed on its page is selected there again.
pub proof fn changed_setting_is_selected(
    s: StateModel,
    f: FactsModel,
    location: SettingsLocation,
    effect: EffectModel,
)
    ensures
        change_settled(s, f, After::Location(location), Ok(effect)).picker == Some(
            location_menu(f, location),
        ),
{
    reveal(location_menu);
}

/// After a change the state shows what the configuration holds: each part of it
/// under its own name.
pub proof fn changes_are_shown(s: StateModel, f: FactsModel, after: After, effect: EffectModel)
    ensures
        ({
            let now = change_settled(s, f, after, Ok(effect));
            &&& now.model == f.model && now.reasoning_effort == f.effective_effort
            &&& now.hide_reasoning == f.config.hide_reasoning
            &&& now.accent_color == f.config.accent_color
            &&& now.selection_color == (match f.config.selection_color {
                Some(color) => color,
                None => f.config.accent_color,
            })
            &&& now.status_bar == f.config.status_bar
            &&& now.subagents_enabled == f.config.subagents
            &&& now.scroll_bar_enabled == f.config.scroll_bar
            &&& now.scroll_bar_auto_hide == f.config.scroll_bar_auto_hide
            &&& now.bell == f.config.bell
            &&& now.context_window == f.context_window
            &&& now.queued_inputs == s.queued_inputs && now.active_goal == s.active_goal
        }),
{
}

/// A change that a project's settings keep from taking force says so, and one
/// of a directory that was not there too; one that took force says nothing.
pub proof fn overridden_changes_say_so(s: StateModel, f: FactsModel, path: Seq<char>)
    ensures
        effect_noted(s, f, EffectModel::Applied).notices == s.notices,
        effect_noted(s, f, EffectModel::Overridden).notices == s.notices.push(
            "Saved to `"@ + f.config.config_path + "`, but project settings in `"@
                + f.project_config + "` remain effective."@,
        ),
        effect_noted(s, f, EffectModel::SkillDirectoryNotConfigured(path)).notices
            == s.notices.push("Skill directory `"@ + path + "` is not configured."@),
{
}

/// Where a change leads: it stays, or goes to the list of its setting; a
/// default model goes on to the levels of reasoning where it has them, and the
/// status bar drops its draft.
pub proof fn changes_lead_on(s: StateModel, f: FactsModel)
    ensures
        ({
            let now = |after: After| change_settled(s, f, after, Ok(EffectModel::Applied));
            &&& now(After::Stay).picker == s.picker
            &&& f.codex ==> now(After::DefaultModel).picker == Some(
                reasoning_menu(f.efforts, f.config, f.reasoning_model, true),
            )
            &&& now(After::StatusBar).status_bar_draft is None
            &&& now(After::StatusBar).picker == Some(
                location_menu(
                    f,
                    SettingsLocation {
                        category: SettingsCategory::Interface,
                        item: SettingsItem::StatusBar,
                    },
                ),
            )
            &&& change_settled(
                s,
                f,
                After::StatusBar,
                Err("no"@),
            ).picker == Some(editor_menu(s.layout(), 0))
        }),
{
}

/// A model that was switched to is shown, and its context is empty again.
pub proof fn switched_models_are_shown(s: StateModel, f: FactsModel)
    ensures
        model_switched(s, f).model == f.model,
        model_switched(s, f).context_tokens == 0,
        model_switched(s, f).context_window == f.context_window,
        model_switched(s, f).reasoning_effort == f.effective_effort,
        f.codex ==> model_switched(s, f).picker is Some && model_switched(s, f).notices
            == s.notices,
        !f.codex ==> model_switched(s, f).picker == s.picker && model_switched(s, f).notices
            == s.notices.push("Switched to "@ + f.model + "."@),
        ({
            let plan = plan_settled(s, f, "x"@, Ok(Seq::empty()));
            plan.model == f.model && plan.context_tokens == 0
        }),
{
}

/// Whatever became of a model that was to be removed, the list is shown again
/// and says what happened; where a connection could not be saved, nothing else
/// changes.
pub proof fn removals_are_reported(
    s: StateModel,
    f: FactsModel,
    model: Seq<char>,
    save: bool,
    selected: usize,
    error: Seq<char>,
    label: Seq<char>,
)
    ensures
        removal_settled(s, f, model, save, selected, Ok(())).notices == s.notices.push(
            "Removed `"@ + model + "`."@,
        ),
        removal_settled(s, f, model, save, selected, Err(error)).notices == s.notices.push(
            "Could not remove `"@ + model + "`: "@ + error,
        ),
        removal_settled(s, f, model, save, selected, Err(error)).picker is Some,
        plan_settled(s, f, label, Err(error)) == s.noted("Could not save connection: "@ + error),
        plan_settled(s, f, label, Ok(Seq::empty())).notices == s.notices.push(
            label + " connection saved."@,
        ),
{
}

} // verus!
