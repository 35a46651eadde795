//! What the agent says of itself, and how the interface starts from it.

use vstd::prelude::*;
use crate::config::{Config, ConfigModel};
use crate::connection::models_of;
use crate::model::{copy_option, option_view, views, Modeled};
use crate::picker::action::{DefinitionModel, ProviderDefinition};
use crate::picker::models::{ListedEntry, ListedModel};
use crate::state::{state_model, StateModel, ViewState};
use crate::style::UiColor;

verus! {

broadcast use vstd::string::group_string_axioms;

/// A plan that is being written, or is ready.
#[derive(Debug)]
pub enum PlanState {
    Draft { objective: String },
    Ready { plan: String },
}

pub enum PlanStage {
    Draft { objective: Seq<char> },
    Ready { plan: Seq<char> },
}

impl View for PlanState {
    type V = PlanStage;

    open spec fn view(&self) -> PlanStage {
        match self {
            PlanState::Draft { objective } => PlanStage::Draft { objective: objective@ },
            PlanState::Ready { plan } => PlanStage::Ready { plan: plan@ },
        }
    }
}

/// What the agent says of itself: the settings in force and what the model in
/// use can do.
#[derive(Debug)]
pub struct Facts {
    pub config: Config,
    /// The model in use, with the name of its provider before it.
    pub model: String,
    /// The model in use without its provider.
    pub reasoning_model: String,
    /// Whether Codex serves the model.
    pub codex: bool,
    /// The effort that the model is asked for.
    pub effective_effort: Option<String>,
    pub supports_images: bool,
    pub context_window: u64,
    pub context_tokens: u64,
    /// The models that are offered.
    pub models: Vec<ListedModel>,
    /// The models that the settings name, with their providers.
    pub configured: Vec<String>,
    /// The levels that the model offers.
    pub efforts: Vec<String>,
    /// The providers that can be set up.
    pub catalog: Vec<ProviderDefinition>,
    /// The models of the Codex account, where one is logged in.
    pub codex_models: Option<Vec<String>>,
    /// The file of the project whose settings take precedence.
    pub project_config: String,
    pub active_goal: Option<String>,
    pub plan: Option<PlanState>,
    pub session_id: String,
}

pub struct FactsModel {
    pub config: ConfigModel,
    pub model: Seq<char>,
    pub reasoning_model: Seq<char>,
    pub codex: bool,
    pub effective_effort: Option<Seq<char>>,
    pub supports_images: bool,
    pub context_window: u64,
    pub context_tokens: u64,
    pub models: Seq<ListedEntry>,
    pub configured: Seq<Seq<char>>,
    pub efforts: Seq<Seq<char>>,
    pub catalog: Seq<DefinitionModel>,
    pub codex_models: Option<Seq<Seq<char>>>,
    pub project_config: Seq<char>,
    pub active_goal: Option<Seq<char>>,
    pub plan: Option<PlanStage>,
    pub session_id: Seq<char>,
}

#[verifier::opaque]
pub open spec fn facts_model(facts: Facts) -> FactsModel {
    FactsModel {
        config: facts.config@,
        model: facts.model@,
        reasoning_model: facts.reasoning_model@,
        codex: facts.codex,
        effective_effort: option_view(facts.effective_effort),
        supports_images: facts.supports_images,
        context_window: facts.context_window,
        context_tokens: facts.context_tokens,
        models: views(facts.models@),
        configured: views(facts.configured@),
        efforts: views(facts.efforts@),
        catalog: views(facts.catalog@),
        codex_models: models_of(facts.codex_models),
        project_config: facts.project_config@,
        active_goal: option_view(facts.active_goal),
        plan: option_view(facts.plan),
        session_id: facts.session_id@,
    }
}

impl View for Facts {
    type V = FactsModel;

    open spec fn view(&self) -> FactsModel {
        facts_model(*self)
    }
}

/// The color of the selection: that of the accent where it has none of its own.
pub open spec fn selection_in_force(config: ConfigModel) -> UiColor {
    match config.selection_color {
        Some(color) => color,
        None => config.accent_color,
    }
}

impl Config {
    pub fn effective_selection_color(&self) -> (r: UiColor)
        ensures
            r == selection_in_force(self@),
    {
        match self.selection_color {
            Some(color) => color,
            None => self.accent_color,
        }
    }
}

pub open spec fn ready_plan(plan: Option<PlanStage>) -> Option<Seq<char>> {
    match plan {
        Some(PlanStage::Ready { plan }) => Some(plan),
        _ => None,
    }
}

pub open spec fn is_draft(plan: Option<PlanStage>) -> bool {
    plan matches Some(PlanStage::Draft { .. })
}

/// The interface as it starts.
pub open spec fn fresh_state(f: FactsModel) -> StateModel {
    StateModel {
        model: f.model,
        reasoning_effort: f.effective_effort,
        hide_reasoning: f.config.hide_reasoning,
        accent_color: f.config.accent_color,
        selection_color: selection_in_force(f.config),
        color_preview: None,
        status_bar: f.config.status_bar,
        status_bar_draft: None,
        scroll_bar_enabled: f.config.scroll_bar,
        scroll_bar_auto_hide: f.config.scroll_bar_auto_hide,
        bell: f.config.bell,
        turn_running: false,
        context_tokens: f.context_tokens,
        context_window: f.context_window,
        activity: ""@,
        scroll_offset: 0,
        queued_inputs: Seq::empty(),
        queue_paused: false,
        pending_steers: Seq::empty(),
        send_next: false,
        pending_actions: Seq::empty(),
        active_goal: f.active_goal,
        goal_running: false,
        active_plan: ready_plan(f.plan),
        plan_draft: is_draft(f.plan),
        pending_plan_implementation: false,
        picker: None,
        connection: None,
        subagents_enabled: f.config.subagents,
        notices: Seq::empty(),
    }
}

impl ViewState {
    /// The interface as it starts; see `fresh_state`.
    pub fn from_agent(facts: &Facts) -> (r: ViewState)
        ensures
            r@ == fresh_state(facts@),
    {
        proof {
            reveal(facts_model);
            reveal(state_model);
        }
        let r = ViewState {
            model: facts.model.clone(),
            reasoning_effort: copy_option(&facts.effective_effort),
            hide_reasoning: facts.config.hide_reasoning,
            accent_color: facts.config.accent_color,
            selection_color: facts.config.effective_selection_color(),
            color_preview: None,
            status_bar: facts.config.status_bar.copy(),
            status_bar_draft: None,
            scroll_bar_enabled: facts.config.scroll_bar,
            scroll_bar_auto_hide: facts.config.scroll_bar_auto_hide,
            bell: facts.config.bell,
            turn_running: false,
            context_tokens: facts.context_tokens,
            context_window: facts.context_window,
            activity: "".to_owned(),
            scroll_offset: 0,
            queued_inputs: Vec::new(),
            queue_paused: false,
            pending_steers: Vec::new(),
            send_next: false,
            pending_actions: Vec::new(),
            active_goal: copy_option(&facts.active_goal),
            goal_running: false,
            active_plan: match &facts.plan {
                Some(PlanState::Ready { plan }) => Some(plan.clone()),
                _ => None,
            },
            plan_draft: match &facts.plan {
                Some(PlanState::Draft { .. }) => true,
                _ => false,
            },
            pending_plan_implementation: false,
            picker: None,
            connection: None,
            subagents_enabled: facts.config.subagents,
            notices: Vec::new(),
        };
        assert(views(r.queued_inputs@) =~= Seq::empty());
        assert(views(r.pending_steers@) =~= Seq::empty());
        assert(views(r.pending_actions@) =~= Seq::empty());
        assert(views(r.notices@) =~= Seq::empty());
        r
    }
}

/// A session begins with what the configuration holds and with nothing that
/// waits or runs; its goal and its plan are those that were saved with it.
pub proof fn sessions_begin_idle(f: FactsModel, plan: Seq<char>, objective: Seq<char>)
    ensures
        ({
            let s = fresh_state(f);
            &&& s.model == f.model && s.context_tokens == f.context_tokens && s.context_window
                == f.context_window
            &&& s.hide_reasoning == f.config.hide_reasoning && s.bell == f.config.bell
                && s.scroll_bar_enabled == f.config.scroll_bar && s.scroll_bar_auto_hide
                == f.config.scroll_bar_auto_hide && s.subagents_enabled == f.config.subagents
            &&& s.accent_color == f.config.accent_color && s.status_bar == f.config.status_bar
            &&& f.config.selection_color is None ==> s.selection_color == f.config.accent_color
            &&& f.config.selection_color is Some ==> s.selection_color
                == f.config.selection_color->0
            &&& !s.turn_running && !s.goal_running && !s.queue_paused && !s.send_next
            &&& s.queued_inputs.len() == 0 && s.pending_steers.len() == 0
                && s.pending_actions.len() == 0 && s.notices.len() == 0
            &&& s.picker is None && s.connection is None && s.color_preview is None
                && s.status_bar_draft is None
            &&& s.active_goal == f.active_goal && s.scroll_offset == 0
            &&& f.plan == Some(PlanStage::Ready { plan }) ==> s.active_plan == Some(plan)
                && !s.plan_draft
            &&& f.plan == Some(PlanStage::Draft { objective }) ==> s.active_plan is None
                && s.plan_draft
            &&& f.plan is None ==> s.active_plan is None && !s.plan_draft
        }),
{
}

/// A selection is painted in its own color where one is set, and in the accent
/// color otherwise.
pub proof fn selections_follow_the_accent(config: ConfigModel, color: UiColor)
    ensures
        selection_in_force(ConfigModel { selection_color: Some(color), ..config }) == color,
        selection_in_force(
            (ConfigModel { selection_color: None, accent_color: color, ..config }),
        ) == color,
{
}

} // verus!
