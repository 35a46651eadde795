//! Goals and plans: what their commands ask for, and what is said of them.

use vstd::prelude::*;
use crate::editor::{expanded, Editor};
use crate::facts::{PlanStage, PlanState};
use crate::model::{copy_option, option_view, views};
use crate::picker::{choice, offer, Picker, PickerItem, PickerModel};
use crate::picker::action::{ActionModel, PickerAction};
use crate::state::{state_model, StateModel, ViewState};
use crate::text::{cat2, cat3, chars_of, is, starts};

verus! {

broadcast use vstd::string::group_string_axioms;

/// What a command on a goal or a plan asks for.
#[derive(Debug)]
pub enum WorkflowRequest {
    Nothing,
    Cancel,
    Resume,
    Start(String),
}

pub enum WorkflowModel {
    Nothing,
    Cancel,
    Resume,
    Start(Seq<char>),
}

impl View for WorkflowRequest {
    type V = WorkflowModel;

    open spec fn view(&self) -> WorkflowModel {
        match self {
            WorkflowRequest::Nothing => WorkflowModel::Nothing,
            WorkflowRequest::Cancel => WorkflowModel::Cancel,
            WorkflowRequest::Resume => WorkflowModel::Resume,
            WorkflowRequest::Start(text) => WorkflowModel::Start(text@),
        }
    }
}

/// What an attempt to cancel came to: whether there was something to cancel.
pub open spec fn cancel_of(r: Result<bool, String>) -> Result<bool, Seq<char>> {
    match r {
        Ok(canceled) => Ok(canceled),
        Err(error) => Err(error@),
    }
}

/// What an attempt to start came to: perhaps a warning.
pub open spec fn start_of(r: Result<Option<String>, String>) -> Result<Option<Seq<char>>, Seq<char>> {
    match r {
        Ok(warning) => Ok(option_view(warning)),
        Err(error) => Err(error@),
    }
}

// ---------------------------------------------------------------------------
// Goals

pub open spec fn goal_status(goal: Option<Seq<char>>, running: bool) -> Seq<char> {
    match goal {
        Some(goal) => if running {
            "Working on goal:\n"@ + goal
        } else {
            "Paused goal:\n"@ + goal + "\n\n/goal resume continues it. /goal cancel clears it."@
        },
        None => "No active goal. Start one with /goal TEXT."@,
    }
}

fn notice_goal_status(state: &mut ViewState, goal: &Option<String>)
    ensures
        final(state)@ == old(state)@.noted(
            goal_status(option_view(*goal), old(state)@.turn_running),
        ),
{
    let running = is_running(state);
    let text = match goal {
        Some(goal) => if running {
            cat2("Working on goal:\n", goal.as_str())
        } else {
            cat3(
                "Paused goal:\n",
                goal.as_str(),
                "\n\n/goal resume continues it. /goal cancel clears it.",
            )
        },
        None => "No active goal. Start one with /goal TEXT.".to_owned(),
    };
    state.notice(text.as_str());
}

fn is_running(state: &ViewState) -> (r: bool)
    ensures
        r == state@.turn_running,
{
    proof {
        reveal(state_model);
    }
    state.turn_running
}

/// The state after the command on a goal, and what it asks for. `goal` is the
/// goal of the agent.
pub open spec fn goal_read(s: StateModel, goal: Option<Seq<char>>, argument: Seq<char>) -> (
    StateModel,
    WorkflowModel,
) {
    if argument == ""@ {
        (s.noted(goal_status(goal, s.turn_running)), WorkflowModel::Nothing)
    } else if argument == "cancel"@ {
        (s, WorkflowModel::Cancel)
    } else if argument == "resume"@ {
        if goal is None {
            (s.noted("No paused goal to resume."@), WorkflowModel::Nothing)
        } else {
            (s, WorkflowModel::Resume)
        }
    } else {
        (s, WorkflowModel::Start(argument))
    }
}

/// Reads the command on a goal; see `goal_read`.
pub fn goal(state: &mut ViewState, active: &Option<String>, argument: &str) -> (r: WorkflowRequest)
    ensures
        (final(state)@, r@) == goal_read(old(state)@, option_view(*active), argument@),
{
    let chars = chars_of(argument);
    if is(&chars, "") {
        notice_goal_status(state, active);
        return WorkflowRequest::Nothing;
    }
    if is(&chars, "cancel") {
        return WorkflowRequest::Cancel;
    }
    if is(&chars, "resume") {
        if active.is_none() {
            state.notice("No paused goal to resume.");
            return WorkflowRequest::Nothing;
        }
        return WorkflowRequest::Resume;
    }
    WorkflowRequest::Start(argument.to_owned())
}

pub open spec fn with_goal(s: StateModel, goal: Option<Seq<char>>) -> StateModel {
    StateModel { active_goal: goal, ..s }
}

fn set_goal(state: &mut ViewState, goal: Option<String>)
    ensures
        final(state)@ == with_goal(old(state)@, option_view(goal)),
{
    proof {
        reveal(state_model);
    }
    state.active_goal = goal;
}

pub open spec fn goal_canceled(s: StateModel, outcome: Result<bool, Seq<char>>) -> StateModel {
    match outcome {
        Ok(canceled) => if canceled {
            with_goal(s, None).noted("Goal canceled."@)
        } else {
            s.noted("No active goal."@)
        },
        Err(error) => s.noted("Could not cancel the goal: "@ + error),
    }
}

/// Shows what came of canceling a goal.
pub fn settle_goal_cancel(state: &mut ViewState, outcome: &Result<bool, String>)
    ensures
        final(state)@ == goal_canceled(old(state)@, cancel_of(*outcome)),
{
    match outcome {
        Ok(canceled) => {
            if *canceled {
                set_goal(state, None);
                state.notice("Goal canceled.");
            } else {
                state.notice("No active goal.");
            }
        },
        Err(error) => state.notice(
            cat2("Could not cancel the goal: ", error.as_str()).as_str(),
        ),
    }
}

pub open spec fn warned(s: StateModel, warning: Option<Seq<char>>) -> StateModel {
    match warning {
        Some(warning) => s.noted(warning),
        None => s,
    }
}

fn warn(state: &mut ViewState, warning: &Option<String>)
    ensures
        final(state)@ == warned(old(state)@, option_view(*warning)),
{
    match warning {
        Some(warning) => state.notice(warning.as_str()),
        None => {},
    }
}

/// The state after a goal was started, and whether it was.
pub open spec fn goal_started(
    s: StateModel,
    goal: Option<Seq<char>>,
    outcome: Result<Option<Seq<char>>, Seq<char>>,
) -> (StateModel, bool) {
    match outcome {
        Ok(warning) => (warned(with_goal(s, goal), warning), true),
        Err(error) => (s.noted("Could not start the goal: "@ + error), false),
    }
}

/// Shows what came of starting a goal; `goal` is the goal of the agent then.
pub fn settle_goal_start(
    state: &mut ViewState,
    goal: &Option<String>,
    outcome: &Result<Option<String>, String>,
) -> (r: bool)
    ensures
        (final(state)@, r) == goal_started(
            old(state)@,
            option_view(*goal),
            start_of(*outcome),
        ),
{
    match outcome {
        Ok(warning) => {
            set_goal(state, copy_option(goal));
            warn(state, warning);
            true
        },
        Err(error) => {
            state.notice(cat2("Could not start the goal: ", error.as_str()).as_str());
            false
        },
    }
}

pub open spec fn busy_goal_text(s: StateModel, argument: Seq<char>) -> Seq<char> {
    if argument == ""@ {
        match s.active_goal {
            Some(goal) => if s.goal_running {
                "Working on goal:\n"@ + goal
            } else {
                "Paused goal:\n"@ + goal
                    + "\n\nWait for the current turn to settle, then run /goal resume."@
            },
            None => "No active goal."@,
        }
    } else if argument == "cancel"@ {
        "Wait for the current turn to settle, then run /goal cancel."@
    } else if argument == "resume"@ {
        if s.goal_running {
            "A goal is already running."@
        } else {
            "Wait for the current turn to settle, then run /goal resume."@
        }
    } else {
        "Wait for the current turn to settle before replacing the goal."@
    }
}

fn busy_goal(state: &ViewState, argument: &str) -> (r: String)
    ensures
        r@ == busy_goal_text(state@, argument@),
{
    proof {
        reveal(state_model);
    }
    let chars = chars_of(argument);
    if is(&chars, "") {
        match &state.active_goal {
            Some(goal) => if state.goal_running {
                cat2("Working on goal:\n", goal.as_str())
            } else {
                cat3(
                    "Paused goal:\n",
                    goal.as_str(),
                    "\n\nWait for the current turn to settle, then run /goal resume.",
                )
            },
            None => "No active goal.".to_owned(),
        }
    } else if is(&chars, "cancel") {
        "Wait for the current turn to settle, then run /goal cancel.".to_owned()
    } else if is(&chars, "resume") {
        if state.goal_running {
            "A goal is already running.".to_owned()
        } else {
            "Wait for the current turn to settle, then run /goal resume.".to_owned()
        }
    } else {
        "Wait for the current turn to settle before replacing the goal.".to_owned()
    }
}

/// Answers the command on a goal while a turn is running.
pub fn goal_while_busy(argument: &str, state: &mut ViewState)
    ensures
        final(state)@ == old(state)@.noted(busy_goal_text(old(state)@, argument@)),
{
    let text = busy_goal(state, argument);
    state.notice(text.as_str());
}

/// The argument of the command on a goal as the model receives it, and as it
/// is shown.
pub fn prepare_goal_submission(editor: &Editor, argument: &str) -> (r: (String, String))
    requires
        editor.wf(),
    ensures
        r.0@ == expanded(expanded(argument@, editor@.mentions), editor@.pastes),
        r.1@ == expanded(argument@, editor@.pastes),
{
    (editor.expand_submission(argument), editor.expand_pastes(argument))
}

// ---------------------------------------------------------------------------
// Plans

pub open spec fn plan_status(plan: Option<PlanStage>) -> Seq<char> {
    match plan {
        Some(PlanStage::Draft { objective }) => "Draft plan for:\n"@ + objective
            + "\n\n/plan resume continues it. /plan cancel clears it."@,
        Some(PlanStage::Ready { plan }) => "Active plan:\n\n"@ + plan
            + "\n\nEnter a prompt to revise or implement it. /plan cancel clears it."@,
        None => "No active plan. Start one with /plan TEXT."@,
    }
}

fn notice_plan_status(state: &mut ViewState, plan: &Option<PlanState>)
    ensures
        final(state)@ == old(state)@.noted(plan_status(option_view(*plan))),
{
    let text = match plan {
        Some(PlanState::Draft { objective }) => cat3(
            "Draft plan for:\n",
            objective.as_str(),
            "\n\n/plan resume continues it. /plan cancel clears it.",
        ),
        Some(PlanState::Ready { plan }) => cat3(
            "Active plan:\n\n",
            plan.as_str(),
            "\n\nEnter a prompt to revise or implement it. /plan cancel clears it.",
        ),
        None => "No active plan. Start one with /plan TEXT.".to_owned(),
    };
    state.notice(text.as_str());
}

/// The state after the command on a plan, and what it asks for. `plan` is the
/// plan of the agent.
pub open spec fn plan_read(s: StateModel, plan: Option<PlanStage>, argument: Seq<char>) -> (
    StateModel,
    WorkflowModel,
) {
    if argument == ""@ {
        (s.noted(plan_status(plan)), WorkflowModel::Nothing)
    } else if argument == "cancel"@ {
        (s, WorkflowModel::Cancel)
    } else if argument == "resume"@ {
        match plan {
            Some(PlanStage::Draft { .. }) => (s, WorkflowModel::Resume),
            Some(PlanStage::Ready { .. }) => (
                s.noted(
                    "The plan is already complete. Enter a prompt to revise or implement it."@,
                ),
                WorkflowModel::Nothing,
            ),
            None => (s.noted("No interrupted plan to resume."@), WorkflowModel::Nothing),
        }
    } else {
        (s, WorkflowModel::Start(argument))
    }
}

/// Reads the command on a plan; see `plan_read`.
pub fn plan(state: &mut ViewState, active: &Option<PlanState>, argument: &str) -> (r: WorkflowRequest)
    ensures
        (final(state)@, r@) == plan_read(old(state)@, option_view(*active), argument@),
{
    let chars = chars_of(argument);
    if is(&chars, "") {
        notice_plan_status(state, active);
        return WorkflowRequest::Nothing;
    }
    if is(&chars, "cancel") {
        return WorkflowRequest::Cancel;
    }
    if is(&chars, "resume") {
        return match active {
            Some(PlanState::Draft { .. }) => WorkflowRequest::Resume,
            Some(PlanState::Ready { .. }) => {
                state.notice(
                    "The plan is already complete. Enter a prompt to revise or implement it.",
                );
                WorkflowRequest::Nothing
            },
            None => {
                state.notice("No interrupted plan to resume.");
                WorkflowRequest::Nothing
            },
        };
    }
    WorkflowRequest::Start(argument.to_owned())
}

pub open spec fn with_draft(s: StateModel, draft: bool) -> StateModel {
    StateModel { active_plan: None, plan_draft: draft, ..s }
}

fn set_draft(state: &mut ViewState, draft: bool)
    ensures
        final(state)@ == with_draft(old(state)@, draft),
{
    proof {
        reveal(state_model);
    }
    state.active_plan = None;
    state.plan_draft = draft;
}

pub open spec fn plan_canceled(s: StateModel, outcome: Result<bool, Seq<char>>) -> StateModel {
    match outcome {
        Ok(canceled) => if canceled {
            with_draft(s, false).noted("Plan canceled."@)
        } else {
            s.noted("No active plan."@)
        },
        Err(error) => s.noted("Could not cancel the plan: "@ + error),
    }
}

/// Shows what came of canceling a plan.
pub fn settle_plan_cancel(state: &mut ViewState, outcome: &Result<bool, String>)
    ensures
        final(state)@ == plan_canceled(old(state)@, cancel_of(*outcome)),
{
    match outcome {
        Ok(canceled) => {
            if *canceled {
                set_draft(state, false);
                state.notice("Plan canceled.");
            } else {
                state.notice("No active plan.");
            }
        },
        Err(error) => state.notice(
            cat2("Could not cancel the plan: ", error.as_str()).as_str(),
        ),
    }
}

/// The state after a plan was started, and whether it was.
pub open spec fn plan_started(s: StateModel, outcome: Result<Option<Seq<char>>, Seq<char>>) -> (
    StateModel,
    bool,
) {
    match outcome {
        Ok(warning) => (warned(with_draft(s, true), warning), true),
        Err(error) => (s.noted("Could not start the plan: "@ + error), false),
    }
}

/// Shows what came of starting a plan.
pub fn settle_plan_start(state: &mut ViewState, outcome: &Result<Option<String>, String>) -> (r:
    bool)
    ensures
        (final(state)@, r) == plan_started(old(state)@, start_of(*outcome)),
{
    match outcome {
        Ok(warning) => {
            set_draft(state, true);
            warn(state, warning);
            true
        },
        Err(error) => {
            state.notice(cat2("Could not start the plan: ", error.as_str()).as_str());
            false
        },
    }
}

pub open spec fn busy_plan_text(s: StateModel, argument: Seq<char>) -> Seq<char> {
    if argument == ""@ {
        if s.plan_draft {
            "A planning workflow is currently running."@
        } else {
            match s.active_plan {
                Some(plan) => "Active plan:\n\n"@ + plan,
                None => "No active plan."@,
            }
        }
    } else {
        "Wait for the current turn to settle before changing the plan."@
    }
}

fn busy_plan(state: &ViewState, argument: &str) -> (r: String)
    ensures
        r@ == busy_plan_text(state@, argument@),
{
    proof {
        reveal(state_model);
    }
    let asks = is(&chars_of(argument), "");
    if !asks {
        return "Wait for the current turn to settle before changing the plan.".to_owned();
    }
    if state.plan_draft {
        return "A planning workflow is currently running.".to_owned();
    }
    match &state.active_plan {
        Some(plan) => cat2("Active plan:\n\n", plan.as_str()),
        None => "No active plan.".to_owned(),
    }
}

/// Answers the command on a plan while a turn is running.
pub fn plan_while_busy(argument: &str, state: &mut ViewState)
    ensures
        final(state)@ == old(state)@.noted(busy_plan_text(old(state)@, argument@)),
{
    let text = busy_plan(state, argument);
    state.notice(text.as_str());
}

/// The menu that hands a plan over.
pub open spec fn handoff_menu() -> PickerModel {
    PickerModel {
        title: "Plan ready"@,
        hint: "Enter select · Esc return to editor"@,
        items: seq![
            choice(
                "Implement"@,
                "Start implementing this plan now"@,
                ActionModel::ImplementPlan,
            ),
            choice(
                "Return to editor"@,
                "Write a change request or implementation prompt"@,
                ActionModel::ReturnFromPlan,
            ),
        ],
        selected: 0,
        editing: None,
        parent: Some(ActionModel::ReturnFromPlan),
    }
}

/// Hands a plan over; see `handoff_menu`.
pub fn plan_handoff_picker() -> (r: Picker)
    ensures
        r@ == handoff_menu(),
        r@.is_handoff(),
{
    let mut items: Vec<PickerItem> = Vec::new();
    offer(
        &mut items,
        "Implement",
        "Start implementing this plan now",
        PickerAction::ImplementPlan,
    );
    offer(
        &mut items,
        "Return to editor",
        "Write a change request or implementation prompt",
        PickerAction::ReturnFromPlan,
    );
    assert(views(items@) =~= handoff_menu().items);
    Picker {
        title: "Plan ready".to_owned(),
        hint: "Enter select · Esc return to editor".to_owned(),
        items,
        selected: 0,
        editing: None,
        parent: Some(PickerAction::ReturnFromPlan),
    }
}

// ---------------------------------------------------------------------------
// Laws

/// While a turn is running, neither command changes the goal or the plan.
pub proof fn busy_commands_only_answer(s: StateModel, argument: Seq<char>)
    ensures
        s.noted(busy_goal_text(s, argument)).active_goal == s.active_goal,
        s.noted(busy_plan_text(s, argument)).active_plan == s.active_plan,
        s.noted(busy_plan_text(s, argument)).plan_draft == s.plan_draft,
{
}

/// A goal that was canceled is not resumed.
pub proof fn canceled_goal_is_gone(s: StateModel)
    ensures
        goal_canceled(s, Ok(true)).active_goal is None,
        goal_read(goal_canceled(s, Ok(true)), None, "resume"@).1 == WorkflowModel::Nothing,
{
    reveal_strlit("resume");
    reveal_strlit("");
    reveal_strlit("cancel");
    assert("resume"@.len() == 6 && ""@.len() == 0);
    assert("resume"@[0] != "cancel"@[0]);
}

/// `/goal` and `/plan` with a text start it, with `cancel` cancel it, and with
/// `resume` go on where there is something to go on with; alone they say how it
/// stands.
pub proof fn workflows_are_steered_by_word(
    s: StateModel,
    goal: Option<Seq<char>>,
    plan: Option<PlanStage>,
    text: Seq<char>,
)
    requires
        text.len() > 0 && text != "cancel"@ && text != "resume"@,
    ensures
        goal_read(s, goal, text) == (s, WorkflowModel::Start(text)),
        plan_read(s, plan, text) == (s, WorkflowModel::Start(text)),
        goal_read(s, goal, "cancel"@) == (s, WorkflowModel::Cancel),
        plan_read(s, plan, "cancel"@) == (s, WorkflowModel::Cancel),
        goal is Some ==> goal_read(s, goal, "resume"@) == (s, WorkflowModel::Resume),
        goal is None ==> goal_read(s, goal, "resume"@).1 is Nothing,
        plan matches Some(PlanStage::Draft { .. }) ==> plan_read(s, plan, "resume"@) == (
            s,
            WorkflowModel::Resume,
        ),
        !(plan matches Some(PlanStage::Draft { .. })) ==> plan_read(s, plan, "resume"@).1
            is Nothing && plan_read(s, plan, "resume"@).0.notices.len() == s.notices.len() + 1,
        goal_read(s, goal, ""@).1 is Nothing && goal_read(s, goal, ""@).0.notices == s.notices.push(
            goal_status(goal, s.turn_running),
        ),
        plan_read(s, plan, ""@).1 is Nothing && plan_read(s, plan, ""@).0.notices == s.notices.push(
            plan_status(plan),
        ),
{
    reveal_strlit("");
    reveal_strlit("cancel");
    reveal_strlit("resume");
    assert("cancel"@[0] == 'c' && "resume"@[0] == 'r' && ""@.len() == 0 && "cancel"@.len() == 6
        && "resume"@.len() == 6);
}

/// A goal that was started is shown as the active one, and a plan as a draft;
/// what could not be started is not.
pub proof fn started_workflows_are_active(
    s: StateModel,
    goal: Option<Seq<char>>,
    warning: Option<Seq<char>>,
    error: Seq<char>,
)
    ensures
        goal_started(s, goal, Ok(warning)).1 && goal_started(s, goal, Ok(warning)).0.active_goal
            == goal,
        plan_started(s, Ok(warning)).1 && plan_started(s, Ok(warning)).0.plan_draft,
        goal_started(s, goal, Err(error)) == (
            s.noted("Could not start the goal: "@ + error),
            false,
        ),
        plan_started(s, Err(error)) == (s.noted("Could not start the plan: "@ + error), false),
        warning is Some ==> goal_started(s, goal, Ok(warning)).0.notices == s.notices.push(
            warning->0,
        ) && plan_started(s, Ok(warning)).0.notices == s.notices.push(warning->0),
        warning is None ==> goal_started(s, goal, Ok(warning)).0.notices == s.notices,
{
}

/// A plan that was canceled is gone; one that could not be canceled stays.
pub proof fn canceled_plan_is_gone(s: StateModel, error: Seq<char>)
    ensures
        plan_canceled(s, Ok(true)).active_plan is None,
        !plan_canceled(s, Ok(true)).plan_draft,
        plan_canceled(s, Ok(false)) == s.noted("No active plan."@),
        plan_canceled(s, Err(error)).active_plan == s.active_plan,
        goal_canceled(s, Ok(false)) == s.noted("No active goal."@),
        goal_canceled(s, Err(error)).active_goal == s.active_goal,
{
}

/// How a goal or a plan stands is told with its text, and a goal that is worked
/// on is told from one that is paused.
pub proof fn standing_is_told(s: StateModel, goal: Seq<char>, plan: Seq<char>)
    ensures
        goal_status(Some(goal), true) == "Working on goal:\n"@ + goal,
        starts(goal_status(Some(goal), false), "Paused goal:\n"@ + goal),
        starts(plan_status(Some(PlanStage::Draft { objective: goal })), "Draft plan for:\n"@ + goal),
        starts(plan_status(Some(PlanStage::Ready { plan })), "Active plan:\n\n"@ + plan),
        s.active_goal == Some(goal) && s.goal_running ==> busy_goal_text(s, ""@)
            == "Working on goal:\n"@ + goal,
        s.active_goal == Some(goal) && !s.goal_running ==> starts(
            busy_goal_text(s, ""@),
            "Paused goal:\n"@ + goal,
        ),
        s.plan_draft ==> busy_plan_text(s, ""@) == "A planning workflow is currently running."@,
        !s.plan_draft && s.active_plan == Some(plan) ==> busy_plan_text(s, ""@)
            == "Active plan:\n\n"@ + plan,
{
    let paused = "Paused goal:\n"@ + goal;
    assert(goal_status(Some(goal), false).take(paused.len() as int) =~= paused);
    let draft = "Draft plan for:\n"@ + goal;
    assert(plan_status(Some(PlanStage::Draft { objective: goal })).take(draft.len() as int)
        =~= draft);
    let ready = "Active plan:\n\n"@ + plan;
    assert(plan_status(Some(PlanStage::Ready { plan })).take(ready.len() as int) =~= ready);
    if s.active_goal == Some(goal) && !s.goal_running {
        assert(busy_goal_text(s, ""@).take(paused.len() as int) =~= paused);
    }
}

/// A plan that is ready is offered to be implemented, and Escape returns to the
/// composer.
pub proof fn handoffs_offer_two_ways()
    ensures
        handoff_menu().is_handoff(),
        handoff_menu().items.len() == 2,
        handoff_menu().selected == 0,
        handoff_menu().parent == Some(ActionModel::ReturnFromPlan),
{
}

} // verus!
