//! What is typed and chosen while a turn runs: a message goes into the turn or
//! waits for its end, most choices wait for its end, and dashboards open at
//! once.

use vstd::prelude::*;
use crate::actions::{Request, RequestModel};
use crate::completion::{
    completion_keyed, handle_completion_key, needs_files, waits_for_files, CompletionModel,
    CompletionState,
};
use crate::driver::{plainly_taken, take_event, taken, Dashboard, Step, StepModel};
use crate::editor::{
    EditAction, EditActionModel, Editor, EditorModel, Submission, SubmissionModel,
};
use crate::events::{Event, EventModel, Key};
use crate::facts::{Facts, FactsModel};
use crate::goals::{busy_goal_text, busy_plan_text, goal_while_busy, plan_while_busy};
use crate::model::{option_view, views};
use crate::navigation::{scroll, scrolled, with_offset, Focus};
use crate::picker::action::{ActionModel, PickerAction};
use crate::queue::{
    enqueue, handle_queue_picker_action, promote_queued, queue_handled, queue_promoted, steer,
    unqueue, unqueued,
};
use crate::state::{state_model, StateModel, ViewState};
use crate::submission::{reasoning, reasoning_read, split_word, word_and_rest};
use crate::outcomes::effort_set;
use crate::text::{
    after_prefix, ascii_lower_all, cat2, chars_of, is, string_of, strip_prefix, trim, trimmed,
};

verus! {

broadcast use vstd::string::group_string_axioms;

/// What an event leads to outside of the state while a turn runs.
#[derive(Debug)]
pub enum BusyStep {
    /// Stop the turn.
    Cancel,
    /// Open a dashboard.
    Open(Dashboard),
    /// Use another effort from the next request on.
    SetEffort(Option<String>),
    /// The same as without a turn.
    Plain(Step),
}

pub enum BusyStepModel {
    Cancel,
    Open(Dashboard),
    SetEffort(Option<Seq<char>>),
    Plain(StepModel),
}

impl View for BusyStep {
    type V = BusyStepModel;

    open spec fn view(&self) -> BusyStepModel {
        match self {
            BusyStep::Cancel => BusyStepModel::Cancel,
            BusyStep::Open(a) => BusyStepModel::Open(*a),
            BusyStep::SetEffort(a) => BusyStepModel::SetEffort(option_view(*a)),
            BusyStep::Plain(a) => BusyStepModel::Plain(a@),
        }
    }
}

/// Nothing is left to do.
pub open spec fn no_step() -> BusyStepModel {
    BusyStepModel::Plain(StepModel::Nothing)
}

pub struct Busy {
    pub state: StateModel,
    pub editor: EditorModel,
    pub completion: CompletionModel,
    pub step: BusyStepModel,
}

// ---------------------------------------------------------------------------
// Messages

/// A message behind those that wait.
pub open spec fn queued_behind(s: StateModel, input: SubmissionModel) -> StateModel {
    StateModel { queued_inputs: s.queued_inputs.push(input), ..s }
}

/// The dashboard that a command opens.
pub open spec fn dashboard_of(name: Seq<char>) -> Dashboard {
    if name == "subagents"@ {
        Dashboard::Subagents
    } else if name == "ps"@ {
        Dashboard::Processes
    } else if name == "git"@ {
        Dashboard::Git
    } else {
        Dashboard::Nothing
    }
}

fn find_dashboard(name: &[char]) -> (r: Dashboard)
    ensures
        r == dashboard_of(name@),
{
    if is(name, "subagents") {
        Dashboard::Subagents
    } else if is(name, "ps") {
        Dashboard::Processes
    } else if is(name, "git") {
        Dashboard::Git
    } else {
        Dashboard::Nothing
    }
}

/// What is asked for of the effort, as far as anything is.
pub open spec fn effort_asked(request: RequestModel) -> BusyStepModel {
    match request {
        RequestModel::SetEffort(effort) => BusyStepModel::SetEffort(effort),
        _ => no_step(),
    }
}

/// A command while a turn runs. Those on the goal, the plan, the queue and the
/// effort are answered at once, and dashboards are opened; every other one
/// waits for the end of the turn.
#[verifier::opaque]
pub open spec fn busy_ordered(s: StateModel, f: FactsModel, input: SubmissionModel, command: Seq<char>) -> (
    StateModel,
    BusyStepModel,
) {
    let (name, argument) = word_and_rest(command);
    if input.images.len() > 0 {
        (queued_behind(s, input), no_step())
    } else if name == "goal"@ {
        (s.noted(busy_goal_text(s, argument)), no_step())
    } else if name == "plan"@ {
        (s.noted(busy_plan_text(s, argument)), no_step())
    } else if name == "unqueue"@ {
        (unqueued(s, argument), no_step())
    } else if name == "reasoning"@ {
        let (now, request) = reasoning_read(s, f, argument);
        (now, effort_asked(request))
    } else if dashboard_of(name) == Dashboard::Nothing {
        (queued_behind(s, input), no_step())
    } else if argument.len() > 0 {
        (s.noted("Usage: /"@ + name), no_step())
    } else {
        (s, BusyStepModel::Open(dashboard_of(name)))
    }
}

fn order_while_busy(state: &mut ViewState, facts: &Facts, input: Submission, command: &[char]) -> (r:
    BusyStep)
    ensures
        (final(state)@, r@) == busy_ordered(old(state)@, facts@, input@, command@),
{
    proof {
        reveal(busy_ordered);
    }
    if input.has_images() {
        enqueue(state, input);
        return BusyStep::Plain(Step::Nothing);
    }
    let (name, rest) = split_word(command);
    let argument = string_of(&rest);
    if is(&name, "goal") {
        goal_while_busy(argument.as_str(), state);
        return BusyStep::Plain(Step::Nothing);
    }
    if is(&name, "plan") {
        plan_while_busy(argument.as_str(), state);
        return BusyStep::Plain(Step::Nothing);
    }
    if is(&name, "unqueue") {
        unqueue(argument.as_str(), state);
        return BusyStep::Plain(Step::Nothing);
    }
    if is(&name, "reasoning") {
        return match reasoning(state, facts, argument.as_str()) {
            Request::SetEffort(effort) => BusyStep::SetEffort(effort),
            _ => BusyStep::Plain(Step::Nothing),
        };
    }
    let dashboard = find_dashboard(&name);
    if dashboard == Dashboard::Nothing {
        enqueue(state, input);
        return BusyStep::Plain(Step::Nothing);
    }
    if rest.len() > 0 {
        state.notice(cat2("Usage: /", string_of(&name).as_str()).as_str());
        return BusyStep::Plain(Step::Nothing);
    }
    BusyStep::Open(dashboard)
}

/// A message that is sent while a turn runs: what is no command goes into the
/// turn.
pub open spec fn busy_said(s: StateModel, f: FactsModel, input: SubmissionModel) -> (
    StateModel,
    BusyStepModel,
) {
    match after_prefix(trimmed(input.text), "/"@) {
        None => (
            StateModel { pending_steers: s.pending_steers.push(input), ..s },
            no_step(),
        ),
        Some(command) => busy_ordered(s, f, input, command),
    }
}

/// Takes a message while a turn runs; see `busy_said`.
pub fn submit_while_busy(state: &mut ViewState, facts: &Facts, input: Submission) -> (r: BusyStep)
    ensures
        (final(state)@, r@) == busy_said(old(state)@, facts@, input@),
{
    let text = trim(&chars_of(input.text.as_str()));
    match strip_prefix(&text, "/") {
        None => {
            steer(state, input);
            BusyStep::Plain(Step::Nothing)
        },
        Some(command) => order_while_busy(state, facts, input, &command),
    }
}

// ---------------------------------------------------------------------------
// Choices

/// A choice while a turn runs. Those on the queue are carried out, and so is
/// one of an effort for the session; one to send a message now stops the turn;
/// every other one waits for its end.
#[verifier::opaque]
pub open spec fn busy_chosen(s: StateModel, action: ActionModel) -> (StateModel, BusyStepModel) {
    let (now, left) = queue_handled(s, action);
    match left {
        None => (now, no_step()),
        Some(ActionModel::SendQueued(index)) => {
            let (promoted, found) = queue_promoted(now, index);
            (
                promoted,
                if found {
                    BusyStepModel::Cancel
                } else {
                    no_step()
                },
            )
        },
        Some(ActionModel::SetReasoning { effort, save: false }) => (
            now,
            BusyStepModel::SetEffort(effort),
        ),
        Some(action) => (
            StateModel { pending_actions: now.pending_actions.push(action), ..now },
            no_step(),
        ),
    }
}

fn put_off(state: &mut ViewState, action: PickerAction)
    ensures
        final(state)@ == (StateModel {
            pending_actions: old(state)@.pending_actions.push(action@),
            ..old(state)@
        }),
{
    proof {
        reveal(state_model);
    }
    state.pending_actions.push(action);
    assert(views(state.pending_actions@) =~= views(old(state).pending_actions@).push(action@));
}

/// Takes a choice while a turn runs; see `busy_chosen`.
pub fn activate_picker_action_while_busy(state: &mut ViewState, action: PickerAction) -> (r:
    BusyStep)
    ensures
        (final(state)@, r@) == busy_chosen(old(state)@, action@),
{
    proof {
        reveal(busy_chosen);
    }
    match handle_queue_picker_action(state, action) {
        None => BusyStep::Plain(Step::Nothing),
        Some(PickerAction::SendQueued(index)) => if promote_queued(state, index) {
            BusyStep::Cancel
        } else {
            BusyStep::Plain(Step::Nothing)
        },
        Some(PickerAction::SetReasoning { effort, save: false }) => BusyStep::SetEffort(effort),
        Some(action) => {
            put_off(state, action);
            BusyStep::Plain(Step::Nothing)
        },
    }
}

// ---------------------------------------------------------------------------
// Events

/// Whether the composer holds anything to send.
pub open spec fn holds_message(e: EditorModel) -> bool {
    trimmed(e.text).len() > 0 || e.images.len() > 0
}

/// A key of the composer that has no meaning of its own while a turn runs: the
/// menu of completions takes it, Tab queues, and Enter sends into the turn.
#[verifier::opaque]
pub open spec fn busy_completed(
    s: StateModel,
    e: EditorModel,
    c: CompletionModel,
    f: FactsModel,
    key: Key,
) -> Busy {
    if waits_for_files(c, e) {
        Busy {
            state: s,
            editor: e,
            completion: c,
            step: BusyStepModel::Plain(StepModel::ScanFiles),
        }
    } else {
        let (completion, editor, took) = completion_keyed(c, e, key);
        let same = Busy { state: s, editor, completion, step: no_step() };
        if took {
            same
        } else if key == Key::Tab {
            if holds_message(editor) {
                Busy {
                    state: queued_behind(s, editor.submission()),
                    editor: editor.cleared().remembered(editor.submission()),
                    ..same
                }
            } else {
                same
            }
        } else {
            let (now, edit) = editor.keyed(key);
            match edit {
                EditActionModel::Submit(input) => {
                    let (state, step) = busy_said(s, f, input);
                    Busy { state, editor: now.remembered(input), completion, step }
                },
                EditActionModel::Steer(input) => {
                    let (state, step) = busy_said(s, f, input);
                    Busy { state, editor: now.remembered(input), completion, step }
                },
                EditActionModel::Nothing => Busy { editor: now, ..same },
            }
        }
    }
}

fn complete_while_busy(
    state: &mut ViewState,
    editor: &mut Editor,
    completion: &mut CompletionState,
    facts: &Facts,
    key: Key,
) -> (r: BusyStep)
    requires
        old(editor).wf(),
        old(completion).wf(),
    ensures
        final(editor).wf(),
        final(completion).wf(),
        (Busy {
            state: final(state)@,
            editor: final(editor)@,
            completion: final(completion)@,
            step: r@,
        }) == busy_completed(old(state)@, old(editor)@, old(completion)@, facts@, key),
{
    proof {
        reveal(busy_completed);
    }
    if needs_files(completion, editor) {
        return BusyStep::Plain(Step::ScanFiles);
    }
    if handle_completion_key(completion, editor, key) {
        return BusyStep::Plain(Step::Nothing);
    }
    if key == Key::Tab {
        match editor.handle_key(Key::Enter) {
            EditAction::Submit(input) => {
                editor.remember(&input);
                enqueue(state, input);
            },
            _ => {},
        }
        return BusyStep::Plain(Step::Nothing);
    }
    match editor.handle_key(key) {
        EditAction::Submit(input) | EditAction::Steer(input) => {
            editor.remember(&input);
            submit_while_busy(state, facts, input)
        },
        EditAction::Nothing => BusyStep::Plain(Step::Nothing),
    }
}

/// A key of the composer while a turn runs.
#[verifier::opaque]
pub open spec fn busy_keyed(
    s: StateModel,
    e: EditorModel,
    c: CompletionModel,
    f: FactsModel,
    key: Key,
) -> Busy {
    let same = Busy { state: s, editor: e, completion: c, step: no_step() };
    if key == Key::Escape || key == Key::Ctrl('c') {
        Busy { step: BusyStepModel::Cancel, ..same }
    } else if key == Key::PageUp {
        Busy { state: with_offset(s, scrolled(s.scroll_offset, 10)), ..same }
    } else if key == Key::PageDown {
        Busy { state: with_offset(s, scrolled(s.scroll_offset, -10)), ..same }
    } else if key == Key::Ctrl('l') {
        Busy { step: BusyStepModel::Plain(StepModel::Repaint), ..same }
    } else if key == Key::Ctrl('o') {
        Busy { step: BusyStepModel::Plain(StepModel::ToggleTools), ..same }
    } else if key == Key::Ctrl('v') {
        Busy { step: BusyStepModel::Plain(StepModel::PasteImage { blur: false }), ..same }
    } else {
        busy_completed(s, e, c, f, key)
    }
}

fn key_while_busy(
    state: &mut ViewState,
    editor: &mut Editor,
    completion: &mut CompletionState,
    facts: &Facts,
    key: Key,
) -> (r: BusyStep)
    requires
        old(editor).wf(),
        old(completion).wf(),
    ensures
        final(editor).wf(),
        final(completion).wf(),
        (Busy {
            state: final(state)@,
            editor: final(editor)@,
            completion: final(completion)@,
            step: r@,
        }) == busy_keyed(old(state)@, old(editor)@, old(completion)@, facts@, key),
{
    proof {
        reveal(busy_keyed);
    }
    match key {
        Key::Escape | Key::Ctrl('c') => BusyStep::Cancel,
        Key::PageUp => {
            scroll(state, 10);
            BusyStep::Plain(Step::Nothing)
        },
        Key::PageDown => {
            scroll(state, -10);
            BusyStep::Plain(Step::Nothing)
        },
        Key::Ctrl('l') => BusyStep::Plain(Step::Repaint),
        Key::Ctrl('o') => BusyStep::Plain(Step::ToggleTools),
        Key::Ctrl('v') => BusyStep::Plain(Step::PasteImage { blur: false }),
        _ => complete_while_busy(state, editor, completion, facts, key),
    }
}

/// An event while a turn runs. The same takes it as without a turn, the
/// dashboard, the menu, the conversation or the composer; choices and keys of
/// the composer have another effect.
pub open spec fn busy_taken(
    s: StateModel,
    e: EditorModel,
    c: CompletionModel,
    f: FactsModel,
    dashboard: Dashboard,
    focus: Focus,
    event: EventModel,
) -> Busy {
    let plain = taken(s, e, dashboard, focus, event);
    match plain.step {
        StepModel::Activate(action) => {
            let (state, step) = busy_chosen(plain.state, action);
            Busy { state, editor: plain.editor, completion: c, step }
        },
        StepModel::Composer(key) => busy_keyed(plain.state, plain.editor, c, f, key),
        step => Busy {
            state: plain.state,
            editor: plain.editor,
            completion: c,
            step: BusyStepModel::Plain(step),
        },
    }
}

/// Gives an event to what takes it while a turn runs; see `busy_taken`.
pub fn take_while_busy(
    state: &mut ViewState,
    editor: &mut Editor,
    completion: &mut CompletionState,
    facts: &Facts,
    dashboard: Dashboard,
    focus: Focus,
    event: Event,
) -> (r: BusyStep)
    requires
        old(editor).wf(),
        old(completion).wf(),
    ensures
        final(editor).wf(),
        final(completion).wf(),
        (Busy {
            state: final(state)@,
            editor: final(editor)@,
            completion: final(completion)@,
            step: r@,
        }) == busy_taken(
            old(state)@,
            old(editor)@,
            old(completion)@,
            facts@,
            dashboard,
            focus,
            event@,
        ),
{
    match take_event(state, editor, dashboard, focus, event) {
        Step::Activate(action) => activate_picker_action_while_busy(state, action),
        Step::Composer(key) => key_while_busy(state, editor, completion, facts, key),
        step => BusyStep::Plain(step),
    }
}

// ---------------------------------------------------------------------------
// Laws

/// While a turn runs, Enter sends what is typed into the turn and Tab queues
/// it, where no menu of completions takes the key; neither loses it.
pub proof fn enter_steers_and_tab_queues(
    s: StateModel,
    e: EditorModel,
    c: CompletionModel,
    f: FactsModel,
    key: Key,
)
    requires
        s.picker is None,
        holds_message(e),
        after_prefix(trimmed(e.text), "/"@) is None,
        e.command() is None && e.mention() is None,
        key == Key::Enter || key == Key::Ctrl('g') || key == Key::Tab,
    ensures
        ({
            let now = busy_taken(
                s,
                e,
                c,
                f,
                Dashboard::Nothing,
                Focus::Composer,
                EventModel::Key(key),
            );
            &&& now.state == if key == Key::Tab {
                queued_behind(s, e.submission())
            } else {
                StateModel { pending_steers: s.pending_steers.push(e.submission()), ..s }
            }
            &&& now.editor == e.cleared().remembered(e.submission())
            &&& now.step == no_step()
        }),
{
    reveal(plainly_taken);
    reveal(busy_keyed);
    reveal(busy_completed);
}

/// Escape and Ctrl+C stop the turn and lose nothing that was typed.
pub proof fn escape_stops_the_turn(
    s: StateModel,
    e: EditorModel,
    c: CompletionModel,
    f: FactsModel,
    key: Key,
)
    requires
        s.picker is None,
        key == Key::Escape || key == Key::Ctrl('c'),
    ensures
        busy_taken(s, e, c, f, Dashboard::Nothing, Focus::Composer, EventModel::Key(key)) == (Busy {
            state: s,
            editor: e,
            completion: c,
            step: BusyStepModel::Cancel,
        }),
{
    reveal(plainly_taken);
    reveal(busy_keyed);
}

/// A choice that changes settings waits for the end of the turn, behind those
/// that wait already.
pub proof fn choices_wait_for_the_end(s: StateModel, action: ActionModel)
    requires
        queue_handled(s, action).1 == Some(action),
        !(action is SendQueued),
        !(action matches ActionModel::SetReasoning { save: false, .. }),
    ensures
        busy_chosen(s, action) == (
            StateModel {
                pending_actions: s.pending_actions.push(action),
                ..queue_handled(s, action).0
            },
            no_step(),
        ),
        queue_handled(s, action).0 == s,
{
    reveal(busy_chosen);
    reveal(queue_handled);
}

/// An effort for the session is set at once while a turn runs, whether it is
/// written out or chosen; nothing is shown over the turn.
pub proof fn effort_is_set_at_once(
    s: StateModel,
    f: FactsModel,
    input: SubmissionModel,
    command: Seq<char>,
    argument: Seq<char>,
)
    requires
        word_and_rest(command) == ("reasoning"@, argument),
        input.images.len() == 0,
        argument.len() > 0,
        ascii_lower_all(argument) != "default"@,
        f.efforts.contains(ascii_lower_all(argument)),
        s.turn_running,
    ensures
        ({
            let effort = ascii_lower_all(argument);
            let step = BusyStepModel::SetEffort(Some(effort));
            &&& busy_ordered(s, f, input, command) == (s, step)
            &&& busy_chosen(s, ActionModel::SetReasoning { effort: Some(effort), save: false }) == (
                s,
                step,
            )
            &&& effort_set(s, f, Some(effort)) == (StateModel {
                reasoning_effort: Some(effort),
                ..s
            })
        }),
{
    reveal(busy_ordered);
    reveal(busy_chosen);
    reveal(queue_handled);
    reveal_strlit("reasoning");
    reveal_strlit("goal");
    reveal_strlit("plan");
    reveal_strlit("unqueue");
    assert("reasoning"@.len() == 9 && "goal"@.len() == 4 && "plan"@.len() == 4
        && "unqueue"@.len() == 7);
}

/// The command of a dashboard opens it while a turn runs.
pub proof fn dashboards_open_while_busy(
    s: StateModel,
    f: FactsModel,
    input: SubmissionModel,
    command: Seq<char>,
)
    requires
        dashboard_of(word_and_rest(command).0) != Dashboard::Nothing,
        word_and_rest(command).1.len() == 0,
        input.images.len() == 0,
    ensures
        busy_ordered(s, f, input, command) == (
            s,
            BusyStepModel::Open(dashboard_of(word_and_rest(command).0)),
        ),
{
    reveal(busy_ordered);
    reveal_strlit("reasoning");
    reveal_strlit("goal");
    reveal_strlit("plan");
    reveal_strlit("unqueue");
    reveal_strlit("subagents");
    reveal_strlit("ps");
    reveal_strlit("git");
    assert("reasoning"@.len() == 9 && "reasoning"@[0] == 'r');
    assert("goal"@.len() == 4 && "plan"@.len() == 4 && "unqueue"@.len() == 7);
    assert("subagents"@.len() == 9 && "subagents"@[0] == 's');
    assert("ps"@.len() == 2 && "git"@.len() == 3);
}

/// A dashboard that is open takes every event of a running turn, and leaves the
/// conversation as it is.
pub proof fn open_dashboards_take_events(
    s: StateModel,
    e: EditorModel,
    c: CompletionModel,
    f: FactsModel,
    dashboard: Dashboard,
    focus: Focus,
    event: EventModel,
)
    requires
        dashboard != Dashboard::Nothing,
    ensures
        busy_taken(s, e, c, f, dashboard, focus, event) == (Busy {
            state: s,
            editor: e,
            completion: c,
            step: BusyStepModel::Plain(
                match dashboard {
                    Dashboard::Subagents => StepModel::Subagents(event),
                    Dashboard::Processes => StepModel::Processes(event),
                    _ => StepModel::Git(event),
                },
            ),
        }),
{
}

/// While a turn runs a command that it would disturb waits behind the queue as
/// it was typed, and so does any message with images that begins with a slash.
pub proof fn other_commands_wait(
    s: StateModel,
    f: FactsModel,
    input: SubmissionModel,
    name: Seq<char>,
    argument: Seq<char>,
)
    requires
        forall|i: int| 0 <= i < name.len() ==> !crate::text::whitespace(#[trigger] name[i]),
        name != "goal"@ && name != "plan"@ && name != "unqueue"@ && name != "reasoning"@,
        name != "subagents"@ && name != "ps"@ && name != "git"@,
    ensures
        busy_ordered(s, f, input, name + " "@ + argument) == (queued_behind(s, input), no_step()),
        input.images.len() > 0 ==> busy_ordered(s, f, input, "goal"@ + " "@ + argument) == (
            queued_behind(s, input),
            no_step(),
        ),
        queued_behind(s, input).queued_inputs == s.queued_inputs.push(input),
{
    reveal(busy_ordered);
    crate::submission::names_end_at_white_space(name, argument);
}

/// Goals and plans are only told about while a turn runs; the queue can be
/// changed, and each dashboard opens by its own command.
pub proof fn commands_are_answered_while_busy(
    s: StateModel,
    f: FactsModel,
    input: SubmissionModel,
    command: Seq<char>,
    argument: Seq<char>,
)
    requires
        input.images.len() == 0,
    ensures
        word_and_rest(command) == ("goal"@, argument) ==> busy_ordered(s, f, input, command) == (
            s.noted(busy_goal_text(s, argument)),
            no_step(),
        ),
        word_and_rest(command) == ("plan"@, argument) ==> busy_ordered(s, f, input, command) == (
            s.noted(busy_plan_text(s, argument)),
            no_step(),
        ),
        word_and_rest(command) == ("unqueue"@, argument) ==> busy_ordered(s, f, input, command) == (
            unqueued(s, argument),
            no_step(),
        ),
        dashboard_of("subagents"@) == Dashboard::Subagents,
        dashboard_of("ps"@) == Dashboard::Processes,
        dashboard_of("git"@) == Dashboard::Git,
{
    reveal(busy_ordered);
    reveal_strlit("goal");
    reveal_strlit("plan");
    reveal_strlit("unqueue");
    reveal_strlit("subagents");
    reveal_strlit("ps");
    reveal_strlit("git");
    assert("goal"@.len() == 4 && "goal"@[0] == 'g' && "plan"@.len() == 4 && "plan"@[0] == 'p'
        && "unqueue"@.len() == 7 && "subagents"@.len() == 9 && "ps"@.len() == 2 && "git"@.len()
        == 3);
}

/// A message that is chosen from the queue while a turn runs stops the turn to
/// be sent next; a level of reasoning that is chosen is set at once.
pub proof fn chosen_messages_stop_the_turn(s: StateModel, index: usize, effort: Option<Seq<char>>)
    requires
        index < s.queued_inputs.len(),
    ensures
        ({
            let (now, step) = busy_chosen(s, ActionModel::SendQueued(index));
            &&& step == BusyStepModel::Cancel
            &&& now.queued_inputs[0] == s.queued_inputs[index as int]
        }),
        busy_chosen(s, ActionModel::SetReasoning { effort, save: false }).1
            == BusyStepModel::SetEffort(effort),
        !(busy_chosen(s, ActionModel::SetReasoning { effort, save: true }).1
            == BusyStepModel::SetEffort(effort)),
{
    reveal(busy_chosen);
    reveal(queue_handled);
    crate::queue::promoting_puts_first(s, index);
    reveal(queue_promoted);
}

/// What is said while a turn runs steers it, unless it is a command: it joins
/// the messages that wait to be handed over, behind those before it.
pub proof fn messages_steer_the_turn(s: StateModel, f: FactsModel, input: SubmissionModel)
    requires
        trimmed(input.text).len() == 0 || trimmed(input.text)[0] != '/',
    ensures
        ({
            let now = busy_said(s, f, input).0;
            &&& now.pending_steers == s.pending_steers.push(input)
            &&& now.queued_inputs == s.queued_inputs
            &&& busy_said(s, f, input).1 == no_step()
        }),
{
    reveal_strlit("/");
    assert("/"@[0] == '/');
}

} // verus!
