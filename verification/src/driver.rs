//! How the interface goes on: what it does next, and what takes an event.

use vstd::prelude::*;
use crate::clipboard::MAX_IMAGES;
use crate::completion::{
    completion_keyed, handle_completion_key, needs_files, waits_for_files, CompletionModel,
    CompletionState,
};
use crate::editor::{
    EditAction, EditActionModel, Editor, EditorModel, Submission, SubmissionModel,
};
use crate::events::{Event, EventModel, Key, MouseEvent};
use crate::model::{option_view, views};
use crate::navigation::{
    handle_key, navigated, scroll, scrolled, with_offset, Focus, Navigation,
};
use crate::picker::action::{ActionModel, PickerAction};
use crate::queue::{queue_promoted, queue_settled, settle_queue};
use crate::sessions::attempt_of;
use crate::state::{
    picker_is_editing, picker_keyed, state_model, take_first, take_picker_action, StateModel,
    ViewState,
};
use crate::submission::{turn_ended, TurnEnd};
use crate::text::{cat2, cat3, chars_of};

verus! {

broadcast use vstd::string::group_string_axioms;

/// What comes next.
#[derive(Debug)]
pub enum Next {
    /// Results of subagents are to be delivered.
    Deliver,
    Activate(PickerAction),
    Submit(Submission),
    /// Wait for an event.
    Wait,
}

pub enum NextModel {
    Deliver,
    Activate(ActionModel),
    Submit(SubmissionModel),
    Wait,
}

impl View for Next {
    type V = NextModel;

    open spec fn view(&self) -> NextModel {
        match self {
            Next::Deliver => NextModel::Deliver,
            Next::Activate(a) => NextModel::Activate(a@),
            Next::Submit(a) => NextModel::Submit(a@),
            Next::Wait => NextModel::Wait,
        }
    }
}

/// What an event leads to outside of the state.
#[derive(Debug)]
pub enum Step {
    Nothing,
    /// The dashboard of the subagents takes the event.
    Subagents(Event),
    Processes(Event),
    Git(Event),
    Activate(PickerAction),
    /// Draw everything anew.
    Repaint,
    Mouse(MouseEvent),
    /// Time has passed.
    Tick,
    PasteSearch(String),
    /// Take an image from the clipboard, and the keyboard from the
    /// conversation where it had it.
    PasteImage { blur: bool },
    /// The conversation loses the keyboard.
    Blur,
    Navigate(Navigation),
    /// The key belongs to the composer.
    Composer(Key),
    /// The files of the project are needed first.
    ScanFiles,
    ToggleTools,
    FocusTranscript,
    Submit(Submission),
}

pub enum StepModel {
    Nothing,
    Subagents(EventModel),
    Processes(EventModel),
    Git(EventModel),
    Activate(ActionModel),
    Repaint,
    Mouse(MouseEvent),
    Tick,
    PasteSearch(Seq<char>),
    PasteImage { blur: bool },
    Blur,
    Navigate(Navigation),
    Composer(Key),
    ScanFiles,
    ToggleTools,
    FocusTranscript,
    Submit(SubmissionModel),
}

impl View for Step {
    type V = StepModel;

    open spec fn view(&self) -> StepModel {
        match self {
            Step::Nothing => StepModel::Nothing,
            Step::Subagents(a) => StepModel::Subagents(a@),
            Step::Processes(a) => StepModel::Processes(a@),
            Step::Git(a) => StepModel::Git(a@),
            Step::Activate(a) => StepModel::Activate(a@),
            Step::Repaint => StepModel::Repaint,
            Step::Mouse(a) => StepModel::Mouse(*a),
            Step::Tick => StepModel::Tick,
            Step::PasteSearch(a) => StepModel::PasteSearch(a@),
            Step::PasteImage { blur } => StepModel::PasteImage { blur: *blur },
            Step::Blur => StepModel::Blur,
            Step::Navigate(a) => StepModel::Navigate(*a),
            Step::Composer(a) => StepModel::Composer(*a),
            Step::ScanFiles => StepModel::ScanFiles,
            Step::ToggleTools => StepModel::ToggleTools,
            Step::FocusTranscript => StepModel::FocusTranscript,
            Step::Submit(a) => StepModel::Submit(a@),
        }
    }
}

// ---------------------------------------------------------------------------
// What comes next

pub open spec fn delivering(s: StateModel) -> StateModel {
    StateModel { activity: "delivering subagent results"@, turn_running: true, ..s }
}

/// The state and what comes next. Results of subagents come before choices
/// that were put off, and those before messages that wait; a menu that is open
/// and a queue that is paused keep the messages waiting.
pub open spec fn scheduled(s: StateModel, deferred: bool) -> (StateModel, NextModel) {
    if deferred {
        (delivering(s), NextModel::Deliver)
    } else if s.pending_actions.len() > 0 {
        (
            StateModel { pending_actions: s.pending_actions.skip(1), ..s },
            NextModel::Activate(s.pending_actions[0]),
        )
    } else if s.picker is None && !s.queue_paused && s.queued_inputs.len() > 0 {
        (
            StateModel { queued_inputs: s.queued_inputs.skip(1), ..s },
            NextModel::Submit(s.queued_inputs[0]),
        )
    } else {
        (s, NextModel::Wait)
    }
}

/// Decides what comes next; see `scheduled`. `deferred` says whether results
/// of subagents are waiting.
pub fn next_step(state: &mut ViewState, deferred: bool) -> (r: Next)
    ensures
        (final(state)@, r@) == scheduled(old(state)@, deferred),
{
    proof {
        reveal(state_model);
    }
    if deferred {
        state.activity = "delivering subagent results".to_owned();
        state.turn_running = true;
        return Next::Deliver;
    }
    match take_first(&mut state.pending_actions) {
        Some(action) => {
            assert(views(old(state).pending_actions@)[0] == action@);
            assert(views(state.pending_actions@) =~= views(old(state).pending_actions@).skip(1));
            return Next::Activate(action);
        },
        None => {},
    }
    if state.picker.is_none() && !state.queue_paused {
        match take_first(&mut state.queued_inputs) {
            Some(input) => {
                assert(views(old(state).queued_inputs@)[0] == input@);
                assert(views(state.queued_inputs@) =~= views(old(state).queued_inputs@).skip(1));
                return Next::Submit(input);
            },
            None => {},
        }
    }
    Next::Wait
}

pub open spec fn delivered(s: StateModel, end: TurnEnd) -> StateModel {
    let now = match end {
        TurnEnd::Finished => s,
        TurnEnd::Interrupted => s.noted("Subagent result follow-up interrupted."@),
        TurnEnd::Failed(error) => s.noted("Subagent result follow-up failed: "@ + error@),
    };
    StateModel { activity: ""@, turn_running: false, ..queue_settled(now, end is Interrupted) }
}

fn rest(state: &mut ViewState)
    ensures
        final(state)@ == (StateModel { activity: ""@, turn_running: false, ..old(state)@ }),
{
    proof {
        reveal(state_model);
    }
    state.activity = "".to_owned();
    state.turn_running = false;
}

/// Shows what came of the delivery of results, and settles the queue as at the
/// end of every turn.
pub fn settle_delivery(state: &mut ViewState, end: &TurnEnd)
    ensures
        final(state)@ == delivered(old(state)@, *end),
{
    match end {
        TurnEnd::Finished => settle_queue(state, false),
        TurnEnd::Interrupted => {
            state.notice("Subagent result follow-up interrupted.");
            settle_queue(state, true);
        },
        TurnEnd::Failed(error) => {
            state.notice(cat2("Subagent result follow-up failed: ", error.as_str()).as_str());
            settle_queue(state, false);
        },
    }
    rest(state);
}

// ---------------------------------------------------------------------------
// Events

/// The dashboard that covers the conversation.
#[derive(Debug, Clone, Copy, PartialEq, Eq, Structural)]
pub enum Dashboard {
    Nothing,
    Subagents,
    Processes,
    Git,
}

pub struct Taken {
    pub state: StateModel,
    pub editor: EditorModel,
    pub step: StepModel,
}

/// An event while a menu is open.
#[verifier::opaque]
pub open spec fn menu_taken(s: StateModel, e: EditorModel, event: EventModel) -> Taken {
    match event {
        EventModel::Key(key) => if key == Key::Ctrl('l') {
            Taken { state: s, editor: e, step: StepModel::Repaint }
        } else {
            let (now, editor, action) = picker_keyed(s, e, key);
            Taken {
                state: now,
                editor,
                step: match action {
                    Some(action) => StepModel::Activate(action),
                    None => StepModel::Nothing,
                },
            }
        },
        EventModel::Paste(text) => Taken {
            state: s,
            editor: if s.is_editing() {
                e.pasted(text)
            } else {
                e
            },
            step: StepModel::Nothing,
        },
        EventModel::Mouse(mouse) => Taken { state: s, editor: e, step: StepModel::Mouse(mouse) },
        EventModel::Tick => Taken { state: s, editor: e, step: StepModel::Tick },
        _ => Taken { state: s, editor: e, step: StepModel::Nothing },
    }
}

fn take_in_menu(state: &mut ViewState, editor: &mut Editor, event: Event) -> (r: Step)
    requires
        old(editor).wf(),
    ensures
        final(editor).wf(),
        (Taken { state: final(state)@, editor: final(editor)@, step: r@ }) == menu_taken(
            old(state)@,
            old(editor)@,
            event@,
        ),
{
    proof {
        reveal(menu_taken);
    }
    match event {
        Event::Key(key) => {
            if key == Key::Ctrl('l') {
                return Step::Repaint;
            }
            match take_picker_action(state, editor, key) {
                Some(action) => Step::Activate(action),
                None => Step::Nothing,
            }
        },
        Event::Paste(text) => {
            if picker_is_editing(state) {
                editor.paste(text.as_str());
            }
            Step::Nothing
        },
        Event::Mouse(mouse) => Step::Mouse(mouse),
        Event::Tick => Step::Tick,
        _ => Step::Nothing,
    }
}

/// A text that is pasted while no menu is open: into the search, or into the
/// composer. An empty one stands for an image.
pub open spec fn text_pasted(s: StateModel, e: EditorModel, focus: Focus, text: Seq<char>) -> Taken {
    if focus == Focus::Search {
        Taken { state: s, editor: e, step: StepModel::PasteSearch(text) }
    } else if text.len() == 0 {
        Taken { state: with_offset(s, 0), editor: e, step: StepModel::PasteImage { blur: true } }
    } else {
        Taken { state: with_offset(s, 0), editor: e.pasted(text), step: StepModel::Blur }
    }
}

fn show_end(state: &mut ViewState)
    ensures
        final(state)@ == with_offset(old(state)@, 0),
{
    proof {
        reveal(state_model);
    }
    state.scroll_offset = 0;
}

/// An event while no menu is open.
#[verifier::opaque]
pub open spec fn plainly_taken(s: StateModel, e: EditorModel, focus: Focus, event: EventModel) -> Taken {
    match event {
        EventModel::Tick => Taken { state: s, editor: e, step: StepModel::Tick },
        EventModel::MouseScroll(amount) => Taken {
            state: with_offset(s, scrolled(s.scroll_offset, amount)),
            editor: e,
            step: StepModel::Nothing,
        },
        EventModel::Mouse(mouse) => Taken { state: s, editor: e, step: StepModel::Mouse(mouse) },
        EventModel::Paste(text) => text_pasted(s, e, focus, text),
        EventModel::Key(key) => {
            let (now, navigation) = navigated(s, focus, key);
            Taken {
                state: now,
                editor: e,
                step: match navigation {
                    Some(navigation) => StepModel::Navigate(navigation),
                    None => StepModel::Composer(key),
                },
            }
        },
        _ => Taken { state: s, editor: e, step: StepModel::Nothing },
    }
}

fn take_plainly(state: &mut ViewState, editor: &mut Editor, focus: Focus, event: Event) -> (r: Step)
    requires
        old(editor).wf(),
    ensures
        final(editor).wf(),
        (Taken { state: final(state)@, editor: final(editor)@, step: r@ }) == plainly_taken(
            old(state)@,
            old(editor)@,
            focus,
            event@,
        ),
{
    proof {
        reveal(plainly_taken);
    }
    match event {
        Event::Tick => Step::Tick,
        Event::MouseScroll(amount) => {
            scroll(state, amount);
            Step::Nothing
        },
        Event::Mouse(mouse) => Step::Mouse(mouse),
        Event::Paste(text) => {
            if focus == Focus::Search {
                return Step::PasteSearch(text);
            }
            let n: usize = chars_of(text.as_str()).len();
            show_end(state);
            if n == 0 {
                Step::PasteImage { blur: true }
            } else {
                editor.paste(text.as_str());
                Step::Blur
            }
        },
        Event::Key(key) => match handle_key(state, focus, key) {
            Some(navigation) => Step::Navigate(navigation),
            None => Step::Composer(key),
        },
        _ => Step::Nothing,
    }
}

/// What takes an event: the dashboard that covers the conversation, the menu
/// that is open, or the conversation and the composer.
pub open spec fn taken(
    s: StateModel,
    e: EditorModel,
    dashboard: Dashboard,
    focus: Focus,
    event: EventModel,
) -> Taken {
    match dashboard {
        Dashboard::Subagents => Taken { state: s, editor: e, step: StepModel::Subagents(event) },
        Dashboard::Processes => Taken { state: s, editor: e, step: StepModel::Processes(event) },
        Dashboard::Git => Taken { state: s, editor: e, step: StepModel::Git(event) },
        Dashboard::Nothing => if s.picker is Some {
            menu_taken(s, e, event)
        } else {
            plainly_taken(s, e, focus, event)
        },
    }
}

fn has_menu(state: &ViewState) -> (r: bool)
    ensures
        r == (state@.picker is Some),
{
    proof {
        reveal(state_model);
    }
    state.picker.is_some()
}

/// Gives an event to what takes it; see `taken`.
pub fn take_event(
    state: &mut ViewState,
    editor: &mut Editor,
    dashboard: Dashboard,
    focus: Focus,
    event: Event,
) -> (r: Step)
    requires
        old(editor).wf(),
    ensures
        final(editor).wf(),
        (Taken { state: final(state)@, editor: final(editor)@, step: r@ }) == taken(
            old(state)@,
            old(editor)@,
            dashboard,
            focus,
            event@,
        ),
{
    match dashboard {
        Dashboard::Subagents => Step::Subagents(event),
        Dashboard::Processes => Step::Processes(event),
        Dashboard::Git => Step::Git(event),
        Dashboard::Nothing => if has_menu(state) {
            take_in_menu(state, editor, event)
        } else {
            take_plainly(state, editor, focus, event)
        },
    }
}

// ---------------------------------------------------------------------------
// Keys of the composer

pub struct Composed {
    pub state: StateModel,
    pub editor: EditorModel,
    pub completion: CompletionModel,
    pub step: StepModel,
}

/// A key that is not one of the keys with a meaning of their own.
pub open spec fn completed(s: StateModel, e: EditorModel, c: CompletionModel, key: Key) -> Composed {
    if waits_for_files(c, e) {
        Composed { state: s, editor: e, completion: c, step: StepModel::ScanFiles }
    } else {
        let (completion, editor, took) = completion_keyed(c, e, key);
        if took {
            Composed { state: s, editor, completion, step: StepModel::Nothing }
        } else if key == Key::Tab {
            Composed { state: s, editor, completion, step: StepModel::FocusTranscript }
        } else {
            let (now, edit) = editor.keyed(key);
            match edit {
                EditActionModel::Submit(input) => Composed {
                    state: s,
                    editor: now.remembered(input),
                    completion,
                    step: StepModel::Submit(input),
                },
                EditActionModel::Steer(input) => Composed {
                    state: s,
                    editor: now.remembered(input),
                    completion,
                    step: StepModel::Submit(input),
                },
                EditActionModel::Nothing => Composed {
                    state: s,
                    editor: now,
                    completion,
                    step: StepModel::Nothing,
                },
            }
        }
    }
}

/// A key of the composer.
#[verifier::opaque]
pub open spec fn composed(s: StateModel, e: EditorModel, c: CompletionModel, key: Key) -> Composed {
    let same = Composed { state: s, editor: e, completion: c, step: StepModel::Nothing };
    if key == Key::PageUp {
        Composed { state: with_offset(s, scrolled(s.scroll_offset, 10)), ..same }
    } else if key == Key::PageDown {
        Composed { state: with_offset(s, scrolled(s.scroll_offset, -10)), ..same }
    } else if key == Key::Ctrl('c') {
        Composed { state: s.doing("input cleared"@), editor: e.cleared(), ..same }
    } else if key == Key::Ctrl('l') {
        Composed { step: StepModel::Repaint, ..same }
    } else if key == Key::Ctrl('o') {
        Composed { step: StepModel::ToggleTools, ..same }
    } else if key == Key::Ctrl('v') {
        Composed { step: StepModel::PasteImage { blur: false }, ..same }
    } else {
        completed(s, e, c, key)
    }
}

fn complete(completion: &mut CompletionState, editor: &mut Editor, key: Key) -> (r: Step)
    requires
        old(completion).wf(),
        old(editor).wf(),
    ensures
        final(completion).wf(),
        final(editor).wf(),
        forall|s: StateModel|
            (Composed {
                state: s,
                editor: final(editor)@,
                completion: final(completion)@,
                step: r@,
            }) == #[trigger] completed(s, old(editor)@, old(completion)@, key),
{
    if needs_files(completion, editor) {
        return Step::ScanFiles;
    }
    if handle_completion_key(completion, editor, key) {
        return Step::Nothing;
    }
    if key == Key::Tab {
        return Step::FocusTranscript;
    }
    match editor.handle_key(key) {
        EditAction::Submit(input) | EditAction::Steer(input) => {
            editor.remember(&input);
            Step::Submit(input)
        },
        EditAction::Nothing => Step::Nothing,
    }
}

/// Gives a key to the composer; see `composed`. Where the files of the project
/// are needed first, the key is given again once they are there.
pub fn compose(
    state: &mut ViewState,
    editor: &mut Editor,
    completion: &mut CompletionState,
    key: Key,
) -> (r: Step)
    requires
        old(editor).wf(),
        old(completion).wf(),
    ensures
        final(editor).wf(),
        final(completion).wf(),
        (Composed {
            state: final(state)@,
            editor: final(editor)@,
            completion: final(completion)@,
            step: r@,
        }) == composed(old(state)@, old(editor)@, old(completion)@, key),
{
    proof {
        reveal(composed);
    }
    if key == Key::PageUp {
        scroll(state, 10);
        return Step::Nothing;
    }
    if key == Key::PageDown {
        scroll(state, -10);
        return Step::Nothing;
    }
    if key == Key::Ctrl('c') {
        editor.clear();
        state.set_activity("input cleared");
        return Step::Nothing;
    }
    if key == Key::Ctrl('l') {
        return Step::Repaint;
    }
    if key == Key::Ctrl('o') {
        return Step::ToggleTools;
    }
    if key == Key::Ctrl('v') {
        return Step::PasteImage { blur: false };
    }
    complete(completion, editor, key)
}

/// Answers an interrupt that no dashboard has taken: what was typed is gone.
pub fn clear_input(state: &mut ViewState, editor: &mut Editor)
    ensures
        final(state)@ == old(state)@.doing("input cleared"@),
        final(editor)@ == old(editor)@.cleared(),
        old(editor).wf() ==> final(editor).wf(),
{
    editor.clear();
    state.set_activity("input cleared");
}

/// Why no image is taken from the clipboard, where none is: the model takes
/// none, or the message holds as many as it may.
pub open spec fn image_refused(e: EditorModel, supported: bool) -> Option<Seq<char>> {
    if !supported {
        Some("the model does not accept image input"@)
    } else if e.images.len() >= MAX_IMAGES {
        Some("a prompt takes at most five images"@)
    } else {
        None
    }
}

pub fn refuse_image(editor: &Editor, supported: bool) -> (r: Option<String>)
    ensures
        option_view(r) == image_refused(editor@, supported),
{
    if !supported {
        Some("the model does not accept image input".to_owned())
    } else if !editor.can_attach() {
        Some("a prompt takes at most five images".to_owned())
    } else {
        None
    }
}

pub open spec fn image_pasted(s: StateModel, outcome: Result<(), Seq<char>>) -> StateModel {
    match outcome {
        Ok(()) => with_offset(s, 0),
        Err(error) => s.noted("Could not paste image: "@ + error + "."@),
    }
}

/// Shows what came of an image from the clipboard.
pub fn settle_image(state: &mut ViewState, outcome: &Result<(), String>)
    ensures
        final(state)@ == image_pasted(old(state)@, attempt_of(*outcome)),
{
    match outcome {
        Ok(()) => show_end(state),
        Err(error) => state.notice(
            cat3("Could not paste image: ", error.as_str(), ".").as_str(),
        ),
    }
}

// ---------------------------------------------------------------------------
// Laws

/// Messages that wait are sent in their order, one at a time, and none while a
/// menu is open or the queue is paused.
pub proof fn queue_is_sent_in_order(s: StateModel)
    ensures
        match scheduled(s, false) {
            (now, NextModel::Submit(input)) => {
                &&& s.picker is None && !s.queue_paused
                &&& s.queued_inputs == seq![input] + now.queued_inputs
            },
            (now, _) => now.queued_inputs == s.queued_inputs,
        },
{
    if s.queued_inputs.len() > 0 {
        assert(s.queued_inputs =~= seq![s.queued_inputs[0]] + s.queued_inputs.skip(1));
    }
}

/// A turn that was canceled does not start the next one by itself, whether
/// messages wait in the queue or were sent into the turn and not taken.
pub proof fn canceled_turns_pause_the_queue(s: StateModel, goal: Option<Seq<char>>)
    requires
        s.pending_actions.len() == 0,
        !s.send_next,
    ensures
        scheduled(turn_ended(s, TurnEnd::Interrupted, goal), false).1 == NextModel::Wait,
        scheduled(delivered(s, TurnEnd::Interrupted), false).1 == NextModel::Wait,
{
}

/// A message that the running turn is stopped for is sent next, however the
/// turn ends; without a turn it is sent at once.
pub proof fn promoted_message_is_sent_next(
    s: StateModel,
    index: usize,
    end: TurnEnd,
    goal: Option<Seq<char>>,
)
    requires
        index < s.queued_inputs.len(),
        s.pending_actions.len() == 0,
        s.picker is None,
    ensures
        ({
            let promoted = queue_promoted(s, index).0;
            let message = NextModel::Submit(s.queued_inputs[index as int]);
            if s.turn_running {
                &&& scheduled(turn_ended(promoted, end, goal), false).1 == message
                &&& scheduled(delivered(promoted, end), false).1 == message
            } else {
                scheduled(promoted, false).1 == message
            }
        }),
{
    reveal(queue_promoted);
    crate::queue::promoting_puts_first(s, index);
}

/// A turn that ends by itself is followed by the messages that it has not
/// taken, then by those that wait, unless the queue was paused before.
pub proof fn finished_turns_go_on(s: StateModel, goal: Option<Seq<char>>)
    requires
        s.pending_actions.len() == 0,
        s.picker is None,
        !s.queue_paused,
        !s.send_next,
        s.pending_steers.len() + s.queued_inputs.len() > 0,
    ensures
        scheduled(turn_ended(s, TurnEnd::Finished, goal), false).1 == NextModel::Submit(
            (s.pending_steers + s.queued_inputs)[0],
        ),
{
}

/// A dashboard that covers the conversation takes every event.
pub proof fn dashboards_take_every_event(
    s: StateModel,
    e: EditorModel,
    dashboard: Dashboard,
    focus: Focus,
    event: EventModel,
)
    requires
        dashboard != Dashboard::Nothing,
    ensures
        taken(s, e, dashboard, focus, event).state == s,
        taken(s, e, dashboard, focus, event).editor == e,
{
}

/// While a menu is open, no key reaches the composer but through the menu.
pub proof fn menus_keep_keys(s: StateModel, e: EditorModel, focus: Focus, key: Key)
    requires
        s.picker is Some,
    ensures
        !(taken(s, e, Dashboard::Nothing, focus, EventModel::Key(key)).step is Composer),
{
    reveal(menu_taken);
}

/// Choices that were put off are carried out before a message that waits is
/// sent.
pub proof fn changes_come_before_messages(s: StateModel, deferred: bool)
    ensures
        scheduled(s, deferred).1 is Submit ==> s.pending_actions.len() == 0,
{
}

/// Neither Escape nor Ctrl+C sends anything, so neither leaves the interface.
pub proof fn escape_sends_nothing(
    s: StateModel,
    e: EditorModel,
    c: CompletionModel,
    dashboard: Dashboard,
    focus: Focus,
    key: Key,
)
    requires
        key == Key::Escape || key == Key::Ctrl('c'),
    ensures
        !(composed(s, e, c, key).step is Submit),
        !(taken(s, e, dashboard, focus, EventModel::Key(key)).step is Submit),
{
    reveal(composed);
    reveal(menu_taken);
    reveal(plainly_taken);
}

/// What comes next: results of subagents first, then a choice that waits, then
/// the first message of the queue, unless the queue is paused or a menu is
/// open.
pub proof fn what_waits_is_taken_in_turn(s: StateModel)
    ensures
        scheduled(s, true).1 == NextModel::Deliver && scheduled(s, true).0.turn_running,
        s.pending_actions.len() > 0 ==> scheduled(s, false).1 == NextModel::Activate(
            s.pending_actions[0],
        ) && scheduled(s, false).0.pending_actions == s.pending_actions.skip(1),
        s.pending_actions.len() == 0 && s.queued_inputs.len() > 0 && s.picker is None
            && !s.queue_paused ==> scheduled(s, false).1 == NextModel::Submit(s.queued_inputs[0])
            && scheduled(s, false).0.queued_inputs == s.queued_inputs.skip(1),
        s.pending_actions.len() == 0 && (s.queued_inputs.len() == 0 || s.picker is Some
            || s.queue_paused) ==> scheduled(s, false) == (s, NextModel::Wait),
{
}

/// Results of subagents that were delivered leave nothing running, and say so
/// where they were stopped or failed.
pub proof fn deliveries_end(s: StateModel, end: TurnEnd)
    ensures
        !delivered(s, end).turn_running,
        delivered(s, end).activity == ""@,
        delivered(s, TurnEnd::Finished).notices == s.notices,
        delivered(s, TurnEnd::Interrupted).notices == s.notices.push(
            "Subagent result follow-up interrupted."@,
        ),
        end matches TurnEnd::Failed(error) ==> delivered(s, end).notices == s.notices.push(
            "Subagent result follow-up failed: "@ + error@,
        ),
{
}

/// The keys of the conversation that the composer does not type with: the page
/// keys scroll by ten rows, Ctrl+C empties the composer, Ctrl+L paints the
/// screen anew, Ctrl+O folds the tools and Ctrl+V pastes an image.
pub proof fn composer_keys_have_their_tasks(s: StateModel, e: EditorModel, c: CompletionModel)
    ensures
        s.scroll_offset <= usize::MAX - 10 ==> composed(s, e, c, Key::PageUp).state.scroll_offset
            == s.scroll_offset + 10,
        s.scroll_offset >= 10 ==> composed(s, e, c, Key::PageDown).state.scroll_offset
            == s.scroll_offset - 10,
        composed(s, e, c, Key::Ctrl('c')).editor.text.len() == 0,
        composed(s, e, c, Key::Ctrl('c')).editor.images.len() == 0,
        composed(s, e, c, Key::Ctrl('l')).step == StepModel::Repaint,
        composed(s, e, c, Key::Ctrl('o')).step == StepModel::ToggleTools,
        composed(s, e, c, Key::Ctrl('v')).step == (StepModel::PasteImage { blur: false }),
        forall|key: Key|
            key == Key::PageUp || key == Key::PageDown || key == Key::Ctrl('l') || key == Key::Ctrl(
                'o',
            ) || key == Key::Ctrl('v') ==> (#[trigger] composed(s, e, c, key)).editor == e,
{
    reveal(composed);
}

/// Where nothing is completed, Enter sends the message, which is remembered, and
/// the composer is empty; Tab goes to the conversation; a character is typed.
pub proof fn enter_sends_the_message(
    s: StateModel,
    e: EditorModel,
    c: CompletionModel,
    ch: char,
)
    requires
        e.command() is None,
        e.mention() is None,
        crate::text::trimmed(e.text).len() > 0,
    ensures
        ({
            let sent = composed(s, e, c, Key::Enter);
            &&& sent.step == StepModel::Submit(e.submission())
            &&& sent.editor == e.cleared().remembered(e.submission())
            &&& sent.state == s
            &&& composed(s, e, c, Key::Tab).step == StepModel::FocusTranscript
            &&& composed(s, e, c, Key::Tab).editor == e
            &&& composed(s, e, c, Key::Char(ch)).editor == e.keyed(Key::Char(ch)).0
            &&& composed(s, e, c, Key::Char(ch)).step == StepModel::Nothing
        }),
{
    reveal(composed);
}

/// What is pasted stands in the composer, or in the search where that has the
/// keyboard; an empty paste asks for an image.
pub proof fn pastes_go_where_text_is_typed(
    s: StateModel,
    e: EditorModel,
    focus: Focus,
    text: Seq<char>,
)
    requires
        s.picker is None,
    ensures
        ({
            let now = taken(s, e, Dashboard::Nothing, focus, EventModel::Paste(text));
            &&& focus == Focus::Search ==> now.step == StepModel::PasteSearch(text) && now.editor
                == e
            &&& focus != Focus::Search && text.len() > 0 ==> now.editor == e.pasted(text)
            &&& focus != Focus::Search && text.len() == 0 ==> now.step == (StepModel::PasteImage {
                blur: true,
            }) && now.editor == e
        }),
{
    reveal(plainly_taken);
}

/// The wheel scrolls the conversation by as many rows as it was turned, up to
/// older ones; a dashboard in front takes every event.
pub proof fn wheels_scroll_the_conversation(
    s: StateModel,
    e: EditorModel,
    focus: Focus,
    amount: int,
    event: EventModel,
)
    requires
        s.picker is None,
        0 <= s.scroll_offset + amount <= usize::MAX,
    ensures
        taken(
            s,
            e,
            Dashboard::Nothing,
            focus,
            EventModel::MouseScroll(amount),
        ).state.scroll_offset == s.scroll_offset + amount,
        taken(s, e, Dashboard::Git, focus, event).step == StepModel::Git(event),
        taken(s, e, Dashboard::Subagents, focus, event).step == StepModel::Subagents(event),
        taken(s, e, Dashboard::Processes, focus, event).step == StepModel::Processes(event),
{
    reveal(plainly_taken);
}

/// While a menu is open what is pasted is dropped, unless a value is edited;
/// what the menu chose is carried out.
pub proof fn menus_take_pastes_only_to_edit(
    s: StateModel,
    e: EditorModel,
    focus: Focus,
    text: Seq<char>,
    key: Key,
)
    requires
        s.picker is Some,
        key != Key::Ctrl('l'),
    ensures
        ({
            let now = taken(s, e, Dashboard::Nothing, focus, EventModel::Paste(text));
            now.editor == (if s.picker->0.editing is Some {
                e.pasted(text)
            } else {
                e
            }) && now.state == s
        }),
        ({
            let now = taken(s, e, Dashboard::Nothing, focus, EventModel::Key(key));
            match picker_keyed(s, e, key).2 {
                Some(action) => now.step == StepModel::Activate(action),
                None => now.step == StepModel::Nothing,
            }
        }),
{
    reveal(menu_taken);
}

/// An image is refused where the model takes none or five are attached; any
/// other outcome of a paste is told.
pub proof fn images_are_refused_for_a_reason(
    s: StateModel,
    e: EditorModel,
    supported: bool,
    error: Seq<char>,
)
    ensures
        image_refused(e, supported) is None <==> supported && e.images.len() < 5,
        image_pasted(s, Err(error)).notices == s.notices.push(
            "Could not paste image: "@ + error + "."@,
        ),
        image_pasted(s, Ok(())).notices == s.notices,
{
}

} // verus!
