//! Messages that wait for the end of a turn.

use vstd::prelude::*;
use crate::editor::{Submission, SubmissionModel};
use crate::git::input::{join_lines, on_one_line};
use crate::model::{option_view, views};
use crate::picker::{choice, offer, ItemModel, Picker, PickerItem, PickerModel};
use crate::picker::action::{ActionModel, PickerAction};
use crate::rows::{at_most, minus, smaller};
use crate::state::{state_model, StateModel, ViewState};
use crate::tags::images_kept;
use crate::text::{
    cat2, cat3, cat4, chars_of, count_of, decimal, decimal_reads_back, digit, is, parse_unsigned, parsed_unsigned,
};

verus! {

broadcast use vstd::string::group_string_axioms;

/// The number of a message, counted from one.
fn number_of(index: usize) -> (r: String)
    ensures
        r@ == decimal(index as nat + 1),
{
    if index < usize::MAX {
        return count_of(index + 1);
    }
    // One more than the largest number: only its last digit is larger.
    let last: usize = usize::MAX % 10;
    let mut r = count_of(usize::MAX / 10);
    assert(last == 5 && (usize::MAX as nat + 1) / 10 == (usize::MAX / 10) as nat
        && (usize::MAX as nat + 1) % 10 == 6);
    r.push('6');
    assert(r@ =~= decimal(index as nat + 1));
    r
}

// ---------------------------------------------------------------------------
// The menu

pub open spec fn queued_choice(input: SubmissionModel, i: int) -> ItemModel {
    choice(
        "Queued "@ + decimal((i + 1) as nat),
        on_one_line(input.text),
        ActionModel::SendQueued(i as usize),
    )
}

pub open spec fn queue_choices(queue: Seq<SubmissionModel>) -> Seq<ItemModel> {
    Seq::new(queue.len(), |i: int| queued_choice(queue[i], i)).push(
        choice(
            "Clear all queued messages"@,
            "Remove all "@ + decimal(queue.len()) + " pending"@,
            ActionModel::ClearQueued,
        ),
    )
}

/// The list of the waiting messages, where there are some.
#[verifier::opaque]
pub open spec fn queue_menu(queue: Seq<SubmissionModel>, selected: usize) -> Option<PickerModel> {
    if queue.len() == 0 {
        None
    } else {
        Some(
            PickerModel {
                title: "Queued messages"@,
                hint: "↑/↓ select  K/J reorder  e edit  d delete  Enter send now"@,
                items: queue_choices(queue),
                selected: at_most(selected as nat, queue.len()) as usize,
                editing: None,
                parent: None,
            },
        )
    }
}

/// The list of the waiting messages; see `queue_menu`.
pub fn queue_picker(state: &ViewState, selected: usize) -> (r: Option<Picker>)
    ensures
        option_view(r) == queue_menu(state@.queued_inputs, selected),
{
    proof {
        reveal(state_model);
        reveal(queue_menu);
    }
    let n: usize = state.queued_inputs.len();
    if n == 0 {
        return None;
    }
    let ghost queue = state@.queued_inputs;
    let ghost all = queue_choices(queue);
    let mut items: Vec<PickerItem> = Vec::new();
    let mut i: usize = 0;
    assert(views(items@) =~= all.take(0));
    while i < n
        invariant
            i <= n,
            n == state.queued_inputs@.len(),
            queue == views(state.queued_inputs@),
            all == queue_choices(queue),
            views(items@) == all.take(i as int),
        decreases n - i,
    {
        proof {
            reveal(state_model);
        }
        assert(queue[i as int] == state.queued_inputs@[i as int]@);
        let label = cat2("Queued ", number_of(i).as_str());
        let text = join_lines(state.queued_inputs[i].text.as_str());
        offer(&mut items, label.as_str(), text.as_str(), PickerAction::SendQueued(i));
        i += 1;
        assert(views(items@) =~= all.take(i as int));
    }
    let text = cat3("Remove all ", count_of(n).as_str(), " pending");
    offer(
        &mut items,
        "Clear all queued messages",
        text.as_str(),
        PickerAction::ClearQueued,
    );
    assert(views(items@) =~= all);
    Some(
        Picker {
            title: "Queued messages".to_owned(),
            hint: "↑/↓ select  K/J reorder  e edit  d delete  Enter send now".to_owned(),
            items,
            selected: smaller(selected, n),
            editing: None,
            parent: None,
        },
    )
}

pub open spec fn queue_opened(s: StateModel) -> StateModel {
    let now = s.with_picker(queue_menu(s.queued_inputs, 0));
    if s.queued_inputs.len() == 0 {
        now.doing("no queued messages"@)
    } else {
        now
    }
}

/// Shows the waiting messages, or that there are none.
pub fn open_queue_picker(state: &mut ViewState)
    ensures
        final(state)@ == queue_opened(old(state)@),
{
    proof {
        reveal(state_model);
        reveal(queue_menu);
    }
    state.picker = queue_picker(state, 0);
    if state.picker.is_none() {
        state.set_activity("no queued messages");
    }
}

// ---------------------------------------------------------------------------
// Changes

/// A message is taken from the queue, where there is one at the place. A pause
/// ends with the last message that it held back.
pub open spec fn queue_removed(s: StateModel, index: usize) -> (StateModel, bool) {
    if index < s.queued_inputs.len() {
        (
            StateModel {
                queued_inputs: s.queued_inputs.remove(index as int),
                queue_paused: s.queue_paused && s.queued_inputs.len() > 1,
                send_next: s.send_next && index > 0,
                activity: "removed queued message "@ + decimal(index as nat + 1),
                scroll_offset: 0,
                ..s
            },
            true,
        )
    } else {
        (
            s.doing("queued message "@ + decimal(index as nat + 1) + " does not exist"@),
            false,
        )
    }
}

/// Takes a message from the queue; see `queue_removed`.
pub fn remove_queued(state: &mut ViewState, index: usize) -> (r: bool)
    ensures
        (final(state)@, r) == queue_removed(old(state)@, index),
{
    proof {
        reveal(state_model);
    }
    if index < state.queued_inputs.len() {
        let _input = state.queued_inputs.remove(index);
        assert(views(state.queued_inputs@) =~= views(old(state).queued_inputs@).remove(
            index as int,
        ));
        let text = cat2("removed queued message ", number_of(index).as_str());
        state.set_activity(text.as_str());
        state.queue_paused = state.queue_paused && state.queued_inputs.len() > 0;
        state.send_next = state.send_next && index > 0;
        state.scroll_offset = 0;
        true
    } else {
        let text = cat3("queued message ", number_of(index).as_str(), " does not exist");
        state.set_activity(text.as_str());
        false
    }
}

pub open spec fn cleared_note(count: nat) -> Seq<char> {
    if count == 0 {
        "no queued messages"@
    } else if count == 1 {
        "removed 1 queued message"@
    } else {
        "removed "@ + decimal(count) + " queued messages"@
    }
}

pub open spec fn queue_cleared(s: StateModel) -> StateModel {
    StateModel {
        queued_inputs: Seq::empty(),
        queue_paused: false,
        send_next: false,
        activity: cleared_note(s.queued_inputs.len()),
        scroll_offset: 0,
        ..s
    }
}

/// Takes all messages from the queue.
pub fn clear_queued(state: &mut ViewState)
    ensures
        final(state)@ == queue_cleared(old(state)@),
{
    proof {
        reveal(state_model);
    }
    let count: usize = state.queued_inputs.len();
    state.queued_inputs = Vec::new();
    assert(views(state.queued_inputs@) =~= Seq::empty());
    if count == 0 {
        state.set_activity("no queued messages");
    } else if count == 1 {
        state.set_activity("removed 1 queued message");
    } else {
        let text = cat3("removed ", count_of(count).as_str(), " queued messages");
        state.set_activity(text.as_str());
    }
    state.queue_paused = false;
    state.send_next = false;
    state.scroll_offset = 0;
}

/// A list with an element moved to another place.
pub open spec fn moved<T>(list: Seq<T>, from: int, to: int) -> Seq<T> {
    list.remove(from).insert(to, list[from])
}

/// Where a message is moved to: not beyond the ends of the queue.
pub open spec fn move_target(len: nat, index: nat, direction: int) -> nat {
    if direction < 0 {
        minus(index, (-direction) as nat)
    } else {
        at_most((index + direction) as nat, (len - 1) as nat)
    }
}

pub open spec fn move_note(from: nat, to: nat) -> Seq<char> {
    "moved queued message "@ + decimal(from + 1) + " to "@ + decimal(to + 1)
}

/// The queue after a message was moved, and where the message is then.
pub open spec fn queue_moved(s: StateModel, index: usize, direction: int) -> (StateModel, usize) {
    let len = s.queued_inputs.len();
    if index >= len {
        (s, index)
    } else {
        let target = move_target(len, index as nat, direction);
        if target == index {
            (s, index)
        } else {
            (
                StateModel {
                    queued_inputs: moved(s.queued_inputs, index as int, target as int),
                    activity: move_note(index as nat, target),
                    ..s
                },
                target as usize,
            )
        }
    }
}

fn move_to(state: &mut ViewState, index: usize, target: usize)
    requires
        index < old(state).queued_inputs@.len(),
        target < old(state).queued_inputs@.len(),
        target != index,
    ensures
        final(state)@ == (StateModel {
            queued_inputs: moved(old(state)@.queued_inputs, index as int, target as int),
            activity: move_note(index as nat, target as nat),
            ..old(state)@
        }),
{
    proof {
        reveal(state_model);
    }
    let input = state.queued_inputs.remove(index);
    state.queued_inputs.insert(target, input);
    assert(views(state.queued_inputs@) =~= moved(
        views(old(state).queued_inputs@),
        index as int,
        target as int,
    ));
    let text = cat4(
        "moved queued message ",
        number_of(index).as_str(),
        " to ",
        number_of(target).as_str(),
    );
    state.set_activity(text.as_str());
}

pub(crate) fn target_of(len: usize, index: usize, direction: isize) -> (r: usize)
    requires
        index < len,
    ensures
        r as nat == move_target(len as nat, index as nat, direction as int),
        r < len,
{
    if direction < 0 {
        let back: usize = if direction == isize::MIN {
            (isize::MAX as usize) + 1
        } else {
            (-direction) as usize
        };
        index.saturating_sub(back)
    } else {
        smaller(index.saturating_add(direction as usize), len - 1)
    }
}

/// Moves a message by some places, towards the front where the number is
/// negative; see `queue_moved`.
pub fn move_queued(state: &mut ViewState, index: usize, direction: isize) -> (r: usize)
    ensures
        (final(state)@, r) == queue_moved(old(state)@, index, direction as int),
{
    proof {
        reveal(state_model);
    }
    let len: usize = state.queued_inputs.len();
    assert(state@.queued_inputs.len() == len);
    if index >= len {
        return index;
    }
    let target: usize = target_of(len, index, direction);
    if target != index {
        move_to(state, index, target);
    }
    target
}

/// The queue with a message put first, where there is one at the place. The
/// queue goes on then: at once, or when the running turn has been stopped.
#[verifier::opaque]
pub open spec fn queue_promoted(s: StateModel, index: usize) -> (StateModel, bool) {
    if index >= s.queued_inputs.len() {
        (s, false)
    } else {
        (
            StateModel {
                queued_inputs: if index == 0 {
                    s.queued_inputs
                } else {
                    moved(s.queued_inputs, index as int, 0)
                },
                queue_paused: false,
                send_next: s.turn_running,
                activity: "stopping the active turn to send queued message"@,
                ..s
            },
            true,
        )
    }
}

/// Puts a message first; see `queue_promoted`.
pub fn promote_queued(state: &mut ViewState, index: usize) -> (r: bool)
    ensures
        (final(state)@, r) == queue_promoted(old(state)@, index),
{
    proof {
        reveal(queue_promoted);
    }
    proof {
        reveal(state_model);
    }
    if index >= state.queued_inputs.len() {
        return false;
    }
    if index != 0 {
        move_to(state, index, 0);
    }
    state.set_activity("stopping the active turn to send queued message");
    state.queue_paused = false;
    state.send_next = state.turn_running;
    true
}

// ---------------------------------------------------------------------------
// The running turn

/// What waits once a turn has ended: messages that the turn has not taken come
/// before those that were queued, but behind the one that it was stopped for.
pub open spec fn waiting(
    queue: Seq<SubmissionModel>,
    steers: Seq<SubmissionModel>,
    stopped: bool,
) -> Seq<SubmissionModel> {
    if stopped && queue.len() > 0 {
        queue.take(1) + steers + queue.skip(1)
    } else {
        steers + queue
    }
}

/// The queue at the end of a turn. A cancel pauses what waits, unless the turn
/// was stopped to send a message.
pub open spec fn queue_settled(s: StateModel, canceled: bool) -> StateModel {
    let queued_inputs = waiting(s.queued_inputs, s.pending_steers, s.send_next);
    StateModel {
        queued_inputs,
        pending_steers: Seq::empty(),
        queue_paused: if canceled {
            !s.send_next && queued_inputs.len() > 0
        } else {
            s.queue_paused
        },
        send_next: false,
        ..s
    }
}

fn join_waiting(queue: Vec<Submission>, steers: Vec<Submission>, stopped: bool) -> (r: Vec<
    Submission,
>)
    ensures
        views(r@) == waiting(views(queue@), views(steers@), stopped),
{
    let ghost all = waiting(views(queue@), views(steers@), stopped);
    let mut queue = queue;
    let mut steers = steers;
    let mut r: Vec<Submission> = Vec::new();
    if stopped && queue.len() > 0 {
        let first = queue.remove(0);
        r.push(first);
    }
    r.append(&mut steers);
    r.append(&mut queue);
    assert(views(r@) =~= all);
    r
}

fn take_queue(state: &mut ViewState) -> (r: Vec<Submission>)
    ensures
        views(r@) == old(state)@.queued_inputs,
        final(state)@ == (StateModel { queued_inputs: Seq::empty(), ..old(state)@ }),
{
    proof {
        reveal(state_model);
    }
    let mut r: Vec<Submission> = Vec::new();
    std::mem::swap(&mut r, &mut state.queued_inputs);
    assert(views(state.queued_inputs@) =~= Seq::empty());
    r
}

fn set_queue(state: &mut ViewState, queue: Vec<Submission>, paused: bool)
    ensures
        final(state)@ == (StateModel {
            queued_inputs: views(queue@),
            queue_paused: paused,
            send_next: false,
            ..old(state)@
        }),
{
    proof {
        reveal(state_model);
    }
    state.queued_inputs = queue;
    state.queue_paused = paused;
    state.send_next = false;
}

/// Whether the queue is paused, and whether the running turn is stopped to
/// send a message.
fn marks(state: &ViewState) -> (r: (bool, bool))
    ensures
        r == (state@.queue_paused, state@.send_next),
{
    proof {
        reveal(state_model);
    }
    (state.queue_paused, state.send_next)
}

/// Settles the queue at the end of a turn; see `queue_settled`.
pub(crate) fn settle_queue(state: &mut ViewState, canceled: bool)
    ensures
        final(state)@ == queue_settled(old(state)@, canceled),
{
    let (paused, stopped) = marks(state);
    let queue = take_queue(state);
    let steers = accept_steers(state);
    let all = join_waiting(queue, steers, stopped);
    let paused = if canceled {
        !stopped && all.len() > 0
    } else {
        paused
    };
    set_queue(state, all, paused);
}

/// Puts messages back that no turn has taken.
pub(crate) fn keep_steers(state: &mut ViewState, steers: Vec<Submission>)
    ensures
        final(state)@ == (StateModel { pending_steers: views(steers@), ..old(state)@ }),
{
    proof {
        reveal(state_model);
    }
    state.pending_steers = steers;
}

/// Sends a message into the running turn, which takes it at its next safe
/// boundary.
pub fn steer(state: &mut ViewState, input: Submission)
    ensures
        final(state)@ == (StateModel {
            pending_steers: old(state)@.pending_steers.push(input@),
            ..old(state)@
        }),
{
    proof {
        reveal(state_model);
    }
    state.pending_steers.push(input);
    assert(views(state.pending_steers@) =~= views(old(state).pending_steers@).push(input@));
}

/// Hands the messages over that the running turn takes.
pub fn accept_steers(state: &mut ViewState) -> (r: Vec<Submission>)
    ensures
        views(r@) == old(state)@.pending_steers,
        final(state)@ == (StateModel { pending_steers: Seq::empty(), ..old(state)@ }),
{
    proof {
        reveal(state_model);
    }
    let mut taken: Vec<Submission> = Vec::new();
    std::mem::swap(&mut taken, &mut state.pending_steers);
    assert(views(state.pending_steers@) =~= Seq::empty());
    taken
}

/// Puts a message behind those that wait.
pub fn enqueue(state: &mut ViewState, input: Submission)
    ensures
        final(state)@ == (StateModel {
            queued_inputs: old(state)@.queued_inputs.push(input@),
            ..old(state)@
        }),
{
    proof {
        reveal(state_model);
    }
    state.queued_inputs.push(input);
    assert(views(state.queued_inputs@) =~= views(old(state).queued_inputs@).push(input@));
}

// ---------------------------------------------------------------------------
// The command

/// What the command that manages the queue does with its argument: without
/// one it shows the queue, and a number names the message to take from it.
pub open spec fn unqueued(s: StateModel, argument: Seq<char>) -> StateModel {
    if argument == ""@ {
        queue_opened(s)
    } else if argument == "all"@ {
        queue_cleared(s)
    } else {
        match parsed_unsigned(argument, usize::MAX as nat) {
            Some(n) => if n == 0 {
                s.doing("usage: /unqueue [NUMBER|all]"@)
            } else {
                queue_removed(s, (n - 1) as usize).0
            },
            None => s.doing("usage: /unqueue [NUMBER|all]"@),
        }
    }
}

/// Manages the queue; see `unqueued`.
pub fn unqueue(argument: &str, state: &mut ViewState)
    ensures
        final(state)@ == unqueued(old(state)@, argument@),
{
    let chars = chars_of(argument);
    if is(&chars, "") {
        open_queue_picker(state);
        return;
    }
    if is(&chars, "all") {
        clear_queued(state);
        return;
    }
    match parse_unsigned(&chars, usize::MAX as u64) {
        Some(n) => {
            if n == 0 {
                state.set_activity("usage: /unqueue [NUMBER|all]");
            } else {
                let index: usize = (n - 1) as usize;
                let _removed = remove_queued(state, index);
            }
        },
        None => state.set_activity("usage: /unqueue [NUMBER|all]"),
    }
}

/// A message gets another text, where there is one at the place.
pub open spec fn queue_updated(s: StateModel, index: usize, text: Seq<char>) -> StateModel {
    if index < s.queued_inputs.len() {
        StateModel {
            queued_inputs: s.queued_inputs.update(
                index as int,
                s.queued_inputs[index as int].with_text(text),
            ),
            activity: "updated queued message "@ + decimal(index as nat + 1),
            ..s
        }
    } else {
        s
    }
}

fn update_queued(state: &mut ViewState, index: usize, text: String)
    ensures
        final(state)@ == queue_updated(old(state)@, index, text@),
{
    proof {
        reveal(state_model);
    }
    if index < state.queued_inputs.len() {
        let ghost before = views(state.queued_inputs@);
        let ghost value = text@;
        let mut input = state.queued_inputs.remove(index);
        let ghost old_input = input@;
        input.set_text(text);
        state.queued_inputs.insert(index, input);
        assert(views(state.queued_inputs@) =~= before.update(
            index as int,
            old_input.with_text(value),
        ));
        let note = cat2("updated queued message ", number_of(index).as_str());
        state.set_activity(note.as_str());
    }
}

/// The state after an action on the queue, and the action where it is another.
#[verifier::opaque]
pub open spec fn queue_handled(s: StateModel, action: ActionModel) -> (
    StateModel,
    Option<ActionModel>,
) {
    match action {
        ActionModel::ApplyQueued { index, value } => {
            let now = queue_updated(s, index, value);
            (now.with_picker(queue_menu(now.queued_inputs, index)), None)
        },
        ActionModel::MoveQueued { index, direction } => {
            let (now, selected) = queue_moved(s, index, direction as int);
            (now.with_picker(queue_menu(now.queued_inputs, selected)), None)
        },
        ActionModel::RemoveQueued(index) => {
            let (now, removed) = queue_removed(s, index);
            (
                if removed {
                    now.with_picker(queue_menu(now.queued_inputs, index))
                } else {
                    now
                },
                None,
            )
        },
        ActionModel::ClearQueued => (queue_cleared(s), None),
        _ => (s, Some(action)),
    }
}

/// Performs an action on the queue; see `queue_handled`.
pub fn handle_queue_picker_action(state: &mut ViewState, action: PickerAction) -> (r: Option<
    PickerAction,
>)
    ensures
        (final(state)@, option_view(r)) == queue_handled(old(state)@, action@),
{
    proof {
        reveal(queue_handled);
    }
    match action {
        PickerAction::ApplyQueued { index, value } => {
            update_queued(state, index, value);
            let picker = queue_picker(state, index);
            state.set_picker(picker);
            None
        },
        PickerAction::MoveQueued { index, direction } => {
            let selected: usize = move_queued(state, index, direction);
            let picker = queue_picker(state, selected);
            state.set_picker(picker);
            None
        },
        PickerAction::RemoveQueued(index) => {
            if remove_queued(state, index) {
                let picker = queue_picker(state, index);
                state.set_picker(picker);
            }
            None
        },
        PickerAction::ClearQueued => {
            clear_queued(state);
            None
        },
        action => Some(action),
    }
}

// ---------------------------------------------------------------------------
// Laws

proof fn moved_is_a_permutation<T>(list: Seq<T>, from: int, to: int)
    requires
        0 <= from < list.len(),
        0 <= to < list.len(),
    ensures
        moved(list, from, to).to_multiset() == list.to_multiset(),
        moved(list, from, to)[to] == list[from],
{
    broadcast use vstd::seq_lib::group_to_multiset_ensures;

    let rest = list.remove(from);
    vstd::seq_lib::to_multiset_insert(rest, to, list[from]);
    vstd::seq_lib::to_multiset_insert(rest, from, list[from]);
    assert(rest.insert(from, list[from]) =~= list);
}

/// Moving a message loses none and doubles none, and the message is then where
/// it is said to be.
pub proof fn moving_loses_nothing(s: StateModel, index: usize, direction: int)
    requires
        index < s.queued_inputs.len() <= usize::MAX,
    ensures
        ({
            let (now, at) = queue_moved(s, index, direction);
            &&& now.queued_inputs.to_multiset() == s.queued_inputs.to_multiset()
            &&& at < now.queued_inputs.len() && now.queued_inputs[at as int]
                == s.queued_inputs[index as int]
        }),
{
    let target = move_target(s.queued_inputs.len(), index as nat, direction);
    if target != index {
        moved_is_a_permutation(s.queued_inputs, index as int, target as int);
    }
}

/// A message that was moved by one place is moved back by the opposite move.
pub proof fn moving_back_undoes(s: StateModel, index: usize)
    requires
        index + 1 < s.queued_inputs.len() <= usize::MAX,
    ensures
        ({
            let (there, at) = queue_moved(s, index, 1);
            queue_moved(there, at, -1).0.queued_inputs == s.queued_inputs
        }),
{
    let there = moved(s.queued_inputs, index as int, index + 1);
    assert(moved(there, index + 1, index as int) =~= s.queued_inputs);
}

/// A message that is sent at once comes first, the others keep their order.
pub proof fn promoting_puts_first(s: StateModel, index: usize)
    requires
        index < s.queued_inputs.len(),
    ensures
        ({
            let now = queue_promoted(s, index).0.queued_inputs;
            &&& now[0] == s.queued_inputs[index as int]
            &&& now.skip(1) == s.queued_inputs.remove(index as int)
        }),
{
    reveal(queue_promoted);
    let now = queue_promoted(s, index).0.queued_inputs;
    assert(now.skip(1) =~= s.queued_inputs.remove(index as int));
}

/// Whether a pause holds any message back.
pub open spec fn pause_holds(s: StateModel) -> bool {
    s.queue_paused ==> s.queued_inputs.len() > 0
}

/// A pause never outlives the messages that it holds back.
pub proof fn pauses_end_with_their_messages(
    s: StateModel,
    index: usize,
    direction: int,
    canceled: bool,
)
    requires
        pause_holds(s),
    ensures
        pause_holds(queue_removed(s, index).0),
        pause_holds(queue_cleared(s)),
        pause_holds(queue_moved(s, index, direction).0),
        pause_holds(queue_promoted(s, index).0),
        pause_holds(queue_settled(s, canceled)),
{
    reveal(queue_promoted);
}

/// No message is lost at the end of a turn: those that it has not taken wait
/// with the others.
pub proof fn untaken_messages_wait(s: StateModel, canceled: bool)
    ensures
        queue_settled(s, canceled).queued_inputs.to_multiset() == s.pending_steers.to_multiset().add(
            s.queued_inputs.to_multiset(),
        ),
        canceled && !s.send_next && s.pending_steers.len() > 0 ==> queue_settled(
            s,
            canceled,
        ).queue_paused,
{
    broadcast use vstd::seq_lib::group_to_multiset_ensures;
    let steers = s.pending_steers;
    let queue = s.queued_inputs;
    if s.send_next && queue.len() > 0 {
        let first = queue.take(1);
        let rest = queue.skip(1);
        vstd::seq_lib::lemma_multiset_commutative(first + steers, rest);
        vstd::seq_lib::lemma_multiset_commutative(first, steers);
        vstd::seq_lib::lemma_multiset_commutative(first, rest);
        assert(queue =~= first + rest);
        assert(waiting(queue, steers, true).to_multiset() =~= steers.to_multiset().add(queue.to_multiset()));
    } else {
        vstd::seq_lib::lemma_multiset_commutative(steers, queue);
    }
}

/// Taking a message from the queue leaves the others in their order.
pub proof fn removing_keeps_the_rest(s: StateModel, index: usize, i: int)
    requires
        index < s.queued_inputs.len(),
        0 <= i < s.queued_inputs.len(),
        i != index,
    ensures
        queue_removed(s, index).0.queued_inputs[if i < index {
            i
        } else {
            i - 1
        }] == s.queued_inputs[i],
{
}

/// A message that moves up by one changes places with the one before it, and
/// one that moves down with the one behind it; the others stay where they are.
/// At the edge nothing moves.
pub proof fn neighbours_change_places(s: StateModel, index: usize)
    requires
        index < s.queued_inputs.len() <= usize::MAX,
    ensures
        ({
            let (now, at) = queue_moved(s, index, -1);
            if index == 0 {
                now == s && at == index
            } else {
                &&& at == index - 1
                &&& now.queued_inputs == s.queued_inputs.update(
                    index - 1,
                    s.queued_inputs[index as int],
                ).update(index as int, s.queued_inputs[index - 1])
            }
        }),
        ({
            let (now, at) = queue_moved(s, index, 1);
            if index + 1 == s.queued_inputs.len() {
                now == s && at == index
            } else {
                &&& at == index + 1
                &&& now.queued_inputs == s.queued_inputs.update(
                    index + 1,
                    s.queued_inputs[index as int],
                ).update(index as int, s.queued_inputs[index + 1])
            }
        }),
{
    let up = queue_moved(s, index, -1).0.queued_inputs;
    let down = queue_moved(s, index, 1).0.queued_inputs;
    if index > 0 {
        assert(up =~= s.queued_inputs.update(index - 1, s.queued_inputs[index as int]).update(
            index as int,
            s.queued_inputs[index - 1],
        ));
    }
    if index + 1 < s.queued_inputs.len() {
        assert(down =~= s.queued_inputs.update(index + 1, s.queued_inputs[index as int]).update(
            index as int,
            s.queued_inputs[index + 1],
        ));
    }
}

/// What steered a turn and was not taken waits before the queue, in its order.
/// Where the turn was stopped to send the first message of the queue, that one
/// goes first of all.
pub proof fn steers_wait_before_the_queue(s: StateModel, canceled: bool)
    ensures
        ({
            let now = queue_settled(s, canceled);
            let n = s.pending_steers.len() as int;
            &&& now.pending_steers.len() == 0 && !now.send_next
            &&& now.queued_inputs.len() == n + s.queued_inputs.len()
            &&& !s.send_next || s.queued_inputs.len() == 0 ==> now.queued_inputs.take(n)
                == s.pending_steers && now.queued_inputs.skip(n) == s.queued_inputs
            &&& s.send_next && s.queued_inputs.len() > 0 ==> now.queued_inputs[0]
                == s.queued_inputs[0] && now.queued_inputs.subrange(1, n + 1) == s.pending_steers
                && now.queued_inputs.skip(n + 1) == s.queued_inputs.skip(1)
        }),
{
    let now = queue_settled(s, canceled);
    let n = s.pending_steers.len() as int;
    if s.send_next && s.queued_inputs.len() > 0 {
        assert(now.queued_inputs.subrange(1, n + 1) =~= s.pending_steers);
        assert(now.queued_inputs.skip(n + 1) =~= s.queued_inputs.skip(1));
    } else {
        assert(now.queued_inputs.take(n) =~= s.pending_steers);
        assert(now.queued_inputs.skip(n) =~= s.queued_inputs);
    }
}

/// A turn that was stopped leaves the queue paused, where something waits in it
/// and the stop was not for its sake; one that ended by itself leaves the pause
/// as it was.
pub proof fn stopping_pauses_the_queue(s: StateModel)
    ensures
        queue_settled(s, true).queue_paused <==> !s.send_next && s.queued_inputs.len()
            + s.pending_steers.len() > 0,
        queue_settled(s, false).queue_paused == s.queue_paused,
{
}

/// Sending a message at once ends a pause, and asks for a stop exactly where a
/// turn runs. A place at which no message waits changes nothing.
pub proof fn sending_at_once_ends_the_pause(s: StateModel, index: usize)
    ensures
        index < s.queued_inputs.len() ==> queue_promoted(s, index).1 && !queue_promoted(
            s,
            index,
        ).0.queue_paused && queue_promoted(s, index).0.send_next == s.turn_running,
        index >= s.queued_inputs.len() ==> queue_promoted(s, index) == (s, false),
{
    reveal(queue_promoted);
}

/// `/unqueue` with a number takes that message out, counted from one; with
/// `all` it empties the queue. A number without a message takes none.
pub proof fn unqueueing_counts_from_one(s: StateModel, n: nat)
    requires
        0 < n <= usize::MAX,
    ensures
        n <= s.queued_inputs.len() ==> unqueued(s, decimal(n)).queued_inputs
            == s.queued_inputs.remove(n - 1),
        n > s.queued_inputs.len() ==> unqueued(s, decimal(n)).queued_inputs == s.queued_inputs,
        unqueued(s, "all"@).queued_inputs.len() == 0,
        !unqueued(s, "all"@).queue_paused,
        unqueued(s, ""@).queued_inputs == s.queued_inputs,
        unqueued(s, decimal(0)).queued_inputs == s.queued_inputs,
{
    decimal_reads_back(n);
    decimal_reads_back(0);
    reveal_strlit("all");
    reveal_strlit("");
    assert(digit(decimal(n)[0]) && digit(decimal(0)[0]));
    assert("all"@[0] == 'a');
    assert("all"@.len() == 3 && ""@.len() == 0);
}

/// An edited message keeps its place, and the images that its text still shows;
/// the others stay.
pub proof fn editing_changes_one_text(s: StateModel, index: usize, value: Seq<char>, i: int)
    requires
        0 <= i < s.queued_inputs.len(),
    ensures
        ({
            let now = queue_handled(s, ActionModel::ApplyQueued { index, value }).0;
            &&& now.queued_inputs.len() == s.queued_inputs.len()
            &&& i != index ==> now.queued_inputs[i] == s.queued_inputs[i]
            &&& i == index ==> now.queued_inputs[i].text == value && now.queued_inputs[i].images
                == images_kept(s.queued_inputs[i].images, s.queued_inputs[i].text, value)
        }),
{
    reveal(queue_handled);
}

/// The list offers every message in its order and by its number, and choosing
/// one sends that message; the last line clears the queue.
pub proof fn menus_offer_every_message(queue: Seq<SubmissionModel>, selected: usize, i: int)
    requires
        0 <= i < queue.len() <= usize::MAX,
    ensures
        queue_menu(queue, selected) matches Some(menu) && menu.items.len() == queue.len() + 1
            && menu.items[i].action == ActionModel::SendQueued(i as usize)
            && menu.items[i].label == "Queued "@ + decimal((i + 1) as nat)
            && menu.items.last().action == ActionModel::ClearQueued,
        queue_menu(queue, selected)->0.selected == if selected <= queue.len() {
            selected as int
        } else {
            queue.len() as int
        },
{
    reveal(queue_menu);
}

/// A message that was to be sent next is not, once it is taken out; taking out
/// another changes nothing of that. What is taken out is told by its number.
pub proof fn taken_messages_are_not_sent(s: StateModel, index: usize)
    requires
        index < s.queued_inputs.len(),
    ensures
        ({
            let (now, found) = queue_removed(s, index);
            &&& found && now.queued_inputs == s.queued_inputs.remove(index as int)
            &&& index == 0 ==> !now.send_next
            &&& index > 0 ==> now.send_next == s.send_next
            &&& s.queued_inputs.len() == 1 ==> !now.queue_paused
            &&& s.queued_inputs.len() > 1 ==> now.queue_paused == s.queue_paused
            &&& now.activity == "removed queued message "@ + decimal((index + 1) as nat)
        }),
        ({
            let now = queue_cleared(s);
            now.queued_inputs.len() == 0 && !now.queue_paused && !now.send_next
        }),
        queue_opened(s).queued_inputs == s.queued_inputs,
        queue_opened(s).picker == queue_menu(s.queued_inputs, 0),
{
}

} // verus!
