//! Saved sessions: listing, resuming, and deleting them.

use vstd::prelude::*;
use crate::facts::{fresh_state, Facts, FactsModel};
use crate::model::{option_view, views};
use crate::picker::{choice, offer, ItemModel, Picker, PickerItem, PickerModel};
use crate::picker::action::{ActionModel, PickerAction};
use crate::queue::{accept_steers, keep_steers};
use crate::rows::{at_most, smaller};
use crate::state::{state_model, item_selected, select_picker_item, StateModel, ViewState};
use crate::summary::{all_of, all_of_push};
use crate::text::{
    cat2, cat3, cat4, cat6, chars_of, count_of, decimal, parse_unsigned, parsed_unsigned,
};

verus! {

broadcast use vstd::string::group_string_axioms;

/// A session that was saved.
#[derive(Debug)]
pub struct SessionEntry {
    pub id: String,
    pub model: String,
    /// How it begins.
    pub preview: String,
}

pub struct SessionModel {
    pub id: Seq<char>,
    pub model: Seq<char>,
    pub preview: Seq<char>,
}

impl View for SessionEntry {
    type V = SessionModel;

    open spec fn view(&self) -> SessionModel {
        SessionModel { id: self.id@, model: self.model@, preview: self.preview@ }
    }
}

/// The sessions that were found, or why they could not be listed.
pub open spec fn listing_of(r: Result<Vec<SessionEntry>, String>) -> Result<
    Seq<SessionModel>,
    Seq<char>,
> {
    match r {
        Ok(sessions) => Ok(views(sessions@)),
        Err(error) => Err(error@),
    }
}

/// What came of an attempt, or why it failed.
pub open spec fn attempt_of(r: Result<(), String>) -> Result<(), Seq<char>> {
    match r {
        Ok(()) => Ok(()),
        Err(error) => Err(error@),
    }
}

/// The sessions that a menu shows at most.
pub const MAX_LISTED_SESSIONS: usize = 100;

/// The sessions that a text lists at most.
pub const MAX_SESSION_LINES: usize = 20;

// ---------------------------------------------------------------------------
// The menu

pub open spec fn session_choice(session: SessionModel) -> ItemModel {
    choice(
        if session.preview.len() == 0 {
            "Untitled session"@
        } else {
            session.preview
        },
        session.model + " · "@ + session.id,
        ActionModel::ResumeSession(session.id),
    )
}

#[verifier::opaque]
pub open spec fn resume_menu(sessions: Seq<SessionModel>) -> PickerModel {
    PickerModel {
        title: "Resume session"@,
        hint: "↑/↓ move  Enter resume  d delete…  Esc cancel"@,
        items: Seq::new(
            at_most(sessions.len(), MAX_LISTED_SESSIONS as nat),
            |i: int| session_choice(sessions[i]),
        ),
        selected: 0,
        editing: None,
        parent: None,
    }
}

fn resume_picker(sessions: &Vec<SessionEntry>) -> (r: Picker)
    ensures
        r@ == resume_menu(views(sessions@)),
{
    proof {
        reveal(resume_menu);
    }
    let ghost all = resume_menu(views(sessions@)).items;
    let mut items: Vec<PickerItem> = Vec::new();
    let n: usize = smaller(sessions.len(), MAX_LISTED_SESSIONS);
    let mut i: usize = 0;
    assert(views(items@) =~= all.take(0));
    while i < n
        invariant
            i <= n,
            n as nat == at_most(sessions@.len(), MAX_LISTED_SESSIONS as nat),
            all == resume_menu(views(sessions@)).items,
            views(items@) == all.take(i as int),
        decreases n - i,
    {
        proof {
            reveal(resume_menu);
        }
        let session = &sessions[i];
        assert(views(sessions@)[i as int] == session@);
        let length: usize = chars_of(session.preview.as_str()).len();
        let label = if length == 0 {
            "Untitled session"
        } else {
            session.preview.as_str()
        };
        let description = cat3(session.model.as_str(), " · ", session.id.as_str());
        offer(
            &mut items,
            label,
            description.as_str(),
            PickerAction::ResumeSession(session.id.clone()),
        );
        i += 1;
        assert(views(items@) =~= all.take(i as int));
    }
    assert(views(items@) =~= all);
    Picker {
        title: "Resume session".to_owned(),
        hint: "↑/↓ move  Enter resume  d delete…  Esc cancel".to_owned(),
        items,
        selected: 0,
        editing: None,
        parent: None,
    }
}

/// The saved sessions are shown, or why there are none to show.
pub open spec fn sessions_shown(s: StateModel, found: Result<Seq<SessionModel>, Seq<char>>) -> StateModel {
    match found {
        Err(error) => s.noted("Could not list sessions: "@ + error),
        Ok(sessions) => if sessions.len() == 0 {
            s.with_picker(None).noted("No saved sessions for this directory."@)
        } else {
            s.with_picker(Some(resume_menu(sessions)))
        },
    }
}

/// Shows the saved sessions; see `sessions_shown`.
pub fn open_resume_picker(state: &mut ViewState, found: &Result<Vec<SessionEntry>, String>)
    ensures
        final(state)@ == sessions_shown(old(state)@, listing_of(*found)),
{
    proof {
        reveal(state_model);
    }
    match found {
        Err(error) => state.notice(cat2("Could not list sessions: ", error.as_str()).as_str()),
        Ok(sessions) => {
            let n: usize = sessions.len();
            assert(views(sessions@).len() == n);
            if n == 0 {
                state.picker = None;
                state.notice("No saved sessions for this directory.");
            } else {
                state.picker = Some(resume_picker(sessions));
            }
        },
    }
}

/// Shows the saved sessions again with one of them selected.
pub fn reopen_resume_picker(
    state: &mut ViewState,
    found: &Result<Vec<SessionEntry>, String>,
    selected: usize,
)
    ensures
        final(state)@ == item_selected(
            sessions_shown(old(state)@, listing_of(*found)),
            selected,
        ),
{
    open_resume_picker(state, found);
    select_picker_item(state, selected);
}

// ---------------------------------------------------------------------------
// The command

/// Whether an argument names a session by its place in the list, so that the
/// list is needed.
pub open spec fn needs_list(selector: Seq<char>) -> bool {
    selector.len() == 0 || parsed_unsigned(selector, usize::MAX as nat) is Some
}

pub fn resume_needs_list(selector: &str) -> (r: bool)
    ensures
        r == needs_list(selector@),
{
    let chars = chars_of(selector);
    let n: usize = chars.len();
    n == 0 || parse_unsigned(&chars, usize::MAX as u64).is_some()
}

pub open spec fn session_line(session: SessionModel, i: int) -> Seq<char> {
    decimal((i + 1) as nat) + ". `"@ + session.id + "`  "@ + session.preview + "\n"@
}

/// The saved sessions as a text.
pub open spec fn session_parts(sessions: Seq<SessionModel>) -> Seq<Seq<char>> {
    seq!["Saved sessions\n\n"@] + Seq::new(
        at_most(sessions.len(), MAX_SESSION_LINES as nat),
        |i: int| session_line(sessions[i], i),
    )
}

#[verifier::opaque]
pub open spec fn sessions_text(sessions: Seq<SessionModel>) -> Seq<char> {
    all_of(session_parts(sessions)) + "\nUse `/resume ID` or `/resume NUMBER`."@
}

fn list_sessions(sessions: &Vec<SessionEntry>) -> (r: String)
    ensures
        r@ == sessions_text(views(sessions@)),
{
    proof {
        reveal(sessions_text);
    }
    let ghost all = session_parts(views(sessions@));
    let mut text = "Saved sessions\n\n".to_owned();
    let n: usize = smaller(sessions.len(), MAX_SESSION_LINES);
    let mut i: usize = 0;
    proof {
        all_of_push(Seq::empty(), "Saved sessions\n\n"@);
        assert(all.take(1) =~= Seq::empty().push("Saved sessions\n\n"@));
        assert(all_of(Seq::empty()) + "Saved sessions\n\n"@ =~= "Saved sessions\n\n"@);
    }
    while i < n
        invariant
            i <= n,
            n as nat == at_most(sessions@.len(), MAX_SESSION_LINES as nat),
            all == session_parts(views(sessions@)),
            text@ == all_of(all.take(i + 1)),
        decreases n - i,
    {
        proof {
            reveal(sessions_text);
        }
        let session = &sessions[i];
        assert(views(sessions@)[i as int] == session@);
        let line = cat6(
            count_of(i + 1).as_str(),
            ". `",
            session.id.as_str(),
            "`  ",
            session.preview.as_str(),
            "\n",
        );
        proof {
            all_of_push(all.take(i + 1), line@);
            assert(all.take(i + 2) =~= all.take(i + 1).push(line@));
        }
        text = cat2(text.as_str(), line.as_str());
        i += 1;
    }
    assert(all.take(i + 1) =~= all);
    cat2(text.as_str(), "\nUse `/resume ID` or `/resume NUMBER`.")
}

/// The session that an argument names: the one at the place, or the one of
/// that name.
pub open spec fn named_session(selector: Seq<char>, sessions: Seq<SessionModel>) -> Seq<char> {
    match parsed_unsigned(selector, usize::MAX as nat) {
        Some(n) => if 0 < n <= sessions.len() {
            sessions[n - 1].id
        } else {
            selector
        },
        None => selector,
    }
}

/// The state after the argument was read, and the session to load where it
/// names one.
pub open spec fn resumed(
    s: StateModel,
    selector: Seq<char>,
    found: Result<Seq<SessionModel>, Seq<char>>,
) -> (StateModel, Option<Seq<char>>) {
    if !needs_list(selector) {
        (s, Some(selector))
    } else {
        match found {
            Err(error) => (s.noted("Could not list sessions: "@ + error), None),
            Ok(sessions) => if selector.len() == 0 {
                if sessions.len() == 0 {
                    (s.noted("No saved sessions for this directory."@), None)
                } else {
                    (s.noted(sessions_text(sessions)), None)
                }
            } else {
                (s, Some(named_session(selector, sessions)))
            },
        }
    }
}

/// Reads the argument of the command; see `resumed`. The list is not looked at
/// where the argument is a name.
pub fn resume(selector: &str, found: &Result<Vec<SessionEntry>, String>, state: &mut ViewState) -> (r:
    Option<String>)
    ensures
        (final(state)@, option_view(r)) == resumed(
            old(state)@,
            selector@,
            listing_of(*found),
        ),
{
    if !resume_needs_list(selector) {
        return Some(selector.to_owned());
    }
    let sessions = match found {
        Err(error) => {
            state.notice(cat2("Could not list sessions: ", error.as_str()).as_str());
            return None;
        },
        Ok(sessions) => sessions,
    };
    let n: usize = sessions.len();
    assert(views(sessions@).len() == n);
    let chars = chars_of(selector);
    let length: usize = chars.len();
    if length == 0 {
        if n == 0 {
            state.notice("No saved sessions for this directory.");
        } else {
            state.notice(list_sessions(sessions).as_str());
        }
        return None;
    }
    match parse_unsigned(&chars, usize::MAX as u64) {
        Some(number) => {
            if 0 < number && number <= n as u64 {
                let index: usize = (number - 1) as usize;
                assert(views(sessions@)[index as int] == sessions@[index as int]@);
                return Some(sessions[index].id.clone());
            }
        },
        None => {},
    }
    Some(selector.to_owned())
}

// ---------------------------------------------------------------------------
// What comes of it

/// The interface started anew, with what waits for its turn.
pub open spec fn started_anew(s: StateModel, f: FactsModel) -> StateModel {
    StateModel {
        queued_inputs: s.queued_inputs,
        queue_paused: s.queue_paused,
        pending_actions: s.pending_actions,
        ..fresh_state(f)
    }
}

fn start_anew(state: &mut ViewState, facts: &Facts)
    ensures
        final(state)@ == started_anew(old(state)@, facts@),
{
    proof {
        reveal(state_model);
    }
    let mut fresh = ViewState::from_agent(facts);
    std::mem::swap(&mut fresh.queued_inputs, &mut state.queued_inputs);
    std::mem::swap(&mut fresh.pending_actions, &mut state.pending_actions);
    fresh.queue_paused = state.queue_paused;
    *state = fresh;
}

pub open spec fn session_loaded(
    s: StateModel,
    f: FactsModel,
    id: Seq<char>,
    outcome: Result<(), Seq<char>>,
) -> StateModel {
    match outcome {
        Ok(()) => started_anew(s, f).noted("Resumed session "@ + id + "."@),
        Err(error) => s.noted("Could not resume '"@ + id + "': "@ + error),
    }
}

/// Shows a session that was loaded, or why it could not be.
pub fn settle_load(state: &mut ViewState, facts: &Facts, id: &str, outcome: &Result<(), String>)
    ensures
        final(state)@ == session_loaded(old(state)@, facts@, id@, attempt_of(*outcome)),
{
    match outcome {
        Ok(()) => {
            start_anew(state, facts);
            state.notice(cat3("Resumed session ", id, ".").as_str());
        },
        Err(error) => state.notice(
            cat4("Could not resume '", id, "': ", error.as_str()).as_str(),
        ),
    }
}

pub open spec fn session_reset(s: StateModel, f: FactsModel, outcome: Result<(), Seq<char>>) -> StateModel {
    match outcome {
        Ok(()) => StateModel { pending_steers: s.pending_steers, ..started_anew(s, f) },
        Err(error) => s.noted("Could not start a session: "@ + error),
    }
}

/// Shows a new session, or why none was started.
pub fn settle_reset(state: &mut ViewState, facts: &Facts, outcome: &Result<(), String>)
    ensures
        final(state)@ == session_reset(old(state)@, facts@, attempt_of(*outcome)),
{
    match outcome {
        Ok(()) => {
            let steers = accept_steers(state);
            start_anew(state, facts);
            keep_steers(state, steers);
        },
        Err(error) => state.notice(
            cat2("Could not start a session: ", error.as_str()).as_str(),
        ),
    }
}

/// A session was deleted, or could not be. Where it was the current one, the
/// interface starts anew; the rest of the sessions is shown again.
pub open spec fn session_deleted(
    s: StateModel,
    f: FactsModel,
    id: Seq<char>,
    current: bool,
    selected: usize,
    outcome: Result<(), Seq<char>>,
    left: Result<Seq<SessionModel>, Seq<char>>,
) -> StateModel {
    match outcome {
        Err(error) => s.noted("Could not delete '"@ + id + "': "@ + error),
        Ok(()) => {
            let now = if current {
                started_anew(s, f)
            } else {
                s
            };
            match left {
                Err(error) => now.with_picker(None).noted(
                    "Deleted session "@ + id + ". Could not refresh the list: "@ + error,
                ),
                Ok(sessions) => if sessions.len() == 0 {
                    now.with_picker(None).noted(
                        "Deleted session "@ + id + ". No saved sessions left."@,
                    )
                } else {
                    item_selected(sessions_shown(now, left), selected).noted(
                        "Deleted session "@ + id + "."@,
                    )
                },
            }
        },
    }
}

/// Shows what came of a deletion; see `session_deleted`.
pub fn settle_delete(
    state: &mut ViewState,
    facts: &Facts,
    id: &str,
    current: bool,
    selected: usize,
    outcome: &Result<(), String>,
    left: &Result<Vec<SessionEntry>, String>,
)
    ensures
        final(state)@ == session_deleted(
            old(state)@,
            facts@,
            id@,
            current,
            selected,
            attempt_of(*outcome),
            listing_of(*left),
        ),
{
    match outcome {
        Err(error) => {
            state.notice(cat4("Could not delete '", id, "': ", error.as_str()).as_str());
            return;
        },
        Ok(()) => {},
    }
    if current {
        start_anew(state, facts);
    }
    match left {
        Err(error) => {
            state.set_picker(None);
            let text = cat4(
                "Deleted session ",
                id,
                ". Could not refresh the list: ",
                error.as_str(),
            );
            state.notice(text.as_str());
        },
        Ok(sessions) => {
            let n: usize = sessions.len();
            assert(views(sessions@).len() == n);
            if n == 0 {
                state.set_picker(None);
                let text = cat3("Deleted session ", id, ". No saved sessions left.");
                state.notice(text.as_str());
            } else {
                open_resume_picker(state, left);
                select_picker_item(state, selected);
                state.notice(cat3("Deleted session ", id, ".").as_str());
            }
        },
    }
}

// ---------------------------------------------------------------------------
// Laws

/// What waits for its turn outlives a change of the session.
pub proof fn queue_outlives_the_session(
    s: StateModel,
    f: FactsModel,
    id: Seq<char>,
    current: bool,
    selected: usize,
    outcome: Result<(), Seq<char>>,
    left: Result<Seq<SessionModel>, Seq<char>>,
)
    ensures
        session_loaded(s, f, id, outcome).queued_inputs == s.queued_inputs,
        session_loaded(s, f, id, outcome).pending_actions == s.pending_actions,
        session_reset(s, f, outcome).queued_inputs == s.queued_inputs,
        session_reset(s, f, outcome).pending_steers == s.pending_steers,
        session_reset(s, f, outcome).pending_actions == s.pending_actions,
        session_deleted(s, f, id, current, selected, outcome, left).queued_inputs
            == s.queued_inputs,
        session_deleted(s, f, id, current, selected, outcome, left).pending_actions
            == s.pending_actions,
{
}

/// A number names the session that the list shows under it.
pub proof fn numbers_name_listed_sessions(sessions: Seq<SessionModel>, i: int)
    requires
        0 <= i < sessions.len() < usize::MAX,
    ensures
        named_session(decimal((i + 1) as nat), sessions) == sessions[i].id,
        needs_list(decimal((i + 1) as nat)),
{
    crate::text::decimal_reads_back((i + 1) as nat);
}

/// The list offers the sessions in their order, at most a hundred of them, and
/// choosing one resumes that session. A session without a preview is called
/// untitled.
pub proof fn listed_sessions_are_resumed(s: StateModel, sessions: Seq<SessionModel>, i: int)
    requires
        0 <= i < sessions.len(),
        i < 100,
    ensures
        sessions_shown(s, Ok(sessions)).picker matches Some(menu) && menu.items.len() == (
        if sessions.len() < 100 {
            sessions.len() as int
        } else {
            100
        }) && menu.items[i].action == ActionModel::ResumeSession(sessions[i].id)
            && menu.items[i].label == (if sessions[i].preview.len() > 0 {
            sessions[i].preview
        } else {
            "Untitled session"@
        }),
{
    reveal(resume_menu);
}

/// Where no list is needed, the session is resumed by what was typed; a word
/// that is no number needs none. A list that could not be read resumes nothing.
pub proof fn identifiers_are_resumed_as_typed(
    s: StateModel,
    selector: Seq<char>,
    found: Result<Seq<SessionModel>, Seq<char>>,
    error: Seq<char>,
)
    requires
        selector.len() > 0,
        !crate::text::all_digits(crate::text::unsigned_digits(selector)),
    ensures
        resumed(s, selector, found) == (s, Some(selector)),
        resumed(s, Seq::empty(), Err(error)).1 is None,
        resumed(s, Seq::empty(), Err(error)).0.notices == s.notices.push(
            "Could not list sessions: "@ + error,
        ),
{
}

/// A number that is listed resumes the session at that place, counted from one;
/// one that is not is taken for an identifier.
pub proof fn numbers_are_resumed_by_place(
    s: StateModel,
    sessions: Seq<SessionModel>,
    n: nat,
)
    requires
        n <= usize::MAX,
    ensures
        0 < n <= sessions.len() ==> resumed(s, decimal(n), Ok(sessions)) == (
            s,
            Some(sessions[n - 1].id),
        ),
        n == 0 || n > sessions.len() ==> resumed(s, decimal(n), Ok(sessions)) == (
            s,
            Some(decimal(n)),
        ),
{
    crate::text::decimal_reads_back(n);
}

/// What fails leaves the session as it was, but for a notice; a deleted session
/// that is the current one is followed by a new one, and another leaves the
/// current one in place.
pub proof fn failures_change_no_session(
    s: StateModel,
    f: FactsModel,
    id: Seq<char>,
    current: bool,
    selected: usize,
    error: Seq<char>,
    left: Result<Seq<SessionModel>, Seq<char>>,
)
    ensures
        session_loaded(s, f, id, Err(error)) == s.noted(
            "Could not resume '"@ + id + "': "@ + error,
        ),
        session_reset(s, f, Err(error)) == s.noted("Could not start a session: "@ + error),
        session_deleted(s, f, id, current, selected, Err(error), left) == s.noted(
            "Could not delete '"@ + id + "': "@ + error,
        ),
        ({
            let now = session_deleted(s, f, id, false, selected, Ok(()), left);
            now.active_goal == s.active_goal && now.active_plan == s.active_plan && now.context_tokens
                == s.context_tokens && now.notices.len() > s.notices.len()
        }),
        ({
            let now = session_deleted(s, f, id, true, selected, Ok(()), left);
            now.active_goal == fresh_state(f).active_goal && now.context_tokens == fresh_state(
                f,
            ).context_tokens
        }),
{
}

/// A pause of the queue outlives the session too, and what steered the last
/// turn waits on in a session that was begun anew.
pub proof fn pauses_outlive_the_session(s: StateModel, f: FactsModel, id: Seq<char>)
    ensures
        session_loaded(s, f, id, Ok(())).queue_paused == s.queue_paused,
        session_reset(s, f, Ok(())).queue_paused == s.queue_paused,
        session_reset(s, f, Ok(())).pending_steers == s.pending_steers,
        session_loaded(s, f, id, Ok(())).notices.last() == "Resumed session "@ + id + "."@,
        session_loaded(s, f, id, Ok(())).active_goal == f.active_goal,
        session_reset(s, f, Ok(())).model == f.model,
        !session_reset(s, f, Ok(())).turn_running,
{
}

/// A deleted session is told, with whether others are left; the list is shown
/// again on the line where it was.
pub proof fn deleted_sessions_are_told(
    s: StateModel,
    f: FactsModel,
    id: Seq<char>,
    selected: usize,
    sessions: Seq<SessionModel>,
    error: Seq<char>,
)
    requires
        sessions.len() > 0,
    ensures
        session_deleted(s, f, id, false, selected, Ok(()), Ok(sessions)).notices == s.notices.push(
            "Deleted session "@ + id + "."@,
        ),
        session_deleted(s, f, id, false, selected, Ok(()), Ok(sessions)).picker is Some,
        session_deleted(s, f, id, false, selected, Ok(()), Ok(Seq::empty())).notices
            == s.notices.push("Deleted session "@ + id + ". No saved sessions left."@),
        session_deleted(s, f, id, false, selected, Ok(()), Ok(Seq::empty())).picker is None,
        session_deleted(s, f, id, false, selected, Ok(()), Err(error)).notices == s.notices.push(
            "Deleted session "@ + id + ". Could not refresh the list: "@ + error,
        ),
        sessions_shown(s, Ok(Seq::empty())).notices == s.notices.push(
            "No saved sessions for this directory."@,
        ),
        sessions_shown(s, Err(error)).notices == s.notices.push(
            "Could not list sessions: "@ + error,
        ),
{
}

} // verus!
