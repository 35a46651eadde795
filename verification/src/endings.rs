//! What is shown when a command has ended.

use vstd::prelude::*;
use crate::facts::{facts_model, Facts, FactsModel};
use crate::model::{copy_option, option_view};
use crate::queue::{queue_settled, settle_queue};
use crate::state::{state_model, StateModel, ViewState};
use crate::submission::TurnEnd;
use crate::summary::{notice_undo, undo_text, UndoReport};
use crate::text::{cat2, chars_of};

verus! {

broadcast use vstd::string::group_string_axioms;

/// A report in words, or why there is none.
pub open spec fn report_text(outcome: Result<UndoReport, String>) -> Result<Seq<char>, Seq<char>> {
    match outcome {
        Ok(report) => Ok(
            undo_text(
                report.dropped,
                report.reset_head,
                report.restored_files,
                option_view(report.warning),
            ),
        ),
        Err(error) => Err(error@),
    }
}

/// The state after the last turn was taken back: the goal and the size of the
/// conversation are those of the turn before.
pub open spec fn undone(
    s: StateModel,
    f: FactsModel,
    outcome: Result<Seq<char>, Seq<char>>,
) -> StateModel {
    match outcome {
        Ok(text) => StateModel {
            context_tokens: f.context_tokens,
            active_goal: f.active_goal,
            ..s
        }.noted(text),
        Err(error) => s.noted("Could not undo: "@ + error),
    }
}

/// Shows what came of taking the last turn back.
pub fn settle_undo(state: &mut ViewState, facts: &Facts, outcome: &Result<UndoReport, String>)
    ensures
        final(state)@ == undone(old(state)@, facts@, report_text(*outcome)),
{
    match outcome {
        Ok(report) => {
            show_size(state, facts);
            state.notice(notice_undo(report).as_str());
        },
        Err(error) => state.notice(cat2("Could not undo: ", error.as_str()).as_str()),
    }
}

fn show_size(state: &mut ViewState, facts: &Facts)
    ensures
        final(state)@ == (StateModel {
            context_tokens: facts@.context_tokens,
            active_goal: facts@.active_goal,
            ..old(state)@
        }),
{
    proof {
        reveal(state_model);
        reveal(facts_model);
    }
    state.context_tokens = facts.context_tokens;
    state.active_goal = copy_option(&facts.active_goal);
}

/// The state after older messages were summarized. What was sent meanwhile
/// waits as at the end of a turn.
pub open spec fn compacted(s: StateModel, end: TurnEnd) -> StateModel {
    let now = queue_settled(s.doing(""@), end is Interrupted);
    match end {
        TurnEnd::Finished => now,
        TurnEnd::Interrupted => now.noted("Compaction interrupted."@),
        TurnEnd::Failed(error) => now.noted("Compaction failed: "@ + error@),
    }
}

/// Shows what came of summarizing older messages.
pub fn settle_compaction(state: &mut ViewState, end: &TurnEnd)
    ensures
        final(state)@ == compacted(old(state)@, *end),
{
    state.set_activity("");
    match end {
        TurnEnd::Finished => settle_queue(state, false),
        TurnEnd::Interrupted => {
            settle_queue(state, true);
            state.notice("Compaction interrupted.");
        },
        TurnEnd::Failed(error) => {
            settle_queue(state, false);
            state.notice(cat2("Compaction failed: ", error.as_str()).as_str());
        },
    }
}

/// What the clipboard gets. An empty text is not copied, and that is said.
pub open spec fn copied(s: StateModel, text: Seq<char>) -> (StateModel, Option<Seq<char>>) {
    if text.len() == 0 {
        (s.noted("Nothing to copy."@), None)
    } else {
        (s, Some(text))
    }
}

pub fn copy_to_clipboard(state: &mut ViewState, text: String) -> (r: Option<String>)
    ensures
        (final(state)@, option_view(r)) == copied(old(state)@, text@),
{
    let n: usize = chars_of(text.as_str()).len();
    if n == 0 {
        state.notice("Nothing to copy.");
        None
    } else {
        Some(text)
    }
}

// ---------------------------------------------------------------------------
// Laws

/// A turn that was undone leaves the context and the goal as they were before
/// it, and says what was undone; where that failed, nothing changes but a
/// notice.
pub proof fn undoing_restores(
    s: StateModel,
    f: FactsModel,
    text: Seq<char>,
    error: Seq<char>,
)
    ensures
        undone(s, f, Ok(text)).context_tokens == f.context_tokens,
        undone(s, f, Ok(text)).active_goal == f.active_goal,
        undone(s, f, Ok(text)).notices == s.notices.push(text),
        undone(s, f, Ok(text)).queued_inputs == s.queued_inputs,
        undone(s, f, Err(error)) == s.noted("Could not undo: "@ + error),
{
}

/// A compaction that was stopped pauses the queue, and one that ended does not;
/// what it says tells a stop from a failure.
pub proof fn compactions_end(s: StateModel, end: TurnEnd)
    requires
        !s.send_next,
    ensures
        compacted(s, end).activity == ""@,
        compacted(s, TurnEnd::Interrupted).queue_paused <==> s.queued_inputs.len()
            + s.pending_steers.len() > 0,
        !(end is Interrupted) ==> compacted(s, end).queue_paused == s.queue_paused,
        compacted(s, TurnEnd::Finished).notices == s.notices,
        compacted(s, TurnEnd::Interrupted).notices == s.notices.push("Compaction interrupted."@),
        end matches TurnEnd::Failed(error) ==> compacted(s, end).notices == s.notices.push(
            "Compaction failed: "@ + error@,
        ),
{
}

/// A text is copied as it is; nothing is copied where there is none.
pub proof fn texts_are_copied_whole(s: StateModel, text: Seq<char>)
    ensures
        text.len() > 0 ==> copied(s, text) == (s, Some(text)),
        text.len() == 0 ==> copied(s, text) == (s.noted("Nothing to copy."@), None::<Seq<char>>),
{
}

} // verus!
