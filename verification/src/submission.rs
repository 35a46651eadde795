//! Submissions of the composer: commands, skills, and messages to the model.

use vstd::prelude::*;
use crate::actions::{ask_setting, setting_asked, After, Request, RequestModel};
use crate::editor::{expanded, plain, Editor, EditorModel, Submission, SubmissionModel};
use crate::facts::{facts_model, Facts, FactsModel};
use crate::model::{
    copy_all, copy_option, first_position, first_position_is, no_first_position, option_view,
    views,
};
use crate::picker::models::{
    is_text, model_menu, model_picker, reasoning_menu, reasoning_picker,
};
use crate::picker::settings::{root_menu, settings_picker};
use crate::queue::{queue_settled, settle_queue, unqueue, unqueued};
use crate::state::{
    connect_opened, open_connection, state_model, StateModel, ViewState,
};
use crate::text::{
    after_prefix, ascii_lower_all, cat2, cat3, cat4, chars_of, is, is_whitespace, joined, same,
    starts, string_of, strip_prefix, sub_chars, to_ascii_lower_all, trim, trimmed, whitespace,
};

verus! {

broadcast use vstd::string::group_string_axioms;

pub const HELP: &'static str = "\
Commands

| Command | Description |
| --- | --- |
| `/new`, `/clear` | Start a fresh session in the current directory |
| `/resume [ID]` | Open session picker or resume directly |
| `/undo` | Restore files and drop the last turn |
| `/diff` | Show files changed this session |
| `/init` | Create or update project agent guidance |
| `/quit` | Leave Yawl |
| --- | --- |
| `/model [MODEL]` | Open model picker or switch directly |
| `/reasoning [LVL]` | Show supported reasoning levels or set one |
| `/settings [KEY]` | Open settings picker or change directly |
| `/connect` | Configure a model provider interactively |
| --- | --- |
| `/usage` | Show token and prompt-cache usage |
| `/compact` | Summarize older messages now |
| `/copy` | Copy the last assistant reply |
| `/copy-all` | Copy conversation without reasoning |
| `/tools` | List builtin and discovered tools |
| `/skills` | List discovered skills (run `/skill:NAME`) |
| --- | --- |
| `/goal [TEXT]` | Start, resume, cancel, or show goal |
| `/plan [TEXT]` | Start, resume, cancel, or show plan workflow |
| `/unqueue [N]` | Cancel or manage queued messages |
| `/subagents` | Open the subagent dashboard |
| `/git` | Open the git dashboard (offers repo setup outside a repo) |
| `/ps` | Open the background process dashboard |
| --- | --- |
| `/hotkeys` | Show keyboard shortcuts grid |
| `/help` | Show this command reference |

Input

- `Enter` submits when idle, or steers while a response runs
- `Tab` completes in menus, or queues a message while busy
- Run `/hotkeys` for all editing, transcript, and dashboard shortcuts
";

pub const HOTKEYS: &'static str = "\
Keyboard shortcuts

| Area | Key | Action |
| --- | --- | --- |
| **Input** | `Enter` | Submit while idle; steer running turn |
| | `Ctrl+G`, `Ctrl+Enter` | Steer at next safe boundary |
| | `Tab` | Queue while busy; complete in menus |
| | `Shift/Alt+Enter`, `Ctrl+J` | Insert a newline |
| | `Escape`, `Ctrl+C` | Abort active turn; clear editor |
| | `Ctrl+L` | Repaint the screen |
| --- | --- | --- |
| **Editing** | `Left` / `Right` | Move cursor |
| | `Home` / `End`, `Ctrl+A/E` | Jump to line start / end |
| | `Backspace`, `Delete` | Delete character |
| | `Ctrl+U`, `Ctrl+K`, `Ctrl+W` | Delete to start, end, or word |
| | `Up` / `Down` | Move wrapped line, then history |
| | `Ctrl+V` | Paste image as `[Image #N]` |
| --- | --- | --- |
| **Menus** | `Up` / `Down` | Change selection (wraps) |
| | `Tab` | Complete selection |
| | `Enter` | Run command, or insert `@` tag |
| --- | --- | --- |
| **Transcript** | `Tab` | Focus transcript when idle |
| | `Up`/`Down` or `k`/`j` | Move between blocks |
| | `Left`/`Right` or `h`/`l` | Fold / unfold selected block |
| | `Enter` | Open full-screen viewer |
| | `y` | Copy selected block |
| | `Escape`, `Ctrl+C` | Return to editor |
| | `Ctrl+O` | Expand / collapse tool output |
| | `Ctrl+F` | Search: Enter next, Up prev, Esc closes |
| | `PgUp`/`PgDn`, Wheel | Scroll; drag scroll bar to jump |
| | Drag (left button) | Select text; release copies to clipboard |
| --- | --- | --- |
| **Viewer** | `Up`/`Down`, `PgUp`/`PgDn` | Scroll viewer |
| | `y` | Copy block contents |
| | `Escape`, `Enter` | Close viewer |
| --- | --- | --- |
| **Questions** | `Up`/`Down` or `k`/`j` | Change selection |
| | `1`–`4` | Choose option directly |
| | `Enter` | Confirm (Other… opens multiline editor) |
| | `Escape` | Cancel question and running turn |
| --- | --- | --- |
| **Queue** | `Up` / `Down` | Select queued message |
| | `K` / `J` | Reorder queued messages |
| | `e` | Edit selected message |
| | `d`, `Delete` | Delete selected message |
| | `Enter` | Stop turn and send now |
| --- | --- | --- |
| **/ps** | `Up`/`Down` or `j`/`k` | Select row; Enter views logs |
| | `x`, `Ctrl+C` | Stop command immediately |
| | `r` / `d`, `Delete` | Restart / remove settled history |
| | `Escape` | Close dashboard |
| --- | --- | --- |
| **/subagents** | `Up`/`Down` or `j`/`k` | Select run; Enter opens takeover |
| | `x` | Ask to cancel selected run |
| | `Escape` | Close dashboard |
| **/git** | `Up`/`Down` or `j`/`k` | Select file; Enter opens diff |
| | `Space` | Stage / unstage selected file |
| | `+` / `-` | Stage / unstage selected file |
| | `↩` (undo) | Discard selected file (always confirms) |
| | `a` / `u` | Stage all / unstage all |
| | `e`, `Tab` | Edit commit message; Enter commits |
| | `C`, `m` | Commit now; toggle amend |
| | `v` | Commit menu: push, sync, amend |
| | `Tab` | Cycle files, history, and message |
| | `Enter` on history | View that commit's diff |
| | `d` | Discard selected file (always confirms) |
| | `p` / `f` / `F` | Push / fetch / pull |
| | `b` / `l` / `s` / `S` | Branches / log / stash / pop |
| | `r` | Refresh status |
| | `Escape` | Close diff, then dashboard |
";

/// What a submission asks for.
#[derive(Debug)]
pub enum Task {
    Nothing,
    Quit,
    /// Send a text to the model; another is shown for it.
    RunTurn { text: String, displayed: String, input: Submission },
    /// Send a skill with its arguments to the model.
    RunSkill { skill: usize, arguments: String, displayed: String, input: Submission },
    Ask(Request),
    /// Resume a session that was named.
    Resume(String),
    /// Begin a new session.
    Reset,
    Compact,
    Usage,
    Tools,
    Skills,
    Subagents,
    Processes,
    Git,
    Diff,
    Undo,
    Copy,
    CopyAll,
    Goal { argument: String, displayed: String },
    Plan { argument: String, displayed: String },
}

pub enum TaskModel {
    Nothing,
    Quit,
    RunTurn { text: Seq<char>, displayed: Seq<char>, input: SubmissionModel },
    RunSkill { skill: usize, arguments: Seq<char>, displayed: Seq<char>, input: SubmissionModel },
    Ask(RequestModel),
    Resume(Seq<char>),
    Reset,
    Compact,
    Usage,
    Tools,
    Skills,
    Subagents,
    Processes,
    Git,
    Diff,
    Undo,
    Copy,
    CopyAll,
    Goal { argument: Seq<char>, displayed: Seq<char> },
    Plan { argument: Seq<char>, displayed: Seq<char> },
}

impl View for Task {
    type V = TaskModel;

    open spec fn view(&self) -> TaskModel {
        match self {
            Task::Nothing => TaskModel::Nothing,
            Task::Quit => TaskModel::Quit,
            Task::RunTurn { text, displayed, input } => TaskModel::RunTurn { text: text@, displayed: displayed@, input: input@ },
            Task::RunSkill { skill, arguments, displayed, input } => TaskModel::RunSkill { skill: *skill, arguments: arguments@, displayed: displayed@, input: input@ },
            Task::Ask(a) => TaskModel::Ask(a@),
            Task::Resume(a) => TaskModel::Resume(a@),
            Task::Reset => TaskModel::Reset,
            Task::Compact => TaskModel::Compact,
            Task::Usage => TaskModel::Usage,
            Task::Tools => TaskModel::Tools,
            Task::Skills => TaskModel::Skills,
            Task::Subagents => TaskModel::Subagents,
            Task::Processes => TaskModel::Processes,
            Task::Git => TaskModel::Git,
            Task::Diff => TaskModel::Diff,
            Task::Undo => TaskModel::Undo,
            Task::Copy => TaskModel::Copy,
            Task::CopyAll => TaskModel::CopyAll,
            Task::Goal { argument, displayed } => TaskModel::Goal { argument: argument@, displayed: displayed@ },
            Task::Plan { argument, displayed } => TaskModel::Plan { argument: argument@, displayed: displayed@ },
        }
    }
}

// ---------------------------------------------------------------------------
// Reading

pub open spec fn is_space() -> spec_fn(char) -> bool {
    |c: char| whitespace(c)
}

/// The first word of a text, and the rest without the space around it.
pub open spec fn word_and_rest(s: Seq<char>) -> (Seq<char>, Seq<char>) {
    match first_position(s, is_space()) {
        Some(i) => (s.take(i), trimmed(s.skip(i + 1))),
        None => (s, Seq::empty()),
    }
}

pub(crate) fn split_word(s: &[char]) -> (r: (Vec<char>, Vec<char>))
    ensures
        (r.0@, r.1@) == word_and_rest(s@),
{
    let n: usize = s.len();
    let ghost test = is_space();
    let mut i: usize = 0;
    while i < n
        invariant
            i <= n,
            n == s@.len(),
            test == is_space(),
            forall|k: int| 0 <= k < i ==> !test(#[trigger] s@[k]),
        decreases n - i,
    {
        if is_whitespace(s[i]) {
            proof {
                first_position_is(s@, test, i as int);
            }
            let word = sub_chars(s, 0, i);
            let rest = sub_chars(s, i + 1, n);
            assert(word@ =~= s@.take(i as int));
            assert(rest@ =~= s@.skip(i + 1));
            return (word, trim(&rest));
        }
        i += 1;
    }
    proof {
        no_first_position(s@, test);
    }
    let word = sub_chars(s, 0, n);
    let rest: Vec<char> = Vec::new();
    assert(word@ =~= s@);
    assert(rest@ =~= Seq::empty());
    (word, rest)
}

pub open spec fn begins_session(name: Seq<char>) -> bool {
    name == "new"@ || name == "clear"@
}

/// Whether a command begins a new session.
pub fn is_new_session_command(name: &str) -> (r: bool)
    ensures
        r == begins_session(name@),
{
    let chars = chars_of(name);
    is(&chars, "new") || is(&chars, "clear")
}

/// The message of the command that writes guidance for the agent: the command
/// itself. It takes no argument.
pub fn init(argument: &str) -> (r: Result<Submission, &'static str>)
    ensures
        match r {
            Ok(input) => argument@.len() == 0 && input@ == plain("/init"@),
            Err(error) => argument@.len() > 0 && error@ == "Usage: /init"@,
        },
{
    let n: usize = chars_of(argument).len();
    if n == 0 {
        Ok(Submission::new("/init"))
    } else {
        Err("Usage: /init")
    }
}

// ---------------------------------------------------------------------------
// The command on the effort

pub open spec fn no_levels(model: Seq<char>) -> Seq<char> {
    model + " does not expose reasoning levels."@
}

/// The state after the command on the effort, and what it asks for.
pub open spec fn reasoning_read(s: StateModel, f: FactsModel, argument: Seq<char>) -> (
    StateModel,
    RequestModel,
) {
    let effort = ascii_lower_all(argument);
    if argument.len() == 0 {
        if f.efforts.len() == 0 {
            (s.noted(no_levels(f.model)), RequestModel::Nothing)
        } else {
            (
                s.with_picker(
                    Some(reasoning_menu(f.efforts, f.config, f.reasoning_model, false)),
                ),
                RequestModel::Nothing,
            )
        }
    } else if effort == "default"@ {
        (s, RequestModel::SetEffort(None))
    } else if f.efforts.contains(effort) {
        (s, RequestModel::SetEffort(Some(effort)))
    } else if f.efforts.len() == 0 {
        (s.noted(no_levels(f.model)), RequestModel::Nothing)
    } else {
        (
            s.noted(
                f.model + " supports default, "@ + joined(f.efforts, ", "@) + "."@,
            ),
            RequestModel::Nothing,
        )
    }
}

fn join_texts(list: &Vec<String>, sep: &str) -> (r: String)
    ensures
        r@ == joined(views(list@), sep@),
{
    let ghost all = views(list@);
    let mut r = "".to_owned();
    let mut i: usize = 0;
    proof {
        reveal_strlit("");
        assert(r@ =~= joined(all.take(0), sep@));
    }
    while i < list.len()
        invariant
            i <= list@.len(),
            all == views(list@),
            r@ == joined(all.take(i as int), sep@),
        decreases list@.len() - i,
    {
        proof {
            assert(all.take(i + 1).drop_last() =~= all.take(i as int));
            assert(all.take(i + 1).last() == list@[i as int]@);
        }
        if i == 0 {
            r = list[i].clone();
            assert(r@ =~= joined(all.take(1), sep@)) by {
                reveal_with_fuel(joined, 3);
            }
        } else {
            r = cat3(r.as_str(), sep, list[i].as_str());
        }
        i += 1;
    }
    assert(all.take(i as int) =~= all);
    r
}

fn lists_text(list: &Vec<String>, text: &str) -> (r: bool)
    ensures
        r == views(list@).contains(text@),
{
    let mut i: usize = 0;
    while i < list.len()
        invariant
            i <= list@.len(),
            forall|k: int| 0 <= k < i ==> #[trigger] views(list@)[k] != text@,
        decreases list@.len() - i,
    {
        if same(list[i].as_str(), text) {
            assert(views(list@)[i as int] == text@);
            return true;
        }
        i += 1;
    }
    false
}

/// Reads the command on the effort; see `reasoning_read`.
pub fn reasoning(state: &mut ViewState, facts: &Facts, argument: &str) -> (r: Request)
    ensures
        (final(state)@, r@) == reasoning_read(old(state)@, facts@, argument@),
{
    proof {
        reveal(facts_model);
    }
    let chars = chars_of(argument);
    let n: usize = chars.len();
    let levels: usize = facts.efforts.len();
    assert(facts@.efforts.len() == levels);
    if n == 0 {
        if levels == 0 {
            state.notice(
                cat2(facts.model.as_str(), " does not expose reasoning levels.").as_str(),
            );
        } else {
            let picker = reasoning_picker(
                &facts.efforts,
                &facts.config,
                facts.reasoning_model.as_str(),
                false,
            );
            state.set_picker(Some(picker));
        }
        return Request::Nothing;
    }
    let effort = string_of(&to_ascii_lower_all(&chars));
    if same(effort.as_str(), "default") {
        return Request::SetEffort(None);
    }
    if lists_text(&facts.efforts, effort.as_str()) {
        return Request::SetEffort(Some(effort));
    }
    if levels == 0 {
        state.notice(cat2(facts.model.as_str(), " does not expose reasoning levels.").as_str());
    } else {
        let text = cat4(
            facts.model.as_str(),
            " supports default, ",
            join_texts(&facts.efforts, ", ").as_str(),
            ".",
        );
        state.notice(text.as_str());
    }
    Request::Nothing
}

// ---------------------------------------------------------------------------
// Commands

/// What a command without an argument is for.
#[verifier::opaque]
pub open spec fn bare_task(name: Seq<char>) -> Option<TaskModel> {
    if name == "subagents"@ {
        Some(TaskModel::Subagents)
    } else if name == "ps"@ {
        Some(TaskModel::Processes)
    } else if name == "git"@ {
        Some(TaskModel::Git)
    } else if name == "usage"@ {
        Some(TaskModel::Usage)
    } else {
        None
    }
}

fn find_bare_task(name: &[char]) -> (r: Option<Task>)
    ensures
        match r {
            Some(task) => bare_task(name@) == Some(task@),
            None => bare_task(name@) is None,
        },
{
    proof {
        reveal(bare_task);
    }
    if is(name, "subagents") {
        Some(Task::Subagents)
    } else if is(name, "ps") {
        Some(Task::Processes)
    } else if is(name, "git") {
        Some(Task::Git)
    } else if is(name, "usage") {
        Some(Task::Usage)
    } else {
        None
    }
}

/// What a command is for, whatever its argument.
#[verifier::opaque]
pub open spec fn plain_task(name: Seq<char>) -> Option<TaskModel> {
    if name == "quit"@ || name == "q"@ {
        Some(TaskModel::Quit)
    } else if begins_session(name) {
        Some(TaskModel::Reset)
    } else if name == "compact"@ {
        Some(TaskModel::Compact)
    } else if name == "tools"@ {
        Some(TaskModel::Tools)
    } else if name == "skills"@ {
        Some(TaskModel::Skills)
    } else if name == "diff"@ {
        Some(TaskModel::Diff)
    } else if name == "undo"@ {
        Some(TaskModel::Undo)
    } else if name == "copy"@ {
        Some(TaskModel::Copy)
    } else if name == "copy-all"@ {
        Some(TaskModel::CopyAll)
    } else if name == ""@ {
        Some(TaskModel::Nothing)
    } else {
        None
    }
}

fn find_plain_task(name: &[char]) -> (r: Option<Task>)
    ensures
        match r {
            Some(task) => plain_task(name@) == Some(task@),
            None => plain_task(name@) is None,
        },
{
    proof {
        reveal(plain_task);
    }
    if is(name, "quit") || is(name, "q") {
        Some(Task::Quit)
    } else if is(name, "new") || is(name, "clear") {
        Some(Task::Reset)
    } else if is(name, "compact") {
        Some(Task::Compact)
    } else if is(name, "tools") {
        Some(Task::Tools)
    } else if is(name, "skills") {
        Some(Task::Skills)
    } else if is(name, "diff") {
        Some(Task::Diff)
    } else if is(name, "undo") {
        Some(Task::Undo)
    } else if is(name, "copy") {
        Some(Task::Copy)
    } else if is(name, "copy-all") {
        Some(Task::CopyAll)
    } else if is(name, "") {
        Some(Task::Nothing)
    } else {
        None
    }
}

/// The state after a command that shows something at once.
#[verifier::opaque]
pub open spec fn shown_by(s: StateModel, f: FactsModel, name: Seq<char>, argument: Seq<char>) -> Option<
    StateModel,
> {
    if name == "help"@ {
        Some(s.noted(HELP@))
    } else if name == "hotkeys"@ {
        Some(s.noted(HOTKEYS@))
    } else if name == "model"@ && argument.len() == 0 {
        Some(s.with_picker(Some(model_menu(f.models, f.config, f.model, false))))
    } else if name == "settings"@ && argument.len() == 0 {
        Some(s.with_picker(Some(root_menu())))
    } else if name == "connect"@ && argument.len() == 0 {
        Some(connect_opened(s, f.catalog, false))
    } else if name == "connect"@ {
        Some(s.noted("Usage: /connect"@))
    } else if name == "unqueue"@ {
        Some(unqueued(s, argument))
    } else {
        None
    }
}

fn show_by(state: &mut ViewState, facts: &Facts, name: &[char], argument: &str) -> (r: bool)
    ensures
        match shown_by(old(state)@, facts@, name@, argument@) {
            Some(now) => r && final(state)@ == now,
            None => !r && final(state)@ == old(state)@,
        },
{
    proof {
        reveal(shown_by);
        reveal(facts_model);
    }
    let n: usize = chars_of(argument).len();
    if is(name, "help") {
        state.notice(HELP);
        true
    } else if is(name, "hotkeys") {
        state.notice(HOTKEYS);
        true
    } else if is(name, "model") && n == 0 {
        let picker = model_picker(&facts.models, &facts.config, facts.model.as_str(), false);
        state.set_picker(Some(picker));
        true
    } else if is(name, "settings") && n == 0 {
        state.set_picker(Some(settings_picker()));
        true
    } else if is(name, "connect") && n == 0 {
        open_connection(state, copy_all(&facts.catalog), false);
        true
    } else if is(name, "connect") {
        state.notice("Usage: /connect");
        true
    } else if is(name, "unqueue") {
        unqueue(argument, state);
        true
    } else {
        false
    }
}

/// A text as the model receives it.
pub open spec fn sent_text(e: EditorModel, text: Seq<char>) -> Seq<char> {
    expanded(expanded(text, e.mentions), e.pastes)
}

/// A text as it is shown.
pub open spec fn shown_text(e: EditorModel, text: Seq<char>) -> Seq<char> {
    expanded(text, e.pastes)
}

/// The state after a command that asks for something according to its
/// argument.
#[verifier::opaque]
pub open spec fn asked_by(
    s: StateModel,
    e: EditorModel,
    f: FactsModel,
    name: Seq<char>,
    argument: Seq<char>,
) -> Option<(StateModel, TaskModel)> {
    if name == "model"@ {
        Some((s, TaskModel::Ask(RequestModel::SwitchModel(argument))))
    } else if name == "settings"@ {
        let (now, request) = setting_asked(s, f, argument, After::Stay);
        Some((now, TaskModel::Ask(request)))
    } else if name == "reasoning"@ {
        let (now, request) = reasoning_read(s, f, argument);
        Some((now, TaskModel::Ask(request)))
    } else if name == "resume"@ {
        if argument.len() == 0 {
            Some((s, TaskModel::Ask(RequestModel::ListSessions { selected: 0 })))
        } else {
            Some((s, TaskModel::Resume(argument)))
        }
    } else if name == "goal"@ {
        Some(
            (
                s,
                TaskModel::Goal {
                    argument: sent_text(e, argument),
                    displayed: shown_text(e, argument),
                },
            ),
        )
    } else if name == "plan"@ {
        Some(
            (
                s,
                TaskModel::Plan {
                    argument: sent_text(e, argument),
                    displayed: shown_text(e, argument),
                },
            ),
        )
    } else if name == "init"@ {
        if argument.len() == 0 {
            Some(
                (
                    s,
                    TaskModel::RunTurn {
                        text: "/init"@,
                        displayed: "/init"@,
                        input: plain("/init"@),
                    },
                ),
            )
        } else {
            Some((s.noted("Usage: /init"@), TaskModel::Nothing))
        }
    } else {
        None
    }
}

fn ask_by(
    state: &mut ViewState,
    editor: &Editor,
    facts: &Facts,
    name: &[char],
    argument: &str,
) -> (r: Option<Task>)
    requires
        editor.wf(),
    ensures
        match asked_by(old(state)@, editor@, facts@, name@, argument@) {
            Some(pair) => r is Some && (final(state)@, r->0@) == pair,
            None => r is None && final(state)@ == old(state)@,
        },
{
    proof {
        reveal(asked_by);
    }
    let n: usize = chars_of(argument).len();
    if is(name, "model") {
        Some(Task::Ask(Request::SwitchModel(argument.to_owned())))
    } else if is(name, "settings") {
        Some(Task::Ask(ask_setting(state, facts, argument, After::Stay)))
    } else if is(name, "reasoning") {
        Some(Task::Ask(reasoning(state, facts, argument)))
    } else if is(name, "resume") {
        if n == 0 {
            Some(Task::Ask(Request::ListSessions { selected: 0 }))
        } else {
            Some(Task::Resume(argument.to_owned()))
        }
    } else if is(name, "goal") {
        Some(
            Task::Goal {
                argument: editor.expand_submission(argument),
                displayed: editor.expand_pastes(argument),
            },
        )
    } else if is(name, "plan") {
        Some(
            Task::Plan {
                argument: editor.expand_submission(argument),
                displayed: editor.expand_pastes(argument),
            },
        )
    } else if is(name, "init") {
        match init(argument) {
            Ok(input) => Some(
                Task::RunTurn {
                    text: "/init".to_owned(),
                    displayed: "/init".to_owned(),
                    input,
                },
            ),
            Err(usage) => {
                state.notice(usage);
                Some(Task::Nothing)
            },
        }
    } else {
        None
    }
}

/// The state after a command, and what it asks for.
#[verifier::opaque]
pub open spec fn command_read(
    s: StateModel,
    e: EditorModel,
    f: FactsModel,
    name: Seq<char>,
    argument: Seq<char>,
) -> (StateModel, TaskModel) {
    match plain_task(name) {
        Some(task) => (s, task),
        None => match bare_task(name) {
            Some(task) => if argument.len() == 0 {
                (s, task)
            } else {
                (s.noted("Usage: /"@ + name), TaskModel::Nothing)
            },
            None => match shown_by(s, f, name, argument) {
                Some(now) => (now, TaskModel::Nothing),
                None => match asked_by(s, e, f, name, argument) {
                    Some(pair) => pair,
                    None => (
                        s.noted("Unknown command '/"@ + name + "'. Type /help."@),
                        TaskModel::Nothing,
                    ),
                },
            },
        },
    }
}

fn read_command(
    state: &mut ViewState,
    editor: &Editor,
    facts: &Facts,
    name: &[char],
    argument: &str,
) -> (r: Task)
    requires
        editor.wf(),
    ensures
        (final(state)@, r@) == command_read(old(state)@, editor@, facts@, name@, argument@),
{
    proof {
        reveal(command_read);
    }
    match find_plain_task(name) {
        Some(task) => return task,
        None => {},
    }
    match find_bare_task(name) {
        Some(task) => {
            let n: usize = chars_of(argument).len();
            if n == 0 {
                return task;
            }
            state.notice(cat2("Usage: /", string_of(name).as_str()).as_str());
            return Task::Nothing;
        },
        None => {},
    }
    if show_by(state, facts, name, argument) {
        return Task::Nothing;
    }
    match ask_by(state, editor, facts, name, argument) {
        Some(task) => task,
        None => {
            let text = cat3("Unknown command '/", string_of(name).as_str(), "'. Type /help.");
            state.notice(text.as_str());
            Task::Nothing
        },
    }
}

// ---------------------------------------------------------------------------
// Submissions

/// What came of a submission.
pub struct Submitted {
    pub state: StateModel,
    pub editor: EditorModel,
    pub task: TaskModel,
}

/// A submission that is refused comes back to the composer.
pub open spec fn refused(s: StateModel, e: EditorModel, input: SubmissionModel, text: Seq<char>) -> Submitted {
    Submitted { state: s.noted(text), editor: e.restored(input), task: TaskModel::Nothing }
}

fn refuse(state: &mut ViewState, editor: &mut Editor, input: Submission, text: &str) -> (r: Task)
    requires
        old(editor).wf(),
    ensures
        final(editor).wf(),
        (Submitted { state: final(state)@, editor: final(editor)@, task: r@ }) == refused(
            old(state)@,
            old(editor)@,
            input@,
            text@,
        ),
{
    state.notice(text);
    editor.restore_submission(input);
    Task::Nothing
}

/// A skill by its name. `skills` holds the names of those that were found.
#[verifier::opaque]
pub open spec fn skill_read(
    s: StateModel,
    e: EditorModel,
    skills: Seq<Seq<char>>,
    command: Seq<char>,
    input: SubmissionModel,
) -> Submitted {
    let (name, arguments) = word_and_rest(command);
    match first_position(skills, is_text(name)) {
        Some(i) => Submitted {
            state: s,
            editor: e,
            task: TaskModel::RunSkill {
                skill: i as usize,
                arguments: sent_text(e, arguments),
                displayed: shown_text(e, input.text),
                input,
            },
        },
        None => refused(
            s,
            e,
            input,
            "Unknown skill '"@ + name + "'. Type /skills to list skills."@,
        ),
    }
}

fn find_text(list: &Vec<String>, text: &[char]) -> (r: Option<usize>)
    ensures
        match r {
            Some(i) => first_position(views(list@), is_text(text@)) == Some(i as int),
            None => first_position(views(list@), is_text(text@)) is None,
        },
{
    let ghost all = views(list@);
    let ghost test = is_text(text@);
    let wanted = string_of(text);
    let mut i: usize = 0;
    while i < list.len()
        invariant
            i <= list@.len(),
            all == views(list@),
            wanted@ == text@,
            test == is_text(text@),
            forall|k: int| 0 <= k < i ==> !test(#[trigger] all[k]),
        decreases list@.len() - i,
    {
        assert(all[i as int] == list@[i as int]@);
        if same(list[i].as_str(), wanted.as_str()) {
            proof {
                first_position_is(all, test, i as int);
            }
            return Some(i);
        }
        i += 1;
    }
    proof {
        no_first_position(all, test);
    }
    None
}

fn read_skill(
    state: &mut ViewState,
    editor: &mut Editor,
    skills: &Vec<String>,
    command: &[char],
    input: Submission,
) -> (r: Task)
    requires
        old(editor).wf(),
    ensures
        final(editor).wf(),
        (Submitted { state: final(state)@, editor: final(editor)@, task: r@ }) == skill_read(
            old(state)@,
            old(editor)@,
            views(skills@),
            command@,
            input@,
        ),
{
    proof {
        reveal(skill_read);
    }
    let (name, arguments) = split_word(command);
    match find_text(skills, &name) {
        Some(skill) => {
            let rest = string_of(&arguments);
            Task::RunSkill {
                skill,
                arguments: editor.expand_submission(rest.as_str()),
                displayed: editor.expand_pastes(input.text.as_str()),
                input,
            }
        },
        None => {
            let text = cat3(
                "Unknown skill '",
                string_of(&name).as_str(),
                "'. Type /skills to list skills.",
            );
            refuse(state, editor, input, text.as_str())
        },
    }
}

/// The state, the composer and the task after a submission.
#[verifier::opaque]
pub open spec fn submitted(
    s: StateModel,
    e: EditorModel,
    f: FactsModel,
    skills: Seq<Seq<char>>,
    input: SubmissionModel,
) -> Submitted {
    let command = trimmed(input.text);
    if input.images.len() > 0 && !f.supports_images {
        refused(s, e, input, "Model '"@ + f.model + "' does not accept image input."@)
    } else {
        match after_prefix(command, "/skill:"@) {
            Some(rest) => skill_read(s, e, skills, rest, input),
            None => match after_prefix(command, "/"@) {
                Some(rest) => if input.images.len() > 0 {
                    refused(
                        s,
                        e,
                        input,
                        "Images can accompany prompts and /skill commands, not local commands."@,
                    )
                } else {
                    let (name, argument) = word_and_rest(rest);
                    let (now, task) = command_read(s, e, f, name, argument);
                    Submitted { state: now, editor: e, task }
                },
                None => Submitted {
                    state: s,
                    editor: e,
                    task: TaskModel::RunTurn {
                        text: sent_text(e, input.text),
                        displayed: shown_text(e, input.text),
                        input,
                    },
                },
            },
        }
    }
}

/// Reads a submission; see `submitted`. `skills` holds the names of the skills
/// that were found.
pub fn handle_submission(
    state: &mut ViewState,
    editor: &mut Editor,
    facts: &Facts,
    skills: &Vec<String>,
    input: Submission,
) -> (r: Task)
    requires
        old(editor).wf(),
    ensures
        final(editor).wf(),
        (Submitted { state: final(state)@, editor: final(editor)@, task: r@ }) == submitted(
            old(state)@,
            old(editor)@,
            facts@,
            views(skills@),
            input@,
        ),
{
    proof {
        reveal(submitted);
        reveal(facts_model);
    }
    let command = trim(&chars_of(input.text.as_str()));
    if input.has_images() && !facts.supports_images {
        let text = cat3("Model '", facts.model.as_str(), "' does not accept image input.");
        return refuse(state, editor, input, text.as_str());
    }
    match strip_prefix(&command, "/skill:") {
        Some(rest) => return read_skill(state, editor, skills, &rest, input),
        None => {},
    }
    match strip_prefix(&command, "/") {
        Some(rest) => {
            if input.has_images() {
                return refuse(
                    state,
                    editor,
                    input,
                    "Images can accompany prompts and /skill commands, not local commands.",
                );
            }
            let (name, argument) = split_word(&rest);
            let argument = string_of(&argument);
            return read_command(state, editor, facts, &name, argument.as_str());
        },
        None => {},
    }
    Task::RunTurn {
        text: editor.expand_submission(input.text.as_str()),
        displayed: editor.expand_pastes(input.text.as_str()),
        input,
    }
}

/// Takes a submission back whose images could not be read.
pub fn refuse_images(state: &mut ViewState, editor: &mut Editor, input: Submission, error: &str)
    requires
        old(editor).wf(),
    ensures
        final(editor).wf(),
        final(state)@ == old(state)@.noted("Could not prepare images: "@ + error@ + "."@),
        final(editor)@ == old(editor)@.restored(input@),
{
    let text = cat3("Could not prepare images: ", error, ".");
    let _task = refuse(state, editor, input, text.as_str());
}

// ---------------------------------------------------------------------------
// Turns

/// How a turn ended.
#[derive(Debug)]
pub enum TurnEnd {
    Finished,
    Interrupted,
    Failed(String),
}

pub open spec fn turn_begun(s: StateModel, goal: Option<Seq<char>>, goal_mode: bool) -> StateModel {
    StateModel {
        activity: "sending"@,
        turn_running: true,
        active_goal: goal,
        goal_running: goal_mode,
        scroll_offset: 0,
        ..s
    }
}

/// Begins a turn; `goal` is the goal of the agent.
pub fn begin_turn(state: &mut ViewState, goal: &Option<String>, goal_mode: bool)
    ensures
        final(state)@ == turn_begun(old(state)@, option_view(*goal), goal_mode),
{
    proof {
        reveal(state_model);
    }
    state.activity = "sending".to_owned();
    state.turn_running = true;
    state.active_goal = copy_option(goal);
    state.goal_running = goal_mode;
    state.scroll_offset = 0;
}

/// The state at the end of a turn. Messages that the turn has not taken wait
/// with the others; after a cancel they wait until one is sent by hand.
pub open spec fn turn_ended(s: StateModel, end: TurnEnd, goal: Option<Seq<char>>) -> StateModel {
    let now = match end {
        TurnEnd::Finished => s,
        TurnEnd::Interrupted => s.noted("Turn interrupted."@),
        TurnEnd::Failed(error) => s.noted("Request failed: "@ + error@),
    };
    StateModel {
        activity: ""@,
        turn_running: false,
        active_goal: goal,
        goal_running: false,
        ..queue_settled(now, end is Interrupted)
    }
}

fn settle_turn(state: &mut ViewState, goal: &Option<String>)
    ensures
        final(state)@ == (StateModel {
            activity: ""@,
            turn_running: false,
            active_goal: option_view(*goal),
            goal_running: false,
            ..old(state)@
        }),
{
    proof {
        reveal(state_model);
    }
    state.activity = "".to_owned();
    state.turn_running = false;
    state.active_goal = copy_option(goal);
    state.goal_running = false;
}

/// Ends a turn; see `turn_ended`. `goal` is the goal of the agent then.
pub fn end_turn(state: &mut ViewState, end: &TurnEnd, goal: &Option<String>)
    ensures
        final(state)@ == turn_ended(old(state)@, *end, option_view(*goal)),
{
    match end {
        TurnEnd::Finished => settle_queue(state, false),
        TurnEnd::Interrupted => {
            state.notice("Turn interrupted.");
            settle_queue(state, true);
        },
        TurnEnd::Failed(error) => {
            state.notice(cat2("Request failed: ", error.as_str()).as_str());
            settle_queue(state, false);
        },
    }
    settle_turn(state, goal);
}

// ---------------------------------------------------------------------------
// Laws

/// A submission with images that the model does not take is not lost: it is in
/// the composer again, and nothing is sent.
pub proof fn refused_images_come_back(
    s: StateModel,
    e: EditorModel,
    f: FactsModel,
    skills: Seq<Seq<char>>,
    input: SubmissionModel,
)
    requires
        input.images.len() > 0,
        !f.supports_images,
    ensures
        submitted(s, e, f, skills, input).editor == e.restored(input),
        submitted(s, e, f, skills, input).task == TaskModel::Nothing,
{
    reveal(submitted);
}

/// Whatever does not begin with a slash goes to the model.
pub proof fn messages_reach_the_model(
    s: StateModel,
    e: EditorModel,
    f: FactsModel,
    skills: Seq<Seq<char>>,
    input: SubmissionModel,
)
    requires
        trimmed(input.text).len() == 0 || trimmed(input.text)[0] != '/',
        input.images.len() == 0 || f.supports_images,
    ensures
        submitted(s, e, f, skills, input) == (Submitted {
            state: s,
            editor: e,
            task: TaskModel::RunTurn {
                text: sent_text(e, input.text),
                displayed: shown_text(e, input.text),
                input,
            },
        }),
{
    reveal(submitted);
    reveal_strlit("/skill:");
    reveal_strlit("/");
    let command = trimmed(input.text);
    assert("/skill:"@[0] == '/' && "/"@[0] == '/');
    if starts(command, "/"@) {
        assert(command.take(1)[0] == command[0]);
    }
    if starts(command, "/skill:"@) {
        assert(command.take(7)[0] == command[0]);
    }
}

/// An unknown command is answered and sends nothing.
pub proof fn unknown_commands_are_answered(
    s: StateModel,
    e: EditorModel,
    f: FactsModel,
    name: Seq<char>,
    argument: Seq<char>,
)
    requires
        plain_task(name) is None,
        bare_task(name) is None,
        shown_by(s, f, name, argument) is None,
        asked_by(s, e, f, name, argument) is None,
    ensures
        command_read(s, e, f, name, argument) == (
            s.noted("Unknown command '/"@ + name + "'. Type /help."@),
            TaskModel::Nothing,
        ),
{
    reveal(command_read);
}

/// A turn that has ended leaves nothing running.
pub proof fn ended_turns_run_no_more(s: StateModel, end: TurnEnd, goal: Option<Seq<char>>)
    ensures
        !turn_ended(s, end, goal).turn_running,
        !turn_ended(s, end, goal).goal_running,
        turn_ended(s, end, goal).pending_steers.len() == 0,
{
}

/// The interface is left by `/quit` and `/q`, and by nothing else.
pub proof fn only_quit_leaves(
    s: StateModel,
    e: EditorModel,
    f: FactsModel,
    skills: Seq<Seq<char>>,
    input: SubmissionModel,
)
    ensures
        submitted(s, e, f, skills, input).task == TaskModel::Quit <==> {
            let command = trimmed(input.text);
            &&& input.images.len() == 0
            &&& after_prefix(command, "/skill:"@) is None
            &&& after_prefix(command, "/"@) matches Some(rest)
            &&& word_and_rest(rest).0 == "quit"@ || word_and_rest(rest).0 == "q"@
        },
{
    reveal(submitted);
    reveal(skill_read);
    reveal(command_read);
    reveal(plain_task);
    reveal(bare_task);
    reveal(shown_by);
    reveal(asked_by);
}

/// A command with its argument, as it is typed.
pub open spec fn typed(name: Seq<char>, argument: Seq<char>) -> Seq<char> {
    "/"@ + name + " "@ + argument
}

/// The name of a command ends at the first white space, and what follows is its
/// argument.
pub proof fn names_end_at_white_space(name: Seq<char>, argument: Seq<char>)
    requires
        forall|i: int| 0 <= i < name.len() ==> !whitespace(#[trigger] name[i]),
    ensures
        word_and_rest(name + " "@ + argument) == (name, trimmed(argument)),
{
    reveal_strlit(" ");
    let s = name + " "@ + argument;
    let n = name.len() as int;
    assert(s[n] == ' ');
    crate::text::white_space_is_blank();
    assert forall|i: int| 0 <= i < n implies !is_space()(#[trigger] s[i]) by {
        assert(s[i] == name[i]);
    }
    first_position_is(s, is_space(), n);
    assert(s.take(n) =~= name);
    assert(s.skip(n + 1) =~= argument);
}

/// What is typed as a command is read as that command with its argument.
pub proof fn commands_are_read_as_typed(
    s: StateModel,
    e: EditorModel,
    f: FactsModel,
    skills: Seq<Seq<char>>,
    name: Seq<char>,
    argument: Seq<char>,
)
    requires
        name.len() > 0,
        forall|i: int| 0 <= i < name.len() ==> !whitespace(#[trigger] name[i]) && name[i] != ':',
        argument.len() > 0,
        !whitespace(argument[0]),
        !whitespace(argument.last()),
    ensures
        ({
            let now = submitted(s, e, f, skills, plain(typed(name, argument)));
            &&& (now.state, now.task) == command_read(s, e, f, name, argument)
            &&& now.editor == e
        }),
{
    reveal(submitted);
    let text = typed(name, argument);
    reveal_strlit("/");
    reveal_strlit(" ");
    reveal_strlit("/skill:");
    assert(text[0] == '/' && text.last() == argument.last());
    crate::text::white_space_is_blank();
    crate::text::trimmed_text_stays(text);
    crate::text::trimmed_text_stays(argument);
    assert(text.take(1) =~= "/"@);
    let rest = name + " "@ + argument;
    assert(text.skip(1) =~= rest);
    names_end_at_white_space(name, argument);
    if starts(text, "/skill:"@) {
        let prefix = text.take(7);
        assert(prefix[6] == "/skill:"@[6]);
        assert(text[6] == ':');
        if name.len() < 6 {
            assert(text[name.len() as int + 1] == ' ');
            assert(prefix[name.len() as int + 1] == "/skill:"@[name.len() as int + 1]);
            assert("/skill:"@[1] == 's' && "/skill:"@[2] == 'k' && "/skill:"@[3] == 'i'
                && "/skill:"@[4] == 'l' && "/skill:"@[5] == 'l' && "/skill:"@[6] == ':');
        } else {
            assert(text[6] == name[5]);
        }
        assert(false);
    }
}

/// Each command that takes no argument starts its own task, and leaves the
/// state to it.
pub proof fn plain_commands_start_their_tasks(
    s: StateModel,
    e: EditorModel,
    f: FactsModel,
    argument: Seq<char>,
)
    ensures
        command_read(s, e, f, "quit"@, argument) == (s, TaskModel::Quit),
        command_read(s, e, f, "q"@, argument) == (s, TaskModel::Quit),
        command_read(s, e, f, "new"@, argument) == (s, TaskModel::Reset),
        command_read(s, e, f, "clear"@, argument) == (s, TaskModel::Reset),
        command_read(s, e, f, "compact"@, argument) == (s, TaskModel::Compact),
        command_read(s, e, f, "tools"@, argument) == (s, TaskModel::Tools),
        command_read(s, e, f, "skills"@, argument) == (s, TaskModel::Skills),
        command_read(s, e, f, "diff"@, argument) == (s, TaskModel::Diff),
        command_read(s, e, f, "undo"@, argument) == (s, TaskModel::Undo),
        command_read(s, e, f, "copy"@, argument) == (s, TaskModel::Copy),
        command_read(s, e, f, "copy-all"@, argument) == (s, TaskModel::CopyAll),
{
    reveal(command_read);
    names_are_their_own();
    reveal(plain_task);
}

proof fn names_are_their_own()
    ensures
        "quit"@.len() == 4 && "quit"@[0] == 'q',
        "q"@.len() == 1,
        "new"@.len() == 3 && "new"@[0] == 'n',
        "clear"@.len() == 5 && "clear"@[0] == 'c',
        "compact"@.len() == 7 && "compact"@[0] == 'c',
        "tools"@.len() == 5 && "tools"@[0] == 't',
        "skills"@.len() == 6 && "skills"@[0] == 's',
        "diff"@.len() == 4 && "diff"@[0] == 'd',
        "undo"@.len() == 4 && "undo"@[0] == 'u',
        "copy"@.len() == 4 && "copy"@[0] == 'c',
        "copy-all"@.len() == 8 && "copy-all"@[0] == 'c',
        ""@.len() == 0,
        "subagents"@.len() == 9 && "subagents"@[0] == 's',
        "ps"@.len() == 2,
        "git"@.len() == 3 && "git"@[0] == 'g',
        "usage"@.len() == 5 && "usage"@[0] == 'u',
        "help"@.len() == 4 && "help"@[0] == 'h',
        "hotkeys"@.len() == 7 && "hotkeys"@[0] == 'h',
        "model"@.len() == 5 && "model"@[0] == 'm',
        "settings"@.len() == 8 && "settings"@[0] == 's',
        "connect"@.len() == 7 && "connect"@[0] == 'c' && "connect"@[2] == 'n',
        "compact"@[2] == 'm',
        "unqueue"@.len() == 7 && "unqueue"@[0] == 'u',
        "reasoning"@.len() == 9 && "reasoning"@[0] == 'r',
        "resume"@.len() == 6 && "resume"@[0] == 'r',
        "goal"@.len() == 4 && "goal"@[0] == 'g',
        "plan"@.len() == 4 && "plan"@[0] == 'p',
        "init"@.len() == 4 && "init"@[0] == 'i',
{
    reveal_strlit("quit");
    reveal_strlit("q");
    reveal_strlit("new");
    reveal_strlit("clear");
    reveal_strlit("compact");
    reveal_strlit("tools");
    reveal_strlit("skills");
    reveal_strlit("diff");
    reveal_strlit("undo");
    reveal_strlit("copy");
    reveal_strlit("copy-all");
    reveal_strlit("");
    reveal_strlit("subagents");
    reveal_strlit("ps");
    reveal_strlit("git");
    reveal_strlit("usage");
    reveal_strlit("help");
    reveal_strlit("hotkeys");
    reveal_strlit("model");
    reveal_strlit("settings");
    reveal_strlit("connect");
    reveal_strlit("unqueue");
    reveal_strlit("reasoning");
    reveal_strlit("resume");
    reveal_strlit("goal");
    reveal_strlit("plan");
    reveal_strlit("init");
}

/// Each dashboard opens by its own command, which takes no argument; with one
/// the command explains itself.
pub proof fn dashboards_open_by_command(
    s: StateModel,
    e: EditorModel,
    f: FactsModel,
    argument: Seq<char>,
)
    ensures
        ({
            let asked = |name: Seq<char>| command_read(s, e, f, name, argument);
            let opens = |name: Seq<char>, task: TaskModel|
                if argument.len() == 0 {
                    asked(name) == (s, task)
                } else {
                    asked(name) == (s.noted("Usage: /"@ + name), TaskModel::Nothing)
                };
            &&& opens("subagents"@, TaskModel::Subagents)
            &&& opens("ps"@, TaskModel::Processes)
            &&& opens("git"@, TaskModel::Git)
            &&& opens("usage"@, TaskModel::Usage)
        }),
{
    reveal(command_read);
    reveal(plain_task);
    reveal(bare_task);
    names_are_their_own();
}

/// What a command shows by itself: the help, the hotkeys, the list of the
/// models, the settings and the providers, and what waits in the queue.
pub proof fn commands_show_their_lists(
    s: StateModel,
    e: EditorModel,
    f: FactsModel,
    argument: Seq<char>,
)
    ensures
        command_read(s, e, f, "help"@, argument).0 == s.noted(HELP@),
        command_read(s, e, f, "hotkeys"@, argument).0 == s.noted(HOTKEYS@),
        command_read(s, e, f, "unqueue"@, argument).0 == unqueued(s, argument),
        argument.len() == 0 ==> command_read(s, e, f, "model"@, argument).0.picker == Some(
            model_menu(f.models, f.config, f.model, false),
        ),
        argument.len() == 0 ==> command_read(s, e, f, "settings"@, argument).0.picker == Some(
            root_menu(),
        ),
        argument.len() == 0 ==> command_read(s, e, f, "connect"@, argument).0.connection is Some,
        argument.len() > 0 ==> command_read(s, e, f, "connect"@, argument).0 == s.noted(
            "Usage: /connect"@,
        ),
        command_read(s, e, f, "help"@, argument).1 is Nothing,
        command_read(s, e, f, "hotkeys"@, argument).1 is Nothing,
        command_read(s, e, f, "unqueue"@, argument).1 is Nothing,
{
    reveal(command_read);
    reveal(plain_task);
    reveal(bare_task);
    reveal(shown_by);
    names_are_their_own();
}

/// What a command asks for with its argument: a model to switch to, a session
/// to resume, a goal, a plan, or the guidance of the project.
pub proof fn arguments_are_asked_for(
    s: StateModel,
    e: EditorModel,
    f: FactsModel,
    argument: Seq<char>,
)
    ensures
        argument.len() > 0 ==> command_read(s, e, f, "model"@, argument) == (
            s,
            TaskModel::Ask(RequestModel::SwitchModel(argument)),
        ),
        argument.len() > 0 ==> command_read(s, e, f, "resume"@, argument) == (
            s,
            TaskModel::Resume(argument),
        ),
        argument.len() == 0 ==> command_read(s, e, f, "resume"@, argument) == (
            s,
            TaskModel::Ask(RequestModel::ListSessions { selected: 0 }),
        ),
        command_read(s, e, f, "goal"@, argument) == (
            s,
            TaskModel::Goal {
                argument: sent_text(e, argument),
                displayed: shown_text(e, argument),
            },
        ),
        command_read(s, e, f, "plan"@, argument) == (
            s,
            TaskModel::Plan {
                argument: sent_text(e, argument),
                displayed: shown_text(e, argument),
            },
        ),
        argument.len() == 0 ==> (command_read(s, e, f, "init"@, argument).1 matches TaskModel::RunTurn {
            text,
            ..
        } && text == "/init"@),
        argument.len() > 0 ==> command_read(s, e, f, "init"@, argument) == (
            s.noted("Usage: /init"@),
            TaskModel::Nothing,
        ),
{
    reveal(command_read);
    reveal(plain_task);
    reveal(bare_task);
    reveal(shown_by);
    reveal(asked_by);
    names_are_their_own();
}

/// `/reasoning` sets a level that the model has, whatever its letters' case, or
/// goes back to the default; without an argument it lists the levels, and any
/// other word is answered with those that there are.
pub proof fn levels_are_set_by_name(s: StateModel, f: FactsModel, argument: Seq<char>)
    ensures
        ({
            let level = ascii_lower_all(argument);
            let (now, request) = reasoning_read(s, f, argument);
            &&& argument.len() > 0 && level != "default"@ && f.efforts.contains(level) ==> now == s
                && request == RequestModel::SetEffort(Some(level))
            &&& argument.len() > 0 && level == "default"@ ==> now == s && request
                == RequestModel::SetEffort(None)
            &&& argument.len() > 0 && level != "default"@ && !f.efforts.contains(level) ==> request
                is Nothing && now.notices.len() == s.notices.len() + 1
            &&& argument.len() == 0 ==> request is Nothing && (now.picker is Some || now.notices.len()
                == s.notices.len() + 1)
        }),
{
}

/// A skill runs under its name with what follows it; the message is shown as it
/// was typed. An unknown skill sends nothing, and the message comes back.
pub proof fn skills_run_by_name(
    s: StateModel,
    e: EditorModel,
    skills: Seq<Seq<char>>,
    name: Seq<char>,
    argument: Seq<char>,
    input: SubmissionModel,
)
    requires
        forall|i: int| 0 <= i < name.len() ==> !whitespace(#[trigger] name[i]),
        skills.len() <= usize::MAX,
    ensures
        ({
            let now = skill_read(s, e, skills, name + " "@ + argument, input);
            &&& now.task matches TaskModel::RunSkill { skill, arguments, displayed, input: sent }
                ==> skill < skills.len() && skills[skill as int] == name && arguments == sent_text(
                e,
                trimmed(argument),
            ) && displayed == shown_text(e, input.text) && sent == input && now.state == s
            &&& now.task is RunSkill || now.task is Nothing && now.editor == e.restored(input)
                && !skills.contains(name)
        }),
{
    reveal(skill_read);
    names_end_at_white_space(name, argument);
    crate::model::first_position_finds(skills, is_text(name));
}

/// A turn that begins runs, at the newest row, on the goal that is set.
pub proof fn turns_begin_running(s: StateModel, goal: Option<Seq<char>>, goal_mode: bool)
    ensures
        ({
            let now = turn_begun(s, goal, goal_mode);
            &&& now.turn_running && now.goal_running == goal_mode && now.active_goal == goal
            &&& now.scroll_offset == 0 && now.queued_inputs == s.queued_inputs
        }),
        begins_session("new"@) && begins_session("clear"@),
{
}

/// A turn that ended says whether it was stopped or failed, and shows the goal
/// that is left.
pub proof fn ended_turns_are_told(s: StateModel, end: TurnEnd, goal: Option<Seq<char>>)
    ensures
        turn_ended(s, end, goal).active_goal == goal,
        turn_ended(s, TurnEnd::Finished, goal).notices == s.notices,
        turn_ended(s, TurnEnd::Interrupted, goal).notices == s.notices.push("Turn interrupted."@),
        end matches TurnEnd::Failed(error) ==> turn_ended(s, end, goal).notices == s.notices.push(
            "Request failed: "@ + error@,
        ),
{
}

} // verus!
