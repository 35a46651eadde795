//! Completion of slash commands and of file mentions.

use vstd::prelude::*;
use std::ops::Range;
use crate::editor::{Editor, EditorModel};
use crate::events::Key;
use crate::files::{best_matches, entries_view, FileIndex};
use crate::model::{option_view, same_option, views, Modeled};
use crate::rows::smaller;
use crate::text::{
    cat2, chars_of, joined, split_chars_on, split_on, starts, starts_with, string_of, texts,
};

verus! {

broadcast use vstd::string::group_string_axioms;

/// The rows of the completion menu. The other matches are reached by moving
/// past its ends.
pub const COMPLETION_MENU_ROWS: usize = 6;

/// A command that can be completed.
#[derive(Debug, PartialEq, Eq)]
pub struct Completion {
    pub command: String,
    pub description: String,
}

pub struct CommandModel {
    pub command: Seq<char>,
    pub description: Seq<char>,
}

impl View for Completion {
    type V = CommandModel;

    open spec fn view(&self) -> CommandModel {
        CommandModel { command: self.command@, description: self.description@ }
    }
}

impl Modeled for Completion {
    fn copy(&self) -> (r: Self) {
        Completion { command: self.command.copy(), description: self.description.copy() }
    }

    fn same(&self, other: &Self) -> (r: bool) {
        self.command.same(&other.command) && self.description.same(&other.description)
    }
}

pub open spec fn entry(command: Seq<char>, description: Seq<char>) -> CommandModel {
    CommandModel { command, description }
}

/// The commands that are always there.
pub open spec fn builtin_commands() -> Seq<CommandModel> {
    seq![
        entry("/model"@, "List or switch models"@),
        entry("/connect"@, "Configure a model provider"@),
        entry("/settings"@, "Show or change settings"@),
        entry("/subagents"@, "Open the subagent dashboard"@),
        entry("/ps"@, "Open the background process dashboard"@),
        entry("/new"@, "Start a session without changing directories"@),
        entry("/clear"@, "Alias for /new"@),
        entry("/compact"@, "Summarize older messages"@),
        entry("/undo"@, "Undo the last turn"@),
        entry("/copy"@, "Copy the last assistant reply"@),
        entry("/copy-all"@, "Copy the conversation without reasoning"@),
        entry("/tools"@, "List available tools"@),
        entry("/skills"@, "List available skills"@),
        entry("/resume"@, "List or resume sessions"@),
        entry("/unqueue"@, "Cancel queued messages"@),
        entry("/help"@, "Show help"@),
        entry("/reasoning"@, "Show supported reasoning levels or set one"@),
        entry("/usage"@, "Show token and prompt-cache usage"@),
        entry("/diff"@, "Show files changed this session"@),
        entry("/init"@, "Create or update project agent guidance"@),
        entry("/git"@, "Open the git dashboard"@),
        entry("/goal"@, "Start, resume, cancel, or show goal"@),
        entry("/plan"@, "Start, resume, cancel, or show plan workflow"@),
        entry("/hotkeys"@, "Show keyboard shortcuts grid"@),
        entry("/quit"@, "Exit Yawl"@),
    ]
}

/// A skill that was found.
#[derive(Debug, PartialEq, Eq)]
pub struct SkillEntry {
    pub name: String,
    pub description: String,
}

/// The commands of the skills.
pub open spec fn skill_commands(skills: Seq<SkillEntry>) -> Seq<CommandModel> {
    skills.map_values(
        |skill: SkillEntry| entry("/skill:"@ + skill.name@, skill.description@),
    )
}

fn add(list: &mut Vec<Completion>, command: &str, description: &str)
    ensures
        views(final(list)@) == views(old(list)@).push(entry(command@, description@)),
{
    list.push(Completion { command: command.to_owned(), description: description.to_owned() });
    assert(views(list@) =~= views(old(list)@).push(entry(command@, description@)));
}

/// All commands that can be completed: the built-in ones and the skills.
pub fn command_completions(skills: &Vec<SkillEntry>) -> (r: Vec<Completion>)
    ensures
        views(r@) == builtin_commands() + skill_commands(skills@),
{
    let mut r: Vec<Completion> = Vec::new();
    self::add(&mut r, "/model", "List or switch models");
    self::add(&mut r, "/connect", "Configure a model provider");
    self::add(&mut r, "/settings", "Show or change settings");
    self::add(&mut r, "/subagents", "Open the subagent dashboard");
    self::add(&mut r, "/ps", "Open the background process dashboard");
    self::add(&mut r, "/new", "Start a session without changing directories");
    self::add(&mut r, "/clear", "Alias for /new");
    self::add(&mut r, "/compact", "Summarize older messages");
    self::add(&mut r, "/undo", "Undo the last turn");
    self::add(&mut r, "/copy", "Copy the last assistant reply");
    self::add(&mut r, "/copy-all", "Copy the conversation without reasoning");
    self::add(&mut r, "/tools", "List available tools");
    self::add(&mut r, "/skills", "List available skills");
    self::add(&mut r, "/resume", "List or resume sessions");
    self::add(&mut r, "/unqueue", "Cancel queued messages");
    self::add(&mut r, "/help", "Show help");
    self::add(&mut r, "/reasoning", "Show supported reasoning levels or set one");
    self::add(&mut r, "/usage", "Show token and prompt-cache usage");
    self::add(&mut r, "/diff", "Show files changed this session");
    self::add(&mut r, "/init", "Create or update project agent guidance");
    self::add(&mut r, "/git", "Open the git dashboard");
    self::add(&mut r, "/goal", "Start, resume, cancel, or show goal");
    self::add(&mut r, "/plan", "Start, resume, cancel, or show plan workflow");
    self::add(&mut r, "/hotkeys", "Show keyboard shortcuts grid");
    self::add(&mut r, "/quit", "Exit Yawl");
    assert(views(r@) =~= builtin_commands());
    let ghost all = skill_commands(skills@);
    let mut i: usize = 0;
    assert(views(r@) =~= builtin_commands() + all.take(0));
    while i < skills.len()
        invariant
            i <= skills@.len(),
            all == skill_commands(skills@),
            views(r@) == builtin_commands() + all.take(i as int),
        decreases skills@.len() - i,
    {
        let command = cat2("/skill:", skills[i].name.as_str());
        self::add(&mut r, command.as_str(), skills[i].description.as_str());
        assert(all[i as int] == entry(command@, skills@[i as int].description@));
        i += 1;
        assert(views(r@) =~= builtin_commands() + all.take(i as int));
    }
    assert(all.take(i as int) =~= all);
    r
}

// ---------------------------------------------------------------------------
// Matching

/// The commands that begin with what is typed.
pub open spec fn commands_matching(list: Seq<CommandModel>, prefix: Seq<char>) -> Seq<CommandModel>
    decreases list.len(),
{
    if list.len() == 0 {
        Seq::empty()
    } else {
        let before = commands_matching(list.drop_last(), prefix);
        if starts(list.last().command, prefix) {
            before.push(list.last())
        } else {
            before
        }
    }
}

/// The completions for a composer.
pub open spec fn matches_for(list: Seq<CommandModel>, editor: EditorModel) -> Seq<CommandModel> {
    match editor.command() {
        Some(prefix) => commands_matching(list, prefix),
        None => Seq::empty(),
    }
}

pub fn matching_completions(completions: &Vec<Completion>, editor: &Editor) -> (r: Vec<Completion>)
    ensures
        views(r@) == matches_for(views(completions@), editor@),
{
    let mut r: Vec<Completion> = Vec::new();
    assert(views(r@) =~= Seq::empty());
    match editor.command_prefix() {
        None => r,
        Some(prefix) => {
            let wanted = chars_of(prefix.as_str());
            let ghost all = views(completions@);
            let mut i: usize = 0;
            assert(all.take(0) =~= Seq::empty());
            while i < completions.len()
                invariant
                    i <= completions@.len(),
                    all == views(completions@),
                    wanted@ == prefix@,
                    views(r@) == commands_matching(all.take(i as int), prefix@),
                decreases completions@.len() - i,
            {
                assert(all.take(i + 1).drop_last() =~= all.take(i as int));
                assert(all.take(i + 1).last() == completions@[i as int]@);
                if starts_with(&chars_of(completions[i].command.as_str()), &wanted) {
                    let ghost before = views(r@);
                    let found = completions[i].copy();
                    let ghost model = found@;
                    r.push(found);
                    assert(views(r@) =~= before.push(model));
                }
                i += 1;
            }
            assert(all.take(i as int) =~= all);
            r
        },
    }
}

/// The rows of a menu that are shown: as many as fit, with the selected one
/// among them.
pub fn completion_window(match_count: usize, selected: usize, capacity: usize) -> (r: Range<usize>)
    ensures
        match_count == 0 || capacity == 0 ==> r.start == 0 && r.end == 0,
        match_count > 0 && capacity > 0 ==> {
            let shown = if capacity < match_count {
                capacity as int
            } else {
                match_count as int
            };
            let at = if selected < match_count {
                selected as int
            } else {
                match_count - 1
            };
            &&& r.end - r.start == shown
            &&& r.start <= at < r.end <= match_count
            &&& r.start == 0 || r.end == at + 1
        },
{
    if match_count == 0 || capacity == 0 {
        return 0..0;
    }
    let shown: usize = smaller(capacity, match_count);
    let at: usize = smaller(selected, match_count - 1);
    let start: usize = at.saturating_sub(shown - 1);
    start..start + shown
}

// ---------------------------------------------------------------------------
// The menu

/// The state of completion.
pub struct CompletionState {
    pub completions: Vec<Completion>,
    pub completion_index: usize,
    /// What the shown matches were found for.
    pub completion_filter: Option<String>,
    pub file_index: FileIndex,
}

pub struct CompletionModel {
    pub completions: Seq<CommandModel>,
    pub index: usize,
    pub filter: Option<Seq<char>>,
    pub entries: Option<Seq<Seq<char>>>,
}

impl View for CompletionState {
    type V = CompletionModel;

    open spec fn view(&self) -> CompletionModel {
        CompletionModel {
            completions: views(self.completions@),
            index: self.completion_index,
            filter: option_view(self.completion_filter),
            entries: entries_view(self.file_index.entries),
        }
    }
}

/// What drives the menu: a command, or a mention with its at sign.
pub open spec fn active_text(editor: EditorModel) -> Option<Seq<char>> {
    match editor.command() {
        Some(command) => Some(command),
        None => match editor.mention() {
            Some(query) => Some("@"@ + query),
            None => None,
        },
    }
}

fn active_filter(editor: &Editor) -> (r: Option<String>)
    ensures
        option_view(r) == active_text(editor@),
{
    match editor.command_prefix() {
        Some(command) => Some(command),
        None => match editor.mention_prefix() {
            Some(query) => Some(cat2("@", query.as_str())),
            None => None,
        },
    }
}

impl CompletionModel {
    /// The state for what is typed now: other text selects the first match.
    pub open spec fn synced(self, editor: EditorModel) -> CompletionModel {
        let filter = active_text(editor);
        if self.filter != filter {
            CompletionModel { index: 0, filter, ..self }
        } else {
            self
        }
    }

    /// The state after the selection moved over a number of matches; past the
    /// ends it wraps.
    pub open spec fn moved(self, count: nat, up: bool) -> CompletionModel {
        let at = if self.index < count {
            self.index as int
        } else {
            count - 1
        };
        CompletionModel {
            index: if up {
                if at == 0 {
                    (count - 1) as usize
                } else {
                    (at - 1) as usize
                }
            } else if at + 1 == count {
                0
            } else {
                (at + 1) as usize
            },
            ..self
        }
    }

    /// The selected match of a number of them.
    pub open spec fn chosen(self, count: nat) -> int {
        if self.index < count {
            self.index as int
        } else {
            count - 1
        }
    }

    /// The files that match the mention.
    pub open spec fn files(self, query: Seq<char>) -> Seq<Seq<char>> {
        match self.entries {
            Some(entries) => best_matches(entries, query),
            None => Seq::empty(),
        }
    }
}

/// Selects the first match where other text is typed.
pub fn sync_completion_filter(state: &mut CompletionState, editor: &Editor)
    ensures
        final(state)@ == old(state)@.synced(editor@),
        final(state).file_index == old(state).file_index,
        final(state).completions == old(state).completions,
{
    let filter = active_filter(editor);
    if !same_option(&state.completion_filter, &filter) {
        state.completion_index = 0;
        state.completion_filter = filter;
    }
}

/// Whether the project has to be listed before the menu for a composer can be
/// shown.
pub open spec fn waits_for_files(s: CompletionModel, editor: EditorModel) -> bool {
    editor.command() is None && editor.mention() is Some && s.entries is None
}

pub fn needs_files(state: &CompletionState, editor: &Editor) -> (r: bool)
    ensures
        r == waits_for_files(state@, editor@),
{
    editor.command_prefix().is_none() && editor.mention_prefix().is_some()
        && state.file_index.needs_scan()
}

/// A file in the menu: its name, and the directory that it lies in.
pub open spec fn mention_text(path: Seq<char>) -> (Seq<char>, Seq<char>) {
    let parts = split_on(path, '/');
    (parts.last(), joined(parts.drop_last(), "/"@))
}

fn mention_row(path: &str) -> (r: (String, String))
    ensures
        (r.0@, r.1@) == mention_text(path@),
{
    let chars = chars_of(path);
    let parts = split_chars_on(&chars, '/');
    proof {
        crate::text::split_joins_back(path@, '/');
    }
    let ghost all = texts(parts@);
    assert(all.len() > 0);
    let last: usize = parts.len() - 1;
    let mut directory: String = String::new();
    let mut i: usize = 0;
    assert(all.take(0) =~= Seq::empty());
    while i < last
        invariant
            i <= last < parts@.len(),
            all == texts(parts@),
            directory@ == joined(all.take(i as int), "/"@),
        decreases last - i,
    {
        assert(all.take(i + 1).drop_last() =~= all.take(i as int));
        assert(all.take(i + 1).last() == parts@[i as int]@);
        if i > 0 {
            directory.append("/");
        }
        directory.append(string_of(&parts[i]).as_str());
        if i == 0 {
            assert(directory@ =~= joined(all.take(1), "/"@));
        }
        i += 1;
    }
    assert(all.take(last as int) =~= all.drop_last());
    (string_of(&parts[last]), directory)
}

/// The rows of the menu.
pub open spec fn menu(s: CompletionModel, editor: EditorModel) -> Seq<(Seq<char>, Seq<char>)> {
    if editor.command() is Some {
        matches_for(s.completions, editor).map_values(
            |c: CommandModel| (c.command, c.description),
        )
    } else {
        match editor.mention() {
            Some(query) => s.files(query).map_values(|path: Seq<char>| mention_text(path)),
            None => Seq::empty(),
        }
    }
}

/// The texts of the rows of a menu.
pub open spec fn pairs(rows: Seq<(String, String)>) -> Seq<(Seq<char>, Seq<char>)> {
    rows.map_values(|row: (String, String)| (row.0@, row.1@))
}

impl CompletionState {
    /// The kept matches are right.
    pub open spec fn wf(self) -> bool {
        self.file_index.wf()
    }
}

fn command_rows(state: &CompletionState, editor: &Editor) -> (r: Vec<(String, String)>)
    ensures
        pairs(r@) == matches_for(state@.completions, editor@).map_values(
            |c: CommandModel| (c.command, c.description),
        ),
{
    let found = matching_completions(&state.completions, editor);
    let ghost all = views(found@).map_values(|c: CommandModel| (c.command, c.description));
    let mut r: Vec<(String, String)> = Vec::new();
    let mut i: usize = 0;
    assert(pairs(r@) =~= all.take(0));
    while i < found.len()
        invariant
            i <= found@.len(),
            all == views(found@).map_values(|c: CommandModel| (c.command, c.description)),
            pairs(r@) == all.take(i as int),
        decreases found@.len() - i,
    {
        let ghost before = pairs(r@);
        let command = found[i].command.clone();
        let description = found[i].description.clone();
        r.push((command, description));
        assert(pairs(r@) =~= before.push(all[i as int]));
        i += 1;
        assert(pairs(r@) =~= all.take(i as int));
    }
    assert(all.take(i as int) =~= all);
    r
}

fn file_rows(found: &Vec<String>) -> (r: Vec<(String, String)>)
    ensures
        pairs(r@) == views(found@).map_values(|path: Seq<char>| mention_text(path)),
{
    let ghost all = views(found@).map_values(|path: Seq<char>| mention_text(path));
    let mut r: Vec<(String, String)> = Vec::new();
    let mut i: usize = 0;
    assert(pairs(r@) =~= all.take(0));
    while i < found.len()
        invariant
            i <= found@.len(),
            all == views(found@).map_values(|path: Seq<char>| mention_text(path)),
            pairs(r@) == all.take(i as int),
        decreases found@.len() - i,
    {
        let ghost before = pairs(r@);
        let row = mention_row(found[i].as_str());
        assert(all[i as int] == mention_text(found@[i as int]@));
        r.push(row);
        assert(pairs(r@) =~= before.push(all[i as int]));
        i += 1;
        assert(pairs(r@) =~= all.take(i as int));
    }
    assert(all.take(i as int) =~= all);
    r
}

/// The rows of the menu for a composer; see `menu`.
pub fn menu_rows(state: &mut CompletionState, editor: &Editor) -> (r: Vec<(String, String)>)
    requires
        old(state).wf(),
        !waits_for_files(old(state)@, editor@),
    ensures
        pairs(r@) == menu(old(state)@, editor@),
        final(state)@ == old(state)@,
        final(state).wf(),
{
    if editor.command_prefix().is_some() {
        return command_rows(state, editor);
    }
    match editor.mention_prefix() {
        Some(query) => {
            let found = state.file_index.matches(query.as_str());
            file_rows(found)
        },
        None => {
            let r: Vec<(String, String)> = Vec::new();
            assert(pairs(r@) =~= Seq::empty());
            r
        },
    }
}

// ---------------------------------------------------------------------------
// Keys

/// Whether a command is among the matches.
pub open spec fn lists(found: Seq<CommandModel>, command: Seq<char>) -> bool {
    exists|i: int| 0 <= i < found.len() && (#[trigger] found[i]).command == command
}

/// What a key makes of the command menu; the last part says whether the menu
/// took the key. `Enter` completes and lets the composer submit: a command that
/// is typed in full goes before longer ones.
pub open spec fn command_keyed(s: CompletionModel, editor: EditorModel, key: Key) -> (
    CompletionModel,
    EditorModel,
    bool,
) {
    let found = matches_for(s.completions, editor);
    let count = found.len();
    if count == 0 {
        (CompletionModel { index: 0, ..s }, editor, false)
    } else {
        let best = found[s.chosen(count)].command;
        match key {
            Key::Up => (s.moved(count, true), editor, true),
            Key::Down => (s.moved(count, false), editor, true),
            Key::Tab => {
                let now = editor.with_command(best);
                (
                    (CompletionModel { index: s.chosen(count) as usize, ..s }).synced(now),
                    now,
                    true,
                )
            },
            Key::Enter => {
                let typed = editor.command()->0;
                (
                    CompletionModel { index: 0, ..s },
                    editor.with_command(
                        if lists(found, typed) {
                            typed
                        } else {
                            best
                        },
                    ),
                    false,
                )
            },
            _ => (CompletionModel { index: s.chosen(count) as usize, ..s }, editor, false),
        }
    }
}

/// What a key makes of the mention menu. `Enter` inserts the tag and goes on
/// editing.
pub open spec fn mention_keyed(
    s: CompletionModel,
    editor: EditorModel,
    query: Seq<char>,
    key: Key,
) -> (CompletionModel, EditorModel, bool) {
    let found = s.files(query);
    let count = found.len();
    if count == 0 {
        (CompletionModel { index: 0, ..s }, editor, false)
    } else {
        match key {
            Key::Up => (s.moved(count, true), editor, true),
            Key::Down => (s.moved(count, false), editor, true),
            Key::Tab | Key::Enter => {
                let now = editor.with_mention(found[s.chosen(count)]);
                ((CompletionModel { index: 0, ..s }).synced(now), now, true)
            },
            _ => (CompletionModel { index: s.chosen(count) as usize, ..s }, editor, false),
        }
    }
}

/// What a key makes of the completion menu.
pub open spec fn completion_keyed(s: CompletionModel, editor: EditorModel, key: Key) -> (
    CompletionModel,
    EditorModel,
    bool,
) {
    let now = s.synced(editor);
    if editor.command() is Some {
        command_keyed(now, editor, key)
    } else {
        match editor.mention() {
            Some(query) => mention_keyed(now, editor, query, key),
            None => (now, editor, false),
        }
    }
}

/// Moves the selection over a number of matches.
fn move_selection(state: &mut CompletionState, count: usize, up: bool)
    requires
        count > 0,
    ensures
        final(state)@ == old(state)@.moved(count as nat, up),
        final(state).file_index == old(state).file_index,
{
    let at: usize = smaller(state.completion_index, count - 1);
    state.completion_index = if up {
        if at == 0 {
            count - 1
        } else {
            at - 1
        }
    } else if at + 1 == count {
        0
    } else {
        at + 1
    };
}

fn is_listed(found: &Vec<Completion>, command: &String) -> (r: bool)
    ensures
        r == lists(views(found@), command@),
{
    let mut i: usize = 0;
    while i < found.len()
        invariant
            i <= found@.len(),
            forall|k: int|
                0 <= k < i ==> (#[trigger] views(found@)[k]).command != command@,
        decreases found@.len() - i,
    {
        assert(views(found@)[i as int] == found@[i as int]@);
        if found[i].command == *command {
            return true;
        }
        i += 1;
    }
    false
}

fn handle_command_key(state: &mut CompletionState, editor: &mut Editor, key: Key) -> (r: bool)
    requires
        old(state).wf(),
        old(editor).wf(),
        old(editor)@.command() is Some,
    ensures
        (final(state)@, final(editor)@, r) == command_keyed(old(state)@, old(editor)@, key),
        final(state).wf(),
        final(editor).wf(),
{
    let found = matching_completions(&state.completions, editor);
    let count: usize = found.len();
    assert(views(found@).len() == count);
    if count == 0 {
        state.completion_index = 0;
        return false;
    }
    if key == Key::Up {
        move_selection(state, count, true);
        return true;
    }
    if key == Key::Down {
        move_selection(state, count, false);
        return true;
    }
    let at: usize = smaller(state.completion_index, count - 1);
    state.completion_index = at;
    assert(views(found@)[at as int] == found@[at as int]@);
    if key == Key::Tab {
        editor.complete_command(found[at].command.as_str());
        sync_completion_filter(state, editor);
        return true;
    }
    if key == Key::Enter {
        let typed = match editor.command_prefix() {
            Some(command) => command,
            None => String::new(),
        };
        if is_listed(&found, &typed) {
            editor.complete_command(typed.as_str());
        } else {
            editor.complete_command(found[at].command.as_str());
        }
        state.completion_index = 0;
        return false;
    }
    false
}

fn handle_mention_key(
    state: &mut CompletionState,
    editor: &mut Editor,
    query: &String,
    key: Key,
) -> (r: bool)
    requires
        old(state).wf(),
        old(state).file_index.entries is Some,
        old(editor).wf(),
    ensures
        (final(state)@, final(editor)@, r) == mention_keyed(
            old(state)@,
            old(editor)@,
            query@,
            key,
        ),
        final(state).wf(),
        final(editor).wf(),
{
    let found = crate::model::copy_all(state.file_index.matches(query.as_str()));
    let count: usize = found.len();
    assert(views(found@).len() == count);
    if count == 0 {
        state.completion_index = 0;
        return false;
    }
    if key == Key::Up {
        move_selection(state, count, true);
        return true;
    }
    if key == Key::Down {
        move_selection(state, count, false);
        return true;
    }
    let at: usize = smaller(state.completion_index, count - 1);
    state.completion_index = at;
    if key == Key::Tab || key == Key::Enter {
        assert(views(found@)[at as int] == found@[at as int]@);
        editor.complete_mention(found[at].as_str());
        state.completion_index = 0;
        sync_completion_filter(state, editor);
        return true;
    }
    false
}

/// Gives a key to the completion menu, and says whether it took it; see
/// `completion_keyed`.
pub fn handle_completion_key(state: &mut CompletionState, editor: &mut Editor, key: Key) -> (r:
    bool)
    requires
        old(state).wf(),
        old(editor).wf(),
        !waits_for_files(old(state)@, old(editor)@),
    ensures
        (final(state)@, final(editor)@, r) == completion_keyed(old(state)@, old(editor)@, key),
        final(state).wf(),
        final(editor).wf(),
{
    sync_completion_filter(state, editor);
    if editor.command_prefix().is_some() {
        return handle_command_key(state, editor, key);
    }
    match editor.mention_prefix() {
        Some(query) => handle_mention_key(state, editor, &query, key),
        None => false,
    }
}

// ---------------------------------------------------------------------------
// Laws

/// Moving down and up again selects what was selected.
pub proof fn moves_undo_each_other(s: CompletionModel, count: nat)
    requires
        s.index < count <= usize::MAX,
    ensures
        s.moved(count, false).moved(count, true) == s,
        s.moved(count, true).moved(count, false) == s,
{
}

/// The selection stays among the matches.
pub proof fn selection_stays_inside(s: CompletionModel, count: nat, up: bool)
    requires
        0 < count <= usize::MAX,
    ensures
        s.moved(count, up).index < count,
{
}

/// Every command that is offered begins with what is typed, and every command
/// that does is offered.
pub proof fn matches_are_complete(list: Seq<CommandModel>, prefix: Seq<char>)
    ensures
        forall|i: int|
            0 <= i < commands_matching(list, prefix).len() ==> starts(
                (#[trigger] commands_matching(list, prefix)[i]).command,
                prefix,
            ),
        forall|k: int|
            0 <= k < list.len() && starts((#[trigger] list[k]).command, prefix)
                ==> commands_matching(list, prefix).contains(list[k]),
    decreases list.len(),
{
    if list.len() > 0 {
        let rest = list.drop_last();
        matches_are_complete(rest, prefix);
        let before = commands_matching(rest, prefix);
        let now = commands_matching(list, prefix);
        assert forall|k: int|
            0 <= k < list.len() && starts((#[trigger] list[k]).command, prefix) implies now.contains(
            list[k],
        ) by {
            if k < rest.len() {
                assert(rest[k] == list[k]);
                assert(before.contains(list[k]));
                let i = choose|i: int| 0 <= i < before.len() && before[i] == list[k];
                assert(now[i] == list[k]);
            } else {
                assert(now.last() == list[k]);
            }
        }
    }
}

/// Up and Down go by one, and around at the ends.
pub proof fn selection_goes_around(s: CompletionModel, count: nat)
    requires
        s.index < count <= usize::MAX,
    ensures
        s.moved(count, false).index == if s.index + 1 < count {
            s.index + 1
        } else {
            0
        },
        s.moved(count, true).index == if s.index > 0 {
            s.index - 1
        } else {
            count - 1
        },
{
}

/// While a command is typed, its first match is selected; the arrows move the
/// selection and leave the text, Tab and Enter complete the command that is
/// selected. Enter keeps what was typed where that is a command itself, and
/// hands the key on, so that the command is sent.
pub proof fn commands_are_completed(s: CompletionModel, editor: EditorModel, key: Key)
    requires
        editor.command() is Some,
        matches_for(s.completions, editor).len() > 0,
        matches_for(s.completions, editor).len() <= usize::MAX,
    ensures
        ({
            let found = matches_for(s.completions, editor);
            let typed = editor.command()->0;
            let at = if s.filter == Some(typed) {
                if s.index < found.len() {
                    s.index as int
                } else {
                    found.len() - 1
                }
            } else {
                0
            };
            let (now, text, took) = completion_keyed(s, editor, key);
            &&& key == Key::Up || key == Key::Down ==> took && text == editor
            &&& key == Key::Down ==> now.index == (if at + 1 < found.len() {
                at + 1
            } else {
                0
            })
            &&& key == Key::Up ==> now.index == (if at > 0 {
                at - 1
            } else {
                found.len() - 1
            })
            &&& key == Key::Tab ==> took && text == editor.with_command(found[at].command)
            &&& key == Key::Enter ==> !took && text == editor.with_command(
                if exists|i: int| 0 <= i < found.len() && (#[trigger] found[i]).command == typed {
                    typed
                } else {
                    found[at].command
                },
            )
            &&& key != Key::Tab && key != Key::Enter ==> text == editor
            &&& key is Char ==> !took && now.index == at
        }),
{
}

/// Where no command and no file is being typed, every key goes to the composer.
pub proof fn other_keys_pass(s: CompletionModel, editor: EditorModel, key: Key)
    requires
        editor.command() is None,
        editor.mention() is None,
    ensures
        completion_keyed(s, editor, key).1 == editor,
        !completion_keyed(s, editor, key).2,
        menu(s, editor).len() == 0,
{
}

/// While a file is mentioned, Tab and Enter put the selected one in; the arrows
/// move the selection.
pub proof fn mentions_are_completed(s: CompletionModel, editor: EditorModel, key: Key)
    requires
        editor.command() is None,
        editor.mention() matches Some(query) && s.files(query).len() > 0,
        s.filter == Some("@"@ + editor.mention()->0),
        s.index < s.files(editor.mention()->0).len(),
        s.files(editor.mention()->0).len() <= usize::MAX,
    ensures
        ({
            let found = s.files(editor.mention()->0);
            let (now, text, took) = completion_keyed(s, editor, key);
            &&& key == Key::Tab || key == Key::Enter ==> took && text == editor.with_mention(
                found[s.index as int],
            )
            &&& key == Key::Down ==> took && text == editor && now.index == (if s.index + 1
                < found.len() {
                s.index + 1
            } else {
                0
            })
            &&& key == Key::Up ==> took && text == editor && now.index == (if s.index > 0 {
                s.index - 1
            } else {
                found.len() - 1
            })
            &&& key is Char ==> !took && text == editor
        }),
{
}

/// The menu shows the commands that match, each with its description, in the
/// order of the list.
pub proof fn menus_show_the_matches(s: CompletionModel, editor: EditorModel, i: int)
    requires
        editor.command() is Some,
        0 <= i < matches_for(s.completions, editor).len(),
    ensures
        menu(s, editor).len() == matches_for(s.completions, editor).len(),
        menu(s, editor)[i].0 == matches_for(s.completions, editor)[i].command,
        menu(s, editor)[i].1 == matches_for(s.completions, editor)[i].description,
        starts(menu(s, editor)[i].0, editor.text),
{
    matches_are_complete(s.completions, editor.command()->0);
}

/// A command that is added to the end of the list is shown behind the others,
/// where it begins with what was typed.
pub proof fn matches_keep_the_order(
    list: Seq<CommandModel>,
    command: Seq<char>,
    description: Seq<char>,
    prefix: Seq<char>,
    rest: Seq<char>,
)
    requires
        command == prefix + rest,
    ensures
        commands_matching(list.push(CommandModel { command, description }), prefix)
            == commands_matching(list, prefix).push(CommandModel { command, description }),
        commands_matching(Seq::empty(), prefix).len() == 0,
{
    let more = list.push(CommandModel { command, description });
    assert(more.drop_last() =~= list);
    assert(command.take(prefix.len() as int) =~= prefix);
}

/// A skill is offered under its name, with its description.
pub proof fn skills_are_offered_by_name(skills: Seq<SkillEntry>, i: int)
    requires
        0 <= i < skills.len(),
    ensures
        skill_commands(skills).len() == skills.len(),
        skill_commands(skills)[i].command == "/skill:"@ + skills[i].name@,
        skill_commands(skills)[i].description == skills[i].description@,
{
}

/// A file is shown by its name, and by the directory that it lies in.
pub proof fn files_are_shown_with_their_directory(dir: Seq<char>, name: Seq<char>)
    requires
        !name.contains('/'),
    ensures
        mention_text(dir.push('/') + name) == (name, dir),
        mention_text(name) == (name, Seq::<char>::empty()),
{
    crate::text::split_at_separator(dir, name, '/');
    crate::text::split_without_separator(name, '/');
    crate::text::split_joins_back(dir, '/');
    reveal_strlit("/");
    assert("/"@ =~= seq!['/']);
    let parts = split_on(dir.push('/') + name, '/');
    assert(parts.drop_last() =~= split_on(dir, '/'));
    assert(seq![name].drop_last() =~= Seq::<Seq<char>>::empty());
}

/// The selection goes back to the first entry when what is typed changes, and
/// stays while it does not.
pub proof fn typing_selects_the_first(s: CompletionModel, editor: EditorModel)
    ensures
        ({
            let typed = match editor.command() {
                Some(command) => Some(command),
                None => match editor.mention() {
                    Some(query) => Some("@"@ + query),
                    None => None,
                },
            };
            &&& s.filter == typed ==> s.synced(editor) == s
            &&& s.filter != typed ==> s.synced(editor).index == 0 && s.synced(editor).filter
                == typed && s.synced(editor).entries == s.entries
        }),
        waits_for_files(s, editor) <==> editor.command() is None && editor.mention() is Some
            && s.entries is None,
{
}

} // verus!
