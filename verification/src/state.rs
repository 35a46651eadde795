//! What the interface shows, and what its menus make of it.

use vstd::prelude::*;
use crate::config::{BarModel, StatusBarConfig};
use crate::connection::{
    act, acted, begin, fresh_flow, models_of, polled, provider_menu, take_news, way_out,
    ActedModel, ConnectEvent, ConnectFlow, ConnectNews, ConnectWork, FlowModel, WorkModel,
};
use crate::editor::{Editor, EditorModel, Submission, SubmissionModel};
use crate::events::Key;
use crate::model::{option_view, views};
use crate::picker::{picker_step, step_picker, Picker, PickerModel};
use crate::picker::action::{ActionModel, DefinitionModel, PickerAction, ProviderDefinition};
use crate::rows::{at_most, smaller};
use crate::style::UiColor;

verus! {

broadcast use vstd::string::group_string_axioms;

/// The colors in force while others are tried.
#[derive(Debug, Clone, Copy, PartialEq, Eq, Structural)]
pub struct ColorPreview {
    pub accent: UiColor,
    pub selection: UiColor,
    /// Whether the selection follows the accent.
    pub follows: bool,
}

/// What the interface shows, as far as it is decided here.
#[derive(Debug)]
pub struct ViewState {
    /// The name of the model in use.
    pub model: String,
    pub reasoning_effort: Option<String>,
    pub hide_reasoning: bool,
    pub accent_color: UiColor,
    pub selection_color: UiColor,
    /// The colors in force while others are tried.
    pub color_preview: Option<ColorPreview>,
    pub status_bar: StatusBarConfig,
    /// The layout that is being edited.
    pub status_bar_draft: Option<StatusBarConfig>,
    pub scroll_bar_enabled: bool,
    pub scroll_bar_auto_hide: bool,
    pub bell: bool,
    pub turn_running: bool,
    pub context_tokens: u64,
    pub context_window: u64,
    /// What is going on, in a few words.
    pub activity: String,
    /// Rows above the end of the conversation.
    pub scroll_offset: usize,
    /// Messages that wait for their turn.
    pub queued_inputs: Vec<Submission>,
    /// A turn was canceled: the messages wait until one is sent by hand.
    pub queue_paused: bool,
    /// Messages that were sent into the running turn and that it has not taken
    /// yet.
    pub pending_steers: Vec<Submission>,
    /// The running turn is stopped so that the first message that waits is
    /// sent.
    pub send_next: bool,
    /// Choices that wait for the end of a turn.
    pub pending_actions: Vec<PickerAction>,
    pub active_goal: Option<String>,
    pub goal_running: bool,
    pub active_plan: Option<String>,
    pub plan_draft: bool,
    pub pending_plan_implementation: bool,
    pub picker: Option<Picker>,
    pub connection: Option<ConnectFlow>,
    pub subagents_enabled: bool,
    /// What was said in the conversation by the interface.
    pub notices: Vec<String>,
}

pub struct StateModel {
    pub model: Seq<char>,
    pub reasoning_effort: Option<Seq<char>>,
    pub hide_reasoning: bool,
    pub accent_color: UiColor,
    pub selection_color: UiColor,
    pub color_preview: Option<ColorPreview>,
    pub status_bar: BarModel,
    pub status_bar_draft: Option<BarModel>,
    pub scroll_bar_enabled: bool,
    pub scroll_bar_auto_hide: bool,
    pub bell: bool,
    pub turn_running: bool,
    pub context_tokens: u64,
    pub context_window: u64,
    pub activity: Seq<char>,
    pub scroll_offset: usize,
    pub queued_inputs: Seq<SubmissionModel>,
    pub queue_paused: bool,
    pub pending_steers: Seq<SubmissionModel>,
    pub send_next: bool,
    pub pending_actions: Seq<ActionModel>,
    pub active_goal: Option<Seq<char>>,
    pub goal_running: bool,
    pub active_plan: Option<Seq<char>>,
    pub plan_draft: bool,
    pub pending_plan_implementation: bool,
    pub picker: Option<PickerModel>,
    pub connection: Option<FlowModel>,
    pub subagents_enabled: bool,
    pub notices: Seq<Seq<char>>,
}

#[verifier::opaque]
pub open spec fn state_model(state: ViewState) -> StateModel {
    StateModel {
        model: state.model@,
        reasoning_effort: option_view(state.reasoning_effort),
        hide_reasoning: state.hide_reasoning,
        accent_color: state.accent_color,
        selection_color: state.selection_color,
        color_preview: state.color_preview,
        status_bar: state.status_bar@,
        status_bar_draft: option_view(state.status_bar_draft),
        scroll_bar_enabled: state.scroll_bar_enabled,
        scroll_bar_auto_hide: state.scroll_bar_auto_hide,
        bell: state.bell,
        turn_running: state.turn_running,
        context_tokens: state.context_tokens,
        context_window: state.context_window,
        activity: state.activity@,
        scroll_offset: state.scroll_offset,
        queued_inputs: views(state.queued_inputs@),
        queue_paused: state.queue_paused,
        pending_steers: views(state.pending_steers@),
        send_next: state.send_next,
        pending_actions: views(state.pending_actions@),
        active_goal: option_view(state.active_goal),
        goal_running: state.goal_running,
        active_plan: option_view(state.active_plan),
        plan_draft: state.plan_draft,
        pending_plan_implementation: state.pending_plan_implementation,
        picker: option_view(state.picker),
        connection: option_view(state.connection),
        subagents_enabled: state.subagents_enabled,
        notices: views(state.notices@),
    }
}

impl View for ViewState {
    type V = StateModel;

    open spec fn view(&self) -> StateModel {
        state_model(*self)
    }
}

impl StateModel {
    pub open spec fn noted(self, text: Seq<char>) -> StateModel {
        StateModel { notices: self.notices.push(text), ..self }
    }

    pub open spec fn doing(self, activity: Seq<char>) -> StateModel {
        StateModel { activity, ..self }
    }

    pub open spec fn with_picker(self, picker: Option<PickerModel>) -> StateModel {
        StateModel { picker, ..self }
    }

    /// The layout that is shown: the one being edited, where there is one.
    pub open spec fn layout(self) -> BarModel {
        match self.status_bar_draft {
            Some(draft) => draft,
            None => self.status_bar,
        }
    }

    pub open spec fn is_editing(self) -> bool {
        match self.picker {
            Some(picker) => picker.editing is Some,
            None => false,
        }
    }

    pub open spec fn is_secret(self) -> bool {
        match self.picker {
            Some(picker) => picker.is_secret(),
            None => false,
        }
    }
}

/// A list without its first element, and that element.
pub(crate) fn take_first<T>(list: &mut Vec<T>) -> (r: Option<T>)
    ensures
        match r {
            Some(first) => old(list)@.len() > 0 && first == old(list)@[0] && final(list)@
                == old(list)@.skip(1),
            None => old(list)@.len() == 0 && final(list)@ == old(list)@,
        },
{
    if list.len() == 0 {
        return None;
    }
    let first = list.remove(0);
    assert(list@ =~= old(list)@.skip(1));
    Some(first)
}

impl ViewState {
    /// Says something in the conversation.
    pub fn notice(&mut self, text: &str)
        ensures
            final(self)@ == old(self)@.noted(text@),
    {
        proof {
            reveal(state_model);
        }
        self.notices.push(text.to_owned());
        assert(views(self.notices@) =~= views(old(self).notices@).push(text@));
    }

    pub(crate) fn set_picker(&mut self, picker: Option<Picker>)
        ensures
            final(self)@ == old(self)@.with_picker(option_view(picker)),
    {
        proof {
            reveal(state_model);
        }
        self.picker = picker;
    }

    pub(crate) fn set_activity(&mut self, text: &str)
        ensures
            final(self)@ == old(self)@.doing(text@),
    {
        proof {
            reveal(state_model);
        }
        self.activity = text.to_owned();
    }

    fn set_connection(&mut self, flow: Option<ConnectFlow>)
        ensures
            final(self)@ == (StateModel { connection: option_view(flow), ..old(self)@ }),
    {
        proof {
            reveal(state_model);
        }
        self.connection = flow;
    }

    fn take_connection(&mut self) -> (r: Option<ConnectFlow>)
        ensures
            option_view(r) == old(self)@.connection,
            final(self)@ == (StateModel { connection: None, ..old(self)@ }),
    {
        proof {
            reveal(state_model);
        }
        self.connection.take()
    }

    fn set_colors(&mut self, accent_color: UiColor, selection_color: UiColor)
        ensures
            final(self)@ == (StateModel { accent_color, selection_color, ..old(self)@ }),
    {
        proof {
            reveal(state_model);
        }
        self.accent_color = accent_color;
        self.selection_color = selection_color;
    }

    fn end_color_preview(&mut self)
        ensures
            final(self)@ == (StateModel { color_preview: None, ..old(self)@ }),
    {
        proof {
            reveal(state_model);
        }
        self.color_preview = None;
    }

    /// Whether the open menu offers colors, and what it has highlighted.
    fn highlighted(&self) -> (r: (bool, Option<PickerAction>))
        ensures
            r.0 == (self@.picker matches Some(picker) && offers_colors(picker)),
            option_view(r.1) == (match self@.picker {
                Some(picker) => picker.chosen(),
                None => None,
            }),
    {
        proof {
            reveal(state_model);
        }
        match &self.picker {
            Some(picker) => (has_colors(picker), picker.chosen()),
            None => (false, None),
        }
    }

    fn preview(&self) -> (r: Option<ColorPreview>)
        ensures
            r == self@.color_preview,
    {
        proof {
            reveal(state_model);
        }
        self.color_preview
    }

    /// The layout of the status bar that is shown.
    pub fn layout(&self) -> (r: &StatusBarConfig)
        ensures
            r@ == self@.layout(),
    {
        proof {
            reveal(state_model);
        }
        match &self.status_bar_draft {
            Some(draft) => draft,
            None => &self.status_bar,
        }
    }

    /// Begins to try colors. `selection` is the color of the selection in the
    /// settings, where it has one of its own.
    pub fn begin_color_preview(&mut self, selection: Option<UiColor>)
        ensures
            final(self)@ == (StateModel {
                color_preview: Some(
                    ColorPreview {
                        accent: old(self)@.accent_color,
                        selection: old(self)@.selection_color,
                        follows: selection is None,
                    },
                ),
                ..old(self)@
            }),
    {
        proof {
            reveal(state_model);
        }
        self.color_preview = Some(
            ColorPreview {
                accent: self.accent_color,
                selection: self.selection_color,
                follows: selection.is_none(),
            },
        );
    }

    /// The accent of what was said before: a color that is tried does not
    /// repaint the conversation.
    pub fn transcript_accent_color(&self) -> (r: UiColor)
        ensures
            r == (match self@.color_preview {
                Some(preview) => preview.accent,
                None => self@.accent_color,
            }),
    {
        proof {
            reveal(state_model);
        }
        match self.color_preview {
            Some(preview) => preview.accent,
            None => self.accent_color,
        }
    }
}

// ---------------------------------------------------------------------------
// Colors that are tried

pub open spec fn is_color_action(action: ActionModel) -> bool {
    match action {
        ActionModel::SetAccentColor(_) => true,
        ActionModel::SetSelectionColor(_) => true,
        _ => false,
    }
}

/// Whether a menu offers colors.
pub open spec fn offers_colors(picker: PickerModel) -> bool {
    exists|i: int|
        0 <= i < picker.items.len() && is_color_action((#[trigger] picker.items[i]).action)
}

fn has_colors(picker: &Picker) -> (r: bool)
    ensures
        r == offers_colors(picker@),
{
    let mut i: usize = 0;
    while i < picker.items.len()
        invariant
            i <= picker.items@.len(),
            forall|k: int|
                0 <= k < i ==> !is_color_action((#[trigger] picker@.items[k]).action),
        decreases picker.items@.len() - i,
    {
        assert(picker@.items[i as int] == picker.items@[i as int]@);
        let found = match &picker.items[i].action {
            PickerAction::SetAccentColor(_) => true,
            PickerAction::SetSelectionColor(_) => true,
            _ => false,
        };
        if found {
            return true;
        }
        i += 1;
    }
    false
}

/// The accent and the selection while a choice is highlighted.
pub open spec fn tried_colors(preview: ColorPreview, action: Option<ActionModel>) -> (
    UiColor,
    UiColor,
) {
    match action {
        Some(ActionModel::SetAccentColor(color)) => (
            color,
            if preview.follows {
                color
            } else {
                preview.selection
            },
        ),
        Some(ActionModel::SetSelectionColor(Some(color))) => (preview.accent, color),
        Some(ActionModel::SetSelectionColor(None)) => (preview.accent, preview.accent),
        _ => (preview.accent, preview.selection),
    }
}

/// The colors brought in line with the choice that is highlighted. Where no
/// colors are offered any more, trying them is over.
pub open spec fn previewed(s: StateModel) -> StateModel {
    match s.color_preview {
        None => s,
        Some(preview) => match s.picker {
            Some(picker) => if offers_colors(picker) {
                let (accent_color, selection_color) = tried_colors(preview, picker.chosen());
                StateModel { accent_color, selection_color, ..s }
            } else {
                StateModel { color_preview: None, ..s }
            },
            None => StateModel { color_preview: None, ..s },
        },
    }
}

/// Brings the colors in line with the choice that is highlighted; see
/// `previewed`.
pub fn sync_color_preview(state: &mut ViewState)
    ensures
        final(state)@ == previewed(old(state)@),
{
    let preview = match state.preview() {
        None => return,
        Some(preview) => preview,
    };
    let (offered, action) = state.highlighted();
    if !offered {
        state.end_color_preview();
        return;
    }
    match action {
        Some(PickerAction::SetAccentColor(color)) => {
            let selection = if preview.follows {
                color
            } else {
                preview.selection
            };
            state.set_colors(color, selection);
        },
        Some(PickerAction::SetSelectionColor(Some(color))) => {
            state.set_colors(preview.accent, color);
        },
        Some(PickerAction::SetSelectionColor(None)) => {
            state.set_colors(preview.accent, preview.accent);
        },
        _ => state.set_colors(preview.accent, preview.selection),
    }
}

/// The colors in force again, where others were tried.
pub open spec fn colors_restored(s: StateModel) -> StateModel {
    match s.color_preview {
        Some(preview) => StateModel {
            accent_color: preview.accent,
            selection_color: preview.selection,
            color_preview: None,
            ..s
        },
        None => s,
    }
}

fn restore_colors(state: &mut ViewState)
    ensures
        final(state)@ == colors_restored(old(state)@),
{
    proof {
        reveal(state_model);
    }
    match state.color_preview {
        Some(preview) => {
            state.accent_color = preview.accent;
            state.selection_color = preview.selection;
            state.color_preview = None;
        },
        None => {},
    }
}

// ---------------------------------------------------------------------------
// Keys in a menu

pub fn picker_is_editing(state: &ViewState) -> (r: bool)
    ensures
        r == state@.is_editing(),
{
    proof {
        reveal(state_model);
    }
    match &state.picker {
        Some(picker) => picker.editing.is_some(),
        None => false,
    }
}

pub fn picker_is_secret(state: &ViewState) -> (r: bool)
    ensures
        r == state@.is_secret(),
{
    proof {
        reveal(state_model);
    }
    match &state.picker {
        Some(picker) => picker.is_secret(),
        None => false,
    }
}

/// The state and the composer after a key in the menu, and what was asked for.
/// A menu that closes ends the trying of colors.
pub open spec fn picker_keyed(s: StateModel, e: EditorModel, key: Key) -> (
    StateModel,
    EditorModel,
    Option<ActionModel>,
) {
    match s.picker {
        None => (s, e, None),
        Some(picker) => {
            let step = picker_step(picker, e, s.queued_inputs, key);
            let now = s.with_picker(step.picker);
            (
                if step.picker is None {
                    colors_restored(now)
                } else {
                    now
                },
                step.editor,
                step.action,
            )
        },
    }
}

fn take_menu(state: &mut ViewState) -> (r: Option<Picker>)
    ensures
        option_view(r) == old(state)@.picker,
        final(state)@ == old(state)@.with_picker(None),
{
    proof {
        reveal(state_model);
    }
    state.picker.take()
}

fn waiting(state: &ViewState) -> (r: &Vec<Submission>)
    ensures
        views(r@) == state@.queued_inputs,
{
    proof {
        reveal(state_model);
    }
    &state.queued_inputs
}

/// Gives a key to the menu; see `picker_keyed`.
pub fn take_picker_action(state: &mut ViewState, editor: &mut Editor, key: Key) -> (r: Option<
    PickerAction,
>)
    requires
        old(editor).wf(),
    ensures
        final(editor).wf(),
        (final(state)@, final(editor)@, option_view(r)) == picker_keyed(
            old(state)@,
            old(editor)@,
            key,
        ),
{
    let picker = match take_menu(state) {
        None => return None,
        Some(picker) => picker,
    };
    let (next, action) = step_picker(picker, editor, waiting(state), key);
    let closed = next.is_none();
    state.set_picker(next);
    if closed {
        restore_colors(state);
    }
    action
}

pub open spec fn item_selected(s: StateModel, selected: usize) -> StateModel {
    match s.picker {
        Some(picker) => s.with_picker(
            Some(picker.with_selected(at_most(selected as nat, picker.last()))),
        ),
        None => s,
    }
}

/// Selects a choice, or the last one where there are fewer.
pub fn select_picker_item(state: &mut ViewState, selected: usize)
    ensures
        final(state)@ == item_selected(old(state)@, selected),
{
    proof {
        reveal(state_model);
    }
    match &mut state.picker {
        Some(picker) => {
            let n: usize = picker.items.len();
            picker.selected = smaller(selected, n.saturating_sub(1));
        },
        None => {},
    }
}

// ---------------------------------------------------------------------------
// The setup of a provider

pub open spec fn connect_opened(s: StateModel, catalog: Seq<DefinitionModel>, from_settings: bool) -> StateModel {
    StateModel {
        connection: Some(fresh_flow(catalog, from_settings)),
        picker: Some(provider_menu(catalog, way_out(from_settings))),
        ..s
    }
}

/// Begins the setup of a provider.
pub fn open_connection(
    state: &mut ViewState,
    catalog: Vec<ProviderDefinition>,
    from_settings: bool,
)
    ensures
        final(state)@ == connect_opened(old(state)@, views(catalog@), from_settings),
{
    let (flow, picker) = begin(catalog, from_settings);
    state.set_connection(Some(flow));
    state.set_picker(Some(picker));
}

/// The state after a step of a setup.
pub open spec fn connect_shown(
    s: StateModel,
    flow: Option<FlowModel>,
    closes: bool,
    picker: Option<PickerModel>,
    notice: Option<Seq<char>>,
) -> StateModel {
    let now = StateModel {
        connection: flow,
        picker: if closes {
            None
        } else if picker is Some {
            picker
        } else {
            s.picker
        },
        ..s
    };
    match notice {
        Some(text) => now.noted(text),
        None => now,
    }
}

pub open spec fn connect_acted(s: StateModel, done: ActedModel) -> StateModel {
    connect_shown(s, done.flow, done.closes, done.picker, done.notice)
}

/// The state after an action, what is to be done in the background, and the
/// action where it is not one of a setup.
pub open spec fn connection_handled(
    s: StateModel,
    action: ActionModel,
    codex: Option<Seq<Seq<char>>>,
) -> (StateModel, WorkModel, Option<ActionModel>) {
    match s.connection {
        None => (s, WorkModel::Nothing, Some(action)),
        Some(flow) => {
            let done = acted(flow, action, codex);
            (connect_acted(s, done), done.work, done.action)
        },
    }
}

fn apply_step(
    state: &mut ViewState,
    flow: Option<ConnectFlow>,
    closes: bool,
    picker: Option<Picker>,
    notice: Option<String>,
)
    ensures
        final(state)@ == connect_shown(
            old(state)@,
            option_view(flow),
            closes,
            option_view(picker),
            option_view(notice),
        ),
{
    state.set_connection(flow);
    if closes {
        state.set_picker(None);
    } else {
        match picker {
            Some(picker) => state.set_picker(Some(picker)),
            None => {},
        }
    }
    match notice {
        Some(text) => state.notice(text.as_str()),
        None => {},
    }
}

/// Performs an action of the setup that is under way; see
/// `connection_handled`. `codex` holds the models of the Codex account where
/// one is logged in.
pub fn handle_connection(
    state: &mut ViewState,
    action: PickerAction,
    codex: &Option<Vec<String>>,
) -> (r: (ConnectWork, Option<PickerAction>))
    ensures
        (final(state)@, r.0@, option_view(r.1)) == connection_handled(
            old(state)@,
            action@,
            models_of(*codex),
        ),
{
    let flow = match state.take_connection() {
        None => return (ConnectWork::Nothing, Some(action)),
        Some(flow) => flow,
    };
    let done = act(flow, action, codex);
    apply_step(state, done.flow, done.closes, done.picker, done.notice);
    (done.work, done.action)
}

/// The state after news of the work in the background, and whether they
/// changed it.
pub open spec fn connection_polled(s: StateModel, news: ConnectNews) -> (StateModel, bool) {
    match s.connection {
        None => (s, false),
        Some(flow) => match polled(flow, news) {
            Some(moved) => (
                connect_shown(s, Some(moved.flow), false, moved.picker, moved.notice),
                true,
            ),
            None => (s, false),
        },
    }
}

/// Takes news of the work in the background; see `connection_polled`.
pub fn poll_connection(state: &mut ViewState, event: ConnectEvent) -> (changed: bool)
    ensures
        (final(state)@, changed) == connection_polled(old(state)@, event@),
{
    let flow = match state.take_connection() {
        None => return false,
        Some(flow) => flow,
    };
    match take_news(flow, event) {
        Ok(moved) => {
            apply_step(state, Some(moved.flow), false, moved.picker, moved.notice);
            true
        },
        Err(flow) => {
            state.set_connection(Some(flow));
            false
        },
    }
}

// ---------------------------------------------------------------------------
// Laws

/// However many colors were tried, leaving the menu restores the colors that
/// were in force when the trying began.
pub proof fn leaving_restores_the_colors(s: StateModel, e: EditorModel)
    requires
        s.color_preview is Some,
        s.picker matches Some(picker) && picker.editing is None,
    ensures
        ({
            let left = picker_keyed(s, e, Key::Escape).0;
            &&& left.accent_color == s.color_preview->0.accent
            &&& left.selection_color == s.color_preview->0.selection
            &&& left.color_preview is None && left.picker is None
        }),
{
}

/// Trying a color does not change the colors in force.
pub proof fn trying_keeps_the_colors_in_force(s: StateModel)
    ensures
        previewed(s).color_preview == s.color_preview || previewed(s).color_preview is None,
        previewed(s).color_preview is None ==> previewed(s).accent_color == s.accent_color
            && previewed(s).selection_color == s.selection_color,
        previewed(previewed(s)) == previewed(s),
{
}

/// A selection that follows the accent follows a color that is tried for the
/// accent; another one does not.
pub proof fn selection_follows_the_accent(preview: ColorPreview, color: UiColor)
    ensures
        preview.follows ==> tried_colors(preview, Some(ActionModel::SetAccentColor(color))) == (
            color,
            color,
        ),
        !preview.follows ==> tried_colors(preview, Some(ActionModel::SetAccentColor(color))) == (
            color,
            preview.selection,
        ),
        tried_colors(preview, Some(ActionModel::SetSelectionColor(Some(color)))).0
            == preview.accent,
{
}

/// News come to nothing without a setup that waits for them.
pub proof fn late_news_change_nothing(s: StateModel, news: ConnectNews)
    requires
        s.connection matches Some(flow) ==> flow.job is None,
    ensures
        connection_polled(s, news) == (s, false),
{
    reveal(polled);
}

/// A line of a menu is selected as it was asked for, or the last one where there
/// are not so many; without a menu nothing changes.
pub proof fn selections_stay_on_the_menu(s: StateModel, selected: usize)
    ensures
        s.picker is None ==> item_selected(s, selected) == s,
        s.picker matches Some(picker) ==> {
            let now = item_selected(s, selected).picker->0;
            &&& selected < picker.items.len() ==> now == (PickerModel { selected, ..picker })
            &&& 0 < picker.items.len() <= selected ==> now.selected == picker.items.len() - 1
            &&& now.items == picker.items
        },
{
}

/// A connection begins with the list of the providers, and leads back to the
/// settings where it was begun there.
pub proof fn connections_begin_with_the_providers(
    s: StateModel,
    catalog: Seq<DefinitionModel>,
    from_settings: bool,
)
    ensures
        ({
            let now = connect_opened(s, catalog, from_settings);
            &&& now.connection is Some && now.connection->0.catalog == catalog
                && now.connection->0.provider is None && now.connection->0.job is None
            &&& now.picker == Some(provider_menu(catalog, now.connection->0.root_parent))
            &&& now.connection->0.root_parent is Some <==> from_settings
        }),
{
}

/// What belongs to a connection is handled by it where one is open, and is
/// handed on where none is; what it closes is gone with its menu.
pub proof fn open_connections_handle_their_actions(
    s: StateModel,
    action: ActionModel,
    codex: Option<Seq<Seq<char>>>,
)
    ensures
        s.connection is None ==> connection_handled(s, action, codex) == (
            s,
            WorkModel::Nothing,
            Some(action),
        ),
        s.connection matches Some(flow) ==> {
            let done = acted(flow, action, codex);
            let (now, work, left) = connection_handled(s, action, codex);
            &&& now.connection == done.flow && work == done.work && left == done.action
            &&& done.closes ==> now.picker is None
            &&& !done.closes && done.picker is Some ==> now.picker == done.picker
            &&& !done.closes && done.picker is None ==> now.picker == s.picker
            &&& done.notice is Some ==> now.notices == s.notices.push(done.notice->0)
            &&& done.notice is None ==> now.notices == s.notices
        },
{
}

/// What is edited in secret is so marked by the menu that edits it.
pub proof fn secrets_are_marked(picker: PickerModel, s: StateModel, key: Seq<char>)
    requires
        s.picker == Some(picker),
    ensures
        picker.editing == Some(crate::picker::EditModel::SecretSetting(key)) ==> s.is_secret(),
        picker.editing == Some(crate::picker::EditModel::Setting(key)) ==> !s.is_secret(),
        picker.editing is None ==> !s.is_secret() && !s.is_editing(),
        picker.editing is Some ==> s.is_editing(),
{
}

} // verus!
