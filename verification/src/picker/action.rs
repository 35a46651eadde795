//! What a choice in a picker asks for.

use vstd::prelude::*;
use crate::config::{
    StatusBarFormat, StatusBarKind, StatusBarStyle, StatusBarVisibility, WebSearchProvider,
};
use crate::model::{copy_all, copy_option, option_view, same_option, views, Modeled};
use crate::style::UiColor;

verus! {

broadcast use vstd::string::group_string_axioms;

// ---------------------------------------------------------------------------
// Places in the settings

#[derive(Debug, Clone, Copy, PartialEq, Eq, Structural)]
pub enum SettingsCategory {
    Model,
    Interface,
    Context,
    Providers,
    Web,
    Subagents,
    Skills,
    Advanced,
}

#[derive(Debug, Clone, Copy, PartialEq, Eq, Structural)]
pub enum SettingsItem {
    DefaultModel,
    MaxOutputTokens,
    ReasoningEffort,
    ReasoningDisplay,
    AccentColor,
    SelectionColor,
    StatusBar,
    ScrollBar,
    ScrollBarAutoHide,
    Bell,
    AutoCompact,
    CompactThreshold,
    ContextWindow,
    ProviderSetup,
    WebBrowsingEnabled,
    WebSearchProvider,
    WebFetchMaxChars,
    BraveApiKey,
    FirecrawlApiKey,
    SubagentsEnabled,
    MaxSubagents,
    SubagentModel,
    SubagentRequestBudget,
    SubagentTimeout,
    AddSkillDirectory,
    Reload,
    ConfigurationDetails,
}

/// A setting and the page that it stands on.
#[derive(Debug, Clone, Copy, PartialEq, Eq, Structural)]
pub struct SettingsLocation {
    pub category: SettingsCategory,
    pub item: SettingsItem,
}

// ---------------------------------------------------------------------------
// The setup of a provider

#[derive(Debug, Clone, Copy, PartialEq, Eq, Structural)]
pub enum ConnectEditField {
    ProviderName,
    Endpoint,
    Environment,
    Secret,
    Model,
}

#[derive(Debug, Clone, Copy, PartialEq, Eq, Structural)]
pub enum ConnectStep {
    Provider,
    ProviderName,
    Endpoint,
    Authentication,
    Discovery,
    Login,
    Models,
    Reasoning,
    Recovery,
    Review,
}

/// What a new connection is used for.
#[derive(Debug, Clone, Copy, PartialEq, Eq, Structural)]
pub enum ConnectionActivation {
    Default,
    Session,
    ConnectionOnly,
}

/// A provider of models.
#[derive(Debug)]
pub enum ProviderId {
    Codex,
    Anthropic,
    OpenAi,
    /// An OpenAI-compatible provider, by its name.
    Compatible(String),
    /// A compatible provider that has no name yet.
    Other,
}

pub enum ProviderModel {
    Codex,
    Anthropic,
    OpenAi,
    Compatible(Seq<char>),
    Other,
}

impl View for ProviderId {
    type V = ProviderModel;

    open spec fn view(&self) -> ProviderModel {
        match self {
            ProviderId::Codex => ProviderModel::Codex,
            ProviderId::Anthropic => ProviderModel::Anthropic,
            ProviderId::OpenAi => ProviderModel::OpenAi,
            ProviderId::Compatible(a) => ProviderModel::Compatible(a@),
            ProviderId::Other => ProviderModel::Other,
        }
    }
}

impl Clone for ProviderId {
    fn clone(&self) -> (r: Self)
        ensures
            r@ == self@,
    {
        match self {
            ProviderId::Codex => ProviderId::Codex,
            ProviderId::Anthropic => ProviderId::Anthropic,
            ProviderId::OpenAi => ProviderId::OpenAi,
            ProviderId::Compatible(a) => ProviderId::Compatible(a.clone()),
            ProviderId::Other => ProviderId::Other,
        }
    }
}

/// Where the key of a provider comes from.
#[derive(Debug)]
pub enum CredentialChoice {
    Keep,
    /// A variable of the environment.
    Environment(String),
    Literal(String),
    /// No key is sent.
    Nothing,
}

pub enum CredentialModel {
    Keep,
    Environment(Seq<char>),
    Literal(Seq<char>),
    Nothing,
}

impl View for CredentialChoice {
    type V = CredentialModel;

    open spec fn view(&self) -> CredentialModel {
        match self {
            CredentialChoice::Keep => CredentialModel::Keep,
            CredentialChoice::Environment(a) => CredentialModel::Environment(a@),
            CredentialChoice::Literal(a) => CredentialModel::Literal(a@),
            CredentialChoice::Nothing => CredentialModel::Nothing,
        }
    }
}

impl Clone for CredentialChoice {
    fn clone(&self) -> (r: Self)
        ensures
            r@ == self@,
    {
        match self {
            CredentialChoice::Keep => CredentialChoice::Keep,
            CredentialChoice::Environment(a) => CredentialChoice::Environment(a.clone()),
            CredentialChoice::Literal(a) => CredentialChoice::Literal(a.clone()),
            CredentialChoice::Nothing => CredentialChoice::Nothing,
        }
    }
}

/// A connection that is ready to be saved.
#[derive(Debug)]
pub struct ConnectionPlan {
    pub provider: ProviderId,
    /// The base of the addresses; nothing where the provider has its own login.
    pub endpoint: Option<String>,
    pub credential: CredentialChoice,
    /// The model with the name of its provider before it.
    pub model: String,
    /// The reasoning levels that the model is asked for.
    pub efforts: Vec<String>,
    pub activation: ConnectionActivation,
    pub provider_label: String,
}

pub struct PlanModel {
    pub provider: ProviderModel,
    pub endpoint: Option<Seq<char>>,
    pub credential: CredentialModel,
    pub model: Seq<char>,
    pub efforts: Seq<Seq<char>>,
    pub activation: ConnectionActivation,
    pub provider_label: Seq<char>,
}

impl View for ConnectionPlan {
    type V = PlanModel;

    open spec fn view(&self) -> PlanModel {
        PlanModel {
            provider: self.provider@,
            endpoint: option_view(self.endpoint),
            credential: self.credential@,
            model: self.model@,
            efforts: views(self.efforts@),
            activation: self.activation,
            provider_label: self.provider_label@,
        }
    }
}

impl Clone for ConnectionPlan {
    fn clone(&self) -> (r: Self)
        ensures
            r@ == self@,
    {
        ConnectionPlan {
            provider: self.provider.clone(),
            endpoint: copy_option(&self.endpoint),
            credential: self.credential.clone(),
            model: self.model.clone(),
            efforts: copy_all(&self.efforts),
            activation: self.activation,
            provider_label: self.provider_label.clone(),
        }
    }
}

impl ProviderId {
    pub fn is(&self, other: &ProviderId) -> (r: bool)
        ensures
            r == (self@ == other@),
    {
        match (self, other) {
            (ProviderId::Codex, ProviderId::Codex) => true,
            (ProviderId::Anthropic, ProviderId::Anthropic) => true,
            (ProviderId::OpenAi, ProviderId::OpenAi) => true,
            (ProviderId::Compatible(a), ProviderId::Compatible(b)) => a.same(b),
            (ProviderId::Other, ProviderId::Other) => true,
            _ => false,
        }
    }
}

/// A provider that can be set up.
#[derive(Debug)]
pub struct ProviderDefinition {
    pub id: ProviderId,
    pub label: String,
    pub description: String,
    pub configured: bool,
    /// The address that is proposed.
    pub endpoint: String,
    /// A key is there to be kept.
    pub has_credential: bool,
    /// The variable that is proposed for the key.
    pub environment: Option<String>,
    pub allows_no_key: bool,
}

pub struct DefinitionModel {
    pub id: ProviderModel,
    pub label: Seq<char>,
    pub description: Seq<char>,
    pub configured: bool,
    pub endpoint: Seq<char>,
    pub has_credential: bool,
    pub environment: Option<Seq<char>>,
    pub allows_no_key: bool,
}

impl View for ProviderDefinition {
    type V = DefinitionModel;

    open spec fn view(&self) -> DefinitionModel {
        DefinitionModel {
            id: self.id@,
            label: self.label@,
            description: self.description@,
            configured: self.configured,
            endpoint: self.endpoint@,
            has_credential: self.has_credential,
            environment: option_view(self.environment),
            allows_no_key: self.allows_no_key,
        }
    }
}

impl Modeled for ProviderDefinition {
    fn copy(&self) -> (r: Self) {
        ProviderDefinition {
            id: self.id.clone(),
            label: self.label.clone(),
            description: self.description.clone(),
            configured: self.configured,
            endpoint: self.endpoint.clone(),
            has_credential: self.has_credential,
            environment: copy_option(&self.environment),
            allows_no_key: self.allows_no_key,
        }
    }

    fn same(&self, other: &Self) -> (r: bool) {
        self.id.is(&other.id) && self.label.same(&other.label) && self.description.same(
            &other.description,
        ) && self.configured == other.configured && self.endpoint.same(&other.endpoint)
            && self.has_credential == other.has_credential && same_option(
            &self.environment,
            &other.environment,
        ) && self.allows_no_key == other.allows_no_key
    }
}

// ---------------------------------------------------------------------------
// Actions

/// What a choice asks for.
#[derive(Debug)]
pub enum PickerAction {
    SwitchModel(String),
    SaveModel(String),
    OpenModels { save: bool },
    OpenReasoning { save: bool },
    SetReasoning { effort: Option<String>, save: bool },
    SetHideReasoning(bool),
    OpenAccentColor,
    SetAccentColor(UiColor),
    OpenSelectionColor,
    /// Without a color, the selection follows the accent.
    SetSelectionColor(Option<UiColor>),
    OpenStatusBarEditor { selected: usize },
    CancelStatusBarEditor,
    OpenStatusBarItem { index: usize, selected: usize },
    OpenStatusBarFormats(usize),
    SetStatusBarFormat { index: usize, format: StatusBarFormat },
    SetStatusBarVisibility { index: usize, visibility: StatusBarVisibility },
    EditStatusBarLabel { index: usize, initial: String },
    ApplyStatusBarLabel { index: usize, label: String },
    ResetStatusBarLabel(usize),
    OpenStatusBarAdd,
    AddStatusBarItem(StatusBarKind),
    MoveStatusBarItem { index: usize, direction: isize },
    RemoveStatusBarItem(usize),
    OpenStatusBarStyles,
    SetStatusBarStyle(StatusBarStyle),
    OpenStatusBarSeparators,
    SetStatusBarSeparator(String),
    EditStatusBarSeparator(String),
    ApplyStatusBarSeparator(String),
    ResetStatusBar,
    SaveStatusBar,
    OpenWebSearchProviders,
    SetWebSearchProvider(WebSearchProvider),
    SetScrollBar(bool),
    SetScrollBarAutoHide(bool),
    SetBell(bool),
    ResumeSession(String),
    DeleteSession(String),
    /// Show the saved sessions again after a deletion was not confirmed.
    OpenResume { selected: usize },
    OpenSettingsRoot { selected: usize },
    OpenSettingsCategory { category: SettingsCategory, selected: usize },
    OpenConnect { from_settings: bool },
    ConnectChooseProvider(ProviderId),
    EditConnect { field: ConnectEditField, initial: String, secret: bool },
    ApplyConnect { field: ConnectEditField, value: String },
    ConnectCredential(CredentialChoice),
    ConnectChooseModel(String),
    ConnectToggleReasoning(usize),
    ConnectConfirmReasoning,
    ConnectRetry,
    ConnectCancelJob,
    CloseConnect,
    ConnectBack(ConnectStep),
    ConnectActivation(ConnectionActivation),
    ApplyConnectionPlan(ConnectionPlan),
    EditSetting { key: String, initial: String, location: Option<SettingsLocation> },
    EditSecretSetting { key: String, location: Option<SettingsLocation> },
    EditModel { save: bool, initial: String },
    ApplySetting { argument: String, location: Option<SettingsLocation> },
    OpenSubagentModels,
    /// Show the models again after a removal was not confirmed.
    OpenModelsAt { save: bool, selected: usize },
    ConfirmRemoveModel { model: String, save: bool, selected: usize },
    RemoveModel { model: String, save: bool, selected: usize },
    SetAutoCompact(bool),
    SetWebBrowsing(bool),
    SetSubagents(bool),
    SendQueued(usize),
    ApplyQueued { index: usize, value: String },
    MoveQueued { index: usize, direction: isize },
    RemoveQueued(usize),
    ClearQueued,
    ImplementPlan,
    ReturnFromPlan,
    Reload,
    ShowSettings,
}

pub enum ActionModel {
    SwitchModel(Seq<char>),
    SaveModel(Seq<char>),
    OpenModels { save: bool },
    OpenReasoning { save: bool },
    SetReasoning { effort: Option<Seq<char>>, save: bool },
    SetHideReasoning(bool),
    OpenAccentColor,
    SetAccentColor(UiColor),
    OpenSelectionColor,
    SetSelectionColor(Option<UiColor>),
    OpenStatusBarEditor { selected: usize },
    CancelStatusBarEditor,
    OpenStatusBarItem { index: usize, selected: usize },
    OpenStatusBarFormats(usize),
    SetStatusBarFormat { index: usize, format: StatusBarFormat },
    SetStatusBarVisibility { index: usize, visibility: StatusBarVisibility },
    EditStatusBarLabel { index: usize, initial: Seq<char> },
    ApplyStatusBarLabel { index: usize, label: Seq<char> },
    ResetStatusBarLabel(usize),
    OpenStatusBarAdd,
    AddStatusBarItem(StatusBarKind),
    MoveStatusBarItem { index: usize, direction: isize },
    RemoveStatusBarItem(usize),
    OpenStatusBarStyles,
    SetStatusBarStyle(StatusBarStyle),
    OpenStatusBarSeparators,
    SetStatusBarSeparator(Seq<char>),
    EditStatusBarSeparator(Seq<char>),
    ApplyStatusBarSeparator(Seq<char>),
    ResetStatusBar,
    SaveStatusBar,
    OpenWebSearchProviders,
    SetWebSearchProvider(WebSearchProvider),
    SetScrollBar(bool),
    SetScrollBarAutoHide(bool),
    SetBell(bool),
    ResumeSession(Seq<char>),
    DeleteSession(Seq<char>),
    OpenResume { selected: usize },
    OpenSettingsRoot { selected: usize },
    OpenSettingsCategory { category: SettingsCategory, selected: usize },
    OpenConnect { from_settings: bool },
    ConnectChooseProvider(ProviderModel),
    EditConnect { field: ConnectEditField, initial: Seq<char>, secret: bool },
    ApplyConnect { field: ConnectEditField, value: Seq<char> },
    ConnectCredential(CredentialModel),
    ConnectChooseModel(Seq<char>),
    ConnectToggleReasoning(usize),
    ConnectConfirmReasoning,
    ConnectRetry,
    ConnectCancelJob,
    CloseConnect,
    ConnectBack(ConnectStep),
    ConnectActivation(ConnectionActivation),
    ApplyConnectionPlan(PlanModel),
    EditSetting { key: Seq<char>, initial: Seq<char>, location: Option<SettingsLocation> },
    EditSecretSetting { key: Seq<char>, location: Option<SettingsLocation> },
    EditModel { save: bool, initial: Seq<char> },
    ApplySetting { argument: Seq<char>, location: Option<SettingsLocation> },
    OpenSubagentModels,
    OpenModelsAt { save: bool, selected: usize },
    ConfirmRemoveModel { model: Seq<char>, save: bool, selected: usize },
    RemoveModel { model: Seq<char>, save: bool, selected: usize },
    SetAutoCompact(bool),
    SetWebBrowsing(bool),
    SetSubagents(bool),
    SendQueued(usize),
    ApplyQueued { index: usize, value: Seq<char> },
    MoveQueued { index: usize, direction: isize },
    RemoveQueued(usize),
    ClearQueued,
    ImplementPlan,
    ReturnFromPlan,
    Reload,
    ShowSettings,
}

impl View for PickerAction {
    type V = ActionModel;

    open spec fn view(&self) -> ActionModel {
        match self {
            PickerAction::SwitchModel(a) => ActionModel::SwitchModel(a@),
            PickerAction::SaveModel(a) => ActionModel::SaveModel(a@),
            PickerAction::OpenModels { save } => ActionModel::OpenModels { save: *save },
            PickerAction::OpenReasoning { save } => ActionModel::OpenReasoning { save: *save },
            PickerAction::SetReasoning { effort, save } => ActionModel::SetReasoning { effort: option_view(*effort), save: *save },
            PickerAction::SetHideReasoning(a) => ActionModel::SetHideReasoning(*a),
            PickerAction::OpenAccentColor => ActionModel::OpenAccentColor,
            PickerAction::SetAccentColor(a) => ActionModel::SetAccentColor(*a),
            PickerAction::OpenSelectionColor => ActionModel::OpenSelectionColor,
            PickerAction::SetSelectionColor(a) => ActionModel::SetSelectionColor(*a),
            PickerAction::OpenStatusBarEditor { selected } => ActionModel::OpenStatusBarEditor { selected: *selected },
            PickerAction::CancelStatusBarEditor => ActionModel::CancelStatusBarEditor,
            PickerAction::OpenStatusBarItem { index, selected } => ActionModel::OpenStatusBarItem { index: *index, selected: *selected },
            PickerAction::OpenStatusBarFormats(a) => ActionModel::OpenStatusBarFormats(*a),
            PickerAction::SetStatusBarFormat { index, format } => ActionModel::SetStatusBarFormat { index: *index, format: *format },
            PickerAction::SetStatusBarVisibility { index, visibility } => ActionModel::SetStatusBarVisibility { index: *index, visibility: *visibility },
            PickerAction::EditStatusBarLabel { index, initial } => ActionModel::EditStatusBarLabel { index: *index, initial: initial@ },
            PickerAction::ApplyStatusBarLabel { index, label } => ActionModel::ApplyStatusBarLabel { index: *index, label: label@ },
            PickerAction::ResetStatusBarLabel(a) => ActionModel::ResetStatusBarLabel(*a),
            PickerAction::OpenStatusBarAdd => ActionModel::OpenStatusBarAdd,
            PickerAction::AddStatusBarItem(a) => ActionModel::AddStatusBarItem(*a),
            PickerAction::MoveStatusBarItem { index, direction } => ActionModel::MoveStatusBarItem { index: *index, direction: *direction },
            PickerAction::RemoveStatusBarItem(a) => ActionModel::RemoveStatusBarItem(*a),
            PickerAction::OpenStatusBarStyles => ActionModel::OpenStatusBarStyles,
            PickerAction::SetStatusBarStyle(a) => ActionModel::SetStatusBarStyle(*a),
            PickerAction::OpenStatusBarSeparators => ActionModel::OpenStatusBarSeparators,
            PickerAction::SetStatusBarSeparator(a) => ActionModel::SetStatusBarSeparator(a@),
            PickerAction::EditStatusBarSeparator(a) => ActionModel::EditStatusBarSeparator(a@),
            PickerAction::ApplyStatusBarSeparator(a) => ActionModel::ApplyStatusBarSeparator(a@),
            PickerAction::ResetStatusBar => ActionModel::ResetStatusBar,
            PickerAction::SaveStatusBar => ActionModel::SaveStatusBar,
            PickerAction::OpenWebSearchProviders => ActionModel::OpenWebSearchProviders,
            PickerAction::SetWebSearchProvider(a) => ActionModel::SetWebSearchProvider(*a),
            PickerAction::SetScrollBar(a) => ActionModel::SetScrollBar(*a),
            PickerAction::SetScrollBarAutoHide(a) => ActionModel::SetScrollBarAutoHide(*a),
            PickerAction::SetBell(a) => ActionModel::SetBell(*a),
            PickerAction::ResumeSession(a) => ActionModel::ResumeSession(a@),
            PickerAction::DeleteSession(a) => ActionModel::DeleteSession(a@),
            PickerAction::OpenResume { selected } => ActionModel::OpenResume { selected: *selected },
            PickerAction::OpenSettingsRoot { selected } => ActionModel::OpenSettingsRoot { selected: *selected },
            PickerAction::OpenSettingsCategory { category, selected } => ActionModel::OpenSettingsCategory { category: *category, selected: *selected },
            PickerAction::OpenConnect { from_settings } => ActionModel::OpenConnect { from_settings: *from_settings },
            PickerAction::ConnectChooseProvider(a) => ActionModel::ConnectChooseProvider(a@),
            PickerAction::EditConnect { field, initial, secret } => ActionModel::EditConnect { field: *field, initial: initial@, secret: *secret },
            PickerAction::ApplyConnect { field, value } => ActionModel::ApplyConnect { field: *field, value: value@ },
            PickerAction::ConnectCredential(a) => ActionModel::ConnectCredential(a@),
            PickerAction::ConnectChooseModel(a) => ActionModel::ConnectChooseModel(a@),
            PickerAction::ConnectToggleReasoning(a) => ActionModel::ConnectToggleReasoning(*a),
            PickerAction::ConnectConfirmReasoning => ActionModel::ConnectConfirmReasoning,
            PickerAction::ConnectRetry => ActionModel::ConnectRetry,
            PickerAction::ConnectCancelJob => ActionModel::ConnectCancelJob,
            PickerAction::CloseConnect => ActionModel::CloseConnect,
            PickerAction::ConnectBack(a) => ActionModel::ConnectBack(*a),
            PickerAction::ConnectActivation(a) => ActionModel::ConnectActivation(*a),
            PickerAction::ApplyConnectionPlan(a) => ActionModel::ApplyConnectionPlan(a@),
            PickerAction::EditSetting { key, initial, location } => ActionModel::EditSetting { key: key@, initial: initial@, location: *location },
            PickerAction::EditSecretSetting { key, location } => ActionModel::EditSecretSetting { key: key@, location: *location },
            PickerAction::EditModel { save, initial } => ActionModel::EditModel { save: *save, initial: initial@ },
            PickerAction::ApplySetting { argument, location } => ActionModel::ApplySetting { argument: argument@, location: *location },
            PickerAction::OpenSubagentModels => ActionModel::OpenSubagentModels,
            PickerAction::OpenModelsAt { save, selected } => ActionModel::OpenModelsAt { save: *save, selected: *selected },
            PickerAction::ConfirmRemoveModel { model, save, selected } => ActionModel::ConfirmRemoveModel { model: model@, save: *save, selected: *selected },
            PickerAction::RemoveModel { model, save, selected } => ActionModel::RemoveModel { model: model@, save: *save, selected: *selected },
            PickerAction::SetAutoCompact(a) => ActionModel::SetAutoCompact(*a),
            PickerAction::SetWebBrowsing(a) => ActionModel::SetWebBrowsing(*a),
            PickerAction::SetSubagents(a) => ActionModel::SetSubagents(*a),
            PickerAction::SendQueued(a) => ActionModel::SendQueued(*a),
            PickerAction::ApplyQueued { index, value } => ActionModel::ApplyQueued { index: *index, value: value@ },
            PickerAction::MoveQueued { index, direction } => ActionModel::MoveQueued { index: *index, direction: *direction },
            PickerAction::RemoveQueued(a) => ActionModel::RemoveQueued(*a),
            PickerAction::ClearQueued => ActionModel::ClearQueued,
            PickerAction::ImplementPlan => ActionModel::ImplementPlan,
            PickerAction::ReturnFromPlan => ActionModel::ReturnFromPlan,
            PickerAction::Reload => ActionModel::Reload,
            PickerAction::ShowSettings => ActionModel::ShowSettings,
        }
    }
}

impl Clone for PickerAction {
    fn clone(&self) -> (r: Self)
        ensures
            r@ == self@,
    {
        match self {
            PickerAction::SwitchModel(a) => PickerAction::SwitchModel(a.clone()),
            PickerAction::SaveModel(a) => PickerAction::SaveModel(a.clone()),
            PickerAction::OpenModels { save } => PickerAction::OpenModels { save: *save },
            PickerAction::OpenReasoning { save } => PickerAction::OpenReasoning { save: *save },
            PickerAction::SetReasoning { effort, save } => PickerAction::SetReasoning { effort: copy_option(effort), save: *save },
            PickerAction::SetHideReasoning(a) => PickerAction::SetHideReasoning(*a),
            PickerAction::OpenAccentColor => PickerAction::OpenAccentColor,
            PickerAction::SetAccentColor(a) => PickerAction::SetAccentColor(*a),
            PickerAction::OpenSelectionColor => PickerAction::OpenSelectionColor,
            PickerAction::SetSelectionColor(a) => PickerAction::SetSelectionColor(*a),
            PickerAction::OpenStatusBarEditor { selected } => PickerAction::OpenStatusBarEditor { selected: *selected },
            PickerAction::CancelStatusBarEditor => PickerAction::CancelStatusBarEditor,
            PickerAction::OpenStatusBarItem { index, selected } => PickerAction::OpenStatusBarItem { index: *index, selected: *selected },
            PickerAction::OpenStatusBarFormats(a) => PickerAction::OpenStatusBarFormats(*a),
            PickerAction::SetStatusBarFormat { index, format } => PickerAction::SetStatusBarFormat { index: *index, format: *format },
            PickerAction::SetStatusBarVisibility { index, visibility } => PickerAction::SetStatusBarVisibility { index: *index, visibility: *visibility },
            PickerAction::EditStatusBarLabel { index, initial } => PickerAction::EditStatusBarLabel { index: *index, initial: initial.clone() },
            PickerAction::ApplyStatusBarLabel { index, label } => PickerAction::ApplyStatusBarLabel { index: *index, label: label.clone() },
            PickerAction::ResetStatusBarLabel(a) => PickerAction::ResetStatusBarLabel(*a),
            PickerAction::OpenStatusBarAdd => PickerAction::OpenStatusBarAdd,
            PickerAction::AddStatusBarItem(a) => PickerAction::AddStatusBarItem(*a),
            PickerAction::MoveStatusBarItem { index, direction } => PickerAction::MoveStatusBarItem { index: *index, direction: *direction },
            PickerAction::RemoveStatusBarItem(a) => PickerAction::RemoveStatusBarItem(*a),
            PickerAction::OpenStatusBarStyles => PickerAction::OpenStatusBarStyles,
            PickerAction::SetStatusBarStyle(a) => PickerAction::SetStatusBarStyle(*a),
            PickerAction::OpenStatusBarSeparators => PickerAction::OpenStatusBarSeparators,
            PickerAction::SetStatusBarSeparator(a) => PickerAction::SetStatusBarSeparator(a.clone()),
            PickerAction::EditStatusBarSeparator(a) => PickerAction::EditStatusBarSeparator(a.clone()),
            PickerAction::ApplyStatusBarSeparator(a) => PickerAction::ApplyStatusBarSeparator(a.clone()),
            PickerAction::ResetStatusBar => PickerAction::ResetStatusBar,
            PickerAction::SaveStatusBar => PickerAction::SaveStatusBar,
            PickerAction::OpenWebSearchProviders => PickerAction::OpenWebSearchProviders,
            PickerAction::SetWebSearchProvider(a) => PickerAction::SetWebSearchProvider(*a),
            PickerAction::SetScrollBar(a) => PickerAction::SetScrollBar(*a),
            PickerAction::SetScrollBarAutoHide(a) => PickerAction::SetScrollBarAutoHide(*a),
            PickerAction::SetBell(a) => PickerAction::SetBell(*a),
            PickerAction::ResumeSession(a) => PickerAction::ResumeSession(a.clone()),
            PickerAction::DeleteSession(a) => PickerAction::DeleteSession(a.clone()),
            PickerAction::OpenResume { selected } => PickerAction::OpenResume { selected: *selected },
            PickerAction::OpenSettingsRoot { selected } => PickerAction::OpenSettingsRoot { selected: *selected },
            PickerAction::OpenSettingsCategory { category, selected } => PickerAction::OpenSettingsCategory { category: *category, selected: *selected },
            PickerAction::OpenConnect { from_settings } => PickerAction::OpenConnect { from_settings: *from_settings },
            PickerAction::ConnectChooseProvider(a) => PickerAction::ConnectChooseProvider(a.clone()),
            PickerAction::EditConnect { field, initial, secret } => PickerAction::EditConnect { field: *field, initial: initial.clone(), secret: *secret },
            PickerAction::ApplyConnect { field, value } => PickerAction::ApplyConnect { field: *field, value: value.clone() },
            PickerAction::ConnectCredential(a) => PickerAction::ConnectCredential(a.clone()),
            PickerAction::ConnectChooseModel(a) => PickerAction::ConnectChooseModel(a.clone()),
            PickerAction::ConnectToggleReasoning(a) => PickerAction::ConnectToggleReasoning(*a),
            PickerAction::ConnectConfirmReasoning => PickerAction::ConnectConfirmReasoning,
            PickerAction::ConnectRetry => PickerAction::ConnectRetry,
            PickerAction::ConnectCancelJob => PickerAction::ConnectCancelJob,
            PickerAction::CloseConnect => PickerAction::CloseConnect,
            PickerAction::ConnectBack(a) => PickerAction::ConnectBack(*a),
            PickerAction::ConnectActivation(a) => PickerAction::ConnectActivation(*a),
            PickerAction::ApplyConnectionPlan(a) => PickerAction::ApplyConnectionPlan(a.clone()),
            PickerAction::EditSetting { key, initial, location } => PickerAction::EditSetting { key: key.clone(), initial: initial.clone(), location: *location },
            PickerAction::EditSecretSetting { key, location } => PickerAction::EditSecretSetting { key: key.clone(), location: *location },
            PickerAction::EditModel { save, initial } => PickerAction::EditModel { save: *save, initial: initial.clone() },
            PickerAction::ApplySetting { argument, location } => PickerAction::ApplySetting { argument: argument.clone(), location: *location },
            PickerAction::OpenSubagentModels => PickerAction::OpenSubagentModels,
            PickerAction::OpenModelsAt { save, selected } => PickerAction::OpenModelsAt { save: *save, selected: *selected },
            PickerAction::ConfirmRemoveModel { model, save, selected } => PickerAction::ConfirmRemoveModel { model: model.clone(), save: *save, selected: *selected },
            PickerAction::RemoveModel { model, save, selected } => PickerAction::RemoveModel { model: model.clone(), save: *save, selected: *selected },
            PickerAction::SetAutoCompact(a) => PickerAction::SetAutoCompact(*a),
            PickerAction::SetWebBrowsing(a) => PickerAction::SetWebBrowsing(*a),
            PickerAction::SetSubagents(a) => PickerAction::SetSubagents(*a),
            PickerAction::SendQueued(a) => PickerAction::SendQueued(*a),
            PickerAction::ApplyQueued { index, value } => PickerAction::ApplyQueued { index: *index, value: value.clone() },
            PickerAction::MoveQueued { index, direction } => PickerAction::MoveQueued { index: *index, direction: *direction },
            PickerAction::RemoveQueued(a) => PickerAction::RemoveQueued(*a),
            PickerAction::ClearQueued => PickerAction::ClearQueued,
            PickerAction::ImplementPlan => PickerAction::ImplementPlan,
            PickerAction::ReturnFromPlan => PickerAction::ReturnFromPlan,
            PickerAction::Reload => PickerAction::Reload,
            PickerAction::ShowSettings => PickerAction::ShowSettings,
        }
    }
}

} // verus!
