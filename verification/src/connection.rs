//! The setup of a provider, step by step.

use vstd::prelude::*;
use crate::model::{copy_all, option_view, views};
use crate::picker::{choice, offer, ItemModel, Picker, PickerItem, PickerModel};
use crate::picker::action::{
    ActionModel, ConnectEditField, ConnectStep, ConnectionActivation, ConnectionPlan,
    CredentialChoice, CredentialModel, DefinitionModel, PickerAction, PlanModel,
    ProviderDefinition, ProviderId, ProviderModel, SettingsCategory,
};
use crate::picker::models::{effort_summary, reasoning_description, ListedEntry, ListedModel};
use crate::text::{
    after_prefix, begins, cat2, cat3, chars_of, is, same, starts, string_of, strip_prefix, trim,
    trim_start_matches, trimmed, without_leading,
};

verus! {

broadcast use vstd::string::group_string_axioms;

/// The reasoning levels that a compatible model may accept.
pub open spec fn efforts() -> Seq<Seq<char>> {
    seq!["minimal"@, "low"@, "medium"@, "high"@, "xhigh"@, "max"@, "ultra"@]
}

pub const EFFORTS: usize = 7;

fn effort(i: usize) -> (r: &'static str)
    requires
        i < EFFORTS,
    ensures
        r@ == efforts()[i as int],
{
    if i == 0 {
        "minimal"
    } else if i == 1 {
        "low"
    } else if i == 2 {
        "medium"
    } else if i == 3 {
        "high"
    } else if i == 4 {
        "xhigh"
    } else if i == 5 {
        "max"
    } else {
        "ultra"
    }
}

/// The work that is under way.
#[derive(Debug, Clone, Copy, PartialEq, Eq, Structural)]
pub enum ConnectJob {
    Discovery,
    Login,
}

/// A setup that is under way.
#[derive(Debug)]
pub struct ConnectFlow {
    /// The providers that can be set up.
    pub catalog: Vec<ProviderDefinition>,
    pub step: ConnectStep,
    pub provider: Option<ProviderId>,
    pub provider_label: String,
    pub endpoint: String,
    pub credential: CredentialChoice,
    pub model: String,
    pub models: Vec<String>,
    /// Which levels the model accepts.
    pub accepted: Vec<bool>,
    pub job: Option<ConnectJob>,
    /// What is shown when the setup is left.
    pub root_parent: Option<PickerAction>,
}

pub struct FlowModel {
    pub catalog: Seq<DefinitionModel>,
    pub step: ConnectStep,
    pub provider: Option<ProviderModel>,
    pub provider_label: Seq<char>,
    pub endpoint: Seq<char>,
    pub credential: CredentialModel,
    pub model: Seq<char>,
    pub models: Seq<Seq<char>>,
    pub accepted: Seq<bool>,
    pub job: Option<ConnectJob>,
    pub root_parent: Option<ActionModel>,
}

impl View for ConnectFlow {
    type V = FlowModel;

    open spec fn view(&self) -> FlowModel {
        FlowModel {
            catalog: views(self.catalog@),
            step: self.step,
            provider: option_view(self.provider),
            provider_label: self.provider_label@,
            endpoint: self.endpoint@,
            credential: self.credential@,
            model: self.model@,
            models: views(self.models@),
            accepted: self.accepted@,
            job: self.job,
            root_parent: option_view(self.root_parent),
        }
    }
}

/// What is to be done in the background.
#[derive(Debug)]
pub enum ConnectWork {
    Nothing,
    /// List the models of a provider.
    Discover { provider: ProviderId, endpoint: String, credential: CredentialChoice },
    /// Log in to Codex.
    Login,
    /// Stop the work that is under way.
    Cancel,
}

pub enum WorkModel {
    Nothing,
    Discover { provider: ProviderModel, endpoint: Seq<char>, credential: CredentialModel },
    Login,
    Cancel,
}

impl View for ConnectWork {
    type V = WorkModel;

    open spec fn view(&self) -> WorkModel {
        match self {
            ConnectWork::Nothing => WorkModel::Nothing,
            ConnectWork::Discover { provider, endpoint, credential } => WorkModel::Discover { provider: provider@, endpoint: endpoint@, credential: credential@ },
            ConnectWork::Login => WorkModel::Login,
            ConnectWork::Cancel => WorkModel::Cancel,
        }
    }
}

/// What came of the work in the background.
#[derive(Debug)]
pub enum ConnectEvent {
    /// Nothing has happened.
    Quiet,
    /// The models that the provider lists.
    Discovered(Vec<String>),
    Undiscovered,
    /// The address to open and the code to enter there.
    LoginPrompt { url: String, code: String, browser_error: Option<String> },
    /// The models that the account lists.
    LoggedIn(Vec<String>),
    LoginFailed,
}

pub enum ConnectNews {
    Quiet,
    Discovered(Seq<Seq<char>>),
    Undiscovered,
    LoginPrompt { url: Seq<char>, code: Seq<char>, browser_error: Option<Seq<char>> },
    LoggedIn(Seq<Seq<char>>),
    LoginFailed,
}

impl View for ConnectEvent {
    type V = ConnectNews;

    open spec fn view(&self) -> ConnectNews {
        match self {
            ConnectEvent::Quiet => ConnectNews::Quiet,
            ConnectEvent::Discovered(a) => ConnectNews::Discovered(views(a@)),
            ConnectEvent::Undiscovered => ConnectNews::Undiscovered,
            ConnectEvent::LoginPrompt { url, code, browser_error } => ConnectNews::LoginPrompt { url: url@, code: code@, browser_error: option_view(*browser_error) },
            ConnectEvent::LoggedIn(a) => ConnectNews::LoggedIn(views(a@)),
            ConnectEvent::LoginFailed => ConnectNews::LoginFailed,
        }
    }
}

/// A setup after a step: what is shown and said, and what is to be done. The
/// menu stays where no other is shown.
#[derive(Debug)]
pub struct Moved {
    pub flow: ConnectFlow,
    pub picker: Option<Picker>,
    pub notice: Option<String>,
    pub work: ConnectWork,
}

pub struct MovedModel {
    pub flow: FlowModel,
    pub picker: Option<PickerModel>,
    pub notice: Option<Seq<char>>,
    pub work: WorkModel,
}

impl View for Moved {
    type V = MovedModel;

    open spec fn view(&self) -> MovedModel {
        MovedModel {
            flow: self.flow@,
            picker: option_view(self.picker),
            notice: option_view(self.notice),
            work: self.work@,
        }
    }
}

pub open spec fn shows(flow: FlowModel, picker: PickerModel) -> MovedModel {
    MovedModel { flow, picker: Some(picker), notice: None, work: WorkModel::Nothing }
}

pub open spec fn says(flow: FlowModel, picker: PickerModel, notice: Seq<char>) -> MovedModel {
    MovedModel { flow, picker: Some(picker), notice: Some(notice), work: WorkModel::Nothing }
}

fn show(flow: ConnectFlow, picker: Picker) -> (r: Moved)
    ensures
        r@ == shows(flow@, picker@),
{
    Moved { flow, picker: Some(picker), notice: None, work: ConnectWork::Nothing }
}

fn say(flow: ConnectFlow, picker: Picker, notice: &str) -> (r: Moved)
    ensures
        r@ == says(flow@, picker@, notice@),
{
    Moved {
        flow,
        picker: Some(picker),
        notice: Some(notice.to_owned()),
        work: ConnectWork::Nothing,
    }
}

// ---------------------------------------------------------------------------
// Providers

pub open spec fn label_of(provider: ProviderModel) -> Seq<char> {
    match provider {
        ProviderModel::Codex => "OpenAI Codex"@,
        ProviderModel::Anthropic => "Anthropic"@,
        ProviderModel::OpenAi => "OpenAI"@,
        ProviderModel::Compatible(name) => if name == "ollama"@ {
            "Ollama"@
        } else if name == "lmstudio"@ {
            "LM Studio"@
        } else if name == "omlx"@ {
            "OMLX"@
        } else {
            name
        },
        ProviderModel::Other => "Other OpenAI-compatible"@,
    }
}

fn provider_label(provider: &ProviderId) -> (r: String)
    ensures
        r@ == label_of(provider@),
{
    match provider {
        ProviderId::Codex => "OpenAI Codex".to_owned(),
        ProviderId::Anthropic => "Anthropic".to_owned(),
        ProviderId::OpenAi => "OpenAI".to_owned(),
        ProviderId::Compatible(name) => {
            let chars = chars_of(name.as_str());
            if is(&chars, "ollama") {
                "Ollama".to_owned()
            } else if is(&chars, "lmstudio") {
                "LM Studio".to_owned()
            } else if is(&chars, "omlx") {
                "OMLX".to_owned()
            } else {
                name.clone()
            }
        },
        ProviderId::Other => "Other OpenAI-compatible".to_owned(),
    }
}

/// The entry of a provider in a list.
pub open spec fn listed(catalog: Seq<DefinitionModel>, provider: ProviderModel) -> Option<
    DefinitionModel,
>
    decreases catalog.len(),
{
    if catalog.len() == 0 {
        None
    } else if catalog[0].id == provider {
        Some(catalog[0])
    } else {
        listed(catalog.skip(1), provider)
    }
}

fn find_listed(catalog: &Vec<ProviderDefinition>, provider: &ProviderId) -> (r: Option<usize>)
    ensures
        match r {
            Some(i) => i < catalog@.len() && listed(views(catalog@), provider@) == Some(
                catalog@[i as int]@,
            ),
            None => listed(views(catalog@), provider@) is None,
        },
{
    let ghost all = views(catalog@);
    let mut i: usize = 0;
    assert(all.skip(0) =~= all);
    while i < catalog.len()
        invariant
            i <= catalog@.len(),
            all == views(catalog@),
            listed(all, provider@) == listed(all.skip(i as int), provider@),
        decreases catalog@.len() - i,
    {
        assert(all.skip(i as int)[0] == catalog@[i as int]@);
        if catalog[i].id.is(provider) {
            return Some(i);
        }
        assert(all.skip(i as int).skip(1) =~= all.skip(i + 1));
        i += 1;
    }
    None
}

/// The address that is proposed for a provider; none for one that is not listed.
pub open spec fn proposed_endpoint(catalog: Seq<DefinitionModel>, provider: ProviderModel) -> Seq<
    char,
> {
    match listed(catalog, provider) {
        Some(definition) => definition.endpoint,
        None => ""@,
    }
}

fn propose_endpoint(catalog: &Vec<ProviderDefinition>, provider: &ProviderId) -> (r: String)
    ensures
        r@ == proposed_endpoint(views(catalog@), provider@),
{
    match find_listed(catalog, provider) {
        Some(i) => catalog[i].endpoint.clone(),
        None => "".to_owned(),
    }
}

pub open spec fn is_compatible(provider: Option<ProviderModel>) -> bool {
    matches!(provider, Some(ProviderModel::Compatible(_)))
}

fn has_levels(provider: &Option<ProviderId>) -> (r: bool)
    ensures
        r == is_compatible(option_view(*provider)),
{
    match provider {
        Some(ProviderId::Compatible(_)) => true,
        _ => false,
    }
}

pub open spec fn name_char(c: char) -> bool {
    ('a' <= c <= 'z') || ('A' <= c <= 'Z') || ('0' <= c <= '9') || c == '-' || c == '_'
}

/// Whether a text can name a provider.
pub open spec fn is_provider_name(name: Seq<char>) -> bool {
    name.len() > 0 && forall|i: int| 0 <= i < name.len() ==> name_char(#[trigger] name[i])
}

fn validate_provider_name(name: &str) -> (r: bool)
    ensures
        r == is_provider_name(name@),
{
    let chars = chars_of(name);
    let n: usize = chars.len();
    if n == 0 {
        return false;
    }
    let mut i: usize = 0;
    while i < n
        invariant
            i <= n,
            n == chars@.len(),
            chars@ == name@,
            forall|k: int| 0 <= k < i ==> name_char(#[trigger] chars@[k]),
        decreases n - i,
    {
        let c = chars[i];
        let fits = ('a' <= c && c <= 'z') || ('A' <= c && c <= 'Z') || ('0' <= c && c <= '9') || c
            == '-' || c == '_';
        if !fits {
            assert(!name_char(name@[i as int]));
            return false;
        }
        i += 1;
    }
    true
}

pub open spec fn variable_char(c: char) -> bool {
    name_char(c) && c != '-'
}

/// Whether a text can name a variable of the environment.
pub open spec fn is_variable(name: Seq<char>) -> bool {
    name.len() > 0 && !('0' <= name[0] <= '9') && forall|i: int|
        0 <= i < name.len() ==> variable_char(#[trigger] name[i])
}

fn validate_environment_name(name: &[char]) -> (r: bool)
    ensures
        r == is_variable(name@),
{
    let n: usize = name.len();
    if n == 0 {
        return false;
    }
    if '0' <= name[0] && name[0] <= '9' {
        return false;
    }
    let mut i: usize = 0;
    while i < n
        invariant
            i <= n,
            n == name@.len(),
            forall|k: int| 0 <= k < i ==> variable_char(#[trigger] name@[k]),
        decreases n - i,
    {
        let c = name[i];
        let fits = ('a' <= c && c <= 'z') || ('A' <= c && c <= 'Z') || ('0' <= c && c <= '9') || c
            == '_';
        if !fits {
            assert(!variable_char(name@[i as int]));
            return false;
        }
        i += 1;
    }
    true
}

/// The models of the Codex account among all models, without its name.
pub open spec fn codex_ids(list: Seq<ListedEntry>) -> Seq<Seq<char>>
    decreases list.len(),
{
    if list.len() == 0 {
        Seq::empty()
    } else {
        match after_prefix(list.last().id, "openai-codex:"@) {
            Some(id) => codex_ids(list.drop_last()).push(id),
            None => codex_ids(list.drop_last()),
        }
    }
}

pub fn codex_models(list: &Vec<ListedModel>) -> (r: Vec<String>)
    ensures
        views(r@) == codex_ids(views(list@)),
{
    let ghost all = views(list@);
    let mut r: Vec<String> = Vec::new();
    let mut i: usize = 0;
    assert(views(r@) =~= codex_ids(all.take(0)));
    while i < list.len()
        invariant
            i <= list@.len(),
            all == views(list@),
            views(r@) == codex_ids(all.take(i as int)),
        decreases list@.len() - i,
    {
        assert(all.take(i + 1).drop_last() =~= all.take(i as int));
        assert(all.take(i + 1).last() == list@[i as int]@);
        match strip_prefix(&chars_of(list[i].id.as_str()), "openai-codex:") {
            Some(id) => {
                let ghost before = views(r@);
                r.push(string_of(&id));
                assert(views(r@) =~= before.push(id@));
            },
            None => {},
        }
        i += 1;
    }
    assert(all.take(i as int) =~= all);
    r
}

// ---------------------------------------------------------------------------
// Menus

pub open spec fn provider_choice(definition: DefinitionModel) -> ItemModel {
    choice(
        definition.label,
        if definition.configured {
            "Configured · "@ + definition.description
        } else {
            definition.description
        },
        ActionModel::ConnectChooseProvider(definition.id),
    )
}

/// The choice of a provider.
#[verifier::opaque]
pub open spec fn provider_menu(catalog: Seq<DefinitionModel>, parent: Option<ActionModel>) -> PickerModel {
    PickerModel {
        title: "Connect provider"@,
        hint: "↑/↓ move  Enter configure  Esc close"@,
        items: Seq::new(catalog.len(), |i: int| provider_choice(catalog[i])),
        selected: 0,
        editing: None,
        parent: Some(
            match parent {
                Some(parent) => parent,
                None => ActionModel::CloseConnect,
            },
        ),
    }
}

fn provider_picker(catalog: &Vec<ProviderDefinition>, parent: &Option<PickerAction>) -> (r: Picker)
    ensures
        r@ == provider_menu(views(catalog@), option_view(*parent)),
{
    proof {
        reveal(provider_menu);
    }
    let ghost all = provider_menu(views(catalog@), option_view(*parent)).items;
    let mut items: Vec<PickerItem> = Vec::new();
    let n: usize = catalog.len();
    let mut i: usize = 0;
    assert(views(items@) =~= all.take(0));
    while i < n
        invariant
            i <= n,
            n == catalog@.len(),
            all == provider_menu(views(catalog@), option_view(*parent)).items,
            views(items@) == all.take(i as int),
        decreases n - i,
    {
        proof {
            reveal(provider_menu);
        }
        let definition = &catalog[i];
        assert(views(catalog@)[i as int] == definition@);
        let description = if definition.configured {
            cat2("Configured · ", definition.description.as_str())
        } else {
            definition.description.clone()
        };
        offer(
            &mut items,
            definition.label.as_str(),
            description.as_str(),
            PickerAction::ConnectChooseProvider(definition.id.clone()),
        );
        i += 1;
        assert(views(items@) =~= all.take(i as int));
    }
    assert(views(items@) =~= all);
    Picker {
        title: "Connect provider".to_owned(),
        hint: "↑/↓ move  Enter configure  Esc close".to_owned(),
        items,
        selected: 0,
        editing: None,
        parent: Some(
            match parent {
                Some(parent) => parent.clone(),
                None => PickerAction::CloseConnect,
            },
        ),
    }
}

/// A menu of one value to type in.
#[verifier::opaque]
pub open spec fn edit_menu(
    title: Seq<char>,
    label: Seq<char>,
    description: Seq<char>,
    field: ConnectEditField,
    initial: Seq<char>,
    secret: bool,
    back: ConnectStep,
) -> PickerModel {
    PickerModel {
        title,
        hint: "Enter edit  Esc back"@,
        items: seq![
            choice(label, description, ActionModel::EditConnect { field, initial, secret }),
        ],
        selected: 0,
        editing: None,
        parent: Some(ActionModel::ConnectBack(back)),
    }
}

fn edit_picker(
    title: &str,
    label: &str,
    description: &str,
    field: ConnectEditField,
    initial: &str,
    secret: bool,
    back: ConnectStep,
) -> (r: Picker)
    ensures
        r@ == edit_menu(title@, label@, description@, field, initial@, secret, back),
{
    proof {
        reveal(edit_menu);
    }
    let mut items: Vec<PickerItem> = Vec::new();
    offer(
        &mut items,
        label,
        description,
        PickerAction::EditConnect { field, initial: initial.to_owned(), secret },
    );
    assert(views(items@) =~= edit_menu(
        title@,
        label@,
        description@,
        field,
        initial@,
        secret,
        back,
    ).items);
    Picker {
        title: title.to_owned(),
        hint: "Enter edit  Esc back".to_owned(),
        items,
        selected: 0,
        editing: None,
        parent: Some(PickerAction::ConnectBack(back)),
    }
}

pub open spec fn name_menu(initial: Seq<char>) -> PickerModel {
    edit_menu(
        "Provider name"@,
        "Name"@,
        "letters, numbers, '-' or '_'"@,
        ConnectEditField::ProviderName,
        initial,
        false,
        ConnectStep::Provider,
    )
}

fn name_picker(initial: &str) -> (r: Picker)
    ensures
        r@ == name_menu(initial@),
{
    edit_picker(
        "Provider name",
        "Name",
        "letters, numbers, '-' or '_'",
        ConnectEditField::ProviderName,
        initial,
        false,
        ConnectStep::Provider,
    )
}

pub open spec fn endpoint_menu(label: Seq<char>, initial: Seq<char>, back: ConnectStep) -> PickerModel {
    edit_menu(
        label + " endpoint"@,
        "API base URL"@,
        "usually ends in /v1"@,
        ConnectEditField::Endpoint,
        initial,
        false,
        back,
    )
}

fn endpoint_picker(label: &str, initial: &str, back: ConnectStep) -> (r: Picker)
    ensures
        r@ == endpoint_menu(label@, initial@, back),
{
    edit_picker(
        cat2(label, " endpoint").as_str(),
        "API base URL",
        "usually ends in /v1",
        ConnectEditField::Endpoint,
        initial,
        false,
        back,
    )
}

pub open spec fn environment_menu(initial: Seq<char>) -> PickerModel {
    edit_menu(
        "Environment credential"@,
        "Variable"@,
        "stored as a $VARIABLE reference"@,
        ConnectEditField::Environment,
        initial,
        false,
        ConnectStep::Authentication,
    )
}

fn environment_picker(initial: &str) -> (r: Picker)
    ensures
        r@ == environment_menu(initial@),
{
    edit_picker(
        "Environment credential",
        "Variable",
        "stored as a $VARIABLE reference",
        ConnectEditField::Environment,
        initial,
        false,
        ConnectStep::Authentication,
    )
}

pub open spec fn secret_menu(label: Seq<char>) -> PickerModel {
    edit_menu(
        label + " API key"@,
        "API key"@,
        "secret input is masked"@,
        ConnectEditField::Secret,
        ""@,
        true,
        ConnectStep::Authentication,
    )
}

fn secret_picker(label: &str) -> (r: Picker)
    ensures
        r@ == secret_menu(label@),
{
    edit_picker(
        cat2(label, " API key").as_str(),
        "API key",
        "secret input is masked",
        ConnectEditField::Secret,
        "",
        true,
        ConnectStep::Authentication,
    )
}

pub open spec fn manual_model_menu(label: Seq<char>) -> PickerModel {
    edit_menu(
        label + " model"@,
        "Model ID"@,
        "exact ID expected by the provider"@,
        ConnectEditField::Model,
        ""@,
        false,
        ConnectStep::Recovery,
    )
}

fn manual_model_picker(label: &str) -> (r: Picker)
    ensures
        r@ == manual_model_menu(label@),
{
    edit_picker(
        cat2(label, " model").as_str(),
        "Model ID",
        "exact ID expected by the provider",
        ConnectEditField::Model,
        "",
        false,
        ConnectStep::Recovery,
    )
}

/// Whether there is a key to keep.
pub open spec fn has_key(flow: FlowModel) -> bool {
    match flow.provider {
        Some(provider) => match listed(flow.catalog, provider) {
            Some(definition) => definition.has_credential,
            None => false,
        },
        None => false,
    }
}

/// Whether a provider can be used without a key.
pub open spec fn keyless(flow: FlowModel) -> bool {
    match flow.provider {
        Some(provider) => match listed(flow.catalog, provider) {
            Some(definition) => definition.allows_no_key,
            None => is_compatible(flow.provider),
        },
        None => false,
    }
}

/// The variable that is proposed for the key.
pub open spec fn proposed_variable(flow: FlowModel) -> Seq<char> {
    match flow.provider {
        Some(provider) => match listed(flow.catalog, provider) {
            Some(definition) => match definition.environment {
                Some(name) => name,
                None => ""@,
            },
            None => ""@,
        },
        None => ""@,
    }
}

/// The choices of the key. Keeping it is offered only where there is one.
pub open spec fn credential_choices(flow: FlowModel) -> Seq<ItemModel> {
    (if has_key(flow) {
        seq![
            choice(
                "Keep current credential"@,
                "Reuse the configured key without displaying it"@,
                ActionModel::ConnectCredential(CredentialModel::Keep),
            ),
        ]
    } else {
        Seq::empty()
    }) + seq![
        choice(
            "Use environment variable…"@,
            "Store a $VARIABLE reference"@,
            ActionModel::EditConnect {
                field: ConnectEditField::Environment,
                initial: proposed_variable(flow),
                secret: false,
            },
        ),
        choice(
            "Enter API key…"@,
            "Masked while typing"@,
            ActionModel::EditConnect {
                field: ConnectEditField::Secret,
                initial: ""@,
                secret: true,
            },
        ),
    ] + (if keyless(flow) {
        seq![
            choice(
                "Use no key"@,
                "Clear a saved key and send no authorization"@,
                ActionModel::ConnectCredential(CredentialModel::Nothing),
            ),
        ]
    } else {
        Seq::empty()
    })
}

#[verifier::opaque]
pub open spec fn authentication_menu(flow: FlowModel) -> PickerModel {
    PickerModel {
        title: flow.provider_label + " authentication"@,
        hint: "↑/↓ move  Enter select  Esc back"@,
        items: credential_choices(flow),
        selected: 0,
        editing: None,
        parent: Some(ActionModel::ConnectBack(ConnectStep::Endpoint)),
    }
}

fn authentication_picker(flow: &ConnectFlow) -> (r: Picker)
    ensures
        r@ == authentication_menu(flow@),
{
    proof {
        reveal(authentication_menu);
    }
    let mut keep = false;
    let mut none = false;
    let mut variable: String = "".to_owned();
    match &flow.provider {
        Some(provider) => match find_listed(&flow.catalog, provider) {
            Some(i) => {
                keep = flow.catalog[i].has_credential;
                none = flow.catalog[i].allows_no_key;
                match &flow.catalog[i].environment {
                    Some(name) => variable = name.clone(),
                    None => {},
                }
            },
            None => none = has_levels(&flow.provider),
        },
        None => {},
    }
    let mut items: Vec<PickerItem> = Vec::new();
    if keep {
        offer(
            &mut items,
            "Keep current credential",
            "Reuse the configured key without displaying it",
            PickerAction::ConnectCredential(CredentialChoice::Keep),
        );
    }
    offer(
        &mut items,
        "Use environment variable…",
        "Store a $VARIABLE reference",
        PickerAction::EditConnect {
            field: ConnectEditField::Environment,
            initial: variable,
            secret: false,
        },
    );
    offer(
        &mut items,
        "Enter API key…",
        "Masked while typing",
        PickerAction::EditConnect {
            field: ConnectEditField::Secret,
            initial: "".to_owned(),
            secret: true,
        },
    );
    if none {
        offer(
            &mut items,
            "Use no key",
            "Clear a saved key and send no authorization",
            PickerAction::ConnectCredential(CredentialChoice::Nothing),
        );
    }
    assert(views(items@) =~= credential_choices(flow@));
    Picker {
        title: cat2(flow.provider_label.as_str(), " authentication"),
        hint: "↑/↓ move  Enter select  Esc back".to_owned(),
        items,
        selected: 0,
        editing: None,
        parent: Some(PickerAction::ConnectBack(ConnectStep::Endpoint)),
    }
}

#[verifier::opaque]
pub open spec fn waiting_menu(title: Seq<char>, description: Seq<char>) -> PickerModel {
    PickerModel {
        title,
        hint: "Esc cancel this job"@,
        items: seq![choice("Working…"@, description, ActionModel::ConnectCancelJob)],
        selected: 0,
        editing: None,
        parent: Some(ActionModel::ConnectCancelJob),
    }
}

fn waiting_picker(title: &str, description: &str) -> (r: Picker)
    ensures
        r@ == waiting_menu(title@, description@),
{
    proof {
        reveal(waiting_menu);
    }
    let mut items: Vec<PickerItem> = Vec::new();
    offer(&mut items, "Working…", description, PickerAction::ConnectCancelJob);
    assert(views(items@) =~= waiting_menu(title@, description@).items);
    Picker {
        title: title.to_owned(),
        hint: "Esc cancel this job".to_owned(),
        items,
        selected: 0,
        editing: None,
        parent: Some(PickerAction::ConnectCancelJob),
    }
}

pub open spec fn browser_note(error: Option<Seq<char>>) -> Seq<char> {
    match error {
        Some(error) => "Browser not opened: "@ + error,
        None => "Browser opened when available"@,
    }
}

/// What to do in the browser to log in.
#[verifier::opaque]
pub open spec fn login_menu(url: Seq<char>, code: Seq<char>, browser_error: Option<Seq<char>>) -> PickerModel {
    PickerModel {
        title: "OpenAI Codex login"@,
        hint: "Complete login in the browser  Esc cancel this job"@,
        items: seq![
            choice(url, "Open this address"@, ActionModel::ConnectCancelJob),
            choice(
                "Code: "@ + code,
                browser_note(browser_error),
                ActionModel::ConnectCancelJob,
            ),
        ],
        selected: 0,
        editing: None,
        parent: Some(ActionModel::ConnectCancelJob),
    }
}

fn login_prompt_picker(url: &str, code: &str, browser_error: &Option<String>) -> (r: Picker)
    ensures
        r@ == login_menu(url@, code@, option_view(*browser_error)),
{
    proof {
        reveal(login_menu);
    }
    let browser = match browser_error {
        Some(error) => cat2("Browser not opened: ", error.as_str()),
        None => "Browser opened when available".to_owned(),
    };
    let mut items: Vec<PickerItem> = Vec::new();
    offer(&mut items, url, "Open this address", PickerAction::ConnectCancelJob);
    offer(
        &mut items,
        cat2("Code: ", code).as_str(),
        browser.as_str(),
        PickerAction::ConnectCancelJob,
    );
    assert(views(items@) =~= login_menu(url@, code@, option_view(*browser_error)).items);
    Picker {
        title: "OpenAI Codex login".to_owned(),
        hint: "Complete login in the browser  Esc cancel this job".to_owned(),
        items,
        selected: 0,
        editing: None,
        parent: Some(PickerAction::ConnectCancelJob),
    }
}

/// Where the choice of a model leads back to.
pub open spec fn before_models(flow: FlowModel) -> ConnectStep {
    if flow.provider == Some(ProviderModel::Codex) {
        ConnectStep::Provider
    } else {
        ConnectStep::Authentication
    }
}

fn step_before_models(flow: &ConnectFlow) -> (r: ConnectStep)
    ensures
        r == before_models(flow@),
{
    match &flow.provider {
        Some(ProviderId::Codex) => ConnectStep::Provider,
        _ => ConnectStep::Authentication,
    }
}

#[verifier::opaque]
pub open spec fn models_menu(flow: FlowModel) -> PickerModel {
    PickerModel {
        title: flow.provider_label + " models"@,
        hint: "↑/↓ move  Enter select  Esc back"@,
        items: Seq::new(
            flow.models.len(),
            |i: int|
                choice(
                    flow.models[i],
                    "Available from this provider"@,
                    ActionModel::ConnectChooseModel(flow.models[i]),
                ),
        ).push(
            choice(
                "Enter model manually…"@,
                "Use an exact model ID"@,
                ActionModel::EditConnect {
                    field: ConnectEditField::Model,
                    initial: ""@,
                    secret: false,
                },
            ),
        ),
        selected: 0,
        editing: None,
        parent: Some(ActionModel::ConnectBack(before_models(flow))),
    }
}

fn models_picker(flow: &ConnectFlow) -> (r: Picker)
    ensures
        r@ == models_menu(flow@),
{
    proof {
        reveal(models_menu);
    }
    let ghost all = models_menu(flow@).items;
    let mut items: Vec<PickerItem> = Vec::new();
    let n: usize = flow.models.len();
    let mut i: usize = 0;
    assert(views(items@) =~= all.take(0));
    while i < n
        invariant
            i <= n,
            n == flow.models@.len(),
            all == models_menu(flow@).items,
            views(items@) == all.take(i as int),
        decreases n - i,
    {
        proof {
            reveal(models_menu);
        }
        let model = flow.models[i].clone();
        assert(flow@.models[i as int] == model@);
        offer(
            &mut items,
            flow.models[i].as_str(),
            "Available from this provider",
            PickerAction::ConnectChooseModel(model),
        );
        i += 1;
        assert(views(items@) =~= all.take(i as int));
    }
    offer(
        &mut items,
        "Enter model manually…",
        "Use an exact model ID",
        PickerAction::EditConnect {
            field: ConnectEditField::Model,
            initial: "".to_owned(),
            secret: false,
        },
    );
    assert(views(items@) =~= all);
    Picker {
        title: cat2(flow.provider_label.as_str(), " models"),
        hint: "↑/↓ move  Enter select  Esc back".to_owned(),
        items,
        selected: 0,
        editing: None,
        parent: Some(PickerAction::ConnectBack(step_before_models(flow))),
    }
}

#[verifier::opaque]
pub open spec fn recovery_menu(flow: FlowModel, message: Seq<char>) -> PickerModel {
    PickerModel {
        title: "Connection problem"@,
        hint: "↑/↓ move  Enter select  Esc back"@,
        items: seq![
            choice("Retry"@, message, ActionModel::ConnectRetry),
            choice(
                "Enter model manually…"@,
                "Save without discovery"@,
                ActionModel::EditConnect {
                    field: ConnectEditField::Model,
                    initial: ""@,
                    secret: false,
                },
            ),
            choice("Back"@, "Choose another provider"@, ActionModel::ConnectCancelJob),
        ],
        selected: 0,
        editing: None,
        parent: Some(ActionModel::ConnectBack(before_models(flow))),
    }
}

fn recovery_picker(flow: &ConnectFlow, message: &str) -> (r: Picker)
    ensures
        r@ == recovery_menu(flow@, message@),
{
    proof {
        reveal(recovery_menu);
    }
    let mut items: Vec<PickerItem> = Vec::new();
    offer(&mut items, "Retry", message, PickerAction::ConnectRetry);
    offer(
        &mut items,
        "Enter model manually…",
        "Save without discovery",
        PickerAction::EditConnect {
            field: ConnectEditField::Model,
            initial: "".to_owned(),
            secret: false,
        },
    );
    offer(&mut items, "Back", "Choose another provider", PickerAction::ConnectCancelJob);
    assert(views(items@) =~= recovery_menu(flow@, message@).items);
    Picker {
        title: "Connection problem".to_owned(),
        hint: "↑/↓ move  Enter select  Esc back".to_owned(),
        items,
        selected: 0,
        editing: None,
        parent: Some(PickerAction::ConnectBack(step_before_models(flow))),
    }
}

pub open spec fn checked(accepted: Seq<bool>, i: int) -> bool {
    i < accepted.len() && accepted[i]
}

/// The choice of the levels that a model accepts.
#[verifier::opaque]
pub open spec fn levels_menu(flow: FlowModel, selected: usize) -> PickerModel {
    PickerModel {
        title: "Reasoning efforts"@,
        hint: "↑/↓ move  Space toggle  Enter confirm  Esc back"@,
        items: Seq::new(
            7,
            |i: int|
                choice(
                    (if checked(flow.accepted, i) {
                        "[x] "@
                    } else {
                        "[ ] "@
                    }) + efforts()[i],
                    effort_summary(efforts()[i]),
                    ActionModel::ConnectToggleReasoning(i as usize),
                ),
        ),
        selected,
        editing: None,
        parent: Some(ActionModel::ConnectBack(ConnectStep::Models)),
    }
}

fn levels_picker(flow: &ConnectFlow, selected: usize) -> (r: Picker)
    ensures
        r@ == levels_menu(flow@, selected),
{
    proof {
        reveal(levels_menu);
    }
    let ghost all = levels_menu(flow@, selected).items;
    let mut items: Vec<PickerItem> = Vec::new();
    let mut i: usize = 0;
    assert(views(items@) =~= all.take(0));
    while i < 7
        invariant
            i <= 7,
            all == levels_menu(flow@, selected).items,
            views(items@) == all.take(i as int),
        decreases 7 - i,
    {
        proof {
            reveal(levels_menu);
        }
        let name = effort(i);
        let mark = if i < flow.accepted.len() && flow.accepted[i] {
            "[x] "
        } else {
            "[ ] "
        };
        offer(
            &mut items,
            cat2(mark, name).as_str(),
            reasoning_description(name),
            PickerAction::ConnectToggleReasoning(i),
        );
        i += 1;
        assert(views(items@) =~= all.take(i as int));
    }
    assert(views(items@) =~= all);
    Picker {
        title: "Reasoning efforts".to_owned(),
        hint: "↑/↓ move  Space toggle  Enter confirm  Esc back".to_owned(),
        items,
        selected,
        editing: None,
        parent: Some(PickerAction::ConnectBack(ConnectStep::Models)),
    }
}

/// The name that stands before the models of a provider.
pub open spec fn prefix_of(provider: Option<ProviderModel>) -> Seq<char> {
    match provider {
        Some(ProviderModel::Codex) => "openai-codex"@,
        Some(ProviderModel::Anthropic) => "anthropic"@,
        Some(ProviderModel::OpenAi) => "openai"@,
        Some(ProviderModel::Compatible(name)) => name,
        _ => ""@,
    }
}

/// The model with the name of its provider before it.
pub open spec fn qualified(flow: FlowModel) -> Seq<char> {
    prefix_of(flow.provider) + ":"@ + flow.model
}

fn qualified_model(flow: &ConnectFlow) -> (r: String)
    ensures
        r@ == qualified(flow@),
{
    let prefix = match &flow.provider {
        Some(ProviderId::Codex) => "openai-codex",
        Some(ProviderId::Anthropic) => "anthropic",
        Some(ProviderId::OpenAi) => "openai",
        Some(ProviderId::Compatible(name)) => name.as_str(),
        _ => "",
    };
    cat3(prefix, ":", flow.model.as_str())
}

/// The last step: what the connection is used for.
#[verifier::opaque]
pub open spec fn review_menu(flow: FlowModel) -> PickerModel {
    let description = flow.provider_label + " · "@ + qualified(flow);
    PickerModel {
        title: "Review connection"@,
        hint: "↑/↓ move  Enter save  Esc back"@,
        items: seq![
            choice(
                "Save and use as default"@,
                description,
                ActionModel::ConnectActivation(ConnectionActivation::Default),
            ),
            choice(
                "Save and use this session"@,
                description,
                ActionModel::ConnectActivation(ConnectionActivation::Session),
            ),
            choice(
                "Save connection only"@,
                description,
                ActionModel::ConnectActivation(ConnectionActivation::ConnectionOnly),
            ),
        ],
        selected: 0,
        editing: None,
        parent: Some(
            ActionModel::ConnectBack(
                if is_compatible(flow.provider) {
                    ConnectStep::Reasoning
                } else {
                    ConnectStep::Models
                },
            ),
        ),
    }
}

fn review_picker(flow: &ConnectFlow) -> (r: Picker)
    ensures
        r@ == review_menu(flow@),
{
    proof {
        reveal(review_menu);
    }
    let description = cat3(
        flow.provider_label.as_str(),
        " · ",
        qualified_model(flow).as_str(),
    );
    let mut items: Vec<PickerItem> = Vec::new();
    offer(
        &mut items,
        "Save and use as default",
        description.as_str(),
        PickerAction::ConnectActivation(ConnectionActivation::Default),
    );
    offer(
        &mut items,
        "Save and use this session",
        description.as_str(),
        PickerAction::ConnectActivation(ConnectionActivation::Session),
    );
    offer(
        &mut items,
        "Save connection only",
        description.as_str(),
        PickerAction::ConnectActivation(ConnectionActivation::ConnectionOnly),
    );
    assert(views(items@) =~= review_menu(flow@).items);
    let back = if has_levels(&flow.provider) {
        ConnectStep::Reasoning
    } else {
        ConnectStep::Models
    };
    Picker {
        title: "Review connection".to_owned(),
        hint: "↑/↓ move  Enter save  Esc back".to_owned(),
        items,
        selected: 0,
        editing: None,
        parent: Some(PickerAction::ConnectBack(back)),
    }
}

// ---------------------------------------------------------------------------
// Steps

/// The models of a provider are asked for.
pub open spec fn discovering(flow: FlowModel) -> MovedModel {
    match flow.provider {
        None => MovedModel { flow, picker: None, notice: None, work: WorkModel::Nothing },
        Some(provider) => MovedModel {
            flow: FlowModel {
                step: ConnectStep::Discovery,
                job: Some(ConnectJob::Discovery),
                ..flow
            },
            picker: Some(
                waiting_menu(
                    "Discovering models"@,
                    "Testing "@ + flow.provider_label + " in the background"@,
                ),
            ),
            notice: None,
            work: WorkModel::Discover {
                provider,
                endpoint: flow.endpoint,
                credential: flow.credential,
            },
        },
    }
}

fn start_discovery(flow: ConnectFlow) -> (r: Moved)
    ensures
        r@ == discovering(flow@),
{
    let mut flow = flow;
    let provider = match &flow.provider {
        None => {
            return Moved { flow, picker: None, notice: None, work: ConnectWork::Nothing };
        },
        Some(provider) => provider.clone(),
    };
    let endpoint = flow.endpoint.clone();
    let credential = flow.credential.clone();
    flow.step = ConnectStep::Discovery;
    flow.job = Some(ConnectJob::Discovery);
    let text = cat3("Testing ", flow.provider_label.as_str(), " in the background");
    Moved {
        flow,
        picker: Some(waiting_picker("Discovering models", text.as_str())),
        notice: None,
        work: ConnectWork::Discover { provider, endpoint, credential },
    }
}

/// A login is begun.
pub open spec fn logging_in(flow: FlowModel) -> MovedModel {
    MovedModel {
        flow: FlowModel { step: ConnectStep::Login, job: Some(ConnectJob::Login), ..flow },
        picker: Some(
            waiting_menu("OpenAI Codex login"@, "Starting device authentication…"@),
        ),
        notice: None,
        work: WorkModel::Login,
    }
}

fn start_login(flow: ConnectFlow) -> (r: Moved)
    ensures
        r@ == logging_in(flow@),
{
    let mut flow = flow;
    flow.step = ConnectStep::Login;
    flow.job = Some(ConnectJob::Login);
    Moved {
        flow,
        picker: Some(
            waiting_picker("OpenAI Codex login", "Starting device authentication…"),
        ),
        notice: None,
        work: ConnectWork::Login,
    }
}

pub open spec fn with_models(flow: FlowModel, models: Seq<Seq<char>>) -> FlowModel {
    FlowModel { step: ConnectStep::Models, models, ..flow }
}

fn show_models(flow: ConnectFlow, models: Vec<String>) -> (r: Moved)
    ensures
        r@ == shows(
            with_models(flow@, views(models@)),
            models_menu(with_models(flow@, views(models@))),
        ),
{
    proof {
        reveal(models_menu);
    }
    let mut flow = flow;
    flow.step = ConnectStep::Models;
    flow.models = models;
    let picker = models_picker(&flow);
    show(flow, picker)
}

pub open spec fn with_provider(flow: FlowModel, provider: ProviderModel) -> FlowModel {
    FlowModel { provider_label: label_of(provider), provider: Some(provider), ..flow }
}

/// A provider was chosen. `codex` holds the models of the Codex account where
/// one is logged in.
#[verifier::opaque]
pub open spec fn chosen_provider(
    flow: FlowModel,
    provider: ProviderModel,
    codex: Option<Seq<Seq<char>>>,
) -> MovedModel {
    match provider {
        ProviderModel::Other => shows(
            FlowModel { step: ConnectStep::ProviderName, ..flow },
            name_menu(""@),
        ),
        ProviderModel::Codex => match codex {
            Some(models) => {
                let now = with_models(with_provider(flow, provider), models);
                shows(now, models_menu(now))
            },
            None => logging_in(with_provider(flow, provider)),
        },
        _ => {
            let endpoint = proposed_endpoint(flow.catalog, provider);
            shows(
                FlowModel {
                    endpoint,
                    step: ConnectStep::Endpoint,
                    ..with_provider(flow, provider)
                },
                endpoint_menu(label_of(provider), endpoint, ConnectStep::Provider),
            )
        },
    }
}

/// The models of an account, where one is logged in.
pub open spec fn models_of(codex: Option<Vec<String>>) -> Option<Seq<Seq<char>>> {
    match codex {
        Some(models) => Some(views(models@)),
        None => None,
    }
}

fn choose_provider(flow: ConnectFlow, provider: ProviderId, codex: &Option<Vec<String>>) -> (r: Moved)
    ensures
        r@ == chosen_provider(flow@, provider@, models_of(*codex)),
{
    proof {
        reveal(chosen_provider);
    }
    let mut flow = flow;
    match &provider {
        ProviderId::Other => {
            flow.step = ConnectStep::ProviderName;
            return show(flow, name_picker(""));
        },
        _ => {},
    }
    let label = provider_label(&provider);
    flow.provider_label = label.clone();
    match &provider {
        ProviderId::Codex => {
            flow.provider = Some(provider);
            match codex {
                Some(models) => show_models(flow, copy_all(models)),
                None => start_login(flow),
            }
        },
        _ => {
            let endpoint = propose_endpoint(&flow.catalog, &provider);
            flow.provider = Some(provider);
            flow.endpoint = endpoint.clone();
            flow.step = ConnectStep::Endpoint;
            show(flow, endpoint_picker(label.as_str(), endpoint.as_str(), ConnectStep::Provider))
        },
    }
}

pub open spec fn all_accepted() -> Seq<bool> {
    Seq::new(7, |i: int| true)
}

/// A model was chosen: a compatible one is asked which levels it accepts, at
/// first all of them.
pub open spec fn chosen_model(flow: FlowModel, model: Seq<char>) -> MovedModel {
    if is_compatible(flow.provider) {
        let now = FlowModel {
            model,
            accepted: all_accepted(),
            step: ConnectStep::Reasoning,
            ..flow
        };
        shows(now, levels_menu(now, 0))
    } else {
        let now = FlowModel { model, step: ConnectStep::Review, ..flow };
        shows(now, review_menu(now))
    }
}

fn choose_model(flow: ConnectFlow, model: String) -> (r: Moved)
    ensures
        r@ == chosen_model(flow@, model@),
{
    let mut flow = flow;
    flow.model = model;
    if has_levels(&flow.provider) {
        flow.accepted = vec![true, true, true, true, true, true, true];
        assert(flow.accepted@ =~= all_accepted());
        flow.step = ConnectStep::Reasoning;
        let picker = levels_picker(&flow, 0);
        show(flow, picker)
    } else {
        flow.step = ConnectStep::Review;
        let picker = review_picker(&flow);
        show(flow, picker)
    }
}

pub open spec fn toggled(accepted: Seq<bool>, i: int) -> Seq<bool> {
    if 0 <= i < accepted.len() {
        accepted.update(i, !accepted[i])
    } else {
        accepted
    }
}

/// The variable that a text names, with or without a dollar sign.
pub open spec fn named_variable(value: Seq<char>) -> Seq<char> {
    without_leading(trimmed(value), '$')
}

/// A value was typed in.
#[verifier::opaque]
pub open spec fn edited(
    flow: FlowModel,
    field: ConnectEditField,
    value: Seq<char>,
    codex: Option<Seq<Seq<char>>>,
) -> MovedModel {
    match field {
        ConnectEditField::ProviderName => if is_provider_name(value) {
            chosen_provider(flow, ProviderModel::Compatible(value), codex)
        } else {
            says(
                flow,
                name_menu(value),
                "A provider name consists of letters, numbers, '-' or '_'."@,
            )
        },
        ConnectEditField::Endpoint => if !starts(value, "http://"@) && !starts(
            value,
            "https://"@,
        ) {
            says(
                flow,
                endpoint_menu(flow.provider_label, value, ConnectStep::Endpoint),
                "The endpoint must start with http:// or https://."@,
            )
        } else {
            let now = FlowModel {
                endpoint: value,
                step: ConnectStep::Authentication,
                ..flow
            };
            shows(now, authentication_menu(now))
        },
        ConnectEditField::Environment => {
            let name = named_variable(value);
            if is_variable(name) {
                discovering(FlowModel { credential: CredentialModel::Environment(name), ..flow })
            } else {
                says(
                    flow,
                    environment_menu(name),
                    "An environment variable consists of letters, numbers, and '_'."@,
                )
            }
        },
        ConnectEditField::Secret => if value.len() == 0 {
            says(flow, secret_menu(flow.provider_label), "The API key must not be empty."@)
        } else {
            discovering(FlowModel { credential: CredentialModel::Literal(value), ..flow })
        },
        ConnectEditField::Model => if value.len() == 0 {
            says(
                flow,
                manual_model_menu(flow.provider_label),
                "The model ID must not be empty."@,
            )
        } else {
            chosen_model(flow, value)
        },
    }
}

fn apply_edit(
    flow: ConnectFlow,
    field: ConnectEditField,
    value: String,
    codex: &Option<Vec<String>>,
) -> (r: Moved)
    ensures
        r@ == edited(flow@, field, value@, models_of(*codex)),
{
    proof {
        reveal(edited);
    }
    let mut flow = flow;
    let chars = chars_of(value.as_str());
    let n: usize = chars.len();
    match field {
        ConnectEditField::ProviderName => {
            if validate_provider_name(value.as_str()) {
                choose_provider(flow, ProviderId::Compatible(value), codex)
            } else {
                say(
                    flow,
                    name_picker(value.as_str()),
                    "A provider name consists of letters, numbers, '-' or '_'.",
                )
            }
        },
        ConnectEditField::Endpoint => {
            if !begins(&chars, "http://") && !begins(&chars, "https://") {
                let picker = endpoint_picker(
                    flow.provider_label.as_str(),
                    value.as_str(),
                    ConnectStep::Endpoint,
                );
                return say(flow, picker, "The endpoint must start with http:// or https://.");
            }
            flow.endpoint = value;
            flow.step = ConnectStep::Authentication;
            let picker = authentication_picker(&flow);
            show(flow, picker)
        },
        ConnectEditField::Environment => {
            let name = trim_start_matches(&trim(&chars), '$');
            let text = string_of(&name);
            if !validate_environment_name(&name) {
                return say(
                    flow,
                    environment_picker(text.as_str()),
                    "An environment variable consists of letters, numbers, and '_'.",
                );
            }
            flow.credential = CredentialChoice::Environment(text);
            start_discovery(flow)
        },
        ConnectEditField::Secret => {
            if n == 0 {
                let picker = secret_picker(flow.provider_label.as_str());
                return say(flow, picker, "The API key must not be empty.");
            }
            flow.credential = CredentialChoice::Literal(value);
            start_discovery(flow)
        },
        ConnectEditField::Model => {
            if n == 0 {
                let picker = manual_model_picker(flow.provider_label.as_str());
                return say(flow, picker, "The model ID must not be empty.");
            }
            choose_model(flow, value)
        },
    }
}

/// A step back.
pub open spec fn went_back(flow: FlowModel, step: ConnectStep) -> MovedModel {
    let now = FlowModel { step, ..flow };
    shows(
        now,
        match step {
            ConnectStep::Endpoint => endpoint_menu(
                flow.provider_label,
                flow.endpoint,
                ConnectStep::Provider,
            ),
            ConnectStep::Authentication => authentication_menu(now),
            ConnectStep::Models => models_menu(now),
            ConnectStep::Reasoning => levels_menu(now, 0),
            ConnectStep::Recovery => recovery_menu(
                now,
                "Enter a model ID or try discovery again."@,
            ),
            _ => provider_menu(flow.catalog, flow.root_parent),
        },
    )
}

fn go_back(flow: ConnectFlow, step: ConnectStep) -> (r: Moved)
    ensures
        r@ == went_back(flow@, step),
{
    let mut flow = flow;
    flow.step = step;
    let picker = match step {
        ConnectStep::Endpoint => endpoint_picker(
            flow.provider_label.as_str(),
            flow.endpoint.as_str(),
            ConnectStep::Provider,
        ),
        ConnectStep::Authentication => authentication_picker(&flow),
        ConnectStep::Models => models_picker(&flow),
        ConnectStep::Reasoning => levels_picker(&flow, 0),
        ConnectStep::Recovery => recovery_picker(
            &flow,
            "Enter a model ID or try discovery again.",
        ),
        _ => provider_picker(&flow.catalog, &flow.root_parent),
    };
    show(flow, picker)
}

/// The names of the levels that are accepted, of the first `n`.
pub open spec fn accepted_efforts(accepted: Seq<bool>, n: nat) -> Seq<Seq<char>>
    decreases n,
{
    if n == 0 {
        Seq::empty()
    } else {
        let before = accepted_efforts(accepted, (n - 1) as nat);
        if checked(accepted, n - 1) {
            before.push(efforts()[n - 1])
        } else {
            before
        }
    }
}

/// The connection that a setup has led to. A login needs no address.
pub open spec fn planned(flow: FlowModel, activation: ConnectionActivation) -> Option<PlanModel> {
    match flow.provider {
        None => None,
        Some(provider) => Some(
            PlanModel {
                provider,
                endpoint: if provider == ProviderModel::Codex {
                    None
                } else {
                    Some(flow.endpoint)
                },
                credential: flow.credential,
                model: qualified(flow),
                efforts: if is_compatible(flow.provider) {
                    accepted_efforts(flow.accepted, 7)
                } else {
                    Seq::empty()
                },
                activation,
                provider_label: flow.provider_label,
            },
        ),
    }
}

fn build_plan(flow: &ConnectFlow, activation: ConnectionActivation) -> (r: Option<ConnectionPlan>)
    ensures
        option_view(r) == planned(flow@, activation),
{
    let provider = match &flow.provider {
        None => return None,
        Some(provider) => provider.clone(),
    };
    let endpoint = match &provider {
        ProviderId::Codex => None,
        _ => Some(flow.endpoint.clone()),
    };
    let mut names: Vec<String> = Vec::new();
    assert(views(names@) =~= Seq::empty());
    if has_levels(&flow.provider) {
        let mut i: usize = 0;
        while i < 7
            invariant
                i <= 7,
                views(names@) == accepted_efforts(flow@.accepted, i as nat),
            decreases 7 - i,
        {
            if i < flow.accepted.len() && flow.accepted[i] {
                let ghost before = views(names@);
                names.push(effort(i).to_owned());
                assert(views(names@) =~= before.push(efforts()[i as int]));
            }
            i += 1;
        }
    }
    Some(
        ConnectionPlan {
            provider,
            endpoint,
            credential: flow.credential.clone(),
            model: qualified_model(flow),
            efforts: names,
            activation,
            provider_label: flow.provider_label.clone(),
        },
    )
}

// ---------------------------------------------------------------------------
// Actions

/// A setup after an action: it may have ended, and an action may be left to be
/// done elsewhere.
#[derive(Debug)]
pub struct Acted {
    pub flow: Option<ConnectFlow>,
    /// Whether the menu is closed.
    pub closes: bool,
    /// The menu that is shown in place of the one before.
    pub picker: Option<Picker>,
    pub notice: Option<String>,
    pub work: ConnectWork,
    pub action: Option<PickerAction>,
}

pub struct ActedModel {
    pub flow: Option<FlowModel>,
    pub closes: bool,
    pub picker: Option<PickerModel>,
    pub notice: Option<Seq<char>>,
    pub work: WorkModel,
    pub action: Option<ActionModel>,
}

impl View for Acted {
    type V = ActedModel;

    open spec fn view(&self) -> ActedModel {
        ActedModel {
            flow: option_view(self.flow),
            closes: self.closes,
            picker: option_view(self.picker),
            notice: option_view(self.notice),
            work: self.work@,
            action: option_view(self.action),
        }
    }
}

/// The setup goes on.
pub open spec fn goes_on(moved: MovedModel) -> ActedModel {
    ActedModel {
        flow: Some(moved.flow),
        closes: false,
        picker: moved.picker,
        notice: moved.notice,
        work: moved.work,
        action: None,
    }
}

fn go_on(moved: Moved) -> (r: Acted)
    ensures
        r@ == goes_on(moved@),
{
    Acted {
        flow: Some(moved.flow),
        closes: false,
        picker: moved.picker,
        notice: moved.notice,
        work: moved.work,
        action: None,
    }
}

/// The work under way is stopped where there is some.
pub open spec fn stopping(flow: FlowModel) -> WorkModel {
    if flow.job is Some {
        WorkModel::Cancel
    } else {
        WorkModel::Nothing
    }
}

fn stop_work(flow: &ConnectFlow) -> (r: ConnectWork)
    ensures
        r@ == stopping(flow@),
{
    if flow.job.is_some() {
        ConnectWork::Cancel
    } else {
        ConnectWork::Nothing
    }
}

pub open spec fn toggled_level(flow: FlowModel, index: usize) -> MovedModel {
    let now = FlowModel { accepted: toggled(flow.accepted, index as int), ..flow };
    shows(now, levels_menu(now, index))
}

fn toggle_level(flow: ConnectFlow, index: usize) -> (r: Moved)
    ensures
        r@ == toggled_level(flow@, index),
{
    let mut flow = flow;
    if index < flow.accepted.len() {
        let now = !flow.accepted[index];
        flow.accepted.set(index, now);
    }
    let picker = levels_picker(&flow, index);
    show(flow, picker)
}

pub open spec fn reviewing(flow: FlowModel) -> MovedModel {
    let now = FlowModel { step: ConnectStep::Review, ..flow };
    shows(now, review_menu(now))
}

fn review(flow: ConnectFlow) -> (r: Moved)
    ensures
        r@ == reviewing(flow@),
{
    let mut flow = flow;
    flow.step = ConnectStep::Review;
    let picker = review_picker(&flow);
    show(flow, picker)
}

pub open spec fn retrying(flow: FlowModel) -> MovedModel {
    if flow.provider == Some(ProviderModel::Codex) {
        logging_in(flow)
    } else {
        discovering(flow)
    }
}

fn retry(flow: ConnectFlow) -> (r: Moved)
    ensures
        r@ == retrying(flow@),
{
    let codex_login = match &flow.provider {
        Some(ProviderId::Codex) => true,
        _ => false,
    };
    if codex_login {
        start_login(flow)
    } else {
        start_discovery(flow)
    }
}

/// The choice of a provider again, without the work under way.
pub open spec fn starting_over(flow: FlowModel) -> MovedModel {
    MovedModel {
        work: stopping(flow),
        ..shows(
            FlowModel { job: None, step: ConnectStep::Provider, ..flow },
            provider_menu(flow.catalog, flow.root_parent),
        )
    }
}

fn start_over(flow: ConnectFlow) -> (r: Moved)
    ensures
        r@ == starting_over(flow@),
{
    let mut flow = flow;
    let work = stop_work(&flow);
    flow.job = None;
    flow.step = ConnectStep::Provider;
    let picker = provider_picker(&flow.catalog, &flow.root_parent);
    Moved { flow, picker: Some(picker), notice: None, work }
}

pub open spec fn activated(flow: FlowModel, activation: ConnectionActivation) -> ActedModel {
    match planned(flow, activation) {
        Some(plan) => ActedModel {
            flow: None,
            closes: true,
            picker: None,
            notice: None,
            work: WorkModel::Nothing,
            action: Some(ActionModel::ApplyConnectionPlan(plan)),
        },
        None => goes_on(
            says(
                flow,
                review_menu(flow),
                "Could not prepare connection: provider is not selected"@,
            ),
        ),
    }
}

fn activate(flow: ConnectFlow, activation: ConnectionActivation) -> (r: Acted)
    ensures
        r@ == activated(flow@, activation),
{
    match build_plan(&flow, activation) {
        Some(plan) => Acted {
            flow: None,
            closes: true,
            picker: None,
            notice: None,
            work: ConnectWork::Nothing,
            action: Some(PickerAction::ApplyConnectionPlan(plan)),
        },
        None => {
            let picker = review_picker(&flow);
            go_on(say(flow, picker, "Could not prepare connection: provider is not selected"))
        },
    }
}

/// A setup after an action.
#[verifier::opaque]
pub open spec fn acted(flow: FlowModel, action: ActionModel, codex: Option<Seq<Seq<char>>>) -> ActedModel {
    match action {
        ActionModel::ConnectChooseProvider(provider) => goes_on(
            chosen_provider(flow, provider, codex),
        ),
        ActionModel::ApplyConnect { field, value } => goes_on(edited(flow, field, value, codex)),
        ActionModel::ConnectCredential(credential) => goes_on(
            discovering(FlowModel { credential, ..flow }),
        ),
        ActionModel::ConnectChooseModel(model) => goes_on(chosen_model(flow, model)),
        ActionModel::ConnectToggleReasoning(index) => goes_on(toggled_level(flow, index)),
        ActionModel::ConnectConfirmReasoning => goes_on(reviewing(flow)),
        ActionModel::ConnectRetry => goes_on(retrying(flow)),
        ActionModel::ConnectCancelJob => goes_on(starting_over(flow)),
        ActionModel::CloseConnect => ActedModel {
            flow: None,
            closes: true,
            picker: None,
            notice: None,
            work: stopping(flow),
            action: flow.root_parent,
        },
        ActionModel::ConnectBack(step) => goes_on(went_back(flow, step)),
        ActionModel::ConnectActivation(activation) => activated(flow, activation),
        ActionModel::OpenSettingsCategory { category, selected } => ActedModel {
            flow: None,
            closes: false,
            picker: None,
            notice: None,
            work: stopping(flow),
            action: Some(action),
        },
        ActionModel::OpenSettingsRoot { selected } => ActedModel {
            flow: None,
            closes: false,
            picker: None,
            notice: None,
            work: stopping(flow),
            action: Some(action),
        },
        _ => ActedModel {
            flow: Some(flow),
            closes: false,
            picker: None,
            notice: None,
            work: WorkModel::Nothing,
            action: Some(action),
        },
    }
}

fn leave(flow: ConnectFlow, action: PickerAction) -> (r: Acted)
    ensures
        r@ == (ActedModel {
            flow: None,
            closes: false,
            picker: None,
            notice: None,
            work: stopping(flow@),
            action: Some(action@),
        }),
{
    let work = stop_work(&flow);
    Acted { flow: None, closes: false, picker: None, notice: None, work, action: Some(action) }
}

/// Performs an action of a setup; see `acted`. `codex` holds the models of the
/// Codex account where one is logged in.
#[verifier::rlimit(40)]
pub fn act(flow: ConnectFlow, action: PickerAction, codex: &Option<Vec<String>>) -> (r: Acted)
    ensures
        r@ == acted(flow@, action@, models_of(*codex)),
{
    proof {
        reveal(acted);
    }
    let mut flow = flow;
    match action {
        PickerAction::ConnectChooseProvider(provider) => go_on(
            choose_provider(flow, provider, codex),
        ),
        PickerAction::ApplyConnect { field, value } => go_on(apply_edit(flow, field, value, codex)),
        PickerAction::ConnectCredential(credential) => {
            flow.credential = credential;
            go_on(start_discovery(flow))
        },
        PickerAction::ConnectChooseModel(model) => go_on(choose_model(flow, model)),
        PickerAction::ConnectToggleReasoning(index) => go_on(toggle_level(flow, index)),
        PickerAction::ConnectConfirmReasoning => go_on(review(flow)),
        PickerAction::ConnectRetry => go_on(retry(flow)),
        PickerAction::ConnectCancelJob => go_on(start_over(flow)),
        PickerAction::CloseConnect => {
            let work = stop_work(&flow);
            Acted {
                flow: None,
                closes: true,
                picker: None,
                notice: None,
                work,
                action: flow.root_parent,
            }
        },
        PickerAction::ConnectBack(step) => go_on(go_back(flow, step)),
        PickerAction::ConnectActivation(activation) => activate(flow, activation),
        PickerAction::OpenSettingsCategory { category, selected } => leave(
            flow,
            PickerAction::OpenSettingsCategory { category, selected },
        ),
        PickerAction::OpenSettingsRoot { selected } => leave(
            flow,
            PickerAction::OpenSettingsRoot { selected },
        ),
        action => Acted {
            flow: Some(flow),
            closes: false,
            picker: None,
            notice: None,
            work: ConnectWork::Nothing,
            action: Some(action),
        },
    }
}

// ---------------------------------------------------------------------------
// The work in the background

pub open spec fn recovering(flow: FlowModel, message: Seq<char>) -> MovedModel {
    let now = FlowModel { job: None, step: ConnectStep::Recovery, ..flow };
    shows(now, recovery_menu(now, message))
}

fn show_recovery(flow: ConnectFlow, message: &str) -> (r: Moved)
    ensures
        r@ == recovering(flow@, message@),
{
    let mut flow = flow;
    flow.job = None;
    flow.step = ConnectStep::Recovery;
    let picker = recovery_picker(&flow, message);
    show(flow, picker)
}

/// A setup after news of the work under way, where they change it.
#[verifier::opaque]
pub open spec fn polled(flow: FlowModel, news: ConnectNews) -> Option<MovedModel> {
    if flow.job is None {
        None
    } else {
        match news {
            ConnectNews::Quiet => None,
            ConnectNews::Discovered(models) => if models.len() == 0 {
                Some(recovering(flow, "The provider returned no models."@))
            } else {
                let now = with_models(FlowModel { job: None, ..flow }, models);
                Some(shows(now, models_menu(now)))
            },
            ConnectNews::Undiscovered => Some(
                recovering(flow, "Yawl could not list models from this endpoint."@),
            ),
            ConnectNews::LoginPrompt { url, code, browser_error } => Some(
                shows(flow, login_menu(url, code, browser_error)),
            ),
            ConnectNews::LoggedIn(models) => {
                let now = with_models(FlowModel { job: None, ..flow }, models);
                Some(shows(now, models_menu(now)))
            },
            ConnectNews::LoginFailed => Some(
                recovering(flow, "OpenAI Codex login did not complete."@),
            ),
        }
    }
}

/// Takes news of the work under way; see `polled`. The setup comes back
/// unchanged where they change nothing.
pub fn take_news(flow: ConnectFlow, event: ConnectEvent) -> (r: Result<Moved, ConnectFlow>)
    ensures
        match r {
            Ok(moved) => polled(flow@, event@) == Some(moved@),
            Err(same) => polled(flow@, event@) is None && same@ == flow@,
        },
{
    proof {
        reveal(polled);
    }
    let mut flow = flow;
    if flow.job.is_none() {
        return Err(flow);
    }
    match event {
        ConnectEvent::Quiet => Err(flow),
        ConnectEvent::Discovered(models) => {
            let n: usize = models.len();
            assert(views(models@).len() == n);
            if n == 0 {
                Ok(show_recovery(flow, "The provider returned no models."))
            } else {
                flow.job = None;
                Ok(show_models(flow, models))
            }
        },
        ConnectEvent::Undiscovered => Ok(
            show_recovery(flow, "Yawl could not list models from this endpoint."),
        ),
        ConnectEvent::LoginPrompt { url, code, browser_error } => {
            let picker = login_prompt_picker(url.as_str(), code.as_str(), &browser_error);
            Ok(show(flow, picker))
        },
        ConnectEvent::LoggedIn(models) => {
            flow.job = None;
            Ok(show_models(flow, models))
        },
        ConnectEvent::LoginFailed => Ok(
            show_recovery(flow, "OpenAI Codex login did not complete."),
        ),
    }
}

// ---------------------------------------------------------------------------
// The beginning

/// Where a setup that was begun in the settings leads back to.
pub open spec fn way_out(from_settings: bool) -> Option<ActionModel> {
    if from_settings {
        Some(
            ActionModel::OpenSettingsCategory {
                category: SettingsCategory::Providers,
                selected: 0,
            },
        )
    } else {
        None
    }
}

/// A setup at its beginning.
pub open spec fn fresh_flow(catalog: Seq<DefinitionModel>, from_settings: bool) -> FlowModel {
    FlowModel {
        catalog,
        step: ConnectStep::Provider,
        provider: None,
        provider_label: ""@,
        endpoint: ""@,
        credential: CredentialModel::Keep,
        model: ""@,
        models: Seq::empty(),
        accepted: all_accepted(),
        job: None,
        root_parent: way_out(from_settings),
    }
}

/// Begins a setup with the choice of a provider.
pub fn begin(catalog: Vec<ProviderDefinition>, from_settings: bool) -> (r: (ConnectFlow, Picker))
    ensures
        r.0@ == fresh_flow(views(catalog@), from_settings),
        r.1@ == provider_menu(views(catalog@), way_out(from_settings)),
{
    proof {
        reveal(provider_menu);
    }
    let root_parent = if from_settings {
        Some(
            PickerAction::OpenSettingsCategory {
                category: SettingsCategory::Providers,
                selected: 0,
            },
        )
    } else {
        None
    };
    let picker = provider_picker(&catalog, &root_parent);
    let models: Vec<String> = Vec::new();
    let accepted = vec![true, true, true, true, true, true, true];
    assert(views(models@) =~= Seq::empty());
    assert(accepted@ =~= all_accepted());
    let flow = ConnectFlow {
        catalog,
        step: ConnectStep::Provider,
        provider: None,
        provider_label: "".to_owned(),
        endpoint: "".to_owned(),
        credential: CredentialChoice::Keep,
        model: "".to_owned(),
        models,
        accepted,
        job: None,
        root_parent,
    };
    (flow, picker)
}

// ---------------------------------------------------------------------------
// Laws

/// Toggling a level twice leaves the setup as it was.
pub proof fn toggling_twice_changes_nothing(
    flow: FlowModel,
    index: usize,
    codex: Option<Seq<Seq<char>>>,
)
    ensures
        ({
            let action = ActionModel::ConnectToggleReasoning(index);
            let once = acted(flow, action, codex).flow->0;
            acted(once, action, codex).flow == Some(flow)
        }),
{
    reveal(acted);
    assert(toggled(toggled(flow.accepted, index as int), index as int) =~= flow.accepted);
}

/// The level that is toggled stays selected, and it alone changes.
pub proof fn toggling_changes_one_level(
    flow: FlowModel,
    index: usize,
    i: int,
    codex: Option<Seq<Seq<char>>>,
)
    requires
        flow.accepted.len() == 7,
        index < 7,
        0 <= i < 7,
    ensures
        ({
            let now = acted(flow, ActionModel::ConnectToggleReasoning(index), codex);
            &&& now.picker is Some && now.picker->0.selected == index
            &&& checked(now.flow->0.accepted, i) == (checked(flow.accepted, i) != (i == index))
        }),
{
    reveal(levels_menu);
    reveal(acted);
}

/// A connection is planned with the address, the key and the model that the
/// setup holds, and the setup ends with it.
pub proof fn plan_holds_what_was_chosen(
    flow: FlowModel,
    activation: ConnectionActivation,
    codex: Option<Seq<Seq<char>>>,
)
    requires
        flow.provider is Some,
        flow.provider != Some(ProviderModel::Codex),
    ensures
        ({
            let done = acted(flow, ActionModel::ConnectActivation(activation), codex);
            &&& done.flow is None && done.closes
            &&& done.action matches Some(ActionModel::ApplyConnectionPlan(plan))
                && plan.endpoint == Some(flow.endpoint) && plan.credential == flow.credential
                && plan.model == qualified(flow) && plan.activation == activation
        }),
{
    reveal(acted);
}

/// No address but one of the web is ever taken.
pub proof fn addresses_are_of_the_web(
    flow: FlowModel,
    value: Seq<char>,
    codex: Option<Seq<Seq<char>>>,
)
    requires
        !starts(value, "http://"@),
        !starts(value, "https://"@),
    ensures
        ({
            let now = acted(
                flow,
                ActionModel::ApplyConnect { field: ConnectEditField::Endpoint, value },
                codex,
            );
            now.flow == Some(flow) && now.notice is Some && now.work == WorkModel::Nothing
        }),
{
    reveal(edited);
    reveal(acted);
}

/// A key that is typed in is not proposed again, and it is masked.
pub proof fn keys_are_not_shown(
    flow: FlowModel,
    codex: Option<Seq<Seq<char>>>,
)
    ensures
        ({
            let action = ActionModel::ApplyConnect {
                field: ConnectEditField::Secret,
                value: ""@,
            };
            acted(flow, action, codex).picker matches Some(menu) ==> menu.chosen() == Some(
                ActionModel::EditConnect {
                    field: ConnectEditField::Secret,
                    initial: ""@,
                    secret: true,
                },
            )
        }),
{
    reveal(edited);
    reveal(edit_menu);
    reveal(acted);
    reveal_strlit("");
}

/// Leaving the setup stops the work that is under way.
pub proof fn leaving_stops_the_work(flow: FlowModel, codex: Option<Seq<Seq<char>>>)
    requires
        flow.job is Some,
    ensures
        acted(flow, ActionModel::CloseConnect, codex).work == WorkModel::Cancel,
        acted(flow, ActionModel::ConnectCancelJob, codex).work == WorkModel::Cancel,
        acted(flow, ActionModel::ConnectCancelJob, codex).flow->0.job is None,
{
    reveal(acted);
}

} // verus!
