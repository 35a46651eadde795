//! The menus of the settings.

use vstd::prelude::*;
use crate::config::{Config, ConfigModel, KeySource, WebSearchProvider};
use crate::model::{
    first_position, first_position_finds, first_position_is, no_first_position, views,
};
use crate::rows::{at_most, minus, smaller};
use crate::settings::{color_text, selection_text};
use crate::style::{background, background_color, white_color, UiColor};
use crate::text::{cat2, cat3, count_of, decimal, decimal_of};
use super::{choice, offer, ItemModel, Picker, PickerItem, PickerModel};
use super::action::{
    ActionModel, DefinitionModel, PickerAction, ProviderDefinition, ProviderId, ProviderModel,
    SettingsCategory, SettingsItem, SettingsLocation,
};

verus! {

broadcast use vstd::string::group_string_axioms;

// ---------------------------------------------------------------------------
// The pages

/// The pages in the order in which they are listed.
pub open spec fn categories() -> Seq<SettingsCategory> {
    seq![
        SettingsCategory::Model,
        SettingsCategory::Interface,
        SettingsCategory::Context,
        SettingsCategory::Providers,
        SettingsCategory::Web,
        SettingsCategory::Subagents,
        SettingsCategory::Skills,
        SettingsCategory::Advanced,
    ]
}

impl SettingsCategory {
    pub fn all() -> (r: Vec<SettingsCategory>)
        ensures
            r@ == categories(),
    {
        let r = vec![
            SettingsCategory::Model,
            SettingsCategory::Interface,
            SettingsCategory::Context,
            SettingsCategory::Providers,
            SettingsCategory::Web,
            SettingsCategory::Subagents,
            SettingsCategory::Skills,
            SettingsCategory::Advanced,
        ];
        assert(r@ =~= categories());
        r
    }

    pub open spec fn name(self) -> Seq<char> {
        match self {
            SettingsCategory::Model => "Model"@,
            SettingsCategory::Interface => "Interface"@,
            SettingsCategory::Context => "Context"@,
            SettingsCategory::Providers => "Providers"@,
            SettingsCategory::Web => "Web"@,
            SettingsCategory::Subagents => "Subagents"@,
            SettingsCategory::Skills => "Skills"@,
            SettingsCategory::Advanced => "Advanced"@,
        }
    }

    pub fn title(self) -> (r: &'static str)
        ensures
            r@ == self.name(),
    {
        match self {
            SettingsCategory::Model => "Model",
            SettingsCategory::Interface => "Interface",
            SettingsCategory::Context => "Context",
            SettingsCategory::Providers => "Providers",
            SettingsCategory::Web => "Web",
            SettingsCategory::Subagents => "Subagents",
            SettingsCategory::Skills => "Skills",
            SettingsCategory::Advanced => "Advanced",
        }
    }

    pub open spec fn summary(self) -> Seq<char> {
        match self {
            SettingsCategory::Model => "Default model, output, and reasoning"@,
            SettingsCategory::Interface => "Colors, reasoning display, scroll bar, and bell"@,
            SettingsCategory::Context => "Compaction and context windows"@,
            SettingsCategory::Providers => "Add or update model providers"@,
            SettingsCategory::Web => "Browsing, search source, fetch limit, and keys"@,
            SettingsCategory::Subagents => "Concurrency, models, budgets, and timeouts"@,
            SettingsCategory::Skills => "Search directories for reusable skills"@,
            SettingsCategory::Advanced => "Reload and inspect configuration"@,
        }
    }

    pub fn description(self) -> (r: &'static str)
        ensures
            r@ == self.summary(),
    {
        match self {
            SettingsCategory::Model => "Default model, output, and reasoning",
            SettingsCategory::Interface => "Colors, reasoning display, scroll bar, and bell",
            SettingsCategory::Context => "Compaction and context windows",
            SettingsCategory::Providers => "Add or update model providers",
            SettingsCategory::Web => "Browsing, search source, fetch limit, and keys",
            SettingsCategory::Subagents => "Concurrency, models, budgets, and timeouts",
            SettingsCategory::Skills => "Search directories for reusable skills",
            SettingsCategory::Advanced => "Reload and inspect configuration",
        }
    }

    pub open spec fn position(self) -> usize {
        match self {
            SettingsCategory::Model => 0,
            SettingsCategory::Interface => 1,
            SettingsCategory::Context => 2,
            SettingsCategory::Providers => 3,
            SettingsCategory::Web => 4,
            SettingsCategory::Subagents => 5,
            SettingsCategory::Skills => 6,
            SettingsCategory::Advanced => 7,
        }
    }

    /// The place of a page in the list of pages.
    pub fn index(self) -> (r: usize)
        ensures
            r == self.position(),
            categories()[r as int] == self,
    {
        match self {
            SettingsCategory::Model => 0,
            SettingsCategory::Interface => 1,
            SettingsCategory::Context => 2,
            SettingsCategory::Providers => 3,
            SettingsCategory::Web => 4,
            SettingsCategory::Subagents => 5,
            SettingsCategory::Skills => 6,
            SettingsCategory::Advanced => 7,
        }
    }
}

/// The list of the pages.
#[verifier::opaque]
pub open spec fn root_menu() -> PickerModel {
    PickerModel {
        title: "Settings"@,
        hint: "↑/↓ move  Enter open  Esc close"@,
        items: Seq::new(
            8,
            |i: int|
                choice(
                    categories()[i].name(),
                    categories()[i].summary(),
                    ActionModel::OpenSettingsCategory { category: categories()[i], selected: 0 },
                ),
        ),
        selected: 0,
        editing: None,
        parent: None,
    }
}

pub fn settings_picker() -> (r: Picker)
    ensures
        r@ == root_menu(),
{
    proof {
        reveal(root_menu);
    }
    let pages = SettingsCategory::all();
    let mut items: Vec<PickerItem> = Vec::new();
    let mut i: usize = 0;
    assert(views(items@) =~= root_menu().items.take(0));
    while i < 8
        invariant
            i <= 8,
            pages@ == categories(),
            views(items@) == root_menu().items.take(i as int),
        decreases 8 - i,
    {
        proof {
            reveal(root_menu);
        }
        let category = pages[i];
        offer(
            &mut items,
            category.title(),
            category.description(),
            PickerAction::OpenSettingsCategory { category, selected: 0 },
        );
        i += 1;
        assert(views(items@) =~= root_menu().items.take(i as int));
    }
    assert(root_menu().items.take(8) =~= root_menu().items);
    Picker {
        title: "Settings".to_owned(),
        hint: "↑/↓ move  Enter open  Esc close".to_owned(),
        items,
        selected: 0,
        editing: None,
        parent: None,
    }
}

// ---------------------------------------------------------------------------
// The places of the settings

/// The settings of a page in the order in which they are listed.
pub open spec fn page_items(category: SettingsCategory) -> Seq<SettingsItem> {
    match category {
        SettingsCategory::Model => seq![
            SettingsItem::DefaultModel,
            SettingsItem::MaxOutputTokens,
            SettingsItem::ReasoningEffort,
        ],
        SettingsCategory::Interface => seq![
            SettingsItem::ReasoningDisplay,
            SettingsItem::AccentColor,
            SettingsItem::SelectionColor,
            SettingsItem::StatusBar,
            SettingsItem::ScrollBar,
            SettingsItem::ScrollBarAutoHide,
            SettingsItem::Bell,
        ],
        SettingsCategory::Context => seq![
            SettingsItem::AutoCompact,
            SettingsItem::CompactThreshold,
            SettingsItem::ContextWindow,
        ],
        SettingsCategory::Providers => seq![SettingsItem::ProviderSetup],
        SettingsCategory::Web => seq![
            SettingsItem::WebBrowsingEnabled,
            SettingsItem::WebSearchProvider,
            SettingsItem::WebFetchMaxChars,
            SettingsItem::BraveApiKey,
            SettingsItem::FirecrawlApiKey,
        ],
        SettingsCategory::Subagents => seq![
            SettingsItem::SubagentsEnabled,
            SettingsItem::MaxSubagents,
            SettingsItem::SubagentModel,
            SettingsItem::SubagentRequestBudget,
            SettingsItem::SubagentTimeout,
        ],
        SettingsCategory::Skills => seq![SettingsItem::AddSkillDirectory],
        SettingsCategory::Advanced => seq![
            SettingsItem::Reload,
            SettingsItem::ConfigurationDetails,
        ],
    }
}

fn settings_items(category: SettingsCategory) -> (r: Vec<SettingsItem>)
    ensures
        r@ == page_items(category),
{
    let r = match category {
        SettingsCategory::Model => vec![
            SettingsItem::DefaultModel,
            SettingsItem::MaxOutputTokens,
            SettingsItem::ReasoningEffort,
        ],
        SettingsCategory::Interface => vec![
            SettingsItem::ReasoningDisplay,
            SettingsItem::AccentColor,
            SettingsItem::SelectionColor,
            SettingsItem::StatusBar,
            SettingsItem::ScrollBar,
            SettingsItem::ScrollBarAutoHide,
            SettingsItem::Bell,
        ],
        SettingsCategory::Context => vec![
            SettingsItem::AutoCompact,
            SettingsItem::CompactThreshold,
            SettingsItem::ContextWindow,
        ],
        SettingsCategory::Providers => vec![SettingsItem::ProviderSetup],
        SettingsCategory::Web => vec![
            SettingsItem::WebBrowsingEnabled,
            SettingsItem::WebSearchProvider,
            SettingsItem::WebFetchMaxChars,
            SettingsItem::BraveApiKey,
            SettingsItem::FirecrawlApiKey,
        ],
        SettingsCategory::Subagents => vec![
            SettingsItem::SubagentsEnabled,
            SettingsItem::MaxSubagents,
            SettingsItem::SubagentModel,
            SettingsItem::SubagentRequestBudget,
            SettingsItem::SubagentTimeout,
        ],
        SettingsCategory::Skills => vec![SettingsItem::AddSkillDirectory],
        SettingsCategory::Advanced => vec![
            SettingsItem::Reload,
            SettingsItem::ConfigurationDetails,
        ],
    };
    assert(r@ =~= page_items(category));
    r
}

pub open spec fn is_item(item: SettingsItem) -> spec_fn(SettingsItem) -> bool {
    |candidate: SettingsItem| candidate == item
}

/// The place of a setting on a page; the first one where it is not there.
pub open spec fn item_index(category: SettingsCategory, item: SettingsItem) -> usize {
    match first_position(page_items(category), is_item(item)) {
        Some(i) => i as usize,
        None => 0,
    }
}

pub fn settings_item_index(category: SettingsCategory, item: SettingsItem) -> (r: usize)
    ensures
        r == item_index(category, item),
{
    let items = settings_items(category);
    let ghost wanted = is_item(item);
    let mut i: usize = 0;
    while i < items.len()
        invariant
            i <= items@.len(),
            items@ == page_items(category),
            wanted == is_item(item),
            forall|k: int| 0 <= k < i ==> !wanted(#[trigger] items@[k]),
        decreases items@.len() - i,
    {
        if items[i] == item {
            proof {
                first_position_is(items@, wanted, i as int);
            }
            return i;
        }
        i += 1;
    }
    proof {
        no_first_position(items@, wanted);
    }
    0
}

pub open spec fn at(category: SettingsCategory, item: SettingsItem) -> Option<SettingsLocation> {
    Some(SettingsLocation { category, item })
}

fn location(category: SettingsCategory, item: SettingsItem) -> (r: Option<SettingsLocation>)
    ensures
        r == at(category, item),
{
    Some(SettingsLocation { category, item })
}

/// The way back to a setting.
pub open spec fn back_to(category: SettingsCategory, item: SettingsItem) -> ActionModel {
    ActionModel::OpenSettingsCategory { category, selected: item_index(category, item) }
}

pub(crate) fn go_back_to(category: SettingsCategory, item: SettingsItem) -> (r: PickerAction)
    ensures
        r@ == back_to(category, item),
{
    PickerAction::OpenSettingsCategory { category, selected: settings_item_index(category, item) }
}

// ---------------------------------------------------------------------------
// What is said of a setting

pub open spec fn on_off(on: bool) -> Seq<char> {
    if on {
        "On"@
    } else {
        "Off"@
    }
}

fn show_on_off(on: bool) -> (r: &'static str)
    ensures
        r@ == on_off(on),
{
    if on {
        "On"
    } else {
        "Off"
    }
}

pub open spec fn seen(visible: bool) -> Seq<char> {
    if visible {
        "Visible"@
    } else {
        "Hidden"@
    }
}

fn show_seen(visible: bool) -> (r: &'static str)
    ensures
        r@ == seen(visible),
{
    if visible {
        "Visible"
    } else {
        "Hidden"
    }
}

pub open spec fn percent(n: usize) -> Seq<char> {
    decimal(n as nat) + "%"@
}

fn show_percent(n: usize) -> (r: String)
    ensures
        r@ == percent(n),
{
    cat2(count_of(n).as_str(), "%")
}

pub open spec fn default_model(config: ConfigModel, model: Seq<char>) -> Seq<char> {
    match config.model {
        Some(default) => default,
        None => model,
    }
}

fn show_default_model(config: &Config, model: &str) -> (r: String)
    ensures
        r@ == default_model(config@, model@),
{
    match &config.model {
        Some(default) => default.clone(),
        None => model.to_owned(),
    }
}

pub open spec fn effort_or(config: ConfigModel, otherwise: Seq<char>) -> Seq<char> {
    match config.reasoning_effort {
        Some(effort) => effort,
        None => otherwise,
    }
}

fn show_effort(config: &Config, otherwise: &str) -> (r: String)
    ensures
        r@ == effort_or(config@, otherwise@),
{
    match &config.reasoning_effort {
        Some(effort) => effort.clone(),
        None => otherwise.to_owned(),
    }
}

/// How the effort is chosen: Codex models offer a list.
pub open spec fn effort_action(config: ConfigModel, codex: bool) -> ActionModel {
    if codex {
        ActionModel::OpenReasoning { save: true }
    } else {
        ActionModel::EditSetting {
            key: "reasoning_effort"@,
            initial: effort_or(config, "default"@),
            location: at(SettingsCategory::Model, SettingsItem::ReasoningEffort),
        }
    }
}

fn choose_effort(config: &Config, codex: bool) -> (r: PickerAction)
    ensures
        r@ == effort_action(config@, codex),
{
    if codex {
        PickerAction::OpenReasoning { save: true }
    } else {
        PickerAction::EditSetting {
            key: "reasoning_effort".to_owned(),
            initial: show_effort(config, "default"),
            location: location(SettingsCategory::Model, SettingsItem::ReasoningEffort),
        }
    }
}

pub open spec fn key_status(environment: Seq<char>, key: KeySource) -> Seq<char> {
    match key {
        KeySource::Environment => "Set by "@ + environment + " · Enter to edit config fallback"@,
        KeySource::Stored => "Stored in config · Enter to replace or type - to remove"@,
        KeySource::Missing => "Not set · Enter to add"@,
    }
}

fn web_key_status(environment: &str, key: KeySource) -> (r: String)
    ensures
        r@ == key_status(environment@, key),
{
    match key {
        KeySource::Environment => cat3(
            "Set by ",
            environment,
            " · Enter to edit config fallback",
        ),
        KeySource::Stored => "Stored in config · Enter to replace or type - to remove".to_owned(),
        KeySource::Missing => "Not set · Enter to add".to_owned(),
    }
}

pub open spec fn search_label(provider: WebSearchProvider) -> Seq<char> {
    match provider {
        WebSearchProvider::DuckDuckGo => "DuckDuckGo"@,
        WebSearchProvider::Firecrawl => "Firecrawl"@,
        WebSearchProvider::Brave => "Brave"@,
    }
}

pub(crate) fn web_search_provider_label(provider: WebSearchProvider) -> (r: &'static str)
    ensures
        r@ == search_label(provider),
{
    match provider {
        WebSearchProvider::DuckDuckGo => "DuckDuckGo",
        WebSearchProvider::Firecrawl => "Firecrawl",
        WebSearchProvider::Brave => "Brave",
    }
}

// ---------------------------------------------------------------------------
// The settings of the pages

/// The settings of the model.
pub open spec fn model_items(config: ConfigModel, model: Seq<char>, codex: bool) -> Seq<ItemModel> {
    seq![
        choice("Default model"@, default_model(config, model), ActionModel::OpenModels { save: true }),
        choice("Max output tokens"@, decimal(config.max_tokens as nat), ActionModel::EditSetting { key: "max_tokens"@, initial: decimal(config.max_tokens as nat), location: at(SettingsCategory::Model, SettingsItem::MaxOutputTokens) }),
        choice("Codex reasoning effort"@, effort_or(config, "provider default"@), effort_action(config, codex)),
    ]
}

fn list_model_items(config: &Config, model: &str, codex: bool) -> (r: Vec<PickerItem>)
    ensures
        views(r@) == model_items(config@, model@, codex),
{
    let mut items: Vec<PickerItem> = Vec::new();
    offer(&mut items, "Default model", show_default_model(config, model).as_str(), PickerAction::OpenModels { save: true });
    offer(&mut items, "Max output tokens", decimal_of(config.max_tokens as u64).as_str(), PickerAction::EditSetting { key: "max_tokens".to_owned(), initial: decimal_of(config.max_tokens as u64).as_str().to_owned(), location: location(SettingsCategory::Model, SettingsItem::MaxOutputTokens) });
    offer(&mut items, "Codex reasoning effort", show_effort(config, "provider default").as_str(), choose_effort(config, codex));
    assert(views(items@) =~= model_items(config@, model@, codex));
    items
}

/// The settings of the interface.
pub open spec fn interface_items(config: ConfigModel) -> Seq<ItemModel> {
    seq![
        choice("Reasoning display"@, seen(!config.hide_reasoning) + " · Enter to toggle"@, ActionModel::SetHideReasoning(!config.hide_reasoning)),
        choice("Accent color"@, color_text(config.accent_color), ActionModel::OpenAccentColor),
        choice("Selection color"@, selection_text(config.selection_color), ActionModel::OpenSelectionColor),
        choice("Status bar"@, decimal(config.status_bar.items.len()) + " items · Enter to customize"@, ActionModel::OpenStatusBarEditor { selected: 0 }),
        choice("Scroll bar"@, seen(config.scroll_bar) + " · Enter to toggle"@, ActionModel::SetScrollBar(!config.scroll_bar)),
        choice("Auto-hide scroll bar"@, on_off(config.scroll_bar_auto_hide) + " · Enter to toggle"@, ActionModel::SetScrollBarAutoHide(!config.scroll_bar_auto_hide)),
        choice("Bell"@, on_off(config.bell) + " · Enter to toggle"@, ActionModel::SetBell(!config.bell)),
    ]
}

fn list_interface_items(config: &Config) -> (r: Vec<PickerItem>)
    ensures
        views(r@) == interface_items(config@),
{
    let mut items: Vec<PickerItem> = Vec::new();
    offer(&mut items, "Reasoning display", cat2(show_seen(!config.hide_reasoning), " · Enter to toggle").as_str(), PickerAction::SetHideReasoning(!config.hide_reasoning));
    offer(&mut items, "Accent color", config.accent_color.config_value().as_str(), PickerAction::OpenAccentColor);
    offer(&mut items, "Selection color", UiColor::selection_config_value(config.selection_color).as_str(), PickerAction::OpenSelectionColor);
    offer(&mut items, "Status bar", cat2(count_of(config.status_bar.items.len()).as_str(), " items · Enter to customize").as_str(), PickerAction::OpenStatusBarEditor { selected: 0 });
    offer(&mut items, "Scroll bar", cat2(show_seen(config.scroll_bar), " · Enter to toggle").as_str(), PickerAction::SetScrollBar(!config.scroll_bar));
    offer(&mut items, "Auto-hide scroll bar", cat2(show_on_off(config.scroll_bar_auto_hide), " · Enter to toggle").as_str(), PickerAction::SetScrollBarAutoHide(!config.scroll_bar_auto_hide));
    offer(&mut items, "Bell", cat2(show_on_off(config.bell), " · Enter to toggle").as_str(), PickerAction::SetBell(!config.bell));
    assert(views(items@) =~= interface_items(config@));
    items
}

/// The settings of the context.
pub open spec fn context_items(config: ConfigModel, context_window: u64) -> Seq<ItemModel> {
    seq![
        choice("Automatic compaction"@, on_off(config.auto_compact) + " · Enter to toggle"@, ActionModel::SetAutoCompact(!config.auto_compact)),
        choice("Compaction threshold"@, percent(config.compact_percent), ActionModel::EditSetting { key: "compact_threshold"@, initial: percent(config.compact_percent), location: at(SettingsCategory::Context, SettingsItem::CompactThreshold) }),
        choice("Current model context window"@, decimal(context_window as nat), ActionModel::EditSetting { key: "context_window"@, initial: decimal(context_window as nat), location: at(SettingsCategory::Context, SettingsItem::ContextWindow) }),
    ]
}

fn list_context_items(config: &Config, context_window: u64) -> (r: Vec<PickerItem>)
    ensures
        views(r@) == context_items(config@, context_window),
{
    let mut items: Vec<PickerItem> = Vec::new();
    offer(&mut items, "Automatic compaction", cat2(show_on_off(config.auto_compact), " · Enter to toggle").as_str(), PickerAction::SetAutoCompact(!config.auto_compact));
    offer(&mut items, "Compaction threshold", show_percent(config.compact_percent).as_str(), PickerAction::EditSetting { key: "compact_threshold".to_owned(), initial: show_percent(config.compact_percent).as_str().to_owned(), location: location(SettingsCategory::Context, SettingsItem::CompactThreshold) });
    offer(&mut items, "Current model context window", decimal_of(context_window).as_str(), PickerAction::EditSetting { key: "context_window".to_owned(), initial: decimal_of(context_window).as_str().to_owned(), location: location(SettingsCategory::Context, SettingsItem::ContextWindow) });
    assert(views(items@) =~= context_items(config@, context_window));
    items
}

/// The settings of the web.
pub open spec fn web_items(config: ConfigModel) -> Seq<ItemModel> {
    seq![
        choice("Web browsing"@, on_off(config.web_browsing) + " · Enter to toggle"@, ActionModel::SetWebBrowsing(!config.web_browsing)),
        choice("Search provider"@, search_label(config.web_search_provider) + " · Enter to choose"@, ActionModel::OpenWebSearchProviders),
        choice("Maximum fetched characters"@, decimal(config.web_fetch_max_chars as nat), ActionModel::EditSetting { key: "web_fetch_max_chars"@, initial: decimal(config.web_fetch_max_chars as nat), location: at(SettingsCategory::Web, SettingsItem::WebFetchMaxChars) }),
        choice("Brave API key"@, key_status("BRAVE_API_KEY"@, config.brave_key), ActionModel::EditSecretSetting { key: "brave_api_key"@, location: at(SettingsCategory::Web, SettingsItem::BraveApiKey) }),
        choice("Firecrawl API key"@, key_status("FIRECRAWL_API_KEY"@, config.firecrawl_key), ActionModel::EditSecretSetting { key: "firecrawl_api_key"@, location: at(SettingsCategory::Web, SettingsItem::FirecrawlApiKey) }),
    ]
}

fn list_web_items(config: &Config) -> (r: Vec<PickerItem>)
    ensures
        views(r@) == web_items(config@),
{
    let mut items: Vec<PickerItem> = Vec::new();
    offer(&mut items, "Web browsing", cat2(show_on_off(config.web_browsing), " · Enter to toggle").as_str(), PickerAction::SetWebBrowsing(!config.web_browsing));
    offer(&mut items, "Search provider", cat2(web_search_provider_label(config.web_search_provider), " · Enter to choose").as_str(), PickerAction::OpenWebSearchProviders);
    offer(&mut items, "Maximum fetched characters", count_of(config.web_fetch_max_chars).as_str(), PickerAction::EditSetting { key: "web_fetch_max_chars".to_owned(), initial: count_of(config.web_fetch_max_chars).as_str().to_owned(), location: location(SettingsCategory::Web, SettingsItem::WebFetchMaxChars) });
    offer(&mut items, "Brave API key", web_key_status("BRAVE_API_KEY", config.brave_key).as_str(), PickerAction::EditSecretSetting { key: "brave_api_key".to_owned(), location: location(SettingsCategory::Web, SettingsItem::BraveApiKey) });
    offer(&mut items, "Firecrawl API key", web_key_status("FIRECRAWL_API_KEY", config.firecrawl_key).as_str(), PickerAction::EditSecretSetting { key: "firecrawl_api_key".to_owned(), location: location(SettingsCategory::Web, SettingsItem::FirecrawlApiKey) });
    assert(views(items@) =~= web_items(config@));
    items
}

/// The settings of the subagents.
pub open spec fn subagent_items(config: ConfigModel) -> Seq<ItemModel> {
    seq![
        choice("Parallel subagents"@, on_off(config.subagents) + " · Enter to toggle"@, ActionModel::SetSubagents(!config.subagents)),
        choice("Maximum active subagents"@, decimal(config.max_subagents as nat), ActionModel::EditSetting { key: "max_subagents"@, initial: decimal(config.max_subagents as nat), location: at(SettingsCategory::Subagents, SettingsItem::MaxSubagents) }),
        choice("Default subagent model"@, config.subagent_model, ActionModel::OpenSubagentModels),
        choice("Subagent request budget"@, decimal(config.subagent_request_budget as nat), ActionModel::EditSetting { key: "subagent_request_budget"@, initial: decimal(config.subagent_request_budget as nat), location: at(SettingsCategory::Subagents, SettingsItem::SubagentRequestBudget) }),
        choice("Subagent timeout"@, decimal(config.subagent_timeout_secs as nat), ActionModel::EditSetting { key: "subagent_timeout_secs"@, initial: decimal(config.subagent_timeout_secs as nat), location: at(SettingsCategory::Subagents, SettingsItem::SubagentTimeout) }),
    ]
}

fn list_subagent_items(config: &Config) -> (r: Vec<PickerItem>)
    ensures
        views(r@) == subagent_items(config@),
{
    let mut items: Vec<PickerItem> = Vec::new();
    offer(&mut items, "Parallel subagents", cat2(show_on_off(config.subagents), " · Enter to toggle").as_str(), PickerAction::SetSubagents(!config.subagents));
    offer(&mut items, "Maximum active subagents", count_of(config.max_subagents).as_str(), PickerAction::EditSetting { key: "max_subagents".to_owned(), initial: count_of(config.max_subagents).as_str().to_owned(), location: location(SettingsCategory::Subagents, SettingsItem::MaxSubagents) });
    offer(&mut items, "Default subagent model", config.subagent_model.as_str(), PickerAction::OpenSubagentModels);
    offer(&mut items, "Subagent request budget", count_of(config.subagent_request_budget).as_str(), PickerAction::EditSetting { key: "subagent_request_budget".to_owned(), initial: count_of(config.subagent_request_budget).as_str().to_owned(), location: location(SettingsCategory::Subagents, SettingsItem::SubagentRequestBudget) });
    offer(&mut items, "Subagent timeout", count_of(config.subagent_timeout_secs).as_str(), PickerAction::EditSetting { key: "subagent_timeout_secs".to_owned(), initial: count_of(config.subagent_timeout_secs).as_str().to_owned(), location: location(SettingsCategory::Subagents, SettingsItem::SubagentTimeout) });
    assert(views(items@) =~= subagent_items(config@));
    items
}

/// What concerns all settings.
pub open spec fn advanced_items() -> Seq<ItemModel> {
    seq![
        choice("Reload configuration"@, "Read global and project files again"@, ActionModel::Reload),
        choice("Configuration details"@, "Show paths, providers, and command forms"@, ActionModel::ShowSettings),
    ]
}

fn list_advanced_items() -> (r: Vec<PickerItem>)
    ensures
        views(r@) == advanced_items(),
{
    let mut items: Vec<PickerItem> = Vec::new();
    offer(&mut items, "Reload configuration", "Read global and project files again", PickerAction::Reload);
    offer(&mut items, "Configuration details", "Show paths, providers, and command forms", PickerAction::ShowSettings);
    assert(views(items@) =~= advanced_items());
    items
}

/// What is said of a provider in the settings.
pub open spec fn provider_item(provider: DefinitionModel) -> ItemModel {
    choice(
        provider.label,
        (if provider.configured {
            "Configured"@
        } else {
            "Not configured"@
        }) + " · "@ + provider.description,
        ActionModel::OpenConnect { from_settings: true },
    )
}

/// The providers of a list that have a name.
pub open spec fn provider_items(catalog: Seq<DefinitionModel>) -> Seq<ItemModel>
    decreases catalog.len(),
{
    if catalog.len() == 0 {
        seq![
            choice(
                "Add or update provider…"@,
                "Guided authentication and model discovery"@,
                ActionModel::OpenConnect { from_settings: true },
            ),
        ]
    } else if catalog.last().id == ProviderModel::Other {
        provider_items(catalog.drop_last())
    } else {
        provider_items(catalog.drop_last()).push(provider_item(catalog.last()))
    }
}

fn list_provider_items(catalog: &Vec<ProviderDefinition>) -> (r: Vec<PickerItem>)
    ensures
        views(r@) == provider_items(views(catalog@)),
{
    let mut items: Vec<PickerItem> = Vec::new();
    offer(
        &mut items,
        "Add or update provider…",
        "Guided authentication and model discovery",
        PickerAction::OpenConnect { from_settings: true },
    );
    let ghost all = views(catalog@);
    let mut i: usize = 0;
    assert(views(items@) =~= provider_items(all.take(0)));
    while i < catalog.len()
        invariant
            i <= catalog@.len(),
            all == views(catalog@),
            views(items@) == provider_items(all.take(i as int)),
        decreases catalog@.len() - i,
    {
        let provider = &catalog[i];
        assert(all.take(i + 1).drop_last() =~= all.take(i as int));
        assert(all.take(i + 1).last() == catalog@[i as int]@);
        match &provider.id {
            ProviderId::Other => {},
            _ => {
                let state = if provider.configured {
                    "Configured"
                } else {
                    "Not configured"
                };
                let description = cat3(state, " · ", provider.description.as_str());
                offer(
                    &mut items,
                    provider.label.as_str(),
                    description.as_str(),
                    PickerAction::OpenConnect { from_settings: true },
                );
            },
        }
        i += 1;
    }
    assert(all.take(i as int) =~= all);
    items
}

/// The directories of the skills.
pub open spec fn skill_items(directories: Seq<Seq<char>>) -> Seq<ItemModel> {
    seq![
        choice(
            "Add directory…"@,
            decimal(directories.len()) + " configured"@,
            ActionModel::EditSetting {
                key: "skills add"@,
                initial: ""@,
                location: at(SettingsCategory::Skills, SettingsItem::AddSkillDirectory),
            },
        ),
    ] + Seq::new(
        directories.len(),
        |i: int|
            choice(
                "Remove "@ + directories[i],
                "Stop searching this directory"@,
                ActionModel::ApplySetting {
                    argument: "skills remove "@ + directories[i],
                    location: at(SettingsCategory::Skills, SettingsItem::AddSkillDirectory),
                },
            ),
    )
}

fn list_skill_items(directories: &Vec<String>) -> (r: Vec<PickerItem>)
    ensures
        views(r@) == skill_items(views(directories@)),
{
    let mut items: Vec<PickerItem> = Vec::new();
    let n: usize = directories.len();
    offer(
        &mut items,
        "Add directory…",
        cat2(count_of(n).as_str(), " configured").as_str(),
        PickerAction::EditSetting {
            key: "skills add".to_owned(),
            initial: "".to_owned(),
            location: location(SettingsCategory::Skills, SettingsItem::AddSkillDirectory),
        },
    );
    let ghost all = skill_items(views(directories@));
    let mut i: usize = 0;
    assert(views(items@) =~= all.take(1));
    while i < n
        invariant
            i <= n,
            n == directories@.len(),
            all == skill_items(views(directories@)),
            views(items@) == all.take(i + 1),
        decreases n - i,
    {
        let directory = directories[i].as_str();
        assert(views(directories@)[i as int] == directory@);
        let label = cat2("Remove ", directory);
        let argument = cat2("skills remove ", directory);
        offer(
            &mut items,
            label.as_str(),
            "Stop searching this directory",
            PickerAction::ApplySetting {
                argument,
                location: location(SettingsCategory::Skills, SettingsItem::AddSkillDirectory),
            },
        );
        i += 1;
        assert(views(items@) =~= all.take(i + 1));
    }
    assert(all.take(i + 1) =~= all);
    items
}

/// The settings of a page.
pub open spec fn category_items(
    config: ConfigModel,
    model: Seq<char>,
    codex: bool,
    context_window: u64,
    catalog: Seq<DefinitionModel>,
    category: SettingsCategory,
) -> Seq<ItemModel> {
    match category {
        SettingsCategory::Model => model_items(config, model, codex),
        SettingsCategory::Interface => interface_items(config),
        SettingsCategory::Context => context_items(config, context_window),
        SettingsCategory::Providers => provider_items(catalog),
        SettingsCategory::Web => web_items(config),
        SettingsCategory::Subagents => subagent_items(config),
        SettingsCategory::Skills => skill_items(config.skill_dirs),
        SettingsCategory::Advanced => advanced_items(),
    }
}

/// A page of the settings.
#[verifier::opaque]
pub open spec fn category_menu(
    config: ConfigModel,
    model: Seq<char>,
    codex: bool,
    context_window: u64,
    catalog: Seq<DefinitionModel>,
    category: SettingsCategory,
    selected: usize,
) -> PickerModel {
    let items = category_items(config, model, codex, context_window, catalog, category);
    PickerModel {
        title: "Settings · "@ + category.name(),
        hint: "↑/↓ move  Enter change  Esc back"@,
        items,
        selected: at_most(selected as nat, minus(items.len(), 1)) as usize,
        editing: None,
        parent: Some(ActionModel::OpenSettingsRoot { selected: category.position() }),
    }
}

/// A page of the settings; see `category_menu`. `codex` says whether the model
/// is served by Codex, `catalog` lists the providers that can be set up.
pub fn settings_category_picker_from(
    config: &Config,
    model: &str,
    codex: bool,
    context_window: u64,
    catalog: &Vec<ProviderDefinition>,
    category: SettingsCategory,
    selected: usize,
) -> (r: Picker)
    ensures
        r@ == category_menu(
            config@,
            model@,
            codex,
            context_window,
            views(catalog@),
            category,
            selected,
        ),
{
    proof {
        reveal(category_menu);
    }
    let items = match category {
        SettingsCategory::Model => list_model_items(config, model, codex),
        SettingsCategory::Interface => list_interface_items(config),
        SettingsCategory::Context => list_context_items(config, context_window),
        SettingsCategory::Providers => list_provider_items(catalog),
        SettingsCategory::Web => list_web_items(config),
        SettingsCategory::Subagents => list_subagent_items(config),
        SettingsCategory::Skills => list_skill_items(&config.skill_dirs),
        SettingsCategory::Advanced => list_advanced_items(),
    };
    let n: usize = items.len();
    assert(views(items@).len() == n);
    Picker {
        title: cat2("Settings · ", category.title()),
        hint: "↑/↓ move  Enter change  Esc back".to_owned(),
        items,
        selected: smaller(selected, n.saturating_sub(1)),
        editing: None,
        parent: Some(PickerAction::OpenSettingsRoot { selected: category.index() }),
    }
}

// ---------------------------------------------------------------------------
// The search provider

#[verifier::opaque]
pub open spec fn search_menu(current: WebSearchProvider) -> PickerModel {
    PickerModel {
        title: "Search provider"@,
        hint: "↑/↓ move  Enter select  Esc cancel"@,
        items: seq![
            choice(
                "DuckDuckGo"@,
                "Free search without an API key"@,
                ActionModel::SetWebSearchProvider(WebSearchProvider::DuckDuckGo),
            ),
            choice(
                "Firecrawl"@,
                "Uses the configured Firecrawl API key"@,
                ActionModel::SetWebSearchProvider(WebSearchProvider::Firecrawl),
            ),
            choice(
                "Brave"@,
                "Uses the configured Brave API key"@,
                ActionModel::SetWebSearchProvider(WebSearchProvider::Brave),
            ),
        ],
        selected: match current {
            WebSearchProvider::DuckDuckGo => 0,
            WebSearchProvider::Firecrawl => 1,
            WebSearchProvider::Brave => 2,
        },
        editing: None,
        parent: Some(back_to(SettingsCategory::Web, SettingsItem::WebSearchProvider)),
    }
}

pub fn web_search_provider_picker(current: WebSearchProvider) -> (r: Picker)
    ensures
        r@ == search_menu(current),
{
    proof {
        reveal(search_menu);
    }
    let mut items: Vec<PickerItem> = Vec::new();
    offer(
        &mut items,
        "DuckDuckGo",
        "Free search without an API key",
        PickerAction::SetWebSearchProvider(WebSearchProvider::DuckDuckGo),
    );
    offer(
        &mut items,
        "Firecrawl",
        "Uses the configured Firecrawl API key",
        PickerAction::SetWebSearchProvider(WebSearchProvider::Firecrawl),
    );
    offer(
        &mut items,
        "Brave",
        "Uses the configured Brave API key",
        PickerAction::SetWebSearchProvider(WebSearchProvider::Brave),
    );
    assert(views(items@) =~= search_menu(current).items);
    Picker {
        title: "Search provider".to_owned(),
        hint: "↑/↓ move  Enter select  Esc cancel".to_owned(),
        items,
        selected: match current {
            WebSearchProvider::DuckDuckGo => 0,
            WebSearchProvider::Firecrawl => 1,
            WebSearchProvider::Brave => 2,
        },
        editing: None,
        parent: Some(go_back_to(SettingsCategory::Web, SettingsItem::WebSearchProvider)),
    }
}

// ---------------------------------------------------------------------------
// Colors

/// The colors that are offered by name.
pub open spec fn palette() -> Seq<(Seq<char>, UiColor)> {
    seq![
        ("White"@, white_color()),
        ("Gray"@, UiColor { red: 148, green: 148, blue: 158 }),
        ("Red"@, UiColor { red: 235, green: 111, blue: 146 }),
        ("Orange"@, UiColor { red: 240, green: 160, blue: 96 }),
        ("Yellow"@, UiColor { red: 232, green: 202, blue: 118 }),
        ("Green"@, UiColor { red: 139, green: 213, blue: 162 }),
        ("Cyan"@, UiColor { red: 116, green: 199, blue: 213 }),
        ("Blue"@, UiColor { red: 117, green: 169, blue: 255 }),
        ("Purple"@, UiColor { red: 190, green: 149, blue: 255 }),
        ("Pink"@, UiColor { red: 238, green: 148, blue: 200 }),
    ]
}

fn palette_entry(i: usize) -> (r: (&'static str, UiColor))
    requires
        i < 10,
    ensures
        (r.0@, r.1) == palette()[i as int],
{
    if i == 0 {
        ("White", UiColor::white())
    } else if i == 1 {
        ("Gray", UiColor::new(148, 148, 158))
    } else if i == 2 {
        ("Red", UiColor::new(235, 111, 146))
    } else if i == 3 {
        ("Orange", UiColor::new(240, 160, 96))
    } else if i == 4 {
        ("Yellow", UiColor::new(232, 202, 118))
    } else if i == 5 {
        ("Green", UiColor::new(139, 213, 162))
    } else if i == 6 {
        ("Cyan", UiColor::new(116, 199, 213))
    } else if i == 7 {
        ("Blue", UiColor::new(117, 169, 255))
    } else if i == 8 {
        ("Purple", UiColor::new(190, 149, 255))
    } else {
        ("Pink", UiColor::new(238, 148, 200))
    }
}

/// A color with a sample of it.
pub open spec fn swatch(color: UiColor) -> Seq<char> {
    background(color.red, color.green, color.blue) + "   \x1b[0m "@ + color_text(color)
}

fn swatch_description(color: UiColor) -> (r: String)
    ensures
        r@ == swatch(color),
{
    cat3(background_color(color).as_str(), "   \x1b[0m ", color.config_value().as_str())
}

pub open spec fn has_color(color: UiColor) -> spec_fn((Seq<char>, UiColor)) -> bool {
    |entry: (Seq<char>, UiColor)| entry.1 == color
}

/// The place of a color in the palette.
pub open spec fn palette_position(color: UiColor) -> Option<int> {
    first_position(palette(), has_color(color))
}

fn find_in_palette(color: UiColor) -> (r: Option<usize>)
    ensures
        match r {
            Some(i) => palette_position(color) == Some(i as int) && i < 10,
            None => palette_position(color) is None,
        },
{
    let ghost wanted = has_color(color);
    let mut i: usize = 0;
    while i < 10
        invariant
            i <= 10,
            wanted == has_color(color),
            forall|k: int| 0 <= k < i ==> !wanted(#[trigger] palette()[k]),
        decreases 10 - i,
    {
        if palette_entry(i).1 == color {
            proof {
                first_position_is(palette(), wanted, i as int);
            }
            return Some(i);
        }
        i += 1;
    }
    proof {
        no_first_position(palette(), wanted);
    }
    None
}

/// The choice of the accent.
#[verifier::opaque]
pub open spec fn accent_menu(current: UiColor) -> PickerModel {
    PickerModel {
        title: "Accent color"@,
        hint: "↑/↓ move  Enter select  Esc cancel"@,
        items: Seq::new(
            10,
            |i: int|
                choice(
                    palette()[i].0,
                    swatch(palette()[i].1),
                    ActionModel::SetAccentColor(palette()[i].1),
                ),
        ).push(
            choice(
                "Custom RGB…"@,
                "Enter #RRGGBB"@,
                ActionModel::EditSetting {
                    key: "accent_color"@,
                    initial: color_text(current),
                    location: at(SettingsCategory::Interface, SettingsItem::AccentColor),
                },
            ),
        ),
        selected: match palette_position(current) {
            Some(i) => i as usize,
            None => 10,
        },
        editing: None,
        parent: Some(back_to(SettingsCategory::Interface, SettingsItem::AccentColor)),
    }
}

pub fn color_picker(current: UiColor) -> (r: Picker)
    ensures
        r@ == accent_menu(current),
{
    proof {
        reveal(accent_menu);
    }
    let ghost all = accent_menu(current).items;
    let mut items: Vec<PickerItem> = Vec::new();
    let mut i: usize = 0;
    assert(views(items@) =~= all.take(0));
    while i < 10
        invariant
            i <= 10,
            all == accent_menu(current).items,
            views(items@) == all.take(i as int),
        decreases 10 - i,
    {
        proof {
            reveal(accent_menu);
        }
        let (name, color) = palette_entry(i);
        offer(
            &mut items,
            name,
            swatch_description(color).as_str(),
            PickerAction::SetAccentColor(color),
        );
        i += 1;
        assert(views(items@) =~= all.take(i as int));
    }
    offer(
        &mut items,
        "Custom RGB…",
        "Enter #RRGGBB",
        PickerAction::EditSetting {
            key: "accent_color".to_owned(),
            initial: current.config_value(),
            location: location(SettingsCategory::Interface, SettingsItem::AccentColor),
        },
    );
    assert(views(items@) =~= all);
    Picker {
        title: "Accent color".to_owned(),
        hint: "↑/↓ move  Enter select  Esc cancel".to_owned(),
        items,
        selected: match find_in_palette(current) {
            Some(i) => i,
            None => 10,
        },
        editing: None,
        parent: Some(go_back_to(SettingsCategory::Interface, SettingsItem::AccentColor)),
    }
}

/// The choice of the selection: the accent, or a color of its own.
#[verifier::opaque]
pub open spec fn selection_menu(current: Option<UiColor>) -> PickerModel {
    PickerModel {
        title: "Selection color"@,
        hint: "↑/↓ move  Enter select  Esc cancel"@,
        items: seq![
            choice(
                "Accent"@,
                "Follow the accent color"@,
                ActionModel::SetSelectionColor(None),
            ),
        ] + Seq::new(
            10,
            |i: int|
                choice(
                    palette()[i].0,
                    swatch(palette()[i].1),
                    ActionModel::SetSelectionColor(Some(palette()[i].1)),
                ),
        ).push(
            choice(
                "Custom RGB…"@,
                "Enter accent or #RRGGBB"@,
                ActionModel::EditSetting {
                    key: "selection_color"@,
                    initial: selection_text(current),
                    location: at(SettingsCategory::Interface, SettingsItem::SelectionColor),
                },
            ),
        ),
        selected: match current {
            None => 0,
            Some(color) => match palette_position(color) {
                Some(i) => (i + 1) as usize,
                None => 11,
            },
        },
        editing: None,
        parent: Some(back_to(SettingsCategory::Interface, SettingsItem::SelectionColor)),
    }
}

pub fn selection_color_picker(current: Option<UiColor>) -> (r: Picker)
    ensures
        r@ == selection_menu(current),
{
    proof {
        reveal(selection_menu);
    }
    let ghost all = selection_menu(current).items;
    let mut items: Vec<PickerItem> = Vec::new();
    offer(
        &mut items,
        "Accent",
        "Follow the accent color",
        PickerAction::SetSelectionColor(None),
    );
    let mut i: usize = 0;
    assert(views(items@) =~= all.take(1));
    while i < 10
        invariant
            i <= 10,
            all == selection_menu(current).items,
            views(items@) == all.take(i + 1),
        decreases 10 - i,
    {
        proof {
            reveal(selection_menu);
        }
        let (name, color) = palette_entry(i);
        offer(
            &mut items,
            name,
            swatch_description(color).as_str(),
            PickerAction::SetSelectionColor(Some(color)),
        );
        i += 1;
        assert(views(items@) =~= all.take(i + 1));
    }
    offer(
        &mut items,
        "Custom RGB…",
        "Enter accent or #RRGGBB",
        PickerAction::EditSetting {
            key: "selection_color".to_owned(),
            initial: UiColor::selection_config_value(current),
            location: location(SettingsCategory::Interface, SettingsItem::SelectionColor),
        },
    );
    assert(views(items@) =~= all);
    Picker {
        title: "Selection color".to_owned(),
        hint: "↑/↓ move  Enter select  Esc cancel".to_owned(),
        items,
        selected: match current {
            None => 0,
            Some(color) => match find_in_palette(color) {
                Some(i) => i + 1,
                None => 11,
            },
        },
        editing: None,
        parent: Some(go_back_to(SettingsCategory::Interface, SettingsItem::SelectionColor)),
    }
}

// ---------------------------------------------------------------------------
// Laws

/// Leaving a page selects that page in the list of pages, and choosing it
/// there opens it again.
pub proof fn pages_are_found_again(
    config: ConfigModel,
    model: Seq<char>,
    codex: bool,
    context_window: u64,
    catalog: Seq<DefinitionModel>,
    category: SettingsCategory,
    selected: usize,
)
    ensures
        ({
            let menu = category_menu(
                config,
                model,
                codex,
                context_window,
                catalog,
                category,
                selected,
            );
            let position = category.position();
            &&& menu.parent == Some(ActionModel::OpenSettingsRoot { selected: position })
            &&& root_menu().with_selected(position as nat).chosen() == Some(
                ActionModel::OpenSettingsCategory { category, selected: 0 },
            )
        }),
{
    reveal(root_menu);
    reveal(category_menu);
}

/// The color in use is the one that is selected, where the palette has it.
pub proof fn color_in_use_is_selected(i: int)
    requires
        0 <= i < 10,
    ensures
        accent_menu(palette()[i].1).chosen() == Some(ActionModel::SetAccentColor(palette()[i].1)),
        selection_menu(Some(palette()[i].1)).chosen() == Some(
            ActionModel::SetSelectionColor(Some(palette()[i].1)),
        ),
        selection_menu(None).chosen() == Some(ActionModel::SetSelectionColor(None)),
{
    reveal(accent_menu);
    reveal(selection_menu);
    let color = palette()[i].1;
    first_position_finds(palette(), has_color(color));
}

} // verus!
