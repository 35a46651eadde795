//! The settings as far as the interface reads and changes them.

use vstd::prelude::*;
use crate::model::{copy_all, copy_option, option_view, same_all, same_option, views, Modeled};
use crate::style::UiColor;
use crate::text::is;

verus! {

broadcast use vstd::string::group_string_axioms;

#[derive(Debug, Clone, Copy, PartialEq, Eq, Structural)]
pub enum WebSearchProvider {
    DuckDuckGo,
    Firecrawl,
    Brave,
}

// ---------------------------------------------------------------------------
// The status bar

#[derive(Debug, Clone, Copy, PartialEq, Eq, Structural)]
pub enum StatusBarKind {
    Model,
    Reasoning,
    Context,
    PromptCache,
    Goal,
    Queue,
}

/// All kinds of items.
pub open spec fn all_kinds() -> Seq<StatusBarKind> {
    seq![
        StatusBarKind::Model,
        StatusBarKind::Reasoning,
        StatusBarKind::Context,
        StatusBarKind::PromptCache,
        StatusBarKind::Goal,
        StatusBarKind::Queue,
    ]
}

impl StatusBarKind {
    pub fn all() -> (r: Vec<StatusBarKind>)
        ensures
            r@ == all_kinds(),
    {
        let r = vec![
            StatusBarKind::Model,
            StatusBarKind::Reasoning,
            StatusBarKind::Context,
            StatusBarKind::PromptCache,
            StatusBarKind::Goal,
            StatusBarKind::Queue,
        ];
        assert(r@ =~= all_kinds());
        r
    }

    pub open spec fn title(self) -> Seq<char> {
        match self {
            StatusBarKind::Model => "Model"@,
            StatusBarKind::Reasoning => "Reasoning"@,
            StatusBarKind::Context => "Context"@,
            StatusBarKind::PromptCache => "Prompt cache"@,
            StatusBarKind::Goal => "Goal"@,
            StatusBarKind::Queue => "Queue"@,
        }
    }

    pub fn label(self) -> (r: &'static str)
        ensures
            r@ == self.title(),
    {
        match self {
            StatusBarKind::Model => "Model",
            StatusBarKind::Reasoning => "Reasoning",
            StatusBarKind::Context => "Context",
            StatusBarKind::PromptCache => "Prompt cache",
            StatusBarKind::Goal => "Goal",
            StatusBarKind::Queue => "Queue",
        }
    }

    pub open spec fn name(self) -> Seq<char> {
        match self {
            StatusBarKind::Model => "model"@,
            StatusBarKind::Reasoning => "reasoning"@,
            StatusBarKind::Context => "context"@,
            StatusBarKind::PromptCache => "prompt_cache"@,
            StatusBarKind::Goal => "goal"@,
            StatusBarKind::Queue => "queue"@,
        }
    }

    pub fn as_str(self) -> (r: &'static str)
        ensures
            r@ == self.name(),
    {
        match self {
            StatusBarKind::Model => "model",
            StatusBarKind::Reasoning => "reasoning",
            StatusBarKind::Context => "context",
            StatusBarKind::PromptCache => "prompt_cache",
            StatusBarKind::Goal => "goal",
            StatusBarKind::Queue => "queue",
        }
    }

    /// Whether the item is there only at times.
    pub open spec fn comes_and_goes(self) -> bool {
        self == StatusBarKind::Reasoning || self == StatusBarKind::PromptCache || self
            == StatusBarKind::Goal || self == StatusBarKind::Queue
    }

    pub fn is_dynamic(self) -> (r: bool)
        ensures
            r == self.comes_and_goes(),
    {
        self == StatusBarKind::Reasoning || self == StatusBarKind::PromptCache || self
            == StatusBarKind::Goal || self == StatusBarKind::Queue
    }
}

#[derive(Debug, Clone, Copy, PartialEq, Eq, Structural)]
pub enum StatusBarFormat {
    Current,
    Compact,
    Detailed,
}

impl StatusBarFormat {
    pub open spec fn name(self) -> Seq<char> {
        match self {
            StatusBarFormat::Current => "current"@,
            StatusBarFormat::Compact => "compact"@,
            StatusBarFormat::Detailed => "detailed"@,
        }
    }

    pub fn as_str(self) -> (r: &'static str)
        ensures
            r@ == self.name(),
    {
        match self {
            StatusBarFormat::Current => "current",
            StatusBarFormat::Compact => "compact",
            StatusBarFormat::Detailed => "detailed",
        }
    }
}

#[derive(Debug, Clone, Copy, PartialEq, Eq, Structural)]
pub enum StatusBarVisibility {
    Auto,
    Always,
}

impl StatusBarVisibility {
    pub open spec fn name(self) -> Seq<char> {
        match self {
            StatusBarVisibility::Auto => "auto"@,
            StatusBarVisibility::Always => "always"@,
        }
    }

    pub fn as_str(self) -> (r: &'static str)
        ensures
            r@ == self.name(),
    {
        match self {
            StatusBarVisibility::Auto => "auto",
            StatusBarVisibility::Always => "always",
        }
    }
}

#[derive(Debug, Clone, Copy, PartialEq, Eq, Structural)]
pub enum StatusBarStyle {
    Mixed,
    Accent,
    Muted,
    Plain,
}

impl StatusBarStyle {
    pub open spec fn name(self) -> Seq<char> {
        match self {
            StatusBarStyle::Mixed => "mixed"@,
            StatusBarStyle::Accent => "accent"@,
            StatusBarStyle::Muted => "muted"@,
            StatusBarStyle::Plain => "plain"@,
        }
    }

    pub fn as_str(self) -> (r: &'static str)
        ensures
            r@ == self.name(),
    {
        match self {
            StatusBarStyle::Mixed => "mixed",
            StatusBarStyle::Accent => "accent",
            StatusBarStyle::Muted => "muted",
            StatusBarStyle::Plain => "plain",
        }
    }
}

/// An item of the status bar.
#[derive(Debug, PartialEq, Eq)]
pub struct StatusBarItemConfig {
    pub kind: StatusBarKind,
    pub format: StatusBarFormat,
    pub visibility: StatusBarVisibility,
    /// A label in place of the built-in one; an empty one hides it.
    pub label: Option<String>,
}

pub struct BarItemModel {
    pub kind: StatusBarKind,
    pub format: StatusBarFormat,
    pub visibility: StatusBarVisibility,
    pub label: Option<Seq<char>>,
}

impl View for StatusBarItemConfig {
    type V = BarItemModel;

    open spec fn view(&self) -> BarItemModel {
        BarItemModel {
            kind: self.kind,
            format: self.format,
            visibility: self.visibility,
            label: option_view(self.label),
        }
    }
}

impl Modeled for StatusBarItemConfig {
    fn copy(&self) -> (r: Self) {
        StatusBarItemConfig {
            kind: self.kind,
            format: self.format,
            visibility: self.visibility,
            label: copy_option(&self.label),
        }
    }

    fn same(&self, other: &Self) -> (r: bool) {
        self.kind == other.kind && self.format == other.format && self.visibility
            == other.visibility && same_option(&self.label, &other.label)
    }
}

/// An item as it is added.
pub open spec fn new_bar_item(kind: StatusBarKind) -> BarItemModel {
    BarItemModel {
        kind,
        format: StatusBarFormat::Current,
        visibility: StatusBarVisibility::Auto,
        label: None,
    }
}

impl StatusBarItemConfig {
    pub fn new(kind: StatusBarKind) -> (r: Self)
        ensures
            r@ == new_bar_item(kind),
    {
        StatusBarItemConfig {
            kind,
            format: StatusBarFormat::Current,
            visibility: StatusBarVisibility::Auto,
            label: None,
        }
    }
}

/// The layout of the status bar.
#[derive(Debug, PartialEq, Eq)]
pub struct StatusBarConfig {
    pub items: Vec<StatusBarItemConfig>,
    pub style: StatusBarStyle,
    pub separator: String,
}

pub struct BarModel {
    pub items: Seq<BarItemModel>,
    pub style: StatusBarStyle,
    pub separator: Seq<char>,
}

impl View for StatusBarConfig {
    type V = BarModel;

    open spec fn view(&self) -> BarModel {
        BarModel { items: views(self.items@), style: self.style, separator: self.separator@ }
    }
}

impl Modeled for StatusBarConfig {
    fn copy(&self) -> (r: Self) {
        StatusBarConfig {
            items: copy_all(&self.items),
            style: self.style,
            separator: self.separator.copy(),
        }
    }

    fn same(&self, other: &Self) -> (r: bool) {
        same_all(&self.items, &other.items) && self.style == other.style && self.separator.same(
            &other.separator,
        )
    }
}

/// The layout that is built in.
pub open spec fn default_bar() -> BarModel {
    BarModel {
        items: seq![
            new_bar_item(StatusBarKind::Model),
            new_bar_item(StatusBarKind::Reasoning),
            new_bar_item(StatusBarKind::Context),
        ],
        style: StatusBarStyle::Mixed,
        separator: "  ·  "@,
    }
}

impl Default for StatusBarConfig {
    fn default() -> (r: Self)
        ensures
            r@ == default_bar(),
    {
        let mut items: Vec<StatusBarItemConfig> = Vec::new();
        items.push(StatusBarItemConfig::new(StatusBarKind::Model));
        items.push(StatusBarItemConfig::new(StatusBarKind::Reasoning));
        items.push(StatusBarItemConfig::new(StatusBarKind::Context));
        assert(views(items@) =~= default_bar().items);
        StatusBarConfig { items, style: StatusBarStyle::Mixed, separator: "  ·  ".to_owned() }
    }
}

// ---------------------------------------------------------------------------
// The settings

/// Where a key is taken from.
#[derive(Debug, Clone, Copy, PartialEq, Eq, Structural)]
pub enum KeySource {
    /// A variable of the environment holds it.
    Environment,
    /// The settings hold it.
    Stored,
    Missing,
}

/// A provider that the settings name.
#[derive(Debug, PartialEq, Eq)]
pub struct ProviderSummary {
    pub name: String,
    pub base_url: String,
    pub has_key: bool,
    pub models: usize,
}

pub struct SummaryModel {
    pub name: Seq<char>,
    pub base_url: Seq<char>,
    pub has_key: bool,
    pub models: usize,
}

impl View for ProviderSummary {
    type V = SummaryModel;

    open spec fn view(&self) -> SummaryModel {
        SummaryModel {
            name: self.name@,
            base_url: self.base_url@,
            has_key: self.has_key,
            models: self.models,
        }
    }
}

/// What the interface reads of the settings.
#[derive(Debug)]
pub struct Config {
    pub model: Option<String>,
    pub max_tokens: u32,
    pub reasoning_effort: Option<String>,
    pub hide_reasoning: bool,
    pub accent_color: UiColor,
    /// Without a color, the selection follows the accent.
    pub selection_color: Option<UiColor>,
    pub status_bar: StatusBarConfig,
    pub scroll_bar: bool,
    pub scroll_bar_auto_hide: bool,
    pub bell: bool,
    pub auto_compact: bool,
    /// The threshold of compaction, in whole percent.
    pub compact_percent: usize,
    pub web_browsing: bool,
    pub web_search_provider: WebSearchProvider,
    pub web_fetch_max_chars: usize,
    pub brave_key: KeySource,
    pub firecrawl_key: KeySource,
    pub subagents: bool,
    pub max_subagents: usize,
    pub subagent_model: String,
    pub subagent_request_budget: usize,
    pub subagent_timeout_secs: usize,
    pub skill_dirs: Vec<String>,
    pub anthropic_base_url: String,
    pub openai_base_url: String,
    pub has_anthropic_key: bool,
    pub has_openai_key: bool,
    /// Sorted by name.
    pub providers: Vec<ProviderSummary>,
    /// Where changes are written.
    pub config_path: String,
}

pub struct ConfigModel {
    pub model: Option<Seq<char>>,
    pub max_tokens: u32,
    pub reasoning_effort: Option<Seq<char>>,
    pub hide_reasoning: bool,
    pub accent_color: UiColor,
    pub selection_color: Option<UiColor>,
    pub status_bar: BarModel,
    pub scroll_bar: bool,
    pub scroll_bar_auto_hide: bool,
    pub bell: bool,
    pub auto_compact: bool,
    pub compact_percent: usize,
    pub web_browsing: bool,
    pub web_search_provider: WebSearchProvider,
    pub web_fetch_max_chars: usize,
    pub brave_key: KeySource,
    pub firecrawl_key: KeySource,
    pub subagents: bool,
    pub max_subagents: usize,
    pub subagent_model: Seq<char>,
    pub subagent_request_budget: usize,
    pub subagent_timeout_secs: usize,
    pub skill_dirs: Seq<Seq<char>>,
    pub anthropic_base_url: Seq<char>,
    pub openai_base_url: Seq<char>,
    pub has_anthropic_key: bool,
    pub has_openai_key: bool,
    pub providers: Seq<SummaryModel>,
    pub config_path: Seq<char>,
}

impl View for Config {
    type V = ConfigModel;

    open spec fn view(&self) -> ConfigModel {
        ConfigModel {
            model: option_view(self.model),
            max_tokens: self.max_tokens,
            reasoning_effort: option_view(self.reasoning_effort),
            hide_reasoning: self.hide_reasoning,
            accent_color: self.accent_color,
            selection_color: self.selection_color,
            status_bar: self.status_bar@,
            scroll_bar: self.scroll_bar,
            scroll_bar_auto_hide: self.scroll_bar_auto_hide,
            bell: self.bell,
            auto_compact: self.auto_compact,
            compact_percent: self.compact_percent,
            web_browsing: self.web_browsing,
            web_search_provider: self.web_search_provider,
            web_fetch_max_chars: self.web_fetch_max_chars,
            brave_key: self.brave_key,
            firecrawl_key: self.firecrawl_key,
            subagents: self.subagents,
            max_subagents: self.max_subagents,
            subagent_model: self.subagent_model@,
            subagent_request_budget: self.subagent_request_budget,
            subagent_timeout_secs: self.subagent_timeout_secs,
            skill_dirs: views(self.skill_dirs@),
            anthropic_base_url: self.anthropic_base_url@,
            openai_base_url: self.openai_base_url@,
            has_anthropic_key: self.has_anthropic_key,
            has_openai_key: self.has_openai_key,
            providers: views(self.providers@),
            config_path: self.config_path@,
        }
    }
}

// ---------------------------------------------------------------------------
// Laws

/// Every part of a layout is told from the others by its name.
pub proof fn names_tell_parts_apart(
    a: StatusBarKind,
    b: StatusBarKind,
    f: StatusBarFormat,
    g: StatusBarFormat,
    s: StatusBarStyle,
    t: StatusBarStyle,
    v: StatusBarVisibility,
    w: StatusBarVisibility,
)
    ensures
        a.name() == b.name() ==> a == b,
        a.title() == b.title() ==> a == b,
        f.name() == g.name() ==> f == g,
        s.name() == t.name() ==> s == t,
        v.name() == w.name() ==> v == w,
        all_kinds().contains(a),
{
    reveal_strlit("model");
    reveal_strlit("reasoning");
    reveal_strlit("context");
    reveal_strlit("prompt_cache");
    reveal_strlit("goal");
    reveal_strlit("queue");
    assert("model"@.len() == 5 && "model"@[0] == 'm' && "reasoning"@.len() == 9 && "context"@.len()
        == 7 && "prompt_cache"@.len() == 12 && "goal"@.len() == 4 && "queue"@.len() == 5
        && "queue"@[0] == 'q');
    reveal_strlit("Model");
    reveal_strlit("Reasoning");
    reveal_strlit("Context");
    reveal_strlit("Prompt cache");
    reveal_strlit("Goal");
    reveal_strlit("Queue");
    assert("Model"@.len() == 5 && "Model"@[0] == 'M' && "Reasoning"@.len() == 9 && "Context"@.len()
        == 7 && "Prompt cache"@.len() == 12 && "Goal"@.len() == 4 && "Queue"@.len() == 5
        && "Queue"@[0] == 'Q');
    reveal_strlit("current");
    reveal_strlit("compact");
    reveal_strlit("detailed");
    assert("current"@.len() == 7 && "current"@[1] == 'u' && "compact"@.len() == 7 && "compact"@[1]
        == 'o' && "detailed"@.len() == 8);
    reveal_strlit("mixed");
    reveal_strlit("accent");
    reveal_strlit("muted");
    reveal_strlit("plain");
    assert("mixed"@[1] == 'i' && "muted"@[1] == 'u' && "plain"@[1] == 'l' && "accent"@.len() == 6
        && "mixed"@.len() == 5 && "muted"@.len() == 5 && "plain"@.len() == 5);
    reveal_strlit("auto");
    reveal_strlit("always");
    assert("auto"@.len() == 4 && "always"@.len() == 6);
    let all = all_kinds();
    assert(all[0] == StatusBarKind::Model && all[1] == StatusBarKind::Reasoning && all[2]
        == StatusBarKind::Context && all[3] == StatusBarKind::PromptCache && all[4]
        == StatusBarKind::Goal && all[5] == StatusBarKind::Queue);
}

/// The bar shows at first the model, its reasoning and the context, apart by
/// dots; an item is shown plainly, where it has something to show.
pub proof fn bars_begin_with_the_model()
    ensures
        default_bar().items.len() == 3,
        default_bar().items[0] == new_bar_item(StatusBarKind::Model),
        default_bar().items[1] == new_bar_item(StatusBarKind::Reasoning),
        default_bar().items[2] == new_bar_item(StatusBarKind::Context),
        default_bar().style == StatusBarStyle::Mixed,
        default_bar().separator == "  ·  "@,
        forall|kind: StatusBarKind|
            (#[trigger] new_bar_item(kind)).kind == kind && new_bar_item(kind).format
                == StatusBarFormat::Current && new_bar_item(kind).visibility
                == StatusBarVisibility::Auto && new_bar_item(kind).label is None,
{
}

} // verus!
