//! Texts that commands show.

use vstd::prelude::*;
use crate::config::{ConfigModel, KeySource, ProviderSummary, SummaryModel, WebSearchProvider};
use crate::facts::{facts_model, Facts, FactsModel};
use crate::model::{option_view, views, Modeled};
use crate::order::{arrange, arranged, Named};
use crate::settings::{color_text, selection_text};
use crate::style::UiColor;
use crate::text::{cat2, cat3, cat4, cat5, cat7, cat8, chars_of, count_of, decimal, decimal_of};

verus! {

broadcast use vstd::string::group_string_axioms;

impl Modeled for ProviderSummary {
    fn copy(&self) -> (r: Self) {
        ProviderSummary {
            name: self.name.clone(),
            base_url: self.base_url.clone(),
            has_key: self.has_key,
            models: self.models,
        }
    }

    fn same(&self, other: &Self) -> (r: bool) {
        self.name.same(&other.name) && self.base_url.same(&other.base_url) && self.has_key
            == other.has_key && self.models == other.models
    }
}

impl Named for ProviderSummary {
    open spec fn name_in(model: SummaryModel) -> Seq<char> {
        model.name
    }

    fn name(&self) -> (r: Vec<char>) {
        chars_of(self.name.as_str())
    }
}

/// Texts one after the other.
pub open spec fn all_of(parts: Seq<Seq<char>>) -> Seq<char>
    decreases parts.len(),
{
    if parts.len() == 0 {
        Seq::empty()
    } else {
        all_of(parts.drop_last()) + parts.last()
    }
}

pub proof fn all_of_push(parts: Seq<Seq<char>>, part: Seq<char>)
    ensures
        all_of(parts.push(part)) == all_of(parts) + part,
{
    assert(parts.push(part).drop_last() =~= parts);
}

// ---------------------------------------------------------------------------
// Settings

pub open spec fn field(name: Seq<char>, value: Seq<char>) -> Seq<char> {
    "- "@ + name + ": `"@ + value + "`\n"@
}

/// A text that is being put together, and its parts.
struct Text {
    text: String,
    parts: Ghost<Seq<Seq<char>>>,
}

impl Text {
    spec fn wf(self) -> bool {
        self.text@ == all_of(self.parts@)
    }

    fn new() -> (r: Text)
        ensures
            r.wf(),
            r.parts@ == Seq::<Seq<char>>::empty(),
    {
        proof {
            reveal_strlit("");
        }
        let text = "".to_owned();
        assert(text@ =~= Seq::empty());
        Text { text, parts: Ghost(Seq::empty()) }
    }

    fn push(&mut self, part: &str)
        requires
            old(self).wf(),
        ensures
            final(self).wf(),
            final(self).parts@ == old(self).parts@.push(part@),
    {
        proof {
            all_of_push(self.parts@, part@);
        }
        self.text = cat2(self.text.as_str(), part);
        self.parts = Ghost(self.parts@.push(part@));
    }

    fn push_field(&mut self, name: &str, value: &str)
        requires
            old(self).wf(),
        ensures
            final(self).wf(),
            final(self).parts@ == old(self).parts@.push(field(name@, value@)),
    {
        let part = cat5("- ", name, ": `", value, "`\n");
        self.push(part.as_str());
    }
}

pub open spec fn yes_no(value: bool) -> Seq<char> {
    if value {
        "true"@
    } else {
        "false"@
    }
}

fn show_yes_no(value: bool) -> (r: &'static str)
    ensures
        r@ == yes_no(value),
{
    if value {
        "true"
    } else {
        "false"
    }
}

pub open spec fn switched(value: bool) -> Seq<char> {
    if value {
        "on"@
    } else {
        "off"@
    }
}

fn show_switched(value: bool) -> (r: &'static str)
    ensures
        r@ == switched(value),
{
    if value {
        "on"
    } else {
        "off"
    }
}

pub open spec fn is_set(value: bool) -> Seq<char> {
    if value {
        "set"@
    } else {
        "not set"@
    }
}

fn show_is_set(value: bool) -> (r: &'static str)
    ensures
        r@ == is_set(value),
{
    if value {
        "set"
    } else {
        "not set"
    }
}

pub open spec fn key_place(key: KeySource) -> Seq<char> {
    match key {
        KeySource::Environment => "environment"@,
        KeySource::Stored => "config"@,
        KeySource::Missing => "not set"@,
    }
}

fn configured_key_status(key: KeySource) -> (r: &'static str)
    ensures
        r@ == key_place(key),
{
    match key {
        KeySource::Environment => "environment",
        KeySource::Stored => "config",
        KeySource::Missing => "not set",
    }
}

pub open spec fn search_name(provider: WebSearchProvider) -> Seq<char> {
    match provider {
        WebSearchProvider::DuckDuckGo => "duckduckgo"@,
        WebSearchProvider::Firecrawl => "firecrawl"@,
        WebSearchProvider::Brave => "brave"@,
    }
}

fn show_search_name(provider: WebSearchProvider) -> (r: &'static str)
    ensures
        r@ == search_name(provider),
{
    match provider {
        WebSearchProvider::DuckDuckGo => "duckduckgo",
        WebSearchProvider::Firecrawl => "firecrawl",
        WebSearchProvider::Brave => "brave",
    }
}

/// A limit; none is written for zero.
pub open spec fn limit(n: usize, unit: Seq<char>) -> Seq<char> {
    if n == 0 {
        "unlimited"@
    } else {
        decimal(n as nat) + unit
    }
}

fn show_limit(n: usize, unit: &str) -> (r: String)
    ensures
        r@ == limit(n, unit@),
{
    if n == 0 {
        "unlimited".to_owned()
    } else {
        cat2(count_of(n).as_str(), unit)
    }
}

pub open spec fn effort_in_words(effort: Option<Seq<char>>) -> Seq<char> {
    match effort {
        Some(effort) => effort,
        None => "provider default"@,
    }
}

pub open spec fn bar_in_words(config: ConfigModel) -> Seq<char> {
    decimal(config.status_bar.items.len()) + " items, "@ + config.status_bar.style.name()
        + " style"@
}

/// The settings of the model and of the interface.
pub open spec fn general_lines(f: FactsModel) -> Seq<Seq<char>> {
    let c = f.config;
    seq![
        field("model"@, f.model),
        field("max_tokens"@, decimal(c.max_tokens as nat)),
        field("reasoning_effort"@, effort_in_words(c.reasoning_effort)),
        field("hide_reasoning"@, yes_no(c.hide_reasoning)),
        field("accent_color"@, color_text(c.accent_color)),
        field("selection_color"@, selection_text(c.selection_color)),
        field("status_bar"@, bar_in_words(c)),
        field("scroll_bar"@, switched(c.scroll_bar)),
        field("scroll_bar_auto_hide"@, switched(c.scroll_bar_auto_hide)),
        field("bell"@, switched(c.bell)),
    ]
}

fn push_general_lines(text: &mut Text, facts: &Facts)
    requires
        old(text).wf(),
    ensures
        final(text).wf(),
        final(text).parts@ == old(text).parts@ + general_lines(facts@),
{
    proof {
        reveal(facts_model);
    }
    let c = &facts.config;
    let effort = match &c.reasoning_effort {
        Some(effort) => effort.as_str(),
        None => "provider default",
    };
    let items: usize = c.status_bar.items.len();
    assert(c@.status_bar.items.len() == items);
    let bar = cat4(
        count_of(items).as_str(),
        " items, ",
        c.status_bar.style.as_str(),
        " style",
    );
    text.push_field("model", facts.model.as_str());
    text.push_field("max_tokens", decimal_of(c.max_tokens as u64).as_str());
    text.push_field("reasoning_effort", effort);
    text.push_field("hide_reasoning", show_yes_no(c.hide_reasoning));
    text.push_field("accent_color", c.accent_color.config_value().as_str());
    text.push_field(
        "selection_color",
        UiColor::selection_config_value(c.selection_color).as_str(),
    );
    text.push_field("status_bar", bar.as_str());
    text.push_field("scroll_bar", show_switched(c.scroll_bar));
    text.push_field("scroll_bar_auto_hide", show_switched(c.scroll_bar_auto_hide));
    text.push_field("bell", show_switched(c.bell));
    assert(text.parts@ =~= old(text).parts@ + general_lines(facts@));
}

/// The settings of the context and of the web.
pub open spec fn reach_lines(f: FactsModel) -> Seq<Seq<char>> {
    let c = f.config;
    seq![
        field("auto_compact"@, switched(c.auto_compact)),
        field("compact_threshold"@, decimal(c.compact_percent as nat) + "%"@),
        field("context_window for current model"@, decimal(f.context_window as nat)),
        field("web_browsing"@, switched(c.web_browsing)),
        field("web_search_provider"@, search_name(c.web_search_provider)),
        field("web_fetch_max_chars"@, decimal(c.web_fetch_max_chars as nat)),
        field("brave_api_key"@, key_place(c.brave_key)),
        field("firecrawl_api_key"@, key_place(c.firecrawl_key)),
    ]
}

fn push_reach_lines(text: &mut Text, facts: &Facts)
    requires
        old(text).wf(),
    ensures
        final(text).wf(),
        final(text).parts@ == old(text).parts@ + reach_lines(facts@),
{
    proof {
        reveal(facts_model);
    }
    let c = &facts.config;
    let percent = cat2(count_of(c.compact_percent).as_str(), "%");
    text.push_field("auto_compact", show_switched(c.auto_compact));
    text.push_field("compact_threshold", percent.as_str());
    text.push_field(
        "context_window for current model",
        decimal_of(facts.context_window).as_str(),
    );
    text.push_field("web_browsing", show_switched(c.web_browsing));
    text.push_field("web_search_provider", show_search_name(c.web_search_provider));
    text.push_field("web_fetch_max_chars", count_of(c.web_fetch_max_chars).as_str());
    text.push_field("brave_api_key", configured_key_status(c.brave_key));
    text.push_field("firecrawl_api_key", configured_key_status(c.firecrawl_key));
    assert(text.parts@ =~= old(text).parts@ + reach_lines(facts@));
}

/// The settings of the subagents and of the providers.
pub open spec fn helper_lines(f: FactsModel) -> Seq<Seq<char>> {
    let c = f.config;
    seq![
        field("subagents"@, switched(c.subagents)),
        field("max_subagents"@, decimal(c.max_subagents as nat)),
        field("subagent_model"@, c.subagent_model),
        field("subagent_request_budget"@, limit(c.subagent_request_budget, ""@)),
        field("subagent_timeout_secs"@, limit(c.subagent_timeout_secs, "s"@)),
        field("anthropic_base_url"@, c.anthropic_base_url),
        field("openai_base_url"@, c.openai_base_url),
        field("anthropic_api_key"@, is_set(c.has_anthropic_key)),
        field("openai_api_key"@, is_set(c.has_openai_key)),
    ]
}

fn push_helper_lines(text: &mut Text, facts: &Facts)
    requires
        old(text).wf(),
    ensures
        final(text).wf(),
        final(text).parts@ == old(text).parts@ + helper_lines(facts@),
{
    proof {
        reveal(facts_model);
    }
    let c = &facts.config;
    text.push_field("subagents", show_switched(c.subagents));
    text.push_field("max_subagents", count_of(c.max_subagents).as_str());
    text.push_field("subagent_model", c.subagent_model.as_str());
    text.push_field(
        "subagent_request_budget",
        show_limit(c.subagent_request_budget, "").as_str(),
    );
    text.push_field("subagent_timeout_secs", show_limit(c.subagent_timeout_secs, "s").as_str());
    text.push_field("anthropic_base_url", c.anthropic_base_url.as_str());
    text.push_field("openai_base_url", c.openai_base_url.as_str());
    text.push_field("anthropic_api_key", show_is_set(c.has_anthropic_key));
    text.push_field("openai_api_key", show_is_set(c.has_openai_key));
    assert(text.parts@ =~= old(text).parts@ + helper_lines(facts@));
}

pub open spec fn directory_line(directory: Seq<char>) -> Seq<char> {
    "- `"@ + directory + "`\n"@
}

pub open spec fn directory_lines(directories: Seq<Seq<char>>) -> Seq<Seq<char>> {
    directories.map_values(|directory: Seq<char>| directory_line(directory))
}

fn push_directories(text: &mut Text, directories: &Vec<String>)
    requires
        old(text).wf(),
    ensures
        final(text).wf(),
        final(text).parts@ == old(text).parts@ + directory_lines(views(directories@)),
{
    let ghost all = directory_lines(views(directories@));
    let mut i: usize = 0;
    assert(text.parts@ =~= old(text).parts@ + all.take(0));
    while i < directories.len()
        invariant
            i <= directories@.len(),
            all == directory_lines(views(directories@)),
            text.wf(),
            text.parts@ == old(text).parts@ + all.take(i as int),
        decreases directories@.len() - i,
    {
        let line = cat3("- `", directories[i].as_str(), "`\n");
        assert(views(directories@)[i as int] == directories@[i as int]@);
        text.push(line.as_str());
        i += 1;
        assert(text.parts@ =~= old(text).parts@ + all.take(i as int));
    }
    assert(all.take(i as int) =~= all);
}

pub open spec fn provider_line(provider: SummaryModel) -> Seq<char> {
    "- `"@ + provider.name + "`: `"@ + provider.base_url + "` ("@ + (if provider.has_key {
        "configured key"@
    } else {
        "no configured key"@
    }) + ", "@ + (decimal(provider.models as nat) + " listed models)\n"@)
}

pub open spec fn provider_lines(providers: Seq<SummaryModel>) -> Seq<Seq<char>> {
    providers.map_values(|provider: SummaryModel| provider_line(provider))
}

fn push_providers(text: &mut Text, providers: &Vec<ProviderSummary>)
    requires
        old(text).wf(),
    ensures
        final(text).wf(),
        final(text).parts@ == old(text).parts@ + provider_lines(views(providers@)),
{
    let ghost all = provider_lines(views(providers@));
    let mut i: usize = 0;
    assert(text.parts@ =~= old(text).parts@ + all.take(0));
    while i < providers.len()
        invariant
            i <= providers@.len(),
            all == provider_lines(views(providers@)),
            text.wf(),
            text.parts@ == old(text).parts@ + all.take(i as int),
        decreases providers@.len() - i,
    {
        let provider = &providers[i];
        assert(views(providers@)[i as int] == provider@);
        let key = if provider.has_key {
            "configured key"
        } else {
            "no configured key"
        };
        let models = cat2(count_of(provider.models).as_str(), " listed models)\n");
        let line = cat8(
            "- `",
            provider.name.as_str(),
            "`: `",
            provider.base_url.as_str(),
            "` (",
            key,
            ", ",
            models.as_str(),
        );
        text.push(line.as_str());
        i += 1;
        assert(text.parts@ =~= old(text).parts@ + all.take(i as int));
    }
    assert(all.take(i as int) =~= all);
}

/// How the settings are changed.
pub open spec fn settings_help(config_path: Seq<char>) -> Seq<char> {
    "\nChanges are written to `"@ + config_path + SETTINGS_COMMANDS@
}

pub const SETTINGS_COMMANDS: &'static str = "`. Project settings in `./.yawl/config.json` override them.\n\nCommands\n\n- `/settings model MODEL`\n- `/settings max_tokens NUMBER`\n- `/settings reasoning_effort default|minimal|low|medium|high|xhigh|max`\n- `/settings hide_reasoning on|off`\n- `/settings accent_color NAME|#RRGGBB`\n- `/settings selection_color accent|NAME|#RRGGBB`\n- `/settings scroll_bar on|off`\n- `/settings scroll_bar_auto_hide on|off`\n- `/settings bell on|off`\n- `/settings auto_compact on|off`\n- `/settings compact_threshold 85%`\n- `/settings context_window TOKENS`\n- `/settings web_browsing on|off`\n- `/settings web_search_provider duckduckgo|brave|firecrawl`\n- `/settings web_fetch_max_chars NUMBER`\n- `/settings brave_api_key KEY|-`\n- `/settings firecrawl_api_key KEY|-`\n- `/settings subagents on|off`\n- `/settings max_subagents NUMBER`\n- `/settings subagent_model inherit|MODEL`\n- `/settings subagent_request_budget NUMBER|0`\n- `/settings subagent_timeout_secs SECONDS|0`\n- `/settings skills add|remove DIRECTORY`\n- `/settings provider NAME BASE_URL [API_KEY|-]`\n- `/settings openai_base_url URL`\n- `/settings anthropic_base_url URL`\n- `/settings anthropic_api_key KEY|-`\n- `/settings openai_api_key KEY|-`\n- `/settings reload`\n\nUse an environment reference such as `$OMLX_API_KEY` instead of putting a secret directly in terminal history. Pass `-` as a key value to remove a saved key.";

/// All that is shown of the settings. The providers are listed by their names.
pub open spec fn settings_parts(f: FactsModel) -> Seq<Seq<char>> {
    seq!["Settings\n\n"@] + general_lines(f) + reach_lines(f) + helper_lines(f) + seq!["\nSkill directories\n\n"@]
        + directory_lines(f.config.skill_dirs) + seq!["\nOpenAI-compatible providers\n\n"@]
        + provider_lines(arranged::<ProviderSummary>(f.config.providers)) + seq![
        settings_help(f.config.config_path),
    ]
}

#[verifier::opaque]
pub open spec fn settings_text(f: FactsModel) -> Seq<char> {
    all_of(settings_parts(f))
}

/// Shows the settings; see `settings_text`.
pub fn show_settings(facts: &Facts) -> (r: String)
    ensures
        r@ == settings_text(facts@),
{
    proof {
        reveal(settings_text);
    }
    proof {
        reveal(facts_model);
    }
    let mut text = Text::new();
    text.push("Settings\n\n");
    push_general_lines(&mut text, facts);
    push_reach_lines(&mut text, facts);
    push_helper_lines(&mut text, facts);
    text.push("\nSkill directories\n\n");
    push_directories(&mut text, &facts.config.skill_dirs);
    text.push("\nOpenAI-compatible providers\n\n");
    let providers = arrange(&facts.config.providers);
    push_providers(&mut text, &providers);
    let help = cat3(
        "\nChanges are written to `",
        facts.config.config_path.as_str(),
        SETTINGS_COMMANDS,
    );
    text.push(help.as_str());
    assert(text.parts@ =~= settings_parts(facts@));
    text.text
}

// ---------------------------------------------------------------------------
// Usage

/// What a conversation has used, in numbers as they are shown.
#[derive(Debug)]
pub struct Usage {
    pub requests: u64,
    pub input: String,
    pub fresh: String,
    pub cached: String,
    pub cache_writes: String,
    pub output: String,
    /// Where the provider reports on its cache.
    pub cache_hit_percent: Option<u64>,
    pub cache_resets: u64,
}

pub struct UsageModel {
    pub requests: u64,
    pub input: Seq<char>,
    pub fresh: Seq<char>,
    pub cached: Seq<char>,
    pub cache_writes: Seq<char>,
    pub output: Seq<char>,
    pub cache_hit_percent: Option<u64>,
    pub cache_resets: u64,
}

impl View for Usage {
    type V = UsageModel;

    open spec fn view(&self) -> UsageModel {
        UsageModel {
            requests: self.requests,
            input: self.input@,
            fresh: self.fresh@,
            cached: self.cached@,
            cache_writes: self.cache_writes@,
            output: self.output@,
            cache_hit_percent: self.cache_hit_percent,
            cache_resets: self.cache_resets,
        }
    }
}

pub open spec fn usage_lines(u: UsageModel) -> Seq<Seq<char>> {
    seq![
        "- Requests: "@ + decimal(u.requests as nat) + "\n"@,
        "- Input: "@ + u.input + " total, "@ + u.fresh + " fresh, "@ + u.cached
            + " read from cache\n"@,
        "- Cache writes: "@ + u.cache_writes + "\n"@,
        "- Output: "@ + u.output + "\n"@,
        match u.cache_hit_percent {
            Some(percent) => "- Cache hit rate: "@ + decimal(percent as nat) + "%\n"@,
            None => "- Prompt cache: not reported\n"@,
        },
    ] + (if u.cache_resets > 0 {
        seq![
            "- Cache resets from compaction: "@ + decimal(u.cache_resets as nat) + "\n"@,
        ]
    } else {
        Seq::empty()
    })
}

fn append_usage_summary(text: &mut Text, usage: &Usage)
    requires
        old(text).wf(),
    ensures
        final(text).wf(),
        final(text).parts@ == old(text).parts@ + usage_lines(usage@),
{
    text.push(cat3("- Requests: ", decimal_of(usage.requests).as_str(), "\n").as_str());
    let input = cat7(
        "- Input: ",
        usage.input.as_str(),
        " total, ",
        usage.fresh.as_str(),
        " fresh, ",
        usage.cached.as_str(),
        " read from cache\n",
    );
    text.push(input.as_str());
    text.push(cat3("- Cache writes: ", usage.cache_writes.as_str(), "\n").as_str());
    text.push(cat3("- Output: ", usage.output.as_str(), "\n").as_str());
    match usage.cache_hit_percent {
        Some(percent) => text.push(
            cat3("- Cache hit rate: ", decimal_of(percent).as_str(), "%\n").as_str(),
        ),
        None => text.push("- Prompt cache: not reported\n"),
    }
    if usage.cache_resets > 0 {
        let resets = cat3(
            "- Cache resets from compaction: ",
            decimal_of(usage.cache_resets).as_str(),
            "\n",
        );
        text.push(resets.as_str());
    }
    assert(text.parts@ =~= old(text).parts@ + usage_lines(usage@));
}

/// What the conversation has used, and its subagents where they have made
/// requests.
pub open spec fn usage_parts(main: UsageModel, children: UsageModel) -> Seq<Seq<char>> {
    seq!["Token usage\n\nMain conversation\n"@] + usage_lines(main) + (if children.requests > 0 {
        seq!["\nSubagents\n"@] + usage_lines(children)
    } else {
        Seq::empty()
    }) + seq![
        "\nProvider-reported totals are persisted for the main session. Cache writes are reported separately from fresh input."@,
    ]
}

pub fn show_usage(main: &Usage, children: &Usage) -> (r: String)
    ensures
        r@ == all_of(usage_parts(main@, children@)),
{
    let mut text = Text::new();
    text.push("Token usage\n\nMain conversation\n");
    append_usage_summary(&mut text, main);
    if children.requests > 0 {
        text.push("\nSubagents\n");
        append_usage_summary(&mut text, children);
    }
    text.push(
        "\nProvider-reported totals are persisted for the main session. Cache writes are reported separately from fresh input.",
    );
    assert(text.parts@ =~= usage_parts(main@, children@));
    text.text
}

// ---------------------------------------------------------------------------
// Skills and tools

/// A skill that was found.
#[derive(Debug)]
pub struct FoundSkill {
    pub name: String,
    pub description: String,
    /// The model does not use it on its own.
    pub manual: bool,
}

pub struct SkillModel {
    pub name: Seq<char>,
    pub description: Seq<char>,
    pub manual: bool,
}

impl View for FoundSkill {
    type V = SkillModel;

    open spec fn view(&self) -> SkillModel {
        SkillModel {
            name: self.name@,
            description: self.description@,
            manual: self.manual,
        }
    }
}

pub open spec fn skill_line(skill: SkillModel) -> Seq<char> {
    "- `/skill:"@ + skill.name + "`"@ + (if skill.manual {
        " (manual only)"@
    } else {
        ""@
    }) + ": "@ + skill.description + "\n"@
}

pub open spec fn skill_lines(skills: Seq<SkillModel>) -> Seq<Seq<char>> {
    skills.map_values(|skill: SkillModel| skill_line(skill))
}

fn push_skills(text: &mut Text, skills: &Vec<FoundSkill>)
    requires
        old(text).wf(),
    ensures
        final(text).wf(),
        final(text).parts@ == old(text).parts@ + skill_lines(views(skills@)),
{
    let ghost all = skill_lines(views(skills@));
    let mut i: usize = 0;
    assert(text.parts@ =~= old(text).parts@ + all.take(0));
    while i < skills.len()
        invariant
            i <= skills@.len(),
            all == skill_lines(views(skills@)),
            text.wf(),
            text.parts@ == old(text).parts@ + all.take(i as int),
        decreases skills@.len() - i,
    {
        let skill = &skills[i];
        assert(views(skills@)[i as int] == skill@);
        let mode = if skill.manual {
            " (manual only)"
        } else {
            ""
        };
        let line = cat7(
            "- `/skill:",
            skill.name.as_str(),
            "`",
            mode,
            ": ",
            skill.description.as_str(),
            "\n",
        );
        text.push(line.as_str());
        i += 1;
        assert(text.parts@ =~= old(text).parts@ + all.take(i as int));
    }
    assert(all.take(i as int) =~= all);
}

pub open spec fn warning_lines(warnings: Seq<Seq<char>>) -> Seq<Seq<char>> {
    warnings.map_values(|warning: Seq<char>| "- "@ + warning + "\n"@)
}

fn push_warnings(text: &mut Text, warnings: &Vec<String>)
    requires
        old(text).wf(),
    ensures
        final(text).wf(),
        final(text).parts@ == old(text).parts@ + warning_lines(views(warnings@)),
{
    let ghost all = warning_lines(views(warnings@));
    let mut i: usize = 0;
    assert(text.parts@ =~= old(text).parts@ + all.take(0));
    while i < warnings.len()
        invariant
            i <= warnings@.len(),
            all == warning_lines(views(warnings@)),
            text.wf(),
            text.parts@ == old(text).parts@ + all.take(i as int),
        decreases warnings@.len() - i,
    {
        assert(views(warnings@)[i as int] == warnings@[i as int]@);
        text.push(cat3("- ", warnings[i].as_str(), "\n").as_str());
        i += 1;
        assert(text.parts@ =~= old(text).parts@ + all.take(i as int));
    }
    assert(all.take(i as int) =~= all);
}

/// What is said of the skills. `untrusted` says whether the project has some
/// that are not trusted.
pub open spec fn skill_parts(
    directories: Seq<Seq<char>>,
    untrusted: bool,
    skills: Seq<SkillModel>,
    warnings: Seq<Seq<char>>,
) -> Seq<Seq<char>> {
    seq!["Skill directories\n\n"@] + directory_lines(directories) + (if untrusted {
        seq!["\nProject skill sources are not trusted for this invocation.\n"@]
    } else {
        Seq::empty()
    }) + (if skills.len() == 0 {
        seq!["\nNo skills found. Add one with `/settings skills add DIRECTORY`."@]
    } else {
        seq!["\nAvailable skills\n\n"@] + skill_lines(skills)
    }) + (if warnings.len() == 0 {
        Seq::empty()
    } else {
        seq!["\nRejected skills\n\n"@] + warning_lines(warnings)
    })
}

pub fn show_skills(
    directories: &Vec<String>,
    untrusted: bool,
    skills: &Vec<FoundSkill>,
    warnings: &Vec<String>,
) -> (r: String)
    ensures
        r@ == all_of(
            skill_parts(views(directories@), untrusted, views(skills@), views(warnings@)),
        ),
{
    let mut text = Text::new();
    text.push("Skill directories\n\n");
    push_directories(&mut text, directories);
    if untrusted {
        text.push("\nProject skill sources are not trusted for this invocation.\n");
    }
    if skills.len() == 0 {
        text.push("\nNo skills found. Add one with `/settings skills add DIRECTORY`.");
    } else {
        text.push("\nAvailable skills\n\n");
        push_skills(&mut text, skills);
    }
    if warnings.len() > 0 {
        text.push("\nRejected skills\n\n");
        push_warnings(&mut text, warnings);
    }
    assert(text.parts@ =~= skill_parts(
        views(directories@),
        untrusted,
        views(skills@),
        views(warnings@),
    ));
    text.text
}

/// The files whose changes are not shown.
pub open spec fn skipped_parts(skipped: Seq<Seq<char>>) -> Seq<Seq<char>> {
    seq!["Files not shown\n\n"@] + warning_lines(skipped)
}

pub(crate) fn list_skipped(skipped: &Vec<String>) -> (r: String)
    ensures
        r@ == all_of(skipped_parts(views(skipped@))),
{
    let mut text = Text::new();
    text.push("Files not shown\n\n");
    push_warnings(&mut text, skipped);
    assert(text.parts@ =~= skipped_parts(views(skipped@)));
    text.text
}

/// A tool that the model can call.
#[derive(Debug)]
pub struct FoundTool {
    pub name: String,
    pub origin: String,
    pub description: String,
}

pub struct ToolModel {
    pub name: Seq<char>,
    pub origin: Seq<char>,
    pub description: Seq<char>,
}

impl View for FoundTool {
    type V = ToolModel;

    open spec fn view(&self) -> ToolModel {
        ToolModel {
            name: self.name@,
            origin: self.origin@,
            description: self.description@,
        }
    }
}

pub open spec fn tool_parts(tools: Seq<ToolModel>, warnings: Seq<Seq<char>>) -> Seq<Seq<char>> {
    seq!["Available tools\n\n"@] + tools.map_values(
        |tool: ToolModel|
            "- `"@ + tool.name + "` ("@ + tool.origin + "): "@ + tool.description + "\n"@,
    ) + warnings.map_values(|warning: Seq<char>| "\nWarning: "@ + warning)
}

/// The tools that the model can call, and what was wrong with others.
pub fn show_tools(tools: &Vec<FoundTool>, warnings: &Vec<String>) -> (r: String)
    ensures
        r@ == all_of(tool_parts(views(tools@), views(warnings@))),
{
    let ghost all = tool_parts(views(tools@), views(warnings@));
    let mut text = Text::new();
    text.push("Available tools\n\n");
    let n: usize = tools.len();
    let mut i: usize = 0;
    assert(text.parts@ =~= all.take(1));
    while i < n
        invariant
            i <= n,
            n == tools@.len(),
            all == tool_parts(views(tools@), views(warnings@)),
            text.wf(),
            text.parts@ == all.take(i + 1),
        decreases n - i,
    {
        let tool = &tools[i];
        assert(views(tools@)[i as int] == tool@);
        let line = cat7(
            "- `",
            tool.name.as_str(),
            "` (",
            tool.origin.as_str(),
            "): ",
            tool.description.as_str(),
            "\n",
        );
        text.push(line.as_str());
        i += 1;
        assert(text.parts@ =~= all.take(i + 1));
    }
    let mut k: usize = 0;
    while k < warnings.len()
        invariant
            k <= warnings@.len(),
            n == tools@.len(),
            all == tool_parts(views(tools@), views(warnings@)),
            text.wf(),
            text.parts@ == all.take(n + 1 + k),
        decreases warnings@.len() - k,
    {
        assert(views(warnings@)[k as int] == warnings@[k as int]@);
        text.push(cat2("\nWarning: ", warnings[k].as_str()).as_str());
        k += 1;
        assert(text.parts@ =~= all.take(n + 1 + k));
    }
    assert(all.take(n + 1 + k) =~= all);
    text.text
}

// ---------------------------------------------------------------------------
// Undo

/// What came of taking the last turn back.
#[derive(Debug)]
pub struct UndoReport {
    /// The messages that were dropped.
    pub dropped: usize,
    pub reset_head: bool,
    pub restored_files: bool,
    pub warning: Option<String>,
}

pub open spec fn undo_text(
    dropped: usize,
    reset_head: bool,
    restored_files: bool,
    warning: Option<Seq<char>>,
) -> Seq<char> {
    if dropped == 0 {
        "Nothing to undo."@
    } else {
        "Undid the last turn."@ + (if reset_head {
            " Reset git HEAD."@
        } else {
            ""@
        }) + (if restored_files {
            ""@
        } else {
            " File changes could not be restored."@
        }) + (match warning {
            Some(warning) => " "@ + warning,
            None => ""@,
        })
    }
}

pub fn notice_undo(report: &UndoReport) -> (r: String)
    ensures
        r@ == undo_text(
            report.dropped,
            report.reset_head,
            report.restored_files,
            option_view(report.warning),
        ),
{
    if report.dropped == 0 {
        return "Nothing to undo.".to_owned();
    }
    let head = if report.reset_head {
        " Reset git HEAD."
    } else {
        ""
    };
    let files = if report.restored_files {
        ""
    } else {
        " File changes could not be restored."
    };
    let warning = match &report.warning {
        Some(warning) => cat2(" ", warning.as_str()),
        None => "".to_owned(),
    };
    cat4("Undid the last turn.", head, files, warning.as_str())
}

} // verus!
