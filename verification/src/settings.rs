//! The `/settings` command.

use vstd::prelude::*;
use crate::config::{BarModel, StatusBarConfig, WebSearchProvider};
use crate::model::option_view;
use crate::style::UiColor;
use crate::text::{
    ascii_lower, ascii_lower_all, cat3, cat5, chars_of, count_of, decimal, is, parse_unsigned,
    parsed_unsigned, split_words, string_of, texts, to_ascii_lower_all, words_of,
};

verus! {

broadcast use vstd::string::group_string_axioms;

/// A change of the settings.
#[derive(Debug)]
pub enum ConfigChange {
    Reload,
    Model(String),
    MaxTokens(u32),
    /// What is stored, and what is asked for.
    ReasoningEffort { stored: String, effective: Option<String> },
    HideReasoning(bool),
    AccentColor(UiColor),
    SelectionColor(Option<UiColor>),
    StatusBar(StatusBarConfig),
    ScrollBar(bool),
    ScrollBarAutoHide(bool),
    Bell(bool),
    AutoCompact(bool),
    /// The threshold as it was written: a fraction, or a percentage.
    CompactThreshold(String),
    WebBrowsing(bool),
    WebSearchProvider(WebSearchProvider),
    WebFetchMaxChars(usize),
    /// Without a key, the saved one is removed.
    BraveApiKey(Option<String>),
    FirecrawlApiKey(Option<String>),
    Subagents(bool),
    MaxSubagents(usize),
    SubagentModel(String),
    SubagentRequestBudget(usize),
    SubagentTimeoutSecs(usize),
    ContextWindow { model: String, window: u64 },
    SkillDirectory { add: bool, path: String },
    AnthropicBaseUrl(String),
    OpenAiBaseUrl(String),
    AnthropicApiKey(Option<String>),
    OpenAiApiKey(Option<String>),
    Provider { name: String, base_url: String, api_key: Option<String> },
}

pub enum ChangeModel {
    Reload,
    Model(Seq<char>),
    MaxTokens(u32),
    ReasoningEffort { stored: Seq<char>, effective: Option<Seq<char>> },
    HideReasoning(bool),
    AccentColor(UiColor),
    SelectionColor(Option<UiColor>),
    StatusBar(BarModel),
    ScrollBar(bool),
    ScrollBarAutoHide(bool),
    Bell(bool),
    AutoCompact(bool),
    CompactThreshold(Seq<char>),
    WebBrowsing(bool),
    WebSearchProvider(WebSearchProvider),
    WebFetchMaxChars(usize),
    BraveApiKey(Option<Seq<char>>),
    FirecrawlApiKey(Option<Seq<char>>),
    Subagents(bool),
    MaxSubagents(usize),
    SubagentModel(Seq<char>),
    SubagentRequestBudget(usize),
    SubagentTimeoutSecs(usize),
    ContextWindow { model: Seq<char>, window: u64 },
    SkillDirectory { add: bool, path: Seq<char> },
    AnthropicBaseUrl(Seq<char>),
    OpenAiBaseUrl(Seq<char>),
    AnthropicApiKey(Option<Seq<char>>),
    OpenAiApiKey(Option<Seq<char>>),
    Provider { name: Seq<char>, base_url: Seq<char>, api_key: Option<Seq<char>> },
}

impl View for ConfigChange {
    type V = ChangeModel;

    open spec fn view(&self) -> ChangeModel {
        match self {
            ConfigChange::Reload => ChangeModel::Reload,
            ConfigChange::Model(a) => ChangeModel::Model(a@),
            ConfigChange::MaxTokens(a) => ChangeModel::MaxTokens(*a),
            ConfigChange::ReasoningEffort { stored, effective } => ChangeModel::ReasoningEffort { stored: stored@, effective: option_view(*effective) },
            ConfigChange::HideReasoning(a) => ChangeModel::HideReasoning(*a),
            ConfigChange::AccentColor(a) => ChangeModel::AccentColor(*a),
            ConfigChange::SelectionColor(a) => ChangeModel::SelectionColor(*a),
            ConfigChange::StatusBar(a) => ChangeModel::StatusBar(a@),
            ConfigChange::ScrollBar(a) => ChangeModel::ScrollBar(*a),
            ConfigChange::ScrollBarAutoHide(a) => ChangeModel::ScrollBarAutoHide(*a),
            ConfigChange::Bell(a) => ChangeModel::Bell(*a),
            ConfigChange::AutoCompact(a) => ChangeModel::AutoCompact(*a),
            ConfigChange::CompactThreshold(a) => ChangeModel::CompactThreshold(a@),
            ConfigChange::WebBrowsing(a) => ChangeModel::WebBrowsing(*a),
            ConfigChange::WebSearchProvider(a) => ChangeModel::WebSearchProvider(*a),
            ConfigChange::WebFetchMaxChars(a) => ChangeModel::WebFetchMaxChars(*a),
            ConfigChange::BraveApiKey(a) => ChangeModel::BraveApiKey(option_view(*a)),
            ConfigChange::FirecrawlApiKey(a) => ChangeModel::FirecrawlApiKey(option_view(*a)),
            ConfigChange::Subagents(a) => ChangeModel::Subagents(*a),
            ConfigChange::MaxSubagents(a) => ChangeModel::MaxSubagents(*a),
            ConfigChange::SubagentModel(a) => ChangeModel::SubagentModel(a@),
            ConfigChange::SubagentRequestBudget(a) => ChangeModel::SubagentRequestBudget(*a),
            ConfigChange::SubagentTimeoutSecs(a) => ChangeModel::SubagentTimeoutSecs(*a),
            ConfigChange::ContextWindow { model, window } => ChangeModel::ContextWindow { model: model@, window: *window },
            ConfigChange::SkillDirectory { add, path } => ChangeModel::SkillDirectory { add: *add, path: path@ },
            ConfigChange::AnthropicBaseUrl(a) => ChangeModel::AnthropicBaseUrl(a@),
            ConfigChange::OpenAiBaseUrl(a) => ChangeModel::OpenAiBaseUrl(a@),
            ConfigChange::AnthropicApiKey(a) => ChangeModel::AnthropicApiKey(option_view(*a)),
            ConfigChange::OpenAiApiKey(a) => ChangeModel::OpenAiApiKey(option_view(*a)),
            ConfigChange::Provider { name, base_url, api_key } => ChangeModel::Provider { name: name@, base_url: base_url@, api_key: option_view(*api_key) },
        }
    }
}

// ---------------------------------------------------------------------------
// Colors

/// The color of a name in lower case.
pub open spec fn named_color(name: Seq<char>) -> Option<UiColor> {
    if name == "white"@ {
        Some(crate::style::white_color())
    } else if name == "gray"@ {
        Some(UiColor { red: 148, green: 148, blue: 158 })
    } else if name == "red"@ {
        Some(UiColor { red: 235, green: 111, blue: 146 })
    } else if name == "orange"@ {
        Some(UiColor { red: 240, green: 160, blue: 96 })
    } else if name == "yellow"@ {
        Some(UiColor { red: 232, green: 202, blue: 118 })
    } else if name == "green"@ {
        Some(UiColor { red: 139, green: 213, blue: 162 })
    } else if name == "cyan"@ {
        Some(UiColor { red: 116, green: 199, blue: 213 })
    } else if name == "blue"@ {
        Some(UiColor { red: 117, green: 169, blue: 255 })
    } else if name == "purple"@ {
        Some(UiColor { red: 190, green: 149, blue: 255 })
    } else if name == "pink"@ {
        Some(UiColor { red: 238, green: 148, blue: 200 })
    } else {
        None
    }
}

/// The value of a hexadecimal digit in lower case.
pub open spec fn hex_value(c: char) -> Option<int> {
    if '0' <= c <= '9' {
        Some(c as int - '0' as int)
    } else if 'a' <= c <= 'f' {
        Some(c as int - 'a' as int + 10)
    } else {
        None
    }
}

/// The channel that two hexadecimal digits stand for.
pub open spec fn hex_pair(a: char, b: char) -> Option<u8> {
    match (hex_value(a), hex_value(b)) {
        (Some(x), Some(y)) => Some((x * 16 + y) as u8),
        _ => None,
    }
}

/// The color that `#rrggbb` stands for.
pub open spec fn hex_color(s: Seq<char>) -> Option<UiColor> {
    if s.len() == 7 && s[0] == '#' {
        match (hex_pair(s[1], s[2]), hex_pair(s[3], s[4]), hex_pair(s[5], s[6])) {
            (Some(red), Some(green), Some(blue)) => Some(UiColor { red, green, blue }),
            _ => None,
        }
    } else {
        None
    }
}

/// The color that a text stands for: a name, or six hexadecimal digits after a
/// number sign, in either case.
pub open spec fn parsed_color(s: Seq<char>) -> Option<UiColor> {
    let lower = ascii_lower_all(s);
    match named_color(lower) {
        Some(color) => Some(color),
        None => hex_color(lower),
    }
}

/// A hexadecimal digit in upper case.
pub open spec fn hex_digit(n: int) -> char {
    if n < 10 {
        (n + 48) as char
    } else {
        (n + 55) as char
    }
}

pub open spec fn hex_text(n: u8) -> Seq<char> {
    seq![hex_digit(n as int / 16), hex_digit(n as int % 16)]
}

/// A color as it is written in the settings.
pub open spec fn color_text(color: UiColor) -> Seq<char> {
    "#"@ + hex_text(color.red) + hex_text(color.green) + hex_text(color.blue)
}

/// The color of the selection as it is written in the settings.
pub open spec fn selection_text(color: Option<UiColor>) -> Seq<char> {
    match color {
        Some(color) => color_text(color),
        None => "accent"@,
    }
}

pub open spec fn color_error(value: Seq<char>) -> Seq<char> {
    "unknown color '"@ + value + "'; use a color name or #RRGGBB"@
}

fn hex_of(c: char) -> (r: Option<u8>)
    ensures
        match r {
            Some(n) => hex_value(c) == Some(n as int) && n < 16,
            None => hex_value(c) is None,
        },
{
    if '0' <= c && c <= '9' {
        Some((c as u32 - '0' as u32) as u8)
    } else if 'a' <= c && c <= 'f' {
        Some((c as u32 - 'a' as u32 + 10) as u8)
    } else {
        None
    }
}

fn pair_of(a: char, b: char) -> (r: Option<u8>)
    ensures
        r == hex_pair(a, b),
{
    match (hex_of(a), hex_of(b)) {
        (Some(x), Some(y)) => Some(x * 16 + y),
        _ => None,
    }
}

fn find_color(name: &Vec<char>) -> (r: Option<UiColor>)
    ensures
        r == named_color(name@),
{
    if is(name, "white") {
        Some(UiColor::white())
    } else if is(name, "gray") {
        Some(UiColor::new(148, 148, 158))
    } else if is(name, "red") {
        Some(UiColor::new(235, 111, 146))
    } else if is(name, "orange") {
        Some(UiColor::new(240, 160, 96))
    } else if is(name, "yellow") {
        Some(UiColor::new(232, 202, 118))
    } else if is(name, "green") {
        Some(UiColor::new(139, 213, 162))
    } else if is(name, "cyan") {
        Some(UiColor::new(116, 199, 213))
    } else if is(name, "blue") {
        Some(UiColor::new(117, 169, 255))
    } else if is(name, "purple") {
        Some(UiColor::new(190, 149, 255))
    } else if is(name, "pink") {
        Some(UiColor::new(238, 148, 200))
    } else {
        None
    }
}

fn hex_char(n: u8) -> (r: char)
    requires
        n < 16,
    ensures
        r == hex_digit(n as int),
{
    if n < 10 {
        (n + 48) as char
    } else {
        (n + 55) as char
    }
}

fn push_hex(text: &mut String, n: u8)
    ensures
        final(text)@ == old(text)@ + hex_text(n),
{
    text.push(hex_char(n / 16));
    text.push(hex_char(n % 16));
    assert(text@ =~= old(text)@ + hex_text(n));
}

impl UiColor {
    /// Reads a color; see `parsed_color`.
    pub fn parse(value: &str) -> (r: Result<UiColor, String>)
        ensures
            match r {
                Ok(color) => parsed_color(value@) == Some(color),
                Err(error) => parsed_color(value@) is None && error@ == color_error(value@),
            },
    {
        let lower = to_ascii_lower_all(&chars_of(value));
        match find_color(&lower) {
            Some(color) => return Ok(color),
            None => {},
        }
        if lower.len() == 7 && lower[0] == '#' {
            match (
                pair_of(lower[1], lower[2]),
                pair_of(lower[3], lower[4]),
                pair_of(lower[5], lower[6]),
            ) {
                (Some(red), Some(green), Some(blue)) => return Ok(UiColor { red, green, blue }),
                _ => {},
            }
        }
        Err(cat3("unknown color '", value, "'; use a color name or #RRGGBB"))
    }

    /// A color as it is written in the settings.
    pub fn config_value(self) -> (r: String)
        ensures
            r@ == color_text(self),
    {
        let mut r = "#".to_owned();
        push_hex(&mut r, self.red);
        push_hex(&mut r, self.green);
        push_hex(&mut r, self.blue);
        r
    }

    pub fn selection_config_value(color: Option<UiColor>) -> (r: String)
        ensures
            r@ == selection_text(color),
    {
        match color {
            Some(color) => color.config_value(),
            None => "accent".to_owned(),
        }
    }
}

proof fn hex_reads_back(n: u8)
    ensures
        hex_pair(ascii_lower(hex_text(n)[0]), ascii_lower(hex_text(n)[1])) == Some(n),
{
    let a = n as int / 16;
    let b = n as int % 16;
    assert(0 <= a < 16 && 0 <= b < 16 && a * 16 + b == n);
    assert forall|k: int| 0 <= k < 16 implies hex_value(ascii_lower(#[trigger] hex_digit(k)))
        == Some(k) by {
        if k < 10 {
            assert(hex_digit(k) as int == k + 48);
        } else {
            assert(hex_digit(k) as int == k + 55);
        }
    }
}

/// A color that is written into the settings is read back from them.
pub proof fn colors_read_back(color: UiColor)
    ensures
        parsed_color(color_text(color)) == Some(color),
{
    let text = color_text(color);
    let lower = ascii_lower_all(text);
    reveal_strlit("#");
    reveal_strlit("white");
    reveal_strlit("gray");
    reveal_strlit("red");
    reveal_strlit("orange");
    reveal_strlit("yellow");
    reveal_strlit("green");
    reveal_strlit("cyan");
    reveal_strlit("blue");
    reveal_strlit("purple");
    reveal_strlit("pink");
    assert(lower.len() == 7);
    assert(lower[0] == '#');
    assert(named_color(lower) is None) by {
        assert("white"@[0] == 'w');
        assert("gray"@[0] == 'g');
        assert("red"@[0] == 'r');
        assert("orange"@[0] == 'o');
        assert("yellow"@[0] == 'y');
        assert("green"@[0] == 'g');
        assert("cyan"@[0] == 'c');
        assert("blue"@[0] == 'b');
        assert("purple"@[0] == 'p');
        assert("pink"@[0] == 'p');
    }
    hex_reads_back(color.red);
    hex_reads_back(color.green);
    hex_reads_back(color.blue);
    assert(text[1] == hex_text(color.red)[0] && text[2] == hex_text(color.red)[1]);
    assert(text[3] == hex_text(color.green)[0] && text[4] == hex_text(color.green)[1]);
    assert(text[5] == hex_text(color.blue)[0] && text[6] == hex_text(color.blue)[1]);
}

// ---------------------------------------------------------------------------
// Values

pub const MAX_WEB_FETCH_MAX_CHARS: usize = 50000;

pub const MAX_SUBAGENTS: usize = 16;

pub const MAX_SUBAGENT_REQUEST_BUDGET: usize = 1000;

pub const MAX_SUBAGENT_TIMEOUT_SECS: usize = 86400;

/// A switch: `on` or `off`.
pub open spec fn parsed_switch(value: Seq<char>) -> Option<bool> {
    if value == "on"@ {
        Some(true)
    } else if value == "off"@ {
        Some(false)
    } else {
        None
    }
}

fn parse_on_off(value: &Vec<char>) -> (r: Option<bool>)
    ensures
        r == parsed_switch(value@),
{
    if is(value, "on") {
        Some(true)
    } else if is(value, "off") {
        Some(false)
    } else {
        None
    }
}

/// A number between bounds.
pub open spec fn parsed_between(value: Seq<char>, least: usize, most: usize) -> Option<usize> {
    match parsed_unsigned(value, usize::MAX as nat) {
        Some(n) => if least <= n <= most {
            Some(n as usize)
        } else {
            None
        },
        None => None,
    }
}

pub open spec fn bounds_error(name: Seq<char>, least: usize, most: usize) -> Seq<char> {
    name + " must be between "@ + decimal(least as nat) + " and "@ + decimal(most as nat)
}

fn parse_bounded(value: &Vec<char>, least: usize, most: usize, name: &str) -> (r: Result<
    usize,
    String,
>)
    ensures
        match r {
            Ok(n) => parsed_between(value@, least, most) == Some(n),
            Err(error) => parsed_between(value@, least, most) is None && error@ == bounds_error(
                name@,
                least,
                most,
            ),
        },
{
    match parse_unsigned(value, usize::MAX as u64) {
        Some(n) => {
            if least as u64 <= n && n <= most as u64 {
                return Ok(n as usize);
            }
        },
        None => {},
    }
    Err(
        cat5(
            name,
            " must be between ",
            count_of(least).as_str(),
            " and ",
            count_of(most).as_str(),
        ),
    )
}

/// A key; a single dash removes the saved one.
pub open spec fn parsed_key(value: Seq<char>) -> Option<Seq<char>> {
    if value == "-"@ {
        None
    } else {
        Some(value)
    }
}

fn parse_builtin_api_key(value: &Vec<char>) -> (r: Option<String>)
    ensures
        option_view(r) == parsed_key(value@),
{
    if is(value, "-") {
        None
    } else {
        Some(string_of(value))
    }
}

/// A reasoning level that can be saved, other than the provider's default.
pub open spec fn is_level(value: Seq<char>) -> bool {
    value == "minimal"@ || value == "low"@ || value == "medium"@ || value == "high"@ || value
        == "xhigh"@ || value == "max"@
}

fn known_level(value: &Vec<char>) -> (r: bool)
    ensures
        r == is_level(value@),
{
    is(value, "minimal") || is(value, "low") || is(value, "medium") || is(value, "high") || is(
        value,
        "xhigh",
    ) || is(value, "max")
}

pub open spec fn reasoning_change(value: Seq<char>) -> Result<ChangeModel, Seq<char>> {
    if value == "default"@ || value == "off"@ {
        Ok(ChangeModel::ReasoningEffort { stored: value, effective: None })
    } else if is_level(value) {
        Ok(ChangeModel::ReasoningEffort { stored: value, effective: Some(value) })
    } else {
        Err("unsupported reasoning effort"@)
    }
}

/// The outcome of a parse as a model.
pub open spec fn outcome(r: Result<ConfigChange, String>) -> Result<ChangeModel, Seq<char>> {
    match r {
        Ok(change) => Ok(change@),
        Err(error) => Err(error@),
    }
}

fn reasoning_effort_change(value: &Vec<char>) -> (r: Result<ConfigChange, String>)
    ensures
        outcome(r) == reasoning_change(value@),
{
    if is(value, "default") || is(value, "off") {
        Ok(ConfigChange::ReasoningEffort { stored: string_of(value), effective: None })
    } else if known_level(value) {
        Ok(
            ConfigChange::ReasoningEffort {
                stored: string_of(value),
                effective: Some(string_of(value)),
            },
        )
    } else {
        Err("unsupported reasoning effort".to_owned())
    }
}

pub open spec fn parsed_search(value: Seq<char>) -> Option<WebSearchProvider> {
    if value == "duckduckgo"@ {
        Some(WebSearchProvider::DuckDuckGo)
    } else if value == "brave"@ {
        Some(WebSearchProvider::Brave)
    } else if value == "firecrawl"@ {
        Some(WebSearchProvider::Firecrawl)
    } else {
        None
    }
}

// ---------------------------------------------------------------------------
// The command

/// What a setting that takes one value is used like.
pub open spec fn setting_usage(key: Seq<char>) -> Option<Seq<char>> {
    if key == "model"@ {
        Some("usage: /settings model MODEL"@)
    } else if key == "max_tokens"@ {
        Some("usage: /settings max_tokens NUMBER"@)
    } else if key == "reasoning_effort"@ {
        Some("usage: /settings reasoning_effort default|minimal|low|medium|high|xhigh|max"@)
    } else if key == "hide_reasoning"@ {
        Some("usage: /settings hide_reasoning on|off"@)
    } else if key == "accent_color"@ || key == "status_bar_color"@ || key == "text_box_color"@ {
        Some("usage: /settings accent_color NAME|#RRGGBB"@)
    } else if key == "selection_color"@ {
        Some("usage: /settings selection_color accent|NAME|#RRGGBB"@)
    } else if key == "scroll_bar"@ {
        Some("usage: /settings scroll_bar on|off"@)
    } else if key == "scroll_bar_auto_hide"@ {
        Some("usage: /settings scroll_bar_auto_hide on|off"@)
    } else if key == "bell"@ {
        Some("usage: /settings bell on|off"@)
    } else if key == "auto_compact"@ {
        Some("usage: /settings auto_compact on|off"@)
    } else if key == "compact_threshold"@ {
        Some("usage: /settings compact_threshold FRACTION|PERCENT%"@)
    } else if key == "web_browsing"@ {
        Some("usage: /settings web_browsing on|off"@)
    } else if key == "web_search_provider"@ {
        Some("usage: /settings web_search_provider duckduckgo|brave|firecrawl"@)
    } else if key == "web_fetch_max_chars"@ {
        Some("usage: /settings web_fetch_max_chars NUMBER"@)
    } else if key == "brave_api_key"@ {
        Some("usage: /settings brave_api_key KEY|-"@)
    } else if key == "firecrawl_api_key"@ {
        Some("usage: /settings firecrawl_api_key KEY|-"@)
    } else if key == "subagents"@ {
        Some("usage: /settings subagents on|off"@)
    } else if key == "max_subagents"@ {
        Some("usage: /settings max_subagents NUMBER"@)
    } else if key == "subagent_model"@ {
        Some("usage: /settings subagent_model inherit|MODEL"@)
    } else if key == "subagent_request_budget"@ {
        Some("usage: /settings subagent_request_budget NUMBER|0-for-unlimited"@)
    } else if key == "subagent_timeout_secs"@ {
        Some("usage: /settings subagent_timeout_secs SECONDS|0-for-unlimited"@)
    } else if key == "context_window"@ {
        Some("usage: /settings context_window TOKENS"@)
    } else if key == "anthropic_base_url"@ || key == "openai_base_url"@ {
        Some("usage: /settings openai_base_url URL"@)
    } else if key == "anthropic_api_key"@ || key == "openai_api_key"@ {
        Some("usage: /settings anthropic_api_key KEY|-"@)
    } else {
        None
    }
}

fn usage_of(key: &Vec<char>) -> (r: Option<&'static str>)
    ensures
        match r {
            Some(usage) => setting_usage(key@) == Some(usage@),
            None => setting_usage(key@) is None,
        },
{
    if is(key, "model") {
        Some("usage: /settings model MODEL")
    } else if is(key, "max_tokens") {
        Some("usage: /settings max_tokens NUMBER")
    } else if is(key, "reasoning_effort") {
        Some("usage: /settings reasoning_effort default|minimal|low|medium|high|xhigh|max")
    } else if is(key, "hide_reasoning") {
        Some("usage: /settings hide_reasoning on|off")
    } else if is(key, "accent_color") || is(key, "status_bar_color") || is(key, "text_box_color") {
        Some("usage: /settings accent_color NAME|#RRGGBB")
    } else if is(key, "selection_color") {
        Some("usage: /settings selection_color accent|NAME|#RRGGBB")
    } else if is(key, "scroll_bar") {
        Some("usage: /settings scroll_bar on|off")
    } else if is(key, "scroll_bar_auto_hide") {
        Some("usage: /settings scroll_bar_auto_hide on|off")
    } else if is(key, "bell") {
        Some("usage: /settings bell on|off")
    } else if is(key, "auto_compact") {
        Some("usage: /settings auto_compact on|off")
    } else if is(key, "compact_threshold") {
        Some("usage: /settings compact_threshold FRACTION|PERCENT%")
    } else if is(key, "web_browsing") {
        Some("usage: /settings web_browsing on|off")
    } else if is(key, "web_search_provider") {
        Some("usage: /settings web_search_provider duckduckgo|brave|firecrawl")
    } else if is(key, "web_fetch_max_chars") {
        Some("usage: /settings web_fetch_max_chars NUMBER")
    } else if is(key, "brave_api_key") {
        Some("usage: /settings brave_api_key KEY|-")
    } else if is(key, "firecrawl_api_key") {
        Some("usage: /settings firecrawl_api_key KEY|-")
    } else if is(key, "subagents") {
        Some("usage: /settings subagents on|off")
    } else if is(key, "max_subagents") {
        Some("usage: /settings max_subagents NUMBER")
    } else if is(key, "subagent_model") {
        Some("usage: /settings subagent_model inherit|MODEL")
    } else if is(key, "subagent_request_budget") {
        Some("usage: /settings subagent_request_budget NUMBER|0-for-unlimited")
    } else if is(key, "subagent_timeout_secs") {
        Some("usage: /settings subagent_timeout_secs SECONDS|0-for-unlimited")
    } else if is(key, "context_window") {
        Some("usage: /settings context_window TOKENS")
    } else if is(key, "anthropic_base_url") || is(key, "openai_base_url") {
        Some("usage: /settings openai_base_url URL")
    } else if is(key, "anthropic_api_key") || is(key, "openai_api_key") {
        Some("usage: /settings anthropic_api_key KEY|-")
    } else {
        None
    }
}

/// The change that a switch makes; nothing for a setting that is none.
pub open spec fn switch_change(key: Seq<char>, on: bool) -> Option<ChangeModel> {
    if key == "hide_reasoning"@ {
        Some(ChangeModel::HideReasoning(on))
    } else if key == "scroll_bar"@ {
        Some(ChangeModel::ScrollBar(on))
    } else if key == "scroll_bar_auto_hide"@ {
        Some(ChangeModel::ScrollBarAutoHide(on))
    } else if key == "bell"@ {
        Some(ChangeModel::Bell(on))
    } else if key == "auto_compact"@ {
        Some(ChangeModel::AutoCompact(on))
    } else if key == "web_browsing"@ {
        Some(ChangeModel::WebBrowsing(on))
    } else if key == "subagents"@ {
        Some(ChangeModel::Subagents(on))
    } else {
        None
    }
}

fn switch_of(key: &Vec<char>, on: bool) -> (r: Option<ConfigChange>)
    ensures
        option_view(r) == switch_change(key@, on),
{
    if is(key, "hide_reasoning") {
        Some(ConfigChange::HideReasoning(on))
    } else if is(key, "scroll_bar") {
        Some(ConfigChange::ScrollBar(on))
    } else if is(key, "scroll_bar_auto_hide") {
        Some(ConfigChange::ScrollBarAutoHide(on))
    } else if is(key, "bell") {
        Some(ConfigChange::Bell(on))
    } else if is(key, "auto_compact") {
        Some(ConfigChange::AutoCompact(on))
    } else if is(key, "web_browsing") {
        Some(ConfigChange::WebBrowsing(on))
    } else if is(key, "subagents") {
        Some(ConfigChange::Subagents(on))
    } else {
        None
    }
}

/// The change that a text makes; nothing for a setting that takes another kind
/// of value.
pub open spec fn text_change(key: Seq<char>, value: Seq<char>) -> Option<ChangeModel> {
    if key == "model"@ {
        Some(ChangeModel::Model(value))
    } else if key == "compact_threshold"@ {
        Some(ChangeModel::CompactThreshold(value))
    } else if key == "subagent_model"@ {
        Some(ChangeModel::SubagentModel(value))
    } else if key == "anthropic_base_url"@ {
        Some(ChangeModel::AnthropicBaseUrl(value))
    } else if key == "openai_base_url"@ {
        Some(ChangeModel::OpenAiBaseUrl(value))
    } else if key == "brave_api_key"@ {
        Some(ChangeModel::BraveApiKey(parsed_key(value)))
    } else if key == "firecrawl_api_key"@ {
        Some(ChangeModel::FirecrawlApiKey(parsed_key(value)))
    } else if key == "anthropic_api_key"@ {
        Some(ChangeModel::AnthropicApiKey(parsed_key(value)))
    } else if key == "openai_api_key"@ {
        Some(ChangeModel::OpenAiApiKey(parsed_key(value)))
    } else {
        None
    }
}

fn text_of(key: &Vec<char>, value: &Vec<char>) -> (r: Option<ConfigChange>)
    ensures
        option_view(r) == text_change(key@, value@),
{
    if is(key, "model") {
        Some(ConfigChange::Model(string_of(value)))
    } else if is(key, "compact_threshold") {
        Some(ConfigChange::CompactThreshold(string_of(value)))
    } else if is(key, "subagent_model") {
        Some(ConfigChange::SubagentModel(string_of(value)))
    } else if is(key, "anthropic_base_url") {
        Some(ConfigChange::AnthropicBaseUrl(string_of(value)))
    } else if is(key, "openai_base_url") {
        Some(ConfigChange::OpenAiBaseUrl(string_of(value)))
    } else if is(key, "brave_api_key") {
        Some(ConfigChange::BraveApiKey(parse_builtin_api_key(value)))
    } else if is(key, "firecrawl_api_key") {
        Some(ConfigChange::FirecrawlApiKey(parse_builtin_api_key(value)))
    } else if is(key, "anthropic_api_key") {
        Some(ConfigChange::AnthropicApiKey(parse_builtin_api_key(value)))
    } else if is(key, "openai_api_key") {
        Some(ConfigChange::OpenAiApiKey(parse_builtin_api_key(value)))
    } else {
        None
    }
}

/// The change that a number makes; nothing for a setting that takes another
/// kind of value.
pub open spec fn number_change(key: Seq<char>, value: Seq<char>, model: Seq<char>) -> Option<
    Result<ChangeModel, Seq<char>>,
> {
    if key == "max_tokens"@ {
        Some(
            match parsed_unsigned(value, u32::MAX as nat) {
                Some(n) => Ok(ChangeModel::MaxTokens(n as u32)),
                None => Err("max_tokens must be a positive integer"@),
            },
        )
    } else if key == "context_window"@ {
        Some(
            match parsed_unsigned(value, u64::MAX as nat) {
                Some(n) => Ok(ChangeModel::ContextWindow { model, window: n as u64 }),
                None => Err("context_window must be a positive integer"@),
            },
        )
    } else if key == "web_fetch_max_chars"@ {
        Some(
            match parsed_between(value, 1, MAX_WEB_FETCH_MAX_CHARS) {
                Some(n) => Ok(ChangeModel::WebFetchMaxChars(n)),
                None => Err(bounds_error(key, 1, MAX_WEB_FETCH_MAX_CHARS)),
            },
        )
    } else if key == "max_subagents"@ {
        Some(
            match parsed_between(value, 1, MAX_SUBAGENTS) {
                Some(n) => Ok(ChangeModel::MaxSubagents(n)),
                None => Err(bounds_error(key, 1, MAX_SUBAGENTS)),
            },
        )
    } else if key == "subagent_request_budget"@ {
        Some(
            match parsed_between(value, 0, MAX_SUBAGENT_REQUEST_BUDGET) {
                Some(n) => Ok(ChangeModel::SubagentRequestBudget(n)),
                None => Err(bounds_error(key, 0, MAX_SUBAGENT_REQUEST_BUDGET)),
            },
        )
    } else if key == "subagent_timeout_secs"@ {
        Some(
            match parsed_between(value, 0, MAX_SUBAGENT_TIMEOUT_SECS) {
                Some(n) => Ok(ChangeModel::SubagentTimeoutSecs(n)),
                None => Err(bounds_error(key, 0, MAX_SUBAGENT_TIMEOUT_SECS)),
            },
        )
    } else {
        None
    }
}

/// The outcome of a parse that may not be tried.
pub open spec fn some_outcome(r: Option<Result<ConfigChange, String>>) -> Option<
    Result<ChangeModel, Seq<char>>,
> {
    match r {
        Some(r) => Some(outcome(r)),
        None => None,
    }
}

fn number_of(key: &Vec<char>, value: &Vec<char>, model: &str) -> (r: Option<
    Result<ConfigChange, String>,
>)
    ensures
        some_outcome(r) == number_change(key@, value@, model@),
{
    if is(key, "max_tokens") {
        Some(
            match parse_unsigned(value, u32::MAX as u64) {
                Some(n) => Ok(ConfigChange::MaxTokens(n as u32)),
                None => Err("max_tokens must be a positive integer".to_owned()),
            },
        )
    } else if is(key, "context_window") {
        Some(
            match parse_unsigned(value, u64::MAX) {
                Some(n) => Ok(
                    ConfigChange::ContextWindow { model: model.to_owned(), window: n },
                ),
                None => Err("context_window must be a positive integer".to_owned()),
            },
        )
    } else if is(key, "web_fetch_max_chars") {
        Some(
            match parse_bounded(value, 1, MAX_WEB_FETCH_MAX_CHARS, "web_fetch_max_chars") {
                Ok(n) => Ok(ConfigChange::WebFetchMaxChars(n)),
                Err(error) => Err(error),
            },
        )
    } else if is(key, "max_subagents") {
        Some(
            match parse_bounded(value, 1, MAX_SUBAGENTS, "max_subagents") {
                Ok(n) => Ok(ConfigChange::MaxSubagents(n)),
                Err(error) => Err(error),
            },
        )
    } else if is(key, "subagent_request_budget") {
        Some(
            match parse_bounded(
                value,
                0,
                MAX_SUBAGENT_REQUEST_BUDGET,
                "subagent_request_budget",
            ) {
                Ok(n) => Ok(ConfigChange::SubagentRequestBudget(n)),
                Err(error) => Err(error),
            },
        )
    } else if is(key, "subagent_timeout_secs") {
        Some(
            match parse_bounded(value, 0, MAX_SUBAGENT_TIMEOUT_SECS, "subagent_timeout_secs") {
                Ok(n) => Ok(ConfigChange::SubagentTimeoutSecs(n)),
                Err(error) => Err(error),
            },
        )
    } else {
        None
    }
}

/// The change that a chosen value makes: a color, a reasoning level, or a
/// search provider.
pub open spec fn choice_change(key: Seq<char>, value: Seq<char>) -> Result<ChangeModel, Seq<char>> {
    if key == "reasoning_effort"@ {
        reasoning_change(value)
    } else if key == "selection_color"@ {
        if value == "accent"@ {
            Ok(ChangeModel::SelectionColor(None))
        } else {
            match parsed_color(value) {
                Some(color) => Ok(ChangeModel::SelectionColor(Some(color))),
                None => Err(color_error(value)),
            }
        }
    } else if key == "web_search_provider"@ {
        match parsed_search(value) {
            Some(provider) => Ok(ChangeModel::WebSearchProvider(provider)),
            None => Err("unknown search provider '"@ + value + "'"@),
        }
    } else {
        match parsed_color(value) {
            Some(color) => Ok(ChangeModel::AccentColor(color)),
            None => Err(color_error(value)),
        }
    }
}

fn choice_of(key: &Vec<char>, value: &Vec<char>) -> (r: Result<ConfigChange, String>)
    ensures
        outcome(r) == choice_change(key@, value@),
{
    let text = string_of(value);
    if is(key, "reasoning_effort") {
        reasoning_effort_change(value)
    } else if is(key, "selection_color") {
        if is(value, "accent") {
            Ok(ConfigChange::SelectionColor(None))
        } else {
            match UiColor::parse(text.as_str()) {
                Ok(color) => Ok(ConfigChange::SelectionColor(Some(color))),
                Err(error) => Err(error),
            }
        }
    } else if is(key, "web_search_provider") {
        if is(value, "duckduckgo") {
            Ok(ConfigChange::WebSearchProvider(WebSearchProvider::DuckDuckGo))
        } else if is(value, "brave") {
            Ok(ConfigChange::WebSearchProvider(WebSearchProvider::Brave))
        } else if is(value, "firecrawl") {
            Ok(ConfigChange::WebSearchProvider(WebSearchProvider::Firecrawl))
        } else {
            Err(cat3("unknown search provider '", text.as_str(), "'"))
        }
    } else {
        match UiColor::parse(text.as_str()) {
            Ok(color) => Ok(ConfigChange::AccentColor(color)),
            Err(error) => Err(error),
        }
    }
}

/// The change that a value makes of a setting that takes one value.
pub open spec fn value_change(key: Seq<char>, value: Seq<char>, model: Seq<char>) -> Result<
    ChangeModel,
    Seq<char>,
> {
    if switch_change(key, true) is Some {
        match parsed_switch(value) {
            Some(on) => Ok(switch_change(key, on)->0),
            None => Err("expected on or off"@),
        }
    } else {
        match text_change(key, value) {
            Some(change) => Ok(change),
            None => match number_change(key, value, model) {
                Some(result) => result,
                None => choice_change(key, value),
            },
        }
    }
}

fn value_of(key: &Vec<char>, value: &Vec<char>, model: &str) -> (r: Result<ConfigChange, String>)
    ensures
        outcome(r) == value_change(key@, value@, model@),
{
    if switch_of(key, true).is_some() {
        return match parse_on_off(value) {
            Some(on) => match switch_of(key, on) {
                Some(change) => Ok(change),
                None => Err("expected on or off".to_owned()),
            },
            None => Err("expected on or off".to_owned()),
        };
    }
    match text_of(key, value) {
        Some(change) => return Ok(change),
        None => {},
    }
    match number_of(key, value, model) {
        Some(result) => result,
        None => choice_of(key, value),
    }
}

/// The change of a setting that takes none, two or three values.
pub open spec fn list_change(words: Seq<Seq<char>>) -> Result<ChangeModel, Seq<char>> {
    let key = if words.len() == 0 {
        Seq::empty()
    } else {
        words[0]
    };
    if key == "reload"@ {
        if words.len() == 1 {
            Ok(ChangeModel::Reload)
        } else {
            Err("usage: /settings reload"@)
        }
    } else if key == "skills"@ {
        if words.len() == 3 && (words[1] == "add"@ || words[1] == "remove"@) {
            Ok(ChangeModel::SkillDirectory { add: words[1] == "add"@, path: words[2] })
        } else {
            Err("usage: /settings skills add|remove DIRECTORY"@)
        }
    } else if key == "provider"@ {
        if words.len() == 3 || words.len() == 4 {
            Ok(
                ChangeModel::Provider {
                    name: words[1],
                    base_url: words[2],
                    api_key: if words.len() == 4 {
                        Some(words[3])
                    } else {
                        None
                    },
                },
            )
        } else {
            Err("usage: /settings provider NAME BASE_URL [API_KEY|-]"@)
        }
    } else {
        Err("unknown setting '"@ + key + "'; run /settings to list settings"@)
    }
}

fn list_of(words: &Vec<Vec<char>>) -> (r: Result<ConfigChange, String>)
    ensures
        outcome(r) == list_change(texts(words@)),
{
    let ghost all = texts(words@);
    let n: usize = words.len();
    assert(all.len() == n);
    if n == 0 {
        proof {
            reveal_strlit("reload");
            reveal_strlit("skills");
            reveal_strlit("provider");
            reveal_strlit("");
        }
        let r = cat3("unknown setting '", "", "'; run /settings to list settings");
        assert(r@ =~= "unknown setting '"@ + Seq::<char>::empty()
            + "'; run /settings to list settings"@);
        return Err(r);
    }
    let key = &words[0];
    assert(all[0] == key@);
    if is(key, "reload") {
        if n == 1 {
            return Ok(ConfigChange::Reload);
        }
        return Err("usage: /settings reload".to_owned());
    }
    if is(key, "skills") {
        if n == 3 {
            assert(all[1] == words@[1]@ && all[2] == words@[2]@);
            let add = is(&words[1], "add");
            if add || is(&words[1], "remove") {
                return Ok(ConfigChange::SkillDirectory { add, path: string_of(&words[2]) });
            }
        }
        return Err("usage: /settings skills add|remove DIRECTORY".to_owned());
    }
    if is(key, "provider") {
        if n == 3 || n == 4 {
            assert(all[1] == words@[1]@ && all[2] == words@[2]@);
            let api_key = if n == 4 {
                assert(all[3] == words@[3]@);
                Some(string_of(&words[3]))
            } else {
                None
            };
            return Ok(
                ConfigChange::Provider {
                    name: string_of(&words[1]),
                    base_url: string_of(&words[2]),
                    api_key,
                },
            );
        }
        return Err("usage: /settings provider NAME BASE_URL [API_KEY|-]".to_owned());
    }
    Err(
        cat3(
            "unknown setting '",
            string_of(key).as_str(),
            "'; run /settings to list settings",
        ),
    )
}

/// The change that the command asks for with an argument, while a model is in
/// use. Without an argument it changes nothing: the settings are shown.
pub open spec fn setting_change(argument: Seq<char>, model: Seq<char>) -> Result<
    Option<ChangeModel>,
    Seq<char>,
> {
    if argument.len() == 0 {
        Ok(None)
    } else {
        match words_change(words_of(argument), model) {
            Ok(change) => Ok(Some(change)),
            Err(error) => Err(error),
        }
    }
}

/// The change that the words of an argument ask for.
pub open spec fn words_change(words: Seq<Seq<char>>, model: Seq<char>) -> Result<
    ChangeModel,
    Seq<char>,
> {
    if words.len() > 0 && setting_usage(words[0]) is Some {
        if words.len() == 2 {
            value_change(words[0], words[1], model)
        } else {
            Err(setting_usage(words[0])->0)
        }
    } else {
        list_change(words)
    }
}

fn change_of(words: &Vec<Vec<char>>, model: &str) -> (r: Result<ConfigChange, String>)
    ensures
        outcome(r) == words_change(texts(words@), model@),
{
    let n: usize = words.len();
    assert(texts(words@).len() == n);
    if n > 0 {
        assert(texts(words@)[0] == words@[0]@);
        match usage_of(&words[0]) {
            Some(usage) => {
                if n == 2 {
                    assert(texts(words@)[1] == words@[1]@);
                    return value_of(&words[0], &words[1], model);
                }
                return Err(usage.to_owned());
            },
            None => {},
        }
    }
    list_of(words)
}

/// Reads the argument of the command; see `setting_change`.
pub fn settings(argument: &str, model: &str) -> (r: Result<Option<ConfigChange>, String>)
    ensures
        match r {
            Ok(change) => setting_change(argument@, model@) == Ok::<
                Option<ChangeModel>,
                Seq<char>,
            >(crate::model::option_view(change)),
            Err(error) => setting_change(argument@, model@) == Err::<
                Option<ChangeModel>,
                Seq<char>,
            >(error@),
        },
{
    let chars = chars_of(argument);
    if chars.len() == 0 {
        return Ok(None);
    }
    match change_of(&split_words(&chars), model) {
        Ok(change) => Ok(Some(change)),
        Err(error) => Err(error),
    }
}

// ---------------------------------------------------------------------------
// Laws

/// A switch that the settings show is set by what they show.
pub proof fn switches_read_back(on: bool)
    ensures
        parsed_switch(
            if on {
                "on"@
            } else {
                "off"@
            },
        ) == Some(on),
{
    reveal_strlit("on");
    reveal_strlit("off");
    assert("on"@.len() == 2 && "off"@.len() == 3);
}

/// A number between the bounds of a setting is read back as it is shown.
pub proof fn numbers_read_back(n: usize, least: usize, most: usize)
    requires
        least <= n <= most,
    ensures
        parsed_between(decimal(n as nat), least, most) == Some(n),
{
    crate::text::decimal_reads_back(n as nat);
    assert(decimal(n as nat)[0] != '+') by {
        assert(crate::text::digit(decimal(n as nat)[0]));
    }
}

} // verus!
