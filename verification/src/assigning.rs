//! What the settings mean that are typed by name.

use vstd::prelude::*;
use crate::config::WebSearchProvider;
use crate::settings::{
    color_text, colors_read_back, named_color, parsed_color, setting_change, setting_usage,
    words_change, ChangeModel,
};
use crate::style::UiColor;
use crate::text::{decimal, parsed_unsigned, whitespace, words_of};

verus! {

broadcast use vstd::string::group_string_axioms;

proof fn keys_are_their_own()
    ensures
        "model"@.len() == 5,
        "max_tokens"@.len() == 10 && "max_tokens"@[0] == 'm',
        "reasoning_effort"@.len() == 16 && "reasoning_effort"@[0] == 'r',
        "hide_reasoning"@.len() == 14 && "hide_reasoning"@[0] == 'h',
        "accent_color"@.len() == 12 && "accent_color"@[0] == 'a' && "accent_color"@[1] == 'c',
        "status_bar_color"@.len() == 16 && "status_bar_color"@[0] == 's',
        "text_box_color"@.len() == 14 && "text_box_color"@[0] == 't',
        "selection_color"@.len() == 15 && "selection_color"@[0] == 's',
        "scroll_bar"@.len() == 10 && "scroll_bar"@[0] == 's',
        "scroll_bar_auto_hide"@.len() == 20,
        "bell"@.len() == 4,
        "auto_compact"@.len() == 12 && "auto_compact"@[0] == 'a' && "auto_compact"@[1] == 'u',
        "compact_threshold"@.len() == 17 && "compact_threshold"@[0] == 'c',
        "web_browsing"@.len() == 12 && "web_browsing"@[0] == 'w',
        "web_search_provider"@.len() == 19 && "web_search_provider"@[4] == 's',
        "web_fetch_max_chars"@.len() == 19 && "web_fetch_max_chars"@[4] == 'f',
        "brave_api_key"@.len() == 13 && "brave_api_key"@[0] == 'b',
        "firecrawl_api_key"@.len() == 17 && "firecrawl_api_key"@[0] == 'f',
        "subagents"@.len() == 9,
        "max_subagents"@.len() == 13 && "max_subagents"@[0] == 'm',
        "subagent_model"@.len() == 14 && "subagent_model"@[0] == 's',
        "subagent_request_budget"@.len() == 23,
        "subagent_timeout_secs"@.len() == 21,
        "context_window"@.len() == 14 && "context_window"@[0] == 'c',
        "anthropic_base_url"@.len() == 18,
        "openai_base_url"@.len() == 15 && "openai_base_url"@[0] == 'o',
        "anthropic_api_key"@.len() == 17 && "anthropic_api_key"@[0] == 'a',
        "openai_api_key"@.len() == 14 && "openai_api_key"@[0] == 'o',
        "on"@.len() == 2,
        "off"@.len() == 3,
        "reload"@.len() == 6 && "reload"@[0] == 'r',
        "skills"@.len() == 6 && "skills"@[0] == 's',
        "provider"@.len() == 8 && "provider"@[0] == 'p',
{
    reveal_strlit("model");
    reveal_strlit("max_tokens");
    reveal_strlit("reasoning_effort");
    reveal_strlit("hide_reasoning");
    reveal_strlit("accent_color");
    reveal_strlit("status_bar_color");
    reveal_strlit("text_box_color");
    reveal_strlit("selection_color");
    reveal_strlit("scroll_bar");
    reveal_strlit("scroll_bar_auto_hide");
    reveal_strlit("bell");
    reveal_strlit("auto_compact");
    reveal_strlit("compact_threshold");
    reveal_strlit("web_browsing");
    reveal_strlit("web_search_provider");
    reveal_strlit("web_fetch_max_chars");
    reveal_strlit("brave_api_key");
    reveal_strlit("firecrawl_api_key");
    reveal_strlit("subagents");
    reveal_strlit("max_subagents");
    reveal_strlit("subagent_model");
    reveal_strlit("subagent_request_budget");
    reveal_strlit("subagent_timeout_secs");
    reveal_strlit("context_window");
    reveal_strlit("anthropic_base_url");
    reveal_strlit("openai_base_url");
    reveal_strlit("anthropic_api_key");
    reveal_strlit("openai_api_key");
    reveal_strlit("on");
    reveal_strlit("off");
    reveal_strlit("reload");
    reveal_strlit("skills");
    reveal_strlit("provider");
}

/// A switch is set by its own name: `on` turns it on, `off` turns it off, and
/// any other word is refused.
pub proof fn switches_are_set_by_name(on: bool, other: Seq<char>, model: Seq<char>)
    requires
        other != "on"@ && other != "off"@,
    ensures
        ({
            let word = if on {
                "on"@
            } else {
                "off"@
            };
            let set = |key: Seq<char>| words_change(seq![key, word], model);
            &&& set("hide_reasoning"@) == Ok::<ChangeModel, Seq<char>>(ChangeModel::HideReasoning(on))
            &&& set("scroll_bar"@) == Ok::<ChangeModel, Seq<char>>(ChangeModel::ScrollBar(on))
            &&& set("scroll_bar_auto_hide"@) == Ok::<ChangeModel, Seq<char>>(ChangeModel::ScrollBarAutoHide(on))
            &&& set("bell"@) == Ok::<ChangeModel, Seq<char>>(ChangeModel::Bell(on))
            &&& set("auto_compact"@) == Ok::<ChangeModel, Seq<char>>(ChangeModel::AutoCompact(on))
            &&& set("web_browsing"@) == Ok::<ChangeModel, Seq<char>>(ChangeModel::WebBrowsing(on))
            &&& set("subagents"@) == Ok::<ChangeModel, Seq<char>>(ChangeModel::Subagents(on))
        }),
        words_change(seq!["hide_reasoning"@, other], model) == Err::<ChangeModel, Seq<char>>(
            "expected on or off"@,
        ),
        words_change(seq!["scroll_bar"@, other], model) == Err::<ChangeModel, Seq<char>>(
            "expected on or off"@,
        ),
        words_change(seq!["scroll_bar_auto_hide"@, other], model) == Err::<ChangeModel, Seq<char>>(
            "expected on or off"@,
        ),
        words_change(seq!["bell"@, other], model) == Err::<ChangeModel, Seq<char>>(
            "expected on or off"@,
        ),
        words_change(seq!["auto_compact"@, other], model) == Err::<ChangeModel, Seq<char>>(
            "expected on or off"@,
        ),
        words_change(seq!["web_browsing"@, other], model) == Err::<ChangeModel, Seq<char>>(
            "expected on or off"@,
        ),
        words_change(seq!["subagents"@, other], model) == Err::<ChangeModel, Seq<char>>(
            "expected on or off"@,
        ),
{
    keys_are_their_own();
}

/// A setting that is a text takes its value as it was typed.
pub proof fn texts_are_set_by_name(value: Seq<char>, model: Seq<char>)
    ensures
        ({
            let set = |key: Seq<char>| words_change(seq![key, value], model);
            &&& set("model"@) == Ok::<ChangeModel, Seq<char>>(ChangeModel::Model(value))
            &&& set("compact_threshold"@) == Ok::<ChangeModel, Seq<char>>(ChangeModel::CompactThreshold(value))
            &&& set("subagent_model"@) == Ok::<ChangeModel, Seq<char>>(ChangeModel::SubagentModel(value))
            &&& set("anthropic_base_url"@) == Ok::<ChangeModel, Seq<char>>(ChangeModel::AnthropicBaseUrl(value))
            &&& set("openai_base_url"@) == Ok::<ChangeModel, Seq<char>>(ChangeModel::OpenAiBaseUrl(value))
        }),
{
    keys_are_their_own();
}

/// A key is set to what was typed, and taken away by a dash.
pub proof fn keys_are_set_and_taken_away(value: Seq<char>, model: Seq<char>)
    requires
        value != "-"@,
    ensures
        ({
            let set = |key: Seq<char>| words_change(seq![key, value], model);
            let unset = |key: Seq<char>| words_change(seq![key, "-"@], model);
            &&& set("brave_api_key"@) == Ok::<ChangeModel, Seq<char>>(ChangeModel::BraveApiKey(Some(value)))
            &&& unset("brave_api_key"@) == Ok::<ChangeModel, Seq<char>>(ChangeModel::BraveApiKey(None))
            &&& set("firecrawl_api_key"@) == Ok::<ChangeModel, Seq<char>>(ChangeModel::FirecrawlApiKey(Some(value)))
            &&& unset("firecrawl_api_key"@) == Ok::<ChangeModel, Seq<char>>(ChangeModel::FirecrawlApiKey(None))
            &&& set("anthropic_api_key"@) == Ok::<ChangeModel, Seq<char>>(ChangeModel::AnthropicApiKey(Some(value)))
            &&& unset("anthropic_api_key"@) == Ok::<ChangeModel, Seq<char>>(ChangeModel::AnthropicApiKey(None))
            &&& set("openai_api_key"@) == Ok::<ChangeModel, Seq<char>>(ChangeModel::OpenAiApiKey(Some(value)))
            &&& unset("openai_api_key"@) == Ok::<ChangeModel, Seq<char>>(ChangeModel::OpenAiApiKey(None))
        }),
{
    keys_are_their_own();
}

/// A number is set where it lies within the bounds of its setting, and is
/// refused where it does not; zero lifts a budget.
pub proof fn numbers_are_set_within_bounds(n: usize, model: Seq<char>)
    ensures
        ({
            let set = |key: Seq<char>| words_change(seq![key, decimal(n as nat)], model);
            &&& 1 <= n <= 50000 ==> set("web_fetch_max_chars"@) == Ok::<ChangeModel, Seq<char>>(
                ChangeModel::WebFetchMaxChars(n),
            )
            &&& !(1 <= n <= 50000) ==> set("web_fetch_max_chars"@) is Err
            &&& 1 <= n <= 16 ==> set("max_subagents"@) == Ok::<ChangeModel, Seq<char>>(
                ChangeModel::MaxSubagents(n),
            )
            &&& !(1 <= n <= 16) ==> set("max_subagents"@) is Err
            &&& 0 <= n <= 1000 ==> set("subagent_request_budget"@) == Ok::<ChangeModel, Seq<char>>(
                ChangeModel::SubagentRequestBudget(n),
            )
            &&& !(0 <= n <= 1000) ==> set("subagent_request_budget"@) is Err
            &&& 0 <= n <= 86400 ==> set("subagent_timeout_secs"@) == Ok::<ChangeModel, Seq<char>>(
                ChangeModel::SubagentTimeoutSecs(n),
            )
            &&& !(0 <= n <= 86400) ==> set("subagent_timeout_secs"@) is Err
            &&& n <= u32::MAX ==> set("max_tokens"@) == Ok::<ChangeModel, Seq<char>>(
                ChangeModel::MaxTokens(n as u32),
            )
            &&& n > u32::MAX ==> set("max_tokens"@) is Err
            &&& set("context_window"@) == Ok::<ChangeModel, Seq<char>>(
                ChangeModel::ContextWindow { model, window: n as u64 },
            )
        }),
{
    keys_are_their_own();
    crate::text::decimal_reads_back(n as nat);
    let d = decimal(n as nat);
    assert(parsed_unsigned(d, usize::MAX as nat) == Some(n as nat));
    assert(parsed_unsigned(d, u64::MAX as nat) == Some(n as nat));
}

/// A word that is no number is refused by every setting that is one.
pub proof fn words_are_no_numbers(word: Seq<char>, model: Seq<char>)
    requires
        !crate::text::all_digits(crate::text::unsigned_digits(word)),
    ensures
        ({
            let set = |key: Seq<char>| words_change(seq![key, word], model);
            &&& set("web_fetch_max_chars"@) is Err
            &&& set("max_subagents"@) is Err
            &&& set("subagent_request_budget"@) is Err
            &&& set("subagent_timeout_secs"@) is Err
            &&& set("max_tokens"@) is Err
            &&& set("context_window"@) is Err
        }),
{
    keys_are_their_own();
}

/// A color is set by a name or by its six digits, and nothing else is a color;
/// the selection may follow the accent.
pub proof fn colors_are_set_by_name(color: UiColor, word: Seq<char>, model: Seq<char>)
    requires
        parsed_color(word) is None,
        word != "accent"@,
    ensures
        words_change(seq!["accent_color"@, color_text(color)], model) == Ok::<
            ChangeModel,
            Seq<char>,
        >(ChangeModel::AccentColor(color)),
        words_change(seq!["status_bar_color"@, color_text(color)], model) == Ok::<
            ChangeModel,
            Seq<char>,
        >(ChangeModel::AccentColor(color)),
        words_change(seq!["text_box_color"@, color_text(color)], model) == Ok::<
            ChangeModel,
            Seq<char>,
        >(ChangeModel::AccentColor(color)),
        words_change(seq!["selection_color"@, color_text(color)], model) == Ok::<
            ChangeModel,
            Seq<char>,
        >(ChangeModel::SelectionColor(Some(color))),
        words_change(seq!["selection_color"@, "accent"@], model) == Ok::<ChangeModel, Seq<char>>(
            ChangeModel::SelectionColor(None),
        ),
        words_change(seq!["accent_color"@, word], model) is Err,
        words_change(seq!["selection_color"@, word], model) is Err,
{
    keys_are_their_own();
    colors_read_back(color);
    reveal_strlit("accent");
    reveal_strlit("#");
    assert(color_text(color)[0] == '#');
    assert("accent"@[0] == 'a');
}

/// A color that is named is told apart from every other one, and its letters
/// may be of either case.
pub proof fn named_colors_are_told_apart(a: Seq<char>, b: Seq<char>)
    requires
        named_color(a) is Some,
        named_color(b) is Some,
        a != b,
    ensures
        named_color(a) != named_color(b),
{
}

/// The way that the web is searched is set by its name.
pub proof fn search_is_set_by_name(model: Seq<char>)
    ensures
        ({
            let set = |value: Seq<char>| words_change(seq!["web_search_provider"@, value], model);
            let done = |provider: WebSearchProvider|
                Ok::<ChangeModel, Seq<char>>(ChangeModel::WebSearchProvider(provider));
            &&& set("duckduckgo"@) == done(WebSearchProvider::DuckDuckGo)
            &&& set("brave"@) == done(WebSearchProvider::Brave)
            &&& set("firecrawl"@) == done(WebSearchProvider::Firecrawl)
        }),
{
    keys_are_their_own();
    reveal_strlit("duckduckgo");
    reveal_strlit("brave");
    reveal_strlit("firecrawl");
    assert("duckduckgo"@.len() == 10 && "brave"@.len() == 5 && "firecrawl"@.len() == 9);
}

/// A level of reasoning is in force as it was named; `default` and `off` leave
/// it to the model.
pub proof fn levels_take_force(value: Seq<char>, model: Seq<char>)
    ensures
        ({
            let set = words_change(seq!["reasoning_effort"@, value], model);
            &&& value == "minimal"@ || value == "low"@ || value == "medium"@ || value == "high"@
                || value == "xhigh"@ || value == "max"@ ==> set == Ok::<ChangeModel, Seq<char>>(
                ChangeModel::ReasoningEffort { stored: value, effective: Some(value) },
            )
            &&& value == "default"@ || value == "off"@ ==> set == Ok::<ChangeModel, Seq<char>>(
                ChangeModel::ReasoningEffort { stored: value, effective: None },
            )
        }),
{
    keys_are_their_own();
    reveal_strlit("default");
    reveal_strlit("minimal");
    reveal_strlit("low");
    reveal_strlit("medium");
    reveal_strlit("high");
    reveal_strlit("xhigh");
    reveal_strlit("max");
    reveal_strlit("off");
    assert("off"@[0] == 'o');
    assert("minimal"@.len() == 7 && "minimal"@[0] == 'm' && "default"@.len() == 7 && "default"@[0]
        == 'd' && "low"@.len() == 3 && "low"@[0] == 'l' && "medium"@.len() == 6 && "high"@.len()
        == 4 && "xhigh"@.len() == 5 && "max"@.len() == 3 && "max"@[0] == 'm');
}

/// A directory of skills is added or removed, and a provider is named with its
/// address and, if it needs one, its key.
pub proof fn lists_are_changed_by_word(
    path: Seq<char>,
    name: Seq<char>,
    url: Seq<char>,
    key: Seq<char>,
    model: Seq<char>,
)
    ensures
        words_change(seq!["skills"@, "add"@, path], model) == Ok::<ChangeModel, Seq<char>>(
            ChangeModel::SkillDirectory { add: true, path },
        ),
        words_change(seq!["skills"@, "remove"@, path], model) == Ok::<ChangeModel, Seq<char>>(
            ChangeModel::SkillDirectory { add: false, path },
        ),
        words_change(seq!["provider"@, name, url], model) == Ok::<ChangeModel, Seq<char>>(
            ChangeModel::Provider { name, base_url: url, api_key: None },
        ),
        words_change(seq!["provider"@, name, url, key], model) == Ok::<ChangeModel, Seq<char>>(
            ChangeModel::Provider { name, base_url: url, api_key: Some(key) },
        ),
        words_change(seq!["reload"@], model) == Ok::<ChangeModel, Seq<char>>(ChangeModel::Reload),
        words_change(seq!["reload"@, name], model) is Err,
        words_change(seq!["skills"@, name], model) is Err,
        words_change(seq!["provider"@, name], model) is Err,
{
    keys_are_their_own();
    reveal_strlit("add");
    reveal_strlit("remove");
    assert("add"@.len() == 3 && "remove"@.len() == 6);
    let more = seq!["skills"@, "add"@, path];
    assert(more.len() == 3 && more[0] == "skills"@ && more[1] == "add"@ && more[2] == path);
    let fewer = seq!["skills"@, "remove"@, path];
    assert(fewer.len() == 3 && fewer[0] == "skills"@ && fewer[1] == "remove"@ && fewer[2] == path);
}

/// A setting and its value are two words; what is not, is answered with how the
/// setting is used.
pub proof fn settings_are_named_with_a_value(
    key: Seq<char>,
    value: Seq<char>,
    model: Seq<char>,
)
    requires
        key.len() > 0,
        value.len() > 0,
        forall|i: int| 0 <= i < key.len() ==> !whitespace(#[trigger] key[i]),
        forall|i: int| 0 <= i < value.len() ==> !whitespace(#[trigger] value[i]),
    ensures
        setting_change(key + " "@ + value, model) == match words_change(seq![key, value], model) {
            Ok(change) => Ok::<Option<ChangeModel>, Seq<char>>(Some(change)),
            Err(error) => Err(error),
        },
        setting_change(Seq::empty(), model) == Ok::<Option<ChangeModel>, Seq<char>>(None),
        setting_usage(key) is Some ==> setting_change(key, model) == Err::<
            Option<ChangeModel>,
            Seq<char>,
        >(setting_usage(key)->0),
{
    reveal_strlit(" ");
    let none = Seq::<char>::empty();
    crate::text::words_are_runs(none, key);
    assert(none + key =~= key);
    assert(words_of(none).push(key) =~= seq![key]);
    crate::text::white_space_is_blank();
    crate::text::white_space_is_no_word(key, ' ');
    assert(key + " "@ =~= key.push(' '));
    crate::text::words_are_runs(key + " "@, value);
    assert(seq![key].push(value) =~= seq![key, value]);
}

/// The colors that have a name.
pub proof fn colors_have_their_names()
    ensures
        named_color("white"@) == Some(UiColor { red: 238, green: 238, blue: 238 }),
        named_color("gray"@) == Some(UiColor { red: 148, green: 148, blue: 158 }),
        named_color("red"@) == Some(UiColor { red: 235, green: 111, blue: 146 }),
        named_color("orange"@) == Some(UiColor { red: 240, green: 160, blue: 96 }),
        named_color("yellow"@) == Some(UiColor { red: 232, green: 202, blue: 118 }),
        named_color("green"@) == Some(UiColor { red: 139, green: 213, blue: 162 }),
        named_color("cyan"@) == Some(UiColor { red: 116, green: 199, blue: 213 }),
        named_color("blue"@) == Some(UiColor { red: 117, green: 169, blue: 255 }),
        named_color("purple"@) == Some(UiColor { red: 190, green: 149, blue: 255 }),
        named_color("pink"@) == Some(UiColor { red: 238, green: 148, blue: 200 }),
{
    reveal_strlit("white");
    reveal_strlit("gray");
    reveal_strlit("red");
    reveal_strlit("orange");
    reveal_strlit("yellow");
    reveal_strlit("green");
    reveal_strlit("cyan");
    reveal_strlit("blue");
    reveal_strlit("purple");
    reveal_strlit("pink");
    assert("red"@.len() == 3 && "white"@.len() == 5 && "green"@.len() == 5);
    assert("gray"@.len() == 4 && "cyan"@.len() == 4 && "blue"@.len() == 4 && "pink"@.len() == 4);
    assert("orange"@.len() == 6 && "yellow"@.len() == 6 && "purple"@.len() == 6);
    assert("white"@[0] == 'w' && "green"@[0] == 'g');
    assert("gray"@[0] == 'g' && "cyan"@[0] == 'c' && "blue"@[0] == 'b' && "pink"@[0] == 'p');
    assert("orange"@[0] == 'o' && "yellow"@[0] == 'y' && "purple"@[0] == 'p');
}

/// A setting that is named without one value is answered with what it takes.
pub proof fn settings_tell_what_they_take(words: Seq<Seq<char>>, model: Seq<char>)
    requires
        words.len() > 0,
        words.len() != 2,
    ensures
        ({
            let told = |key: Seq<char>, usage: Seq<char>|
                words[0] == key ==> words_change(words, model) == Err::<ChangeModel, Seq<char>>(
                    usage,
                );
            &&& told("model"@, "usage: /settings model MODEL"@)
            &&& told("max_tokens"@, "usage: /settings max_tokens NUMBER"@)
            &&& told("hide_reasoning"@, "usage: /settings hide_reasoning on|off"@)
            &&& told("accent_color"@, "usage: /settings accent_color NAME|#RRGGBB"@)
            &&& told("scroll_bar"@, "usage: /settings scroll_bar on|off"@)
            &&& told("bell"@, "usage: /settings bell on|off"@)
            &&& told("auto_compact"@, "usage: /settings auto_compact on|off"@)
            &&& told("web_browsing"@, "usage: /settings web_browsing on|off"@)
            &&& told("subagents"@, "usage: /settings subagents on|off"@)
            &&& told("max_subagents"@, "usage: /settings max_subagents NUMBER"@)
            &&& told("context_window"@, "usage: /settings context_window TOKENS"@)
        }),
{
    keys_are_their_own();
}

} // verus!
