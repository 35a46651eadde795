//! What the reports say.

use vstd::prelude::*;
use crate::assigning::{numbers_are_set_within_bounds, switches_are_set_by_name};
use crate::config::KeySource;
use crate::facts::FactsModel;
use crate::settings::{color_text, words_change, ChangeModel};
use crate::summary::{
    field, general_lines, helper_lines, limit, reach_lines, settings_parts, skill_parts,
    tool_parts, undo_text, usage_lines, usage_parts, SkillModel, ToolModel, UsageModel,
};
use crate::text::decimal;

verus! {

broadcast use vstd::string::group_string_axioms;

/// Whether the report on the settings says a value of a setting.
pub open spec fn reports(f: FactsModel, name: Seq<char>, value: Seq<char>) -> bool {
    settings_parts(f).contains("- "@ + name + ": `"@ + value + "`\n"@)
}

proof fn lines_are_parts(f: FactsModel)
    ensures
        forall|i: int|
            0 <= i < 10 ==> settings_parts(f).contains(#[trigger] general_lines(f)[i]),
        forall|i: int| 0 <= i < 8 ==> settings_parts(f).contains(#[trigger] reach_lines(f)[i]),
        forall|i: int| 0 <= i < 9 ==> settings_parts(f).contains(#[trigger] helper_lines(f)[i]),
{
    let parts = settings_parts(f);
    assert(general_lines(f).len() == 10 && reach_lines(f).len() == 8 && helper_lines(f).len()
        == 9);
    assert forall|i: int| 0 <= i < 10 implies parts.contains(#[trigger] general_lines(f)[i]) by {
        assert(parts[1 + i] == general_lines(f)[i]);
    }
    assert forall|i: int| 0 <= i < 8 implies parts.contains(#[trigger] reach_lines(f)[i]) by {
        assert(parts[11 + i] == reach_lines(f)[i]);
    }
    assert forall|i: int| 0 <= i < 9 implies parts.contains(#[trigger] helper_lines(f)[i]) by {
        assert(parts[19 + i] == helper_lines(f)[i]);
    }
}

/// A switch as it is typed.
pub open spec fn switch_word(on: bool) -> Seq<char> {
    if on {
        "on"@
    } else {
        "off"@
    }
}

/// The report says every switch under its own name, with the word that sets it
/// to what it is.
pub proof fn switches_are_reported(f: FactsModel)
    ensures
        reports(f, "scroll_bar"@, switch_word(f.config.scroll_bar)),
        reports(f, "scroll_bar_auto_hide"@, switch_word(f.config.scroll_bar_auto_hide)),
        reports(f, "bell"@, switch_word(f.config.bell)),
        reports(f, "auto_compact"@, switch_word(f.config.auto_compact)),
        reports(f, "web_browsing"@, switch_word(f.config.web_browsing)),
        reports(f, "subagents"@, switch_word(f.config.subagents)),
        reports(
            f,
            "hide_reasoning"@,
            if f.config.hide_reasoning {
                "true"@
            } else {
                "false"@
            },
        ),
{
    lines_are_parts(f);
    assert(general_lines(f)[7] == field("scroll_bar"@, switch_word(f.config.scroll_bar)));
    assert(general_lines(f)[8] == field(
        "scroll_bar_auto_hide"@,
        switch_word(f.config.scroll_bar_auto_hide),
    ));
    assert(general_lines(f)[9] == field("bell"@, switch_word(f.config.bell)));
    assert(general_lines(f)[3] == field(
        "hide_reasoning"@,
        crate::summary::yes_no(f.config.hide_reasoning),
    ));
    assert(reach_lines(f)[0] == field("auto_compact"@, switch_word(f.config.auto_compact)));
    assert(reach_lines(f)[3] == field("web_browsing"@, switch_word(f.config.web_browsing)));
    assert(helper_lines(f)[0] == field("subagents"@, switch_word(f.config.subagents)));
}

/// The report says every number and every text under its own name; a limit of
/// zero is no limit.
pub proof fn values_are_reported(f: FactsModel)
    ensures
        reports(f, "model"@, f.model),
        reports(f, "max_tokens"@, decimal(f.config.max_tokens as nat)),
        reports(f, "accent_color"@, color_text(f.config.accent_color)),
        f.config.selection_color is None ==> reports(f, "selection_color"@, "accent"@),
        f.config.reasoning_effort is Some ==> reports(
            f,
            "reasoning_effort"@,
            f.config.reasoning_effort->0,
        ),
        reports(f, "compact_threshold"@, decimal(f.config.compact_percent as nat) + "%"@),
        reports(f, "context_window for current model"@, decimal(f.context_window as nat)),
        reports(f, "web_fetch_max_chars"@, decimal(f.config.web_fetch_max_chars as nat)),
        reports(f, "max_subagents"@, decimal(f.config.max_subagents as nat)),
        reports(f, "subagent_model"@, f.config.subagent_model),
        reports(f, "anthropic_base_url"@, f.config.anthropic_base_url),
        reports(f, "openai_base_url"@, f.config.openai_base_url),
        f.config.subagent_request_budget == 0 ==> reports(
            f,
            "subagent_request_budget"@,
            "unlimited"@,
        ),
        f.config.subagent_timeout_secs == 0 ==> reports(f, "subagent_timeout_secs"@, "unlimited"@),
        f.config.subagent_timeout_secs > 0 ==> reports(
            f,
            "subagent_timeout_secs"@,
            decimal(f.config.subagent_timeout_secs as nat) + "s"@,
        ),
{
    lines_are_parts(f);
    let c = f.config;
    assert(general_lines(f)[0] == field("model"@, f.model));
    assert(general_lines(f)[1] == field("max_tokens"@, decimal(c.max_tokens as nat)));
    assert(general_lines(f)[2] == field(
        "reasoning_effort"@,
        crate::summary::effort_in_words(c.reasoning_effort),
    ));
    assert(general_lines(f)[4] == field("accent_color"@, color_text(c.accent_color)));
    assert(general_lines(f)[5] == field(
        "selection_color"@,
        crate::settings::selection_text(c.selection_color),
    ));
    assert(reach_lines(f)[1] == field(
        "compact_threshold"@,
        decimal(c.compact_percent as nat) + "%"@,
    ));
    assert(reach_lines(f)[2] == field(
        "context_window for current model"@,
        decimal(f.context_window as nat),
    ));
    assert(reach_lines(f)[5] == field(
        "web_fetch_max_chars"@,
        decimal(c.web_fetch_max_chars as nat),
    ));
    assert(helper_lines(f)[1] == field("max_subagents"@, decimal(c.max_subagents as nat)));
    assert(helper_lines(f)[2] == field("subagent_model"@, c.subagent_model));
    assert(helper_lines(f)[3] == field(
        "subagent_request_budget"@,
        limit(c.subagent_request_budget, ""@),
    ));
    assert(helper_lines(f)[4] == field(
        "subagent_timeout_secs"@,
        limit(c.subagent_timeout_secs, "s"@),
    ));
    assert(helper_lines(f)[5] == field("anthropic_base_url"@, c.anthropic_base_url));
    assert(helper_lines(f)[6] == field("openai_base_url"@, c.openai_base_url));
}

/// The report says where a key is, and never the key.
pub proof fn keys_are_reported_by_place(f: FactsModel)
    ensures
        ({
            let place = |key: KeySource|
                match key {
                    KeySource::Environment => "environment"@,
                    KeySource::Stored => "config"@,
                    KeySource::Missing => "not set"@,
                };
            &&& reports(f, "brave_api_key"@, place(f.config.brave_key))
            &&& reports(f, "firecrawl_api_key"@, place(f.config.firecrawl_key))
        }),
        reports(
            f,
            "anthropic_api_key"@,
            if f.config.has_anthropic_key {
                "set"@
            } else {
                "not set"@
            },
        ),
        reports(
            f,
            "openai_api_key"@,
            if f.config.has_openai_key {
                "set"@
            } else {
                "not set"@
            },
        ),
{
    lines_are_parts(f);
    let c = f.config;
    assert(reach_lines(f)[6] == field("brave_api_key"@, crate::summary::key_place(c.brave_key)));
    assert(reach_lines(f)[7] == field(
        "firecrawl_api_key"@,
        crate::summary::key_place(c.firecrawl_key),
    ));
    assert(helper_lines(f)[7] == field(
        "anthropic_api_key"@,
        crate::summary::is_set(c.has_anthropic_key),
    ));
    assert(helper_lines(f)[8] == field(
        "openai_api_key"@,
        crate::summary::is_set(c.has_openai_key),
    ));
}

/// The report on the tokens tells the main conversation, and the subagents
/// where they made requests; it tells fresh tokens from cached ones, and resets
/// of the cache where there were some.
pub proof fn usage_is_told_apart(main: UsageModel, children: UsageModel)
    ensures
        ({
            let parts = usage_parts(main, children);
            let own = usage_lines(main);
            &&& parts.subrange(1, 1 + own.len() as int) == own
            &&& children.requests > 0 ==> parts[1 + own.len() as int] == "\nSubagents\n"@
                && parts.subrange(
                2 + own.len() as int,
                2 + own.len() as int + usage_lines(children).len() as int,
            ) == usage_lines(children)
            &&& children.requests == 0 ==> parts.len() == own.len() + 2
            &&& own[0] == "- Requests: "@ + decimal(main.requests as nat) + "\n"@
            &&& own[1] == "- Input: "@ + main.input + " total, "@ + main.fresh + " fresh, "@
                + main.cached + " read from cache\n"@
            &&& own[2] == "- Cache writes: "@ + main.cache_writes + "\n"@
            &&& own[3] == "- Output: "@ + main.output + "\n"@
            &&& main.cache_hit_percent is Some ==> own[4] == "- Cache hit rate: "@ + decimal(
                main.cache_hit_percent->0 as nat,
            ) + "%\n"@
            &&& main.cache_resets == 0 ==> own.len() == 5
            &&& main.cache_resets > 0 ==> own.len() == 6 && own[5]
                == "- Cache resets from compaction: "@ + decimal(main.cache_resets as nat) + "\n"@
        }),
{
    let parts = usage_parts(main, children);
    let own = usage_lines(main);
    assert(parts.subrange(1, 1 + own.len() as int) =~= own);
    if children.requests > 0 {
        assert(parts.subrange(
            2 + own.len() as int,
            2 + own.len() as int + usage_lines(children).len() as int,
        ) =~= usage_lines(children));
    }
}

/// Every skill is told by the command that runs it, and whether only the user
/// runs it; every tool by its name and where it comes from. Sources that are
/// not trusted are mentioned exactly where there are some.
pub proof fn skills_and_tools_are_told(
    directories: Seq<Seq<char>>,
    untrusted: bool,
    skills: Seq<SkillModel>,
    tools: Seq<ToolModel>,
    warnings: Seq<Seq<char>>,
    i: int,
    k: int,
)
    requires
        0 <= i < skills.len(),
        0 <= k < tools.len(),
    ensures
        ({
            let parts = skill_parts(directories, untrusted, skills, warnings);
            let at = directories.len() + 2 + if untrusted {
                1int
            } else {
                0
            };
            &&& parts[at + i] == "- `/skill:"@ + skills[i].name + "`"@ + (if skills[i].manual {
                " (manual only)"@
            } else {
                ""@
            }) + ": "@ + skills[i].description + "\n"@
            &&& warnings.len() == 0 ==> parts.len() == at + skills.len()
            &&& warnings.len() > 0 ==> parts.len() == at + skills.len() + 1 + warnings.len()
        }),
        tool_parts(tools, warnings)[k + 1] == "- `"@ + tools[k].name + "` ("@ + tools[k].origin
            + "): "@ + tools[k].description + "\n"@,
        tool_parts(tools, warnings).len() == tools.len() + warnings.len() + 1,
{
}

/// What was undone is told: nothing where no turn was dropped, and that files
/// could not be restored exactly where they could not.
pub proof fn undoing_is_told(reset_head: bool, restored: bool, n: usize)
    requires
        n > 0,
    ensures
        undo_text(0, reset_head, restored, None) == "Nothing to undo."@,
        undo_text(n, false, true, None) == "Undid the last turn."@,
        undo_text(n, true, true, None) == "Undid the last turn."@ + " Reset git HEAD."@,
        undo_text(n, false, false, None) == "Undid the last turn."@
            + " File changes could not be restored."@,
{
    reveal_strlit("");
    let t = "Undid the last turn."@;
    assert(undo_text(n, false, true, None) =~= t);
    assert(undo_text(n, true, true, None) =~= t + " Reset git HEAD."@);
    assert(undo_text(n, false, false, None) =~= t + " File changes could not be restored."@);
}

/// What is reported of a setting sets it to what it is, where it is typed.
pub proof fn reported_values_can_be_typed(f: FactsModel)
    requires
        1 <= f.config.web_fetch_max_chars <= 50000,
        1 <= f.config.max_subagents <= 16,
    ensures
        words_change(seq!["bell"@, switch_word(f.config.bell)], f.model) == Ok::<
            ChangeModel,
            Seq<char>,
        >(ChangeModel::Bell(f.config.bell)),
        words_change(seq!["max_subagents"@, decimal(f.config.max_subagents as nat)], f.model)
            == Ok::<ChangeModel, Seq<char>>(ChangeModel::MaxSubagents(f.config.max_subagents)),
{
    assert(words_change(seq!["bell"@, switch_word(f.config.bell)], f.model) == Ok::<
        ChangeModel,
        Seq<char>,
    >(ChangeModel::Bell(f.config.bell))) by {
        reveal_strlit("?");
        reveal_strlit("on");
        reveal_strlit("off");
        assert("?"@.len() == 1 && "on"@.len() == 2 && "off"@.len() == 3);
        switches_are_set_by_name(f.config.bell, "?"@, f.model);
    }
    assert(words_change(
        seq!["max_subagents"@, decimal(f.config.max_subagents as nat)],
        f.model,
    ) == Ok::<ChangeModel, Seq<char>>(ChangeModel::MaxSubagents(f.config.max_subagents))) by {
        numbers_are_set_within_bounds(f.config.max_subagents, f.model);
    }
}

} // verus!
