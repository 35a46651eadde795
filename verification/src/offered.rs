//! What the menus offer, and what they select at first.

use vstd::prelude::*;
use crate::assigning::numbers_are_set_within_bounds;
use crate::config::{
    BarModel, ConfigModel, StatusBarFormat, StatusBarStyle, StatusBarVisibility,
    WebSearchProvider,
};
use crate::model::{first_position_finds, first_position_is};
use crate::picker::ItemModel;
use crate::picker::action::{
    ActionModel, DefinitionModel, SettingsCategory, SettingsItem,
};
use crate::picker::models::{
    is_described, is_text, model_action, model_choices, model_in_use, model_menu, reasoning_menu,
    subagent_menu, ListedEntry,
};
use crate::picker::settings::{
    category_items, is_item, item_index, page_items, search_menu, skill_items,
};
use crate::picker::status_bar::{
    editor_menu, format_menu, item_menu, separator_menu, separators, style_menu,
};
use crate::settings::{words_change, ChangeModel};
use crate::text::decimal;

verus! {

broadcast use vstd::string::group_string_axioms;

// ---------------------------------------------------------------------------
// What is in force is selected

/// A menu of the status bar opens on what is in force.
pub proof fn bar_menus_open_on_what_is_in_force(layout: BarModel, index: usize, i: int)
    requires
        index < layout.items.len(),
        0 <= i < 5,
        layout.separator == separators()[i].1,
    ensures
        format_menu(layout, index).chosen() == Some(
            ActionModel::SetStatusBarFormat { index, format: layout.items[index as int].format },
        ),
        style_menu(layout).chosen() == Some(ActionModel::SetStatusBarStyle(layout.style)),
        separator_menu(layout).chosen() == Some(
            ActionModel::SetStatusBarSeparator(layout.separator),
        ),
{
    reveal(format_menu);
    reveal(style_menu);
    reveal(separator_menu);
    reveal_strlit("  ·  ");
    reveal_strlit(" | ");
    reveal_strlit(" / ");
    reveal_strlit(" ");
    reveal_strlit("");
    assert("  ·  "@.len() == 5 && " | "@.len() == 3 && " / "@.len() == 3 && " "@.len() == 1
        && ""@.len() == 0);
    assert(" | "@[1] == '|' && " / "@[1] == '/');
}

/// A separator of one's own is edited from what it is.
pub proof fn other_separators_are_edited(layout: BarModel)
    requires
        forall|i: int| 0 <= i < 5 ==> layout.separator != (#[trigger] separators()[i]).1,
    ensures
        separator_menu(layout).chosen() == Some(
            ActionModel::EditStatusBarSeparator(layout.separator),
        ),
{
    reveal(separator_menu);
    assert(separators()[0].1 == "  ·  "@);
    assert(separators()[1].1 == " | "@);
    assert(separators()[2].1 == " / "@);
    assert(separators()[3].1 == " "@);
    assert(separators()[4].1 == ""@);
}

/// The list of the search providers opens on the one in force and offers every
/// one.
pub proof fn search_menu_opens_on_what_is_in_force(
    current: WebSearchProvider,
    other: WebSearchProvider,
)
    ensures
        search_menu(current).chosen() == Some(ActionModel::SetWebSearchProvider(current)),
        exists|i: int|
            0 <= i < search_menu(current).items.len() && (#[trigger] search_menu(
                current,
            ).items[i]).action == ActionModel::SetWebSearchProvider(other),
{
    reveal(search_menu);
    let items = search_menu(current).items;
    assert(items[0].action == ActionModel::SetWebSearchProvider(WebSearchProvider::DuckDuckGo));
    assert(items[1].action == ActionModel::SetWebSearchProvider(WebSearchProvider::Firecrawl));
    assert(items[2].action == ActionModel::SetWebSearchProvider(WebSearchProvider::Brave));
}

/// The list of the models opens on the model in use, and offers every listed one.
pub proof fn model_menu_opens_on_the_model_in_use(
    list: Seq<ListedEntry>,
    config: ConfigModel,
    model: Seq<char>,
    save: bool,
)
    requires
        model_menu(list, config, model, save).items.len() <= usize::MAX,
    ensures
        model_menu(list, config, model, save).chosen() == Some(
            model_action(model_in_use(config, model, save), save),
        ),
        save && config.model is Some ==> model_in_use(config, model, save) == config.model->0,
        !save ==> model_in_use(config, model, save) == model,
        model_action(model, true) == ActionModel::SaveModel(model),
        model_action(model, false) == ActionModel::SwitchModel(model),
{
    reveal(model_menu);
    let in_use = model_in_use(config, model, save);
    let items = model_choices(list, in_use, save);
    crate::picker::models::model_in_use_is_offered(list, config, model, save);
    let k = choose|k: int|
        0 <= k < items.len() && (#[trigger] items[k]).action == model_action(in_use, save);
    assert(items[k].description == in_use);
    assert(is_described(in_use)(items[k]));
    first_position_finds(items, is_described(in_use));
    let at = crate::model::first_position(items, is_described(in_use))->0;
    assert(at <= k);
    assert(items[at].description == in_use);
}

/// The levels of reasoning are offered in their order behind the default of the
/// provider, each to be set as it is named, and the one in force is selected.
pub proof fn reasoning_menu_offers_every_level(
    efforts: Seq<Seq<char>>,
    config: ConfigModel,
    model: Seq<char>,
    save: bool,
    i: int,
)
    requires
        0 <= i < efforts.len() < usize::MAX,
    ensures
        ({
            let menu = reasoning_menu(efforts, config, model, save);
            &&& menu.items.len() == efforts.len() + 1
            &&& menu.items[0].action == ActionModel::SetReasoning { effort: None, save }
            &&& menu.items[i + 1].action == ActionModel::SetReasoning {
                effort: Some(efforts[i]),
                save,
            }
            &&& config.reasoning_effort is None ==> menu.selected == 0
            &&& config.reasoning_effort == Some(efforts[i]) ==> menu.chosen() == Some(
                ActionModel::SetReasoning { effort: Some(efforts[i]), save },
            )
        }),
{
    reveal(reasoning_menu);
    if config.reasoning_effort == Some(efforts[i]) {
        assert(is_text(efforts[i])(efforts[i]));
        first_position_finds(efforts, is_text(efforts[i]));
    }
}

/// The model of the subagents is offered to be the one of the conversation, or
/// any that is listed.
pub proof fn subagent_menu_sets_the_model(list: Seq<ListedEntry>, i: int)
    requires
        0 <= i < list.len(),
    ensures
        ({
            let menu = subagent_menu(list, "inherit"@);
            &&& menu.selected == 0 && menu.items.len() == list.len() + 2
            &&& menu.items[0].action is ApplySetting
            &&& menu.items[0].action->ApplySetting_argument == "subagent_model "@ + "inherit"@
            &&& menu.items[i + 1].action is ApplySetting
            &&& menu.items[i + 1].action->ApplySetting_argument == "subagent_model "@ + list[i].id
            &&& menu.items[i + 1].label == list[i].name
        }),
{
    reveal(subagent_menu);
}

// ---------------------------------------------------------------------------
// The pages of the settings

/// The line of a setting on its page.
pub open spec fn line(
    config: ConfigModel,
    model: Seq<char>,
    codex: bool,
    window: u64,
    catalog: Seq<DefinitionModel>,
    category: SettingsCategory,
    item: SettingsItem,
) -> ItemModel {
    category_items(config, model, codex, window, catalog, category)[item_index(
        category,
        item,
    ) as int]
}

proof fn line_is(category: SettingsCategory, i: int)
    requires
        0 <= i < page_items(category).len(),
    ensures
        item_index(category, page_items(category)[i]) == i,
{
    let page = page_items(category);
    assert(is_item(page[i])(page[i]));
    assert forall|k: int| 0 <= k < i implies !is_item(page[i])(#[trigger] page[k]) by {
        assert(page[k] != page[i]);
    }
    first_position_is(page, is_item(page[i]), i);
}

/// A switch on its page is turned by choosing its line: what it asks for is the
/// opposite of what is in force.
pub proof fn switches_are_turned(
    config: ConfigModel,
    model: Seq<char>,
    codex: bool,
    window: u64,
    catalog: Seq<DefinitionModel>,
)
    ensures
        ({
            let asks = |category: SettingsCategory, item: SettingsItem|
                line(config, model, codex, window, catalog, category, item).action;
            let interface = SettingsCategory::Interface;
            &&& asks(interface, SettingsItem::ReasoningDisplay) == ActionModel::SetHideReasoning(
                !config.hide_reasoning,
            )
            &&& asks(interface, SettingsItem::ScrollBar) == ActionModel::SetScrollBar(
                !config.scroll_bar,
            )
            &&& asks(interface, SettingsItem::ScrollBarAutoHide)
                == ActionModel::SetScrollBarAutoHide(!config.scroll_bar_auto_hide)
            &&& asks(interface, SettingsItem::Bell) == ActionModel::SetBell(!config.bell)
            &&& asks(SettingsCategory::Context, SettingsItem::AutoCompact)
                == ActionModel::SetAutoCompact(!config.auto_compact)
            &&& asks(SettingsCategory::Web, SettingsItem::WebBrowsingEnabled)
                == ActionModel::SetWebBrowsing(!config.web_browsing)
            &&& asks(SettingsCategory::Subagents, SettingsItem::SubagentsEnabled)
                == ActionModel::SetSubagents(!config.subagents)
        }),
{
    line_is(SettingsCategory::Interface, 0);
    line_is(SettingsCategory::Interface, 4);
    line_is(SettingsCategory::Interface, 5);
    line_is(SettingsCategory::Interface, 6);
    line_is(SettingsCategory::Context, 0);
    line_is(SettingsCategory::Web, 0);
    line_is(SettingsCategory::Subagents, 0);
}

/// Whether choosing a line edits a number from what it is: what is there to be
/// edited sets the number to what it was.
pub open spec fn edits_number(item: ItemModel, n: nat, model: Seq<char>, change: ChangeModel) -> bool {
    &&& item.description == decimal(n)
    &&& item.action is EditSetting
    &&& item.action->EditSetting_initial == decimal(n)
    &&& words_change(seq![item.action->EditSetting_key, decimal(n)], model) == Ok::<
        ChangeModel,
        Seq<char>,
    >(change)
}

/// A number on its page is shown as it is in force, and is edited from there.
#[verifier::rlimit(40)]
pub proof fn numbers_are_edited_from_what_they_are(
    config: ConfigModel,
    model: Seq<char>,
    codex: bool,
    window: u64,
    catalog: Seq<DefinitionModel>,
)
    requires
        1 <= config.web_fetch_max_chars <= 50000,
        window <= usize::MAX,
    ensures
        ({
            let at = |category: SettingsCategory, item: SettingsItem|
                line(config, model, codex, window, catalog, category, item);
            &&& edits_number(
                at(SettingsCategory::Model, SettingsItem::MaxOutputTokens),
                config.max_tokens as nat,
                model,
                ChangeModel::MaxTokens(config.max_tokens),
            )
            &&& edits_number(
                at(SettingsCategory::Context, SettingsItem::ContextWindow),
                window as nat,
                model,
                ChangeModel::ContextWindow { model, window },
            )
            &&& edits_number(
                at(SettingsCategory::Web, SettingsItem::WebFetchMaxChars),
                config.web_fetch_max_chars as nat,
                model,
                ChangeModel::WebFetchMaxChars(config.web_fetch_max_chars),
            )
        }),
{
    let at = |category: SettingsCategory, item: SettingsItem|
        line(config, model, codex, window, catalog, category, item);
    assert(edits_number(
        at(SettingsCategory::Model, SettingsItem::MaxOutputTokens),
        config.max_tokens as nat,
        model,
        ChangeModel::MaxTokens(config.max_tokens),
    )) by {
        line_is(SettingsCategory::Model, 1);
        numbers_are_set_within_bounds(config.max_tokens as usize, model);
    }
    assert(edits_number(
        at(SettingsCategory::Context, SettingsItem::ContextWindow),
        window as nat,
        model,
        ChangeModel::ContextWindow { model, window },
    )) by {
        line_is(SettingsCategory::Context, 2);
        numbers_are_set_within_bounds(window as usize, model);
    }
    assert(edits_number(
        at(SettingsCategory::Web, SettingsItem::WebFetchMaxChars),
        config.web_fetch_max_chars as nat,
        model,
        ChangeModel::WebFetchMaxChars(config.web_fetch_max_chars),
    )) by {
        line_is(SettingsCategory::Web, 2);
        numbers_are_set_within_bounds(config.web_fetch_max_chars, model);
    }
}

/// So are the numbers that bound the subagents.
#[verifier::rlimit(40)]
pub proof fn bounds_of_subagents_are_edited_from_what_they_are(
    config: ConfigModel,
    model: Seq<char>,
    codex: bool,
    window: u64,
    catalog: Seq<DefinitionModel>,
)
    requires
        1 <= config.max_subagents <= 16,
        config.subagent_request_budget <= 1000,
        config.subagent_timeout_secs <= 86400,
    ensures
        ({
            let at = |category: SettingsCategory, item: SettingsItem|
                line(config, model, codex, window, catalog, category, item);
            &&& edits_number(
                at(SettingsCategory::Subagents, SettingsItem::MaxSubagents),
                config.max_subagents as nat,
                model,
                ChangeModel::MaxSubagents(config.max_subagents),
            )
            &&& edits_number(
                at(SettingsCategory::Subagents, SettingsItem::SubagentRequestBudget),
                config.subagent_request_budget as nat,
                model,
                ChangeModel::SubagentRequestBudget(config.subagent_request_budget),
            )
            &&& edits_number(
                at(SettingsCategory::Subagents, SettingsItem::SubagentTimeout),
                config.subagent_timeout_secs as nat,
                model,
                ChangeModel::SubagentTimeoutSecs(config.subagent_timeout_secs),
            )
        }),
{
    let at = |category: SettingsCategory, item: SettingsItem|
        line(config, model, codex, window, catalog, category, item);
    assert(edits_number(
        at(SettingsCategory::Subagents, SettingsItem::MaxSubagents),
        config.max_subagents as nat,
        model,
        ChangeModel::MaxSubagents(config.max_subagents),
    )) by {
        line_is(SettingsCategory::Subagents, 1);
        numbers_are_set_within_bounds(config.max_subagents, model);
    }
    assert(edits_number(
        at(SettingsCategory::Subagents, SettingsItem::SubagentRequestBudget),
        config.subagent_request_budget as nat,
        model,
        ChangeModel::SubagentRequestBudget(config.subagent_request_budget),
    )) by {
        line_is(SettingsCategory::Subagents, 3);
        numbers_are_set_within_bounds(config.subagent_request_budget, model);
    }
    assert(edits_number(
        at(SettingsCategory::Subagents, SettingsItem::SubagentTimeout),
        config.subagent_timeout_secs as nat,
        model,
        ChangeModel::SubagentTimeoutSecs(config.subagent_timeout_secs),
    )) by {
        line_is(SettingsCategory::Subagents, 4);
        numbers_are_set_within_bounds(config.subagent_timeout_secs, model);
    }
}

/// The other lines lead to the list of what there is to choose from; a key is
/// typed unseen.
pub proof fn lines_lead_to_their_lists(
    config: ConfigModel,
    model: Seq<char>,
    codex: bool,
    window: u64,
    catalog: Seq<DefinitionModel>,
)
    ensures
        ({
            let asks = |category: SettingsCategory, item: SettingsItem|
                line(config, model, codex, window, catalog, category, item).action;
            &&& asks(SettingsCategory::Model, SettingsItem::DefaultModel)
                == ActionModel::OpenModels { save: true }
            &&& codex ==> asks(SettingsCategory::Model, SettingsItem::ReasoningEffort)
                == ActionModel::OpenReasoning { save: true }
            &&& asks(SettingsCategory::Interface, SettingsItem::AccentColor)
                == ActionModel::OpenAccentColor
            &&& asks(SettingsCategory::Interface, SettingsItem::SelectionColor)
                == ActionModel::OpenSelectionColor
            &&& asks(SettingsCategory::Interface, SettingsItem::StatusBar) is OpenStatusBarEditor
            &&& asks(SettingsCategory::Web, SettingsItem::WebSearchProvider)
                == ActionModel::OpenWebSearchProviders
            &&& asks(SettingsCategory::Subagents, SettingsItem::SubagentModel)
                == ActionModel::OpenSubagentModels
            &&& asks(SettingsCategory::Web, SettingsItem::BraveApiKey) is EditSecretSetting
            &&& asks(SettingsCategory::Web, SettingsItem::BraveApiKey)->EditSecretSetting_key
                == "brave_api_key"@
            &&& asks(SettingsCategory::Web, SettingsItem::FirecrawlApiKey) is EditSecretSetting
            &&& asks(SettingsCategory::Web, SettingsItem::FirecrawlApiKey)->EditSecretSetting_key
                == "firecrawl_api_key"@
            &&& asks(SettingsCategory::Advanced, SettingsItem::Reload) == ActionModel::Reload
            &&& asks(SettingsCategory::Advanced, SettingsItem::ConfigurationDetails)
                == ActionModel::ShowSettings
        }),
{
    line_is(SettingsCategory::Model, 0);
    line_is(SettingsCategory::Model, 2);
    line_is(SettingsCategory::Interface, 1);
    line_is(SettingsCategory::Interface, 2);
    line_is(SettingsCategory::Interface, 3);
    line_is(SettingsCategory::Web, 1);
    line_is(SettingsCategory::Web, 3);
    line_is(SettingsCategory::Web, 4);
    line_is(SettingsCategory::Subagents, 2);
    line_is(SettingsCategory::Advanced, 0);
    line_is(SettingsCategory::Advanced, 1);
}

/// Every directory of skills can be removed, and removing it asks for that one.
pub proof fn skill_directories_can_be_removed(directories: Seq<Seq<char>>, i: int)
    requires
        0 <= i < directories.len(),
    ensures
        skill_items(directories).len() == directories.len() + 1,
        skill_items(directories)[i + 1].action is ApplySetting,
        skill_items(directories)[i + 1].action->ApplySetting_argument == "skills remove "@
            + directories[i],
        skill_items(directories)[0].action is EditSetting,
        skill_items(directories)[0].action->EditSetting_key == "skills add"@,
{
}

// ---------------------------------------------------------------------------
// The editor of the status bar

/// The editor of the status bar lists the items in their order, and choosing
/// one opens that item; an item offers its format, its label, and, where it
/// comes and goes, the other visibility.
pub proof fn bar_editor_lists_the_items(layout: BarModel, selected: usize, i: int)
    requires
        0 <= i < layout.items.len() <= usize::MAX,
    ensures
        ({
            let menu = editor_menu(layout, selected);
            let n = layout.items.len() as int;
            let item = layout.items[i];
            let one = item_menu(layout, i as usize, 0);
            &&& menu.items.len() == n + 5
            &&& menu.items[i].action == ActionModel::OpenStatusBarItem {
                index: i as usize,
                selected: 0,
            }
            &&& menu.items[i].label == item.kind.title()
            &&& menu.items[n].action == ActionModel::OpenStatusBarAdd
            &&& menu.items[n + 1].action == ActionModel::OpenStatusBarStyles
            &&& menu.items[n + 2].action == ActionModel::OpenStatusBarSeparators
            &&& menu.items[n + 3].action == ActionModel::ResetStatusBar
            &&& menu.items[n + 4].action == ActionModel::SaveStatusBar
            &&& menu.parent == Some(ActionModel::CancelStatusBarEditor)
            &&& one.items[0].action == ActionModel::OpenStatusBarFormats(i as usize)
            &&& one.items[1].action is EditStatusBarLabel
            &&& one.items[2].action == ActionModel::ResetStatusBarLabel(i as usize)
            &&& item.kind.comes_and_goes() ==> one.items[3].action
                == ActionModel::SetStatusBarVisibility {
                index: i as usize,
                visibility: if item.visibility == StatusBarVisibility::Auto {
                    StatusBarVisibility::Always
                } else {
                    StatusBarVisibility::Auto
                },
            }
            &&& !item.kind.comes_and_goes() ==> one.items.len() == 3
        }),
{
    reveal(editor_menu);
    reveal(item_menu);
}

/// Every format and every style can be chosen.
pub proof fn every_format_and_style_is_offered(
    layout: BarModel,
    index: usize,
    format: StatusBarFormat,
    style: StatusBarStyle,
)
    ensures
        exists|i: int|
            0 <= i < format_menu(layout, index).items.len() && (#[trigger] format_menu(
                layout,
                index,
            ).items[i]).action == (ActionModel::SetStatusBarFormat { index, format }),
        exists|i: int|
            0 <= i < style_menu(layout).items.len() && (#[trigger] style_menu(
                layout,
            ).items[i]).action == ActionModel::SetStatusBarStyle(style),
{
    reveal(format_menu);
    reveal(style_menu);
    let formats = format_menu(layout, index).items;
    assert(formats[0].action == ActionModel::SetStatusBarFormat {
        index,
        format: StatusBarFormat::Current,
    });
    assert(formats[1].action == ActionModel::SetStatusBarFormat {
        index,
        format: StatusBarFormat::Compact,
    });
    assert(formats[2].action == ActionModel::SetStatusBarFormat {
        index,
        format: StatusBarFormat::Detailed,
    });
    let styles = style_menu(layout).items;
    assert(styles[0].action == ActionModel::SetStatusBarStyle(StatusBarStyle::Mixed));
    assert(styles[1].action == ActionModel::SetStatusBarStyle(StatusBarStyle::Accent));
    assert(styles[2].action == ActionModel::SetStatusBarStyle(StatusBarStyle::Muted));
    assert(styles[3].action == ActionModel::SetStatusBarStyle(StatusBarStyle::Plain));
}

} // verus!
