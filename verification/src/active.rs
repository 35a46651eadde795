//! The menus that stay at hand while a turn runs.

use vstd::prelude::*;
use crate::config::{Config, ConfigModel};
use crate::facts::{facts_model, Facts, FactsModel};
use crate::model::views;
use crate::picker::action::{DefinitionModel, ProviderDefinition, SettingsCategory};
use crate::picker::models::{model_menu, model_picker, reasoning_menu, reasoning_picker};
use crate::picker::settings::{
    accent_menu, categories, category_menu, color_picker, root_menu, selection_color_picker,
    selection_menu, settings_category_picker_from, settings_picker,
};
use crate::picker::{Picker, PickerModel};

verus! {

broadcast use vstd::string::group_string_axioms;

/// The menus as they were when a turn began.
#[derive(Debug)]
pub struct ActivePickers {
    pub model: Picker,
    pub default_model: Picker,
    pub settings: Picker,
    pub settings_categories: Vec<(SettingsCategory, Picker)>,
    pub reasoning: Picker,
    pub default_reasoning: Picker,
    pub accent_color: Picker,
    pub selection_color: Picker,
}

pub struct MenusModel {
    pub model: PickerModel,
    pub default_model: PickerModel,
    pub settings: PickerModel,
    pub pages: Seq<(SettingsCategory, PickerModel)>,
    pub reasoning: PickerModel,
    pub default_reasoning: PickerModel,
    pub accent_color: PickerModel,
    pub selection_color: PickerModel,
}

/// The pages of the settings and their menus.
pub open spec fn pages_of(pages: Seq<(SettingsCategory, Picker)>) -> Seq<(SettingsCategory, PickerModel)> {
    pages.map_values(|page: (SettingsCategory, Picker)| (page.0, page.1@))
}

impl View for ActivePickers {
    type V = MenusModel;

    open spec fn view(&self) -> MenusModel {
        MenusModel {
            model: self.model@,
            default_model: self.default_model@,
            settings: self.settings@,
            pages: pages_of(self.settings_categories@),
            reasoning: self.reasoning@,
            default_reasoning: self.default_reasoning@,
            accent_color: self.accent_color@,
            selection_color: self.selection_color@,
        }
    }
}

pub open spec fn page_of(f: FactsModel, category: SettingsCategory) -> PickerModel {
    category_menu(f.config, f.model, f.codex, f.context_window, f.catalog, category, 0)
}

pub open spec fn menus_of(f: FactsModel) -> MenusModel {
    MenusModel {
        model: model_menu(f.models, f.config, f.model, false),
        default_model: model_menu(f.models, f.config, f.model, true),
        settings: root_menu(),
        pages: categories().map_values(
            |category: SettingsCategory| (category, page_of(f, category)),
        ),
        reasoning: reasoning_menu(f.efforts, f.config, f.reasoning_model, false),
        default_reasoning: reasoning_menu(f.efforts, f.config, f.reasoning_model, true),
        accent_color: accent_menu(f.config.accent_color),
        selection_color: selection_menu(f.config.selection_color),
    }
}

/// The page of the interface with the settings in force; its selection stays.
pub open spec fn interface_page(config: ConfigModel, selected: usize) -> PickerModel {
    category_menu(
        config,
        ""@,
        false,
        0,
        Seq::empty(),
        SettingsCategory::Interface,
        selected,
    )
}

pub open spec fn is_interface(page: (SettingsCategory, PickerModel)) -> bool {
    page.0 == SettingsCategory::Interface
}

/// Pages with the first one of the interface drawn anew.
pub open spec fn refreshed_pages(
    pages: Seq<(SettingsCategory, PickerModel)>,
    config: ConfigModel,
) -> Seq<(SettingsCategory, PickerModel)>
    decreases pages.len(),
{
    if pages.len() == 0 {
        pages
    } else if is_interface(pages.first()) {
        pages.update(
            0,
            (
                SettingsCategory::Interface,
                interface_page(config, pages.first().1.selected),
            ),
        )
    } else {
        seq![pages.first()] + refreshed_pages(pages.drop_first(), config)
    }
}

proof fn first_interface_is_refreshed(
    pages: Seq<(SettingsCategory, PickerModel)>,
    config: ConfigModel,
    at: int,
)
    requires
        0 <= at <= pages.len(),
        forall|i: int| 0 <= i < at ==> !is_interface(#[trigger] pages[i]),
        at < pages.len() ==> is_interface(pages[at]),
    ensures
        refreshed_pages(pages, config) == (if at < pages.len() {
            pages.update(
                at,
                (SettingsCategory::Interface, interface_page(config, pages[at].1.selected)),
            )
        } else {
            pages
        }),
    decreases at,
{
    if at > 0 {
        let rest = pages.drop_first();
        assert(!is_interface(pages[0]));
        assert forall|i: int| 0 <= i < at - 1 implies !is_interface(#[trigger] rest[i]) by {
            assert(!is_interface(pages[i + 1]));
        }
        first_interface_is_refreshed(rest, config, at - 1);
        assert(seq![pages.first()] + rest =~= pages);
        if at < pages.len() {
            assert(seq![pages.first()] + rest.update(
                at - 1,
                (SettingsCategory::Interface, interface_page(config, pages[at].1.selected)),
            ) =~= pages.update(
                at,
                (SettingsCategory::Interface, interface_page(config, pages[at].1.selected)),
            ));
        }
    }
}

impl ActivePickers {
    pub fn from_agent(facts: &Facts) -> (r: Self)
        ensures
            r@ == menus_of(facts@),
    {
        proof {
            reveal(facts_model);
        }
        let list = SettingsCategory::all();
        let ghost all = menus_of(facts@).pages;
        let mut pages: Vec<(SettingsCategory, Picker)> = Vec::new();
        let mut i: usize = 0;
        assert(pages_of(pages@) =~= all.take(0));
        while i < list.len()
            invariant
                i <= list@.len(),
                list@ == categories(),
                all == menus_of(facts@).pages,
                pages_of(pages@) == all.take(i as int),
            decreases list@.len() - i,
        {
            proof {
                reveal(facts_model);
            }
            let category = list[i];
            let page = settings_category_picker_from(
                &facts.config,
                facts.model.as_str(),
                facts.codex,
                facts.context_window,
                &facts.catalog,
                category,
                0,
            );
            let ghost before = pages_of(pages@);
            let ghost model = page@;
            assert(model == page_of(facts@, category));
            pages.push((category, page));
            assert(pages_of(pages@) =~= before.push((category, model)));
            assert(all[i as int] == (category, model));
            i += 1;
            assert(pages_of(pages@) =~= all.take(i as int));
        }
        assert(all.take(i as int) =~= all);
        let model = facts.model.as_str();
        let bare = facts.reasoning_model.as_str();
        ActivePickers {
            model: model_picker(&facts.models, &facts.config, model, false),
            default_model: model_picker(&facts.models, &facts.config, model, true),
            settings: settings_picker(),
            settings_categories: pages,
            reasoning: reasoning_picker(&facts.efforts, &facts.config, bare, false),
            default_reasoning: reasoning_picker(&facts.efforts, &facts.config, bare, true),
            accent_color: color_picker(facts.config.accent_color),
            selection_color: selection_color_picker(facts.config.selection_color),
        }
    }

    /// Draws the menus anew that show how the interface looks.
    pub fn refresh_display_settings(&mut self, config: &Config)
        ensures
            final(self)@ == (MenusModel {
                pages: refreshed_pages(old(self)@.pages, config@),
                accent_color: accent_menu(config@.accent_color),
                selection_color: selection_menu(config@.selection_color),
                ..old(self)@
            }),
    {
        let ghost before = self@.pages;
        let n: usize = self.settings_categories.len();
        assert(before.len() == n);
        let mut at: usize = 0;
        while at < n && self.settings_categories[at].0 != SettingsCategory::Interface
            invariant
                at <= n,
                n == self.settings_categories@.len(),
                before == pages_of(self.settings_categories@),
                before.len() == n,
                forall|i: int| 0 <= i < at ==> !is_interface(#[trigger] before[i]),
            decreases n - at,
        {
            assert(before[at as int].0 == self.settings_categories@[at as int].0);
            at += 1;
        }
        proof {
            if at < n {
                assert(before[at as int].0 == self.settings_categories@[at as int].0);
            }
            first_interface_is_refreshed(before, config@, at as int);
        }
        if at < n {
            let catalog: Vec<ProviderDefinition> = Vec::new();
            assert(views(catalog@) =~= Seq::<DefinitionModel>::empty());
            let selected: usize = self.settings_categories[at].1.selected;
            assert(before[at as int].1.selected == selected);
            let page = settings_category_picker_from(
                config,
                "",
                false,
                0,
                &catalog,
                SettingsCategory::Interface,
                selected,
            );
            let ghost model = page@;
            self.settings_categories.set(at, (SettingsCategory::Interface, page));
            assert(pages_of(self.settings_categories@) =~= before.update(
                at as int,
                (SettingsCategory::Interface, model),
            ));
        }
        self.accent_color = color_picker(config.accent_color);
        self.selection_color = selection_color_picker(config.selection_color);
    }
}

/// Every page of the settings is there once and in its order, with what the
/// configuration holds.
pub proof fn pages_are_all_there(f: FactsModel, i: int)
    requires
        0 <= i < 8,
    ensures
        menus_of(f).pages.len() == 8,
        menus_of(f).pages[i].0 == categories()[i],
        menus_of(f).pages[i].1 == category_menu(
            f.config,
            f.model,
            f.codex,
            f.context_window,
            f.catalog,
            categories()[i],
            0,
        ),
        menus_of(f).model == model_menu(f.models, f.config, f.model, false),
        menus_of(f).default_model == model_menu(f.models, f.config, f.model, true),
        menus_of(f).accent_color == accent_menu(f.config.accent_color),
        menus_of(f).selection_color == selection_menu(f.config.selection_color),
{
}

/// A page of the interface is drawn anew with the configuration, and keeps its
/// selection; the other pages stay.
pub proof fn only_the_interface_is_drawn_anew(
    pages: Seq<(SettingsCategory, PickerModel)>,
    config: ConfigModel,
    k: int,
)
    requires
        0 <= k < pages.len(),
        pages[k].0 == SettingsCategory::Interface,
        forall|i: int|
            0 <= i < pages.len() && i != k ==> (#[trigger] pages[i]).0
                != SettingsCategory::Interface,
    ensures
        refreshed_pages(pages, config) == pages.update(
            k,
            (SettingsCategory::Interface, interface_page(config, pages[k].1.selected)),
        ),
    decreases pages.len(),
{
    if k > 0 {
        assert(pages[0].0 != SettingsCategory::Interface);
        let rest = pages.drop_first();
        assert forall|i: int| 0 <= i < rest.len() && i != k - 1 implies (#[trigger] rest[i]).0
            != SettingsCategory::Interface by {
            assert(rest[i] == pages[i + 1]);
        }
        only_the_interface_is_drawn_anew(rest, config, k - 1);
        let page = (SettingsCategory::Interface, interface_page(config, pages[k].1.selected));
        assert(seq![pages[0]] + rest.update(k - 1, page) =~= pages.update(k, page));
    }
}

} // verus!
