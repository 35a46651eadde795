use yawl::config::{
    Config, KeySource, StatusBarConfig, StatusBarItemConfig, StatusBarKind, StatusBarStyle,
    WebSearchProvider,
};
use yawl::facts::Facts;
use yawl::style::UiColor;
use yawl::actions::{activate_picker_action, After, Request};
use yawl::editor::Editor;
use yawl::events::Key;
use yawl::goals::plan_handoff_picker;
use yawl::markdown::{strip_ansi, visible_width};
use yawl::outcomes::{settle_change, settle_removal, ConfigEffect};
use yawl::picker::action::{
    ConnectEditField, ConnectStep, PickerAction, ProviderDefinition, ProviderId, SettingsCategory,
    SettingsItem, SettingsLocation,
};
use yawl::picker::models::{
    model_picker, reasoning_picker, refreshed_model_picker, refreshed_subagent_model_picker,
    remove_model_confirm, subagent_model_picker, ListedModel,
};
use yawl::picker::settings::{
    color_picker, selection_color_picker, settings_category_picker_from, settings_item_index,
    settings_picker, web_search_provider_picker,
};
use yawl::picker::status_bar::{
    separator_description, status_bar_add_picker, status_bar_editor_picker,
    status_bar_separator_picker,
};
use yawl::picker::{render_picker, Picker, PickerEdit, PickerItem};
use yawl::settings::ConfigChange;
use yawl::state::{
    handle_connection, open_connection, picker_is_editing, sync_color_preview, take_picker_action,
    ViewState,
};

fn test_config() -> Config {
    Config {
        model: Some("test".into()),
        max_tokens: 8192,
        reasoning_effort: None,
        hide_reasoning: false,
        accent_color: UiColor::white(),
        selection_color: None,
        status_bar: StatusBarConfig::default(),
        scroll_bar: true,
        scroll_bar_auto_hide: true,
        bell: false,
        auto_compact: true,
        compact_percent: 80,
        web_browsing: false,
        web_search_provider: WebSearchProvider::DuckDuckGo,
        web_fetch_max_chars: 20000,
        brave_key: KeySource::Missing,
        firecrawl_key: KeySource::Missing,
        subagents: false,
        max_subagents: 3,
        subagent_model: "inherit".into(),
        subagent_request_budget: 20,
        subagent_timeout_secs: 600,
        skill_dirs: Vec::new(),
        anthropic_base_url: "https://api.anthropic.com".into(),
        openai_base_url: "https://api.openai.com/v1".into(),
        has_anthropic_key: false,
        has_openai_key: false,
        providers: Vec::new(),
        config_path: "/home/.yawl/config.json".into(),
    }
}

fn test_facts() -> Facts {
    Facts {
        config: test_config(),
        model: "test".into(),
        reasoning_model: "test".into(),
        codex: false,
        effective_effort: None,
        supports_images: true,
        context_window: 100,
        context_tokens: 0,
        models: Vec::new(),
        configured: Vec::new(),
        efforts: Vec::new(),
        catalog: vec![ProviderDefinition {
            id: ProviderId::Compatible("local".into()),
            label: "Local".into(),
            description: "A server of one's own".into(),
            configured: false,
            endpoint: "http://127.0.0.1:9/v1".into(),
            has_credential: false,
            environment: None,
            allows_no_key: true,
        }],
        codex_models: None,
        project_config: "/project/.yawl/config.json".into(),
        active_goal: None,
        plan: None,
        session_id: "session".into(),
    }
}

fn item(label: &str, description: &str, action: PickerAction) -> PickerItem {
    PickerItem { label: label.into(), description: description.into(), action }
}

fn menu(title: &str, hint: &str, items: Vec<PickerItem>, selected: usize) -> Picker {
    Picker { title: title.into(), hint: hint.into(), items, selected, editing: None, parent: None }
}

fn test_picker_state(picker: Picker) -> ViewState {
    let mut state = ViewState::from_agent(&test_facts());
    state.picker = Some(picker);
    state
}

fn category(facts: &Facts, category: SettingsCategory) -> Picker {
    settings_category_picker_from(
        &facts.config,
        &facts.model,
        facts.codex,
        facts.context_window,
        &facts.catalog,
        category,
        0,
    )
}

fn listed(id: &str, name: &str) -> ListedModel {
    ListedModel { id: id.into(), name: name.into() }
}

#[test]
fn model_refresh_keeps_manual_model_entry_selected() {
    let config = test_config();
    for save in [false, true] {
        let mut picker = model_picker(&Vec::new(), &config, "test", save);
        picker.selected = picker.items.len() - 1;

        let refreshed = refreshed_model_picker(&Vec::new(), &config, "test", save, &picker);

        assert_eq!(refreshed.selected, refreshed.items.len() - 1);
        assert!(matches!(
            refreshed.items[refreshed.selected].action,
            PickerAction::EditModel { save: selected, .. } if selected == save
        ));
    }
}

#[test]
fn picker_is_bounded_and_highlights_selection() {
    let picker = menu(
        "Choose model",
        "Enter select",
        vec![
            item("First", "provider:first", PickerAction::SwitchModel("provider:first".into())),
            item("Second", "provider:second", PickerAction::SwitchModel("provider:second".into())),
        ],
        1,
    );
    let rendered = render_picker(
        &picker,
        &Editor::default(),
        "\x1b[7m",
        "\x1b[38;2;116;199;213m",
        50,
        10,
    );
    assert_eq!(rendered.len(), 10);
    assert!(rendered.iter().all(|line| visible_width(line) == 50));
    assert!(rendered.iter().any(|line| line.contains("Second") && line.contains("\x1b[7m")));
}

#[test]
fn picker_uses_available_width_and_accent_colored_outline() {
    let model = "omlx:mtplx-qwen38-27b-optimized-speed-with-a-long-model-name";
    let picker = menu(
        "Choose model",
        "Enter select",
        vec![item(
            "MTPLX Qwen3.8-27B Optimized Speed",
            model,
            PickerAction::SwitchModel(model.into()),
        )],
        0,
    );
    let outline = "\x1b[38;2;117;169;255m";

    let rendered = render_picker(&picker, &Editor::default(), "\x1b[7m", outline, 129, 8);
    let panel = rendered.join("\n");

    assert!(panel.contains(model));
    assert!(panel.contains(&format!("{outline}┌")));
    assert!(panel.contains(&format!("{outline}│")));
    assert!(panel.contains(&format!("{outline}└")));
    assert!(rendered.iter().all(|line| visible_width(line) == 129));
    let top_border = rendered
        .iter()
        .find(|line| line.contains('┌'))
        .expect("picker should render a top border");
    assert_eq!(strip_ansi(top_border).trim_end().chars().count(), 127);
}

#[test]
fn accent_picker_selects_the_current_shared_color() {
    let blue = UiColor::new(117, 169, 255);
    let picker = color_picker(blue);

    assert_eq!(picker.title, "Accent color");
    assert!(matches!(
        picker.items[picker.selected].action,
        PickerAction::SetAccentColor(color) if color == blue
    ));
    assert!(picker.items.iter().any(|item| item.label == "Custom RGB…"));
}

#[test]
fn selection_picker_defaults_to_following_the_accent() {
    let picker = selection_color_picker(None);
    assert_eq!(picker.title, "Selection color");
    assert_eq!(picker.items[picker.selected].label, "Accent");
    assert!(matches!(
        picker.items[picker.selected].action,
        PickerAction::SetSelectionColor(None)
    ));

    let green = UiColor::new(139, 213, 162);
    let picker = selection_color_picker(Some(green));
    assert!(matches!(
        picker.items[picker.selected].action,
        PickerAction::SetSelectionColor(Some(color)) if color == green
    ));
    assert!(picker.items.iter().any(|item| item.label == "Custom RGB…"));
}

#[test]
fn accent_picker_previews_the_highlighted_color_and_restores_on_cancel() {
    let blue = UiColor::new(117, 169, 255);
    let mut state = test_picker_state(color_picker(UiColor::white()));
    state.accent_color = UiColor::white();
    state.selection_color = UiColor::white();
    state.begin_color_preview(None);

    // Down moves the highlight from White to Gray, previewing it live.
    assert!(take_picker_action(&mut state, &mut Editor::default(), Key::Down).is_none());
    sync_color_preview(&mut state);
    assert_eq!(state.accent_color, UiColor::new(148, 148, 158));
    assert_eq!(
        state.selection_color,
        UiColor::new(148, 148, 158),
        "a selection that follows the accent tracks the preview"
    );

    // Escape restores the committed colors instead of keeping the preview,
    // then returns to the Interface settings page.
    let cancel = take_picker_action(&mut state, &mut Editor::default(), Key::Escape);
    assert!(matches!(
        cancel,
        Some(PickerAction::OpenSettingsCategory { category: SettingsCategory::Interface, .. })
    ));
    assert_eq!(state.accent_color, UiColor::white());
    assert_eq!(state.selection_color, UiColor::white());
    assert!(state.color_preview.is_none());

    // Selecting a row commits the color under the highlight.
    let mut state = test_picker_state(color_picker(UiColor::white()));
    state.accent_color = blue;
    state.selection_color = blue;
    state.begin_color_preview(Some(blue));
    let selected = state
        .picker
        .as_ref()
        .expect("picker should be open")
        .items
        .iter()
        .position(
            |item| matches!(item.action, PickerAction::SetAccentColor(color) if color == blue),
        )
        .expect("blue should be in the palette");
    state.picker.as_mut().expect("picker").selected = selected;
    sync_color_preview(&mut state);
    assert_eq!(state.accent_color, blue);
    assert_eq!(state.selection_color, blue);
}

#[test]
fn selection_picker_previews_an_explicit_color_and_falls_back_while_editing() {
    let green = UiColor::new(139, 213, 162);
    let mut state = test_picker_state(selection_color_picker(None));
    state.accent_color = UiColor::new(117, 169, 255);
    state.selection_color = state.accent_color;
    state.begin_color_preview(None);

    let selected = state
        .picker
        .as_ref()
        .expect("picker should be open")
        .items
        .iter()
        .position(
            |item| matches!(item.action, PickerAction::SetSelectionColor(Some(color)) if color == green),
        )
        .expect("green should be in the palette");
    state.picker.as_mut().expect("picker").selected = selected;
    sync_color_preview(&mut state);
    assert_eq!(state.selection_color, green);
    assert_eq!(
        state.accent_color,
        UiColor::new(117, 169, 255),
        "a selection preview leaves the accent alone"
    );

    // The custom-entry row is an edit, not a color, so the preview reverts to
    // the committed colors rather than showing a stale swatch.
    let custom = state.picker.as_ref().expect("picker").items.len() - 1;
    state.picker.as_mut().expect("picker").selected = custom;
    sync_color_preview(&mut state);
    assert_eq!(state.selection_color, UiColor::new(117, 169, 255));
}

#[test]
fn closing_a_color_picker_keeps_the_applied_color() {
    let blue = UiColor::new(117, 169, 255);
    let mut state = test_picker_state(color_picker(UiColor::white()));
    state.accent_color = blue;
    state.selection_color = blue;
    state.begin_color_preview(None);
    state.picker = Some(settings_picker());

    sync_color_preview(&mut state);
    assert!(state.color_preview.is_none());
    assert_eq!(
        state.accent_color, blue,
        "leaving a color picker must not revert the applied color"
    );
}

#[test]
fn a_rejected_custom_color_ends_the_preview() {
    let facts = test_facts();
    let mut state = test_picker_state(color_picker(UiColor::white()));
    state.accent_color = UiColor::white();
    state.selection_color = UiColor::white();
    state.begin_color_preview(facts.config.selection_color);

    // Highlight "Custom RGB…", edit it, and submit a value that cannot parse.
    let custom = state.picker.as_ref().expect("picker").items.len() - 1;
    state.picker.as_mut().expect("picker").selected = custom;
    let mut editor = Editor::default();
    take_picker_action(&mut state, &mut editor, Key::Enter);
    editor.clear();
    editor.paste("not-a-color");
    let action = take_picker_action(&mut state, &mut editor, Key::Enter);
    let (argument, location) = match action.expect("a custom value submits a setting change") {
        PickerAction::ApplySetting { argument, location } => (argument, location),
        _ => panic!("expected a setting change"),
    };
    assert_eq!(argument, "accent_color not-a-color");

    let (_, request) = activate_picker_action(
        &mut state,
        &facts,
        PickerAction::ApplySetting { argument, location },
    );
    assert!(matches!(request, Request::Nothing));
    assert!(state.notices.iter().any(|text| text.contains("color")));
    assert!(state.picker.is_none());
    assert!(
        state.color_preview.is_none(),
        "a rejected value closes the picker, so nothing may keep previewing"
    );
    assert_eq!(state.accent_color, UiColor::white());
    assert_eq!(state.transcript_accent_color(), state.accent_color);
}

#[test]
fn interface_settings_open_the_status_bar_editor() {
    let picker = category(&test_facts(), SettingsCategory::Interface);

    let item = picker
        .items
        .iter()
        .find(|item| item.label == "Status bar")
        .expect("interface settings should list the status bar");
    assert!(matches!(item.action, PickerAction::OpenStatusBarEditor { .. }));
}

#[test]
fn status_bar_editor_lists_unique_items_and_returns_move_and_remove_actions() {
    let mut state = test_picker_state(menu("", "", Vec::new(), 0));
    state.status_bar_draft = Some(StatusBarConfig {
        items: vec![StatusBarItemConfig::new(StatusBarKind::Model)],
        ..StatusBarConfig::default()
    });
    state.picker = Some(status_bar_editor_picker(state.layout(), 0));

    let move_action = take_picker_action(&mut state, &mut Editor::default(), Key::Char('J'));
    assert!(matches!(
        move_action,
        Some(PickerAction::MoveStatusBarItem { index: 0, direction: 1 })
    ));

    state.picker = Some(status_bar_editor_picker(state.layout(), 0));
    let remove_action = take_picker_action(&mut state, &mut Editor::default(), Key::Delete);
    assert!(matches!(remove_action, Some(PickerAction::RemoveStatusBarItem(0))));

    let add = status_bar_add_picker(state.layout());
    assert!(!add.items.iter().any(|item| item.label == "Model"));
    assert!(add.items.iter().any(|item| item.label == "Prompt cache"));
}

#[test]
fn status_bar_label_editor_can_submit_an_empty_label() {
    let mut state = test_picker_state(menu(
        "Model",
        "",
        vec![item(
            "Custom label…",
            "",
            PickerAction::EditStatusBarLabel { index: 0, initial: String::new() },
        )],
        0,
    ));
    let mut editor = Editor::default();

    assert!(take_picker_action(&mut state, &mut editor, Key::Enter).is_none());
    let action = take_picker_action(&mut state, &mut editor, Key::Enter);

    assert!(matches!(
        action,
        Some(PickerAction::ApplyStatusBarLabel { index: 0, label }) if label.is_empty()
    ));
}

#[test]
fn escape_returns_the_typed_parent_action() {
    let mut picker = menu("Settings · Providers", "Esc back", Vec::new(), 0);
    picker.parent = Some(PickerAction::OpenSettingsRoot { selected: 3 });
    let mut state = test_picker_state(picker);

    let action = take_picker_action(&mut state, &mut Editor::default(), Key::Escape);

    assert!(matches!(action, Some(PickerAction::OpenSettingsRoot { selected: 3 })));
}

#[test]
fn plan_handoff_number_keys_choose_before_confirmation() {
    let mut state = test_picker_state(plan_handoff_picker());
    let mut editor = Editor::default();

    assert!(take_picker_action(&mut state, &mut editor, Key::Char('2')).is_none());
    assert_eq!(state.picker.as_ref().map(|picker| picker.selected), Some(1));

    let action = take_picker_action(&mut state, &mut editor, Key::Enter);
    assert!(matches!(action, Some(PickerAction::ReturnFromPlan)));
}

#[test]
fn secret_picker_edit_masks_the_row_and_editor_layout() {
    let secret = "sk-secret-value";
    let mut editor = Editor::default();
    editor.paste(secret);
    let mut picker =
        menu("API key", "", vec![item("API key", "masked", PickerAction::ShowSettings)], 0);
    picker.editing = Some(PickerEdit::Connect { field: ConnectEditField::Secret, secret: true });

    let panel = render_picker(&picker, &editor, "\x1b[7m", "\x1b[38;2;116;199;213m", 60, 10)
        .join("\n");
    let input = editor.masked_layout(60).lines.join("\n");

    assert!(!panel.contains(secret));
    assert!(!input.contains(secret));
    assert!(panel.contains('•'));
    assert!(input.contains('•'));
}

#[test]
fn compatible_connection_toggles_with_space_and_confirms_with_enter() {
    let facts = test_facts();
    let mut state = ViewState::from_agent(&facts);
    open_connection(&mut state, test_facts().catalog, false);
    handle_connection(
        &mut state,
        PickerAction::ConnectChooseProvider(ProviderId::Compatible("local".into())),
        &None,
    );
    handle_connection(&mut state, PickerAction::ConnectChooseModel("custom".into()), &None);
    let picker = state.picker.as_ref().unwrap();
    assert_eq!(
        picker.items.iter().map(|item| item.label.as_str()).collect::<Vec<_>>(),
        [
            "[x] minimal",
            "[x] low",
            "[x] medium",
            "[x] high",
            "[x] xhigh",
            "[x] max",
            "[x] ultra"
        ]
    );
    let mut editor = Editor::default();
    take_picker_action(&mut state, &mut editor, Key::Down);
    for expected in ["[ ] low", "[x] low"] {
        let action = take_picker_action(&mut state, &mut editor, Key::Char(' ')).unwrap();
        assert!(matches!(action, PickerAction::ConnectToggleReasoning(1)));
        handle_connection(&mut state, action, &None);
        assert_eq!(state.picker.as_ref().unwrap().selected, 1);
        assert_eq!(state.picker.as_ref().unwrap().items[1].label, expected);
    }
    let action = take_picker_action(&mut state, &mut editor, Key::Enter).unwrap();
    assert!(matches!(action, PickerAction::ConnectConfirmReasoning));
    handle_connection(&mut state, action, &None);
    assert_eq!(state.picker.as_ref().unwrap().title, "Review connection");
    let action = take_picker_action(&mut state, &mut editor, Key::Escape).unwrap();
    assert!(matches!(action, PickerAction::ConnectBack(ConnectStep::Reasoning)));
    handle_connection(&mut state, action, &None);
    assert_eq!(state.picker.as_ref().unwrap().items[1].label, "[x] low");

    handle_connection(
        &mut state,
        PickerAction::ApplyConnect { field: ConnectEditField::Model, value: "different".into() },
        &None,
    );
    // An unrecognized model is treated as supporting every level; clearing
    // every box is the explicit "send no effort" choice.
    assert!(state
        .picker
        .as_ref()
        .unwrap()
        .items
        .iter()
        .all(|item| item.label.starts_with("[x]")));
    let levels = state.picker.as_ref().unwrap().items.len();
    for index in 0..levels {
        let action = take_picker_action(&mut state, &mut editor, Key::Char(' ')).unwrap();
        handle_connection(&mut state, action, &None);
        if index + 1 < levels {
            take_picker_action(&mut state, &mut editor, Key::Down);
        }
    }
    assert!(state
        .picker
        .as_ref()
        .unwrap()
        .items
        .iter()
        .all(|item| item.label.starts_with("[ ]")));
    let action = take_picker_action(&mut state, &mut editor, Key::Enter).unwrap();
    handle_connection(&mut state, action, &None);
    assert_eq!(state.picker.as_ref().unwrap().title, "Review connection");
}

fn token_menu() -> Picker {
    menu(
        "Settings",
        "Enter change",
        vec![item(
            "Max output tokens",
            "8192",
            PickerAction::EditSetting {
                key: "max_tokens".into(),
                initial: "8192".into(),
                location: None,
            },
        )],
        0,
    )
}

#[test]
fn editable_setting_stays_in_the_picker_and_submits_without_a_slash_command() {
    let mut state = test_picker_state(token_menu());
    let mut editor = Editor::default();

    assert!(take_picker_action(&mut state, &mut editor, Key::Enter).is_none());
    assert!(picker_is_editing(&state));
    assert_eq!(editor.text(), "8192");

    editor.clear();
    editor.paste("16384");
    let action = take_picker_action(&mut state, &mut editor, Key::Enter);
    assert!(matches!(
        action,
        Some(PickerAction::ApplySetting { argument, location: None }) if argument == "max_tokens 16384"
    ));
    assert!(state.picker.is_none());
}

#[test]
fn escape_cancels_picker_editing_and_dismisses_picker() {
    let mut state = test_picker_state(token_menu());
    let mut editor = Editor::default();

    // Enter starts editing
    assert!(take_picker_action(&mut state, &mut editor, Key::Enter).is_none());
    assert!(picker_is_editing(&state));
    assert_eq!(editor.text(), "8192");

    // Esc cancels editing, clears text, but keeps the picker open
    assert!(take_picker_action(&mut state, &mut editor, Key::Escape).is_none());
    assert!(!picker_is_editing(&state));
    assert!(editor.is_empty());
    assert!(state.picker.is_some());

    // Second Esc dismisses the picker
    assert!(take_picker_action(&mut state, &mut editor, Key::Escape).is_none());
    assert!(state.picker.is_none());
}

#[test]
fn settings_picker_categories_and_items_keep_their_action_contracts() {
    let facts = test_facts();
    let picker = settings_picker();
    assert_eq!(picker.items.len(), 8);
    assert_eq!(picker.items[SettingsCategory::Providers.index()].label, "Providers");

    let interface = category(&facts, SettingsCategory::Interface);
    let reasoning =
        settings_item_index(SettingsCategory::Interface, SettingsItem::ReasoningDisplay);
    let accent = settings_item_index(SettingsCategory::Interface, SettingsItem::AccentColor);
    let scroll = settings_item_index(SettingsCategory::Interface, SettingsItem::ScrollBar);
    let auto_hide =
        settings_item_index(SettingsCategory::Interface, SettingsItem::ScrollBarAutoHide);
    assert_eq!(interface.items[reasoning].label, "Reasoning display");
    assert_eq!(interface.items[accent].label, "Accent color");
    assert_eq!(interface.items[scroll].label, "Scroll bar");
    assert!(matches!(interface.items[scroll].action, PickerAction::SetScrollBar(false)));
    assert_eq!(interface.items[auto_hide].label, "Auto-hide scroll bar");
    assert!(matches!(
        interface.items[auto_hide].action,
        PickerAction::SetScrollBarAutoHide(false)
    ));
    let context = category(&facts, SettingsCategory::Context);
    assert_eq!(context.items[0].label, "Automatic compaction");
    let web = category(&facts, SettingsCategory::Web);
    assert_eq!(web.items.len(), 5);
    assert_eq!(web.items[0].label, "Web browsing");
    assert_eq!(web.items[1].label, "Search provider");
    assert_eq!(web.items[1].description, "DuckDuckGo · Enter to choose");
    assert!(web.items[3].description.contains("Enter"));
    assert!(matches!(web.items[0].action, PickerAction::SetWebBrowsing(true)));
    assert!(matches!(web.items[1].action, PickerAction::OpenWebSearchProviders));
    assert!(matches!(web.items[3].action, PickerAction::EditSecretSetting { .. }));
    let advanced = category(&facts, SettingsCategory::Advanced);
    assert_eq!(advanced.items[0].label, "Reload configuration");
}

#[test]
fn web_search_provider_picker_lists_supported_providers_and_selects_current() {
    let picker = web_search_provider_picker(WebSearchProvider::Firecrawl);

    assert_eq!(picker.title, "Search provider");
    assert_eq!(
        picker.items.iter().map(|item| item.label.as_str()).collect::<Vec<_>>(),
        ["DuckDuckGo", "Firecrawl", "Brave"]
    );
    assert_eq!(picker.selected, 1);
    assert!(matches!(
        picker.items[1].action,
        PickerAction::SetWebSearchProvider(WebSearchProvider::Firecrawl)
    ));
    assert!(matches!(
        picker.parent,
        Some(PickerAction::OpenSettingsCategory { category: SettingsCategory::Web, selected: 1 })
    ));
}

#[test]
fn subagent_model_picker_inherits_and_keeps_custom_and_manual_selection_on_refresh() {
    let inherited = subagent_model_picker(&Vec::new(), "inherit");
    assert_eq!(inherited.selected, 0);
    assert!(
        matches!(&inherited.items[0].action, PickerAction::ApplySetting { argument, .. } if argument == "subagent_model inherit")
    );
    assert!(matches!(
        inherited.parent,
        Some(PickerAction::OpenSettingsCategory { category: SettingsCategory::Subagents, .. })
    ));

    let models = vec![listed("local:listed", "Listed")];
    let known = subagent_model_picker(&models, "local:listed");
    assert_eq!(known.items[known.selected].label, "Listed");
    let custom = subagent_model_picker(&models, "local:custom");
    assert_eq!(custom.items[custom.selected].description, "local:custom");
    let refreshed = refreshed_subagent_model_picker(&models, "local:custom", &custom);
    assert_eq!(refreshed.items[refreshed.selected].description, "local:custom");
    let mut manual = known;
    manual.selected = manual.items.len() - 1;
    let refreshed = refreshed_subagent_model_picker(&models, "local:listed", &manual);
    assert_eq!(refreshed.selected, refreshed.items.len() - 1);
    assert!(matches!(
        refreshed.items[refreshed.selected].action,
        PickerAction::EditSetting { .. }
    ));
}

#[test]
fn subagent_model_manual_entry_and_escape_return_to_setting() {
    let mut picker = subagent_model_picker(&Vec::new(), "inherit");
    picker.selected = picker.items.len() - 1;
    let mut state = test_picker_state(picker);
    let mut editor = Editor::default();
    assert!(take_picker_action(&mut state, &mut editor, Key::Enter).is_none());
    editor.paste("local:manual");
    assert!(
        matches!(take_picker_action(&mut state, &mut editor, Key::Enter), Some(PickerAction::ApplySetting { argument, location: Some(SettingsLocation { category: SettingsCategory::Subagents, item: SettingsItem::SubagentModel }) }) if argument == "subagent_model local:manual")
    );
    state.picker = Some(subagent_model_picker(&Vec::new(), "inherit"));
    assert!(
        matches!(take_picker_action(&mut state, &mut editor, Key::Escape), Some(PickerAction::OpenSettingsCategory { category: SettingsCategory::Subagents, selected }) if selected == settings_item_index(SettingsCategory::Subagents, SettingsItem::SubagentModel))
    );
}

#[test]
fn subagent_model_idle_save_reopens_the_highlighted_setting() {
    let mut facts = test_facts();
    let mut state = ViewState::from_agent(&facts);
    let (_, request) = activate_picker_action(
        &mut state,
        &facts,
        PickerAction::ApplySetting {
            argument: "subagent_model local:manual".into(),
            location: Some(SettingsLocation {
                category: SettingsCategory::Subagents,
                item: SettingsItem::SubagentModel,
            }),
        },
    );
    let after = match request {
        Request::Change { change: ConfigChange::SubagentModel(model), after } => {
            assert_eq!(model, "local:manual");
            facts.config.subagent_model = model;
            after
        }
        other => panic!("unexpected {other:?}"),
    };
    settle_change(&mut state, &facts, after, &Ok(ConfigEffect::Applied));
    let picker = state.picker.as_ref().expect("settings reopen");
    assert_eq!(
        picker.selected,
        settings_item_index(SettingsCategory::Subagents, SettingsItem::SubagentModel)
    );
    assert_eq!(picker.items[picker.selected].description, "local:manual");
}

#[test]
fn model_picker_removes_configured_models_only_after_confirmation() {
    let mut facts = test_facts();
    facts.models = vec![listed("local:first", "first"), listed("local:second", "second")];
    facts.configured = vec!["local:first".into(), "local:second".into()];
    let mut state = ViewState::from_agent(&facts);
    let mut editor = Editor::default();
    activate_picker_action(&mut state, &facts, PickerAction::OpenModels { save: false });
    let picker = state.picker.as_mut().expect("model picker");
    assert!(picker.hint.contains("d remove"));
    let first = picker
        .items
        .iter()
        .position(|item| item.description == "local:first")
        .expect("configured model is listed");
    picker.selected = first;

    let confirm = take_picker_action(&mut state, &mut editor, Key::Char('d'))
        .expect("d asks for confirmation");
    activate_picker_action(&mut state, &facts, confirm);
    let picker = state.picker.as_ref().expect("confirmation picker");
    assert_eq!(picker.title, "Remove model?");
    assert_eq!(picker.selected, 0, "Cancel is the default");

    let back = take_picker_action(&mut state, &mut editor, Key::Escape).expect("escape goes back");
    activate_picker_action(&mut state, &facts, back);
    let picker = state.picker.as_ref().expect("model picker again");
    assert_eq!(picker.items[picker.selected].description, "local:first");

    let confirm = take_picker_action(&mut state, &mut editor, Key::Delete).unwrap();
    activate_picker_action(&mut state, &facts, confirm);
    assert!(take_picker_action(&mut state, &mut editor, Key::Down).is_none());
    let remove = take_picker_action(&mut state, &mut editor, Key::Enter).expect("confirm");
    let (_, request) = activate_picker_action(&mut state, &facts, remove);
    match request {
        Request::RemoveModel { model, save, selected } => {
            assert_eq!(model, "local:first");
            facts.models = vec![listed("local:second", "second")];
            facts.configured = vec!["local:second".into()];
            settle_removal(&mut state, &facts, &model, save, selected, &Ok(()));
        }
        other => panic!("unexpected {other:?}"),
    }
    let picker = state.picker.as_ref().expect("model picker reopens");
    assert_eq!(picker.title, "Choose model");
    assert!(picker.items.iter().all(|item| item.description != "local:first"));
    assert!(state.notices.iter().any(|text| text.contains("Removed `local:first`")));

    let current = picker
        .items
        .iter()
        .position(|item| item.description == "test")
        .expect("current model entry");
    state.picker.as_mut().unwrap().selected = current;
    let confirm = take_picker_action(&mut state, &mut editor, Key::Char('d')).unwrap();
    activate_picker_action(&mut state, &facts, confirm);
    assert_eq!(state.picker.as_ref().unwrap().title, "Choose model");
    assert!(state
        .notices
        .iter()
        .any(|text| text.contains("not a configured provider model")));
    assert!(remove_model_confirm(&facts.configured, "openai-codex:gpt-test", false, 0)
        .is_err_and(|message| message.contains("Codex account catalog")));
}

#[test]
fn levels_are_shown_with_a_capital_letter() {
    let efforts = vec!["minimal".to_string(), "éclair".to_string()];
    let picker = reasoning_picker(&efforts, &test_config(), "test", false);
    assert_eq!(
        picker.items.iter().map(|item| item.label.as_str()).collect::<Vec<_>>(),
        ["Provider default", "Minimal", "Éclair"]
    );
}

#[test]
fn separators_are_shown_in_quotes() {
    let layout = StatusBarConfig {
        items: Vec::new(),
        style: StatusBarStyle::Plain,
        separator: "\t|\"".into(),
    };
    let picker = status_bar_separator_picker(&layout);
    assert!(picker.items.iter().any(|item| item.description.contains("\"\\t|\\\"\"")));
}

#[test]
fn a_change_that_fails_is_named() {
    let facts = test_facts();
    let mut state = ViewState::from_agent(&facts);
    settle_change(&mut state, &facts, After::Stay, &Err("disk full".into()));
    assert_eq!(state.notices, ["Could not change setting: disk full"]);
}

#[test]
fn separators_are_described_by_what_can_be_seen() {
    assert_eq!(separator_description(""), "No separator");
    assert_eq!(separator_description("  "), "2 space columns");
    assert_eq!(separator_description("\u{3000}"), "2 space columns");
    assert_eq!(separator_description(" \" "), "\" \\\" \"");
}
