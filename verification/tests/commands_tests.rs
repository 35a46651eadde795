use yawl::config::{Config, KeySource, StatusBarConfig, StatusBarStyle, WebSearchProvider};
use yawl::facts::Facts;
use yawl::picker::action::{PickerAction, ProviderDefinition, ProviderId};
use yawl::style::UiColor;
use yawl::actions::{activate_picker_action, Request};
use yawl::changes::{show_diff_files, OnDisk, TouchedFile};
use yawl::copying::{
    format_copy_all, format_copy_all_from_transcript, last_assistant_reply, Message, Role,
    TranscriptEntry,
};
use yawl::editor::{Editor, Submission};
use yawl::events::Key;
use yawl::goals::prepare_goal_submission;
use yawl::outcomes::{settle_change, settle_effort, settle_switch, ConfigEffect};
use yawl::queue::{handle_queue_picker_action, open_queue_picker, promote_queued};
use yawl::sessions::{open_resume_picker, reopen_resume_picker, resume, settle_delete, SessionEntry};
use yawl::settings::{settings, ConfigChange};
use yawl::state::{take_picker_action, ViewState};
use yawl::submission::{init, is_new_session_command, reasoning, HELP, HOTKEYS};
use yawl::tables::render;

fn test_config() -> Config {
    Config {
        model: Some("test".into()),
        max_tokens: 8192,
        reasoning_effort: None,
        hide_reasoning: false,
        accent_color: UiColor::white(),
        selection_color: None,
        status_bar: StatusBarConfig::default(),
        scroll_bar: true,
        scroll_bar_auto_hide: true,
        bell: false,
        auto_compact: true,
        compact_percent: 80,
        web_browsing: false,
        web_search_provider: WebSearchProvider::DuckDuckGo,
        web_fetch_max_chars: 20000,
        brave_key: KeySource::Missing,
        firecrawl_key: KeySource::Missing,
        subagents: false,
        max_subagents: 3,
        subagent_model: "inherit".into(),
        subagent_request_budget: 20,
        subagent_timeout_secs: 600,
        skill_dirs: Vec::new(),
        anthropic_base_url: "https://api.anthropic.com".into(),
        openai_base_url: "https://api.openai.com/v1".into(),
        has_anthropic_key: false,
        has_openai_key: false,
        providers: Vec::new(),
        config_path: "/home/.yawl/config.json".into(),
    }
}

fn test_facts() -> Facts {
    Facts {
        config: test_config(),
        model: "test".into(),
        reasoning_model: "test".into(),
        codex: false,
        effective_effort: None,
        supports_images: true,
        context_window: 100,
        context_tokens: 0,
        models: Vec::new(),
        configured: Vec::new(),
        efforts: Vec::new(),
        catalog: vec![ProviderDefinition {
            id: ProviderId::Compatible("local".into()),
            label: "Local".into(),
            description: "A server of one's own".into(),
            configured: false,
            endpoint: "http://127.0.0.1:9/v1".into(),
            has_credential: false,
            environment: None,
            allows_no_key: true,
        }],
        codex_models: None,
        project_config: "/project/.yawl/config.json".into(),
        active_goal: None,
        plan: None,
        session_id: "session".into(),
    }
}

fn message(role: Role, content: &str) -> Message {
    Message { role, content: content.into(), reasoning: Vec::new(), hidden: false }
}

fn summary_message(text: &str) -> Message {
    message(Role::User, &format!("[conversation summary]\n\n{text}"))
}

#[test]
fn new_and_clear_are_new_session_commands() {
    assert!(is_new_session_command("new"));
    assert!(is_new_session_command("clear"));
    assert!(!is_new_session_command("compact"));
}

#[test]
fn init_accepts_no_arguments_and_keeps_the_literal_command() {
    let input = init("").expect("bare init should run");
    assert_eq!(input.text, "/init");
    assert!(input.images.is_empty());
    assert_eq!(init("replace").unwrap_err(), "Usage: /init");
}

#[test]
fn goal_submission_expands_long_pastes_for_the_agent() {
    let mut editor = Editor::default();
    let pasted = "goal detail ".repeat(50);
    editor.paste(&pasted);
    let placeholder = editor.text();

    let (agent_argument, displayed) = prepare_goal_submission(&editor, &placeholder);

    assert_eq!(agent_argument, pasted);
    assert_eq!(displayed, pasted);
}

#[test]
fn direct_web_settings_apply_and_validate() {
    let mut facts = test_facts();
    let mut state = ViewState::from_agent(&facts);

    assert!(matches!(settings("web_browsing on", "test"), Ok(Some(ConfigChange::WebBrowsing(true)))));
    assert!(matches!(
        settings("web_search_provider brave", "test"),
        Ok(Some(ConfigChange::WebSearchProvider(WebSearchProvider::Brave)))
    ));
    assert!(matches!(
        settings("web_fetch_max_chars 12345", "test"),
        Ok(Some(ConfigChange::WebFetchMaxChars(12345)))
    ));
    assert!(matches!(
        settings("brave_api_key test-secret", "test"),
        Ok(Some(ConfigChange::BraveApiKey(Some(key)))) if key == "test-secret"
    ));
    assert!(settings("web_fetch_max_chars 50001", "test").is_err());

    activate_picker_action(&mut state, &facts, PickerAction::OpenWebSearchProviders);
    assert_eq!(state.picker.as_ref().map(|picker| picker.items.len()), Some(3));
    let (_, request) = activate_picker_action(
        &mut state,
        &facts,
        PickerAction::SetWebSearchProvider(WebSearchProvider::Firecrawl),
    );
    match request {
        Request::Change { change: ConfigChange::WebSearchProvider(provider), after } => {
            assert_eq!(provider, WebSearchProvider::Firecrawl);
            facts.config.web_search_provider = provider;
            settle_change(&mut state, &facts, after, &Ok(ConfigEffect::Applied));
        }
        other => panic!("unexpected {other:?}"),
    }
    assert!(
        state.notices.is_empty(),
        "successful configuration changes should not add system notices"
    );
    assert_eq!(state.picker.as_ref().map(|picker| picker.selected), Some(1));
}

#[test]
fn status_bar_editor_discards_drafts_and_saves_once() {
    let mut facts = test_facts();
    let mut state = ViewState::from_agent(&facts);

    activate_picker_action(&mut state, &facts, PickerAction::OpenStatusBarEditor { selected: 0 });
    state
        .status_bar_draft
        .as_mut()
        .expect("editor should create a draft")
        .items
        .clear();
    let (_, request) =
        activate_picker_action(&mut state, &facts, PickerAction::CancelStatusBarEditor);
    assert!(matches!(request, Request::Nothing));
    assert!(state.status_bar_draft.is_none());
    assert_eq!(facts.config.status_bar, StatusBarConfig::default());

    activate_picker_action(&mut state, &facts, PickerAction::OpenStatusBarEditor { selected: 0 });
    let draft = state
        .status_bar_draft
        .as_mut()
        .expect("editor should create a second draft");
    draft.items.clear();
    draft.style = StatusBarStyle::Plain;
    let (_, request) = activate_picker_action(&mut state, &facts, PickerAction::SaveStatusBar);
    match request {
        Request::Change { change: ConfigChange::StatusBar(layout), after } => {
            assert!(layout.items.is_empty());
            assert_eq!(layout.style, StatusBarStyle::Plain);
            facts.config.status_bar = layout;
            settle_change(&mut state, &facts, after, &Ok(ConfigEffect::Applied));
        }
        other => panic!("unexpected {other:?}"),
    }
    assert!(state.status_bar.items.is_empty());
    assert!(state.status_bar_draft.is_none());
}

#[test]
fn queue_editor_removes_a_selected_message_and_keeps_the_rest() {
    let mut state = ViewState::from_agent(&test_facts());
    state.queued_inputs = vec![Submission::new("first"), Submission::new("second")];
    open_queue_picker(&mut state);
    let mut editor = Editor::default();

    let action = take_picker_action(&mut state, &mut editor, Key::Char('d'));
    let remaining = action.and_then(|action| handle_queue_picker_action(&mut state, action));

    assert!(remaining.is_none());
    assert_eq!(state.queued_inputs, [Submission::new("second")]);
    assert!(state.picker.is_some());
    assert_eq!(state.activity, "removed queued message 1");

    state.queued_inputs.push(Submission::new("third"));
    open_queue_picker(&mut state);
    assert!(take_picker_action(&mut state, &mut editor, Key::Char('e')).is_none());
    assert_eq!(editor.text(), "second");
    editor.clear();
    editor.paste("edited second");
    let action = take_picker_action(&mut state, &mut editor, Key::Enter)
        .expect("saving a queue edit returns an action");
    assert!(handle_queue_picker_action(&mut state, action).is_none());
    assert_eq!(state.queued_inputs[0].text, "edited second");

    let action = take_picker_action(&mut state, &mut editor, Key::Char('J'))
        .expect("queue reorder returns an action");
    assert!(handle_queue_picker_action(&mut state, action).is_none());
    assert_eq!(
        state.queued_inputs,
        [Submission::new("third"), Submission::new("edited second")]
    );

    let send = take_picker_action(&mut state, &mut editor, Key::Enter)
        .expect("Enter requests immediate delivery");
    let PickerAction::SendQueued(index) = send else {
        panic!("queue Enter should request immediate delivery");
    };
    assert!(promote_queued(&mut state, index));
    assert_eq!(state.queued_inputs[0].text, "edited second");
}

fn saved(id: &str, preview: &str) -> SessionEntry {
    SessionEntry { id: id.into(), model: "test".into(), preview: preview.into() }
}

#[test]
fn resume_picker_is_scoped_but_explicit_ids_search_other_projects() {
    let mut state = ViewState::from_agent(&test_facts());
    let found = Ok(vec![saved("session-1", "fix the bug")]);

    open_resume_picker(&mut state, &found);
    let picker = state.picker.as_ref().expect("picker should be open");
    assert_eq!(picker.items.len(), 1);
    assert_eq!(picker.items[0].label, "fix the bug");
    assert_eq!(picker.items[0].description, "test · session-1");

    assert_eq!(resume("other-session", &found, &mut state), Some("other-session".to_string()));
}

#[test]
fn resume_picker_deletes_the_selected_session() {
    let facts = test_facts();
    let mut state = ViewState::from_agent(&facts);
    let mut editor = Editor::default();
    let found = Ok(vec![saved("remove", "delete me"), saved("keep", "keep me")]);

    open_resume_picker(&mut state, &found);
    assert_eq!(state.picker.as_ref().map(|p| p.items.len()), Some(2));
    assert!(take_picker_action(&mut state, &mut editor, Key::Char('d')).is_none());
    let confirm = state.picker.as_ref().expect("delete confirmation should open");
    assert_eq!(confirm.title, "Delete session?");
    assert_eq!(confirm.selected, 0);
    assert!(matches!(
        confirm.items[1].action,
        PickerAction::DeleteSession(ref id) if id == "remove"
    ));

    let cancel = take_picker_action(&mut state, &mut editor, Key::Escape)
        .expect("escape should return to the resume picker");
    assert!(matches!(cancel, PickerAction::OpenResume { selected: 0 }));
    let (_, request) = activate_picker_action(&mut state, &facts, cancel);
    assert!(matches!(request, Request::ListSessions { selected: 0 }));
    reopen_resume_picker(&mut state, &found, 0);
    assert_eq!(state.picker.as_ref().map(|p| p.items.len()), Some(2));

    assert!(take_picker_action(&mut state, &mut editor, Key::Char('d')).is_none());
    assert!(take_picker_action(&mut state, &mut editor, Key::Down).is_none());
    let confirmed = take_picker_action(&mut state, &mut editor, Key::Enter)
        .expect("enter on Delete should confirm");
    assert!(matches!(
        confirmed,
        PickerAction::DeleteSession(ref id) if id == "remove"
    ));
    let (_, request) = activate_picker_action(&mut state, &facts, confirmed);
    match request {
        Request::DeleteSession { id, selected } => {
            assert_eq!(id, "remove");
            let left = Ok(vec![saved("keep", "keep me")]);
            settle_delete(&mut state, &facts, &id, false, selected, &Ok(()), &left);
        }
        other => panic!("unexpected {other:?}"),
    }
    let picker = state.picker.as_ref().expect("picker should stay open");
    assert_eq!(picker.items.len(), 1);
    assert!(picker.items[0].description.contains("keep"));
    assert!(state.notices.iter().any(|text| text.contains("Deleted session")));
}

#[test]
fn help_lists_undo_and_copy_commands() {
    assert!(HELP.contains("/undo"));
    assert!(HELP.contains("/copy"));
    assert!(HELP.contains("/copy-all"));
    assert!(HELP.contains("/usage"));
    assert!(HELP.contains("/ps"));
    assert!(HELP.contains("/reasoning"));
    assert!(HELP.contains("/hotkeys"));
    assert!(HELP.contains("/diff"));
    assert!(HELP.contains("/init"));
    assert!(HELP.contains("| Command | Description |"));

    let rendered = render(HELP, 80);
    assert!(rendered.iter().any(|line| line.contains('┌') && line.contains('┬')));
    assert!(rendered.iter().any(|line| line.contains('└') && line.contains('┴')));
    assert_eq!(rendered.iter().filter(|line| line.contains('┼')).count(), 5);
}

#[test]
fn hotkeys_lists_the_key_reference_sections() {
    for fragment in [
        "Input",
        "Ctrl+G",
        "Editing",
        "Ctrl+W",
        "Transcript",
        "Ctrl+F",
        "Viewer",
        "Questions",
        "Queue",
        "K` / `J",
        "/ps",
        "/subagents",
        "| Area | Key | Action |",
        "| --- | --- | --- |",
    ] {
        assert!(HOTKEYS.contains(fragment), "HOTKEYS is missing {fragment}");
    }
    assert!(!HOTKEYS.contains("Bell"));

    let rendered = render(HOTKEYS, 80);
    assert!(rendered.iter().any(|line| line.contains('┌') && line.contains('┬')));
    assert_eq!(rendered.iter().filter(|line| line.contains('┼')).count(), 9);
    assert!(rendered.iter().any(|line| line.contains('└') && line.contains('┴')));
}

#[test]
fn bell_setting_round_trips_through_settings_and_picker() {
    let mut facts = test_facts();
    facts.config.bell = true;
    let mut state = ViewState::from_agent(&facts);
    assert!(state.bell);

    assert!(matches!(settings("bell off", "test"), Ok(Some(ConfigChange::Bell(false)))));
    facts.config.bell = false;
    settle_change(&mut state, &facts, yawl::actions::After::Stay, &Ok(ConfigEffect::Applied));
    assert!(!state.bell);
    assert!(settings("bell maybe", "test").is_err());

    let (_, request) = activate_picker_action(&mut state, &facts, PickerAction::SetBell(true));
    match request {
        Request::Change { change: ConfigChange::Bell(on), after } => {
            facts.config.bell = on;
            settle_change(&mut state, &facts, after, &Ok(ConfigEffect::Applied));
        }
        other => panic!("unexpected {other:?}"),
    }
    assert!(state.bell);
    let picker = state.picker.as_ref().expect("interface picker reopens");
    assert_eq!(picker.title, "Settings · Interface");
    assert!(picker.items.iter().any(|item| item.label == "Bell"));
}

#[test]
fn show_diff_explains_when_nothing_was_tracked() {
    let mut state = ViewState::from_agent(&test_facts());
    let cards = show_diff_files(&mut state, &Vec::new());
    assert!(cards.is_empty());
    assert!(state.notices.iter().any(|text| text.contains("No file changes recorded")));
}

fn touched(display: &str, previous: Option<&[u8]>, now: OnDisk) -> TouchedFile {
    TouchedFile {
        display: display.into(),
        existed: previous.is_some(),
        previous: previous.map(|bytes| bytes.to_vec()),
        now,
    }
}

#[test]
fn show_diff_renders_modified_created_and_deleted_files_from_disk() {
    let mut state = ViewState::from_agent(&test_facts());
    let files = vec![
        touched("modified.txt", Some(b"before"), OnDisk::Bytes(b"after".to_vec())),
        touched("created.txt", None, OnDisk::Bytes(b"new content".to_vec())),
        touched("deleted.txt", Some(b"gone"), OnDisk::Missing),
        touched("unchanged.txt", Some(b"same"), OnDisk::Bytes(b"same".to_vec())),
        touched("binary.bin", Some(b"old"), OnDisk::Bytes(vec![0xff, 0xfe])),
    ];

    let cards = show_diff_files(&mut state, &files);
    let texts: Vec<(&str, &str, &str)> = cards
        .iter()
        .map(|card| (card.path.as_str(), card.old_text.as_str(), card.new_text.as_str()))
        .collect();
    assert_eq!(
        texts,
        [
            ("modified.txt", "before", "after"),
            ("created.txt", "", "new content"),
            ("deleted.txt", "gone", ""),
        ]
    );
    assert_eq!(state.notices, ["Files not shown\n\n- binary.bin (not UTF-8)\n"]);
}

#[test]
fn changes_that_cannot_be_shown_say_why() {
    let mut state = ViewState::from_agent(&test_facts());
    let mut lost = touched("lost.txt", Some(b""), OnDisk::Missing);
    lost.previous = None;
    let files = vec![
        lost,
        touched("locked.txt", Some(b"a"), OnDisk::Unreadable),
        touched("large.txt", Some(b"a"), OnDisk::Bytes(vec![b'x'; 1024 * 1024 + 1])),
        touched("passing.txt", None, OnDisk::Missing),
    ];
    assert!(show_diff_files(&mut state, &files).is_empty());
    assert_eq!(
        state.notices,
        ["Files not shown\n\n- lost.txt (pre-image unreadable)\n- locked.txt (unreadable)\n- large.txt (over 1 MiB)\n"]
    );
}

fn leveled_facts() -> Facts {
    let mut facts = test_facts();
    facts.model = "openai-codex:gpt-5.4".into();
    facts.reasoning_model = "gpt-5.4".into();
    facts.codex = true;
    facts.efforts = ["minimal", "low", "medium", "high", "xhigh"]
        .iter()
        .map(|level| level.to_string())
        .collect();
    facts
}

#[test]
fn reasoning_command_shows_model_levels_and_sets_them_directly() {
    let mut facts = leveled_facts();
    let mut state = ViewState::from_agent(&facts);

    assert!(matches!(reasoning(&mut state, &facts, ""), Request::Nothing));
    let picker = state.picker.as_ref().expect("reasoning picker should open");
    assert!(picker.title.contains("gpt-5.4"));
    assert_eq!(
        picker.items.iter().map(|item| item.label.as_str()).collect::<Vec<_>>(),
        ["Provider default", "Minimal", "Low", "Medium", "High", "Xhigh"]
    );

    state.picker = None;
    match reasoning(&mut state, &facts, "High") {
        Request::SetEffort(effort) => {
            assert_eq!(effort.as_deref(), Some("high"));
            facts.config.reasoning_effort = effort.clone();
            facts.effective_effort = effort.clone();
            settle_effort(&mut state, &facts, effort);
        }
        other => panic!("unexpected {other:?}"),
    }
    assert_eq!(state.reasoning_effort.as_deref(), Some("high"));

    assert!(
        matches!(reasoning(&mut state, &facts, "max"), Request::Nothing),
        "an unsupported level must not change the effort"
    );
    assert!(state.notices.iter().any(|text| text.contains("supports default")));

    match reasoning(&mut state, &facts, "default") {
        Request::SetEffort(effort) => {
            assert!(effort.is_none());
            facts.config.reasoning_effort = None;
            facts.effective_effort = None;
            settle_effort(&mut state, &facts, effort);
        }
        other => panic!("unexpected {other:?}"),
    }
    assert!(state.reasoning_effort.is_none());
}

#[test]
fn reasoning_status_only_shows_an_effort_supported_by_the_active_model() {
    let mut plain = test_facts();
    plain.config.reasoning_effort = Some("high".into());
    let mut state = ViewState::from_agent(&plain);
    assert!(state.reasoning_effort.is_none());

    let (_, request) = activate_picker_action(
        &mut state,
        &plain,
        PickerAction::SwitchModel("openai-codex:gpt-5.4".into()),
    );
    assert!(matches!(request, Request::SwitchModel(model) if model == "openai-codex:gpt-5.4"));
    let mut leveled = leveled_facts();
    leveled.config.reasoning_effort = Some("high".into());
    leveled.effective_effort = Some("high".into());
    settle_switch(&mut state, &leveled);
    assert_eq!(state.reasoning_effort.as_deref(), Some("high"));

    settle_switch(&mut state, &plain);
    assert!(state.reasoning_effort.is_none());
}

#[test]
fn reasoning_command_reports_models_without_levels() {
    let facts = test_facts();
    let mut state = ViewState::from_agent(&facts);

    assert!(matches!(reasoning(&mut state, &facts, ""), Request::Nothing));
    assert!(state.picker.is_none());
    assert!(matches!(reasoning(&mut state, &facts, "high"), Request::Nothing));
    assert!(state
        .notices
        .iter()
        .any(|text| text.contains("does not expose reasoning levels")));
}

#[test]
fn last_assistant_reply_skips_empty_tool_only_messages() {
    let messages = [
        message(Role::User, "hi"),
        message(Role::Assistant, ""),
        message(Role::Assistant, "final answer"),
    ];
    assert_eq!(last_assistant_reply(&messages, None).as_deref(), Some("final answer"));
    assert_eq!(
        last_assistant_reply(&messages, Some("streaming")).as_deref(),
        Some("streaming")
    );
    assert_eq!(last_assistant_reply(&[], None), None);
}

#[test]
fn format_copy_all_keeps_user_and_assistant_and_drops_tools_and_reasoning() {
    let messages = [
        summary_message("earlier work"),
        message(Role::User, "please edit"),
        Message { reasoning: vec!["secret thoughts".into()], ..message(Role::Assistant, "done") },
        message(Role::Tool, "ok"),
        message(Role::Assistant, ""),
    ];
    let text = format_copy_all(&messages, None);
    assert!(text.contains("User:\n[conversation summary]"));
    assert!(text.contains("User:\nplease edit"));
    assert!(text.contains("Assistant:\ndone"));
    assert!(!text.contains("secret thoughts"));
    assert!(!text.contains("ok"));
    assert_eq!(format_copy_all(&[], None), "");
}

#[test]
fn format_copy_all_drops_a_user_turn_with_only_an_empty_assistant() {
    let messages = [
        message(Role::User, "keep this"),
        message(Role::Assistant, "answer"),
        message(Role::User, "failed turn"),
        message(Role::Assistant, ""),
        summary_message("earlier work"),
    ];
    let text = format_copy_all(&messages, None);
    assert!(text.contains("User:\nkeep this"));
    assert!(text.contains("Assistant:\nanswer"));
    assert!(!text.contains("failed turn"));
    assert!(text.contains("User:\n[conversation summary]"));
}

#[test]
fn the_shown_conversation_is_copied_in_turns() {
    let entries = vec![
        TranscriptEntry::User("ask".into()),
        TranscriptEntry::Other,
        TranscriptEntry::Assistant("answer".into()),
    ];
    assert_eq!(format_copy_all_from_transcript(&entries), "User:\nask\n\nAssistant:\nanswer");
}
