use yawl::config::{Config, KeySource, StatusBarConfig, WebSearchProvider};
use yawl::facts::Facts;
use yawl::style::UiColor;
use yawl::actions::{activate_picker_action, ask_setting, After, Request};
use yawl::active::ActivePickers;
use yawl::busy::{take_while_busy, BusyStep};
use yawl::completion::{command_completions, CompletionState};
use yawl::connection::{ConnectEvent, ConnectWork};
use yawl::driver::{
    clear_input, compose, next_step, refuse_image, settle_delivery, settle_image, take_event,
    Dashboard, Next, Step,
};
use yawl::editor::{Editor, Submission};
use yawl::endings::{copy_to_clipboard, settle_compaction, settle_undo};
use yawl::events::{Event, Key};
use yawl::files::FileIndex;
use yawl::goals::{
    goal, goal_while_busy, plan, plan_while_busy, settle_goal_cancel, settle_plan_cancel,
    WorkflowRequest,
};
use yawl::navigation::{handle_key, scroll, Focus, Navigation};
use yawl::outcomes::{settle_change, settle_effort, settle_plan, ConfigEffect};
use yawl::picker::action::{
    ConnectEditField, ConnectionActivation, PickerAction, ProviderDefinition, ProviderId,
    SettingsCategory,
};
use yawl::queue::{accept_steers, clear_queued, move_queued, promote_queued, remove_queued, unqueue};
use yawl::sessions::{resume, settle_load, settle_reset, SessionEntry};
use yawl::settings::{settings, ConfigChange};
use yawl::state::{handle_connection, open_connection, poll_connection, ViewState};
use yawl::submission::{begin_turn, end_turn, handle_submission, Task, TurnEnd};
use yawl::summary::{
    notice_undo, show_settings, show_skills, show_tools, show_usage, FoundSkill, FoundTool,
    UndoReport, Usage,
};

fn test_config() -> Config {
    Config {
        model: Some("test".into()),
        max_tokens: 8192,
        reasoning_effort: None,
        hide_reasoning: false,
        accent_color: UiColor::white(),
        selection_color: None,
        status_bar: StatusBarConfig::default(),
        scroll_bar: true,
        scroll_bar_auto_hide: true,
        bell: false,
        auto_compact: true,
        compact_percent: 80,
        web_browsing: false,
        web_search_provider: WebSearchProvider::DuckDuckGo,
        web_fetch_max_chars: 20000,
        brave_key: KeySource::Missing,
        firecrawl_key: KeySource::Missing,
        subagents: false,
        max_subagents: 3,
        subagent_model: "inherit".into(),
        subagent_request_budget: 20,
        subagent_timeout_secs: 600,
        skill_dirs: Vec::new(),
        anthropic_base_url: "https://api.anthropic.com".into(),
        openai_base_url: "https://api.openai.com/v1".into(),
        has_anthropic_key: false,
        has_openai_key: false,
        providers: Vec::new(),
        config_path: "/home/.yawl/config.json".into(),
    }
}

fn test_facts() -> Facts {
    Facts {
        config: test_config(),
        model: "test".into(),
        reasoning_model: "test".into(),
        codex: false,
        effective_effort: None,
        supports_images: true,
        context_window: 100,
        context_tokens: 0,
        models: Vec::new(),
        configured: Vec::new(),
        efforts: Vec::new(),
        catalog: vec![ProviderDefinition {
            id: ProviderId::Compatible("local".into()),
            label: "Local".into(),
            description: "A server of one's own".into(),
            configured: false,
            endpoint: "http://127.0.0.1:9/v1".into(),
            has_credential: false,
            environment: None,
            allows_no_key: true,
        }],
        codex_models: None,
        project_config: "/project/.yawl/config.json".into(),
        active_goal: None,
        plan: None,
        session_id: "session".into(),
    }
}

fn fresh() -> ViewState {
    ViewState::from_agent(&test_facts())
}

fn queued(texts: &[&str]) -> ViewState {
    let mut state = fresh();
    state.queued_inputs = texts.iter().map(|text| Submission::new(text)).collect();
    state
}

fn waiting(state: &ViewState) -> Vec<&str> {
    state.queued_inputs.iter().map(|input| input.text.as_str()).collect()
}

fn completion() -> CompletionState {
    CompletionState {
        completions: Vec::new(),
        completion_index: 0,
        completion_filter: None,
        file_index: FileIndex { entries: None, cached_query: None, cached_matches: Vec::new() },
    }
}

fn submit(state: &mut ViewState, editor: &mut Editor, facts: &Facts, text: &str) -> Task {
    handle_submission(state, editor, facts, &vec!["review".to_string()], Submission::new(text))
}

// The loop

#[test]
fn messages_that_wait_are_sent_in_their_order() {
    let mut state = queued(&["one", "two"]);
    assert!(matches!(next_step(&mut state, true), Next::Deliver));
    assert_eq!(state.activity, "delivering subagent results");
    settle_delivery(&mut state, &TurnEnd::Failed("no".into()));
    assert_eq!(state.notices, ["Subagent result follow-up failed: no"]);
    state.pending_actions.push(PickerAction::ShowSettings);
    assert!(matches!(
        next_step(&mut state, false),
        Next::Activate(PickerAction::ShowSettings)
    ));
    assert!(matches!(next_step(&mut state, false), Next::Submit(input) if input.text == "one"));
    assert!(matches!(next_step(&mut state, false), Next::Submit(input) if input.text == "two"));
    assert!(matches!(next_step(&mut state, false), Next::Wait));
}

#[test]
fn an_interrupted_turn_pauses_the_queue_until_a_message_is_sent() {
    let mut state = queued(&["one", "two"]);
    begin_turn(&mut state, &None, false);
    assert!(state.turn_running);
    end_turn(&mut state, &TurnEnd::Interrupted, &None);
    assert!(!state.turn_running);
    assert_eq!(state.notices, ["Turn interrupted."]);
    assert!(matches!(next_step(&mut state, false), Next::Wait));
    assert!(promote_queued(&mut state, 1));
    assert!(matches!(next_step(&mut state, false), Next::Submit(input) if input.text == "two"));
}

#[test]
fn dashboards_take_every_event() {
    let mut state = fresh();
    let mut editor = Editor::default();
    let step = take_event(
        &mut state,
        &mut editor,
        Dashboard::Git,
        Focus::Composer,
        Event::Key(Key::Char('x')),
    );
    assert!(matches!(step, Step::Git(Event::Key(Key::Char('x')))));
    let step = take_event(
        &mut state,
        &mut editor,
        Dashboard::Nothing,
        Focus::Composer,
        Event::Key(Key::Char('x')),
    );
    assert!(matches!(step, Step::Composer(Key::Char('x'))));
}

#[test]
fn the_composer_types_submits_and_waits_for_files() {
    let mut state = fresh();
    let mut editor = Editor::default();
    let mut list = completion();
    for c in "hi".chars() {
        assert!(matches!(
            compose(&mut state, &mut editor, &mut list, Key::Char(c)),
            Step::Nothing
        ));
    }
    assert!(matches!(
        compose(&mut state, &mut editor, &mut list, Key::Enter),
        Step::Submit(input) if input.text == "hi"
    ));
    editor.paste("@a");
    assert!(matches!(
        compose(&mut state, &mut editor, &mut list, Key::Char('b')),
        Step::ScanFiles
    ));
    assert!(matches!(
        compose(&mut state, &mut editor, &mut list, Key::Ctrl('v')),
        Step::PasteImage { blur: false }
    ));
    clear_input(&mut state, &mut editor);
    assert_eq!(state.activity, "input cleared");
    assert!(editor.is_empty());
    settle_image(&mut state, &Err("no image".into()));
    assert_eq!(state.notices, ["Could not paste image: no image."]);
}

#[test]
fn pages_lead_back_and_keys_of_blocks_navigate() {
    let mut state = fresh();
    scroll(&mut state, 10);
    assert_eq!(state.scroll_offset, 10);
    scroll(&mut state, -10);
    assert_eq!(state.scroll_offset, 0);
    scroll(&mut state, -3);
    assert_eq!(state.scroll_offset, 0);
    assert_eq!(
        handle_key(&mut state, Focus::Search, Key::Char('a')),
        Some(Navigation::SearchPush('a'))
    );
    assert_eq!(handle_key(&mut state, Focus::Composer, Key::Char('a')), None);
}

#[test]
fn long_pastes_are_received_whole_amid_typed_text() {
    let mut editor = Editor::default();
    let first = "a".repeat(401);
    let second = "line\n".repeat(9);
    editor.paste("before ");
    editor.paste(&first);
    editor.paste(" between ");
    editor.paste(&second);
    editor.paste(" after");
    let shown = "before [Pasted #1] between [Pasted #2] after";
    assert_eq!(editor.text, shown);
    assert_eq!(
        editor.expand_submission(shown),
        format!("before {first} between {second} after")
    );
}

#[test]
fn escape_and_interrupts_send_nothing() {
    let mut state = fresh();
    let mut editor = Editor::default();
    let mut list = completion();
    for key in [Key::Escape, Key::Ctrl('c')] {
        editor.paste("typed");
        assert!(!matches!(
            compose(&mut state, &mut editor, &mut list, key),
            Step::Submit(_)
        ));
    }
    assert_eq!(editor.text, "");
    editor.paste("typed");
    compose(&mut state, &mut editor, &mut list, Key::Escape);
    assert!(editor.is_empty());
    let facts = test_facts();
    assert!(matches!(submit(&mut state, &mut editor, &facts, " /q "), Task::Quit));
    assert!(matches!(submit(&mut state, &mut editor, &facts, "/skill:quit"), Task::Nothing));
    assert!(matches!(submit(&mut state, &mut editor, &facts, "quit"), Task::RunTurn { .. }));
}

#[test]
fn line_keys_leave_the_other_lines_alone() {
    let mut editor = Editor::default();
    editor.paste("one\ntwo\nthree");
    editor.handle_key(Key::Home);
    assert_eq!(editor.cursor, 8);
    editor.handle_key(Key::Left);
    editor.handle_key(Key::Ctrl('a'));
    assert_eq!(editor.cursor, 4);
    editor.handle_key(Key::End);
    assert_eq!(editor.cursor, 7);
    editor.handle_key(Key::Left);
    editor.handle_key(Key::Ctrl('k'));
    assert_eq!(editor.text, "one\ntw\nthree");
    editor.handle_key(Key::Ctrl('u'));
    assert_eq!((editor.text.as_str(), editor.cursor), ("one\n\nthree", 4));
}

// While a turn runs

fn pressed(state: &mut ViewState, editor: &mut Editor, key: Key) -> BusyStep {
    let mut facts = test_facts();
    facts.efforts = vec!["low".into(), "high".into()];
    let mut list = completion();
    list.completions = command_completions(&Vec::new());
    let event = Event::Key(key);
    take_while_busy(
        state,
        editor,
        &mut list,
        &facts,
        Dashboard::Nothing,
        Focus::Composer,
        event,
    )
}

fn is_done(step: BusyStep) -> bool {
    matches!(step, BusyStep::Plain(Step::Nothing))
}

fn typed(state: &mut ViewState, editor: &mut Editor, text: &str, key: Key) -> BusyStep {
    editor.paste(text);
    pressed(state, editor, key)
}

#[test]
fn enter_steers_and_tab_queues_while_a_turn_runs() {
    let mut state = fresh();
    let mut editor = Editor::default();
    begin_turn(&mut state, &None, false);
    assert!(is_done(typed(&mut state, &mut editor, "this way", Key::Enter)));
    assert!(is_done(typed(&mut state, &mut editor, "later", Key::Tab)));
    assert!(is_done(typed(&mut state, &mut editor, "/compact", Key::Enter)));
    assert_eq!(editor.text, "");
    assert_eq!(waiting(&state), ["later", "/compact "]);
    assert_eq!(state.pending_steers[0].text, "this way");
    assert!(is_done(typed(&mut state, &mut editor, "/goal", Key::Enter)));
    assert_eq!(state.notices, ["No active goal."]);
    let taken = accept_steers(&mut state);
    assert_eq!(taken[0].text, "this way");
    assert!(state.pending_steers.is_empty());
    assert!(matches!(pressed(&mut state, &mut editor, Key::Escape), BusyStep::Cancel));
}

#[test]
fn a_cancel_pauses_steering_that_was_not_taken() {
    let mut state = queued(&["queued"]);
    let mut editor = Editor::default();
    begin_turn(&mut state, &None, false);
    typed(&mut state, &mut editor, "steered", Key::Enter);
    end_turn(&mut state, &TurnEnd::Interrupted, &None);
    assert_eq!(waiting(&state), ["steered", "queued"]);
    assert!(state.pending_steers.is_empty());
    assert!(matches!(next_step(&mut state, false), Next::Wait));
    let facts = test_facts();
    submit(&mut state, &mut editor, &facts, "/new");
    state.pending_steers.push(Submission::new("kept"));
    settle_reset(&mut state, &facts, &Ok(()));
    assert_eq!(waiting(&state), ["steered", "queued"]);
    assert_eq!(state.pending_steers[0].text, "kept");
}

#[test]
fn a_promoted_message_is_sent_next() {
    let mut state = queued(&["one", "two"]);
    let mut editor = Editor::default();
    begin_turn(&mut state, &None, false);
    typed(&mut state, &mut editor, "steered", Key::Enter);
    typed(&mut state, &mut editor, "/unqueue", Key::Enter);
    pressed(&mut state, &mut editor, Key::Down);
    assert!(matches!(pressed(&mut state, &mut editor, Key::Enter), BusyStep::Cancel));
    assert_eq!(state.activity, "stopping the active turn to send queued message");
    end_turn(&mut state, &TurnEnd::Interrupted, &None);
    assert!(matches!(next_step(&mut state, false), Next::Submit(input) if input.text == "two"));
    assert_eq!(waiting(&state), ["steered", "one"]);
}

#[test]
fn a_pause_ends_with_its_messages() {
    let mut state = queued(&["one"]);
    begin_turn(&mut state, &None, false);
    end_turn(&mut state, &TurnEnd::Interrupted, &None);
    assert!(state.queue_paused);
    assert!(remove_queued(&mut state, 0));
    assert!(!state.queue_paused);
    state.queued_inputs.push(Submission::new("two"));
    state.queue_paused = true;
    clear_queued(&mut state);
    assert!(!state.queue_paused);
    begin_turn(&mut state, &None, false);
    state.queued_inputs.push(Submission::new("three"));
    end_turn(&mut state, &TurnEnd::Finished, &None);
    assert!(matches!(next_step(&mut state, false), Next::Submit(input) if input.text == "three"));
}

#[test]
fn choices_wait_for_the_end_of_the_turn() {
    let mut state = fresh();
    let mut editor = Editor::default();
    assert!(matches!(submit(&mut state, &mut editor, &test_facts(), "/settings"), Task::Nothing));
    begin_turn(&mut state, &None, false);
    pressed(&mut state, &mut editor, Key::Enter);
    assert_eq!(state.pending_actions.len(), 1);
    end_turn(&mut state, &TurnEnd::Finished, &None);
    assert!(matches!(next_step(&mut state, false), Next::Activate(_)));
}

#[test]
fn dashboards_open_while_a_turn_runs() {
    let mut state = fresh();
    let mut editor = Editor::default();
    begin_turn(&mut state, &None, false);
    for (text, dashboard) in [
        ("/git", Dashboard::Git),
        ("/ps", Dashboard::Processes),
        ("/subagents", Dashboard::Subagents),
    ] {
        let step = typed(&mut state, &mut editor, text, Key::Enter);
        assert!(matches!(step, BusyStep::Open(opened) if opened == dashboard));
    }
    assert!(is_done(typed(&mut state, &mut editor, "/ps all", Key::Enter)));
    assert_eq!(state.notices, ["Usage: /ps"]);
    assert!(waiting(&state).is_empty());
    let step = take_while_busy(
        &mut state,
        &mut editor,
        &mut completion(),
        &test_facts(),
        Dashboard::Git,
        Focus::Composer,
        Event::Key(Key::Escape),
    );
    assert!(matches!(step, BusyStep::Plain(Step::Git(Event::Key(Key::Escape)))));
}

#[test]
fn an_effort_is_set_while_a_turn_runs() {
    let mut state = fresh();
    let mut editor = Editor::default();
    begin_turn(&mut state, &None, false);
    assert!(matches!(
        typed(&mut state, &mut editor, "/reasoning HIGH", Key::Enter),
        BusyStep::SetEffort(Some(effort)) if effort == "high"
    ));
    assert!(matches!(
        typed(&mut state, &mut editor, "/reasoning default", Key::Enter),
        BusyStep::SetEffort(None)
    ));
    settle_effort(&mut state, &test_facts(), Some("high".into()));
    assert_eq!(state.reasoning_effort.as_deref(), Some("high"));
    assert!(state.notices.is_empty());
    assert!(is_done(typed(&mut state, &mut editor, "/reasoning", Key::Enter)));
    assert!(state.picker.is_some());
    pressed(&mut state, &mut editor, Key::Down);
    assert!(matches!(
        pressed(&mut state, &mut editor, Key::Enter),
        BusyStep::SetEffort(Some(effort)) if effort == "low"
    ));
    assert!(state.pending_actions.is_empty());
    assert!(is_done(typed(&mut state, &mut editor, "/reasoning no", Key::Enter)));
    assert_eq!(state.notices, ["test supports default, low, high."]);
}

#[test]
fn menus_and_the_conversation_take_their_keys_while_a_turn_runs() {
    let mut state = fresh();
    let mut editor = Editor::default();
    begin_turn(&mut state, &None, false);
    assert!(is_done(typed(&mut state, &mut editor, "/com", Key::Tab)));
    assert_eq!(editor.text, "/compact ");
    assert!(is_done(pressed(&mut state, &mut editor, Key::Tab)));
    assert_eq!(waiting(&state), ["/compact "]);
    assert!(matches!(
        pressed(&mut state, &mut editor, Key::Ctrl('f')),
        BusyStep::Plain(Step::Navigate(Navigation::OpenSearch))
    ));
    assert!(matches!(
        pressed(&mut state, &mut editor, Key::Ctrl('o')),
        BusyStep::Plain(Step::ToggleTools)
    ));
    assert!(matches!(
        typed(&mut state, &mut editor, "look at @a", Key::Char('b')),
        BusyStep::Plain(Step::ScanFiles)
    ));
}

#[test]
fn what_was_sent_comes_back_with_up() {
    let mut state = fresh();
    let mut editor = Editor::default();
    let mut list = completion();
    editor.paste("first");
    assert!(matches!(
        compose(&mut state, &mut editor, &mut list, Key::Enter),
        Step::Submit(input) if input.text == "first"
    ));
    begin_turn(&mut state, &None, false);
    typed(&mut state, &mut editor, "second", Key::Enter);
    typed(&mut state, &mut editor, "third", Key::Tab);
    for text in ["third", "second", "first", "first"] {
        pressed(&mut state, &mut editor, Key::Up);
        assert_eq!(editor.text, text);
    }
    compose(&mut state, &mut editor, &mut list, Key::Down);
    assert_eq!(editor.text, "second");
}

#[test]
fn images_are_refused_for_a_reason() {
    let mut editor = Editor::default();
    assert_eq!(
        refuse_image(&editor, false).as_deref(),
        Some("the model does not accept image input")
    );
    for id in 1..=5 {
        assert_eq!(refuse_image(&editor, true), None);
        editor.attach(yawl::clipboard::StagedImage {
            id,
            path: "/tmp/a.png".into(),
            media_type: "image/png".into(),
        });
    }
    assert_eq!(
        refuse_image(&editor, true).as_deref(),
        Some("a prompt takes at most five images")
    );
}

#[test]
fn an_empty_paste_takes_the_keyboard_from_the_conversation() {
    let mut state = fresh();
    let mut editor = Editor::default();
    let event = Event::Paste(String::new());
    assert!(matches!(
        take_event(&mut state, &mut editor, Dashboard::Nothing, Focus::Blocks, event),
        Step::PasteImage { blur: true }
    ));
}

// Submissions

#[test]
fn messages_reach_the_model_and_unknown_commands_are_answered() {
    let facts = test_facts();
    let mut state = fresh();
    let mut editor = Editor::default();
    assert!(matches!(
        submit(&mut state, &mut editor, &facts, "hello"),
        Task::RunTurn { text, .. } if text == "hello"
    ));
    assert!(matches!(submit(&mut state, &mut editor, &facts, "/nothing"), Task::Nothing));
    assert!(state.notices.last().unwrap().contains("/nothing"));
    assert!(matches!(submit(&mut state, &mut editor, &facts, "/quit"), Task::Quit));
    assert!(matches!(submit(&mut state, &mut editor, &facts, "/clear"), Task::Reset));
    assert!(matches!(
        submit(&mut state, &mut editor, &facts, "/skill:review twice"),
        Task::RunSkill { skill: 0, arguments, .. } if arguments == "twice"
    ));
}

#[test]
fn refused_images_come_back() {
    let mut facts = test_facts();
    facts.supports_images = false;
    let mut state = fresh();
    let mut editor = Editor::default();
    let mut input = Submission::new("look");
    input.images.push(yawl::clipboard::StagedImage {
        id: 1,
        path: "/tmp/a.png".into(),
        media_type: "image/png".into(),
    });
    let task = handle_submission(&mut state, &mut editor, &facts, &Vec::new(), input);
    assert!(matches!(task, Task::Nothing));
    assert_eq!(editor.text(), "look");
    assert_eq!(editor.images.len(), 1);
}

#[test]
fn goals_and_plans_are_started_resumed_and_canceled() {
    let mut state = fresh();
    assert!(matches!(
        goal(&mut state, &None, "ship it"),
        WorkflowRequest::Start(text) if text == "ship it"
    ));
    assert!(matches!(
        goal(&mut state, &Some("ship it".into()), "cancel"),
        WorkflowRequest::Cancel
    ));
    state.active_goal = Some("ship it".into());
    settle_goal_cancel(&mut state, &Ok(true));
    assert!(state.active_goal.is_none());
    assert!(matches!(plan(&mut state, &None, ""), WorkflowRequest::Nothing));
    assert_eq!(
        state.notices.last().unwrap(),
        "No active plan. Start one with /plan TEXT."
    );
    settle_plan_cancel(&mut state, &Err("locked".into()));
    assert!(state.notices.last().unwrap().contains("locked"));
    let before = state.active_goal.clone();
    goal_while_busy("cancel", &mut state);
    plan_while_busy("new plan", &mut state);
    assert_eq!(state.active_goal, before);
}

// The queue

#[test]
fn moving_and_removing_lose_nothing_else() {
    let mut state = queued(&["a", "b", "c"]);
    assert_eq!(move_queued(&mut state, 0, 1), 1);
    assert_eq!(waiting(&state), ["b", "a", "c"]);
    assert_eq!(move_queued(&mut state, 1, -1), 0);
    assert_eq!(waiting(&state), ["a", "b", "c"]);
    assert!(remove_queued(&mut state, 1));
    assert_eq!(waiting(&state), ["a", "c"]);
    assert!(!remove_queued(&mut state, 5));
    unqueue("2", &mut state);
    assert_eq!(waiting(&state), ["a"]);
    clear_queued(&mut state);
    assert!(state.queued_inputs.is_empty());
}

// Sessions

#[test]
fn numbers_name_listed_sessions() {
    let mut state = fresh();
    let found = Ok(vec![SessionEntry {
        id: "abc".into(),
        model: "m".into(),
        preview: "p".into(),
    }]);
    assert_eq!(resume("1", &found, &mut state).as_deref(), Some("abc"));
    assert_eq!(resume("2", &found, &mut state).as_deref(), Some("2"));
    assert!(state.notices.is_empty());
    assert_eq!(resume("", &found, &mut state), None);
    assert_eq!(
        state.notices,
        ["Saved sessions\n\n1. `abc`  p\n\nUse `/resume ID` or `/resume NUMBER`."]
    );
    assert_eq!(resume("1", &Err("no disk".into()), &mut state), None);
    assert_eq!(state.notices[1], "Could not list sessions: no disk");
}

#[test]
fn the_queue_outlives_the_session() {
    let facts = test_facts();
    let mut state = queued(&["later"]);
    settle_load(&mut state, &facts, "abc", &Ok(()));
    assert_eq!(waiting(&state), ["later"]);
    settle_reset(&mut state, &facts, &Ok(()));
    assert_eq!(waiting(&state), ["later"]);
    settle_load(&mut state, &facts, "abc", &Err("gone".into()));
    assert!(state.notices.last().unwrap().contains("gone"));
}

// Settings

#[test]
fn values_are_read_and_refused() {
    assert!(matches!(settings("max_tokens 100", "test"), Ok(Some(ConfigChange::MaxTokens(100)))));
    assert!(settings("max_tokens none", "test").is_err());
    assert!(matches!(
        settings("accent_color #010203", "test"),
        Ok(Some(ConfigChange::AccentColor(color))) if color == UiColor::new(1, 2, 3)
    ));
    assert!(settings("accent_color nocolor", "test").is_err());
    assert!(matches!(
        settings("selection_color accent", "test"),
        Ok(Some(ConfigChange::SelectionColor(None)))
    ));
    assert!(matches!(settings("scroll_bar off", "test"), Ok(Some(ConfigChange::ScrollBar(false)))));
    assert!(settings("scroll_bar", "test").is_err());
    assert!(settings("no_such_setting 1", "test").is_err());
    assert!(matches!(
        settings("skills add ./mine", "test"),
        Ok(Some(ConfigChange::SkillDirectory { add: true, path })) if path == "./mine"
    ));
}

#[test]
fn settings_are_shown_where_nothing_is_asked_for() {
    assert!(matches!(settings("", "test"), Ok(None)));
    assert!(matches!(
        settings(" ", "test"),
        Err(error) if error == "unknown setting ''; run /settings to list settings"
    ));
    let facts = test_facts();
    let mut state = fresh();
    assert!(matches!(ask_setting(&mut state, &facts, "", After::Stay), Request::Nothing));
    assert_eq!(state.notices, [show_settings(&facts)]);
    ask_setting(&mut state, &facts, "bell maybe", After::Stay);
    assert!(state.notices[1].starts_with("Could not change setting: "));
}

#[test]
fn overridden_settings_are_named() {
    let facts = test_facts();
    let mut state = fresh();
    settle_change(&mut state, &facts, After::Stay, &Ok(ConfigEffect::Overridden));
    assert_eq!(
        state.notices,
        ["Saved to `/home/.yawl/config.json`, but project settings in `/project/.yawl/config.json` remain effective."]
    );
    settle_change(
        &mut state,
        &facts,
        After::Stay,
        &Ok(ConfigEffect::SkillDirectoryNotConfigured("./mine".into())),
    );
    assert_eq!(state.notices[1], "Skill directory `./mine` is not configured.");
}

#[test]
fn the_status_bar_is_edited_in_a_draft() {
    let facts = test_facts();
    let mut state = fresh();
    activate_picker_action(&mut state, &facts, PickerAction::OpenStatusBarEditor { selected: 0 });
    activate_picker_action(
        &mut state,
        &facts,
        PickerAction::MoveStatusBarItem { index: 0, direction: 1 },
    );
    assert_eq!(state.status_bar, StatusBarConfig::default());
    let draft = state.status_bar_draft.as_ref().unwrap();
    assert_eq!(draft.items[1], StatusBarConfig::default().items[0]);
    activate_picker_action(
        &mut state,
        &facts,
        PickerAction::MoveStatusBarItem { index: 1, direction: -1 },
    );
    assert_eq!(state.status_bar_draft.as_ref().unwrap(), &StatusBarConfig::default());
}

#[test]
fn menus_at_hand_follow_the_looks_of_the_interface() {
    let mut facts = test_facts();
    let mut menus = ActivePickers::from_agent(&facts);
    assert_eq!(menus.settings_categories.len(), 8);
    assert_eq!(menus.model.title, "Choose model");
    let page = menus
        .settings_categories
        .iter_mut()
        .find(|(category, _)| *category == SettingsCategory::Interface)
        .unwrap();
    page.1.selected = 2;
    facts.config.accent_color = UiColor::new(117, 169, 255);
    menus.refresh_display_settings(&facts.config);
    let selected = menus.accent_color.selected;
    assert!(matches!(
        menus.accent_color.items[selected].action,
        PickerAction::SetAccentColor(color) if color == UiColor::new(117, 169, 255)
    ));
    let page = menus
        .settings_categories
        .iter()
        .find(|(category, _)| *category == SettingsCategory::Interface)
        .unwrap();
    assert_eq!(page.1.selected, 2);
}

// Connections

#[test]
fn a_connection_is_found_reviewed_and_saved() {
    let mut facts = test_facts();
    facts.catalog[0].has_credential = true;
    let mut state = fresh();
    open_connection(&mut state, facts.catalog.split_off(0), false);
    handle_connection(
        &mut state,
        PickerAction::ConnectChooseProvider(ProviderId::Compatible("local".into())),
        &None,
    );
    let (work, _) = handle_connection(
        &mut state,
        PickerAction::ApplyConnect {
            field: ConnectEditField::Endpoint,
            value: "ftp://nowhere".into(),
        },
        &None,
    );
    assert!(matches!(work, ConnectWork::Nothing));
    assert!(!poll_connection(&mut state, ConnectEvent::Quiet));
    handle_connection(&mut state, PickerAction::ConnectChooseModel("m".into()), &None);
    handle_connection(&mut state, PickerAction::ConnectConfirmReasoning, &None);
    let (_, action) = handle_connection(
        &mut state,
        PickerAction::ConnectActivation(ConnectionActivation::Default),
        &None,
    );
    match action {
        Some(PickerAction::ApplyConnectionPlan(plan)) => {
            assert_eq!(plan.model, "local:m");
            assert_eq!(plan.efforts.len(), 7);
            settle_plan(
                &mut state,
                &test_facts(),
                &plan.provider_label,
                &Err("read-only".into()),
            );
            assert!(state.notices.last().unwrap().contains("read-only"));
        }
        other => panic!("unexpected {other:?}"),
    }
}

#[test]
fn news_of_a_setup_that_was_left_change_nothing() {
    let mut state = fresh();
    assert!(!poll_connection(&mut state, ConnectEvent::Discovered(vec!["m".into()])));
    assert!(state.picker.is_none());
}

// Texts

#[test]
fn undo_says_what_came_of_it() {
    let mut report =
        UndoReport { dropped: 0, reset_head: false, restored_files: true, warning: None };
    assert_eq!(notice_undo(&report), "Nothing to undo.");
    report.dropped = 2;
    assert_eq!(notice_undo(&report), "Undid the last turn.");
    report.reset_head = true;
    report.restored_files = false;
    report.warning = Some("Index busy.".into());
    assert_eq!(
        notice_undo(&report),
        "Undid the last turn. Reset git HEAD. File changes could not be restored. Index busy."
    );
}

fn usage(requests: u64) -> Usage {
    Usage {
        requests,
        input: "10k".into(),
        fresh: "4k".into(),
        cached: "6k".into(),
        cache_writes: "1k".into(),
        output: "2k".into(),
        cache_hit_percent: Some(60),
        cache_resets: 1,
    }
}

#[test]
fn summaries_hold_what_they_are_given() {
    let text = show_usage(&usage(3), &usage(0));
    assert!(text.contains("10k") && text.contains("60"));
    let text = show_settings(&test_facts());
    assert!(text.contains("8192") && text.contains("https://api.anthropic.com"));
    let text = show_skills(&vec!["./skills".into()], true, &Vec::new(), &vec!["bad".into()]);
    assert!(text.contains("./skills"));
    assert!(text.contains("No skills found."));
    assert!(text.contains("- bad\n"));
    let skills =
        vec![FoundSkill { name: "review".into(), description: "Look".into(), manual: true }];
    assert!(show_skills(&Vec::new(), false, &skills, &Vec::new()).contains("review"));
    let tools = vec![FoundTool {
        name: "shell".into(),
        origin: "builtin".into(),
        description: "Run".into(),
    }];
    assert!(show_tools(&tools, &Vec::new()).contains("shell"));
}

#[test]
fn endings_are_reported() {
    let mut facts = test_facts();
    facts.context_tokens = 12;
    let mut state = fresh();
    state.active_goal = Some("old".into());
    let report = UndoReport { dropped: 1, reset_head: false, restored_files: true, warning: None };
    settle_undo(&mut state, &facts, &Ok(report));
    assert_eq!((state.context_tokens, state.active_goal.clone()), (12, None));
    settle_undo(&mut state, &facts, &Err("busy".into()));
    settle_compaction(&mut state, &TurnEnd::Interrupted);
    settle_compaction(&mut state, &TurnEnd::Failed("late".into()));
    assert_eq!(copy_to_clipboard(&mut state, "text".into()).as_deref(), Some("text"));
    assert_eq!(copy_to_clipboard(&mut state, String::new()), None);
    assert_eq!(
        state.notices,
        [
            "Undid the last turn.",
            "Could not undo: busy",
            "Compaction interrupted.",
            "Compaction failed: late",
            "Nothing to copy.",
        ]
    );
}

#[test]
fn requests_reach_the_agent() {
    let facts = test_facts();
    let mut state = fresh();
    let (_, request) =
        activate_picker_action(&mut state, &facts, PickerAction::SwitchModel("other".into()));
    assert!(matches!(request, Request::SwitchModel(model) if model == "other"));
}
