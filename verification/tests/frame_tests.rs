use yawl::completion::{Completion, CompletionState};
use yawl::config::{Config, KeySource, StatusBarConfig, WebSearchProvider};
use yawl::editor::Editor;
use yawl::facts::Facts;
use yawl::files::FileIndex;
use yawl::frame::{
    background_notice_color, composer_top_border, composer_width, front, perceptual_color_distance, plan_frame,
    render_background_process_notice, render_menu, FrameParts, Front, ImageSupport, Overlays,
    Search,
};
use yawl::goals::plan_handoff_picker;
use yawl::markdown::{strip_ansi, visible_width};
use yawl::picker::action::{ProviderDefinition, ProviderId};
use yawl::questions::{
    bounded_input_view, render_choice_lines, render_plan_handoff_input, render_question_input,
    ActiveQuestion, QuestionOption,
};
use yawl::screen::{
    apply_scroll_bar, compose_frame, render_block_viewer, render_copy_toast, scroll_bar_position,
    scroll_bar_span, FrameImage, RenderedFrame, TranscriptRow, TranscriptWindow,
};
use yawl::state::ViewState;
use yawl::style::UiColor;
use yawl::tables::render;

fn test_config() -> Config {
    Config {
        model: Some("test".into()),
        max_tokens: 8192,
        reasoning_effort: None,
        hide_reasoning: false,
        accent_color: UiColor::white(),
        selection_color: None,
        status_bar: StatusBarConfig::default(),
        scroll_bar: true,
        scroll_bar_auto_hide: true,
        bell: false,
        auto_compact: true,
        compact_percent: 80,
        web_browsing: false,
        web_search_provider: WebSearchProvider::DuckDuckGo,
        web_fetch_max_chars: 20000,
        brave_key: KeySource::Missing,
        firecrawl_key: KeySource::Missing,
        subagents: false,
        max_subagents: 3,
        subagent_model: "inherit".into(),
        subagent_request_budget: 20,
        subagent_timeout_secs: 600,
        skill_dirs: Vec::new(),
        anthropic_base_url: "https://api.anthropic.com".into(),
        openai_base_url: "https://api.openai.com/v1".into(),
        has_anthropic_key: false,
        has_openai_key: false,
        providers: Vec::new(),
        config_path: "/home/.yawl/config.json".into(),
    }
}

fn test_facts() -> Facts {
    Facts {
        config: test_config(),
        model: "test".into(),
        reasoning_model: "test".into(),
        codex: false,
        effective_effort: None,
        supports_images: true,
        context_window: 100,
        context_tokens: 0,
        models: Vec::new(),
        configured: Vec::new(),
        efforts: Vec::new(),
        catalog: vec![ProviderDefinition {
            id: ProviderId::Compatible("local".into()),
            label: "Local".into(),
            description: "A server of one's own".into(),
            configured: false,
            endpoint: "http://127.0.0.1:9/v1".into(),
            has_credential: false,
            environment: None,
            allows_no_key: true,
        }],
        codex_models: None,
        project_config: "/project/.yawl/config.json".into(),
        active_goal: None,
        plan: None,
        session_id: "session".into(),
    }
}

fn fresh() -> ViewState {
    ViewState::from_agent(&test_facts())
}

fn completion(commands: &[&str]) -> CompletionState {
    CompletionState {
        completions: commands
            .iter()
            .map(|command| Completion { command: (*command).into(), description: "does".into() })
            .collect(),
        completion_index: 0,
        completion_filter: None,
        file_index: FileIndex { entries: None, cached_query: None, cached_matches: Vec::new() },
    }
}

fn parts() -> FrameParts {
    FrameParts { question: None, background: 0, status_line: None, search: None, copied: false }
}

fn window(texts: &[&str], height: usize) -> TranscriptWindow {
    TranscriptWindow {
        rows: texts
            .iter()
            .enumerate()
            .map(|(index, text)| TranscriptRow { text: (*text).into(), owner: Some(index) })
            .collect(),
        images: vec![FrameImage { key: 1, row: 0, column: 0, columns: 4, rows: 2 }],
        total_lines: 100,
        max_scroll: 80,
        is_empty: texts.is_empty(),
        focused: false,
        selected: None,
        welcome: vec!["welcome".to_string(); height],
    }
}

fn draw(
    state: &ViewState,
    editor: &Editor,
    parts: &FrameParts,
    texts: &[&str],
    columns: usize,
    rows: usize,
) -> RenderedFrame {
    let plan = plan_frame(state, editor, &mut completion(&[]), parts, columns, rows);
    let window = window(texts, plan.transcript_height);
    compose_frame(state, editor, parts, &plan, &window, true, "\x1b[48;2;1;2;3m")
}

#[test]
fn pictures_are_accepted_by_kind() {
    assert!(!ImageSupport::Nothing.accepts("image/png"));
    assert!(ImageSupport::Png.accepts("image/png"));
    assert!(!ImageSupport::Png.accepts("image/gif"));
    assert!(ImageSupport::All.accepts("image/webp"));
    assert!(!ImageSupport::All.accepts("image/bmp"));
}

#[test]
fn the_view_in_front_is_drawn() {
    let none = Overlays {
        git_init: false,
        process_view: false,
        git_view: false,
        subagent_view: false,
        viewer_open: false,
    };
    assert_eq!(front(none), Front::Conversation);
    assert_eq!(front(Overlays { viewer_open: true, ..none }), Front::BlockViewer);
    assert_eq!(front(Overlays { git_view: true, viewer_open: true, ..none }), Front::Git);
    assert_eq!(front(Overlays { process_view: true, git_view: true, ..none }), Front::Processes);
    assert_eq!(front(Overlays { git_init: true, process_view: true, ..none }), Front::GitInit);
    assert_eq!(front(Overlays { subagent_view: true, ..none }), Front::Subagents);
}

#[test]
fn labels_stand_in_the_border_where_they_have_room() {
    assert_eq!(composer_top_border(4, None), "────");
    assert_eq!(composer_top_border(12, Some("Planning")), "─ Planning ─");
    assert_eq!(composer_top_border(10, Some("Planning")), "──────────");
    assert_eq!(composer_top_border(12, Some("Plané")), "─ Plané ───");
    assert_eq!(composer_top_border(9, Some("Plané")), "─ Plané ");
    assert_eq!(composer_top_border(8, Some("Plané")), "────────");
}

#[test]
fn rows_of_the_composer_are_as_wide_as_the_screen_allows() {
    assert_eq!(composer_width(80), 78);
    assert_eq!(composer_width(5), 18);
}

#[test]
fn the_notice_differs_from_the_accent() {
    assert_eq!(perceptual_color_distance(UiColor::new(0, 0, 0), UiColor::new(0, 0, 0)), 0);
    assert_eq!(
        perceptual_color_distance(UiColor::new(0, 0, 0), UiColor::new(255, 255, 255)),
        584970
    );
    assert_eq!(
        background_notice_color(UiColor::new(116, 199, 213)),
        UiColor::new(232, 202, 118)
    );
    assert_eq!(
        background_notice_color(UiColor::new(232, 202, 118)),
        UiColor::new(116, 199, 213)
    );
    let wide = render_background_process_notice(1, 60, UiColor::white());
    assert_eq!(visible_width(&wide), 60);
    assert!(strip_ansi(&wide).starts_with(" ●  1 background terminal running  ·  /ps to view"));
    let narrow = strip_ansi(&render_background_process_notice(2, 40, UiColor::white()));
    assert!(narrow.starts_with(" 2 bg running · /ps"));
}

#[test]
fn long_menus_say_how_much_is_left() {
    let entries: Vec<(String, String)> =
        (0..8).map(|n| (format!("/cmd{n}"), "does".to_string())).collect();
    let white = UiColor::white();
    let rows = render_menu(&entries, 7, 6, 40, white, white);
    assert_eq!(rows.len(), 8);
    assert_eq!(strip_ansi(&rows[0]).trim_end(), "  ↑ 2 more");
    assert_eq!(strip_ansi(&rows[1]).trim_end(), "  /cmd2              does");
    assert_eq!(strip_ansi(&rows[7]).trim_end(), "  ↓ wraps to start · 8/8");
    let rows = render_menu(&entries, 0, 6, 40, white, white);
    assert_eq!(strip_ansi(&rows[0]).trim_end(), "  ↑ wraps to end");
    assert_eq!(strip_ansi(&rows[7]).trim_end(), "  ↓ 2 more · 1/8");
    assert_eq!(render_menu(&entries, 0, 8, 40, white, white).len(), 8);
}

#[test]
fn a_frame_fills_the_screen() {
    let state = fresh();
    let mut editor = Editor::default();
    editor.paste("hello");
    let frame = draw(&state, &editor, &parts(), &["a", "b"], 40, 12);
    assert_eq!(frame.lines.len(), 12);
    assert!(frame.lines.iter().all(|line| visible_width(line) == 40));
    assert_eq!(frame.cursor, (11, 7));
    assert_eq!(frame.images.len(), 1);
    let plain: Vec<String> = frame.lines.iter().map(|line| strip_ansi(line)).collect();
    assert!(plain[8].starts_with('b'));
    assert!(plain[10].starts_with("│hello"));
    assert!(plain[11].starts_with('└'));
}

#[test]
fn parts_around_the_conversation_take_their_rows() {
    let mut state = fresh();
    state.turn_running = true;
    state.plan_draft = true;
    let mut editor = Editor::default();
    editor.paste("more");
    let mut around = parts();
    around.background = 2;
    around.status_line = Some("status".into());
    around.search = Some(Search { query: "word".into(), position: Some((1, 3)) });
    around.copied = true;
    let frame = draw(&state, &editor, &around, &["a"], 60, 14);
    assert_eq!(frame.lines.len(), 14);
    let plain: Vec<String> = frame.lines.iter().map(|line| strip_ansi(line)).collect();
    assert!(plain[1].ends_with("│ Copied! │"));
    assert!(plain[8].starts_with(" Find  word  1/3 · Enter next"));
    assert!(plain[9].starts_with("┌─ Planning ─"));
    assert!(plain[11].contains(" Tab queues "));
    assert!(plain[12].contains("2 background terminals"));
    assert_eq!(plain[13], "status");
    assert_eq!(frame.cursor, (9, 12));
}

#[test]
fn menus_cover_the_conversation_and_hide_its_pictures() {
    let mut state = fresh();
    state.picker = Some(yawl::picker::settings::settings_picker());
    let frame = draw(&state, &Editor::default(), &parts(), &["hidden"], 60, 20);
    assert!(frame.images.is_empty());
    assert!(frame.scroll_geometry.is_none());
    assert!(frame.lines.iter().any(|line| line.contains("Providers")));
    assert!(!frame.lines.iter().any(|line| line.contains("hidden")));
}

#[test]
fn a_plan_is_handed_over_in_the_composer() {
    let mut state = fresh();
    state.picker = Some(plan_handoff_picker());
    let frame = draw(&state, &Editor::default(), &parts(), &["talk"], 80, 24);
    assert_eq!(frame.cursor, (0, 0));
    let plain: Vec<String> = frame.lines.iter().map(|line| strip_ansi(line)).collect();
    assert!(plain.iter().any(|line| line.starts_with("┌─ Plan ready ─")));
    assert!(plain.iter().any(|line| line.contains("Choose what happens next")));
    assert!(plain.iter().any(|line| line.contains("(Recommended)")));
    let picker = plan_handoff_picker();
    let (rows, focus) = render_plan_handoff_input(&picker, 60, UiColor::white(), false);
    assert_eq!(focus, 1);
    assert!(rows.len() >= 4);
    let (rows, focus) = render_plan_handoff_input(&picker, 60, UiColor::white(), true);
    assert_eq!(focus, 0);
    assert!(!rows.is_empty());
}

#[test]
fn an_empty_conversation_is_welcomed() {
    let frame = draw(&fresh(), &Editor::default(), &parts(), &[], 40, 10);
    assert!(frame.lines[0].contains("welcome"));
    assert_eq!(frame.lines.len(), 10);
}

#[test]
fn the_selected_entry_is_marked() {
    let state = fresh();
    let editor = Editor::default();
    let plan = plan_frame(&state, &editor, &mut completion(&[]), &parts(), 40, 12);
    let mut window = window(&["a", "b"], plan.transcript_height);
    window.focused = true;
    window.selected = Some(1);
    let frame = compose_frame(&state, &editor, &parts(), &plan, &window, false, "");
    let plain: Vec<String> = frame.lines.iter().map(|line| strip_ansi(line)).collect();
    assert!(plain[7].starts_with('a'));
    assert!(plain[8].starts_with("▌b"));
}

#[test]
fn the_thumb_spans_the_bar() {
    assert_eq!(scroll_bar_span(10, 100), (1, 9));
    assert_eq!(scroll_bar_span(10, 20), (5, 5));
    assert_eq!(scroll_bar_position(9, 90, 0), 9);
    assert_eq!(scroll_bar_position(9, 90, 90), 0);
    assert_eq!(scroll_bar_position(9, 90, 45), 5);
    let mut region: Vec<String> = (0..4).map(|n| format!("row{n}")).collect();
    let geometry = apply_scroll_bar(&mut region, &fresh(), true, 8, 4, 4, "\x1b[41m").unwrap();
    assert_eq!((geometry.thumb_length, geometry.travel), (2, 2));
    assert_eq!(region[1], "row1");
    assert_eq!(region[2], "row\x1b[41m2\x1b[0m");
    assert!(apply_scroll_bar(&mut region, &fresh(), false, 8, 4, 4, "").is_none());
    assert!(apply_scroll_bar(&mut region, &fresh(), true, 4, 4, 4, "").is_none());
}

#[test]
fn the_toast_takes_three_rows() {
    let mut frame: Vec<String> = vec!["x".repeat(20); 4];
    render_copy_toast(&mut frame, 20, UiColor::white());
    let plain: Vec<String> = frame.iter().map(|line| strip_ansi(line)).collect();
    assert_eq!(plain[0], "xxxxxxxxx┌─────────┐");
    assert_eq!(plain[1], "xxxxxxxxx│ Copied! │");
    assert_eq!(plain[2], "xxxxxxxxx└─────────┘");
    assert_eq!(plain[3], "x".repeat(20));
}

#[test]
fn the_viewer_keeps_its_scrolling_inside_the_block() {
    let mut state = fresh();
    state.scroll_offset = 100;
    let body: Vec<String> = (0..20).map(|n| format!("line {n}")).collect();
    let (rows, cursor) = render_block_viewer(&mut state, "Assistant", 3, &body, 40, 10);
    assert_eq!(state.scroll_offset, 12);
    assert_eq!(cursor, (10, 1));
    let plain: Vec<String> = rows.iter().map(|line| strip_ansi(line)).collect();
    assert_eq!(plain.len(), 10);
    assert!(plain[0].starts_with(" Assistant 3 · Esc close · y copy"));
    assert!(plain[1].starts_with("line 0"));
    assert!(plain[9].starts_with(" 8/20 lines"));
}

fn question(custom: Option<Editor>) -> ActiveQuestion {
    ActiveQuestion {
        number: 1,
        count: 2,
        seconds_left: Some(29),
        text: "Which one?".into(),
        options: vec![
            QuestionOption { label: "Left".into(), description: "the near one".into() },
            QuestionOption { label: "Right".into(), description: String::new() },
        ],
        recommended: 1,
        selected: 2,
        custom,
    }
}

#[test]
fn questions_list_their_answers_and_one_of_ones_own() {
    let (rows, cursor, focus) =
        render_question_input(&question(None), 60, UiColor::white(), false);
    let plain: Vec<String> =
        rows.iter().map(|line| strip_ansi(line).trim_end().to_string()).collect();
    assert_eq!(
        plain,
        [
            "Question 1/2 · 30s",
            "Which one?",
            " 1. Left · the near one",
            " 2. Right (Recommended)",
            " 3. Other… · Write your own answer",
            " ↑/↓ choose · 1–3 select · Enter confirm · Esc cancel",
            "",
        ]
    );
    assert_eq!(cursor, None);
    assert_eq!(focus, 4);

    let mut editor = Editor::default();
    editor.paste("mine");
    let (rows, cursor, focus) =
        render_question_input(&question(Some(editor)), 60, UiColor::white(), true);
    let plain: Vec<String> =
        rows.iter().map(|line| strip_ansi(line).trim_end().to_string()).collect();
    assert_eq!(plain, ["1/2 · 30s · Which one?", "mine"]);
    assert_eq!(cursor, Some((1, 4)));
    assert_eq!(focus, 1);
}

#[test]
fn long_choices_are_wrapped_behind_their_number() {
    let rows =
        render_choice_lines(1, "abcdefgh", "", false, false, 8, UiColor::white());
    assert_eq!(rows, [" 1. abcd", "    efgh"]);
}

#[test]
fn a_bounded_view_keeps_the_cursor() {
    let lines: Vec<String> = (0..10).map(|n| n.to_string()).collect();
    let (shown, cursor) = bounded_input_view(lines.clone(), Some((9, 2)), 0, 4);
    assert_eq!(shown, ["6", "7", "8", "9"]);
    assert_eq!(cursor, Some((3, 2)));
    let (shown, cursor) = bounded_input_view(lines.clone(), None, 0, 4);
    assert_eq!(shown, ["0", "1", "2", "3"]);
    assert_eq!(cursor, None);
    let (shown, _) = bounded_input_view(lines, None, 5, 0);
    assert_eq!(shown, ["5"]);
}

#[test]
fn tables_have_a_frame_and_rules() {
    let rows = render("Title\n\n| A | Bee |\n| --- | --- |\n| long | x |\n", 20);
    let rows: Vec<&str> = rows.iter().map(|row| row.trim_end()).collect();
    assert_eq!(
        rows,
        [
            "Title",
            "",
            "┌──────┬─────┐",
            "│ A    │ Bee │",
            "├──────┼─────┤",
            "│ long │ x   │",
            "└──────┴─────┘",
        ]
    );
}

#[test]
fn the_menu_of_the_composer_stands_under_it() {
    let state = fresh();
    let mut editor = Editor::default();
    editor.paste("/c");
    let mut list = completion(&["/clear", "/copy", "/quit"]);
    list.completion_index = 9;
    let plan = plan_frame(&state, &editor, &mut list, &parts(), 40, 20);
    assert_eq!(plan.menu.len(), 2);
    assert_eq!(list.completion_index, 0);
    assert_eq!(plan.transcript_height, 20 - 3 - 2);
    assert_eq!(plan.cursor, Some((0, 2)));
}
