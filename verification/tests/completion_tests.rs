use yawl::completion::{
    command_completions, completion_window, handle_completion_key, matching_completions, menu_rows,
    needs_files, sync_completion_filter, Completion, CompletionState, SkillEntry,
    COMPLETION_MENU_ROWS,
};
use yawl::editor::{EditAction, Editor, Submission};
use yawl::events::Key;
use yawl::files::FileIndex;

fn completion_state(commands: &[&str]) -> CompletionState {
    CompletionState {
        completions: commands
            .iter()
            .map(|command| Completion { command: (*command).into(), description: String::new() })
            .collect(),
        completion_index: 0,
        completion_filter: None,
        file_index: FileIndex { entries: None, cached_query: None, cached_matches: Vec::new() },
    }
}

fn mention_state(paths: &[&str]) -> CompletionState {
    let mut state = completion_state(&[]);
    state.file_index =
        FileIndex::with_entries(paths.iter().map(|path| (*path).to_string()).collect());
    state
}

#[test]
fn enter_runs_the_selected_completion() {
    let mut state = completion_state(&["/quit"]);
    let mut editor = Editor::default();
    editor.paste("/qui");

    assert!(!handle_completion_key(&mut state, &mut editor, Key::Enter));
    assert_eq!(editor.handle_key(Key::Enter), EditAction::Submit(Submission::new("/quit ")));
}

#[test]
fn enter_runs_an_exact_command_name_when_longer_prefixes_also_match() {
    let mut state = completion_state(&["/copy", "/copy-all", "/compact"]);
    let mut editor = Editor::default();
    editor.paste("/copy");

    assert!(!handle_completion_key(&mut state, &mut editor, Key::Enter));
    assert_eq!(editor.handle_key(Key::Enter), EditAction::Submit(Submission::new("/copy ")));
}

#[test]
fn enter_runs_the_first_match_when_the_typed_name_is_incomplete() {
    let mut state = completion_state(&["/clear", "/compact", "/copy", "/copy-all"]);
    let mut editor = Editor::default();
    editor.paste("/c");

    assert_eq!(state.completion_index, 0);
    assert!(!handle_completion_key(&mut state, &mut editor, Key::Enter));
    assert_eq!(editor.handle_key(Key::Enter), EditAction::Submit(Submission::new("/clear ")));
}

#[test]
fn filtering_moves_the_cursor_back_to_the_first_match() {
    let mut state = completion_state(&["/clear", "/compact", "/copy"]);
    let mut editor = Editor::default();
    editor.paste("/");
    assert!(handle_completion_key(&mut state, &mut editor, Key::Down));
    assert_eq!(state.completion_index, 1);

    editor.paste("c");
    sync_completion_filter(&mut state, &editor);
    assert_eq!(state.completion_index, 0);
    assert_eq!(state.completion_filter.as_deref(), Some("/c"));
}

#[test]
fn matching_completions_keep_every_command() {
    let commands: Vec<String> = (1..=12).map(|n| format!("/cmd{n:02}")).collect();
    let refs: Vec<&str> = commands.iter().map(String::as_str).collect();
    let state = completion_state(&refs);
    let mut editor = Editor::default();
    editor.paste("/");

    let matches = matching_completions(&state.completions, &editor);
    assert_eq!(
        matches
            .iter()
            .map(|completion| completion.command.as_str())
            .collect::<Vec<_>>(),
        refs
    );
}

#[test]
fn up_and_down_wrap_the_full_completion_list() {
    let mut state = completion_state(&["/a", "/b", "/c"]);
    let mut editor = Editor::default();
    editor.paste("/");

    assert!(handle_completion_key(&mut state, &mut editor, Key::Up));
    assert_eq!(state.completion_index, 2);

    assert!(handle_completion_key(&mut state, &mut editor, Key::Down));
    assert_eq!(state.completion_index, 0);

    assert!(handle_completion_key(&mut state, &mut editor, Key::Down));
    assert_eq!(state.completion_index, 1);
}

#[test]
fn enter_inserts_a_mention_tag_without_submitting() {
    let mut state = mention_state(&["src/tui/render.rs", "src/config.rs"]);
    let mut editor = Editor::default();
    editor.paste("look at @rend");

    assert!(handle_completion_key(&mut state, &mut editor, Key::Enter));
    assert_eq!(editor.text(), "look at @render.rs ");
    assert_eq!(
        editor.expand_submission(&editor.text()),
        "look at @src/tui/render.rs "
    );
}

#[test]
fn mention_menu_navigates_and_tab_completes() {
    let mut state = mention_state(&["a.rs", "b.rs"]);
    let mut editor = Editor::default();
    editor.paste("@");

    assert!(handle_completion_key(&mut state, &mut editor, Key::Down));
    assert_eq!(state.completion_index, 1);
    assert!(handle_completion_key(&mut state, &mut editor, Key::Tab));
    assert_eq!(editor.text(), "@b.rs ");
}

#[test]
fn typing_a_mention_query_resets_the_selection() {
    let mut state = mention_state(&["a.rs", "b.rs", "c.rs"]);
    let mut editor = Editor::default();
    editor.paste("@");
    assert!(handle_completion_key(&mut state, &mut editor, Key::Down));
    assert_eq!(state.completion_index, 1);

    editor.paste("c");
    sync_completion_filter(&mut state, &editor);
    assert_eq!(state.completion_index, 0);
    assert_eq!(state.completion_filter.as_deref(), Some("@c"));
}

#[test]
fn keys_pass_through_when_no_file_matches() {
    let mut state = mention_state(&["a.rs"]);
    let mut editor = Editor::default();
    editor.paste("@zzz");

    assert!(!handle_completion_key(&mut state, &mut editor, Key::Enter));
}

#[test]
fn completion_window_keeps_the_selection_visible() {
    assert_eq!(completion_window(15, 0, COMPLETION_MENU_ROWS), 0..6);
    assert_eq!(completion_window(15, 5, COMPLETION_MENU_ROWS), 0..6);
    assert_eq!(completion_window(15, 6, COMPLETION_MENU_ROWS), 1..7);
    assert_eq!(completion_window(15, 14, COMPLETION_MENU_ROWS), 9..15);
    assert_eq!(completion_window(5, 4, COMPLETION_MENU_ROWS), 0..5);
    assert_eq!(completion_window(0, 0, COMPLETION_MENU_ROWS), 0..0);
}

#[test]
fn a_mention_waits_for_the_listing() {
    let mut editor = Editor::default();
    editor.paste("@a");
    assert!(needs_files(&completion_state(&[]), &editor));
    assert!(!needs_files(&mention_state(&["a.rs"]), &editor));
}

#[test]
fn the_menu_names_files_and_their_directories() {
    let mut state = mention_state(&["src/tui/render.rs"]);
    let mut editor = Editor::default();
    editor.paste("@rend");
    let rows = menu_rows(&mut state, &editor);
    assert_eq!(rows.len(), 1);
    assert!(rows[0].0.contains("render.rs"));
    assert!(rows[0].1.contains("src/tui"));
}

#[test]
fn skills_can_be_completed() {
    let skills = vec![SkillEntry { name: "review".into(), description: "Look twice".into() }];
    let list = command_completions(&skills);
    assert!(list.iter().any(|entry| entry.command == "/help"));
    assert!(list
        .iter()
        .any(|entry| entry.command == "/skill:review" && entry.description == "Look twice"));
}

#[test]
fn every_command_can_be_completed() {
    let list = command_completions(&Vec::new());
    let commands: Vec<&str> = list.iter().map(|entry| entry.command.as_str()).collect();
    for command in [
        "/model", "/reasoning", "/connect", "/settings", "/subagents", "/ps", "/git", "/new",
        "/clear", "/compact", "/undo", "/copy", "/copy-all", "/tools", "/skills", "/resume",
        "/unqueue", "/usage", "/diff", "/init", "/goal", "/plan", "/hotkeys", "/help", "/quit",
    ] {
        assert!(commands.contains(&command), "{command} is missing");
    }
    assert_eq!(commands.len(), 25);
    assert!(list
        .iter()
        .any(|entry| entry.command == "/git" && entry.description == "Open the git dashboard"));
}
