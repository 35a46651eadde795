use yawl::clipboard::StagedImage;
use yawl::editor::{EditAction, Editor, Submission};
use yawl::events::Key;

fn image(id: usize) -> StagedImage {
    StagedImage { id, path: format!("/tmp/{id}.png"), media_type: "image/png".into() }
}

fn press(editor: &mut Editor, keys: &[Key]) {
    for key in keys {
        assert_eq!(editor.handle_key(*key), EditAction::Nothing);
    }
}

fn ids(editor: &Editor) -> Vec<usize> {
    editor.images.iter().map(|image| image.id).collect()
}

// Images

#[test]
fn a_tag_is_passed_in_one_step() {
    let mut editor = Editor::default();
    editor.paste("a ");
    assert!(editor.attach(image(12)));
    editor.paste(" b");
    assert_eq!(editor.text, "a [Image #12] b");
    press(&mut editor, &[Key::Left, Key::Left]);
    assert_eq!(editor.cursor, 13);
    press(&mut editor, &[Key::Left]);
    assert_eq!(editor.cursor, 2);
    press(&mut editor, &[Key::Right]);
    assert_eq!(editor.cursor, 13);
}

#[test]
fn a_deleted_tag_detaches_its_image() {
    let mut editor = Editor::default();
    assert!(editor.attach(image(1)));
    assert!(editor.attach(image(2)));
    editor.paste("!");
    press(&mut editor, &[Key::Left, Key::Backspace]);
    assert_eq!((editor.text.as_str(), editor.cursor), ("[Image #1]!", 10));
    assert_eq!(ids(&editor), [1]);
    press(&mut editor, &[Key::Home, Key::Delete]);
    assert_eq!(editor.text, "!");
    assert!(ids(&editor).is_empty());
    for key in [Key::Ctrl('u'), Key::Ctrl('w')] {
        let mut editor = Editor::default();
        editor.paste("see");
        assert!(editor.attach(image(3)));
        press(&mut editor, &[key]);
        assert!(ids(&editor).is_empty());
        assert!(!editor.text.contains(']'));
    }
    let mut editor = Editor::default();
    assert!(editor.attach(image(4)));
    press(&mut editor, &[Key::Home, Key::Ctrl('k')]);
    assert!(editor.is_empty());
}

#[test]
fn typing_a_tag_attaches_nothing() {
    let mut editor = Editor::default();
    editor.paste("[Image #1]");
    assert!(ids(&editor).is_empty());
    press(&mut editor, &[Key::Left]);
    assert_eq!(editor.cursor, 9);
    press(&mut editor, &[Key::End]);
    assert!(editor.attach(image(1)));
    assert_eq!(editor.text, "[Image #1][Image #1]");
    press(&mut editor, &[Key::Home, Key::Delete]);
    assert_eq!(editor.text, "Image #1][Image #1]");
    assert_eq!(ids(&editor), [1]);
}

#[test]
fn text_around_a_tag_moves_it_along() {
    let mut editor = Editor::default();
    assert!(editor.attach(image(1)));
    press(&mut editor, &[Key::Home, Key::Char('x'), Key::Newline]);
    assert_eq!(editor.text, "x\n[Image #1]");
    press(&mut editor, &[Key::Right]);
    assert_eq!(editor.cursor, 12);
    assert_eq!(ids(&editor), [1]);
}

#[test]
fn a_message_takes_five_images() {
    let mut editor = Editor::default();
    for id in 1..=5 {
        assert!(editor.can_attach());
        assert!(editor.attach(image(id)));
    }
    assert!(!editor.can_attach());
    let text = editor.text();
    assert!(!editor.attach(image(6)));
    assert_eq!(editor.text(), text);
    assert_eq!(ids(&editor), [1, 2, 3, 4, 5]);
    press(&mut editor, &[Key::Backspace]);
    assert!(editor.attach(image(6)));
    assert_eq!(ids(&editor), [1, 2, 3, 4, 6]);
}

#[test]
fn a_message_that_is_put_back_keeps_its_tags() {
    let mut editor = Editor::default();
    editor.paste("look ");
    assert!(editor.attach(image(7)));
    let EditAction::Submit(input) = editor.handle_key(Key::Enter) else {
        panic!("nothing was sent");
    };
    assert!(editor.is_empty());
    editor.restore_submission(input);
    assert_eq!(editor.text(), "look [Image #7]");
    press(&mut editor, &[Key::Backspace]);
    assert_eq!(editor.text(), "look ");
    assert!(ids(&editor).is_empty());
}

#[test]
fn a_typed_tag_before_the_real_one_stays_text() {
    let mut editor = Editor::default();
    editor.paste("[Image #1] ");
    assert!(editor.attach(image(1)));
    let EditAction::Submit(input) = editor.handle_key(Key::Enter) else {
        panic!("nothing was sent");
    };
    editor.restore_submission(input);
    press(&mut editor, &[Key::Home, Key::Delete]);
    assert_eq!(editor.text(), "Image #1] [Image #1]");
    assert_eq!(ids(&editor), [1]);
    press(&mut editor, &[Key::End, Key::Backspace]);
    assert_eq!(editor.text(), "Image #1] ");
    assert!(ids(&editor).is_empty());
}

#[test]
fn a_message_that_waits_loses_the_image_of_a_tag_that_is_edited_out() {
    let mut input = Submission::new("see [Image #1] and [Image #2]");
    input.images.push(image(1));
    input.images.push(image(2));
    input.images.push(image(3));
    input.set_text("see [Image #2]".into());
    let left: Vec<usize> = input.images.iter().map(|image| image.id).collect();
    assert_eq!(left, [2, 3]);
}

// Rows and history

#[test]
fn up_and_down_move_by_wrapped_rows() {
    let mut editor = Editor::default();
    editor.set_width(4);
    editor.paste("abcdefgh\nxy");
    assert_eq!(editor.cursor, 11);
    press(&mut editor, &[Key::Up]);
    assert_eq!(editor.cursor, 6);
    press(&mut editor, &[Key::Up]);
    assert_eq!(editor.cursor, 2);
    press(&mut editor, &[Key::Up]);
    assert_eq!((editor.text.as_str(), editor.cursor), ("abcdefgh\nxy", 2));
    press(&mut editor, &[Key::Down, Key::Down]);
    assert_eq!(editor.cursor, 11);
    press(&mut editor, &[Key::Home, Key::Up]);
    assert_eq!(editor.cursor, 5);
    let layout = editor.layout(4);
    assert_eq!((layout.cursor_row, layout.cursor_col), (1, 1));
}

#[test]
fn a_column_past_the_end_of_a_row_is_its_end() {
    let mut editor = Editor::default();
    editor.paste("ab\nlonger");
    press(&mut editor, &[Key::Up]);
    assert_eq!(editor.cursor, 2);
    editor.clear();
    editor.paste("漢字\nabc");
    press(&mut editor, &[Key::Up]);
    assert_eq!(editor.cursor, 1);
}

#[test]
fn a_tag_is_not_entered_from_another_row() {
    let mut editor = Editor::default();
    assert!(editor.attach(image(1)));
    editor.paste("\nabc");
    press(&mut editor, &[Key::Up]);
    assert_eq!(editor.cursor, 0);
    press(&mut editor, &[Key::Down]);
    assert_eq!(editor.cursor, 11);
    let mut editor = Editor::default();
    editor.paste("abc\n");
    assert!(editor.attach(image(2)));
    press(&mut editor, &[Key::Up, Key::Down]);
    assert_eq!(editor.cursor, 14);
}

#[test]
fn the_history_comes_behind_the_first_row() {
    let mut editor = Editor::default();
    editor.remember(&Submission::new("first"));
    editor.remember(&Submission::new("second\nline"));
    editor.paste("draft");
    press(&mut editor, &[Key::Up]);
    assert_eq!(editor.text, "second\nline");
    press(&mut editor, &[Key::Up]);
    assert_eq!((editor.text.as_str(), editor.cursor), ("second\nline", 4));
    press(&mut editor, &[Key::Up]);
    assert_eq!(editor.text, "first");
    press(&mut editor, &[Key::Up]);
    assert_eq!(editor.text, "first");
    press(&mut editor, &[Key::Down]);
    assert_eq!(editor.text, "second\nline");
    press(&mut editor, &[Key::Down]);
    assert_eq!(editor.text, "draft");
    press(&mut editor, &[Key::Down]);
    assert_eq!(editor.text, "draft");
}

#[test]
fn an_entry_that_is_edited_is_a_draft_of_its_own() {
    let mut editor = Editor::default();
    editor.remember(&Submission::new("sent"));
    press(&mut editor, &[Key::Up, Key::Char('!'), Key::Up]);
    assert_eq!(editor.text, "sent");
    press(&mut editor, &[Key::Down]);
    assert_eq!(editor.text, "sent!");
}

#[test]
fn an_image_comes_back_from_the_history() {
    let mut editor = Editor::default();
    assert!(editor.attach(image(1)));
    let EditAction::Submit(input) = editor.handle_key(Key::Enter) else {
        panic!("nothing was sent");
    };
    editor.remember(&input);
    press(&mut editor, &[Key::Up]);
    assert_eq!(editor.text, "[Image #1]");
    assert_eq!(ids(&editor), [1]);
    press(&mut editor, &[Key::Left]);
    assert_eq!(editor.cursor, 0);
}
