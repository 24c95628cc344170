use isometric::event_handlers::{EditKey, TextEditor};

fn type_keys(editor: &mut TextEditor, keys: &[(EditKey, bool)]) {
    for (key, shift) in keys {
        editor.handle_key(*key, *shift);
    }
}

#[test]
fn new_editor_is_empty() {
    let editor = TextEditor::new();
    assert_eq!(editor.text(), "");
    assert_eq!(editor.caret_position(), 0);
}

#[test]
fn letters_are_small_unless_shifted() {
    let mut editor = TextEditor::new();
    type_keys(&mut editor, &[(EditKey::H, true), (EditKey::I, false), (EditKey::Space, true), (EditKey::Key4, false), (EditKey::Key2, true)]);
    assert_eq!(editor.text(), "Hi 42");
    assert_eq!(editor.caret_position(), 5);
}

#[test]
fn typing_inserts_at_the_caret() {
    let mut editor = TextEditor::new();
    type_keys(&mut editor, &[(EditKey::A, false), (EditKey::C, false), (EditKey::Left, false), (EditKey::B, false)]);
    assert_eq!(editor.text(), "abc");
    assert_eq!(editor.caret_position(), 2);
}

#[test]
fn backspace_undoes_typing() {
    let mut editor = TextEditor::new();
    type_keys(&mut editor, &[(EditKey::X, false), (EditKey::Y, false), (EditKey::Left, false)]);
    let before = (editor.text().to_string(), editor.caret_position());
    type_keys(&mut editor, &[(EditKey::Z, true), (EditKey::Back, false)]);
    assert_eq!((editor.text().to_string(), editor.caret_position()), before);
}

#[test]
fn backspace_at_start_does_nothing() {
    let mut editor = TextEditor::new();
    type_keys(&mut editor, &[(EditKey::Q, false), (EditKey::Left, false), (EditKey::Back, false)]);
    assert_eq!(editor.text(), "q");
    assert_eq!(editor.caret_position(), 0);
}

#[test]
fn right_stops_at_the_end_and_undoes_left() {
    let mut editor = TextEditor::new();
    type_keys(&mut editor, &[(EditKey::Key1, false), (EditKey::Right, false)]);
    assert_eq!(editor.caret_position(), 1);
    type_keys(&mut editor, &[(EditKey::Left, false), (EditKey::Right, false)]);
    assert_eq!(editor.caret_position(), 1);
}

#[test]
fn other_keys_change_nothing() {
    let mut editor = TextEditor::new();
    type_keys(&mut editor, &[(EditKey::W, false), (EditKey::Other, true)]);
    assert_eq!(editor.text(), "w");
    assert_eq!(editor.caret_position(), 1);
}

#[test]
fn backspace_undoes_inserting_any_ascii_character() {
    let mut editor = TextEditor::new();
    type_keys(&mut editor, &[(EditKey::A, false), (EditKey::B, false), (EditKey::Left, false)]);
    editor.insert_character('#');
    assert_eq!(editor.text(), "a#b");
    assert_eq!(editor.caret_position(), 2);
    editor.backspace();
    assert_eq!(editor.text(), "ab");
    assert_eq!(editor.caret_position(), 1);
}

#[test]
fn backspace_at_the_start_changes_nothing() {
    let mut editor = TextEditor::new();
    type_keys(&mut editor, &[(EditKey::A, false), (EditKey::Left, false)]);
    editor.backspace();
    assert_eq!(editor.text(), "a");
    assert_eq!(editor.caret_position(), 0);
}
