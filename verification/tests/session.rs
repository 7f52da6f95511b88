use lineedit::DefaultValidator;
use lineedit::EditCommand;
use lineedit::Event;
use lineedit::EventOutcome;
use lineedit::KeyCode;
use lineedit::KeyModifiers;
use lineedit::LineEditor;
use lineedit::Signal;

fn plain_key(code: KeyCode) -> Event {
    Event::Key { modifiers: KeyModifiers::none(), code }
}

fn ctrl_key(c: char) -> Event {
    Event::Key { modifiers: KeyModifiers::control(), code: KeyCode::Char(c) }
}

fn alt_key(code: KeyCode) -> Event {
    Event::Key { modifiers: KeyModifiers::alt(), code }
}

fn type_text(editor: &mut LineEditor<DefaultValidator>, text: &str) {
    for ch in text.chars() {
        editor.handle_event(plain_key(KeyCode::Char(ch)));
    }
}

fn press_enter(editor: &mut LineEditor<DefaultValidator>) -> Option<String> {
    match editor.handle_event(plain_key(KeyCode::Enter)) {
        EventOutcome::Emit(Signal::Success(s)) => Some(s),
        _ => None,
    }
}

#[test]
fn echos_input() {
    let mut editor = LineEditor::new(DefaultValidator);
    type_text(&mut editor, "Hello World!");
    assert_eq!(editor.current_buffer(), "Hello World!");
    let committed = press_enter(&mut editor).expect("a complete line commits");
    assert_eq!(committed, "Hello World!");
    assert_eq!(editor.current_buffer(), "");
}

#[test]
fn backspace() {
    let mut editor = LineEditor::new(DefaultValidator);
    type_text(&mut editor, "Hello World");
    for _ in 0..5 {
        editor.handle_event(plain_key(KeyCode::Backspace));
    }
    type_text(&mut editor, "Bread!");
    let committed = press_enter(&mut editor).expect("a complete line commits");
    assert_eq!(committed, "Hello Bread!");
}

#[test]
fn history() {
    let mut editor = LineEditor::new(DefaultValidator);
    type_text(&mut editor, "Hello World!");
    press_enter(&mut editor).expect("first commit");
    type_text(&mut editor, "Goodbye!");
    press_enter(&mut editor).expect("second commit");

    editor.handle_event(plain_key(KeyCode::Up));
    assert_eq!(editor.current_buffer(), "Goodbye!");

    let committed = press_enter(&mut editor).expect("recalled line commits");
    assert_eq!(committed, "Goodbye!");

    editor.handle_event(plain_key(KeyCode::Up));
    editor.handle_event(plain_key(KeyCode::Up));
    assert_eq!(editor.current_buffer(), "Hello World!");

    editor.handle_event(plain_key(KeyCode::Down));
    editor.handle_event(plain_key(KeyCode::Down));
    assert_eq!(editor.current_buffer(), "");

    type_text(&mut editor, "Hell");
    editor.handle_event(plain_key(KeyCode::Up));
    assert_eq!(editor.current_buffer(), "Hello World!");
}

#[test]
fn word_movement() {
    let mut editor = LineEditor::new(DefaultValidator);
    type_text(&mut editor, "foo bar baz");

    let ctrl_left = Event::Key { modifiers: KeyModifiers::control(), code: KeyCode::Left };
    let ctrl_right = Event::Key { modifiers: KeyModifiers::control(), code: KeyCode::Right };
    editor.handle_event(ctrl_left);
    editor.handle_event(ctrl_left);
    editor.handle_event(ctrl_right);
    editor.handle_event(ctrl_key('b'));
    editor.handle_event(ctrl_key('b'));
    editor.handle_event(ctrl_key('f'));

    type_text(&mut editor, "za");
    let committed = press_enter(&mut editor).expect("a complete line commits");
    assert_eq!(committed, "foo bazar baz");
}

#[test]
fn clear_screen() {
    let mut editor = LineEditor::new(DefaultValidator);
    type_text(&mut editor, "Hello World!");
    press_enter(&mut editor).expect("first commit");

    type_text(&mut editor, "Hello again!");
    let outcome = editor.handle_event(ctrl_key('l'));
    assert!(matches!(outcome, EventOutcome::ClearScreen));
    assert_eq!(editor.current_buffer(), "Hello again!");

    let committed = press_enter(&mut editor).expect("buffer survives the clear");
    assert_eq!(committed, "Hello again!");
}

#[test]
fn emacs_keybinds() {
    let mut editor = LineEditor::new(DefaultValidator);
    type_text(&mut editor, "Hello World!");

    editor.handle_event(ctrl_key('z'));
    assert_eq!(editor.current_buffer(), "Hello World");

    editor.handle_event(ctrl_key('g'));
    assert_eq!(editor.current_buffer(), "Hello World!");

    editor.handle_event(alt_key(KeyCode::Left));
    editor.handle_event(alt_key(KeyCode::Backspace));
    assert_eq!(editor.current_buffer(), "Hello !");

    editor.handle_event(alt_key(KeyCode::Char('b')));
    editor.handle_event(alt_key(KeyCode::Char('u')));
    assert_eq!(editor.current_buffer(), "HELLO !");
}

#[test]
fn undo_then_redo_restores_buffer_and_cursor() {
    let mut editor = LineEditor::new(DefaultValidator);
    type_text(&mut editor, "some words here");
    editor.handle_event(plain_key(KeyCode::Left));
    editor.handle_event(plain_key(KeyCode::Backspace));
    let before_text = editor.current_buffer().to_string();
    let before_cursor = editor.current_insertion_point();

    editor.handle_event(ctrl_key('z'));
    editor.handle_event(ctrl_key('g'));
    assert_eq!(editor.current_buffer(), before_text.as_str());
    assert_eq!(editor.current_insertion_point(), before_cursor);
}

#[test]
fn incomplete_line_continues_with_newline() {
    let mut editor = LineEditor::new(DefaultValidator);
    type_text(&mut editor, "\"a");
    let outcome = editor.handle_event(plain_key(KeyCode::Enter));
    assert!(matches!(outcome, EventOutcome::Continue));
    assert_eq!(editor.current_buffer(), "\"a\n");

    type_text(&mut editor, "b\"");
    let committed = press_enter(&mut editor).expect("balanced quotes commit");
    assert_eq!(committed, "\"a\nb\"");
}

#[test]
fn interrupt_clears_and_signals() {
    let mut editor = LineEditor::new(DefaultValidator);
    type_text(&mut editor, "half a line");
    let outcome = editor.handle_event(ctrl_key('c'));
    assert!(matches!(outcome, EventOutcome::Emit(Signal::Interrupted)));
    assert_eq!(editor.current_buffer(), "");
}

#[test]
fn end_of_input_only_on_empty_buffer() {
    let mut editor = LineEditor::new(DefaultValidator);
    type_text(&mut editor, "pending");
    let swallowed = editor.handle_event(ctrl_key('d'));
    assert!(matches!(swallowed, EventOutcome::Continue));
    assert_eq!(editor.current_buffer(), "");

    let eof = editor.handle_event(ctrl_key('d'));
    assert!(matches!(eof, EventOutcome::Emit(Signal::EndOfInput)));
}

#[test]
fn added_binding_takes_priority() {
    let mut editor = LineEditor::new(DefaultValidator);
    editor.add_binding(
        KeyModifiers::alt(),
        KeyCode::Char('m'),
        vec![EditCommand::BackspaceWord],
    );
    type_text(&mut editor, "foo bar");
    editor.handle_event(alt_key(KeyCode::Char('m')));
    assert_eq!(editor.current_buffer(), "foo ");
}

#[test]
fn vi_mode_switches_and_edits() {
    let mut editor = LineEditor::new(DefaultValidator);
    editor.set_edit_mode(lineedit::EditMode::ViInsert);
    type_text(&mut editor, "abcd");
    editor.handle_event(plain_key(KeyCode::Esc));
    editor.handle_event(plain_key(KeyCode::Char('h')));
    editor.handle_event(plain_key(KeyCode::Char('h')));
    editor.handle_event(plain_key(KeyCode::Char('x')));
    assert_eq!(editor.current_buffer(), "abd");
    editor.handle_event(plain_key(KeyCode::Char('i')));
    type_text(&mut editor, "Z");
    assert_eq!(editor.current_buffer(), "abZd");
}

#[test]
fn resize_event_leaves_session_alone() {
    let mut editor = LineEditor::new(DefaultValidator);
    type_text(&mut editor, "typed");
    let outcome = editor.handle_event(Event::Resize { columns: 120, rows: 40 });
    assert!(matches!(outcome, EventOutcome::Continue));
    assert_eq!(editor.current_buffer(), "typed");
}

#[test]
fn history_skips_empty_and_repeated_lines() {
    let mut editor = LineEditor::new(DefaultValidator);
    press_enter(&mut editor).expect("empty line still commits");
    assert_eq!(editor.history_len(), 0);

    type_text(&mut editor, "twice");
    press_enter(&mut editor).expect("commit");
    type_text(&mut editor, "twice");
    press_enter(&mut editor).expect("commit");
    assert_eq!(editor.history_len(), 1);
    assert_eq!(editor.history_entry(0), "twice");
}
