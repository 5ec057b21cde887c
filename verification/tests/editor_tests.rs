use velm::communication::{Command, Message};
use velm::editor::{Editor, EditorError};
use velm::input::Key;
use velm::mode::{Execute, Insert, Mode, Normal};
use velm::render::{Canvas, CanvasError, Cell};
use velm::ui::Rect;

/// A drawing surface that accepts everything and draws nowhere.
struct NullCanvas {
    size: Rect,
}

impl Canvas for NullCanvas {
    fn clear(&mut self) -> Result<(), CanvasError> {
        Ok(())
    }

    fn draw(&mut self, _cells: &Vec<&Cell>) -> Result<(), CanvasError> {
        Ok(())
    }

    fn flush(&mut self) -> Result<(), CanvasError> {
        Ok(())
    }

    fn hide_cursor(&mut self) -> Result<(), CanvasError> {
        Ok(())
    }

    fn position_cursor(&mut self, _row: usize, _col: usize) -> Result<(), CanvasError> {
        Ok(())
    }

    fn show_cursor(&mut self) -> Result<(), CanvasError> {
        Ok(())
    }

    fn size(&self) -> Result<Rect, CanvasError> {
        Ok(self.size)
    }
}

fn editor() -> Editor<NullCanvas> {
    Editor::new(NullCanvas { size: Rect::new(80, 24) }).expect("a sane terminal size is accepted")
}

/// Feed one key and apply whatever message it produced, handing back what
/// the loop would see.
fn press(editor: &mut Editor<NullCanvas>, key: Key) -> (Option<Command>, Option<Message>) {
    match editor.handle_key(key) {
        Some(msg) => {
            assert!(editor.can_apply(&msg));
            let reaction = editor.apply_message(msg).expect("the message applies");
            (reaction.command, reaction.reinject)
        }
        None => (None, None),
    }
}

/// A drawing surface whose draw always fails.
struct FailingCanvas;

impl Canvas for FailingCanvas {
    fn clear(&mut self) -> Result<(), CanvasError> {
        Ok(())
    }

    fn draw(&mut self, _cells: &Vec<&Cell>) -> Result<(), CanvasError> {
        Err(CanvasError { message: "broken surface".to_string() })
    }

    fn flush(&mut self) -> Result<(), CanvasError> {
        Ok(())
    }

    fn hide_cursor(&mut self) -> Result<(), CanvasError> {
        Ok(())
    }

    fn position_cursor(&mut self, _row: usize, _col: usize) -> Result<(), CanvasError> {
        Ok(())
    }

    fn show_cursor(&mut self) -> Result<(), CanvasError> {
        Ok(())
    }

    fn size(&self) -> Result<Rect, CanvasError> {
        Ok(Rect::new(10, 5))
    }
}

#[test]
fn a_failing_surface_surfaces_a_canvas_error() {
    let mut editor = Editor::new(FailingCanvas).unwrap();
    match editor.render() {
        Err(e) => assert_eq!("broken surface", &e.message),
        Ok(()) => panic!("drawing on a broken surface cannot succeed"),
    }
    let msg = editor.handle_key(Key::Char('i')).unwrap();
    match editor.apply_message(msg) {
        Err(EditorError::Canvas(e)) => assert_eq!("broken surface", &e.message),
        other => panic!("expected a canvas error, got {:?}", other.is_ok()),
    }
}

#[test]
fn editor_refuses_a_too_small_terminal() {
    assert!(Editor::new(NullCanvas { size: Rect::new(80, 2) }).is_err());
}

#[test]
fn pressing_i_enters_insert_mode_and_typing_edits_the_document() {
    let mut editor = editor();
    editor.render().unwrap();

    let msg = editor.handle_key(Key::Char('i')).expect("i matches the grammar");
    assert_eq!(msg, Message::EnterMode(Mode::Insert(Insert::default())));
    editor.apply_message(msg).unwrap();

    press(&mut editor, Key::Char('h'));
    press(&mut editor, Key::Char('i'));

    let msg = editor.handle_key(Key::Esc).expect("esc leaves insert mode");
    assert_eq!(msg, Message::EnterMode(Mode::Normal(Normal::default())));
    editor.apply_message(msg).unwrap();
}

#[test]
fn wq_is_not_a_command_but_w_saves_with_the_current_name() {
    let mut editor = editor();

    // Build a document: i, "hi", Esc.
    press(&mut editor, Key::Char('i'));
    press(&mut editor, Key::Char('h'));
    press(&mut editor, Key::Char('i'));
    press(&mut editor, Key::Esc);

    // :wq — ends the command line, whose parse rejects "wq".
    let (_, _) = press(&mut editor, Key::Char(':'));
    press(&mut editor, Key::Char('w'));
    press(&mut editor, Key::Char('q'));
    let (command, _) = press(&mut editor, Key::Enter);
    let parse = match command {
        Some(Command::Emit(m)) => m,
        other => panic!("ending the command line defers its parse, got {:?}", other),
    };
    assert_eq!(parse, Message::ParseCommandLineInput("wq".to_string()));
    let reaction = editor.apply_message(parse).unwrap();
    assert!(reaction.reinject.is_none(), "wq is not a command");
    assert!(reaction.command.is_none());

    // :w followed by Enter triggers a save with the current (absent) name.
    press(&mut editor, Key::Char(':'));
    press(&mut editor, Key::Char('w'));
    let (command, _) = press(&mut editor, Key::Enter);
    let parse = match command {
        Some(Command::Emit(m)) => m,
        other => panic!("ending the command line defers its parse, got {:?}", other),
    };
    assert_eq!(parse, Message::ParseCommandLineInput("w".to_string()));
    let reaction = editor.apply_message(parse).unwrap();
    assert_eq!(reaction.reinject, Some(Message::Save));

    let reaction = editor.apply_message(Message::Save).unwrap();
    assert!(
        reaction.command.is_none(),
        "a document with no name has nothing to write"
    );
}

#[test]
fn save_as_defers_a_file_write_with_the_typed_contents() {
    let mut editor = editor();

    press(&mut editor, Key::Char('i'));
    press(&mut editor, Key::Char('o'));
    press(&mut editor, Key::Char('k'));
    press(&mut editor, Key::Esc);

    press(&mut editor, Key::Char(':'));
    press(&mut editor, Key::Char('w'));
    press(&mut editor, Key::Char(' '));
    press(&mut editor, Key::Char('f'));
    let (command, _) = press(&mut editor, Key::Enter);
    let parse = match command {
        Some(Command::Emit(m)) => m,
        other => panic!("ending the command line defers its parse, got {:?}", other),
    };
    let reaction = editor.apply_message(parse).unwrap();
    assert_eq!(reaction.reinject, Some(Message::SaveAs("f".to_string())));

    let reaction = editor.apply_message(Message::SaveAs("f".to_string())).unwrap();
    match reaction.command {
        Some(Command::WriteFile { name, contents }) => {
            assert_eq!("f", &name);
            assert_eq!(b"ok\n".to_vec(), contents);
        }
        other => panic!("save as defers a file write, got {:?}", other),
    }
}

#[test]
fn quit_sets_the_termination_flag() {
    let mut editor = editor();
    assert!(!editor.should_quit());

    press(&mut editor, Key::Char(':'));
    press(&mut editor, Key::Char('q'));
    let (command, _) = press(&mut editor, Key::Enter);
    let parse = match command {
        Some(Command::Emit(m)) => m,
        other => panic!("ending the command line defers its parse, got {:?}", other),
    };
    let reaction = editor.apply_message(parse).unwrap();
    assert_eq!(reaction.reinject, Some(Message::Quit));

    editor.apply_message(Message::Quit).unwrap();
    assert!(editor.should_quit());
}

#[test]
fn movement_with_repeat_count_moves_the_cursor() {
    let mut editor = editor();

    // Three lines of text.
    press(&mut editor, Key::Char('i'));
    press(&mut editor, Key::Char('a'));
    press(&mut editor, Key::Enter);
    press(&mut editor, Key::Char('b'));
    press(&mut editor, Key::Enter);
    press(&mut editor, Key::Char('c'));
    press(&mut editor, Key::Esc);

    // 2k moves up two rows from the third line.
    let first = editor.handle_key(Key::Char('2'));
    assert!(first.is_none(), "a pending count produces no message yet");
    let msg = editor.handle_key(Key::Char('k')).expect("2k matches the grammar");
    assert_eq!(msg, Message::MoveCursorUp(2));
    editor.apply_message(msg).unwrap();
}

#[test]
fn unmatched_normal_input_accumulates_until_esc() {
    let mut editor = editor();
    press(&mut editor, Key::Char('i'));
    press(&mut editor, Key::Esc);

    assert!(editor.handle_key(Key::Char('9')).is_none());
    assert!(editor.handle_key(Key::Char('x')).is_none(), "9x never matches");
    assert!(editor.handle_key(Key::Esc).is_none(), "esc clears the pending input");
    let msg = editor.handle_key(Key::Char('j')).expect("a cleared buffer matches j alone");
    assert_eq!(msg, Message::MoveCursorDown(1));
}

#[test]
fn mode_names_follow_the_active_mode() {
    assert_eq!("NORMAL", Mode::default().name());
    assert_eq!("INSERT", Mode::Insert(Insert::default()).name());
    assert_eq!("COMMAND", Mode::Execute(Execute::default()).name());
}
