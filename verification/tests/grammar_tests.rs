use velm::communication::Message;
use velm::execute::command_for_input;
use velm::mode::{Execute, Insert, Mode};
use velm::normal;

#[test]
fn test_command_for_input() {
    let tests = vec![
        ("q", Message::Quit),
        ("w", Message::Save),
        ("w some_file.txt", Message::SaveAs("some_file.txt".into())),
    ];

    for (input, command) in tests.into_iter() {
        assert_eq!(command_for_input(input), Some(command));
    }
}

#[test]
fn test_quit() {
    assert_ne!(command_for_input("w"), Some(Message::Quit));
    assert_eq!(command_for_input("q"), Some(Message::Quit));
}

#[test]
fn test_save() {
    assert_ne!(command_for_input("q"), Some(Message::Save));
    assert_eq!(command_for_input("w"), Some(Message::Save));
}

#[test]
fn test_save_as() {
    assert_ne!(command_for_input("w"), Some(Message::SaveAs("test.txt".into())));
    assert_eq!(
        command_for_input("w test.txt"),
        Some(Message::SaveAs("test.txt".into()))
    );
}

#[test]
fn command_line_save_as_keeps_the_whole_name() {
    assert_eq!(
        command_for_input("w notes.txt"),
        Some(Message::SaveAs("notes.txt".into()))
    );
}

#[test]
fn command_line_rejects_unknown_commands() {
    assert_eq!(command_for_input("x"), None);
    assert_eq!(command_for_input("wq"), None);
    assert_eq!(command_for_input("w "), None);
    assert_eq!(command_for_input(""), None);
}

#[test]
fn normal_repeat_count_scales_the_movement() {
    assert_eq!(
        normal::command_for_input("3j"),
        Some(Message::MoveCursorDown(3))
    );
    assert_eq!(
        normal::command_for_input("10h"),
        Some(Message::MoveCursorLeft(10))
    );
    assert_eq!(
        normal::command_for_input("42k"),
        Some(Message::MoveCursorUp(42))
    );
    assert_eq!(
        normal::command_for_input("7l"),
        Some(Message::MoveCursorRight(7))
    );
}

#[test]
fn normal_single_movement_defaults_to_one() {
    assert_eq!(normal::command_for_input("j"), Some(Message::MoveCursorDown(1)));
    assert_eq!(normal::command_for_input("h"), Some(Message::MoveCursorLeft(1)));
    assert_eq!(normal::command_for_input("k"), Some(Message::MoveCursorUp(1)));
    assert_eq!(normal::command_for_input("l"), Some(Message::MoveCursorRight(1)));
}

#[test]
fn normal_colon_enters_execute_mode() {
    assert_eq!(
        normal::command_for_input(":"),
        Some(Message::EnterMode(Mode::Execute(Execute::default())))
    );
}

#[test]
fn normal_i_enters_insert_mode() {
    assert_eq!(
        normal::command_for_input("i"),
        Some(Message::EnterMode(Mode::Insert(Insert::default())))
    );
}

#[test]
fn normal_rejects_unmatched_input() {
    assert_eq!(normal::command_for_input("x"), None);
    assert_eq!(normal::command_for_input("0j"), None);
    assert_eq!(normal::command_for_input("3"), None);
    assert_eq!(normal::command_for_input("3x"), None);
    assert_eq!(normal::command_for_input(""), None);
}
