use velm::buffer::Buffer;
use velm::communication::Message;
use velm::document::Document;
use velm::mode::{Insert, Mode};
use velm::render::{Draw, Frame};
use velm::status_bar::StatusBar;
use velm::ui::{Position, Rect};
use velm::window::Window;

#[test]
fn buffer_scrolls_right_when_typing_past_the_viewport() {
    let mut buffer = Buffer::new(Rect::new(5, 4), Document::default());
    for _ in 0..7 {
        buffer.update(Message::InsertChar('x')).unwrap();
    }
    // The cursor sits at column 7 of the document, kept visible in a
    // viewport 5 cells wide: the offset is 3, the on-screen column 4.
    assert_eq!(Position::new(4, 0), buffer.cursor_position());
    assert_eq!(1, buffer.lines_in_document());
}

#[test]
fn buffer_with_no_name_shows_a_stand_in() {
    let buffer = Buffer::new(Rect::new(5, 4), Document::default());
    assert_eq!("[No Name]", &buffer.document_name());
}

#[test]
fn status_bar_shows_mode_and_indicator_clipped_to_its_width() {
    let area = Rect::new(20, 3);
    let blank = Frame::empty(area);
    let mut frame = Frame::empty(area);

    let bar = StatusBar {
        area: Rect::positioned(20, 1, 0, 2),
        mode: "NORMAL".to_string(),
        line_count: 0,
        cursor_position: Position::new(0, 0),
        file_name: String::new(),
    };
    bar.render_to(&mut frame);

    let changes = blank.diff(&frame);
    assert_eq!(20, changes.len(), "the whole bar row changes color");
    let text: String = changes.iter().map(|c| c.symbol().as_str()).collect();
    assert_eq!("Mode: [NORMAL]    Fi", &text);
    assert_eq!(&Position::new(0, 2), changes[0].position());
}

#[test]
fn window_status_bar_shows_the_document_name_and_line_count() {
    let area = Rect::new(60, 5);
    let mut window = Window::new(area, Mode::default());
    window
        .update(Message::EnterMode(Mode::Insert(Insert::default())))
        .unwrap();

    let blank = Frame::empty(area);
    let mut frame = Frame::empty(area);
    window.render_to(&mut frame);

    let changes = blank.diff(&frame);
    let bar: String = changes
        .iter()
        .filter(|c| c.position().row == 3)
        .map(|c| c.symbol().as_str())
        .collect();
    assert!(bar.contains("Mode: [INSERT]"), "bar was: {}", bar);
    assert!(bar.contains("File: [No Name]"), "bar was: {}", bar);
    assert!(bar.contains("L: 0/1 C: 1"), "bar was: {}", bar);
}
