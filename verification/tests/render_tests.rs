use velm::render::{Cell, Frame};
use velm::ui::{Color, Position, Rect};

#[test]
fn diff_of_frames_differing_in_one_cell_is_that_cell() {
    let previous = Frame::empty(Rect::new(4, 3));
    let mut current = Frame::empty(Rect::new(4, 3));
    current.write_line(0, &vec!["x".to_string()], Color::default(), Color::default());

    let changes = previous.diff(&current);
    assert_eq!(1, changes.len());
    assert_eq!(&Position::new(0, 0), changes[0].position());
    assert_eq!("x", changes[0].symbol());
}

#[test]
fn diff_of_identical_frames_is_empty() {
    let previous = Frame::empty(Rect::new(4, 3));
    let current = Frame::empty(Rect::new(4, 3));
    assert_eq!(0, previous.diff(&current).len());
}

#[test]
fn write_line_blanks_the_rest_of_the_line() {
    let mut frame = Frame::filled(Rect::new(3, 1), "#");
    frame.write_line(0, &vec!["a".to_string()], Color::default(), Color::default());
    let against = Frame::filled(Rect::new(3, 1), "#");
    let changes = against.diff(&frame);
    assert_eq!(3, changes.len());
    assert_eq!("a", changes[0].symbol());
    assert_eq!(" ", changes[1].symbol());
    assert_eq!(" ", changes[2].symbol());
}

#[test]
fn cells_record_their_row_major_positions() {
    let frame = Frame::empty(Rect::new(2, 2));
    let mut other = Frame::filled(Rect::new(2, 2), "#");
    other.write_line(0, &vec!["#".to_string(), "#".to_string()], Color::default(), Color::default());
    other.write_line(1, &vec!["#".to_string(), "#".to_string()], Color::default(), Color::default());
    let changes = frame.diff(&other);
    assert_eq!(4, changes.len());
    assert_eq!(&Position::new(0, 0), changes[0].position());
    assert_eq!(&Position::new(1, 0), changes[1].position());
    assert_eq!(&Position::new(0, 1), changes[2].position());
    assert_eq!(&Position::new(1, 1), changes[3].position());
}

#[test]
fn cell_reset_keeps_colors_and_blanks_the_symbol() {
    let mut cell = Cell::new(0, 0, "x", Color::Red, Color::Blue);
    cell.reset();
    assert_eq!(" ", cell.symbol());
    assert_eq!(Color::Red, cell.foreground());
    assert_eq!(Color::Blue, cell.background());
}

#[test]
fn out_of_bounds_access_is_reported() {
    let frame = Frame::empty(Rect::new(2, 2));
    assert!(frame.index_of(&Position::new(5, 5)).is_err());
    assert_eq!(
        "trying to access index out of bounds",
        velm::render::OutOfBoundsError.message()
    );
    assert_eq!(Ok(3), frame.index_of(&Position::new(1, 1)));
}
