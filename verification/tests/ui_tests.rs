use velm::ui::{Position, Rect};

#[test]
fn new_sets_default_position() {
    let r = Rect::new(0, 0);
    assert_eq!(r.position.col, 0);
    assert_eq!(r.position.row, 0);
}

#[test]
fn positioned_sets_position() {
    let r = Rect::positioned(0, 0, 10, 20);
    assert_eq!(r.position.col, 10);
    assert_eq!(r.position.row, 20);
}

#[test]
fn area_is_calculated() {
    assert_eq!(Rect::new(10, 10).area(), 100);
}

#[test]
fn left_returns_leftmost_possible_value() {
    assert_eq!(Rect::positioned(5, 10, 0, 0).left(), 0);
}

#[test]
fn left_returns_leftmost_possible_value_including_offset() {
    assert_eq!(Rect::positioned(5, 10, 10, 0).left(), 10);
}

#[test]
fn right_returns_rightmost_possible_value() {
    assert_eq!(Rect::positioned(5, 10, 0, 0).right(), 4);
}

#[test]
fn right_returns_rightmost_possible_value_including_offset() {
    assert_eq!(Rect::positioned(5, 10, 20, 25).right(), 24);
}

#[test]
fn top_returns_topmost_possible_value() {
    assert_eq!(Rect::positioned(5, 10, 0, 0).top(), 0);
}

#[test]
fn top_returns_topmost_possible_value_including_offset() {
    assert_eq!(Rect::positioned(5, 10, 0, 12).top(), 12);
}

#[test]
fn bottom_returns_bottommost_possible_value() {
    assert_eq!(Rect::positioned(5, 10, 0, 0).bottom(), 9);
}

#[test]
fn bottom_returns_bottommost_possible_value_including_offset() {
    assert_eq!(Rect::positioned(5, 10, 20, 25).bottom(), 34);
}

#[test]
fn contains_returns_true_if_position_contained() {
    let r = Rect::new(10, 10);
    assert!(r.contains(&Position::new(9, 9)));
}

#[test]
fn contains_returns_false_if_position_not_contained() {
    let r = Rect::positioned(10, 10, 10, 10);
    assert_eq!(r.contains(&Position::new(20, 20)), false);
}
