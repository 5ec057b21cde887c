use velm::row::Row;

#[test]
fn to_string_can_take_a_snippet_of_the_row() {
    assert_eq!("Hello", &Row::from("Hello World!").to_string(0, 5));
    assert_eq!("World", &Row::from("Hello World!").to_string(6, 11));
    assert_eq!(
        "\u{1f980}\u{1f980}\u{1f980}",
        &Row::from("\u{1f980}\u{1f980}\u{1f980}\u{1f980}\u{1f980}").to_string(1, 4)
    );
}

#[test]
fn to_string_clamps_to_row_len() {
    assert_eq!("Hello", &Row::from("Hello").to_string(0, 100));
}

#[test]
fn to_string_converts_tab_to_space() {
    assert_eq!("  ", &Row::from("\t\t\t\t").to_string(1, 3));
}

#[test]
fn contents_returns_the_full_row() {
    assert_eq!("Hello \u{1f980}!", &Row::from("Hello \u{1f980}!").contents());
}

#[test]
fn row_can_be_appended_to_another_row() {
    let mut row = Row::from("Beans");
    row.append(&Row::from(" on toast!"));
    assert_eq!("Beans on toast!", &row.contents());
}

#[test]
fn character_can_be_deleted_at_position() {
    let mut row = Row::from("Beans");
    row.delete(1); // e
    row.delete(3); // s
    assert_eq!("Ban", &row.contents());
}

#[test]
fn grapheme_can_be_deleted_at_position() {
    let mut row = Row::from("Crab\u{1f980}");
    row.delete(4);
    assert_eq!("Crab", &row.contents());
}

#[test]
fn character_can_be_inserted_at_position() {
    let mut row = Row::from("13");
    row.insert(0, '0');
    row.insert(2, '2');
    row.insert(4, '4');
    assert_eq!("01234", &row.contents());
}

#[test]
fn grapheme_can_be_inserted_at_position() {
    let mut row = Row::from("12");
    row.insert(1, '\u{1f980}');
    assert_eq!("1\u{1f980}2", &row.contents());
}

#[test]
fn row_can_be_split_at_position() {
    let mut row = Row::from("\u{1f980} Rust is awesome!");
    let other = row.split(10);
    assert_eq!("\u{1f980} Rust is ", &row.contents());
    assert_eq!("awesome!", &other.contents());
}

#[test]
fn len_is_calculated() {
    assert_eq!(12, Row::from("Hello World!").len());
}

#[test]
fn len_counts_grapheme_clusters_individually() {
    assert_eq!(4, Row::from("\u{1f980}g\u{308}\u{ac01}\u{e01}").len());
}

#[test]
fn row_can_be_converted_to_bytes_for_writing() {
    assert_eq!(vec![72u8, 101, 108, 108, 111], Row::from("Hello").as_bytes());
}

#[test]
fn is_empty_is_true_when_len_is_zero() {
    assert!(Row::default().is_empty());
}

#[test]
fn is_empty_is_false_when_len_is_greater_than_zero() {
    assert!(!Row::from("123").is_empty());
}

#[test]
fn split_then_append_reconstructs_the_row() {
    let original = "caf\u{e9} au lait \u{1f980}";
    let mut head = Row::from(original);
    let tail = head.split(6);
    head.append(&tail);
    assert_eq!(original, &Row::from(original).contents());
    assert_eq!(Row::from(original).contents(), head.contents());
    assert_eq!(Row::from(original).len(), head.len());
}

#[test]
fn split_past_the_end_gives_an_empty_tail() {
    let mut head = Row::from("abc");
    let tail = head.split(10);
    assert_eq!("abc", &head.contents());
    assert!(tail.is_empty());
}

#[test]
fn insert_always_grows_length_by_one() {
    let mut row = Row::from("g\u{308}a");
    let before = row.len();
    row.insert(1, '\u{308}');
    assert_eq!(before + 1, row.len());
}

#[test]
fn insert_at_len_on_empty_row_matches_insert_at_zero() {
    let mut a = Row::default();
    let mut b = Row::default();
    a.insert(a.len(), 'z');
    b.insert(0, 'z');
    assert_eq!(a.contents(), b.contents());
    assert_eq!(1, a.len());
    assert_eq!(1, b.len());
}

#[test]
fn delete_past_the_end_is_a_no_op() {
    let mut row = Row::from("abc");
    row.delete(3);
    row.delete(100);
    assert_eq!("abc", &row.contents());
    assert_eq!(3, row.len());
}
