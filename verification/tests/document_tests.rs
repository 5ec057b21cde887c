use velm::document::Document;
use velm::ui::Position;

#[test]
fn fresh_document_has_one_empty_row() {
    let doc = Document::default();
    assert_eq!(1, doc.len());
    assert!(doc.row(0).unwrap().is_empty());
    assert!(doc.file_name().is_none());
}

#[test]
fn loading_an_empty_file_still_yields_one_empty_row() {
    let doc = Document::from_lines("empty.txt".to_string(), Vec::new());
    assert_eq!(1, doc.len());
    assert!(doc.row(0).unwrap().is_empty());
    assert_eq!("empty.txt", doc.file_name().unwrap());
}

#[test]
fn insert_at_document_end_appends_a_row() {
    let mut doc = Document::default();
    doc.insert(&Position::new(0, 1), 'x').unwrap();
    assert_eq!(2, doc.len());
    assert_eq!("x", &doc.row(1).unwrap().contents());
}

#[test]
fn insert_within_a_row_inserts_the_character() {
    let mut doc = Document::from_lines("notes".to_string(), vec!["ac".to_string()]);
    doc.insert(&Position::new(1, 0), 'b').unwrap();
    assert_eq!("abc", &doc.row(0).unwrap().contents());
}

#[test]
fn insert_past_document_end_is_rejected() {
    let mut doc = Document::default();
    assert!(doc.insert(&Position::new(0, 5), 'x').is_err());
    assert_eq!(1, doc.len());
}

#[test]
fn delete_past_document_end_is_a_no_op() {
    let mut doc = Document::from_lines("notes".to_string(), vec!["ab".to_string()]);
    doc.delete(&Position::new(0, 9));
    assert_eq!(1, doc.len());
    assert_eq!("ab", &doc.row(0).unwrap().contents());
}

#[test]
fn delete_at_row_end_merges_the_following_row() {
    let mut doc = Document::from_lines(
        "notes".to_string(),
        vec!["ab".to_string(), "cd".to_string()],
    );
    doc.delete(&Position::new(2, 0));
    assert_eq!(1, doc.len());
    assert_eq!("abcd", &doc.row(0).unwrap().contents());
}

#[test]
fn delete_within_a_row_removes_one_cluster() {
    let mut doc = Document::from_lines("notes".to_string(), vec!["abc".to_string()]);
    doc.delete(&Position::new(1, 0));
    assert_eq!("ac", &doc.row(0).unwrap().contents());
}

#[test]
fn insert_newline_splits_the_row() {
    let mut doc = Document::from_lines("notes".to_string(), vec!["abcd".to_string()]);
    doc.insert_newline(&Position::new(2, 0));
    assert_eq!(2, doc.len());
    assert_eq!("ab", &doc.row(0).unwrap().contents());
    assert_eq!("cd", &doc.row(1).unwrap().contents());
}

#[test]
fn insert_newline_at_document_end_appends_an_empty_row() {
    let mut doc = Document::from_lines("notes".to_string(), vec!["ab".to_string()]);
    doc.insert_newline(&Position::new(0, 1));
    assert_eq!(2, doc.len());
    assert!(doc.row(1).unwrap().is_empty());
}

#[test]
fn save_serializes_rows_with_trailing_newlines() {
    let mut doc = Document::from_lines(
        "notes".to_string(),
        vec!["ab".to_string(), "cd".to_string()],
    );
    let (name, bytes) = doc.save(None).expect("a named document saves");
    assert_eq!("notes", &name);
    assert_eq!(b"ab\ncd\n".to_vec(), bytes);
}

#[test]
fn save_with_a_new_name_records_it() {
    let mut doc = Document::default();
    assert!(doc.save(None).is_none());
    let (name, bytes) = doc.save(Some("fresh.txt".to_string())).unwrap();
    assert_eq!("fresh.txt", &name);
    assert_eq!(b"\n".to_vec(), bytes);
    assert_eq!("fresh.txt", doc.file_name().unwrap());
}
