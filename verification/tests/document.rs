use hecto::{Document, Position};
use std::io::{Error, ErrorKind};

fn document(text: &str) -> Document {
    Document::open("notes.txt", Ok(text.to_string())).unwrap()
}

fn lines(document: &Document) -> Vec<String> {
    (0..document.len())
        .map(|index| {
            String::from_utf8(document.row(index).unwrap().as_bytes().to_vec()).unwrap()
        })
        .collect()
}

fn at(x: usize, y: usize) -> Position {
    Position { x, y }
}

#[test]
fn open_splits_text_into_lines() {
    let doc = document("one\ntwo\nthree");
    assert_eq!(lines(&doc), vec!["one", "two", "three"]);
    assert_eq!(doc.filename().map(|name| name.as_str()), Some("notes.txt"));
}

#[test]
fn open_does_not_count_a_last_line_feed_as_a_line() {
    assert_eq!(lines(&document("one\ntwo\n")), vec!["one", "two"]);
}

#[test]
fn open_of_empty_text_has_no_lines() {
    let doc = document("");
    assert_eq!(doc.len(), 0);
    assert!(doc.is_empty());
}

#[test]
fn open_keeps_empty_lines() {
    assert_eq!(lines(&document("\n")), vec![""]);
    assert_eq!(lines(&document("a\n\nb")), vec!["a", "", "b"]);
}

#[test]
fn open_takes_carriage_return_and_line_feed_as_one_terminator() {
    assert_eq!(lines(&document("foo\nbar\n\r\nbaz\r")), vec!["foo", "bar", "", "baz\r"]);
    assert_eq!(lines(&document("a\r\r\nb")), vec!["a\r", "b"]);
}

#[test]
fn open_counts_clusters_of_each_line() {
    let doc = document("e\u{301}\nabc");
    assert_eq!(doc.row(0).unwrap().len(), 1);
    assert_eq!(doc.row(1).unwrap().len(), 3);
}

#[test]
fn open_of_a_failed_read_fails_with_its_error() {
    let failed = Document::open("missing.txt", Err(Error::from(ErrorKind::NotFound)));
    assert_eq!(failed.err().map(|error| error.kind()), Some(ErrorKind::NotFound));
    let failed = Document::open("secret.txt", Err(Error::from(ErrorKind::PermissionDenied)));
    assert_eq!(failed.err().map(|error| error.kind()), Some(ErrorKind::PermissionDenied));
}

#[test]
fn a_failed_open_leaves_another_document_alone() {
    let doc = document("one\ntwo");
    assert!(Document::open("missing.txt", Err(Error::from(ErrorKind::NotFound))).is_err());
    assert_eq!(lines(&doc), vec!["one", "two"]);
    assert_eq!(doc.filename().map(|name| name.as_str()), Some("notes.txt"));
}

#[test]
fn default_document_is_empty_and_unnamed() {
    let doc = Document::default();
    assert!(doc.is_empty());
    assert_eq!(doc.len(), 0);
    assert!(doc.filename().is_none());
    assert!(doc.row(0).is_none());
}

#[test]
fn row_past_the_end_is_absent() {
    let doc = document("one\ntwo");
    assert!(doc.row(1).is_some());
    assert!(doc.row(2).is_none());
    assert!(doc.row(usize::MAX).is_none());
    assert!(!doc.is_empty());
}

#[test]
fn set_filename_names_the_document() {
    let mut doc = Document::default();
    doc.set_filename(Some(String::from("new.txt")));
    assert_eq!(doc.filename().map(|name| name.as_str()), Some("new.txt"));
    doc.set_filename(None);
    assert!(doc.filename().is_none());
}

#[test]
fn insert_puts_a_character_into_a_line() {
    let mut doc = document("abcd\nef");
    doc.insert(&at(2, 0), 'x');
    assert_eq!(lines(&doc), vec!["abxcd", "ef"]);
    doc.insert(&at(9, 1), 'y');
    assert_eq!(lines(&doc), vec!["abxcd", "efy"]);
}

#[test]
fn insert_one_line_past_the_end_adds_a_line() {
    let mut doc = document("ab");
    doc.insert(&at(0, 1), 'x');
    assert_eq!(lines(&doc), vec!["ab", "x"]);
    doc.insert(&at(5, 2), 'y');
    assert_eq!(lines(&doc), vec!["ab", "x", "y"]);
}

#[test]
fn insert_into_empty_document() {
    let mut doc = Document::default();
    doc.insert(&at(0, 0), 'x');
    assert_eq!(lines(&doc), vec!["x"]);
}

#[test]
fn insert_of_line_feed_breaks_the_line() {
    let mut doc = document("abcd");
    doc.insert(&at(1, 0), '\n');
    assert_eq!(lines(&doc), vec!["a", "bcd"]);
}

#[test]
fn insert_of_line_feed_past_the_end_changes_nothing() {
    let mut doc = document("abcd");
    doc.insert(&at(0, 2), '\n');
    assert_eq!(lines(&doc), vec!["abcd"]);
}

#[test]
fn insert_new_line_splits_the_line() {
    let mut doc = document("abcd");
    doc.insert_new_line(&at(1, 0));
    assert_eq!(lines(&doc), vec!["a", "bcd"]);
}

#[test]
fn insert_new_line_at_start_and_end_of_a_line() {
    let mut doc = document("ab\ncd");
    doc.insert_new_line(&at(0, 0));
    assert_eq!(lines(&doc), vec!["", "ab", "cd"]);
    doc.insert_new_line(&at(2, 1));
    assert_eq!(lines(&doc), vec!["", "ab", "", "cd"]);
    doc.insert_new_line(&at(7, 3));
    assert_eq!(lines(&doc), vec!["", "ab", "", "cd", ""]);
}

#[test]
fn insert_new_line_one_past_the_end_adds_an_empty_line() {
    let mut doc = document("ab");
    doc.insert_new_line(&at(3, 1));
    assert_eq!(lines(&doc), vec!["ab", ""]);
}

#[test]
fn insert_new_line_further_down_changes_nothing() {
    let mut doc = document("ab");
    doc.insert_new_line(&at(0, 2));
    assert_eq!(lines(&doc), vec!["ab"]);
}

#[test]
fn insert_new_line_keeps_the_name() {
    let mut doc = document("ab");
    doc.insert_new_line(&at(1, 0));
    assert_eq!(doc.filename().map(|name| name.as_str()), Some("notes.txt"));
}

#[test]
fn delete_at_end_of_line_joins_the_next_line() {
    let mut doc = document("ab\ncd");
    doc.delete(&at(2, 0));
    assert_eq!(lines(&doc), vec!["abcd"]);
    assert_eq!(doc.row(0).unwrap().len(), 4);
}

#[test]
fn delete_in_a_line_removes_the_cluster() {
    let mut doc = document("ab\ncd");
    doc.delete(&at(0, 1));
    assert_eq!(lines(&doc), vec!["ab", "d"]);
}

#[test]
fn delete_at_end_of_last_line_changes_nothing() {
    let mut doc = document("ab\ncd");
    doc.delete(&at(2, 1));
    assert_eq!(lines(&doc), vec!["ab", "cd"]);
}

#[test]
fn delete_past_the_last_line_changes_nothing() {
    let mut doc = document("ab\ncd");
    doc.delete(&at(0, 2));
    assert_eq!(lines(&doc), vec!["ab", "cd"]);
    doc.delete(&at(0, usize::MAX));
    assert_eq!(lines(&doc), vec!["ab", "cd"]);
}

#[test]
fn delete_behind_the_end_of_a_line_changes_nothing() {
    let mut doc = document("ab\ncd");
    doc.delete(&at(3, 0));
    assert_eq!(lines(&doc), vec!["ab", "cd"]);
}

#[test]
fn delete_joins_an_empty_line() {
    let mut doc = document("\nab");
    doc.delete(&at(0, 0));
    assert_eq!(lines(&doc), vec!["ab"]);
}

#[test]
fn save_without_a_name_writes_nothing() {
    let mut doc = Document::default();
    doc.insert(&at(0, 0), 'x');
    assert_eq!(doc.save(), None);
}

#[test]
fn save_writes_each_line_with_a_line_feed() {
    assert_eq!(document("ab\ncd").save(), Some(b"ab\ncd\n".to_vec()));
    assert_eq!(document("ab\ncd\n").save(), Some(b"ab\ncd\n".to_vec()));
    assert_eq!(document("\u{e9}").save(), Some(vec![0xc3, 0xa9, 0x0a]));
}

#[test]
fn save_of_empty_document_writes_no_byte() {
    assert_eq!(document("").save(), Some(Vec::new()));
}

#[test]
fn save_then_open_gives_the_same_lines() {
    for text in ["", "\n", "ab", "ab\n\ncd", "e\u{301}\n\u{1F600}\n", "\n\n\n", " a \n\tb"] {
        let doc = document(text);
        let written = String::from_utf8(doc.save().unwrap()).unwrap();
        let again = Document::open("notes.txt", Ok(written)).unwrap();
        assert_eq!(lines(&again), lines(&doc));
    }
}

#[test]
fn save_then_open_after_edits_gives_the_same_lines() {
    let mut doc = document("abcd\nef");
    doc.insert(&at(2, 0), '\n');
    doc.insert(&at(0, 3), 'z');
    doc.delete(&at(0, 1));
    doc.insert_new_line(&at(0, 4));
    let written = String::from_utf8(doc.save().unwrap()).unwrap();
    let again = Document::open("notes.txt", Ok(written)).unwrap();
    assert_eq!(lines(&again), vec!["ab", "d", "ef", "z", ""]);
    assert_eq!(lines(&again), lines(&doc));
}
