use zidian::cursor::{move_next, move_previous};
use zidian::load::{load_entries, LoadError};
use zidian::session::{Browser, Control, Key};

const ONE_ENTRY: &str = r#"[{"word":"爱","oldword":"愛","strokes":"10","pinyin":"ài","radicals":"心","explanation":"to love","more":""}]"#;

const THREE_ENTRIES: &str = r#"[{"word":"一","pinyin":"yī"},{"word":"二","pinyin":"èr"},{"word":"三","pinyin":"sān"}]"#;

#[test]
fn next_wraps_forward() {
    assert_eq!(move_next(Some(2), 3), Some(0));
    assert_eq!(move_next(Some(0), 3), Some(1));
    assert_eq!(move_next(None, 3), Some(0));
    assert_eq!(move_next(Some(0), 1), Some(0));
}

#[test]
fn previous_wraps_backward() {
    assert_eq!(move_previous(Some(0), 3), Some(2));
    assert_eq!(move_previous(Some(2), 3), Some(1));
    assert_eq!(move_previous(None, 3), Some(0));
    assert_eq!(move_previous(Some(0), 1), Some(0));
}

#[test]
fn empty_list_keeps_cursor_unset() {
    assert_eq!(move_next(None, 0), None);
    assert_eq!(move_previous(None, 0), None);
}

#[test]
fn movement_stays_in_range() {
    for len in 1..6usize {
        let mut cases: Vec<Option<usize>> = vec![None];
        for i in 0..len {
            cases.push(Some(i));
        }
        for c in cases {
            let n = move_next(c, len).unwrap();
            assert!(n < len);
            let p = move_previous(c, len).unwrap();
            assert!(p < len);
        }
    }
}

#[test]
fn round_trip_entry() {
    let entries = load_entries(ONE_ENTRY).unwrap();
    assert_eq!(entries.len(), 1);
    assert_eq!(entries[0].simplified, "爱");
    assert_eq!(entries[0].traditional, "愛");
    assert_eq!(entries[0].strokes, "10");
    assert_eq!(entries[0].pinyin, "ài");
    assert_eq!(entries[0].radical, "心");
    assert_eq!(entries[0].explanation, "to love");
    assert_eq!(entries[0].extra, "");
}

#[test]
fn loading_twice_gives_equal_entries() {
    let a = load_entries(THREE_ENTRIES).unwrap();
    let b = load_entries(THREE_ENTRIES).unwrap();
    assert_eq!(a.len(), b.len());
    for i in 0..a.len() {
        assert!(a[i] == b[i]);
    }
}

#[test]
fn missing_fields_default_to_empty() {
    let entries = load_entries(r#"[{"word":"一"},{}]"#).unwrap();
    assert_eq!(entries.len(), 2);
    assert_eq!(entries[0].simplified, "一");
    assert_eq!(entries[0].traditional, "");
    assert_eq!(entries[0].strokes, "");
    assert_eq!(entries[0].pinyin, "");
    assert_eq!(entries[0].radical, "");
    assert_eq!(entries[0].explanation, "");
    assert_eq!(entries[0].extra, "");
    assert_eq!(entries[1].simplified, "");
    assert_eq!(entries[1].extra, "");
}

#[test]
fn unknown_text_fields_are_ignored() {
    let entries = load_entries(r#"[{"word":"一","tone":"1"}]"#).unwrap();
    assert_eq!(entries.len(), 1);
    assert_eq!(entries[0].simplified, "一");
    assert_eq!(entries[0].pinyin, "");
}

#[test]
fn malformed_text_is_rejected() {
    assert!(matches!(load_entries("not json"), Err(LoadError::Malformed)));
    assert!(matches!(load_entries(r#"{"word":"一"}"#), Err(LoadError::Malformed)));
    assert!(matches!(load_entries(r#"[{"word":1}]"#), Err(LoadError::Malformed)));
    assert!(matches!(load_entries("[3]"), Err(LoadError::Malformed)));
    assert!(matches!(load_entries(""), Err(LoadError::Malformed)));
}

#[test]
fn empty_document_loads_and_renders() {
    let entries = load_entries("[]").unwrap();
    assert_eq!(entries.len(), 0);
    let mut b = Browser::new(entries);
    let fc = b.render_content();
    assert_eq!(fc.labels.len(), 0);
    assert_eq!(fc.highlighted, None);
    assert_eq!(fc.detail.simplified, "");
    assert_eq!(fc.detail.explanation, "");
    assert_eq!(b.handle_key(Key::Down), Control::Running);
    assert_eq!(b.cursor, None);
    assert_eq!(b.handle_key(Key::Up), Control::Running);
    assert_eq!(b.cursor, None);
}

#[test]
fn navigation_scenario() {
    let entries = load_entries(THREE_ENTRIES).unwrap();
    let mut b = Browser::new(entries);
    assert_eq!(b.cursor, None);
    b.handle_key(Key::Down);
    assert_eq!(b.cursor, Some(0));
    b.handle_key(Key::Down);
    b.handle_key(Key::Down);
    assert_eq!(b.cursor, Some(2));
    b.handle_key(Key::Down);
    assert_eq!(b.cursor, Some(0));
    b.handle_key(Key::Up);
    assert_eq!(b.cursor, Some(2));
    let fc = b.render_content();
    assert_eq!(fc.highlighted, Some(2));
    assert_eq!(fc.detail.simplified, "三");
    assert_eq!(fc.detail.pinyin, "sān");
}

#[test]
fn labels_follow_list_order() {
    let entries = load_entries(THREE_ENTRIES).unwrap();
    let b = Browser::new(entries);
    let fc = b.render_content();
    assert_eq!(fc.labels, vec!["一".to_string(), "二".to_string(), "三".to_string()]);
}

#[test]
fn quit_key_exits() {
    let entries = load_entries(ONE_ENTRY).unwrap();
    let mut b = Browser::new(entries);
    b.handle_key(Key::Down);
    let c = b.handle_key(Key::Char('q'));
    assert_eq!(c, Control::Exiting);
    assert_eq!(b.cursor, Some(0));
    assert_eq!(b.entries.len(), 1);
    assert_eq!(b.handle_key(Key::Char('x')), Control::Running);
    assert_eq!(b.cursor, Some(0));
    assert_eq!(b.handle_key(Key::Other), Control::Running);
    assert_eq!(b.cursor, Some(0));
}
