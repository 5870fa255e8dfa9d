use clippy_history::history::{History, MAX_HISTORY_LENGTH};

fn texts(h: &History) -> Vec<String> {
    h.snapshot()
}

#[test]
fn insert_prepends_new_text() {
    let mut h = History::new();
    assert!(h.insert("first".to_string()));
    assert!(h.insert("second".to_string()));
    assert_eq!(texts(&h), vec!["second".to_string(), "first".to_string()]);
}

#[test]
fn insert_rejects_blank_text() {
    let mut h = History::new();
    assert!(!h.insert(String::new()));
    assert!(!h.insert("   \t\r\n".to_string()));
    assert!(!h.insert("\u{3000}\u{a0}".to_string()));
    assert!(h.is_empty());
    assert!(h.insert("  padded  ".to_string()));
    assert_eq!(h.get(0), "  padded  ");
}

#[test]
fn repeated_text_is_rejected_not_moved() {
    let mut h = History::new();
    assert!(h.insert("a".to_string()));
    assert!(h.insert("b".to_string()));
    assert!(!h.insert("a".to_string()));
    assert_eq!(texts(&h), vec!["b".to_string(), "a".to_string()]);
}

#[test]
fn same_text_twice_changes_history_once() {
    let mut h = History::new();
    h.insert("one".to_string());
    assert!(h.insert("x".to_string()));
    let after_first = texts(&h);
    assert!(!h.insert("x".to_string()));
    assert_eq!(texts(&h), after_first);
    assert_eq!(h.len(), 2);
}

#[test]
fn history_keeps_the_most_recent_hundred() {
    let mut h = History::new();
    for i in 0..101 {
        assert!(h.insert(format!("entry {i}")));
    }
    assert_eq!(h.len(), MAX_HISTORY_LENGTH);
    assert_eq!(h.get(0), "entry 100");
    assert_eq!(h.get(99), "entry 1");
    assert!(!h.contains(&"entry 0".to_string()));
    assert!(h.insert("entry 0".to_string()));
    assert_eq!(h.len(), 100);
    assert_eq!(h.get(99), "entry 2");
}

#[test]
fn clear_empties_history() {
    let mut h = History::new();
    h.insert("a".to_string());
    h.insert("b".to_string());
    h.clear();
    assert_eq!(h.len(), 0);
    assert!(h.insert("a".to_string()));
}

#[test]
fn from_entries_accepts_only_histories() {
    let ok = History::from_entries(vec!["x".to_string(), "y".to_string()]).unwrap();
    assert_eq!(texts(&ok), vec!["x".to_string(), "y".to_string()]);
    assert!(History::from_entries(vec!["x".to_string(), "y".to_string(), "x".to_string()]).is_none());
    let many: Vec<String> = (0..101).map(|i| i.to_string()).collect();
    assert!(History::from_entries(many).is_none());
    let hundred: Vec<String> = (0..100).map(|i| i.to_string()).collect();
    assert_eq!(History::from_entries(hundred).unwrap().len(), 100);
}
