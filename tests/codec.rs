use clippy_history::codec::{decode_history, encode_history, load_history, CodecError};
use clippy_history::history::History;

fn history_of(items: &[&str]) -> History {
    History::from_entries(items.iter().map(|s| s.to_string()).collect()).unwrap()
}

#[test]
fn empty_history_document() {
    assert_eq!(encode_history(&History::new()), "[]");
}

#[test]
fn history_document_is_ron() {
    let h = history_of(&["b", "a"]);
    assert_eq!(encode_history(&h), "[\"b\",\"a\"]");
}

#[test]
fn save_then_load_gives_history_back() {
    let h = history_of(&["quote \" and \\ backslash", "line\nbreak\ttab", "ünïcödé ✓", "'single'", "\u{0}nul"]);
    let doc = encode_history(&h);
    let back = decode_history(&doc).unwrap();
    assert_eq!(back.snapshot(), h.snapshot());
}

#[test]
fn decode_rejects_malformed_text() {
    assert_eq!(decode_history("not a history").err(), Some(CodecError::Malformed));
    assert_eq!(decode_history("").err(), Some(CodecError::Malformed));
    assert_eq!(decode_history("[1, 2]").err(), Some(CodecError::Malformed));
}

#[test]
fn decode_rejects_what_is_no_history() {
    assert_eq!(decode_history("[\"a\", \"a\"]").err(), Some(CodecError::NotAHistory));
    let many: Vec<String> = (0..101).map(|i| format!("\"{i}\"")).collect();
    let doc = format!("[{}]", many.join(","));
    assert_eq!(decode_history(&doc).err(), Some(CodecError::NotAHistory));
}

#[test]
fn decode_reads_spaced_document() {
    let h = decode_history(" [ \"x\" , \"y\" ]\n").unwrap();
    assert_eq!(h.snapshot(), vec!["x".to_string(), "y".to_string()]);
}

#[test]
fn load_falls_back_to_empty_history() {
    let (h, e) = load_history(None);
    assert_eq!(h.len(), 0);
    assert_eq!(e, None);
    let (h, e) = load_history(Some("{ broken"));
    assert_eq!(h.len(), 0);
    assert_eq!(e, Some(CodecError::Malformed));
    let (h, e) = load_history(Some("[\"kept\"]"));
    assert_eq!(h.snapshot(), vec!["kept".to_string()]);
    assert_eq!(e, None);
}

#[test]
fn load_reads_back_saved_document() {
    let h = history_of(&["newest", "with \"quotes\"", "oldest"]);
    let (loaded, problem) = load_history(Some(&encode_history(&h)));
    assert_eq!(problem, None);
    assert_eq!(loaded.snapshot(), h.snapshot());
}
