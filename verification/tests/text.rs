use moka::common::text::same_text;

#[test]
fn same_text_compares_characters() {
    assert!(same_text("", ""));
    assert!(same_text("verbose", "verbose"));
    assert!(!same_text("verbose", "verbos"));
    assert!(!same_text("verbos", "verbose"));
    assert!(!same_text("module", "output"));
    assert!(!same_text("Module", "module"));
    assert!(!same_text("", "a"));
}

#[test]
fn same_text_compares_beyond_ascii() {
    assert!(same_text("modül", "modül"));
    assert!(!same_text("modül", "modul"));
    assert!(!same_text("é", "e\u{301}"));
    assert!(same_text("日本語", "日本語"));
    assert!(!same_text("日本語", "日本"));
}
