use privatewhisper::inject::{normalize, paste_text};

#[test]
fn trims_surrounding_whitespace() {
    assert_eq!(normalize("  привет мир \n"), "привет мир");
}

#[test]
fn empty_or_whitespace_becomes_empty() {
    assert_eq!(normalize("   \n\t"), "");
}

#[test]
fn inner_whitespace_is_kept() {
    assert_eq!(normalize("\u{3000}a  b\u{a0}"), "a  b");
    assert_eq!(normalize("word"), "word");
}

#[test]
fn normalize_is_idempotent_on_examples() {
    for s in ["  x y  ", "\n\t", "", "ü \u{2028}"] {
        let once = normalize(s);
        assert_eq!(normalize(&once), once);
    }
}

#[test]
fn blank_transcription_pastes_nothing() {
    assert_eq!(paste_text(" \r\n "), None);
    assert_eq!(paste_text(" hello "), Some("hello".to_string()));
}
