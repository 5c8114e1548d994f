use corpus_preproc::normalizers::encoding::{ascii_text, checked_to_utf8, to_utf8};

#[test]
fn ascii_decodes_to_itself() {
    assert_eq!(to_utf8(b"hello\x1b world"), "hello\u{1b} world");
    assert_eq!(ascii_text(b"abc"), "abc");
    assert_eq!(to_utf8(b""), "");
}

#[test]
fn utf8_is_detected() {
    assert_eq!(to_utf8("h\u{E9}llo w\u{F6}rld, \u{3053}\u{3093}\u{306B}\u{3061}\u{306F}".as_bytes()),
        "h\u{E9}llo w\u{F6}rld, \u{3053}\u{3093}\u{306B}\u{3061}\u{306F}");
}

#[test]
fn latin1_is_detected() {
    assert_eq!(checked_to_utf8(b"Le caf\xe9 est tr\xe8s bon"), Some("Le caf\u{E9} est tr\u{E8}s bon".to_string()));
}
