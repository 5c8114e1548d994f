use corpus_preproc::normalizers::character::{
    char_filter, clean_control, filter_chars, run, CharNormalization, LINE_SEPARATOR,
    WORD_SEPARATOR,
};

#[test]
fn clean_control_removes_control_characters() {
    assert_eq!(clean_control("a\u{0}b\u{7}c\nd\te".to_string()), "abc\nd\te");
}

#[test]
fn clean_control_is_idempotent() {
    let once = clean_control("x\u{1}\u{C}y\u{9F}z".to_string());
    assert_eq!(once, "xyz");
    assert_eq!(clean_control(once.clone()), once);
}

#[test]
fn char_filter_maps_separators() {
    assert_eq!(char_filter(false, '\u{2003}'), Some(WORD_SEPARATOR));
    assert_eq!(char_filter(false, '\t'), Some(' '));
    assert_eq!(char_filter(false, '\u{2029}'), Some(LINE_SEPARATOR));
    assert_eq!(char_filter(false, '\r'), Some('\n'));
    assert_eq!(char_filter(false, '\u{1}'), None);
    assert_eq!(char_filter(false, '\u{301}'), None);
    assert_eq!(char_filter(false, '^'), None);
    assert_eq!(char_filter(true, '\u{301}'), Some('\u{301}'));
    assert_eq!(char_filter(true, '^'), Some('^'));
    assert_eq!(char_filter(false, 'a'), Some('a'));
}

#[test]
fn filter_chars_is_idempotent() {
    let once = filter_chars("a\u{301}\tb\r\nc\u{0}", false);
    assert_eq!(once, "a b\n\nc");
    assert_eq!(filter_chars(&once, false), once);
}

#[test]
fn run_folds_compatibility_characters_and_case() {
    let opts = CharNormalization { enabled: true, keep_modifiers_and_marks: false, lowercase: true };
    assert_eq!(run("\u{FB01}NE Caf\u{E9}".to_string(), opts), "fine cafe");
}

#[test]
fn run_keeps_marks_and_case_when_asked() {
    let opts = CharNormalization { enabled: true, keep_modifiers_and_marks: true, lowercase: false };
    assert_eq!(run("Caf\u{E9}\u{2003}\u{2460}".to_string(), opts), "Caf\u{E9} 1");
}

#[test]
fn default_char_normalization() {
    let opts = CharNormalization::default();
    assert!(opts.enabled);
    assert!(!opts.keep_modifiers_and_marks);
    assert!(opts.lowercase);
}
