use corpus_preproc::ucd::{
    combining_mark, control, modifier, number, paragraph_separator, punctuation, word_separator,
};

#[test]
fn word_separators_are_white_space_and_segment_separators() {
    assert!(word_separator(' '));
    assert!(word_separator('\t'));
    assert!(word_separator('\u{B}'));
    assert!(word_separator('\u{C}'));
    assert!(word_separator('\u{3000}'));
    assert!(word_separator('\u{2028}'));
    assert!(!word_separator('\n'));
    assert!(!word_separator('a'));
}

#[test]
fn paragraph_separators() {
    assert!(paragraph_separator('\n'));
    assert!(paragraph_separator('\r'));
    assert!(paragraph_separator('\u{85}'));
    assert!(paragraph_separator('\u{2029}'));
    assert!(!paragraph_separator(' '));
}

#[test]
fn control_excludes_separators() {
    assert!(control('\u{0}'));
    assert!(control('\u{7}'));
    assert!(control('\u{C}'));
    assert!(control('\u{7F}'));
    assert!(control('\u{9F}'));
    assert!(!control('\n'));
    assert!(!control('\t'));
    assert!(!control('\u{1F}'));
    assert!(!control('\u{85}'));
    assert!(!control('a'));
}

#[test]
fn modifiers_marks_punctuation_numbers() {
    assert!(modifier('^'));
    assert!(modifier('`'));
    assert!(!modifier('a'));
    assert!(combining_mark('\u{301}'));
    assert!(combining_mark('\u{20DD}'));
    assert!(!combining_mark('e'));
    assert!(punctuation('!'));
    assert!(punctuation('\u{AB}'));
    assert!(!punctuation('+'));
    assert!(number('5'));
    assert!(number('\u{2167}'));
    assert!(!number('x'));
}
