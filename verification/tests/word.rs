use corpus_preproc::normalizers::word::{
    has_alphabetic, non_word_matcher, normalize_word, run, split_tokens, trim_word, WordNormalization,
    PLACEHOLDER,
};

#[test]
fn trim_word_removes_surrounding_punctuation() {
    assert_eq!(trim_word("\"hello!\""), "hello");
    assert_eq!(trim_word("can't"), "can't");
    assert_eq!(trim_word("..."), "");
    assert_eq!(trim_word(""), "");
}

#[test]
fn has_alphabetic_finds_letters() {
    assert!(has_alphabetic("abc1"));
    assert!(!has_alphabetic("2020"));
}

#[test]
fn normalize_word_replaces_odd_words() {
    let m = non_word_matcher();
    assert!(m.is_some());
    assert_eq!(normalize_word("2020", true, &m), Some(PLACEHOLDER.to_string()));
    assert_eq!(normalize_word("2020", false, &m), Some("2020".to_string()));
    assert_eq!(normalize_word("a@b", true, &m), Some("<unk>".to_string()));
    assert_eq!(normalize_word("http://x", true, &m), Some("<unk>".to_string()));
    assert_eq!(normalize_word("'word'", true, &m), Some("word".to_string()));
    assert_eq!(normalize_word("--", true, &m), None);
}

#[test]
fn run_puts_one_sentence_per_line() {
    let opts = WordNormalization { enabled: true, replace_pii: true };
    assert_eq!(
        run("Hello, world! It's 2020.".to_string(), opts),
        "Hello world\nIt's <unk>"
    );
}

#[test]
fn run_without_replacement_keeps_numbers() {
    let opts = WordNormalization { enabled: true, replace_pii: false };
    assert_eq!(run("It's 2020.".to_string(), opts), "It's 2020");
}

#[test]
fn run_on_text_without_words() {
    let opts = WordNormalization::default();
    assert_eq!(run("... !!!".to_string(), opts), "");
    assert_eq!(run(String::new(), opts), "");
}

#[test]
fn split_tokens_keeps_empty_pieces() {
    assert_eq!(split_tokens("a  b\nc"), vec!["a", "", "b", "c"]);
    assert_eq!(split_tokens(""), vec![""]);
    assert_eq!(split_tokens("x "), vec!["x", ""]);
}

#[test]
fn at_signs_and_urls_become_placeholders() {
    let opts = WordNormalization { enabled: true, replace_pii: true };
    assert_eq!(run("Mail me@x.org or see http://x.com now.".to_string(), opts), "Mail <unk> or see <unk> now");
}

#[test]
fn inner_punctuation_stays_in_words() {
    let opts = WordNormalization { enabled: true, replace_pii: true };
    assert_eq!(run("A state-of-the-art (tool).".to_string(), opts), "A state-of-the-art tool");
}

#[test]
fn replacement_changes_only_odd_words() {
    let text = "Call 555-1234 or me@x.org, said Bob. Then 42!";
    let off = run(text.to_string(), WordNormalization { enabled: true, replace_pii: false });
    let on = run(text.to_string(), WordNormalization { enabled: true, replace_pii: true });
    assert_eq!(off, "Call 555-1234 or me@x.org said Bob\nThen 42");
    assert_eq!(on, "Call <unk> or <unk> said Bob\nThen <unk>");
}
