use corpus_preproc::normalizers::character::CharNormalization;
use corpus_preproc::normalizers::word::WordNormalization;
use corpus_preproc::pipeline::{normalize, run, PreprocError, PreprocOpts};
use corpus_preproc::cleaners::html::HtmlCleaningError;

#[test]
fn readme_example() {
    assert_eq!(run(PreprocOpts::default(), b"<b>HELLo, WORLD!!!"), Ok("hello world\n".to_string()));
}

#[test]
fn all_steps_disabled_adds_a_line_break() {
    let mut opts = PreprocOpts::default();
    opts.html_clean.enabled = false;
    opts.char_normalization.enabled = false;
    opts.word_normalization.enabled = false;
    assert_eq!(run(opts, b"<b>Raw</b>"), Ok("<b>Raw</b>\n".to_string()));
}

#[test]
fn normalize_runs_character_then_word_steps() {
    let c = CharNormalization::default();
    let w = WordNormalization::default();
    assert_eq!(normalize("\u{FB01}SH, E\u{301}T\u{C9}.".to_string(), c, w), "fish ete\n");
}

#[test]
fn html_errors_come_through() {
    let mut opts = PreprocOpts::default();
    opts.html_clean.content_selector = Some("nav".to_string());
    assert_eq!(
        run(opts, b"<p>x</p>"),
        Err(PreprocError::Html(HtmlCleaningError::ContentSelectorHadNoMatches))
    );
}
