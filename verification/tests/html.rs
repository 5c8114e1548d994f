use corpus_preproc::cleaners::html::{run, HtmlCleaning, HtmlCleaningError};

#[test]
fn removes_deleted_elements_and_breaks_lines() {
    let text = "<p>Hello</p><script>var x;</script><ul><li>item</li></ul><p>World</p>".to_string();
    assert_eq!(run(text, HtmlCleaning::default()), Ok("Hello\nWorld\n".to_string()));
}

#[test]
fn content_selector_narrows_the_document() {
    let mut opts = HtmlCleaning::default();
    opts.content_selector = Some("#main".to_string());
    let text = "<div>menu</div><div id=\"main\"><p>Body</p></div>".to_string();
    assert_eq!(run(text, opts), Ok("Body\n".to_string()));
}

#[test]
fn content_selector_without_match() {
    let mut opts = HtmlCleaning::default();
    opts.content_selector = Some("article".to_string());
    assert_eq!(
        run("<p>x</p>".to_string(), opts),
        Err(HtmlCleaningError::ContentSelectorHadNoMatches)
    );
}

#[test]
fn invalid_selector() {
    let mut opts = HtmlCleaning::default();
    opts.delete_selector = "[[[".to_string();
    assert_eq!(run("<p>x</p>".to_string(), opts), Err(HtmlCleaningError::InvalidSelector));
}

#[test]
fn control_characters_are_removed_first() {
    let opts = HtmlCleaning::default();
    assert_eq!(run("<b>a\u{0}b</b>".to_string(), opts), Ok("ab".to_string()));
}

#[test]
fn invalid_selector_after_a_matching_content_selector() {
    let mut opts = HtmlCleaning::default();
    opts.content_selector = Some("p".to_string());
    opts.nl_append_selector = "p[".to_string();
    assert_eq!(run("<p>x</p>".to_string(), opts), Err(HtmlCleaningError::InvalidSelector));
}

#[test]
fn nested_deleted_elements_and_line_breaks() {
    let text = "<div>a<table><tr><td>t</td></tr></table>b</div><h1>T</h1>c".to_string();
    assert_eq!(run(text, HtmlCleaning::default()), Ok("ab\nT\nc".to_string()));
}
