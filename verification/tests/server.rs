use corpus_preproc::pipeline::PreprocOpts;
use corpus_preproc::server::{check_field_header, has_prefix, route_field, FieldKind, FormState, FormStatus};

#[test]
fn header_needs_name_and_content_type() {
    assert_eq!(check_field_header(Some("data"), Some("text/plain")), Ok(()));
    assert_eq!(check_field_header(None, Some("text/plain")), Err(FormStatus::BadRequest));
    assert_eq!(check_field_header(Some("data"), None), Err(FormStatus::BadRequest));
}

#[test]
fn routes_fields() {
    assert_eq!(route_field("config", "application/json", true), Ok(FieldKind::Config));
    assert_eq!(route_field("config", "text/plain", true), Err(FormStatus::UnsupportedMediaType));
    assert_eq!(route_field("data", "text/html", true), Ok(FieldKind::Data));
    assert_eq!(route_field("data", "application/pdf", true), Err(FormStatus::UnsupportedMediaType));
    assert_eq!(route_field("other", "text/plain", true), Err(FormStatus::BadRequest));
    assert_eq!(route_field("data", "text/plain", false), Err(FormStatus::UnprocessableEntity));
}

#[test]
fn prefix_check() {
    assert!(has_prefix("text/plain", "text"));
    assert!(!has_prefix("tex", "text"));
}

#[test]
fn empty_form_has_no_content() {
    assert_eq!(FormState::new().finish(), Err(FormStatus::NoContent));
}

#[test]
fn data_fields_are_gathered_in_order() {
    let mut state = FormState::new();
    assert_eq!(state.push_data(b"<b>HELLo, WORLD!!!"), Ok(()));
    let mut opts = PreprocOpts::default();
    opts.char_normalization.lowercase = false;
    assert_eq!(state.set_options(Some(opts)), Ok(()));
    assert_eq!(state.push_data(b"Second TEXT."), Ok(()));
    assert_eq!(state.finish(), Ok("hello world\nSecond TEXT\n".to_string()));
}

#[test]
fn unparsed_options_are_refused() {
    let mut state = FormState::new();
    assert_eq!(state.set_options(None), Err(FormStatus::BadRequest));
}

#[test]
fn a_config_after_data_does_not_change_earlier_text() {
    let mut state = FormState::new();
    assert_eq!(state.push_data(b"Hello, World."), Ok(()));
    let mut opts = PreprocOpts::default();
    opts.char_normalization.enabled = false;
    opts.word_normalization.enabled = false;
    assert_eq!(state.set_options(Some(opts)), Ok(()));
    let expected = corpus_preproc::pipeline::run(PreprocOpts::default(), b"Hello, World.").unwrap();
    assert_eq!(state.finish(), Ok(expected));
}
