//! The decisions of the preprocessing service on a multipart form: which
//! fields it accepts, what it answers, and the text it gathers.
use vstd::prelude::*;

use crate::pipeline::{copy_opts, run as clean_text, PreprocError, PreprocOpts};
use crate::text::chars_of;

verus! {

/// The name of the form field that holds the options, as JSON.
pub const CONFIG_FIELD: &'static str = "config";

/// The name of the form field that holds a text to preprocess.
pub const DATA_FIELD: &'static str = "data";

/// The content type of the options field.
pub const JSON_CONTENT_TYPE: &'static str = "application/json";

/// The prefix of the content type of a data field.
pub const TEXT_CONTENT_TYPE_PREFIX: &'static str = "text";

/// The refusals of the service, each an HTTP status.
#[derive(Debug, Clone, Copy, PartialEq, Eq)]
pub enum FormStatus {
    /// 400: a field without a name or a content type, an unknown field, or
    /// options that do not parse.
    BadRequest,
    /// 422: the content of a field could not be read.
    UnprocessableEntity,
    /// 415: a field whose content type does not fit its name.
    UnsupportedMediaType,
    /// 204: no text was received.
    NoContent,
}

/// What a readable field holds.
#[derive(Debug, Clone, Copy, PartialEq, Eq)]
pub enum FieldKind {
    /// The options, to be parsed from JSON.
    Config,
    /// A text to preprocess.
    Data,
}

/// The decision on a field from its name and content type, before its
/// content is read: both must be present.
pub open spec fn spec_check_header(name: Option<Seq<char>>, content_type: Option<Seq<char>>) -> Result<
    (),
    FormStatus,
> {
    if name is None || content_type is None {
        Err(FormStatus::BadRequest)
    } else {
        Ok(())
    }
}

/// The decision on a field once its content was read or failed to be read.
pub open spec fn spec_route(name: Seq<char>, content_type: Seq<char>, content_read: bool) -> Result<
    FieldKind,
    FormStatus,
> {
    if !content_read {
        Err(FormStatus::UnprocessableEntity)
    } else if name == CONFIG_FIELD@ {
        if content_type == JSON_CONTENT_TYPE@ {
            Ok(FieldKind::Config)
        } else {
            Err(FormStatus::UnsupportedMediaType)
        }
    } else if name == DATA_FIELD@ {
        if TEXT_CONTENT_TYPE_PREFIX@.is_prefix_of(content_type) {
            Ok(FieldKind::Data)
        } else {
            Err(FormStatus::UnsupportedMediaType)
        }
    } else {
        Err(FormStatus::BadRequest)
    }
}

/// How a readable field is routed: a field whose content could not be read
/// is refused with 422; the field "config" holds options exactly where its
/// content type is "application/json", otherwise 415; the field "data" holds a
/// text exactly where its content type begins with "text", otherwise 415; any
/// other field is refused with 400.
pub proof fn lemma_route_table(name: Seq<char>, content_type: Seq<char>, content_read: bool)
    ensures
        !content_read ==> spec_route(name, content_type, content_read) == Err::<FieldKind, FormStatus>(
            FormStatus::UnprocessableEntity,
        ),
        content_read && name == "config"@ ==> spec_route(name, content_type, content_read) == if content_type
            == "application/json"@ {
            Ok::<FieldKind, FormStatus>(FieldKind::Config)
        } else {
            Err::<FieldKind, FormStatus>(FormStatus::UnsupportedMediaType)
        },
        content_read && name == "data"@ ==> spec_route(name, content_type, content_read) == if "text"@.is_prefix_of(
            content_type,
        ) {
            Ok::<FieldKind, FormStatus>(FieldKind::Data)
        } else {
            Err::<FieldKind, FormStatus>(FormStatus::UnsupportedMediaType)
        },
        content_read && name != "config"@ && name != "data"@ ==> spec_route(
            name,
            content_type,
            content_read,
        ) == Err::<FieldKind, FormStatus>(FormStatus::BadRequest),
{
    reveal_strlit("config");
    reveal_strlit("data");
    reveal_strlit("application/json");
    reveal_strlit("text");
    assert(CONFIG_FIELD@ == "config"@);
    assert(DATA_FIELD@ == "data"@);
    assert(JSON_CONTENT_TYPE@ == "application/json"@);
    assert(TEXT_CONTENT_TYPE_PREFIX@ == "text"@);
}

/// Whether `s` is equal to `t`.
fn same_text(s: &str, t: &str) -> (r: bool)
    ensures
        r == (s@ == t@),
{
    let a = s.to_string();
    let b = t.to_string();
    a == b
}

/// Whether `prefix` is a prefix of `s`.
pub fn has_prefix(s: &str, prefix: &str) -> (r: bool)
    ensures
        r == prefix@.is_prefix_of(s@),
{
    let sc = chars_of(s);
    let pc = chars_of(prefix);
    if pc.len() > sc.len() {
        return false;
    }
    let mut i: usize = 0;
    while i < pc.len()
        invariant
            i <= pc@.len() <= sc@.len(),
            sc@ == s@,
            pc@ == prefix@,
            forall|k: int| 0 <= k < i ==> pc@[k] == sc@[k],
        decreases pc.len() - i,
    {
        if pc[i] != sc[i] {
            return false;
        }
        i = i + 1;
    }
    proof {
        assert(prefix@ == s@.subrange(0, prefix@.len() as int));
    }
    true
}

/// Checks a field's name and content type before its content is read.
pub fn check_field_header(name: Option<&str>, content_type: Option<&str>) -> (r: Result<
    (),
    FormStatus,
>)
    ensures
        r == spec_check_header(
            match name {
                Some(n) => Some(n@),
                None => None,
            },
            match content_type {
                Some(t) => Some(t@),
                None => None,
            },
        ),
{
    if name.is_none() || content_type.is_none() {
        Err(FormStatus::BadRequest)
    } else {
        Ok(())
    }
}

/// Decides what a field holds from its name, its content type and whether
/// its content could be read.
pub fn route_field(name: &str, content_type: &str, content_read: bool) -> (r: Result<
    FieldKind,
    FormStatus,
>)
    ensures
        r == spec_route(name@, content_type@, content_read),
{
    if !content_read {
        return Err(FormStatus::UnprocessableEntity);
    }
    if same_text(name, CONFIG_FIELD) {
        if same_text(content_type, JSON_CONTENT_TYPE) {
            Ok(FieldKind::Config)
        } else {
            Err(FormStatus::UnsupportedMediaType)
        }
    } else if same_text(name, DATA_FIELD) {
        if has_prefix(content_type, TEXT_CONTENT_TYPE_PREFIX) {
            Ok(FieldKind::Data)
        } else {
            Err(FormStatus::UnsupportedMediaType)
        }
    } else {
        Err(FormStatus::BadRequest)
    }
}

/// What the service has gathered from a form so far: the preprocessed text
/// of the data fields, and the options for the next ones.
pub struct FormState {
    pub text: String,
    pub options: PreprocOpts,
}

impl FormState {
    /// Nothing gathered yet; the default options.
    pub fn new() -> (r: FormState)
        ensures
            r.text@ == Seq::<char>::empty(),
            r.options.html_clean.enabled,
            r.options.html_clean.content_selector is None,
            r.options.html_clean.delete_selector@
                == crate::cleaners::html::DEFAULT_DELETE_SELECTOR@,
            r.options.html_clean.nl_append_selector@
                == crate::cleaners::html::DEFAULT_NL_APPEND_SELECTOR@,
            r.options.char_normalization.enabled,
            !r.options.char_normalization.keep_modifiers_and_marks,
            r.options.char_normalization.lowercase,
            r.options.word_normalization.enabled,
            r.options.word_normalization.replace_pii,
    {
        FormState { text: String::new(), options: PreprocOpts::default() }
    }

    /// Takes the outcome of parsing a config field: the options for the
    /// following data fields, or a refusal where they did not parse.
    pub fn set_options(&mut self, parsed: Option<PreprocOpts>) -> (r: Result<(), FormStatus>)
        ensures
            final(self).text@ == old(self).text@,
            match parsed {
                Some(opts) => r is Ok && final(self).options == opts,
                None => r == Err::<(), FormStatus>(FormStatus::BadRequest) && final(self).options
                    == old(self).options,
            },
    {
        match parsed {
            Some(opts) => {
                self.options = opts;
                Ok(())
            },
            None => Err(FormStatus::BadRequest),
        }
    }

    /// Preprocesses the content of a data field with the current options and
    /// appends the result to the text.
    pub fn push_data(&mut self, data: &[u8]) -> (r: Result<(), PreprocError>)
        requires
            data@.len() <= usize::MAX / 16,
        ensures
            final(self).options == old(self).options,
            match crate::pipeline::spec_pipeline(old(self).options, data@) {
                Ok(cleaned) => r is Ok && final(self).text@ == old(self).text@ + cleaned,
                Err(e) => r == Err::<(), PreprocError>(e) && final(self).text@ == old(self).text@,
            },
    {
        let opts = copy_opts(&self.options);
        match clean_text(opts, data) {
            Ok(cleaned) => {
                self.text.append(cleaned.as_str());
                Ok(())
            },
            Err(e) => Err(e),
        }
    }

    /// The answer to the whole form: the gathered text, or a refusal where
    /// it is empty.
    pub fn finish(self) -> (r: Result<String, FormStatus>)
        ensures
            self.text@.len() == 0 ==> r == Err::<String, FormStatus>(FormStatus::NoContent),
            self.text@.len() > 0 ==> (r matches Ok(s) && s@ == self.text@),
    {
        if self.text.as_str().is_empty() {
            Err(FormStatus::NoContent)
        } else {
            Ok(self.text)
        }
    }
}

} // verus!
