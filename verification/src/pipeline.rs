//! The whole preprocessing of one input: decoding, HTML cleaning, character
//! and word normalization.
use vstd::prelude::*;

use crate::cleaners;
use crate::cleaners::html::{HtmlCleaning, HtmlCleaningError};
use crate::normalizers;
use crate::normalizers::character::{CharNormalization, LINE_SEPARATOR};
use crate::normalizers::word::WordNormalization;
use crate::text::push_char;

verus! {

/// The options of every step.
#[derive(Debug, Clone)]
pub struct PreprocOpts {
    pub html_clean: HtmlCleaning,
    pub char_normalization: CharNormalization,
    pub word_normalization: WordNormalization,
}

impl Default for PreprocOpts {
    fn default() -> (r: PreprocOpts)
        ensures
            r.html_clean.enabled,
            r.html_clean.content_selector is None,
            r.html_clean.delete_selector@ == cleaners::html::DEFAULT_DELETE_SELECTOR@,
            r.html_clean.nl_append_selector@ == cleaners::html::DEFAULT_NL_APPEND_SELECTOR@,
            r.char_normalization.enabled,
            !r.char_normalization.keep_modifiers_and_marks,
            r.char_normalization.lowercase,
            r.word_normalization.enabled,
            r.word_normalization.replace_pii,
    {
        PreprocOpts {
            html_clean: HtmlCleaning::default(),
            char_normalization: CharNormalization::default(),
            word_normalization: WordNormalization::default(),
        }
    }
}

/// A copy of the options.
pub fn copy_opts(opts: &PreprocOpts) -> (r: PreprocOpts)
    ensures
        r == *opts,
{
    let content_selector = match &opts.html_clean.content_selector {
        Some(s) => Some(s.clone()),
        None => None,
    };
    PreprocOpts {
        html_clean: HtmlCleaning {
            enabled: opts.html_clean.enabled,
            content_selector,
            delete_selector: opts.html_clean.delete_selector.clone(),
            nl_append_selector: opts.html_clean.nl_append_selector.clone(),
        },
        char_normalization: opts.char_normalization,
        word_normalization: opts.word_normalization,
    }
}

/// Why the preprocessing of an input gave up.
#[derive(Debug, Clone, Copy, PartialEq, Eq)]
pub enum PreprocError {
    /// The input holds malformed sequences of its detected encoding.
    MalformedEncoding,
    /// The HTML cleaning step gave up.
    Html(HtmlCleaningError),
}

/// The steps after HTML cleaning, on the text that it left: character and
/// word normalization where enabled, and a final line break.
pub open spec fn spec_normalize(
    text: Seq<char>,
    char_opts: CharNormalization,
    word_opts: WordNormalization,
) -> Seq<char> {
    let chars = if char_opts.enabled {
        normalizers::character::spec_run(text, char_opts)
    } else {
        text
    };
    let words = if word_opts.enabled {
        normalizers::word::spec_run(chars, word_opts)
    } else {
        chars
    };
    words.push(LINE_SEPARATOR)
}

/// Each normalization runs exactly when its own option enables it, the
/// character step before the word step, and a line break ends the text.
pub proof fn lemma_normalize_steps(
    text: Seq<char>,
    char_opts: CharNormalization,
    word_opts: WordNormalization,
)
    ensures
        !char_opts.enabled && !word_opts.enabled ==> spec_normalize(text, char_opts, word_opts)
            == text.push(LINE_SEPARATOR),
        char_opts.enabled && !word_opts.enabled ==> spec_normalize(text, char_opts, word_opts)
            == normalizers::character::spec_run(text, char_opts).push(LINE_SEPARATOR),
        !char_opts.enabled && word_opts.enabled ==> spec_normalize(text, char_opts, word_opts)
            == normalizers::word::spec_run(text, word_opts).push(LINE_SEPARATOR),
        char_opts.enabled && word_opts.enabled ==> spec_normalize(text, char_opts, word_opts)
            == normalizers::word::spec_run(
            normalizers::character::spec_run(text, char_opts),
            word_opts,
        ).push(LINE_SEPARATOR),
{
}

/// With both normalizations disabled, the text only gains a final line break.
pub proof fn lemma_normalize_disabled(
    text: Seq<char>,
    char_opts: CharNormalization,
    word_opts: WordNormalization,
)
    requires
        !char_opts.enabled,
        !word_opts.enabled,
    ensures
        spec_normalize(text, char_opts, word_opts) == text.push(LINE_SEPARATOR),
{
}

/// Whatever the options, the normalized text ends with a line break.
pub proof fn lemma_normalize_ends_with_line_break(
    text: Seq<char>,
    char_opts: CharNormalization,
    word_opts: WordNormalization,
)
    ensures
        spec_normalize(text, char_opts, word_opts).len() > 0,
        spec_normalize(text, char_opts, word_opts).last() == LINE_SEPARATOR,
{
}

/// Character and word normalization where enabled, then a final line break.
pub fn normalize(text: String, char_opts: CharNormalization, word_opts: WordNormalization) -> (r:
    String)
    ensures
        r@ == spec_normalize(text@, char_opts, word_opts),
{
    let mut text = text;
    if char_opts.enabled {
        text = normalizers::character::run(text, char_opts);
    }
    if word_opts.enabled {
        text = normalizers::word::run(text, word_opts);
    }
    push_char(&mut text, LINE_SEPARATOR);
    text
}

/// The text of a result, taken by its view.
pub open spec fn spec_result_view(r: Result<String, PreprocError>) -> Result<Seq<char>, PreprocError> {
    match r {
        Ok(s) => Ok(s@),
        Err(e) => Err(e),
    }
}

/// What the preprocessing of raw input gives: `MalformedEncoding` where
/// it does not decode (see `spec_decoded`); with HTML cleaning on, the HTML
/// step's error where it fails (see `spec_html_result`); otherwise the
/// normalization of the decoded text, or of the HTML step's text.
pub open spec fn spec_pipeline(opts: PreprocOpts, raw: Seq<u8>) -> Result<Seq<char>, PreprocError> {
    match normalizers::encoding::spec_decoded(raw) {
        None => Err(PreprocError::MalformedEncoding),
        Some(text) => {
            let cleaned = if opts.html_clean.enabled {
                match cleaners::html::spec_html_result(text, opts.html_clean) {
                    Ok(t) => Ok(t),
                    Err(e) => Err(PreprocError::Html(e)),
                }
            } else {
                Ok(text)
            };
            match cleaned {
                Ok(t) => Ok(spec_normalize(t, opts.char_normalization, opts.word_normalization)),
                Err(e) => Err(e),
            }
        },
    }
}

/// The steps of the preprocessing: input that does not decode fails; with
/// HTML cleaning off the decoded text is normalized; with it on, the HTML
/// step's text is normalized, or its error comes through.
pub proof fn lemma_pipeline_steps(opts: PreprocOpts, raw: Seq<u8>)
    ensures
        match normalizers::encoding::spec_decoded(raw) {
            None => spec_pipeline(opts, raw) == Err::<Seq<char>, PreprocError>(
                PreprocError::MalformedEncoding,
            ),
            Some(text) => if !opts.html_clean.enabled {
                spec_pipeline(opts, raw) == Ok::<Seq<char>, PreprocError>(
                    spec_normalize(text, opts.char_normalization, opts.word_normalization),
                )
            } else {
                match cleaners::html::spec_html_result(text, opts.html_clean) {
                    Ok(t) => spec_pipeline(opts, raw) == Ok::<Seq<char>, PreprocError>(
                        spec_normalize(t, opts.char_normalization, opts.word_normalization),
                    ),
                    Err(e) => spec_pipeline(opts, raw) == Err::<Seq<char>, PreprocError>(
                        PreprocError::Html(e),
                    ),
                }
            },
        },
{
}

/// Every text the preprocessing gives ends with a line break.
pub proof fn lemma_pipeline_ends_with_line_break(opts: PreprocOpts, raw: Seq<u8>)
    ensures
        spec_pipeline(opts, raw) matches Ok(s) ==> s.len() > 0 && s.last() == LINE_SEPARATOR,
{
}

/// Preprocesses raw input: decodes it, cleans HTML where enabled, then
/// normalizes characters and words where enabled; the text ends with a line break.
pub fn run(opts: PreprocOpts, raw_text: &[u8]) -> (r: Result<String, PreprocError>)
    requires
        raw_text@.len() <= usize::MAX / 16,
    ensures
        spec_result_view(r) == spec_pipeline(opts, raw_text@),
{
    let text = match normalizers::encoding::checked_to_utf8(raw_text) {
        Some(text) => text,
        None => {
            return Err(PreprocError::MalformedEncoding);
        },
    };
    let ghost old_opts = opts;
    let PreprocOpts { html_clean, char_normalization, word_normalization } = opts;
    let text = if html_clean.enabled {
        match cleaners::html::run(text, html_clean) {
            Ok(cleaned) => cleaned,
            Err(e) => {
                return Err(PreprocError::Html(e));
            },
        }
    } else {
        text
    };
    let r = normalize(text, char_normalization, word_normalization);
    proof {
        assert(r@ == spec_normalize(text@, old_opts.char_normalization, old_opts.word_normalization));
    }
    Ok(r)
}

} // verus!
