//! Character-level normalization: control characters, separators, marks and case.
use unicode_normalization::UnicodeNormalization;
use vstd::prelude::*;

use crate::text::{push_char, to_lowercase};
use crate::ucd::{combining_mark, control, modifier, paragraph_separator, word_separator};

verus! {

/// Options of the character normalization step.
#[derive(Debug, Clone, Copy)]
pub struct CharNormalization {
    /// Whether the step runs at all.
    pub enabled: bool,
    /// Keep modifier symbols and combining marks instead of dropping them.
    pub keep_modifiers_and_marks: bool,
    /// Fold the text to lower case.
    pub lowercase: bool,
}

impl Default for CharNormalization {
    fn default() -> (r: CharNormalization)
        ensures
            r.enabled,
            !r.keep_modifiers_and_marks,
            r.lowercase,
    {
        CharNormalization { enabled: true, keep_modifiers_and_marks: false, lowercase: true }
    }
}

/// The character that ends a line (a sentence, or a paragraph).
pub const LINE_SEPARATOR: char = '\n';

/// The character that separates two words.
pub const WORD_SEPARATOR: char = ' ';

/// Words are separated by a space, lines by a line feed.
pub proof fn lemma_separator_characters()
    ensures
        WORD_SEPARATOR == ' ',
        LINE_SEPARATOR == '\n',
        WORD_SEPARATOR as u32 == 0x20,
        LINE_SEPARATOR as u32 == 0x0A,
{
}

/// What the filter makes of one character: every word separator becomes a
/// space, every paragraph separator a line break; control characters are
/// dropped, and so are modifier symbols and combining marks unless they are kept.
pub open spec fn spec_char_filter(keep_modifiers_and_marks: bool, c: char) -> Option<char> {
    if crate::ucd::spec_word_separator(c) {
        Some(WORD_SEPARATOR)
    } else if crate::ucd::spec_paragraph_separator(c) {
        Some(LINE_SEPARATOR)
    } else if crate::ucd::spec_control(c) {
        None
    } else if !keep_modifiers_and_marks && (crate::ucd::spec_modifier(c)
        || crate::ucd::spec_combining_mark(c)) {
        None
    } else {
        Some(c)
    }
}

/// The filter applied to every character of `text`, dropped characters left out.
pub open spec fn spec_filter_chars(text: Seq<char>, keep_modifiers_and_marks: bool) -> Seq<char> {
    text.filter_map(|c: char| spec_char_filter(keep_modifiers_and_marks, c))
}

/// The compatibility decomposition (NFKD) of a text, as `unicode_normalization` computes it.
pub uninterp spec fn spec_nfkd(text: Seq<char>) -> Seq<char>;

/// The compatibility composition (NFKC) of a text, as `unicode_normalization` computes it.
pub uninterp spec fn spec_nfkc(text: Seq<char>) -> Seq<char>;

/// The result of the character normalization step on `text`.
pub open spec fn spec_run(text: Seq<char>, opts: CharNormalization) -> Seq<char> {
    let composed = spec_nfkc(spec_filter_chars(spec_nfkd(text), opts.keep_modifiers_and_marks));
    if opts.lowercase {
        crate::text::spec_to_lowercase(composed)
    } else {
        composed
    }
}

/// `UnicodeNormalization::nfkd` of `unicode_normalization`, collected into a
/// string: the contract names the result and claims that it depends on the text alone.
#[verifier::external_body]
fn nfkd(text: &str) -> (r: String)
    ensures
        r@ == spec_nfkd(text@),
{
    text.nfkd().collect::<String>()
}

/// `UnicodeNormalization::nfkc` of `unicode_normalization`, collected into a
/// string: the contract names the result and claims that it depends on the text alone.
#[verifier::external_body]
fn nfkc(text: &str) -> (r: String)
    ensures
        r@ == spec_nfkc(text@),
{
    text.nfkc().collect::<String>()
}

/// Unless they are kept, the filter lets no modifier symbol, combining mark
/// or control character through.
pub proof fn lemma_char_filter_drops_marks(c: char)
    ensures
        spec_char_filter(false, c) matches Some(d) ==> !crate::ucd::spec_modifier(d)
            && !crate::ucd::spec_combining_mark(d) && !crate::ucd::spec_control(d),
{
}

/// The filter never lets a control character through, and it turns every
/// word separator into a space and every paragraph separator into a line break.
pub proof fn lemma_char_filter_separators(keep_modifiers_and_marks: bool, c: char)
    ensures
        spec_char_filter(keep_modifiers_and_marks, c) matches Some(d) ==> !crate::ucd::spec_control(d),
        crate::ucd::spec_word_separator(c) ==> spec_char_filter(keep_modifiers_and_marks, c)
            == Some(WORD_SEPARATOR),
        crate::ucd::spec_paragraph_separator(c) ==> spec_char_filter(keep_modifiers_and_marks, c)
            == Some(LINE_SEPARATOR),
{
}

/// Unless they are kept, the filtered text holds no modifier symbol,
/// combining mark or control character.
pub proof fn lemma_filter_chars_drops_marks(text: Seq<char>)
    ensures
        forall|i: int|
            #![trigger spec_filter_chars(text, false)[i]]
            0 <= i < spec_filter_chars(text, false).len() ==> {
                let d = spec_filter_chars(text, false)[i];
                !crate::ucd::spec_modifier(d) && !crate::ucd::spec_combining_mark(d)
                    && !crate::ucd::spec_control(d)
            },
{
    let f = |c: char| spec_char_filter(false, c);
    assert forall|i: int| 0 <= i < spec_filter_chars(text, false).len() implies {
        let d = #[trigger] spec_filter_chars(text, false)[i];
        !crate::ucd::spec_modifier(d) && !crate::ucd::spec_combining_mark(d)
            && !crate::ucd::spec_control(d)
    } by {
        let d = spec_filter_chars(text, false)[i];
        assert(text.filter_map(f).contains(d));
        text.lemma_filter_map_contains(f, d);
        let t = choose|t: char| #[trigger] text.contains(t) && f(t) == Some(d);
        lemma_char_filter_drops_marks(t);
    }
}

/// The filter keeps every other character as it is: one that separates
/// neither words nor paragraphs, is no control character, and (unless they
/// are kept anyway) no modifier symbol or combining mark.
pub proof fn lemma_char_filter_keeps_other_characters(keep_modifiers_and_marks: bool, c: char)
    ensures
        !crate::ucd::spec_word_separator(c) && !crate::ucd::spec_paragraph_separator(c)
            && !crate::ucd::spec_control(c) && !crate::ucd::spec_modifier(c)
            && !crate::ucd::spec_combining_mark(c) ==> spec_char_filter(keep_modifiers_and_marks, c)
            == Some(c),
        keep_modifiers_and_marks && !crate::ucd::spec_word_separator(c)
            && !crate::ucd::spec_paragraph_separator(c) && !crate::ucd::spec_control(c)
            ==> spec_char_filter(keep_modifiers_and_marks, c) == Some(c),
        !keep_modifiers_and_marks && !crate::ucd::spec_word_separator(c)
            && !crate::ucd::spec_paragraph_separator(c) && (crate::ucd::spec_modifier(c)
            || crate::ucd::spec_combining_mark(c)) ==> spec_char_filter(keep_modifiers_and_marks, c)
            is None,
        !crate::ucd::spec_word_separator(c) && !crate::ucd::spec_paragraph_separator(c)
            && crate::ucd::spec_control(c) ==> spec_char_filter(keep_modifiers_and_marks, c) is None,
{
}

/// A text of characters that the filter keeps as they are comes through the
/// filter unchanged.
pub proof fn lemma_filter_chars_keeps_plain_text(text: Seq<char>, keep_modifiers_and_marks: bool)
    requires
        forall|i: int|
            0 <= i < text.len() ==> {
                let c = #[trigger] text[i];
                !crate::ucd::spec_word_separator(c) && !crate::ucd::spec_paragraph_separator(c)
                    && !crate::ucd::spec_control(c) && !crate::ucd::spec_modifier(c)
                    && !crate::ucd::spec_combining_mark(c)
            },
    ensures
        spec_filter_chars(text, keep_modifiers_and_marks) == text,
    decreases text.len(),
{
    let f = |c: char| spec_char_filter(keep_modifiers_and_marks, c);
    if text.len() > 0 {
        let rest = text.drop_last();
        assert forall|i: int| 0 <= i < rest.len() implies {
            let c = #[trigger] rest[i];
            !crate::ucd::spec_word_separator(c) && !crate::ucd::spec_paragraph_separator(c)
                && !crate::ucd::spec_control(c) && !crate::ucd::spec_modifier(c)
                && !crate::ucd::spec_combining_mark(c)
        } by {
            assert(rest[i] == text[i]);
        }
        lemma_filter_chars_keeps_plain_text(rest, keep_modifiers_and_marks);
        let c = text.last();
        assert(text[text.len() - 1] == c);
        lemma_char_filter_keeps_other_characters(keep_modifiers_and_marks, c);
        assert(text.filter_map(f) == rest.filter_map(f) + seq![c]);
        assert(rest + seq![c] == text);
    } else {
        assert(text.filter_map(f) == Seq::<char>::empty());
    }
}

/// The filter works character by character: a concatenation is filtered
/// part by part, and one character as `char_filter` says.
pub proof fn lemma_filter_chars_by_character(
    a: Seq<char>,
    b: Seq<char>,
    c: char,
    keep_modifiers_and_marks: bool,
)
    ensures
        spec_filter_chars(a + b, keep_modifiers_and_marks) == spec_filter_chars(
            a,
            keep_modifiers_and_marks,
        ) + spec_filter_chars(b, keep_modifiers_and_marks),
        spec_filter_chars(seq![c], keep_modifiers_and_marks) == match spec_char_filter(
            keep_modifiers_and_marks,
            c,
        ) {
            Some(d) => seq![d],
            None => Seq::<char>::empty(),
        },
{
    crate::text::lemma_filter_map_add(a, b, |c: char| spec_char_filter(keep_modifiers_and_marks, c));
    Seq::lemma_filter_map_singleton(c, |c: char| spec_char_filter(keep_modifiers_and_marks, c));
}

/// Removing control characters works character by character: a
/// concatenation is cleaned part by part; one character is dropped exactly
/// where it is a control character.
pub proof fn lemma_clean_control_by_character(a: Seq<char>, b: Seq<char>, c: char)
    ensures
        spec_clean_control(a + b) == spec_clean_control(a) + spec_clean_control(b),
        crate::ucd::spec_control(c) ==> spec_clean_control(seq![c]) == Seq::<char>::empty(),
        !crate::ucd::spec_control(c) ==> spec_clean_control(seq![c]) == seq![c],
{
    Seq::filter_distributes_over_add(a, b, |c: char| !crate::ucd::spec_control(c));
    Seq::<char>::empty().lemma_filter_push(c, |c: char| !crate::ucd::spec_control(c));
    reveal(Seq::filter);
    assert(Seq::<char>::empty().push(c) == seq![c]);
    assert(Seq::<char>::empty().filter(|c: char| !crate::ucd::spec_control(c)) == Seq::<char>::empty());
}

/// The steps of character normalization: compatibility decomposition, the
/// filter, compatibility composition, then lower case only where asked.
pub proof fn lemma_run_steps(text: Seq<char>, opts: CharNormalization)
    ensures
        opts.lowercase ==> spec_run(text, opts) == crate::text::spec_to_lowercase(
            spec_nfkc(spec_filter_chars(spec_nfkd(text), opts.keep_modifiers_and_marks)),
        ),
        !opts.lowercase ==> spec_run(text, opts) == spec_nfkc(
            spec_filter_chars(spec_nfkd(text), opts.keep_modifiers_and_marks),
        ),
{
}

/// A text without control characters comes through `clean_control` unchanged.
pub proof fn lemma_clean_control_keeps_clean_text(text: Seq<char>)
    requires
        forall|i: int| 0 <= i < text.len() ==> !crate::ucd::spec_control(#[trigger] text[i]),
    ensures
        spec_clean_control(text) == text,
{
    lemma_filter_keeps_all(text, |c: char| !crate::ucd::spec_control(c));
}

/// The filter leaves what it let through as it is.
pub proof fn lemma_char_filter_fixes_output(keep_modifiers_and_marks: bool, c: char)
    ensures
        spec_char_filter(keep_modifiers_and_marks, c) matches Some(d) ==> spec_char_filter(
            keep_modifiers_and_marks,
            d,
        ) == Some(d),
{
}

/// Filtering a filtered text changes nothing.
pub proof fn lemma_filter_chars_idempotent(text: Seq<char>, keep_modifiers_and_marks: bool)
    ensures
        spec_filter_chars(spec_filter_chars(text, keep_modifiers_and_marks), keep_modifiers_and_marks)
            == spec_filter_chars(text, keep_modifiers_and_marks),
    decreases text.len(),
{
    let f = |c: char| spec_char_filter(keep_modifiers_and_marks, c);
    if text.len() > 0 {
        let rest = text.drop_last();
        lemma_filter_chars_idempotent(rest, keep_modifiers_and_marks);
        lemma_char_filter_fixes_output(keep_modifiers_and_marks, text.last());
        let once = rest.filter_map(f);
        match f(text.last()) {
            Some(d) => {
                assert(text.filter_map(f) == once + seq![d]);
                assert((once + seq![d]).drop_last() == once);
                assert((once + seq![d]).last() == d);
            },
            None => {
                assert(text.filter_map(f) == once);
            },
        }
    }
}

/// The filter of one character (see `spec_char_filter`).
pub fn char_filter(keep_modifiers_and_marks: bool, c: char) -> (r: Option<char>)
    ensures
        r == spec_char_filter(keep_modifiers_and_marks, c),
{
    if word_separator(c) {
        return Some(WORD_SEPARATOR);
    }
    if paragraph_separator(c) {
        return Some(LINE_SEPARATOR);
    }
    if control(c) {
        return None;
    }
    if !keep_modifiers_and_marks && (modifier(c) || combining_mark(c)) {
        return None;
    }
    Some(c)
}

/// Applies `char_filter` to every character of `text`.
pub fn filter_chars(text: &str, keep_modifiers_and_marks: bool) -> (r: String)
    ensures
        r@ == spec_filter_chars(text@, keep_modifiers_and_marks),
{
    let ghost f = |c: char| spec_char_filter(keep_modifiers_and_marks, c);
    let mut out = String::new();
    for c in it: text.chars()
        invariant
            it.seq() == text@,
            f == (|c: char| spec_char_filter(keep_modifiers_and_marks, c)),
            out@ == text@.take(it.index() as int).filter_map(f),
    {
        proof {
            text@.lemma_filter_map_take_succ(f, it.index() as int);
        }
        match char_filter(keep_modifiers_and_marks, c) {
            Some(d) => push_char(&mut out, d),
            None => {},
        }
    }
    proof {
        assert(text@.take(text@.len() as int) == text@);
    }
    out
}

/// Normalizes `text`: NFKD, the character filter, NFKC, and lower case if asked.
pub fn run(text: String, opts: CharNormalization) -> (r: String)
    ensures
        r@ == spec_run(text@, opts),
{
    let decomposed = nfkd(text.as_str());
    let filtered = filter_chars(decomposed.as_str(), opts.keep_modifiers_and_marks);
    let composed = nfkc(filtered.as_str());
    if opts.lowercase {
        to_lowercase(composed.as_str())
    } else {
        composed
    }
}

/// The text with every control character removed.
pub open spec fn spec_clean_control(text: Seq<char>) -> Seq<char> {
    text.filter(|c: char| !crate::ucd::spec_control(c))
}

/// The text with its control characters removed holds no control character.
pub proof fn lemma_clean_control_has_no_control(text: Seq<char>)
    ensures
        forall|i: int|
            0 <= i < spec_clean_control(text).len() ==> !crate::ucd::spec_control(
                #[trigger] spec_clean_control(text)[i],
            ),
{
    assert forall|i: int| 0 <= i < spec_clean_control(text).len() implies !crate::ucd::spec_control(
        #[trigger] spec_clean_control(text)[i],
    ) by {
        text.lemma_filter_pred(|c: char| !crate::ucd::spec_control(c), i);
    }
}

proof fn lemma_filter_keeps_all(s: Seq<char>, pred: spec_fn(char) -> bool)
    requires
        forall|i: int| 0 <= i < s.len() ==> pred(#[trigger] s[i]),
    ensures
        s.filter(pred) == s,
    decreases s.len(),
{
    reveal(Seq::filter);
    if s.len() > 0 {
        lemma_filter_keeps_all(s.drop_last(), pred);
        assert(s.drop_last().push(s.last()) == s);
    }
}

/// Removing control characters twice removes no more than removing them once.
pub proof fn lemma_clean_control_idempotent(text: Seq<char>)
    ensures
        spec_clean_control(spec_clean_control(text)) == spec_clean_control(text),
{
    lemma_clean_control_has_no_control(text);
    lemma_filter_keeps_all(spec_clean_control(text), |c: char| !crate::ucd::spec_control(c));
}

/// Removes the control characters (general category Cc, except paragraph and
/// segment separators) from `text`.
pub fn clean_control(text: String) -> (r: String)
    ensures
        r@ == spec_clean_control(text@),
{
    let mut out = String::new();
    for c in it: text.chars()
        invariant
            it.seq() == text@,
            out@ == spec_clean_control(text@.take(it.index() as int)),
    {
        proof {
            assert(text@.take(it.index() + 1) == text@.take(it.index() as int).push(c));
            text@.take(it.index() as int).lemma_filter_push(c, |c: char| !crate::ucd::spec_control(c));
        }
        if !control(c) {
            push_char(&mut out, c);
        }
    }
    proof {
        assert(text@.take(text@.len() as int) == text@);
    }
    out
}

} // verus!
