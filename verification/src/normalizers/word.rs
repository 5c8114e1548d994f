//! Word-level normalization: sentences by UAX #29, words as the runs of
//! characters between separators, punctuation trimmed around words, odd
//! words (an at sign, two punctuation characters in a row, no letter)
//! replaced by a placeholder.
use unicode_segmentation::UnicodeSegmentation;
use vstd::prelude::*;

use crate::normalizers::character::{LINE_SEPARATOR, WORD_SEPARATOR};
use crate::text::{chars_of, is_alphabetic, is_alphanumeric, join_with, push_char, string_of};
use crate::ucd::{paragraph_separator, word_separator};

verus! {

/// Options of the word normalization step.
#[derive(Debug, Clone, Copy)]
pub struct WordNormalization {
    /// Whether the step runs at all.
    pub enabled: bool,
    /// Replace odd words (see `spec_is_odd_word`) with `PLACEHOLDER`.
    pub replace_pii: bool,
}

impl Default for WordNormalization {
    fn default() -> (r: WordNormalization)
        ensures
            r.enabled,
            r.replace_pii,
    {
        WordNormalization { enabled: true, replace_pii: true }
    }
}

/// The word that stands in for an odd word.
pub const PLACEHOLDER: &'static str = "<unk>";

/// The regular expression of words that are not words: two punctuation
/// characters in a row, or an at sign.
pub const NON_WORD_PATTERN: &'static str = "\\pP{2}|@";

#[verifier::external_type_specification]
#[verifier::external_body]
pub struct ExRegex(regex::Regex);

/// The placeholder is `<unk>`; a word is odd for the pattern where it holds
/// two punctuation characters in a row or an at sign.
pub proof fn lemma_word_constants()
    ensures
        PLACEHOLDER@ == "<unk>"@,
        PLACEHOLDER@ == seq!['<', 'u', 'n', 'k', '>'],
        NON_WORD_PATTERN@ == "\\pP{2}|@"@,
{
    reveal_strlit("<unk>");
}

/// A regular expression compiled by `regex`, with the pattern it was compiled from.
pub struct CompiledPattern {
    re: regex::Regex,
    pattern: String,
}

impl CompiledPattern {
    /// The pattern this expression was compiled from.
    pub closed spec fn pattern(&self) -> Seq<char> {
        self.pattern@
    }
}

/// Whether `regex` accepts the pattern (`Regex::new` returns `Ok`).
pub uninterp spec fn spec_regex_compiles(pattern: Seq<char>) -> bool;

/// What `Regex::is_match` of the pattern's compiled expression returns for a text.
pub uninterp spec fn spec_regex_is_match(pattern: Seq<char>, text: Seq<char>) -> bool;

/// The sentences of a text by UAX #29 that hold an alphanumeric character,
/// as `UnicodeSegmentation::unicode_sentences` returns them.
pub uninterp spec fn spec_unicode_sentences(text: Seq<char>) -> Seq<Seq<char>>;


/// `regex::Regex::new`: compiles the pattern; `None` where `regex` refuses it.
/// The contract claims that whether it compiles depends on the pattern alone.
#[verifier::external_body]
fn compile_pattern(pattern: &str) -> (r: Option<CompiledPattern>)
    ensures
        r is Some <==> spec_regex_compiles(pattern@),
        r matches Some(m) ==> m.pattern() == pattern@,
{
    match regex::Regex::new(pattern) {
        Ok(re) => Some(CompiledPattern { re, pattern: pattern.to_string() }),
        Err(_) => None,
    }
}

/// `regex::Regex::is_match`: whether the expression matches somewhere in the
/// text. The contract names the result and claims that it depends on the
/// pattern and the text alone.
#[verifier::external_body]
fn pattern_is_match(m: &CompiledPattern, text: &str) -> (r: bool)
    ensures
        r == spec_regex_is_match(m.pattern(), text@),
{
    m.re.is_match(text)
}

/// `UnicodeSegmentation::unicode_sentences`, each sentence copied into a
/// string. The contract names the result and claims that it depends on the text alone.
#[verifier::external_body]
fn unicode_sentences(text: &str) -> (r: Vec<String>)
    ensures
        r@.map_values(|s: String| s@) == spec_unicode_sentences(text@),
{
    text.unicode_sentences().map(|s| s.to_string()).collect()
}

/// A character that ends a token: a word separator or a paragraph separator.
pub open spec fn spec_is_token_separator(c: char) -> bool {
    crate::ucd::spec_word_separator(c) || crate::ucd::spec_paragraph_separator(c)
}

/// The pieces of a text between its separators, in order, empty pieces
/// included: a text with `n` separators has `n + 1` pieces.
pub open spec fn spec_split_tokens(text: Seq<char>) -> Seq<Seq<char>>
    decreases text.len(),
{
    if text.len() == 0 {
        seq![Seq::empty()]
    } else {
        let pieces = spec_split_tokens(text.drop_last());
        let c = text.last();
        if spec_is_token_separator(c) {
            pieces.push(Seq::empty())
        } else {
            pieces.update(pieces.len() - 1, pieces.last().push(c))
        }
    }
}

/// The word with every leading non-alphanumeric character removed.
pub open spec fn spec_trim_start(word: Seq<char>) -> Seq<char>
    decreases word.len(),
{
    if word.len() == 0 || crate::text::spec_is_alphanumeric(word[0]) {
        word
    } else {
        spec_trim_start(word.drop_first())
    }
}

/// The word with every trailing non-alphanumeric character removed.
pub open spec fn spec_trim_end(word: Seq<char>) -> Seq<char>
    decreases word.len(),
{
    if word.len() == 0 || crate::text::spec_is_alphanumeric(word.last()) {
        word
    } else {
        spec_trim_end(word.drop_last())
    }
}

/// The word with the non-alphanumeric characters at both of its ends removed.
pub open spec fn spec_trim(word: Seq<char>) -> Seq<char> {
    spec_trim_end(spec_trim_start(word))
}

/// Whether some character of the word is alphabetic.
pub open spec fn spec_has_alphabetic(word: Seq<char>) -> bool {
    exists|k: int| 0 <= k < word.len() && crate::text::spec_is_alphabetic(#[trigger] word[k])
}

/// An odd word: one that `NON_WORD_PATTERN` matches, or one without an
/// alphabetic character.
pub open spec fn spec_is_odd_word(word: Seq<char>) -> bool {
    ||| spec_regex_compiles(NON_WORD_PATTERN@) && spec_regex_is_match(NON_WORD_PATTERN@, word)
    ||| !spec_has_alphabetic(word)
}

/// What becomes of one word: trimmed, dropped if nothing is left, and
/// replaced by the placeholder if it is odd and odd words are replaced.
pub open spec fn spec_normalize_word(word: Seq<char>, replace_pii: bool) -> Option<Seq<char>> {
    let t = spec_trim(word);
    if t.len() == 0 {
        None
    } else if replace_pii && spec_is_odd_word(t) {
        Some(PLACEHOLDER@)
    } else {
        Some(t)
    }
}

/// The normalized words of one sentence.
pub open spec fn spec_sentence_words(sentence: Seq<char>, replace_pii: bool) -> Seq<Seq<char>> {
    spec_split_tokens(sentence).filter_map(|w: Seq<char>| spec_normalize_word(w, replace_pii))
}

/// The line that a sentence becomes: its words separated by spaces, or
/// nothing if no word is left.
pub open spec fn spec_line(sentence: Seq<char>, replace_pii: bool) -> Option<Seq<char>> {
    let words = spec_sentence_words(sentence, replace_pii);
    if words.len() == 0 {
        None
    } else {
        Some(crate::text::spec_join(words, WORD_SEPARATOR))
    }
}

/// The result of the word normalization step: the lines of the sentences,
/// one sentence per line.
pub open spec fn spec_run(text: Seq<char>, opts: WordNormalization) -> Seq<char> {
    crate::text::spec_join(
        spec_unicode_sentences(text).filter_map(|s: Seq<char>| spec_line(s, opts.replace_pii)),
        LINE_SEPARATOR,
    )
}

proof fn lemma_trim_start_shape(word: Seq<char>)
    ensures
        exists|k: int|
            0 <= k <= word.len() && spec_trim_start(word) == word.subrange(k, word.len() as int)
                && forall|m: int| 0 <= m < k ==> !crate::text::spec_is_alphanumeric(#[trigger] word[m]),
        spec_trim_start(word).len() > 0 ==> crate::text::spec_is_alphanumeric(spec_trim_start(word)[0]),
    decreases word.len(),
{
    if word.len() == 0 || crate::text::spec_is_alphanumeric(word[0]) {
        assert(word.subrange(0, word.len() as int) == word);
    } else {
        let rest = word.drop_first();
        lemma_trim_start_shape(rest);
        let k = choose|k: int|
            0 <= k <= rest.len() && spec_trim_start(rest) == rest.subrange(k, rest.len() as int)
                && forall|m: int| 0 <= m < k ==> !crate::text::spec_is_alphanumeric(#[trigger] rest[m]);
        assert(rest.subrange(k, rest.len() as int) == word.subrange(k + 1, word.len() as int));
        assert forall|m: int| 0 <= m < k + 1 implies !crate::text::spec_is_alphanumeric(
            #[trigger] word[m],
        ) by {
            if m > 0 {
                assert(word[m] == rest[m - 1]);
            }
        }
    }
}

proof fn lemma_trim_end_shape(word: Seq<char>)
    ensures
        exists|k: int|
            0 <= k <= word.len() && spec_trim_end(word) == word.subrange(0, k) && forall|m: int|
                k <= m < word.len() ==> !crate::text::spec_is_alphanumeric(#[trigger] word[m]),
        spec_trim_end(word).len() > 0 ==> crate::text::spec_is_alphanumeric(spec_trim_end(word).last()),
    decreases word.len(),
{
    if word.len() == 0 || crate::text::spec_is_alphanumeric(word.last()) {
        assert(word.subrange(0, word.len() as int) == word);
    } else {
        let rest = word.drop_last();
        lemma_trim_end_shape(rest);
        let k = choose|k: int|
            0 <= k <= rest.len() && spec_trim_end(rest) == rest.subrange(0, k) && forall|m: int|
                k <= m < rest.len() ==> !crate::text::spec_is_alphanumeric(#[trigger] rest[m]);
        assert(rest.subrange(0, k) == word.subrange(0, k));
        assert forall|m: int| k <= m < word.len() implies !crate::text::spec_is_alphanumeric(
            #[trigger] word[m],
        ) by {
            if m < rest.len() {
                assert(word[m] == rest[m]);
            }
        }
    }
}

/// Trimming takes a run of consecutive characters out of the word; what is
/// left is empty or begins and ends with an alphanumeric character.
pub proof fn lemma_trim_shape(word: Seq<char>)
    ensures
        exists|i: int, j: int| 0 <= i <= j <= word.len() && spec_trim(word) == word.subrange(i, j),
        spec_trim(word).len() > 0 ==> crate::text::spec_is_alphanumeric(spec_trim(word)[0])
            && crate::text::spec_is_alphanumeric(spec_trim(word).last()),
{
    lemma_trim_exact(word);
}

/// Trimming removes exactly the non-alphanumeric characters before the first
/// alphanumeric one and after the last: what is left is the run from the
/// first alphanumeric character to the last, and nothing where there is none.
pub proof fn lemma_trim_exact(word: Seq<char>)
    ensures
        exists|i: int, j: int|
            {
                &&& 0 <= i <= j <= word.len()
                &&& spec_trim(word) == word.subrange(i, j)
                &&& forall|m: int|
                    0 <= m < i ==> !crate::text::spec_is_alphanumeric(#[trigger] word[m])
                &&& forall|m: int|
                    j <= m < word.len() ==> !crate::text::spec_is_alphanumeric(#[trigger] word[m])
                &&& i < j ==> crate::text::spec_is_alphanumeric(word[i])
                    && crate::text::spec_is_alphanumeric(word[j - 1])
            },
        spec_trim(word).len() > 0 ==> crate::text::spec_is_alphanumeric(spec_trim(word)[0])
            && crate::text::spec_is_alphanumeric(spec_trim(word).last()),
        (exists|m: int| 0 <= m < word.len() && crate::text::spec_is_alphanumeric(#[trigger] word[m]))
            ==> spec_trim(word).len() > 0,
{
    let u = spec_trim_start(word);
    lemma_trim_start_shape(word);
    lemma_trim_end_shape(u);
    let i = choose|k: int|
        0 <= k <= word.len() && u == word.subrange(k, word.len() as int) && forall|m: int|
            0 <= m < k ==> !crate::text::spec_is_alphanumeric(#[trigger] word[m]);
    let j = choose|k: int|
        0 <= k <= u.len() && spec_trim_end(u) == u.subrange(0, k) && forall|m: int|
            k <= m < u.len() ==> !crate::text::spec_is_alphanumeric(#[trigger] u[m]);
    assert(u.subrange(0, j) == word.subrange(i, i + j));
    assert forall|m: int| i + j <= m < word.len() implies !crate::text::spec_is_alphanumeric(
        #[trigger] word[m],
    ) by {
        assert(word[m] == u[m - i]);
    }
    if spec_trim(word).len() > 0 {
        assert(spec_trim(word)[0] == u[0]);
        assert(word[i] == spec_trim(word)[0]);
        assert(word[i + j - 1] == spec_trim(word).last());
    }
    if exists|m: int| 0 <= m < word.len() && crate::text::spec_is_alphanumeric(#[trigger] word[m]) {
        let m = choose|m: int| 0 <= m < word.len() && crate::text::spec_is_alphanumeric(#[trigger] word[m]);
        assert(i <= m < i + j);
    }
}

/// A word with an alphabetic character at any position, which
/// `NON_WORD_PATTERN` does not match, is kept (trimmed) where odd words are
/// replaced.
pub proof fn lemma_word_with_letter_is_kept(word: Seq<char>, k: int)
    requires
        0 <= k < spec_trim(word).len(),
        crate::text::spec_is_alphabetic(spec_trim(word)[k]),
        !(spec_regex_compiles(NON_WORD_PATTERN@) && spec_regex_is_match(
            NON_WORD_PATTERN@,
            spec_trim(word),
        )),
    ensures
        spec_normalize_word(word, true) == Some(spec_trim(word)),
        spec_normalize_word(word, false) == Some(spec_trim(word)),
{
}

/// A word left non-empty by trimming but without any alphabetic character,
/// or one that `NON_WORD_PATTERN` matches, becomes the placeholder where odd
/// words are replaced, and stays trimmed where they are not.
pub proof fn lemma_odd_word_is_replaced(word: Seq<char>)
    requires
        spec_trim(word).len() > 0,
        (forall|k: int|
            0 <= k < spec_trim(word).len() ==> !crate::text::spec_is_alphabetic(
                #[trigger] spec_trim(word)[k],
            )) || (spec_regex_compiles(NON_WORD_PATTERN@) && spec_regex_is_match(
            NON_WORD_PATTERN@,
            spec_trim(word),
        )),
    ensures
        spec_normalize_word(word, true) == Some(PLACEHOLDER@),
        spec_normalize_word(word, false) == Some(spec_trim(word)),
{
}

/// A word with no alphanumeric character at all is dropped.
pub proof fn lemma_word_without_alphanumeric_is_dropped(word: Seq<char>, replace_pii: bool)
    requires
        forall|k: int| 0 <= k < word.len() ==> !crate::text::spec_is_alphanumeric(#[trigger] word[k]),
    ensures
        spec_normalize_word(word, replace_pii) is None,
{
    lemma_trim_exact(word);
}

/// What a word becomes is never empty; it is the placeholder or the trimmed
/// word, which begins and ends with an alphanumeric character; where odd
/// words are replaced, a word other than the placeholder has an alphabetic
/// character and does not match `NON_WORD_PATTERN`; where they are not, it
/// is the trimmed word.
pub proof fn lemma_normalized_word_shape(word: Seq<char>, replace_pii: bool)
    ensures
        spec_normalize_word(word, replace_pii) matches Some(t) ==> {
            &&& t.len() > 0
            &&& t == PLACEHOLDER@ || (t == spec_trim(word) && crate::text::spec_is_alphanumeric(t[0])
                && crate::text::spec_is_alphanumeric(t.last()))
            &&& replace_pii && t != PLACEHOLDER@ ==> !spec_is_odd_word(t)
            &&& !replace_pii ==> t == spec_trim(word)
        },
{
    lemma_trim_shape(word);
    reveal_strlit("<unk>");
    assert(PLACEHOLDER@.len() == 5);
}

/// A word as replacement leaves it: the placeholder if it is odd, the word otherwise.
pub open spec fn spec_replace_odd(word: Seq<char>) -> Seq<char> {
    if spec_is_odd_word(word) {
        PLACEHOLDER@
    } else {
        word
    }
}

proof fn lemma_filter_map_replacement(words: Seq<Seq<char>>)
    ensures
        words.filter_map(|w: Seq<char>| spec_normalize_word(w, true)) == words.filter_map(
            |w: Seq<char>| spec_normalize_word(w, false),
        ).map_values(|t: Seq<char>| spec_replace_odd(t)),
    decreases words.len(),
{
    let on = |w: Seq<char>| spec_normalize_word(w, true);
    let off = |w: Seq<char>| spec_normalize_word(w, false);
    let rep = |t: Seq<char>| spec_replace_odd(t);
    if words.len() > 0 {
        let rest = words.drop_last();
        lemma_filter_map_replacement(rest);
        let b = rest.filter_map(off);
        match off(words.last()) {
            Some(t) => {
                assert(words.filter_map(off) == b + seq![t]);
                assert(words.filter_map(on) == rest.filter_map(on) + seq![rep(t)]);
                assert((b + seq![t]).map_values(rep) == b.map_values(rep) + seq![rep(t)]);
            },
            None => {
                assert(words.filter_map(off) == b);
                assert(words.filter_map(on) == rest.filter_map(on));
            },
        }
    } else {
        assert(words.filter_map(on) == Seq::<Seq<char>>::empty());
        assert(words.filter_map(off) == Seq::<Seq<char>>::empty());
    }
}

/// Replacing odd words changes nothing but the odd words: the words of a
/// sentence with replacement are its words without replacement, each odd one
/// replaced by the placeholder; so the line of the sentence is there with
/// replacement exactly where it is there without, made of those words.
pub proof fn lemma_replacement_replaces_only_odd_words(sentence: Seq<char>)
    ensures
        spec_sentence_words(sentence, true) == spec_sentence_words(sentence, false).map_values(
            |t: Seq<char>| spec_replace_odd(t),
        ),
        spec_line(sentence, true) == match spec_line(sentence, false) {
            Some(_) => Some(
                crate::text::spec_join(
                    spec_sentence_words(sentence, false).map_values(|t: Seq<char>| spec_replace_odd(t)),
                    WORD_SEPARATOR,
                ),
            ),
            None => None::<Seq<char>>,
        },
{
    lemma_filter_map_replacement(spec_split_tokens(sentence));
}

/// The normalized words of a sentence, or nothing where it has none.
pub open spec fn spec_sentence_line_words(sentence: Seq<char>, replace_pii: bool) -> Option<
    Seq<Seq<char>>,
> {
    let words = spec_sentence_words(sentence, replace_pii);
    if words.len() == 0 {
        None
    } else {
        Some(words)
    }
}

/// The words of each line of the result: the normalized words of each
/// sentence that has any, in order.
pub open spec fn spec_line_words(text: Seq<char>, replace_pii: bool) -> Seq<Seq<Seq<char>>> {
    spec_unicode_sentences(text).filter_map(
        |s: Seq<char>| spec_sentence_line_words(s, replace_pii),
    )
}

/// Words separated by single spaces.
pub open spec fn spec_join_words(words: Seq<Seq<char>>) -> Seq<char> {
    crate::text::spec_join(words, WORD_SEPARATOR)
}

/// The words, each odd one replaced by the placeholder.
pub open spec fn spec_replace_all(words: Seq<Seq<char>>) -> Seq<Seq<char>> {
    words.map_values(|t: Seq<char>| spec_replace_odd(t))
}

proof fn lemma_lines_are_joined_words(sentences: Seq<Seq<char>>, replace_pii: bool)
    ensures
        sentences.filter_map(|s: Seq<char>| spec_line(s, replace_pii)) == sentences.filter_map(
            |s: Seq<char>| spec_sentence_line_words(s, replace_pii),
        ).map_values(|ws: Seq<Seq<char>>| spec_join_words(ws)),
    decreases sentences.len(),
{
    let line = |s: Seq<char>| spec_line(s, replace_pii);
    let lw = |s: Seq<char>| spec_sentence_line_words(s, replace_pii);
    let join = |ws: Seq<Seq<char>>| spec_join_words(ws);
    if sentences.len() > 0 {
        let rest = sentences.drop_last();
        lemma_lines_are_joined_words(rest, replace_pii);
        let b = rest.filter_map(lw);
        match lw(sentences.last()) {
            Some(ws) => {
                assert(sentences.filter_map(lw) == b + seq![ws]);
                assert(sentences.filter_map(line) == rest.filter_map(line) + seq![join(ws)]);
                assert((b + seq![ws]).map_values(join) == b.map_values(join) + seq![join(ws)]);
            },
            None => {
                assert(sentences.filter_map(lw) == b);
                assert(sentences.filter_map(line) == rest.filter_map(line));
            },
        }
    } else {
        assert(sentences.filter_map(line) == Seq::<Seq<char>>::empty());
        assert(sentences.filter_map(lw) == Seq::<Seq<Seq<char>>>::empty());
    }
}

proof fn lemma_line_words_replacement(sentences: Seq<Seq<char>>)
    ensures
        sentences.filter_map(|s: Seq<char>| spec_sentence_line_words(s, true)) == sentences.filter_map(
            |s: Seq<char>| spec_sentence_line_words(s, false),
        ).map_values(|ws: Seq<Seq<char>>| spec_replace_all(ws)),
    decreases sentences.len(),
{
    let on = |s: Seq<char>| spec_sentence_line_words(s, true);
    let off = |s: Seq<char>| spec_sentence_line_words(s, false);
    let rep = |ws: Seq<Seq<char>>| spec_replace_all(ws);
    if sentences.len() > 0 {
        let rest = sentences.drop_last();
        lemma_line_words_replacement(rest);
        lemma_replacement_replaces_only_odd_words(sentences.last());
        let b = rest.filter_map(off);
        match off(sentences.last()) {
            Some(ws) => {
                assert(sentences.filter_map(off) == b + seq![ws]);
                assert(on(sentences.last()) == Some(rep(ws)));
                assert(sentences.filter_map(on) == rest.filter_map(on) + seq![rep(ws)]);
                assert((b + seq![ws]).map_values(rep) == b.map_values(rep) + seq![rep(ws)]);
            },
            None => {
                assert(on(sentences.last()) is None);
                assert(sentences.filter_map(off) == b);
                assert(sentences.filter_map(on) == rest.filter_map(on));
            },
        }
    } else {
        assert(sentences.filter_map(on) == Seq::<Seq<Seq<char>>>::empty());
        assert(sentences.filter_map(off) == Seq::<Seq<Seq<char>>>::empty());
    }
}

/// The result of word normalization is its lines joined by line breaks, each
/// line its words joined by spaces; with odd words replaced, the lines and
/// words are those without replacement, each odd word replaced by the
/// placeholder.
pub proof fn lemma_result_with_and_without_replacement(
    text: Seq<char>,
    on: WordNormalization,
    off: WordNormalization,
)
    requires
        on.replace_pii,
        !off.replace_pii,
    ensures
        spec_run(text, off) == crate::text::spec_join(
            spec_line_words(text, false).map_values(|ws: Seq<Seq<char>>| spec_join_words(ws)),
            LINE_SEPARATOR,
        ),
        spec_run(text, on) == crate::text::spec_join(
            spec_line_words(text, false).map_values(
                |ws: Seq<Seq<char>>| spec_join_words(spec_replace_all(ws)),
            ),
            LINE_SEPARATOR,
        ),
{
    let sentences = spec_unicode_sentences(text);
    lemma_lines_are_joined_words(sentences, false);
    lemma_lines_are_joined_words(sentences, true);
    lemma_line_words_replacement(sentences);
    let base = spec_line_words(text, false);
    assert(base.map_values(|ws: Seq<Seq<char>>| spec_replace_all(ws)).map_values(
        |ws: Seq<Seq<char>>| spec_join_words(ws),
    ) == base.map_values(|ws: Seq<Seq<char>>| spec_join_words(spec_replace_all(ws))));
}

/// Every word on every line of the result is non-empty; it is the
/// placeholder or begins and ends with an alphanumeric character; with odd
/// words replaced, no word but the placeholder is odd; and no line is empty.
pub proof fn lemma_result_words_shape(text: Seq<char>, replace_pii: bool)
    ensures
        forall|i: int, k: int|
            #![trigger spec_line_words(text, replace_pii)[i][k]]
            0 <= i < spec_line_words(text, replace_pii).len() && 0 <= k < spec_line_words(
                text,
                replace_pii,
            )[i].len() ==> {
                let t = spec_line_words(text, replace_pii)[i][k];
                &&& t.len() > 0
                &&& t == PLACEHOLDER@ || (crate::text::spec_is_alphanumeric(t[0])
                    && crate::text::spec_is_alphanumeric(t.last()))
                &&& replace_pii && t != PLACEHOLDER@ ==> !spec_is_odd_word(t)
            },
        forall|i: int|
            0 <= i < spec_line_words(text, replace_pii).len() ==> #[trigger] spec_line_words(
                text,
                replace_pii,
            )[i].len() > 0,
{
    let sentences = spec_unicode_sentences(text);
    let lw = |s: Seq<char>| spec_sentence_line_words(s, replace_pii);
    assert forall|i: int| 0 <= i < spec_line_words(text, replace_pii).len() implies {
        let ws = #[trigger] spec_line_words(text, replace_pii)[i];
        &&& ws.len() > 0
        &&& forall|k: int|
            #![trigger ws[k]]
            0 <= k < ws.len() ==> {
                let t = ws[k];
                &&& t.len() > 0
                &&& t == PLACEHOLDER@ || (crate::text::spec_is_alphanumeric(t[0])
                    && crate::text::spec_is_alphanumeric(t.last()))
                &&& replace_pii && t != PLACEHOLDER@ ==> !spec_is_odd_word(t)
            }
    } by {
        let ws = spec_line_words(text, replace_pii)[i];
        assert(sentences.filter_map(lw).contains(ws));
        sentences.lemma_filter_map_contains(lw, ws);
        let s = choose|s: Seq<char>| #[trigger] sentences.contains(s) && lw(s) == Some(ws);
        lemma_sentence_words_shape(s, replace_pii);
        assert(ws == spec_sentence_words(s, replace_pii));
    }
}

proof fn lemma_filter_map_keeps<A, B>(s: Seq<A>, f: spec_fn(A) -> Option<B>, i: int)
    requires
        0 <= i < s.len(),
        f(s[i]) is Some,
    ensures
        s.filter_map(f).contains(f(s[i])->0),
    decreases s.len(),
{
    if i == s.len() - 1 {
        assert(s.last() == s[i]);
        assert(s.filter_map(f) == s.drop_last().filter_map(f) + seq![f(s[i])->0]);
        assert(s.filter_map(f)[s.filter_map(f).len() - 1] == f(s[i])->0);
    } else {
        lemma_filter_map_keeps(s.drop_last(), f, i);
        assert(s.drop_last()[i] == s[i]);
        let b = s.drop_last().filter_map(f);
        let k = choose|k: int| 0 <= k < b.len() && b[k] == f(s[i])->0;
        match f(s.last()) {
            Some(x) => {
                assert(s.filter_map(f) == b + seq![x]);
                assert(s.filter_map(f)[k] == b[k]);
            },
            None => {
                assert(s.filter_map(f) == b);
            },
        }
    }
}

/// Every piece of a sentence that holds an alphanumeric character gives a
/// word of the sentence: the piece trimmed, or the placeholder where it is
/// odd and odd words are replaced.
pub proof fn lemma_tokens_with_alphanumeric_give_words(sentence: Seq<char>, replace_pii: bool, i: int)
    requires
        0 <= i < spec_split_tokens(sentence).len(),
        exists|k: int|
            0 <= k < spec_split_tokens(sentence)[i].len() && crate::text::spec_is_alphanumeric(
                #[trigger] spec_split_tokens(sentence)[i][k],
            ),
    ensures
        spec_sentence_words(sentence, replace_pii).contains(
            if replace_pii && spec_is_odd_word(spec_trim(spec_split_tokens(sentence)[i])) {
                PLACEHOLDER@
            } else {
                spec_trim(spec_split_tokens(sentence)[i])
            },
        ),
{
    let t = spec_split_tokens(sentence)[i];
    lemma_trim_exact(t);
    let f = |w: Seq<char>| spec_normalize_word(w, replace_pii);
    lemma_filter_map_keeps(spec_split_tokens(sentence), f, i);
}

/// Every word of a normalized sentence has the shape that
/// `lemma_normalized_word_shape` states, for some token of the sentence.
pub proof fn lemma_sentence_words_shape(sentence: Seq<char>, replace_pii: bool)
    ensures
        forall|k: int|
            #![trigger spec_sentence_words(sentence, replace_pii)[k]]
            0 <= k < spec_sentence_words(sentence, replace_pii).len() ==> {
                let t = spec_sentence_words(sentence, replace_pii)[k];
                &&& t.len() > 0
                &&& t == PLACEHOLDER@ || (crate::text::spec_is_alphanumeric(t[0])
                    && crate::text::spec_is_alphanumeric(t.last()))
                &&& replace_pii && t != PLACEHOLDER@ ==> !spec_is_odd_word(t)
            },
{
    let f = |w: Seq<char>| spec_normalize_word(w, replace_pii);
    let words = spec_split_tokens(sentence);
    assert forall|k: int| 0 <= k < spec_sentence_words(sentence, replace_pii).len() implies {
        let t = #[trigger] spec_sentence_words(sentence, replace_pii)[k];
        &&& t.len() > 0
        &&& t == PLACEHOLDER@ || (crate::text::spec_is_alphanumeric(t[0])
            && crate::text::spec_is_alphanumeric(t.last()))
        &&& replace_pii && t != PLACEHOLDER@ ==> !spec_is_odd_word(t)
    } by {
        let t = spec_sentence_words(sentence, replace_pii)[k];
        assert(words.filter_map(f).contains(t));
        words.lemma_filter_map_contains(f, t);
        let w = choose|w: Seq<char>| #[trigger] words.contains(w) && f(w) == Some(t);
        lemma_normalized_word_shape(w, replace_pii);
    }
}

proof fn lemma_trim_start_skip(word: Seq<char>, i: int)
    requires
        0 <= i < word.len(),
        !crate::text::spec_is_alphanumeric(word[i]),
    ensures
        spec_trim_start(word.subrange(i, word.len() as int)) == spec_trim_start(
            word.subrange(i + 1, word.len() as int),
        ),
{
    assert(word.subrange(i, word.len() as int).drop_first() == word.subrange(
        i + 1,
        word.len() as int,
    ));
}

proof fn lemma_trim_end_skip(word: Seq<char>, i: int, j: int)
    requires
        0 <= i < j <= word.len(),
        !crate::text::spec_is_alphanumeric(word[j - 1]),
    ensures
        spec_trim_end(word.subrange(i, j)) == spec_trim_end(word.subrange(i, j - 1)),
{
    assert(word.subrange(i, j).drop_last() == word.subrange(i, j - 1));
}

/// Removes the non-alphanumeric characters at both ends of `word`.
pub fn trim_word(word: &str) -> (r: String)
    ensures
        r@ == spec_trim(word@),
{
    let chars = chars_of(word);
    let n = chars.len();
    let mut i: usize = 0;
    proof {
        assert(chars@.subrange(0, n as int) == chars@);
    }
    while i < n && !is_alphanumeric(chars[i])
        invariant
            i <= n == chars@.len(),
            chars@ == word@,
            spec_trim_start(word@) == spec_trim_start(chars@.subrange(i as int, n as int)),
        decreases n - i,
    {
        proof {
            lemma_trim_start_skip(chars@, i as int);
        }
        i = i + 1;
    }
    proof {
        assert(spec_trim_start(word@) == chars@.subrange(i as int, n as int));
    }
    let mut j: usize = n;
    while j > i && !is_alphanumeric(chars[j - 1])
        invariant
            i <= j <= n == chars@.len(),
            chars@ == word@,
            spec_trim(word@) == spec_trim_end(chars@.subrange(i as int, j as int)),
        decreases j - i,
    {
        proof {
            lemma_trim_end_skip(chars@, i as int, j as int);
        }
        j = j - 1;
    }
    proof {
        let t = chars@.subrange(i as int, j as int);
        if t.len() > 0 {
            assert(t.last() == chars@[j - 1]);
        }
    }
    string_of(&chars, i, j)
}

proof fn lemma_split_tokens_nonempty(text: Seq<char>)
    ensures
        spec_split_tokens(text).len() >= 1,
    decreases text.len(),
{
    if text.len() > 0 {
        lemma_split_tokens_nonempty(text.drop_last());
    }
}

/// No piece of a split text holds a separator.
pub proof fn lemma_split_tokens_have_no_separator(text: Seq<char>)
    ensures
        forall|i: int, k: int|
            0 <= i < spec_split_tokens(text).len() && 0 <= k < spec_split_tokens(text)[i].len()
                ==> !spec_is_token_separator(#[trigger] spec_split_tokens(text)[i][k]),
    decreases text.len(),
{
    if text.len() > 0 {
        let rest = text.drop_last();
        lemma_split_tokens_have_no_separator(rest);
        lemma_split_tokens_nonempty(rest);
        let p = spec_split_tokens(rest);
        let c = text.last();
        if !spec_is_token_separator(c) {
            assert forall|i: int, k: int|
                0 <= i < spec_split_tokens(text).len() && 0 <= k < spec_split_tokens(text)[i].len()
                    implies !spec_is_token_separator(#[trigger] spec_split_tokens(text)[i][k]) by {
                if i == p.len() - 1 {
                    if k < p.last().len() {
                        assert(spec_split_tokens(text)[i][k] == p[i][k]);
                    }
                } else {
                    assert(spec_split_tokens(text)[i] == p[i]);
                }
            }
        } else {
            assert forall|i: int, k: int|
                0 <= i < spec_split_tokens(text).len() && 0 <= k < spec_split_tokens(text)[i].len()
                    implies !spec_is_token_separator(#[trigger] spec_split_tokens(text)[i][k]) by {
                assert(i < p.len());
                assert(spec_split_tokens(text)[i] == p[i]);
            }
        }
    }
}

/// A text without a separator is one piece.
pub proof fn lemma_split_tokens_plain_text(text: Seq<char>)
    requires
        forall|k: int| 0 <= k < text.len() ==> !spec_is_token_separator(#[trigger] text[k]),
    ensures
        spec_split_tokens(text) == seq![text],
    decreases text.len(),
{
    if text.len() > 0 {
        let rest = text.drop_last();
        assert forall|k: int| 0 <= k < rest.len() implies !spec_is_token_separator(#[trigger] rest[k]) by {
            assert(rest[k] == text[k]);
        }
        lemma_split_tokens_plain_text(rest);
        assert(!spec_is_token_separator(text[text.len() - 1]));
        assert(rest.push(text.last()) == text);
        assert(seq![rest].update(0, seq![rest].last().push(text.last())) == seq![text]);
    } else {
        assert(text == Seq::<char>::empty());
    }
}

/// A separator splits a text in two: the pieces of the text before it, then
/// those of the text after it.
pub proof fn lemma_split_tokens_at_separator(a: Seq<char>, c: char, b: Seq<char>)
    requires
        spec_is_token_separator(c),
    ensures
        spec_split_tokens(a.push(c) + b) == spec_split_tokens(a) + spec_split_tokens(b),
    decreases b.len(),
{
    if b.len() == 0 {
        assert(a.push(c) + b == a.push(c));
        assert(a.push(c).drop_last() == a);
        assert(spec_split_tokens(b) == seq![Seq::<char>::empty()]);
    } else {
        let rest = b.drop_last();
        let d = b.last();
        lemma_split_tokens_at_separator(a, c, rest);
        lemma_split_tokens_nonempty(rest);
        lemma_split_tokens_nonempty(a);
        assert((a.push(c) + b).drop_last() == a.push(c) + rest);
        assert((a.push(c) + b).last() == d);
        let pa = spec_split_tokens(a);
        let pr = spec_split_tokens(rest);
        if spec_is_token_separator(d) {
            assert((pa + pr).push(Seq::<char>::empty()) == pa + pr.push(Seq::<char>::empty()));
        } else {
            assert((pa + pr).update((pa + pr).len() - 1, (pa + pr).last().push(d)) == pa
                + pr.update(pr.len() - 1, pr.last().push(d)));
        }
    }
}

/// Splits a text at its word and paragraph separators (see `spec_split_tokens`).
pub fn split_tokens(text: &str) -> (r: Vec<String>)
    ensures
        r@.map_values(|s: String| s@) == spec_split_tokens(text@),
{
    let mut pieces: Vec<String> = Vec::new();
    let mut current = String::new();
    proof {
        assert(text@.take(0) == Seq::<char>::empty());
        assert(pieces@.map_values(|s: String| s@).push(current@) == seq![Seq::<char>::empty()]);
    }
    for c in it: text.chars()
        invariant
            it.seq() == text@,
            pieces@.map_values(|s: String| s@).push(current@) == spec_split_tokens(
                text@.take(it.index() as int),
            ),
    {
        let ghost before = pieces@.map_values(|s: String| s@).push(current@);
        proof {
            assert(text@.take(it.index() + 1).drop_last() == text@.take(it.index() as int));
            assert(text@.take(it.index() + 1).last() == c);
        }
        if word_separator(c) || paragraph_separator(c) {
            pieces.push(current);
            current = String::new();
            proof {
                assert(pieces@.map_values(|s: String| s@).push(current@) == before.push(
                    Seq::<char>::empty(),
                ));
            }
        } else {
            push_char(&mut current, c);
            proof {
                assert(pieces@.map_values(|s: String| s@).push(current@) == before.update(
                    before.len() - 1,
                    before.last().push(c),
                ));
            }
        }
    }
    proof {
        assert(text@.take(text@.len() as int) == text@);
    }
    pieces.push(current);
    proof {
        assert(pieces@.map_values(|s: String| s@) == spec_split_tokens(text@));
    }
    pieces
}

/// Whether some character of `word` is alphabetic.
pub fn has_alphabetic(word: &str) -> (r: bool)
    ensures
        r == spec_has_alphabetic(word@),
{
    let chars = chars_of(word);
    let mut i: usize = 0;
    while i < chars.len()
        invariant
            i <= chars@.len(),
            chars@ == word@,
            forall|k: int| 0 <= k < i ==> !crate::text::spec_is_alphabetic(#[trigger] chars@[k]),
        decreases chars.len() - i,
    {
        if is_alphabetic(chars[i]) {
            return true;
        }
        i = i + 1;
    }
    false
}

/// Compiles `NON_WORD_PATTERN`.
pub fn non_word_matcher() -> (r: Option<CompiledPattern>)
    ensures
        r is Some <==> spec_regex_compiles(NON_WORD_PATTERN@),
        r matches Some(m) ==> m.pattern() == NON_WORD_PATTERN@,
{
    compile_pattern(NON_WORD_PATTERN)
}

/// Whether a trimmed word is odd, with `non_word` the compiled `NON_WORD_PATTERN`.
pub fn is_odd_word(word: &str, non_word: &Option<CompiledPattern>) -> (r: bool)
    requires
        non_word is Some <==> spec_regex_compiles(NON_WORD_PATTERN@),
        non_word matches Some(m) ==> m.pattern() == NON_WORD_PATTERN@,
    ensures
        r == spec_is_odd_word(word@),
{
    let matches = match non_word {
        Some(m) => pattern_is_match(m, word),
        None => false,
    };
    matches || !has_alphabetic(word)
}

/// What becomes of one word (see `spec_normalize_word`).
pub fn normalize_word(word: &str, replace_pii: bool, non_word: &Option<CompiledPattern>) -> (r:
    Option<String>)
    requires
        non_word is Some <==> spec_regex_compiles(NON_WORD_PATTERN@),
        non_word matches Some(m) ==> m.pattern() == NON_WORD_PATTERN@,
    ensures
        r matches Some(s) ==> spec_normalize_word(word@, replace_pii) == Some(s@),
        r is None ==> spec_normalize_word(word@, replace_pii) is None,
{
    let trimmed = trim_word(word);
    if trimmed.as_str().is_empty() {
        None
    } else {
        if replace_pii && is_odd_word(trimmed.as_str(), non_word) {
            Some(PLACEHOLDER.to_string())
        } else {
            Some(trimmed)
        }
    }
}

/// The line that one sentence becomes (see `spec_line`).
pub fn sentence_line(sentence: &str, replace_pii: bool, non_word: &Option<CompiledPattern>) -> (r:
    Option<String>)
    requires
        non_word is Some <==> spec_regex_compiles(NON_WORD_PATTERN@),
        non_word matches Some(m) ==> m.pattern() == NON_WORD_PATTERN@,
    ensures
        r matches Some(s) ==> spec_line(sentence@, replace_pii) == Some(s@),
        r is None ==> spec_line(sentence@, replace_pii) is None,
{
    let words = split_tokens(sentence);
    let ghost views = words@.map_values(|s: String| s@);
    let ghost f = |w: Seq<char>| spec_normalize_word(w, replace_pii);
    let mut kept: Vec<String> = Vec::new();
    let mut i: usize = 0;
    while i < words.len()
        invariant
            i <= words@.len(),
            views == words@.map_values(|s: String| s@),
            views == spec_split_tokens(sentence@),
            f == (|w: Seq<char>| spec_normalize_word(w, replace_pii)),
            non_word is Some <==> spec_regex_compiles(NON_WORD_PATTERN@),
            non_word matches Some(m) ==> m.pattern() == NON_WORD_PATTERN@,
            kept@.map_values(|s: String| s@) == views.take(i as int).filter_map(f),
        decreases words.len() - i,
    {
        proof {
            views.lemma_filter_map_take_succ(f, i as int);
        }
        let ghost before = kept@;
        match normalize_word(words[i].as_str(), replace_pii, non_word) {
            Some(w) => {
                kept.push(w);
                proof {
                    assert(kept@.map_values(|s: String| s@) == before.map_values(|s: String| s@)
                        + seq![w@]);
                }
            },
            None => {},
        }
        i = i + 1;
    }
    proof {
        assert(views.take(words@.len() as int) == views);
    }
    if kept.len() == 0 {
        None
    } else {
        Some(join_with(&kept, WORD_SEPARATOR))
    }
}

/// Normalizes the words of `text`: one line per sentence, the words of a
/// sentence trimmed of punctuation and separated by single spaces; sentences
/// without words are left out; odd words become `PLACEHOLDER` if asked.
pub fn run(text: String, opts: WordNormalization) -> (r: String)
    ensures
        r@ == spec_run(text@, opts),
{
    let non_word = non_word_matcher();
    let sentences = unicode_sentences(text.as_str());
    let ghost views = sentences@.map_values(|s: String| s@);
    let ghost f = |s: Seq<char>| spec_line(s, opts.replace_pii);
    let mut lines: Vec<String> = Vec::new();
    let mut i: usize = 0;
    while i < sentences.len()
        invariant
            i <= sentences@.len(),
            views == sentences@.map_values(|s: String| s@),
            views == spec_unicode_sentences(text@),
            f == (|s: Seq<char>| spec_line(s, opts.replace_pii)),
            non_word is Some <==> spec_regex_compiles(NON_WORD_PATTERN@),
            non_word matches Some(m) ==> m.pattern() == NON_WORD_PATTERN@,
            lines@.map_values(|s: String| s@) == views.take(i as int).filter_map(f),
        decreases sentences.len() - i,
    {
        proof {
            views.lemma_filter_map_take_succ(f, i as int);
        }
        let ghost before = lines@;
        match sentence_line(sentences[i].as_str(), opts.replace_pii, &non_word) {
            Some(line) => {
                lines.push(line);
                proof {
                    assert(lines@.map_values(|s: String| s@) == before.map_values(|s: String| s@)
                        + seq![line@]);
                }
            },
            None => {},
        }
        i = i + 1;
    }
    proof {
        assert(views.take(sentences@.len() as int) == views);
    }
    join_with(&lines, LINE_SEPARATOR)
}

} // verus!
