//! Character classes of the Unicode Character Database used by the normalizers.
pub mod bidi_class;
pub mod general_category;

use vstd::prelude::*;

use self::bidi_class::{in_paragraph_separator, in_segment_separator, in_white_space};
use self::general_category::{in_control, in_mark, in_modifier_symbol, in_number, in_punctuation};

verus! {

/// A character that separates words: bidi class White_Space or Segment_Separator.
pub open spec fn spec_word_separator(c: char) -> bool {
    bidi_class::is_white_space(c) || bidi_class::is_segment_separator(c)
}

/// A modifier symbol (general category Sk).
pub open spec fn spec_modifier(c: char) -> bool {
    general_category::is_modifier_symbol(c)
}

/// A combining mark (general category M).
pub open spec fn spec_combining_mark(c: char) -> bool {
    general_category::is_mark(c)
}

/// A paragraph separator (bidi class Paragraph_Separator).
pub open spec fn spec_paragraph_separator(c: char) -> bool {
    bidi_class::is_paragraph_separator(c)
}

/// A control character (general category Cc) that separates neither paragraphs nor segments.
pub open spec fn spec_control(c: char) -> bool {
    !bidi_class::is_paragraph_separator(c) && !bidi_class::is_segment_separator(c) && general_category::is_control(c)
}

/// Punctuation (general category P).
pub open spec fn spec_punctuation(c: char) -> bool {
    general_category::is_punctuation(c)
}

/// A number (general category N).
pub open spec fn spec_number(c: char) -> bool {
    general_category::is_number(c)
}

/// Whether `c` separates words (see `spec_word_separator`).
pub fn word_separator(c: char) -> (r: bool)
    ensures
        r == spec_word_separator(c),
{
    in_white_space(c) || in_segment_separator(c)
}

/// Whether `c` is a modifier symbol.
pub fn modifier(c: char) -> (r: bool)
    ensures
        r == spec_modifier(c),
{
    in_modifier_symbol(c)
}

/// Whether `c` is a combining mark.
pub fn combining_mark(c: char) -> (r: bool)
    ensures
        r == spec_combining_mark(c),
{
    in_mark(c)
}

/// Whether `c` is a control character that separates neither paragraphs nor segments.
pub fn control(c: char) -> (r: bool)
    ensures
        r == spec_control(c),
{
    !paragraph_separator(c) && !in_segment_separator(c) && in_control(c)
}

/// Whether `c` separates paragraphs.
pub fn paragraph_separator(c: char) -> (r: bool)
    ensures
        r == spec_paragraph_separator(c),
{
    in_paragraph_separator(c)
}

/// Whether `c` is punctuation.
pub fn punctuation(c: char) -> (r: bool)
    ensures
        r == spec_punctuation(c),
{
    in_punctuation(c)
}

/// Whether `c` is a number.
pub fn number(c: char) -> (r: bool)
    ensures
        r == spec_number(c),
{
    in_number(c)
}

} // verus!
