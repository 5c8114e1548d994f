//! Bidi_Class property tables of the Unicode Character Database (Unicode 14.0.0).
use vstd::prelude::*;

verus! {

/// The code points whose Bidi_Class=White_Space (WS), as ranges of scalar values.
pub open spec fn is_white_space(c: char) -> bool {
    let u = c as u32;
    ||| u == 0x000C
    ||| u == 0x0020
    ||| u == 0x1680
    ||| 0x2000 <= u <= 0x200A
    ||| u == 0x2028
    ||| u == 0x205F
    ||| u == 0x3000
}

/// Whether `c` has Bidi_Class=White_Space (WS).
pub fn in_white_space(c: char) -> (r: bool)
    ensures
        r == is_white_space(c),
{
    let u = c as u32;
    match u {
        0x000C | 0x0020 | 0x1680 | 0x2000..=0x200A | 0x2028 | 0x205F | 0x3000 => true,
        _ => false,
    }
}

/// The code points whose Bidi_Class=Segment_Separator (S), as ranges of scalar values.
pub open spec fn is_segment_separator(c: char) -> bool {
    let u = c as u32;
    ||| u == 0x0009
    ||| u == 0x000B
    ||| u == 0x001F
}

/// Whether `c` has Bidi_Class=Segment_Separator (S).
pub fn in_segment_separator(c: char) -> (r: bool)
    ensures
        r == is_segment_separator(c),
{
    let u = c as u32;
    match u {
        0x0009 | 0x000B | 0x001F => true,
        _ => false,
    }
}

/// The code points whose Bidi_Class=Paragraph_Separator (B), as ranges of scalar values.
pub open spec fn is_paragraph_separator(c: char) -> bool {
    let u = c as u32;
    ||| u == 0x000A
    ||| u == 0x000D
    ||| 0x001C <= u <= 0x001E
    ||| u == 0x0085
    ||| u == 0x2029
}

/// Whether `c` has Bidi_Class=Paragraph_Separator (B).
pub fn in_paragraph_separator(c: char) -> (r: bool)
    ensures
        r == is_paragraph_separator(c),
{
    let u = c as u32;
    match u {
        0x000A | 0x000D | 0x001C..=0x001E | 0x0085 | 0x2029 => true,
        _ => false,
    }
}

} // verus!
