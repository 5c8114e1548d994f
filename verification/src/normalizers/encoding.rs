//! Decoding of raw bytes into text, with the encoding detected by `chardetng`.
use vstd::prelude::*;

use crate::text::push_char;

verus! {

#[verifier::external_type_specification]
#[verifier::external_body]
pub struct ExEncodingDetector(chardetng::EncodingDetector);

/// The bytes that have been fed to an encoding detector, in order.
pub uninterp spec fn spec_detector_input(d: chardetng::EncodingDetector) -> Seq<u8>;

/// Whether the end of the stream has been fed to an encoding detector.
pub uninterp spec fn spec_detector_closed(d: chardetng::EncodingDetector) -> bool;

/// The name of the encoding that `EncodingDetector::guess` (with no top-level
/// domain) returns after the given stream was fed, its end fed or not.
pub uninterp spec fn spec_guess(input: Seq<u8>, closed: bool, allow_utf8: bool) -> Seq<char>;

/// What `Encoding::decode_with_bom_removal` returns for the encoding of the
/// given label and the bytes: the text and whether malformed sequences were
/// replaced; `None` where no encoding has that label.
pub uninterp spec fn spec_decode(label: Seq<char>, bytes: Seq<u8>) -> Option<(Seq<char>, bool)>;

/// Whether some byte lies outside ASCII.
pub open spec fn spec_has_non_ascii(bytes: Seq<u8>) -> bool {
    exists|i: int| 0 <= i < bytes.len() && #[trigger] bytes[i] >= 0x80
}

/// The text of ASCII bytes, one character per byte.
pub open spec fn spec_ascii_text(bytes: Seq<u8>) -> Seq<char> {
    bytes.map_values(|b: u8| b as char)
}

/// The text that the raw bytes decode to: ASCII as it is; otherwise decoded
/// with the detected encoding (UTF-8 allowed), and nothing where that
/// decoding finds malformed sequences.
pub open spec fn spec_decoded(raw: Seq<u8>) -> Option<Seq<char>> {
    if !spec_has_non_ascii(raw) {
        Some(spec_ascii_text(raw))
    } else {
        match spec_decode(spec_guess(raw, true, true), raw) {
            Some((text, malformed)) => if malformed {
                None
            } else {
                Some(text)
            },
            None => None,
        }
    }
}

/// ASCII input decodes to itself, one character per byte.
pub proof fn lemma_ascii_decodes_to_itself(raw: Seq<u8>)
    requires
        forall|i: int| 0 <= i < raw.len() ==> #[trigger] raw[i] < 0x80,
    ensures
        spec_decoded(raw) == Some(spec_ascii_text(raw)),
        spec_ascii_text(raw).len() == raw.len(),
        forall|i: int| 0 <= i < raw.len() ==> #[trigger] spec_ascii_text(raw)[i] as u32 == raw[i] as u32,
{
}

/// Input with a non-ASCII byte decodes with the encoding the detector
/// guesses for the whole input, whatever that encoding is: to the decoded
/// text where no malformed sequence was found, and to nothing otherwise.
pub proof fn lemma_non_ascii_decodes_with_guessed_encoding(raw: Seq<u8>)
    requires
        exists|i: int| 0 <= i < raw.len() && #[trigger] raw[i] >= 0x80,
    ensures
        spec_decoded(raw) == match spec_decode(spec_guess(raw, true, true), raw) {
            Some((text, false)) => Some(text),
            _ => None::<Seq<char>>,
        },
{
}

/// `EncodingDetector::new`: a detector that has been fed nothing.
#[verifier::external_body]
fn new_detector() -> (d: chardetng::EncodingDetector)
    ensures
        spec_detector_input(d) == Seq::<u8>::empty(),
        !spec_detector_closed(d),
{
    chardetng::EncodingDetector::new()
}

/// `EncodingDetector::feed`: appends the buffer to the stream, ends the stream
/// if `last`, and returns whether the stream has held a non-ASCII byte. It
/// panics if the stream has ended before, which `requires` leaves out.
#[verifier::external_body]
fn feed(d: &mut chardetng::EncodingDetector, buffer: &[u8], last: bool) -> (r: bool)
    requires
        !spec_detector_closed(*old(d)),
    ensures
        spec_detector_input(*final(d)) == spec_detector_input(*old(d)) + buffer@,
        spec_detector_closed(*final(d)) == last,
        r == spec_has_non_ascii(spec_detector_input(*final(d))),
{
    d.feed(buffer, last)
}

/// `EncodingDetector::guess` with no top-level domain, the encoding given by
/// its name. The contract names the result and claims that it depends on the
/// stream fed, whether it has ended and `allow_utf8` alone (the documentation
/// says that the chunking of the stream does not matter).
#[verifier::external_body]
fn guess(d: &chardetng::EncodingDetector, allow_utf8: bool) -> (name: &'static str)
    ensures
        name@ == spec_guess(spec_detector_input(*d), spec_detector_closed(*d), allow_utf8),
{
    d.guess(None, allow_utf8).name()
}

/// `Encoding::decode_with_bom_removal` of `encoding_rs` on the encoding that
/// `Encoding::for_label` finds for the label (`None` where it finds none). It
/// panics where the size of its output buffer overflows `usize`, which the
/// bound on the input's length leaves out. The contract names the result and
/// claims that it depends on the label and the bytes alone.
#[verifier::external_body]
fn decode_with_bom_removal(label: &str, bytes: &[u8]) -> (r: Option<(String, bool)>)
    requires
        bytes@.len() <= usize::MAX / 16,
    ensures
        r matches Some((text, malformed)) ==> spec_decode(label@, bytes@) == Some((text@, malformed)),
        r is None ==> spec_decode(label@, bytes@) is None,
{
    match encoding_rs::Encoding::for_label(label.as_bytes()) {
        Some(encoding) => {
            let (text, malformed) = encoding.decode_with_bom_removal(bytes);
            Some((text.into_owned(), malformed))
        },
        None => None,
    }
}

/// The text of ASCII bytes, one character per byte.
pub fn ascii_text(raw: &[u8]) -> (r: String)
    ensures
        r@ == spec_ascii_text(raw@),
{
    let mut out = String::new();
    let mut i: usize = 0;
    while i < raw.len()
        invariant
            i <= raw@.len(),
            out@ == spec_ascii_text(raw@.take(i as int)),
        decreases raw.len() - i,
    {
        proof {
            assert(raw@.take(i + 1) == raw@.take(i as int).push(raw@[i as int]));
        }
        push_char(&mut out, raw[i] as char);
        i = i + 1;
    }
    proof {
        assert(raw@.take(raw@.len() as int) == raw@);
    }
    out
}

/// Decodes raw bytes into text (see `spec_decoded`); `None` where the
/// detected encoding finds malformed sequences.
pub fn checked_to_utf8(raw: &[u8]) -> (r: Option<String>)
    requires
        raw@.len() <= usize::MAX / 16,
    ensures
        r matches Some(s) ==> spec_decoded(raw@) == Some(s@),
        r is None ==> spec_decoded(raw@) is None,
{
    decode(raw)
}

/// Decodes raw bytes into text (see `spec_decoded`), where they decode
/// without malformed sequences.
pub fn to_utf8(raw: &[u8]) -> (r: String)
    requires
        raw@.len() <= usize::MAX / 16,
        spec_decoded(raw@) is Some,
    ensures
        Some(r@) == spec_decoded(raw@),
{
    decode(raw).unwrap()
}

fn decode(raw: &[u8]) -> (r: Option<String>)
    requires
        raw@.len() <= usize::MAX / 16,
    ensures
        r matches Some(s) ==> spec_decoded(raw@) == Some(s@),
        r is None ==> spec_decoded(raw@) is None,
{
    let mut detector = new_detector();
    if !feed(&mut detector, raw, true) {
        proof {
            assert(spec_detector_input(detector) == raw@);
        }
        return Some(ascii_text(raw));
    }
    proof {
        assert(spec_detector_input(detector) == raw@);
    }
    let label = guess(&detector, true);
    match decode_with_bom_removal(label, raw) {
        Some((text, malformed)) => if malformed {
            None
        } else {
            Some(text)
        },
        None => None,
    }
}

} // verus!
