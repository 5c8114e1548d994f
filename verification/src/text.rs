//! Small operations of std on strings and characters, with what their
//! documentation states of them.
use vstd::prelude::*;

verus! {

/// `String::push`: appends the character to the end of the string.
#[verifier::external_body]
pub(crate) fn push_char(s: &mut String, c: char)
    ensures
        final(s)@ == old(s)@.push(c),
{
    s.push(c)
}

/// What `str::to_lowercase` of std returns for a text.
pub uninterp spec fn spec_to_lowercase(text: Seq<char>) -> Seq<char>;

/// `str::to_lowercase` of std: the lower-case equivalent of the text, by the
/// Unicode Lowercase property, independent of any locale. The contract names
/// the result and claims that it depends on the text alone.
#[verifier::external_body]
pub(crate) fn to_lowercase(text: &str) -> (r: String)
    ensures
        r@ == spec_to_lowercase(text@),
{
    text.to_lowercase()
}

/// Whether std counts the character as alphanumeric (`char::is_alphanumeric`).
pub uninterp spec fn spec_is_alphanumeric(c: char) -> bool;

/// Whether std counts the character as alphabetic (`char::is_alphabetic`).
pub uninterp spec fn spec_is_alphabetic(c: char) -> bool;

/// `char::is_alphanumeric` of std: the Alphabetic or the Numeric property.
/// The contract names the result and claims that it depends on the character alone.
#[verifier::external_body]
pub(crate) fn is_alphanumeric(c: char) -> (r: bool)
    ensures
        r == spec_is_alphanumeric(c),
{
    c.is_alphanumeric()
}

/// `char::is_alphabetic` of std: the Alphabetic property.
/// The contract names the result and claims that it depends on the character alone.
#[verifier::external_body]
pub(crate) fn is_alphabetic(c: char) -> (r: bool)
    ensures
        r == spec_is_alphabetic(c),
{
    c.is_alphabetic()
}

/// The characters of a string, in order.
pub fn chars_of(s: &str) -> (r: Vec<char>)
    ensures
        r@ == s@,
{
    let mut out: Vec<char> = Vec::new();
    for c in it: s.chars()
        invariant
            it.seq() == s@,
            out@ == s@.take(it.index() as int),
    {
        proof {
            assert(s@.take(it.index() + 1) == s@.take(it.index() as int).push(c));
        }
        out.push(c);
    }
    proof {
        assert(s@.take(s@.len() as int) == s@);
    }
    out
}

/// The string made of `chars[from..to]`.
pub fn string_of(chars: &Vec<char>, from: usize, to: usize) -> (r: String)
    requires
        from <= to <= chars.len(),
    ensures
        r@ == chars@.subrange(from as int, to as int),
{
    let mut out = String::new();
    let mut i = from;
    while i < to
        invariant
            from <= i <= to <= chars.len(),
            out@ == chars@.subrange(from as int, i as int),
        decreases to - i,
    {
        proof {
            assert(chars@.subrange(from as int, i + 1) == chars@.subrange(from as int, i as int).push(
                chars@[i as int],
            ));
        }
        push_char(&mut out, chars[i]);
        i = i + 1;
    }
    out
}

/// Filtering and mapping a concatenation filters and maps each part.
pub proof fn lemma_filter_map_add<A, B>(a: Seq<A>, b: Seq<A>, f: spec_fn(A) -> Option<B>)
    ensures
        (a + b).filter_map(f) == a.filter_map(f) + b.filter_map(f),
    decreases b.len(),
{
    if b.len() == 0 {
        assert(a + b == a);
        assert(b.filter_map(f) == Seq::<B>::empty());
        assert(a.filter_map(f) + Seq::<B>::empty() == a.filter_map(f));
    } else {
        let rest = b.drop_last();
        lemma_filter_map_add(a, rest, f);
        assert((a + b).drop_last() == a + rest);
        assert((a + b).last() == b.last());
        match f(b.last()) {
            Some(x) => {
                assert((a + b).filter_map(f) == (a + rest).filter_map(f) + seq![x]);
                assert(b.filter_map(f) == rest.filter_map(f) + seq![x]);
                assert(a.filter_map(f) + (rest.filter_map(f) + seq![x]) == (a.filter_map(f)
                    + rest.filter_map(f)) + seq![x]);
            },
            None => {
                assert((a + b).filter_map(f) == (a + rest).filter_map(f));
                assert(b.filter_map(f) == rest.filter_map(f));
            },
        }
    }
}

/// The parts, in order, with `sep` between each two of them.
pub open spec fn spec_join(parts: Seq<Seq<char>>, sep: char) -> Seq<char>
    decreases parts.len(),
{
    if parts.len() == 0 {
        Seq::empty()
    } else if parts.len() == 1 {
        parts[0]
    } else {
        spec_join(parts.drop_last(), sep).push(sep) + parts.last()
    }
}

/// Joining two non-empty lists of parts is joining each and putting the
/// separator between them; the joined text is as long as the parts together
/// with one separator between each two of them.
pub proof fn lemma_join_add(a: Seq<Seq<char>>, b: Seq<Seq<char>>, sep: char)
    requires
        a.len() > 0,
        b.len() > 0,
    ensures
        spec_join(a + b, sep) == spec_join(a, sep).push(sep) + spec_join(b, sep),
    decreases b.len(),
{
    if b.len() == 1 {
        assert((a + b).drop_last() == a);
        assert((a + b).last() == b[0]);
    } else {
        let rest = b.drop_last();
        lemma_join_add(a, rest, sep);
        assert((a + b).drop_last() == a + rest);
        assert((a + b).last() == b.last());
        assert(spec_join(b, sep) == spec_join(rest, sep).push(sep) + b.last());
        assert(spec_join(a, sep).push(sep) + (spec_join(rest, sep).push(sep) + b.last()) == (
        spec_join(a, sep).push(sep) + spec_join(rest, sep)).push(sep) + b.last());
    }
}

/// The joined text of one part is that part; of no part, nothing.
pub proof fn lemma_join_small(part: Seq<char>, sep: char)
    ensures
        spec_join(Seq::<Seq<char>>::empty(), sep) == Seq::<char>::empty(),
        spec_join(seq![part], sep) == part,
{
}

/// Joins the parts with `sep` between each two of them.
pub fn join_with(parts: &Vec<String>, sep: char) -> (r: String)
    ensures
        r@ == spec_join(parts@.map_values(|s: String| s@), sep),
{
    let ghost views = parts@.map_values(|s: String| s@);
    let mut out = String::new();
    let mut i: usize = 0;
    while i < parts.len()
        invariant
            i <= parts.len(),
            views == parts@.map_values(|s: String| s@),
            out@ == spec_join(views.take(i as int), sep),
        decreases parts.len() - i,
    {
        proof {
            assert(views.take(i + 1).drop_last() == views.take(i as int));
            assert(views.take(i + 1).last() == parts@[i as int]@);
        }
        if i > 0 {
            push_char(&mut out, sep);
        }
        out.append(parts[i].as_str());
        i = i + 1;
    }
    proof {
        assert(views.take(parts.len() as int) == views);
    }
    out
}

} // verus!
