//! Locating a regular-expression match in a text and cutting it out.
use vstd::prelude::*;
use vstd::utf8::*;
use vstd::string::StringSliceAdditionalSpecFns;

verus! {

/// What `regex` reports for `pattern` searched in `haystack`: `None` when
/// the pattern does not compile, `Some(None)` when it has no match, and
/// `Some(Some((start, end)))` with the byte offsets of the leftmost-first
/// match otherwise.
pub uninterp spec fn regex_first_match(pattern: Seq<char>, haystack: Seq<char>) -> Option<Option<(usize, usize)>>;

/// Compiles `pattern` with `regex::Regex::new` and searches `haystack` with
/// `regex::Regex::find`, reporting the match as its byte offsets
/// (`Match::start`, `Match::end`). Compiling the pattern only turns the
/// argument into the form the search takes. The result is named
/// `regex_first_match`; beside the name, the contract states what the
/// crate documents of every `Match`: `start <= end`, both offsets within the
/// haystack and on UTF-8 character boundaries.
#[verifier::external_body]
pub(crate) fn regex_find(pattern: &str, haystack: &str) -> (r: Option<Option<(usize, usize)>>)
    ensures
        r == regex_first_match(pattern@, haystack@),
        r matches Some(Some((start, end))) ==> {
            &&& start <= end <= haystack.spec_bytes().len()
            &&& is_char_boundary(haystack.spec_bytes(), start as int)
            &&& is_char_boundary(haystack.spec_bytes(), end as int)
        },
{
    match regex::Regex::new(pattern) {
        Err(_) => None,
        Ok(re) => Some(re.find(haystack).map(|m| (m.start(), m.end()))),
    }
}

/// The characters of `text` whose UTF-8 bytes lie between byte offsets
/// `start` and `end`.
pub open spec fn text_between(text: Seq<char>, start: int, end: int) -> Seq<char> {
    decode_utf8(encode_utf8(text).subrange(start, end))
}

/// The text found by `regex_first_match`, or the empty text when there is
/// no match.
pub open spec fn matched_text(pattern: Seq<char>, haystack: Seq<char>) -> Seq<char> {
    match regex_first_match(pattern, haystack) {
        Some(Some((start, end))) => text_between(haystack, start as int, end as int),
        _ => Seq::empty(),
    }
}

proof fn lemma_suffix_boundary(bytes: Seq<u8>, start: int, end: int)
    requires
        valid_utf8(bytes),
        0 <= start <= end <= bytes.len(),
        is_char_boundary(bytes, start),
        is_char_boundary(bytes, end),
    ensures
        valid_utf8(bytes.subrange(start, bytes.len() as int)),
        is_char_boundary(bytes.subrange(start, bytes.len() as int), end - start),
{
    broadcast use valid_utf8_split, is_char_boundary_start_end_of_seq,
        is_char_boundary_iff_not_is_continuation_byte;

    let rest = bytes.subrange(start, bytes.len() as int);
    assert(valid_utf8(rest));
    if end == start {
        assert(is_char_boundary(rest, 0));
    } else if end == bytes.len() {
        assert(rest.len() == end - start);
        assert(is_char_boundary(rest, rest.len() as int));
    } else {
        assert(is_char_boundary(bytes, end) <==> !is_continuation_byte(bytes[end]));
        assert(rest[end - start] == bytes[end]);
        assert(is_char_boundary(rest, end - start) <==> !is_continuation_byte(rest[end - start]));
    }
}

/// Copies the part of `text` between two byte offsets that fall on
/// character boundaries (the slice `&text[start..end]`).
pub fn slice_between(text: &str, start: usize, end: usize) -> (r: String)
    requires
        start <= end <= text.spec_bytes().len(),
        is_char_boundary(text.spec_bytes(), start as int),
        is_char_boundary(text.spec_bytes(), end as int),
    ensures
        r@ == text_between(text@, start as int, end as int),
{
    broadcast use encode_utf8_valid_utf8, encode_utf8_decode_utf8;

    let ghost bytes = text.spec_bytes();
    proof {
        assert(valid_utf8(encode_utf8(text@)));
        lemma_suffix_boundary(bytes, start as int, end as int);
    }
    let (_, rest) = text.split_at(start);
    let (mid, _) = rest.split_at(end - start);
    assert(mid.spec_bytes() =~= bytes.subrange(start as int, end as int));
    let r = mid.to_owned();
    assert(decode_utf8(encode_utf8(mid@)) == mid@);
    r
}

} // verus!
