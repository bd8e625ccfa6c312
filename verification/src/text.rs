//! Byte-to-text conversion shared by the other modules.
use vstd::prelude::*;
use vstd::utf8::*;

verus! {

/// Calls `String::from_utf8` (std). As its documentation says, the call
/// succeeds exactly when the bytes are well-formed UTF-8, and the string it
/// returns holds the characters those bytes encode; the contract states both
/// over vstd's model of UTF-8.
#[verifier::external_body]
pub(crate) fn string_from_utf8(bytes: Vec<u8>) -> (r: Option<String>)
    ensures
        r is Some <==> valid_utf8(bytes@),
        r matches Some(s) ==> s@ == decode_utf8(bytes@),
{
    String::from_utf8(bytes).ok()
}

/// ASCII bytes are well-formed UTF-8 and decode to the characters with the
/// same codes.
pub proof fn lemma_ascii_decodes(bytes: Seq<u8>)
    requires
        forall|i: int| 0 <= i < bytes.len() ==> #[trigger] bytes[i] < 128,
    ensures
        valid_utf8(bytes),
        decode_utf8(bytes) == Seq::new(bytes.len(), |i: int| bytes[i] as char),
    decreases bytes.len(),
{
    let chars = Seq::new(bytes.len(), |i: int| bytes[i] as char);
    lemma_ascii_encodes(bytes);
    broadcast use encode_utf8_valid_utf8, encode_utf8_decode_utf8;
    assert(encode_utf8(chars) == bytes);
}

proof fn lemma_ascii_encodes(bytes: Seq<u8>)
    requires
        forall|i: int| 0 <= i < bytes.len() ==> #[trigger] bytes[i] < 128,
    ensures
        encode_utf8(Seq::new(bytes.len(), |i: int| bytes[i] as char)) == bytes,
    decreases bytes.len(),
{
    let chars = Seq::new(bytes.len(), |i: int| bytes[i] as char);
    if bytes.len() > 0 {
        let rest = bytes.drop_first();
        lemma_ascii_encodes(rest);
        assert(chars.drop_first() =~= Seq::new(rest.len(), |i: int| rest[i] as char));
        let b: u8 = bytes[0];
        let c: u32 = (b as char) as u32;
        assert(c == b as u32);
        assert(b < 128 ==> ((b as u32) & 0x7f) as u8 == b) by (bit_vector);
        assert(encode_scalar(c) =~= seq![b]);
        assert(encode_utf8(chars) =~= seq![b] + rest);
        assert(seq![b] + rest =~= bytes);
    }
}

} // verus!
