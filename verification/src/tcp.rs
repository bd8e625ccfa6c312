//! The text of a reply read from a TCP server.
use vstd::prelude::*;
use vstd::utf8::*;
use vstd::slice::slice_to_vec;
use crate::text::string_from_utf8;

verus! {

/// The text held in a receive buffer: the whole buffer, bytes never written
/// by the read included, decoded as UTF-8; `None` when the buffer is not
/// well-formed UTF-8.
pub fn response_text(buf: &[u8]) -> (r: Option<String>)
    ensures
        r is Some <==> valid_utf8(buf@),
        r matches Some(s) ==> s@ == decode_utf8(buf@),
{
    string_from_utf8(slice_to_vec(buf))
}

} // verus!
