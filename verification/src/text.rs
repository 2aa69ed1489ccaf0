//! Text as bytes: UTF-8 encoding and decoding of strings.

use vstd::prelude::*;
use vstd::utf8::*;
use crate::wire::copy_range;

verus! {

/// The UTF-8 bytes of `s`.
pub fn string_bytes(s: &String) -> (b: Vec<u8>)
    ensures
        b@ == encode_utf8(s@),
{
    let bytes = s.as_str().as_bytes();
    let copy = copy_range(bytes, 0, bytes.len());
    assert(copy@ == bytes@);
    copy
}

/// The number of UTF-8 bytes of `s`.
pub fn string_byte_len(s: &String) -> (n: usize)
    ensures
        n == encode_utf8(s@).len(),
{
    s.as_str().as_bytes().len()
}

/// The string whose UTF-8 encoding is `bytes`, or `None` when `bytes` is not
/// valid UTF-8 (`String::from_utf8`).
#[verifier::external_body]
pub(crate) fn string_from_utf8(bytes: Vec<u8>) -> (r: Option<String>)
    ensures
        r is Some <==> valid_utf8(bytes@),
        r matches Some(s) ==> s@ == decode_utf8(bytes@),
{
    String::from_utf8(bytes).ok()
}

} // verus!
