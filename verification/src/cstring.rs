//! Text that the kernel hands over as nul-terminated C strings.

use vstd::prelude::*;
use vstd::string::StringSliceAdditionalSpecFns;
use vstd::utf8::{decode_utf8, encode_utf8_decode_utf8, valid_utf8};

verus! {

/// `b` is a C string: it ends in its only nul byte.
pub open spec fn is_c_string(b: Seq<u8>) -> bool {
    &&& b.len() > 0
    &&& b.last() == 0
    &&& forall|i: int| 0 <= i < b.len() - 1 ==> b[i] != 0
}

/// The bytes of a C string before its nul terminator.
pub open spec fn c_string_content(b: Seq<u8>) -> Seq<u8> {
    b.drop_last()
}

/// `b` is a C string whose content is valid UTF-8.
pub open spec fn is_utf8_c_string(b: Seq<u8>) -> bool {
    is_c_string(b) && valid_utf8(c_string_content(b))
}

/// Calls `cstr_core::CStr::from_bytes_with_nul` on `bytes`, and on success
/// `cstr_core::CStr::to_str` on the result.
///
/// Claimed, as the crate's source shows: the first call succeeds exactly
/// when `bytes` ends in its only nul byte; the second then succeeds exactly
/// when the bytes before the nul are valid UTF-8, and gives the text whose
/// UTF-8 encoding is those bytes.
#[verifier::external_body]
fn c_str_text(bytes: &[u8]) -> (r: Option<&str>)
    ensures
        r is Some <==> is_utf8_c_string(bytes@),
        r matches Some(s) ==> s.spec_bytes() == c_string_content(bytes@),
{
    match cstr_core::CStr::from_bytes_with_nul(bytes) {
        Ok(c) => c.to_str().ok(),
        Err(_) => None,
    }
}

/// The text of the C string `bytes` (nul included), which must be valid
/// UTF-8.
pub fn c_string_text(bytes: &[u8]) -> (s: &str)
    requires
        is_utf8_c_string(bytes@),
    ensures
        s.spec_bytes() == c_string_content(bytes@),
        s@ == decode_utf8(c_string_content(bytes@)),
{
    match c_str_text(bytes) {
        Some(text) => {
            proof {
                encode_utf8_decode_utf8(text@);
            }
            text
        },
        None => {
            // Cannot happen: `bytes` is a UTF-8 C string.
            ""
        },
    }
}

} // verus!
