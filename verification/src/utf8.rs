//! Decoding of raw document bytes as UTF-8 text.

use vstd::prelude::*;
use vstd::string::StringSliceAdditionalSpecFns;
use vstd::utf8::{decode_utf8, encode_utf8_decode_utf8, valid_utf8};

verus! {

/// `std::str::from_utf8`, with its error dropped.
///
/// Trusted: that the result is `Some` exactly when `bytes` are well-formed
/// UTF-8, and that the text then consists of these same bytes.
#[verifier::external_body]
fn from_utf8(bytes: &[u8]) -> (text: Option<&str>)
    ensures
        text is Some <==> valid_utf8(bytes@),
        text matches Some(t) ==> t.spec_bytes() == bytes@,
{
    std::str::from_utf8(bytes).ok()
}

/// The text that `bytes` encode, if they are well-formed UTF-8.
pub fn utf8_text(bytes: &[u8]) -> (text: Option<&str>)
    ensures
        text is Some <==> valid_utf8(bytes@),
        text matches Some(t) ==> t@ == decode_utf8(bytes@),
{
    let text = from_utf8(bytes);
    proof {
        if let Some(t) = text {
            encode_utf8_decode_utf8(t@);
        }
    }
    text
}

} // verus!
