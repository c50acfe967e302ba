//! The text that bytes encode.

use vstd::prelude::*;

verus! {

/// What is wrong with bytes that are not UTF-8, in the words of `std::str::Utf8Error`.
pub uninterp spec fn utf8_fault(bytes: Seq<u8>) -> Seq<char>;

/// The text of bytes, with a replacement character for what is not UTF-8.
pub uninterp spec fn lossy(bytes: Seq<u8>) -> Seq<char>;

/// `std::str::from_utf8`: the encoded text, or what is wrong with the bytes.
#[verifier::external_body]
pub(crate) fn utf8_text(bytes: &[u8]) -> (text: Result<String, String>)
    ensures
        match text {
            Ok(t) => vstd::utf8::valid_utf8(bytes@) && t@ == vstd::utf8::decode_utf8(bytes@),
            Err(fault) => !vstd::utf8::valid_utf8(bytes@) && fault@ == utf8_fault(bytes@),
        },
{
    match std::str::from_utf8(bytes) {
        Ok(t) => Ok(t.to_owned()),
        Err(fault) => Err(fault.to_string()),
    }
}

/// `String::from_utf8_lossy`: the encoded text where the bytes are UTF-8.
#[verifier::external_body]
pub(crate) fn lossy_text(bytes: &[u8]) -> (text: String)
    ensures
        text@ == lossy(bytes@),
        vstd::utf8::valid_utf8(bytes@) ==> text@ == vstd::utf8::decode_utf8(bytes@),
{
    String::from_utf8_lossy(bytes).into_owned()
}

} // verus!
