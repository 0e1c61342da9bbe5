//! Turning stored bytes into text without ever failing.
use vstd::prelude::*;
use vstd::utf8::{decode_utf8, valid_utf8};

verus! {

/// What `String::from_utf8_lossy` makes of `bytes`: the decoded text, with every invalid
/// sequence replaced by U+FFFD.
pub uninterp spec fn utf8_lossy(bytes: Seq<u8>) -> Seq<char>;

/// The text that `try_string_from_bytes` returns: the UTF-8 decoding where the bytes are
/// valid UTF-8, the lossy decoding otherwise.
pub open spec fn text_of_bytes(bytes: Seq<u8>) -> Seq<char> {
    if valid_utf8(bytes) {
        decode_utf8(bytes)
    } else {
        utf8_lossy(bytes)
    }
}

/// Calls `String::from_utf8_lossy`. Its result is named `utf8_lossy`; on valid UTF-8 nothing
/// is replaced, so it is the plain decoding.
#[verifier::external_body]
fn string_from_utf8_lossy(bytes: &[u8]) -> (s: String)
    ensures
        s@ == utf8_lossy(bytes@),
        valid_utf8(bytes@) ==> s@ == decode_utf8(bytes@),
{
    String::from_utf8_lossy(bytes).into_owned()
}

/// Decodes stored bytes as UTF-8 so that it never fails: valid UTF-8 is decoded as it is,
/// and on corrupted storage each invalid sequence becomes U+FFFD. This is what decoding with
/// `String::from_utf8` and falling back to `String::from_utf8_lossy` gives, which is the
/// lossy decoding in both cases.
pub fn try_string_from_bytes(bytes: &[u8]) -> (s: String)
    ensures
        s@ == text_of_bytes(bytes@),
        s@ == utf8_lossy(bytes@),
{
    string_from_utf8_lossy(bytes)
}

} // verus!
