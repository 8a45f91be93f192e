//! Native strings into owned text.
//!
//! The native library hands out paths and messages as bytes with no promise
//! that they are well-formed UTF-8. They are copied into owned strings
//! without ever failing: well-formed bytes keep their text, and each
//! ill-formed sequence is replaced.
use vstd::prelude::*;
use vstd::utf8::*;

verus! {

/// The text that lossy UTF-8 decoding gives for `bytes`: the decoded
/// characters, with U+FFFD in place of each ill-formed sequence.
pub uninterp spec fn lossy_text(bytes: Seq<u8>) -> Seq<char>;

/// Copies the bytes of a native string into an owned string, by
/// `String::from_utf8_lossy`.
///
/// Trusted, not proved: the result is a function of the bytes alone, named
/// [`lossy_text`], and it is the decoded text itself wherever the bytes are
/// well-formed UTF-8, as the standard library documents.
#[verifier::external_body]
pub(crate) fn owned_text(bytes: &[u8]) -> (text: String)
    ensures
        text@ == lossy_text(bytes@),
        valid_utf8(bytes@) ==> text@ == decode_utf8(bytes@),
{
    String::from_utf8_lossy(bytes).into_owned()
}

} // verus!
