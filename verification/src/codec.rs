//! Text and byte conversions that the service leaves to its dependencies:
//! standard base64 in both directions, and tolerant UTF-8 decoding.
//!
//! Nothing here is proved. Each conversion is given a name under which the
//! rest of the crate speaks of its result.

use base64::Engine;
use vstd::prelude::*;

verus! {

/// What the standard base64 engine (the usual alphabet, with padding) makes
/// of `text`: the bytes it stands for, or the decoder's own description of
/// the first fault it found.
pub uninterp spec fn standard_decoding(text: Seq<char>) -> Result<Seq<u8>, Seq<char>>;

/// The standard base64 text of `bytes`.
pub uninterp spec fn standard_encoding(bytes: Seq<u8>) -> Seq<char>;

/// `bytes` read as UTF-8, with every invalid sequence replaced by U+FFFD.
pub uninterp spec fn lossy_utf8(bytes: Seq<u8>) -> Seq<char>;

/// Decodes `text` with `base64::engine::general_purpose::STANDARD.decode`.
///
/// Trusted: the outcome depends on `text` alone and is what
/// [`standard_decoding`] names. A failure is handed back as the text that
/// `base64::DecodeError` displays.
#[verifier::external_body]
pub(crate) fn decode_standard(text: &str) -> (decoded: Result<Vec<u8>, String>)
    ensures
        match decoded {
            Ok(bytes) => standard_decoding(text@) == Ok::<Seq<u8>, Seq<char>>(bytes@),
            Err(detail) => standard_decoding(text@) == Err::<Seq<u8>, Seq<char>>(detail@),
        },
{
    base64::engine::general_purpose::STANDARD.decode(text).map_err(|fault| fault.to_string())
}

/// Encodes `bytes` with `base64::engine::general_purpose::STANDARD.encode`.
///
/// Trusted: the text depends on `bytes` alone and is what
/// [`standard_encoding`] names. The engine panics when the encoded length
/// cannot be held or allocated, so inputs longer than a quarter of the
/// address space are left out.
#[verifier::external_body]
pub(crate) fn encode_standard(bytes: &[u8]) -> (text: String)
    requires
        bytes@.len() <= usize::MAX / 4,
    ensures
        text@ == standard_encoding(bytes@),
{
    base64::engine::general_purpose::STANDARD.encode(bytes)
}

/// Reads `bytes` as text with `String::from_utf8_lossy`.
///
/// Trusted: the text depends on `bytes` alone and is what [`lossy_utf8`]
/// names.
#[verifier::external_body]
pub(crate) fn decode_utf8_lossy(bytes: &[u8]) -> (text: String)
    ensures
        text@ == lossy_utf8(bytes@),
{
    String::from_utf8_lossy(bytes).into_owned()
}

} // verus!
