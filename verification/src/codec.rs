//! Text conversions that this crate does not compute itself: base64 decoding
//! and the quoted, escaped form of a string. Each is done by a call whose
//! contract below is taken on trust.

use vstd::prelude::*;

verus! {

/// Why a text is not base64.
#[derive(Clone, Copy, Debug, PartialEq, Eq)]
pub enum DecodeError {
    /// A byte outside the alphabet, or padding out of place, at this offset.
    InvalidByte { offset: usize, byte: u8 },
    /// The text has a length that no encoded text has.
    InvalidLength,
    /// The last symbol, at this offset, carries bits that belong to no byte.
    InvalidLastSymbol { offset: usize, byte: u8 },
}

/// The outcome of `base64::decode` on `encoded`: the decoded bytes, or the
/// error it reports. Decoding reads nothing but its input.
pub uninterp spec fn base64_decoded(encoded: Seq<char>) -> Result<Seq<u8>, DecodeError>;

/// The text that formatting a string with `{:?}` produces: the string in
/// double quotes, with the characters that cannot stand there escaped.
pub uninterp spec fn debug_quoted(text: Seq<char>) -> Seq<char>;

/// Calls `base64::decode` (standard alphabet) on `encoded` and hands back
/// what it returned, the crate's error rewritten variant by variant.
/// Trusted: that the outcome is `base64_decoded(encoded@)`, the same for the
/// same text every time.
#[verifier::external_body]
pub(crate) fn decode_base64(encoded: &str) -> (r: Result<Vec<u8>, DecodeError>)
    ensures
        match r {
            Ok(bytes) => base64_decoded(encoded@) == Ok::<Seq<u8>, DecodeError>(bytes@),
            Err(e) => base64_decoded(encoded@) == Err::<Seq<u8>, DecodeError>(e),
        },
{
    match base64::decode(encoded) {
        Ok(bytes) => Ok(bytes),
        Err(base64::DecodeError::InvalidByte(offset, byte)) => Err(
            DecodeError::InvalidByte { offset, byte },
        ),
        Err(base64::DecodeError::InvalidLength) => Err(DecodeError::InvalidLength),
        Err(base64::DecodeError::InvalidLastSymbol(offset, byte)) => Err(
            DecodeError::InvalidLastSymbol { offset, byte },
        ),
    }
}

/// Calls `format!` with `{:?}` on `text`, which runs the `Debug`
/// implementation of `str`, and hands back what it wrote.
/// Trusted: that the result is `debug_quoted(text@)`, the same for the same
/// text every time.
#[verifier::external_body]
pub(crate) fn quote_debug(text: &str) -> (r: String)
    ensures
        r@ == debug_quoted(text@),
{
    format!("{:?}", text)
}

} // verus!
