//! A standard base64 encoding of binary data with optional padding. The
//! encoding itself is the base64 crate's standard engine; this module only
//! selects the engine and maps its outcomes.

use vstd::prelude::*;
use base64::Engine;
use base64::prelude::{BASE64_STANDARD, BASE64_STANDARD_NO_PAD};
use crate::Binary;
use crate::error::Error;
use crate::repr::spec_parsed;

verus! {

/// Options controlling the base64 representation.
#[derive(Clone, Copy, Debug, PartialEq, Eq, Structural)]
pub struct Base64FormatOptions {
    /// Whether to drop the standard `=` padding.
    pub compact: bool,
}

impl Default for Base64FormatOptions {
    /// Standard, padded base64.
    fn default() -> (r: Self)
        ensures
            r == (Base64FormatOptions { compact: false }),
    {
        Base64FormatOptions { compact: false }
    }
}

impl Base64FormatOptions {
    /// Use a compact representation: turn off standard base64 padding.
    pub fn compact(self, compact: bool) -> (r: Self)
        ensures
            r == (Base64FormatOptions { compact }),
    {
        Base64FormatOptions { compact }
    }
}

/// The standard, padded base64 text of the bytes.
pub uninterp spec fn spec_base64_standard(bytes: Seq<u8>) -> Seq<char>;

/// The standard base64 text of the bytes, without padding.
pub uninterp spec fn spec_base64_standard_no_pad(bytes: Seq<u8>) -> Seq<char>;

/// What the standard, padded base64 decoder yields for a text: the bytes,
/// or nothing when the text is not valid base64.
pub uninterp spec fn spec_base64_standard_decode(text: Seq<char>) -> Option<Seq<u8>>;

/// Relies on `base64::Engine::encode` with the `BASE64_STANDARD` engine:
/// the encoding is a function of the input bytes alone, and an empty
/// input encodes to an empty text.
#[verifier::external_body]
fn encode_standard(bytes: &[u8]) -> (r: String)
    ensures
        r@ == spec_base64_standard(bytes@),
        bytes@.len() == 0 ==> r@.len() == 0,
{
    BASE64_STANDARD.encode(bytes)
}

/// Relies on `base64::Engine::encode` with the `BASE64_STANDARD_NO_PAD`
/// engine: the encoding is a function of the input bytes alone, and an
/// empty input encodes to an empty text.
#[verifier::external_body]
fn encode_standard_no_pad(bytes: &[u8]) -> (r: String)
    ensures
        r@ == spec_base64_standard_no_pad(bytes@),
        bytes@.len() == 0 ==> r@.len() == 0,
{
    BASE64_STANDARD_NO_PAD.encode(bytes)
}

/// Relies on `base64::Engine::decode` with the `BASE64_STANDARD` engine:
/// whether it succeeds and what it yields are functions of the input text
/// alone.
#[verifier::external_body]
fn decode_standard(text: &str) -> (r: Option<Vec<u8>>)
    ensures
        (r is Some) == (spec_base64_standard_decode(text@) is Some),
        r matches Some(v) ==> spec_base64_standard_decode(text@) == Some(v@),
{
    BASE64_STANDARD.decode(text).ok()
}

/// Render `value` as base64 text: standard padded base64, or the unpadded
/// variant when compact.
pub fn base64_representation(value: &Binary<'_>, options: &Base64FormatOptions) -> (r: String)
    ensures
        r@ == (if options.compact {
            spec_base64_standard_no_pad(value@)
        } else {
            spec_base64_standard(value@)
        }),
        value@.len() == 0 ==> r@.len() == 0,
{
    if options.compact {
        encode_standard_no_pad(value.as_slice())
    } else {
        encode_standard(value.as_slice())
    }
}

/// Decode standard base64 text back into bytes; text the standard decoder
/// rejects is reported as an invalid representation.
pub fn parse_base64_representation<'a>(s: &'a str) -> (r: Result<Binary<'a>, Error>)
    ensures
        spec_parsed(r) == (match spec_base64_standard_decode(s@) {
            Some(bytes) => Ok::<Seq<u8>, Error>(bytes),
            None => Err(Error::InvalidRepresentation),
        }),
{
    match decode_standard(s) {
        Some(v) => Ok(Binary::Owned(v)),
        None => Err(Error::InvalidRepresentation),
    }
}

} // verus!
