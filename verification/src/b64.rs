//! Standard base64, called through the `base64` crate. The decoder's result
//! is named by an uninterpreted function; the encoder is tied to it by the
//! documented round trip.

use vstd::prelude::*;
use base64::Engine;

verus! {

/// What the `base64` crate's `STANDARD` engine decodes a byte text to:
/// `None` where the engine rejects the text. The result depends on the text
/// alone.
pub uninterp spec fn spec_base64_decode(s: Seq<u8>) -> Option<Seq<u8>>;

/// What the `base64` crate's `STANDARD` engine encodes a byte sequence to.
pub uninterp spec fn spec_base64_encode(b: Seq<u8>) -> Seq<u8>;

/// A byte the standard base64 encoder may emit: its alphabet
/// (`A..Z`, `a..z`, `0..9`, `+`, `/`) or the padding byte `=`.
pub open spec fn is_base64_symbol(b: u8) -> bool {
    (0x41 <= b && b <= 0x5a) || (0x61 <= b && b <= 0x7a) || (0x30 <= b && b <= 0x39) || b == 0x2b
        || b == 0x2f || b == 0x3d
}

/// Relies on `base64::Engine::decode` with the `STANDARD` engine: decoding
/// is a function of the input text alone, and rejected texts give an error.
#[verifier::external_body]
pub(crate) fn base64_decode(input: &[u8]) -> (r: Option<Vec<u8>>)
    ensures
        match r {
            Some(v) => spec_base64_decode(input@) == Some(v@),
            None => spec_base64_decode(input@) is None,
        },
{
    base64::engine::general_purpose::STANDARD.decode(input).ok()
}

/// Relies on `base64::Engine::encode` with the `STANDARD` engine: it emits
/// canonical padded base64 — four symbols for every three input bytes, all
/// from the standard alphabet plus padding — and `decode` of its output
/// returns exactly the input.
#[verifier::external_body]
pub(crate) fn base64_encode(input: &[u8]) -> (r: Vec<u8>)
    requires
        input@.len() <= usize::MAX / 4 * 3,
    ensures
        r@ == spec_base64_encode(input@),
        spec_base64_decode(r@) == Some(input@),
        r@.len() == 4 * ((input@.len() + 2) / 3),
        forall|i: int| 0 <= i < r@.len() ==> is_base64_symbol(r@[i]),
{
    base64::engine::general_purpose::STANDARD.encode(input).into_bytes()
}

} // verus!
