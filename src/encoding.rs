//! Standard (padded) base64, as provided by the `base64` crate.

use vstd::prelude::*;

verus! {

/// The bytes that a standard base64 text stands for, or `None` where the
/// text is not valid standard base64.
pub uninterp spec fn base64_decoded(s: Seq<char>) -> Option<Seq<u8>>;

/// The standard base64 text of a byte sequence.
pub uninterp spec fn base64_encoded(b: Seq<u8>) -> Seq<char>;

#[verifier::external_type_specification]
#[verifier::external_body]
pub struct ExDecodeError(base64::DecodeError);

/// Relies on `base64::Engine::decode` with the `STANDARD` engine: the result
/// depends on the text alone, and decoding the encoding of some bytes gives
/// those bytes back.
#[verifier::external_body]
pub(crate) fn base64_decode(s: &str) -> (r: Result<Vec<u8>, base64::DecodeError>)
    ensures
        r is Ok <==> base64_decoded(s@) is Some,
        r matches Ok(v) ==> base64_decoded(s@) == Some(v@),
        r matches Ok(v) ==> forall|b: Seq<u8>| s@ == base64_encoded(b) ==> v@ == b,
        r is Err ==> forall|b: Seq<u8>| s@ != base64_encoded(b),
{
    base64::Engine::decode(&base64::engine::general_purpose::STANDARD, s)
}

/// Relies on `base64::Engine::encode` with the `STANDARD` engine: the result
/// depends on the bytes alone.
#[verifier::external_body]
pub(crate) fn base64_encode(b: &[u8]) -> (r: String)
    ensures
        r@ == base64_encoded(b@),
{
    base64::Engine::encode(&base64::engine::general_purpose::STANDARD, b)
}

} // verus!
