//! Trusted boundary to the two codecs the envelope protocol leans on: the
//! standard-alphabet base64 encoding and JSON normalization. Each wrapper's
//! contract states what the outside call returns; everything built on top of
//! them is verified against these contracts.

use vstd::prelude::*;

verus! {

/// The bytes that the standard-alphabet, padded base64 encoder returns for a
/// byte string. The encoding depends on the input bytes alone.
pub uninterp spec fn b64_of(b: Seq<u8>) -> Seq<u8>;

/// What JSON normalization makes of a byte string: `Some` of the serialized
/// text of the JSON value the bytes parse to, `None` when they are not a JSON
/// document. The result depends on the input bytes alone.
pub uninterp spec fn json_norm(b: Seq<u8>) -> Option<Seq<u8>>;

#[verifier::external_type_specification]
#[verifier::external_body]
pub struct ExDecodeError(base64::DecodeError);

#[verifier::external_type_specification]
#[verifier::external_body]
pub struct ExJsonError(serde_json::Error);

/// Relies on base64's `Engine::encode` with the `STANDARD` engine: the
/// encoding is a function of the bytes alone, and encoding nothing yields
/// nothing.
#[verifier::external_body]
pub(crate) fn b64_encode(b: &Vec<u8>) -> (r: Vec<u8>)
    ensures
        r@ == b64_of(b@),
        b@.len() == 0 ==> r@.len() == 0,
{
    base64::Engine::encode(&base64::engine::general_purpose::STANDARD, b).into_bytes()
}

/// What base64 decoding is held to: whenever the input is the canonical
/// encoding of some bytes, the result is `Ok` of exactly those bytes.
pub open spec fn b64_decode_rel(s: Seq<u8>, r: Result<Vec<u8>, base64::DecodeError>) -> bool {
    forall|b: Seq<u8>| s == #[trigger] b64_of(b) ==> (r matches Ok(v) && v@ == b)
}

/// Relies on base64's `Engine::decode` with the `STANDARD` engine: decoding
/// the canonical encoding of any byte string yields exactly that byte string.
#[verifier::external_body]
pub(crate) fn b64_decode(s: &Vec<u8>) -> (r: Result<Vec<u8>, base64::DecodeError>)
    ensures
        b64_decode_rel(s@, r),
{
    base64::Engine::decode(&base64::engine::general_purpose::STANDARD, s)
}

/// Relies on serde_json's `from_slice` and `to_vec` on `serde_json::Value`,
/// built with its `float_roundtrip` feature: parsing succeeds exactly on JSON
/// documents, the serialized text of the parsed value depends on the input
/// bytes alone, and that text parses back to an equal value — with the
/// round-trip float parser this holds for numbers too — so normalization is
/// idempotent.
#[verifier::external_body]
pub(crate) fn json_reserialize(b: &Vec<u8>) -> (r: Result<Vec<u8>, serde_json::Error>)
    ensures
        r matches Ok(t) ==> json_norm(b@) == Some(t@) && json_norm(t@) == Some(t@),
        r is Err ==> json_norm(b@) is None,
{
    let v: serde_json::Value = serde_json::from_slice(b)?;
    serde_json::to_vec(&v)
}

} // verus!
