//! The two computations the decoder takes from alloy: the Keccak-256 digest that
//! names an event, and the ABI decoding of an event body that holds one string.
use vstd::prelude::*;

verus! {

/// The Keccak-256 digest of `data` (32 bytes).
pub uninterp spec fn keccak_of(data: Seq<u8>) -> Seq<u8>;

/// Relies on `alloy::primitives::keccak256`: the Keccak-256 digest of the input,
/// a function of the bytes alone.
#[verifier::external_body]
pub(crate) fn keccak256(data: &[u8]) -> (r: [u8; 32])
    ensures
        r@ == keccak_of(data@),
{
    alloy::primitives::keccak256(data).0
}

/// What ABI-decoding `data` as the parameter list `(string)` yields: the text, or
/// `None` where the bytes are not such an encoding.
pub uninterp spec fn abi_string_of(data: Seq<u8>) -> Option<Seq<char>>;

/// Relies on alloy's `SolType::abi_decode_sequence` for the tuple `(string,)`, the
/// call through which an event whose only non-indexed field is a string gets its
/// body decoded. The result depends on the bytes alone.
#[verifier::external_body]
pub(crate) fn decode_string_body(data: &[u8]) -> (r: Option<String>)
    ensures
        match r {
            Some(s) => abi_string_of(data@) == Some(s@),
            None => abi_string_of(data@) is None,
        },
{
    <(alloy::sol_types::sol_data::String,) as alloy::sol_types::SolType>::abi_decode_sequence(
        data,
    ).ok().map(|(s,)| s)
}

} // verus!
