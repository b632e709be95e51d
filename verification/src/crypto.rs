//! The hash and the text encoding that viewing keys are made with. Both are
//! computed outside this library; what is known of them here is stated, not
//! proved.

use vstd::prelude::*;

verus! {

/// The SHA-256 digest of `data`.
pub uninterp spec fn sha256_of(data: Seq<u8>) -> Seq<u8>;

/// The base64 text of `data`, in the standard alphabet and with padding.
pub uninterp spec fn base64_of(data: Seq<u8>) -> Seq<char>;

/// Calls `secret_toolkit::crypto::sha_256`. The contract claims that the
/// result is the same for the same bytes.
#[verifier::external_body]
pub(crate) fn sha_256(data: &[u8]) -> (digest: Vec<u8>)
    ensures
        digest@ == sha256_of(data@),
{
    secret_toolkit::crypto::sha_256(data).to_vec()
}

/// Calls `cosmwasm_std::Binary::to_base64`. The contract claims that the
/// result is the same for the same bytes.
#[verifier::external_body]
pub(crate) fn to_base64(data: Vec<u8>) -> (text: String)
    ensures
        text@ == base64_of(data@),
{
    cosmwasm_std::Binary(data).to_base64()
}

} // verus!
