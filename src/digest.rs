//! The hash behind a record's address.

use vstd::prelude::*;

verus! {

/// The SHA-512 digest of `data`, as computed by libsodium.
pub uninterp spec fn sha512_of(data: Seq<u8>) -> Seq<u8>;

/// Relies on sodiumoxide::crypto::hash::sha512::hash: a 64-byte digest that
/// depends on the hashed bytes alone.
#[verifier::external_body]
pub(crate) fn sha512(data: &[u8]) -> (r: [u8; 64])
    ensures
        r@ == sha512_of(data@),
{
    sodiumoxide::crypto::hash::sha512::hash(data).0
}

} // verus!
