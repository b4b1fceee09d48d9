//! Fixed-size key material and the conversions from variable-length bytes.

use vstd::prelude::*;

verus! {

/// Length of a public signing (Ed25519) key in bytes.
pub const SIGN_PUBLIC_KEY_BYTES: usize = 32;

/// Length of a secret signing (Ed25519) key in bytes.
pub const SIGN_SECRET_KEY_BYTES: usize = 64;

/// Length of a public encryption (Curve25519) key in bytes.
pub const BOX_PUBLIC_KEY_BYTES: usize = 32;

/// Length of a secret encryption (Curve25519) key in bytes.
pub const BOX_SECRET_KEY_BYTES: usize = 32;

/// Length of a network name (a correlation name or an address) in bytes.
pub const NAME_BYTES: usize = 64;

/// Public half of a signing key pair.
#[derive(Clone, Copy, Debug)]
pub struct PublicSigningKey(pub [u8; 32]);

/// Secret half of a signing key pair.
#[derive(Clone, Copy, Debug)]
pub struct SecretSigningKey(pub [u8; 64]);

/// Public half of an encryption key pair.
#[derive(Clone, Copy, Debug)]
pub struct PublicEncryptionKey(pub [u8; 32]);

/// Secret half of an encryption key pair.
#[derive(Clone, Copy, Debug)]
pub struct SecretEncryptionKey(pub [u8; 32]);

/// A 64-byte network name.
#[derive(Clone, Copy, Debug, PartialEq, Eq)]
pub struct NameType(pub [u8; 64]);

/// A byte sequence whose length differs from the fixed length asked for.
#[derive(Clone, Copy, Debug, PartialEq, Eq)]
pub struct SizeMismatch {
    pub expected: usize,
    pub actual: usize,
}

/// The outcome of turning `bytes` into an array of exactly `n` bytes.
pub open spec fn fixed_spec(bytes: Seq<u8>, n: nat) -> Result<Seq<u8>, SizeMismatch> {
    if bytes.len() == n {
        Ok(bytes)
    } else {
        Err(SizeMismatch { expected: n as usize, actual: bytes.len() as usize })
    }
}

/// Copies `bytes` into a 32-byte array; any other length is a mismatch.
pub fn to_array_32(bytes: &[u8]) -> (r: Result<[u8; 32], SizeMismatch>)
    ensures
        match r {
            Ok(a) => fixed_spec(bytes@, 32) == Ok::<Seq<u8>, SizeMismatch>(a@),
            Err(e) => fixed_spec(bytes@, 32) == Err::<Seq<u8>, SizeMismatch>(e),
        },
{
    if bytes.len() != 32 {
        return Err(SizeMismatch { expected: 32, actual: bytes.len() });
    }
    let mut a = [0u8; 32];
    let mut i: usize = 0;
    while i < 32
        invariant
            bytes@.len() == 32,
            0 <= i <= 32,
            forall|j: int| 0 <= j < i ==> a@[j] == bytes@[j],
        decreases 32 - i,
    {
        a[i] = bytes[i];
        i = i + 1;
    }
    assert(a@ =~= bytes@);
    Ok(a)
}

/// Copies `bytes` into a 64-byte array; any other length is a mismatch.
pub fn to_array_64(bytes: &[u8]) -> (r: Result<[u8; 64], SizeMismatch>)
    ensures
        match r {
            Ok(a) => fixed_spec(bytes@, 64) == Ok::<Seq<u8>, SizeMismatch>(a@),
            Err(e) => fixed_spec(bytes@, 64) == Err::<Seq<u8>, SizeMismatch>(e),
        },
{
    if bytes.len() != 64 {
        return Err(SizeMismatch { expected: 64, actual: bytes.len() });
    }
    let mut a = [0u8; 64];
    let mut i: usize = 0;
    while i < 64
        invariant
            bytes@.len() == 64,
            0 <= i <= 64,
            forall|j: int| 0 <= j < i ==> a@[j] == bytes@[j],
        decreases 64 - i,
    {
        a[i] = bytes[i];
        i = i + 1;
    }
    assert(a@ =~= bytes@);
    Ok(a)
}

/// Compares two byte slices element by element.
pub fn bytes_equal(a: &[u8], b: &[u8]) -> (r: bool)
    ensures
        r == (a@ == b@),
{
    if a.len() != b.len() {
        return false;
    }
    let mut i: usize = 0;
    while i < a.len()
        invariant
            a@.len() == b@.len(),
            0 <= i <= a@.len(),
            forall|j: int| 0 <= j < i ==> a@[j] == b@[j],
        decreases a@.len() - i,
    {
        if a[i] != b[i] {
            return false;
        }
        i = i + 1;
    }
    assert(a@ =~= b@);
    true
}

/// Appends the bytes of `b` to a copy of the bytes of `a`.
pub fn concat_bytes(a: &[u8], b: &[u8]) -> (r: Vec<u8>)
    requires
        a@.len() + b@.len() <= usize::MAX,
    ensures
        r@ == a@ + b@,
{
    let mut out: Vec<u8> = Vec::with_capacity(a.len() + b.len());
    let mut i: usize = 0;
    while i < a.len()
        invariant
            0 <= i <= a@.len(),
            out@ == a@.subrange(0, i as int),
        decreases a@.len() - i,
    {
        out.push(a[i]);
        i = i + 1;
        assert(out@ =~= a@.subrange(0, i as int));
    }
    let mut k: usize = 0;
    while k < b.len()
        invariant
            0 <= k <= b@.len(),
            out@ == a@ + b@.subrange(0, k as int),
        decreases b@.len() - k,
    {
        out.push(b[k]);
        k = k + 1;
        assert(out@ =~= a@ + b@.subrange(0, k as int));
    }
    assert(b@.subrange(0, b@.len() as int) =~= b@);
    out
}

} // verus!
