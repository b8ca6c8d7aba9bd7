//! Signatures of configuration profiles: the 64-bit FNV-1a hash of the
//! signing secret followed by the profile's serialized bytes, written as 16
//! lower-case hexadecimal digits.

use vstd::prelude::*;

use crate::text::{fixed_digits, fixed_digits_text};

verus! {

pub const FNV_OFFSET_BASIS: u64 = 0xcbf29ce484222325u64;

pub const FNV_PRIME: u64 = 0x100000001b3u64;

/// The FNV-1a hash of `bytes`.
pub open spec fn fnv1a(bytes: Seq<u8>) -> u64
    decreases bytes.len(),
{
    if bytes.len() == 0 {
        FNV_OFFSET_BASIS
    } else {
        (fnv1a(bytes.drop_last()) ^ (bytes.last() as u64)).wrapping_mul(FNV_PRIME)
    }
}

/// The signature of `payload` under `secret`.
pub open spec fn signature_of(secret: Seq<u8>, payload: Seq<u8>) -> Seq<char> {
    fixed_digits(fnv1a(secret + payload) as nat, 16, 16)
}

/// Signs `payload` (a serialized profile) with `secret`.
pub fn profile_signature(secret: &[u8], payload: &[u8]) -> (r: String)
    ensures
        r@ == signature_of(secret@, payload@),
{
    let mut hash: u64 = FNV_OFFSET_BASIS;
    let mut i: usize = 0;
    while i < secret.len()
        invariant
            i <= secret@.len(),
            hash == fnv1a(secret@.take(i as int)),
        decreases secret.len() - i,
    {
        assert(secret@.take(i + 1).drop_last() == secret@.take(i as int));
        hash = (hash ^ (secret[i] as u64)).wrapping_mul(FNV_PRIME);
        i = i + 1;
    }
    assert(secret@.take(secret@.len() as int) == secret@);
    assert(secret@ + payload@.take(0) == secret@);
    let mut j: usize = 0;
    while j < payload.len()
        invariant
            j <= payload@.len(),
            hash == fnv1a(secret@ + payload@.take(j as int)),
        decreases payload.len() - j,
    {
        assert((secret@ + payload@.take(j + 1)).drop_last() == secret@ + payload@.take(j as int));
        hash = (hash ^ (payload[j] as u64)).wrapping_mul(FNV_PRIME);
        j = j + 1;
    }
    assert(payload@.take(payload@.len() as int) == payload@);
    fixed_digits_text(hash, 16, 16)
}

/// Whether `signature` is the signature of `payload` under `secret`.
pub fn signature_matches(secret: &[u8], payload: &[u8], signature: &str) -> (r: bool)
    ensures
        r == (signature@ == signature_of(secret@, payload@)),
{
    let expected = profile_signature(secret, payload);
    let given = signature.to_owned();
    expected == given
}

} // verus!
