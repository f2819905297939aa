//! Device fingerprint: the SHA-256 hash of a device's public key.
use vstd::prelude::*;

use crate::text::{push_char, hex_digit, hex_digit_exec};

verus! {

/// The SHA-256 digest of a byte sequence.
pub uninterp spec fn sha256(data: Seq<u8>) -> Seq<u8>;

/// Computes the SHA-256 digest of a 32-byte key with `sha2::Sha256::digest`.
/// The contract says only that the result is the digest of the key.
#[verifier::external_body]
fn sha256_digest32(data: &[u8; 32]) -> (r: [u8; 32])
    ensures
        r@ == sha256(data@),
{
    let digest = <sha2::Sha256 as sha2::Digest>::digest(data);
    let mut out = [0u8; 32];
    out.copy_from_slice(&digest);
    out
}

/// The lowercase hex encoding of a byte sequence: two digits per byte,
/// high nibble first.
pub open spec fn hex_lower(bytes: Seq<u8>) -> Seq<char> {
    Seq::new(
        2 * bytes.len(),
        |i: int|
            if i % 2 == 0 {
                hex_digit(bytes[i / 2] / 16)
            } else {
                hex_digit(bytes[i / 2] % 16)
            },
    )
}

/// A 32-byte SHA-256 fingerprint of a device's public key.
#[derive(Debug, Clone, Copy, Hash, PartialOrd, Ord)]
pub struct DeviceFingerprint([u8; 32]);

impl DeviceFingerprint {
    /// The raw bytes of the fingerprint.
    pub closed spec fn spec_bytes(&self) -> Seq<u8> {
        self.0@
    }

    /// Wraps a 32-byte hash.
    pub fn from_bytes(bytes: [u8; 32]) -> (r: DeviceFingerprint)
        ensures
            r.spec_bytes() == bytes@,
    {
        DeviceFingerprint(bytes)
    }

    /// The fingerprint of a 32-byte public key: its SHA-256 digest.
    pub fn from_public_key(public_key: &[u8; 32]) -> (r: DeviceFingerprint)
        ensures
            r.spec_bytes() == sha256(public_key@),
    {
        DeviceFingerprint(sha256_digest32(public_key))
    }

    /// The raw 32-byte fingerprint.
    pub fn as_bytes(&self) -> (r: &[u8; 32])
        ensures
            r@ == self.spec_bytes(),
    {
        &self.0
    }

    /// The lowercase hex encoding of the fingerprint (64 characters).
    pub fn as_hex(&self) -> (r: String)
        ensures
            r@ == hex_lower(self.spec_bytes()),
            r@.len() == 64,
    {
        let mut out = String::new();
        let mut i: usize = 0;
        while i < 32
            invariant
                i <= 32,
                self.0@.len() == 32,
                out@ == hex_lower(self.0@.subrange(0, i as int)),
            decreases 32 - i,
        {
            let b = self.0[i];
            let hi = hex_digit_exec(b / 16);
            let lo = hex_digit_exec(b % 16);
            push_char(&mut out, hi);
            push_char(&mut out, lo);
            proof {
                let s0 = self.0@.subrange(0, i as int);
                let s1 = self.0@.subrange(0, i + 1);
                assert(hex_lower(s1) =~= hex_lower(s0).push(hi).push(lo)) by {
                    assert forall|k: int| 0 <= k < 2 * s1.len() implies #[trigger] hex_lower(s1)[k]
                        == hex_lower(s0).push(hi).push(lo)[k] by {
                        if k < 2 * s0.len() {
                            assert(s1[k / 2] == s0[k / 2]);
                        } else {
                            assert(s1[k / 2] == b);
                        }
                    }
                }
            }
            i += 1;
        }
        assert(self.0@.subrange(0, 32) =~= self.0@);
        out
    }
}

impl PartialEq for DeviceFingerprint {
    fn eq(&self, other: &Self) -> (r: bool) {
        let mut i: usize = 0;
        while i < 32
            invariant
                i <= 32,
                self.0@.len() == 32,
                other.0@.len() == 32,
                forall|j: int| 0 <= j < i ==> self.0@[j] == other.0@[j],
            decreases 32 - i,
        {
            if self.0[i] != other.0[i] {
                return false;
            }
            i += 1;
        }
        assert(self.0@ =~= other.0@);
        true
    }
}

impl vstd::std_specs::cmp::PartialEqSpecImpl for DeviceFingerprint {
    open spec fn obeys_eq_spec() -> bool {
        true
    }

    open spec fn eq_spec(&self, other: &DeviceFingerprint) -> bool {
        self.spec_bytes() == other.spec_bytes()
    }
}

impl Eq for DeviceFingerprint {}

/// Equality of fingerprints by their bytes.
pub fn fingerprint_eq(a: &DeviceFingerprint, b: &DeviceFingerprint) -> (r: bool)
    ensures
        r == (a.spec_bytes() == b.spec_bytes()),
{
    a == b
}

/// The fingerprint is a function of the key: equal keys give equal
/// fingerprints.
pub proof fn law_fingerprint_deterministic(k1: [u8; 32], k2: [u8; 32])
    requires
        k1@ == k2@,
    ensures
        sha256(k1@) == sha256(k2@),
{
}

} // verus!
