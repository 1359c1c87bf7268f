//! The boundary to the cryptographic crates.
//!
//! Everything in this module is trusted rather than proved: each function
//! wraps exactly one primitive of an outside crate, and its contract records
//! what that crate's source and documentation say of it.  The rest of the
//! crate is verified against these contracts.

use subtle::ConstantTimeEq;
use vstd::prelude::*;
use zeroize::Zeroize;

verus! {

/// The longest input keying material and the longest `info` that
/// [`hkdf_sha256`] accepts, in bytes.
///
/// The HMAC underneath counts its input in bits in a 64-bit counter and
/// panics when that counter would overflow; inputs up to this length,
/// together with the block of key padding and the counter byte that HKDF
/// adds, stay far below that limit.
pub const MAX_HKDF_INPUT: u64 = 0x1000_0000_0000_0000;

/// The error type of `getrandom`; nothing is known of a value but that it
/// stands for a failure of the entropy source.
#[verifier::external_type_specification]
#[verifier::external_body]
pub struct ExEntropyError(getrandom::Error);

/// The error type of `ring`, which deliberately carries no detail.
#[verifier::external_type_specification]
#[verifier::external_body]
pub struct ExUnspecified(ring::error::Unspecified);

/// Thirty-two zero bytes: what a wiped key buffer holds.
pub open spec fn zeroed() -> Seq<u8> {
    Seq::new(32, |i: int| 0u8)
}

/// The 32 bytes of output keying material that HKDF with SHA-256
/// (RFC 5869, extract then expand) yields for the given salt, input keying
/// material and `info`.
pub uninterp spec fn hkdf_sha256_okm(salt: Seq<u8>, ikm: Seq<u8>, info: Seq<u8>) -> Seq<u8>;

/// Calls `getrandom::fill` on the buffer.
///
/// Nothing is claimed of the outcome: on success the buffer holds whatever
/// the system's random source produced, and on failure its contents are
/// unspecified.
#[verifier::external_body]
pub(crate) fn fill_random(buf: &mut [u8; 32]) -> (outcome: Result<(), getrandom::Error>) {
    getrandom::fill(buf)
}

/// Calls `Zeroize::zeroize` on the buffer.
///
/// The contract claims that every byte is zero afterwards, which is what
/// the crate's volatile per-element writes do, and that the call neither
/// unwinds nor touches an invariant.
#[verifier::external_body]
pub(crate) fn wipe(buf: &mut [u8; 32])
    ensures
        final(buf)@ == zeroed(),
    opens_invariants none
    no_unwind
{
    buf.zeroize();
}

/// Calls `ConstantTimeEq::ct_eq` of `subtle` on the two buffers as slices
/// and converts the resulting `Choice` to `bool`.
///
/// The contract claims that the answer is `true` exactly when the buffers
/// hold the same bytes.  That the comparison takes the same time wherever
/// the buffers differ is the crate's promise and is not expressed here.
#[verifier::external_body]
pub(crate) fn ct_eq_32(a: &[u8; 32], b: &[u8; 32]) -> (same: bool)
    ensures
        same == (a@ == b@),
{
    bool::from(a.ct_eq(b))
}

/// Runs HKDF-SHA-256 of `ring` into `okm`: `Salt::new`, `Salt::extract`,
/// `Prk::expand` for a 32-byte output and `Okm::fill`.
///
/// The contract claims that the call succeeds and that it leaves in `okm`
/// the output that [`hkdf_sha256_okm`] names.  `ring` documents that
/// `expand` and `fill` fail if and only if the requested length exceeds 255
/// digests, which 32 bytes never do.  The bounds on `ikm` and `info` keep
/// the underlying HMAC away from the input length at which it panics.
#[verifier::external_body]
pub(crate) fn hkdf_sha256(
    salt: &[u8; 32],
    ikm: &[u8],
    info: &[u8],
    okm: &mut [u8; 32],
) -> (outcome: Result<(), ring::error::Unspecified>)
    requires
        ikm@.len() <= MAX_HKDF_INPUT,
        info@.len() <= MAX_HKDF_INPUT,
    ensures
        outcome is Ok,
        final(okm)@ == hkdf_sha256_okm(salt@, ikm@, info@),
{
    let prk = ring::hkdf::Salt::new(ring::hkdf::HKDF_SHA256, salt).extract(ikm);
    prk.expand(&[info], ring::hkdf::HKDF_SHA256)?.fill(okm)
}

} // verus!
