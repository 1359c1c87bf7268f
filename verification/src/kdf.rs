//! The derivation engine: deterministic subkeys from a parent key, a
//! context label and a numeric subkey id.

use crate::error::TrustError;
use crate::primitives::{hkdf_sha256, hkdf_sha256_okm, wipe, zeroed};
use crate::secret::{outcome_state, KeyState, SecretKey};
use vstd::prelude::*;

verus! {

/// The longest context label that [`SecretKey::derive`] accepts, in bytes:
/// the label and the eight bytes of the subkey id together must fit the
/// key-derivation primitive.
pub const MAX_CONTEXT_LEN: u64 = 0x0fff_ffff_ffff_fff8;

/// The eight bytes of `x`, most significant first.
pub open spec fn be_bytes(x: u64) -> Seq<u8> {
    seq![
        (x / 0x0100_0000_0000_0000) as u8,
        (x / 0x0001_0000_0000_0000 % 256) as u8,
        (x / 0x0000_0100_0000_0000 % 256) as u8,
        (x / 0x0000_0001_0000_0000 % 256) as u8,
        (x / 0x0000_0000_0100_0000 % 256) as u8,
        (x / 0x0000_0000_0001_0000 % 256) as u8,
        (x / 0x0000_0000_0000_0100 % 256) as u8,
        (x % 256) as u8,
    ]
}

/// The `info` string of a derivation: the context label followed by the
/// subkey id in big-endian order.
pub open spec fn derivation_info(context: Seq<u8>, subkey_id: u64) -> Seq<u8> {
    context + be_bytes(subkey_id)
}

/// The bytes of the key derived from a parent holding `parent`: HKDF-SHA-256
/// with the parent's bytes as salt, empty input keying material and
/// [`derivation_info`] as `info`.
pub open spec fn derived_bytes(parent: Seq<u8>, context: Seq<u8>, subkey_id: u64) -> Seq<u8> {
    hkdf_sha256_okm(parent, Seq::<u8>::empty(), derivation_info(context, subkey_id))
}

/// What [`SecretKey::derive`] returns for a parent in state `parent`.
pub open spec fn derive_outcome(parent: KeyState, context: Seq<u8>, subkey_id: u64) -> Result<
    KeyState,
    TrustError,
> {
    if !parent.is_valid() {
        Err(TrustError::AccessDenied)
    } else if context.len() > MAX_CONTEXT_LEN {
        Err(TrustError::CryptoFailure)
    } else {
        Ok(KeyState::live(derived_bytes(parent.bytes, context, subkey_id)))
    }
}

/// Determinism of derivation: the outcome depends on the parent's bytes,
/// the context and the subkey id alone.  Two parents that hold the same
/// bytes give the same outcome, and so bit-identical children.
pub proof fn lemma_derive_deterministic(
    first: KeyState,
    second: KeyState,
    context: Seq<u8>,
    subkey_id: u64,
)
    requires
        first.well_formed(),
        second.well_formed(),
        first.bytes == second.bytes,
    ensures
        derive_outcome(first, context, subkey_id) == derive_outcome(second, context, subkey_id),
        derive_outcome(first, context, subkey_id) matches Ok(child) ==> child.bytes
            == derived_bytes(first.bytes, context, subkey_id),
{
}

/// The big-endian encoding loses nothing: different ids have different
/// encodings.
pub proof fn lemma_be_bytes_injective(x: u64, y: u64)
    requires
        be_bytes(x) == be_bytes(y),
    ensures
        x == y,
{
    let bx = be_bytes(x);
    let by = be_bytes(y);
    assert(bx[0] == by[0] && bx[1] == by[1] && bx[2] == by[2] && bx[3] == by[3]);
    assert(bx[4] == by[4] && bx[5] == by[5] && bx[6] == by[6] && bx[7] == by[7]);
    assert(x == y) by (bit_vector)
        requires
            x / 0x0100_0000_0000_0000 == y / 0x0100_0000_0000_0000,
            x / 0x0001_0000_0000_0000 % 256 == y / 0x0001_0000_0000_0000 % 256,
            x / 0x0000_0100_0000_0000 % 256 == y / 0x0000_0100_0000_0000 % 256,
            x / 0x0000_0001_0000_0000 % 256 == y / 0x0000_0001_0000_0000 % 256,
            x / 0x0000_0000_0100_0000 % 256 == y / 0x0000_0000_0100_0000 % 256,
            x / 0x0000_0000_0001_0000 % 256 == y / 0x0000_0000_0001_0000 % 256,
            x / 0x0000_0000_0000_0100 % 256 == y / 0x0000_0000_0000_0100 % 256,
            x % 256 == y % 256,
    ;
}

/// Sensitivity of the derivation input: two derivations are handed the same
/// `info` string only if they agree on both the context and the subkey id.
/// Changing any bit of either therefore changes what the key-derivation
/// primitive is asked to expand.
pub proof fn lemma_derivation_info_injective(
    context: Seq<u8>,
    subkey_id: u64,
    other_context: Seq<u8>,
    other_id: u64,
)
    requires
        derivation_info(context, subkey_id) == derivation_info(other_context, other_id),
    ensures
        context == other_context,
        subkey_id == other_id,
{
    let info = derivation_info(context, subkey_id);
    let other = derivation_info(other_context, other_id);
    assert(context =~= info.subrange(0, context.len() as int));
    assert(other_context =~= other.subrange(0, other_context.len() as int));
    assert(be_bytes(subkey_id) =~= info.subrange(context.len() as int, info.len() as int));
    assert(be_bytes(other_id) =~= other.subrange(
        other_context.len() as int,
        other.len() as int,
    ));
    lemma_be_bytes_injective(subkey_id, other_id);
}

/// Writes `x` as eight bytes, most significant first.
pub fn u64_be_bytes(x: u64) -> (bytes: [u8; 8])
    ensures
        bytes@ == be_bytes(x),
{
    assert((x >> 56) == x / 0x0100_0000_0000_0000) by (bit_vector);
    assert((x >> 48) & 0xff == x / 0x0001_0000_0000_0000 % 256) by (bit_vector);
    assert((x >> 40) & 0xff == x / 0x0000_0100_0000_0000 % 256) by (bit_vector);
    assert((x >> 32) & 0xff == x / 0x0000_0001_0000_0000 % 256) by (bit_vector);
    assert((x >> 24) & 0xff == x / 0x0000_0000_0100_0000 % 256) by (bit_vector);
    assert((x >> 16) & 0xff == x / 0x0000_0000_0001_0000 % 256) by (bit_vector);
    assert((x >> 8) & 0xff == x / 0x0000_0000_0000_0100 % 256) by (bit_vector);
    assert(x & 0xff == x % 256) by (bit_vector);
    assert((x >> 56) < 256) by (bit_vector);
    let bytes = [
        (x >> 56) as u8,
        ((x >> 48) & 0xff) as u8,
        ((x >> 40) & 0xff) as u8,
        ((x >> 32) & 0xff) as u8,
        ((x >> 24) & 0xff) as u8,
        ((x >> 16) & 0xff) as u8,
        ((x >> 8) & 0xff) as u8,
        (x & 0xff) as u8,
    ];
    bytes
}

/// Builds the `info` string of a derivation.
pub fn derivation_info_bytes(context: &[u8], subkey_id: u64) -> (info: Vec<u8>)
    ensures
        info@ == derivation_info(context@, subkey_id),
{
    let id_bytes = u64_be_bytes(subkey_id);
    let mut info: Vec<u8> = Vec::new();
    let mut i: usize = 0;
    while i < context.len()
        invariant
            i <= context.len(),
            info@ == context@.subrange(0, i as int),
        decreases context.len() - i,
    {
        info.push(context[i]);
        i += 1;
    }
    let mut j: usize = 0;
    while j < 8
        invariant
            j <= 8,
            id_bytes@ == be_bytes(subkey_id),
            info@ == context@ + be_bytes(subkey_id).subrange(0, j as int),
        decreases 8 - j,
    {
        info.push(id_bytes[j]);
        j += 1;
    }
    info
}

impl SecretKey {
    /// Derives a subkey with HKDF-SHA-256.
    ///
    /// The same parent bytes, context and subkey id always give the same
    /// child.  A parent that is destroyed or all zero is refused with
    /// [`TrustError::AccessDenied`]; a context too long for the primitive is
    /// reported as [`TrustError::CryptoFailure`].
    pub fn derive(&self, context: &[u8], subkey_id: u64) -> (outcome: Result<
        SecretKey,
        TrustError,
    >)
        ensures
            outcome_state(outcome) == derive_outcome(self@, context@, subkey_id),
            outcome matches Ok(key) ==> key@.well_formed(),
    {
        if !self.is_valid() {
            return Err(TrustError::AccessDenied);
        }
        if context.len() as u64 > MAX_CONTEXT_LEN {
            return Err(TrustError::CryptoFailure);
        }
        let info = derivation_info_bytes(context, subkey_id);
        let no_ikm: Vec<u8> = Vec::new();
        let mut okm = [0u8; 32];
        let expanded = hkdf_sha256(
            self.expose_secret(),
            no_ikm.as_slice(),
            info.as_slice(),
            &mut okm,
        );
        SecretKey::from_expansion(&mut okm, expanded)
    }

    /// Turns the outcome of the key-derivation primitive into a key: `okm`
    /// is the buffer the primitive wrote to and `expanded` is what it
    /// returned.  Where it succeeded the key holds what the buffer held;
    /// its failure becomes [`TrustError::CryptoFailure`].  The buffer is
    /// wiped either way.
    pub fn from_expansion(okm: &mut [u8; 32], expanded: Result<(), ring::error::Unspecified>) -> (outcome:
        Result<SecretKey, TrustError>)
        ensures
            outcome_state(outcome) == if expanded is Ok {
                Ok::<KeyState, TrustError>(KeyState::live(old(okm)@))
            } else {
                Err::<KeyState, TrustError>(TrustError::CryptoFailure)
            },
            outcome matches Ok(key) ==> key@.well_formed(),
            final(okm)@ == zeroed(),
    {
        match expanded {
            Ok(()) => Ok(SecretKey::absorb(okm)),
            Err(_) => {
                wipe(okm);
                Err(TrustError::CryptoFailure)
            },
        }
    }
}

} // verus!
