//! The secret container: exclusive owner of 32 bytes of key material.

use crate::error::TrustError;
use crate::primitives::{ct_eq_32, fill_random, wipe, zeroed};
use vstd::prelude::*;

verus! {

/// The version tag of a key that has not been destroyed.
pub const LIVE_VERSION: u64 = 1;

/// The version tag of a destroyed key.
pub const DESTROYED_VERSION: u64 = 0;

/// What a [`SecretKey`] is, mathematically: its bytes and its version tag.
pub struct KeyState {
    /// The key material, always 32 bytes.
    pub bytes: Seq<u8>,
    /// Zero once the key has been destroyed, non-zero while it is live.
    pub version: u64,
}

impl KeyState {
    /// The state of a freshly created key holding `bytes`.
    pub open spec fn live(bytes: Seq<u8>) -> KeyState {
        KeyState { bytes, version: LIVE_VERSION }
    }

    /// The state every key is in after [`SecretKey::burn`].
    pub open spec fn destroyed() -> KeyState {
        KeyState { bytes: zeroed(), version: DESTROYED_VERSION }
    }

    /// The key has been explicitly destroyed.
    pub open spec fn is_destroyed(self) -> bool {
        self.version == DESTROYED_VERSION
    }

    /// The key is live and its material is not all zero.
    pub open spec fn is_valid(self) -> bool {
        self.version != DESTROYED_VERSION && self.bytes != zeroed()
    }

    /// What [`SecretKey::ct_eq`] decides: the two keys hold the same bytes,
    /// whatever their version tags.
    pub open spec fn same_bytes(self, other: KeyState) -> bool {
        self.bytes == other.bytes
    }

    /// What holds of the state of every key: it has 32 bytes, and a
    /// destroyed key holds nothing but zeros.
    pub open spec fn well_formed(self) -> bool {
        &&& self.bytes.len() == 32
        &&& self.is_destroyed() ==> self.bytes == zeroed()
    }
}

/// Zeroization: a destroyed key holds 32 zero bytes, is not valid, and
/// compares equal to every all-zero key.
pub proof fn lemma_destroyed_is_zeroed(zero: KeyState)
    requires
        zero.bytes == zeroed(),
    ensures
        KeyState::destroyed().well_formed(),
        KeyState::destroyed().is_destroyed(),
        KeyState::destroyed().bytes == zeroed(),
        forall|i: int| 0 <= i < 32 ==> KeyState::destroyed().bytes[i] == 0u8,
        !KeyState::destroyed().is_valid(),
        KeyState::destroyed().same_bytes(zero),
{
}

/// A key that compares equal to an all-zero key is never valid.
pub proof fn lemma_zero_match_is_invalid(key: KeyState, zero: KeyState)
    requires
        zero.bytes == zeroed(),
        key.same_bytes(zero),
    ensures
        !key.is_valid(),
{
}

/// Among the keys that are either valid or destroyed, the destroyed ones
/// are exactly those that compare equal to an all-zero key.  A live key
/// made from 32 zero bytes is neither valid nor destroyed and is left out.
pub proof fn lemma_zero_match_iff_destroyed(key: KeyState, zero: KeyState)
    requires
        key.well_formed(),
        key.is_valid() || key.is_destroyed(),
        zero.bytes == zeroed(),
    ensures
        key.same_bytes(zero) <==> key.is_destroyed(),
{
}

/// The outcome of an operation that yields a key, with the key taken by its
/// state.
pub open spec fn outcome_state(outcome: Result<SecretKey, TrustError>) -> Result<
    KeyState,
    TrustError,
> {
    match outcome {
        Ok(key) => Ok(key@),
        Err(error) => Err(error),
    }
}

/// A 32-byte symmetric key that cannot be copied and is wiped when it is
/// destroyed, explicitly or by going out of scope.
pub struct SecretKey {
    bytes: [u8; 32],
    version: u64,
}

impl View for SecretKey {
    type V = KeyState;

    closed spec fn view(&self) -> KeyState {
        KeyState { bytes: self.bytes@, version: self.version }
    }
}

impl SecretKey {
    #[verifier::type_invariant]
    pub(crate) closed spec fn inv(self) -> bool {
        self.version == DESTROYED_VERSION ==> self.bytes@ == zeroed()
    }

    /// Generates a key from the system's cryptographically secure random
    /// source.  A failure of that source is reported as
    /// [`TrustError::CryptoFailure`]; there is no weaker fallback.
    pub fn generate() -> (outcome: Result<SecretKey, TrustError>)
        ensures
            match outcome {
                Ok(key) => key@.version == LIVE_VERSION && key@.well_formed(),
                Err(error) => error == TrustError::CryptoFailure,
            },
    {
        let mut bytes = [0u8; 32];
        let filled = fill_random(&mut bytes);
        SecretKey::from_entropy(&mut bytes, filled)
    }

    /// Turns the outcome of a request for 32 random bytes into a key:
    /// `bytes` is the buffer the request wrote to and `filled` is what the
    /// request returned.  Where the request succeeded the key holds what
    /// the buffer held; where it failed there is no key.  The buffer is
    /// wiped either way.
    pub fn from_entropy(bytes: &mut [u8; 32], filled: Result<(), getrandom::Error>) -> (outcome:
        Result<SecretKey, TrustError>)
        ensures
            outcome_state(outcome) == if filled is Ok {
                Ok::<KeyState, TrustError>(KeyState::live(old(bytes)@))
            } else {
                Err::<KeyState, TrustError>(TrustError::CryptoFailure)
            },
            outcome matches Ok(key) ==> key@.well_formed(),
            final(bytes)@ == zeroed(),
    {
        match filled {
            Ok(()) => Ok(SecretKey::absorb(bytes)),
            Err(_) => {
                wipe(bytes);
                Err(TrustError::CryptoFailure)
            },
        }
    }

    /// Takes over the caller's buffer: the key holds what the buffer held,
    /// and the buffer is wiped before the call returns.
    pub fn absorb(bytes: &mut [u8; 32]) -> (key: SecretKey)
        ensures
            key@ == KeyState::live(old(bytes)@),
            key@.well_formed(),
            final(bytes)@ == zeroed(),
    {
        let key = SecretKey { bytes: *bytes, version: LIVE_VERSION };
        wipe(bytes);
        key
    }

    /// Creates a key from caller-supplied bytes and wipes the copy that was
    /// handed in.
    pub fn from_bytes(mut bytes: [u8; 32]) -> (key: SecretKey)
        ensures
            key@ == KeyState::live(bytes@),
            key@.well_formed(),
    {
        SecretKey::absorb(&mut bytes)
    }

    /// Destroys the key: wipes its bytes and marks it destroyed.  Burning a
    /// key twice leaves it as the first burn did.
    pub fn burn(&mut self)
        ensures
            final(self)@ == KeyState::destroyed(),
            final(self)@.well_formed(),
            !final(self)@.is_valid(),
        opens_invariants none
        no_unwind
    {
        wipe(&mut self.bytes);
        self.version = DESTROYED_VERSION;
    }

    /// Whether the key is live and its bytes are not all zero.
    pub fn is_valid(&self) -> (valid: bool)
        ensures
            valid == self@.is_valid(),
            self@.well_formed(),
    {
        proof {
            use_type_invariant(self);
        }
        let zeros = [0u8; 32];
        assert(zeros@ == zeroed());
        self.version != DESTROYED_VERSION && !ct_eq_32(&self.bytes, &zeros)
    }

    /// The version tag: zero once the key has been destroyed.  The tag is
    /// not secret and may be stored as metadata.
    pub fn version(&self) -> (tag: u64)
        ensures
            tag == self@.version,
    {
        self.version
    }

    /// Lends the raw bytes to the crate's own call sites.  The reference is
    /// to be used at once and never stored.
    pub(crate) fn expose_secret(&self) -> (bytes: &[u8; 32])
        requires
            !self@.is_destroyed(),
        ensures
            bytes@ == self@.bytes,
    {
        &self.bytes
    }

    /// Compares the bytes of two keys in constant time.
    pub fn ct_eq(&self, other: &SecretKey) -> (same: bool)
        ensures
            same == self@.same_bytes(other@),
    {
        ct_eq_32(&self.bytes, &other.bytes)
    }
}

impl Drop for SecretKey {
    /// Wipes the bytes when the key goes out of scope.
    fn drop(&mut self)
        ensures
            final(self)@.bytes == zeroed(),
        opens_invariants none
        no_unwind
    {
        wipe(&mut self.bytes);
    }
}

} // verus!
