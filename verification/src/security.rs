//! The security orchestrator: owner of the identity key and the one place
//! from which higher layers obtain derived keys.

use crate::error::TrustError;
use crate::kdf::derive_outcome;
use crate::key_type::KeyType;
use crate::one_time::OneTimeKey;
use crate::secret::{KeyState, SecretKey, LIVE_VERSION};
use vstd::prelude::*;

verus! {

/// What a [`SecurityCore`] is, mathematically.
pub struct CoreState {
    /// The state of the identity key.
    pub identity: KeyState,
    /// Whether the identity key came from the platform's key store.
    pub hardware_backed: bool,
}

/// Owns the identity key of this peer.  The key never leaves the core;
/// callers obtain keys derived from it.
pub struct SecurityCore {
    identity: SecretKey,
    hardware_backed: bool,
}

impl View for SecurityCore {
    type V = CoreState;

    closed spec fn view(&self) -> CoreState {
        CoreState { identity: self.identity@, hardware_backed: self.hardware_backed }
    }
}

/// The outcome of constructing a core, with the core taken by its state.
pub open spec fn core_outcome(outcome: Result<SecurityCore, TrustError>) -> Result<
    CoreState,
    TrustError,
> {
    match outcome {
        Ok(core) => Ok(core@),
        Err(error) => Err(error),
    }
}

/// A key handed out by the core, tagged with the policy that applies to it.
pub enum DerivedKey {
    /// A key that its owner may use repeatedly.
    Reusable {
        /// The role the key was requested for.
        role: KeyType,
        /// The key itself.
        key: SecretKey,
    },
    /// A pre-key: it can be taken out of its wrapper once.
    SingleUse {
        /// The wrapped key.
        wrapped: OneTimeKey,
    },
}

impl DerivedKey {
    /// The role the key was requested for.
    pub open spec fn role(self) -> KeyType {
        match self {
            DerivedKey::Reusable { role, .. } => role,
            DerivedKey::SingleUse { .. } => KeyType::PreKey,
        }
    }

    /// The state of the key inside the handle.
    pub open spec fn state(self) -> KeyState {
        match self {
            DerivedKey::Reusable { key, .. } => key@,
            DerivedKey::SingleUse { wrapped } => wrapped@,
        }
    }
}

impl SecurityCore {
    /// Creates a core around a freshly generated software identity key.
    /// The core is never marked as hardware-backed.
    pub fn new() -> (outcome: Result<SecurityCore, TrustError>)
        ensures
            match outcome {
                Ok(core) => {
                    &&& !core@.hardware_backed
                    &&& core@.identity.version == LIVE_VERSION
                    &&& core@.identity.well_formed()
                },
                Err(error) => error == TrustError::CryptoFailure,
            },
    {
        let generated = SecretKey::generate();
        SecurityCore::from_generated(generated)
    }

    /// Builds a software-backed core from the outcome of key generation;
    /// a failed generation is fatal to the construction.
    pub fn from_generated(generated: Result<SecretKey, TrustError>) -> (outcome: Result<
        SecurityCore,
        TrustError,
    >)
        ensures
            core_outcome(outcome) == match generated {
                Ok(key) => Ok::<CoreState, TrustError>(
                    CoreState { identity: key@, hardware_backed: false },
                ),
                Err(error) => Err::<CoreState, TrustError>(error),
            },
    {
        match generated {
            Ok(key) => Ok(SecurityCore { identity: key, hardware_backed: false }),
            Err(error) => Err(error),
        }
    }

    /// Builds a hardware-backed core from what the platform's key store
    /// answered.  Every error of the store, its absence included, is
    /// handed on unchanged, so that the caller decides what to do about it.
    pub fn from_hardware(loaded: Result<SecretKey, TrustError>) -> (outcome: Result<
        SecurityCore,
        TrustError,
    >)
        ensures
            core_outcome(outcome) == match loaded {
                Ok(key) => Ok::<CoreState, TrustError>(
                    CoreState { identity: key@, hardware_backed: true },
                ),
                Err(error) => Err::<CoreState, TrustError>(error),
            },
    {
        match loaded {
            Ok(key) => Ok(SecurityCore { identity: key, hardware_backed: true }),
            Err(error) => Err(error),
        }
    }

    /// Builds a core from what the platform's key store answered, with a
    /// software fallback.
    ///
    /// A key from the store becomes a hardware-backed identity.  Where the
    /// store is unavailable the core falls back to a freshly generated
    /// software key, which is never marked as hardware-backed.  Any other
    /// error of the store is handed on unchanged.
    pub fn bootstrap(loaded: Result<SecretKey, TrustError>) -> (outcome: Result<
        SecurityCore,
        TrustError,
    >)
        ensures
            match loaded {
                Err(TrustError::HardwareUnavailable) => match outcome {
                    Ok(core) => {
                        &&& !core@.hardware_backed
                        &&& core@.identity.version == LIVE_VERSION
                        &&& core@.identity.well_formed()
                    },
                    Err(error) => error == TrustError::CryptoFailure,
                },
                _ => core_outcome(outcome) == match loaded {
                    Ok(key) => Ok::<CoreState, TrustError>(
                        CoreState { identity: key@, hardware_backed: true },
                    ),
                    Err(error) => Err::<CoreState, TrustError>(error),
                },
            },
    {
        match loaded {
            Err(TrustError::HardwareUnavailable) => SecurityCore::new(),
            answered => SecurityCore::from_hardware(answered),
        }
    }

    /// Whether the identity key came from the platform's key store.
    pub fn is_hardware_backed(&self) -> (backed: bool)
        ensures
            backed == self@.hardware_backed,
    {
        self.hardware_backed
    }

    /// Whether the identity key is live and not all zero.
    pub fn has_valid_identity(&self) -> (valid: bool)
        ensures
            valid == self@.identity.is_valid(),
    {
        self.identity.is_valid()
    }

    /// Derives a key of the given role from the identity key.
    ///
    /// The bytes of the result are those of [`SecretKey::derive`] on the
    /// identity key; the role decides the handle: a pre-key is wrapped for
    /// single use, every other role is handed out as a reusable key.
    pub fn derive_key(&self, key_type: KeyType, context: &[u8], subkey_id: u64) -> (outcome:
        Result<DerivedKey, TrustError>)
        ensures
            match derive_outcome(self@.identity, context@, subkey_id) {
                Ok(child) => {
                    &&& outcome matches Ok(handle)
                    &&& handle.state() == child
                    &&& handle.role() == key_type
                    &&& handle is SingleUse <==> key_type.single_use()
                },
                Err(error) => outcome matches Err(reported) && reported == error,
            },
    {
        match self.identity.derive(context, subkey_id) {
            Ok(key) => {
                if key_type.is_single_use() {
                    Ok(DerivedKey::SingleUse { wrapped: OneTimeKey::new(key) })
                } else {
                    Ok(DerivedKey::Reusable { role: key_type, key })
                }
            },
            Err(error) => Err(error),
        }
    }
}

} // verus!
