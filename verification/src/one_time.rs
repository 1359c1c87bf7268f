//! The one-time-key wrapper: a key that can be taken out exactly once.

use crate::error::TrustError;
use crate::secret::{KeyState, SecretKey};
use vstd::prelude::*;

verus! {

/// Holds one [`SecretKey`] until it is consumed.
///
/// The only accessor takes the wrapper by value, so a second use does not
/// compile.  Whatever the wrapper holds when it goes out of scope is burned.
pub struct OneTimeKey {
    slot: SecretKey,
}

impl View for OneTimeKey {
    type V = KeyState;

    /// The state of the key that the wrapper currently holds.
    closed spec fn view(&self) -> KeyState {
        self.slot@
    }
}

impl OneTimeKey {
    /// Loads a key into a fresh wrapper.
    pub fn new(key: SecretKey) -> (wrapper: OneTimeKey)
        ensures
            wrapper@ == key@,
    {
        OneTimeKey { slot: key }
    }

    /// Consumes the wrapper and hands out the key that was loaded, exactly
    /// as it was loaded.  A placeholder takes its place in the wrapper, so
    /// that the wrapper's own destruction burns the placeholder and never
    /// the key that was handed out.
    pub fn into_inner(self) -> (key: SecretKey)
        ensures
            key@ == self@,
    {
        let spare = OneTimeKey::placeholder(SecretKey::generate());
        let mut wrapper = self;
        wrapper.take(spare)
    }

    /// What the key inside shows when it is inspected.
    pub(crate) fn held_debug_text(&self) -> (text: String)
        ensures
            text@ == self@.debug_text(),
    {
        self.slot.debug_text()
    }

    /// The transition from loaded to consumed: hands out the key the
    /// wrapper holds and leaves `spare` in its place.
    fn take(&mut self, spare: SecretKey) -> (key: SecretKey)
        ensures
            key@ == old(self)@,
            final(self)@ == spare@,
    {
        let mut held = spare;
        core::mem::swap(&mut self.slot, &mut held);
        held
    }

    /// Chooses the key that stays behind in a consumed wrapper: the freshly
    /// generated one, or an already destroyed key where generation failed.
    fn placeholder(generated: Result<SecretKey, TrustError>) -> (spare: SecretKey)
        ensures
            spare@ == match generated {
                Ok(key) => key@,
                Err(_) => KeyState::destroyed(),
            },
    {
        match generated {
            Ok(key) => key,
            Err(_) => {
                let mut spare = SecretKey::from_bytes([0u8; 32]);
                spare.burn();
                spare
            },
        }
    }
}

impl Drop for OneTimeKey {
    /// Burns whatever the wrapper holds when it goes out of scope: the
    /// loaded key if it was never consumed, the placeholder otherwise.
    fn drop(&mut self)
        ensures
            final(self)@ == KeyState::destroyed(),
        opens_invariants none
        no_unwind
    {
        self.slot.burn();
    }
}

} // verus!
