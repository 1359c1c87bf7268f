//! The roles a key can play.

use vstd::prelude::*;

verus! {

/// The role of a key.  The role carries no bytes; it tags the policy that
/// the orchestrator applies to the key.
#[derive(Debug, Clone, Copy, PartialEq, Eq, Hash, Structural)]
pub enum KeyType {
    /// Long-lived identity key, meant to be bound to hardware.
    Identity,
    /// Short-lived key of one session, kept in memory only.
    Session,
    /// Forward-secrecy key that may be used once.
    PreKey,
    /// Key of a group, derived from the group's root.
    Group,
}

impl KeyType {
    /// Keys of this role may be consumed only once.
    pub open spec fn single_use(self) -> bool {
        self == KeyType::PreKey
    }

    /// Whether keys of this role may be consumed only once.
    pub fn is_single_use(self) -> (once: bool)
        ensures
            once == self.single_use(),
    {
        match self {
            KeyType::PreKey => true,
            _ => false,
        }
    }
}

} // verus!
