//! The error taxonomy shared by every operation of the crate.

use vstd::prelude::*;
use vstd::string::StringExecFns;

verus! {

/// Why an operation on key material was refused or failed.
///
/// No variant carries secret bytes: the two payloads are free-form reasons
/// supplied by the caller or by a metadata store.
#[derive(Debug, PartialEq, Eq)]
pub enum TrustError {
    /// The operation was attempted on a destroyed or invalid key.
    AccessDenied,
    /// The platform key store is absent or cannot be reached.
    HardwareUnavailable,
    /// The key was invalidated out of band; the payload says why.
    KeyRevoked(String),
    /// The entropy source or the key-derivation primitive failed.
    CryptoFailure,
    /// The metadata store reported an error; the payload says which.
    Storage(String),
}

impl TrustError {
    /// The text that stands for this error in messages.
    pub open spec fn message_spec(self) -> Seq<char> {
        match self {
            TrustError::AccessDenied => "AccessDenied"@,
            TrustError::HardwareUnavailable => "HardwareUnavailable"@,
            TrustError::KeyRevoked(reason) => "KeyRevoked:"@ + reason@,
            TrustError::CryptoFailure => "CryptoFailure"@,
            TrustError::Storage(reason) => " Storage error:"@ + reason@,
        }
    }

    /// Renders the error as text.
    pub fn message(&self) -> (text: String)
        ensures
            text@ == self.message_spec(),
    {
        match self {
            TrustError::AccessDenied => String::from_str("AccessDenied"),
            TrustError::HardwareUnavailable => String::from_str("HardwareUnavailable"),
            TrustError::KeyRevoked(reason) => String::from_str("KeyRevoked:").concat(
                reason.as_str(),
            ),
            TrustError::CryptoFailure => String::from_str("CryptoFailure"),
            TrustError::Storage(reason) => String::from_str(" Storage error:").concat(
                reason.as_str(),
            ),
        }
    }
}

} // verus!
