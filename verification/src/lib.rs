//! Root of trust for a peer-to-peer messaging client, with the decisions of
//! the client's front ends.
//!
//! The heart of the crate owns all raw secret key material: [`secret`]
//! holds 32-byte keys that cannot be copied and are wiped when they are
//! destroyed, [`kdf`] derives subkeys from them, [`one_time`] enforces
//! single use, [`redact`] keeps key bytes out of every text and encoding,
//! and [`security`] ties them together around the identity key.
//!
//! Around it stand the plain decisions of the messaging client: what to do
//! about an event of the transport ([`network`]) and about a key press
//! ([`ui`]).
//!
//! Every function carries a contract that Verus proves.  The calls into
//! cryptographic crates are isolated in [`primitives`], the calls into
//! unspecified parts of the standard library in [`text`]; their contracts
//! are trusted.

pub mod chat;
pub mod desktop;
pub mod error;
pub mod kdf;
pub mod key_type;
pub mod network;
pub mod one_time;
pub mod primitives;
pub mod redact;
pub mod secret;
pub mod security;
pub mod text;
pub mod ui;

pub use chat::{ChatMeassage, CoreConfig, MessageEvent};
pub use error::TrustError;
pub use key_type::KeyType;
pub use one_time::OneTimeKey;
pub use secret::{KeyState, SecretKey};
pub use security::{CoreState, DerivedKey, SecurityCore};
