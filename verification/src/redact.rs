//! How a key presents itself to formatting and serialization: by a fixed
//! marker, never by its bytes.

use crate::error::TrustError;
use crate::one_time::OneTimeKey;
use crate::secret::{KeyState, SecretKey};
use vstd::prelude::*;
use vstd::string::StringExecFns;

verus! {

/// The character of a decimal digit.
pub open spec fn digit(d: nat) -> char
    recommends
        d < 10,
{
    if d == 0 {
        '0'
    } else if d == 1 {
        '1'
    } else if d == 2 {
        '2'
    } else if d == 3 {
        '3'
    } else if d == 4 {
        '4'
    } else if d == 5 {
        '5'
    } else if d == 6 {
        '6'
    } else if d == 7 {
        '7'
    } else if d == 8 {
        '8'
    } else {
        '9'
    }
}

/// The decimal numeral of `n`, without leading zeros.
pub open spec fn decimal(n: nat) -> Seq<char>
    decreases n,
{
    if n < 10 {
        seq![digit(n)]
    } else {
        decimal(n / 10).push(digit(n % 10))
    }
}

impl KeyState {
    /// What a key shows when it is displayed: the redaction marker.
    pub open spec fn display_text(self) -> Seq<char> {
        "[REDACTED]"@
    }

    /// What a key shows when it is inspected: its version tag, and the
    /// redaction marker in place of its bytes.
    pub open spec fn debug_text(self) -> Seq<char> {
        "SecretKey { version: "@ + decimal(self.version as nat) + ", bytes: \"[REDACTED]\" }"@
    }
}

/// What a one-time wrapper shows when it is inspected: its name around
/// what the key inside shows.
pub open spec fn wrapper_debug_text(held: KeyState) -> Seq<char> {
    "OneTimeKey("@ + held.debug_text() + ")"@
}

/// No leakage through formatting: what a key shows depends on its version
/// tag alone.  Two keys with the same tag show the same text, whatever
/// bytes they hold, and the displayed text is the marker for every key.
pub proof fn lemma_formatting_ignores_bytes(first: KeyState, second: KeyState)
    requires
        first.version == second.version,
    ensures
        first.display_text() == "[REDACTED]"@,
        first.display_text() == second.display_text(),
        first.debug_text() == second.debug_text(),
        wrapper_debug_text(first) == wrapper_debug_text(second),
{
}

/// The one-character text of a decimal digit.
fn digit_text(d: u64) -> (text: &'static str)
    requires
        d < 10,
    ensures
        text@ == seq![digit(d as nat)],
{
    proof {
        reveal_strlit("0");
        reveal_strlit("1");
        reveal_strlit("2");
        reveal_strlit("3");
        reveal_strlit("4");
        reveal_strlit("5");
        reveal_strlit("6");
        reveal_strlit("7");
        reveal_strlit("8");
        reveal_strlit("9");
    }
    let text = if d == 0 {
        "0"
    } else if d == 1 {
        "1"
    } else if d == 2 {
        "2"
    } else if d == 3 {
        "3"
    } else if d == 4 {
        "4"
    } else if d == 5 {
        "5"
    } else if d == 6 {
        "6"
    } else if d == 7 {
        "7"
    } else if d == 8 {
        "8"
    } else {
        "9"
    };
    text
}

/// Appends the decimal numeral of `n` to `text`.
pub fn append_decimal(text: &mut String, n: u64)
    ensures
        final(text)@ == old(text)@ + decimal(n as nat),
    decreases n,
{
    if n >= 10 {
        append_decimal(text, n / 10);
    }
    text.append(digit_text(n % 10));
}

impl SecretKey {
    /// Renders the key for display: always the redaction marker.
    pub fn display_text(&self) -> (text: String)
        ensures
            text@ == self@.display_text(),
    {
        String::from_str("[REDACTED]")
    }

    /// Renders the key for inspection: the version tag is shown, the bytes
    /// are replaced by the redaction marker.
    pub fn debug_text(&self) -> (text: String)
        ensures
            text@ == self@.debug_text(),
    {
        let mut text = String::from_str("SecretKey { version: ");
        append_decimal(&mut text, self.version());
        text.append(", bytes: \"[REDACTED]\" }");
        text
    }

    /// Refuses to encode the key.  Serialization of key material is
    /// forbidden, so every call fails and no byte of the key is emitted.
    pub fn serialize(&self) -> (outcome: Result<Vec<u8>, TrustError>)
        ensures
            outcome == Err::<Vec<u8>, TrustError>(TrustError::CryptoFailure),
    {
        Err(TrustError::CryptoFailure)
    }

    /// Refuses to decode a key.  Keys are never restored from an encoded
    /// form, so every call fails, whatever `encoded` holds.
    pub fn deserialize(encoded: &[u8]) -> (outcome: Result<SecretKey, TrustError>)
        ensures
            outcome matches Err(error) && error == TrustError::CryptoFailure,
    {
        Err(TrustError::CryptoFailure)
    }
}

impl OneTimeKey {
    /// Renders the wrapper for inspection; the key inside shows its
    /// version tag and the redaction marker.
    pub fn debug_text(&self) -> (text: String)
        ensures
            text@ == wrapper_debug_text(self@),
    {
        let inner = self.held_debug_text();
        String::from_str("OneTimeKey(").concat(inner.as_str()).concat(")")
    }
}

} // verus!
