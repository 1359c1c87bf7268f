use rootcell::{SecretKey, TrustError};

fn sample() -> [u8; 32] {
    let mut bytes = [0u8; 32];
    for (i, b) in bytes.iter_mut().enumerate() {
        *b = i as u8 + 1;
    }
    bytes
}

#[test]
fn from_bytes_gives_a_live_valid_key() {
    let key = SecretKey::from_bytes(sample());
    assert!(key.is_valid());
    assert_eq!(key.version(), 1);
    assert!(key.ct_eq(&SecretKey::from_bytes(sample())));
}

#[test]
fn absorb_wipes_the_callers_buffer() {
    let mut buffer = sample();
    let key = SecretKey::absorb(&mut buffer);
    assert_eq!(buffer, [0u8; 32]);
    assert!(key.is_valid());
    assert!(key.ct_eq(&SecretKey::from_bytes(sample())));
    assert!(!key.ct_eq(&SecretKey::from_bytes(buffer)));
}

#[test]
fn all_zero_bytes_are_live_but_not_valid() {
    let key = SecretKey::from_bytes([0u8; 32]);
    assert_eq!(key.version(), 1);
    assert!(!key.is_valid());
}

#[test]
fn burn_zeroes_and_invalidates() {
    let mut key = SecretKey::from_bytes(sample());
    let zero = SecretKey::from_bytes([0u8; 32]);
    assert!(!key.ct_eq(&zero));
    key.burn();
    assert!(!key.is_valid());
    assert_eq!(key.version(), 0);
    assert!(key.ct_eq(&zero));
}

#[test]
fn burn_is_idempotent() {
    let mut once = SecretKey::from_bytes(sample());
    once.burn();
    let mut twice = SecretKey::from_bytes(sample());
    twice.burn();
    twice.burn();
    assert_eq!(once.version(), twice.version());
    assert!(once.ct_eq(&twice));
    assert!(!twice.is_valid());
}

#[test]
fn ct_eq_detects_a_difference_at_either_end() {
    let base = SecretKey::from_bytes(sample());
    let mut first = sample();
    first[0] ^= 0x01;
    let mut last = sample();
    last[31] ^= 0x80;
    assert!(!base.ct_eq(&SecretKey::from_bytes(first)));
    assert!(!base.ct_eq(&SecretKey::from_bytes(last)));
    assert!(base.ct_eq(&base));
}

#[test]
fn ct_eq_ignores_the_version_tag() {
    let mut burned = SecretKey::from_bytes(sample());
    burned.burn();
    let live_zero = SecretKey::from_bytes([0u8; 32]);
    assert_ne!(burned.version(), live_zero.version());
    assert!(burned.ct_eq(&live_zero));
}

#[test]
fn generate_gives_distinct_valid_keys() {
    let first = SecretKey::generate().unwrap();
    let second = SecretKey::generate().unwrap();
    assert!(first.is_valid());
    assert!(second.is_valid());
    assert_eq!(first.version(), 1);
    assert!(!first.ct_eq(&second));
}

#[test]
fn from_entropy_follows_the_outcome_of_the_source() {
    let mut buffer = sample();
    let key = SecretKey::from_entropy(&mut buffer, Ok(())).unwrap();
    assert!(key.ct_eq(&SecretKey::from_bytes(sample())));
    assert_eq!(key.version(), 1);
    assert_eq!(buffer, [0u8; 32]);

    let mut buffer = sample();
    let failed = SecretKey::from_entropy(&mut buffer, Err(getrandom::Error::UNSUPPORTED));
    assert_eq!(failed.err(), Some(TrustError::CryptoFailure));
    assert_eq!(buffer, [0u8; 32]);
}

#[test]
fn display_shows_only_the_marker() {
    let key = SecretKey::from_bytes(sample());
    assert_eq!(key.display_text(), "[REDACTED]");
    let other = SecretKey::from_bytes([0xabu8; 32]);
    assert_eq!(other.display_text(), "[REDACTED]");
}

#[test]
fn debug_shows_the_version_and_the_marker() {
    let mut key = SecretKey::from_bytes(sample());
    assert_eq!(
        key.debug_text(),
        "SecretKey { version: 1, bytes: \"[REDACTED]\" }"
    );
    let other = SecretKey::from_bytes([0xabu8; 32]);
    assert_eq!(other.debug_text(), key.debug_text());
    key.burn();
    assert_eq!(
        key.debug_text(),
        "SecretKey { version: 0, bytes: \"[REDACTED]\" }"
    );
}

#[test]
fn decimal_rendering_is_exact() {
    let mut text = String::from("v");
    rootcell::redact::append_decimal(&mut text, 0);
    assert_eq!(text, "v0");
    let mut text = String::new();
    rootcell::redact::append_decimal(&mut text, 10);
    assert_eq!(text, "10");
    let mut text = String::new();
    rootcell::redact::append_decimal(&mut text, 9_076_543_210);
    assert_eq!(text, "9076543210");
    let mut text = String::new();
    rootcell::redact::append_decimal(&mut text, u64::MAX);
    assert_eq!(text, "18446744073709551615");
}

#[test]
fn serialization_is_refused() {
    let key = SecretKey::from_bytes(sample());
    assert_eq!(key.serialize(), Err(TrustError::CryptoFailure));
    assert_eq!(
        SecretKey::deserialize(&sample()).err(),
        Some(TrustError::CryptoFailure)
    );
    assert_eq!(
        SecretKey::deserialize(&[]).err(),
        Some(TrustError::CryptoFailure)
    );
}
