use rootcell::TrustError;

#[test]
fn error_messages_name_the_variant() {
    assert_eq!(TrustError::AccessDenied.message(), "AccessDenied");
    assert_eq!(TrustError::HardwareUnavailable.message(), "HardwareUnavailable");
    assert_eq!(TrustError::CryptoFailure.message(), "CryptoFailure");
}

#[test]
fn error_messages_carry_the_reason() {
    let revoked = TrustError::KeyRevoked(String::from("rotated by peer"));
    assert_eq!(revoked.message(), "KeyRevoked:rotated by peer");
    let storage = TrustError::Storage(String::from("disk full"));
    assert_eq!(storage.message(), " Storage error:disk full");
    assert_eq!(TrustError::KeyRevoked(String::new()).message(), "KeyRevoked:");
}
