use rootcell::kdf::{derivation_info_bytes, u64_be_bytes, MAX_CONTEXT_LEN};
use rootcell::{SecretKey, TrustError};

const SESSION_1: [u8; 32] = [
    0x97, 0x3b, 0x6f, 0x14, 0x09, 0x9c, 0xf3, 0xb2, 0xb8, 0xbe, 0xfd, 0x56, 0x88, 0x88, 0x20, 0x2e,
    0x3a, 0xd6, 0x7a, 0xd8, 0xbc, 0x78, 0x96, 0xde, 0xbb, 0x36, 0xd4, 0x4f, 0x2d, 0x6c, 0xee, 0xb9,
];

const SESSION_2: [u8; 32] = [
    0xd6, 0x44, 0x2a, 0x3b, 0xeb, 0x83, 0x62, 0x90, 0x73, 0x76, 0x99, 0x65, 0x43, 0xb1, 0xa3, 0x04,
    0x7b, 0x91, 0xda, 0xc2, 0x99, 0x2a, 0x14, 0x29, 0x5c, 0xd4, 0xa6, 0xa2, 0xb7, 0xa0, 0x96, 0xae,
];

const GROUP_42: [u8; 32] = [
    0x84, 0xe0, 0x9b, 0x1f, 0xda, 0x3f, 0xa7, 0xfb, 0xfb, 0xda, 0x6b, 0xae, 0x61, 0xc4, 0xa8, 0x2a,
    0xef, 0xaf, 0xc9, 0xfc, 0xd4, 0x40, 0xc0, 0x1e, 0xf3, 0x32, 0x30, 0x72, 0x85, 0xf4, 0x66, 0x98,
];

const EMPTY_CONTEXT_0: [u8; 32] = [
    0xa0, 0x6b, 0x3c, 0x91, 0xf2, 0x9c, 0xa7, 0xa1, 0xba, 0x48, 0x7a, 0xe0, 0x65, 0x50, 0x7a, 0xf6,
    0x84, 0xe2, 0xa2, 0xbf, 0xd1, 0x93, 0xaf, 0xf9, 0x13, 0x59, 0xd7, 0xcb, 0x76, 0x51, 0xf8, 0xbb,
];

const GRANDCHILD: [u8; 32] = [
    0x6c, 0x34, 0xfd, 0x26, 0x9c, 0x4a, 0x32, 0x5f, 0xf8, 0xc2, 0xb0, 0xa2, 0x61, 0xc4, 0xce, 0xf0,
    0x76, 0x63, 0xad, 0x08, 0x9b, 0xb4, 0xd8, 0x96, 0x95, 0xdd, 0x38, 0xaa, 0x71, 0x01, 0x14, 0x29,
];

fn ascending() -> [u8; 32] {
    let mut bytes = [0u8; 32];
    for (i, b) in bytes.iter_mut().enumerate() {
        *b = i as u8 + 1;
    }
    bytes
}

#[test]
fn big_endian_bytes_are_exact() {
    assert_eq!(u64_be_bytes(0), [0, 0, 0, 0, 0, 0, 0, 0]);
    assert_eq!(u64_be_bytes(1), [0, 0, 0, 0, 0, 0, 0, 1]);
    assert_eq!(
        u64_be_bytes(0x0102_0304_0506_0708),
        [0x01, 0x02, 0x03, 0x04, 0x05, 0x06, 0x07, 0x08]
    );
    assert_eq!(u64_be_bytes(u64::MAX), [0xff; 8]);
    assert_eq!(u64_be_bytes(0xdead_beef), 0xdead_beefu64.to_be_bytes());
}

#[test]
fn info_is_context_then_id() {
    assert_eq!(
        derivation_info_bytes(b"session", 1),
        vec![b's', b'e', b's', b's', b'i', b'o', b'n', 0, 0, 0, 0, 0, 0, 0, 1]
    );
    assert_eq!(derivation_info_bytes(b"", 0x0100), vec![0, 0, 0, 0, 0, 0, 1, 0]);
}

#[test]
fn info_tells_context_and_id_apart() {
    assert_ne!(derivation_info_bytes(b"a", 1), derivation_info_bytes(b"a", 2));
    assert_ne!(derivation_info_bytes(b"a", 1), derivation_info_bytes(b"b", 1));
    assert_ne!(
        derivation_info_bytes(b"a\0", 1),
        derivation_info_bytes(b"a", 1 << 56)
    );
}

#[test]
fn derive_matches_hkdf_sha256() {
    let parent = SecretKey::from_bytes([7u8; 32]);
    let first = parent.derive(b"session", 1).unwrap();
    assert!(first.ct_eq(&SecretKey::from_bytes(SESSION_1)));
    let second = parent.derive(b"session", 2).unwrap();
    assert!(second.ct_eq(&SecretKey::from_bytes(SESSION_2)));

    let parent = SecretKey::from_bytes(ascending());
    let group = parent.derive(b"group:42", 0x0102_0304_0506_0708).unwrap();
    assert!(group.ct_eq(&SecretKey::from_bytes(GROUP_42)));
    let bare = parent.derive(b"", 0).unwrap();
    assert!(bare.ct_eq(&SecretKey::from_bytes(EMPTY_CONTEXT_0)));
}

#[test]
fn derived_keys_are_live_and_derive_further() {
    let parent = SecretKey::from_bytes([7u8; 32]);
    let child = parent.derive(b"session", 1).unwrap();
    assert_eq!(child.version(), 1);
    assert!(child.is_valid());
    let grandchild = child.derive(b"msg", 9).unwrap();
    assert!(grandchild.ct_eq(&SecretKey::from_bytes(GRANDCHILD)));
}

#[test]
fn derive_is_deterministic() {
    let parent = SecretKey::from_bytes(ascending());
    let twin = SecretKey::from_bytes(ascending());
    let once = parent.derive(b"session", 7).unwrap();
    let again = parent.derive(b"session", 7).unwrap();
    let from_twin = twin.derive(b"session", 7).unwrap();
    assert!(once.ct_eq(&again));
    assert!(once.ct_eq(&from_twin));
}

#[test]
fn derive_is_sensitive_to_every_input() {
    let parent = SecretKey::from_bytes(ascending());
    let base = parent.derive(b"session", 1).unwrap();
    assert!(!base.ct_eq(&parent.derive(b"session", 2).unwrap()));
    assert!(!base.ct_eq(&parent.derive(b"session", 1 << 63).unwrap()));
    assert!(!base.ct_eq(&parent.derive(b"sessioo", 1).unwrap()));
    assert!(!base.ct_eq(&parent.derive(b"Session", 1).unwrap()));
    assert!(!base.ct_eq(&parent.derive(b"", 1).unwrap()));
    let mut other = ascending();
    other[31] ^= 1;
    let other_parent = SecretKey::from_bytes(other);
    assert!(!base.ct_eq(&other_parent.derive(b"session", 1).unwrap()));
    assert!(!base.ct_eq(&parent));
}

#[test]
fn derive_flips_with_each_bit_of_the_id() {
    let parent = SecretKey::from_bytes([7u8; 32]);
    let base = parent.derive(b"session", 0).unwrap();
    for bit in 0..64 {
        let flipped = parent.derive(b"session", 1u64 << bit).unwrap();
        assert!(!base.ct_eq(&flipped));
    }
}

#[test]
fn derive_flips_with_each_bit_of_the_context() {
    let parent = SecretKey::from_bytes([7u8; 32]);
    let base = parent.derive(b"session", 1).unwrap();
    assert!(base.ct_eq(&SecretKey::from_bytes(SESSION_1)));
    for position in 0..7 {
        for bit in 0..8 {
            let mut context = *b"session";
            context[position] ^= 1u8 << bit;
            let flipped = parent.derive(&context, 1).unwrap();
            assert!(!base.ct_eq(&flipped));
        }
    }
}

#[test]
fn derive_refuses_a_destroyed_parent() {
    let mut parent = SecretKey::from_bytes(ascending());
    parent.burn();
    assert_eq!(
        parent.derive(b"session", 1).err(),
        Some(TrustError::AccessDenied)
    );
}

#[test]
fn derive_refuses_an_all_zero_parent() {
    let parent = SecretKey::from_bytes([0u8; 32]);
    assert_eq!(
        parent.derive(b"session", 1).err(),
        Some(TrustError::AccessDenied)
    );
}

#[test]
fn from_expansion_follows_the_outcome_of_the_primitive() {
    let mut okm = SESSION_1;
    let key = SecretKey::from_expansion(&mut okm, Ok(())).unwrap();
    assert!(key.ct_eq(&SecretKey::from_bytes(SESSION_1)));
    assert_eq!(key.version(), 1);
    assert_eq!(okm, [0u8; 32]);

    let mut okm = SESSION_1;
    let failed = SecretKey::from_expansion(&mut okm, Err(ring::error::Unspecified));
    assert_eq!(failed.err(), Some(TrustError::CryptoFailure));
    assert_eq!(okm, [0u8; 32]);
}

#[test]
fn context_limit_leaves_room_for_the_id() {
    assert_eq!(MAX_CONTEXT_LEN + 8, rootcell::primitives::MAX_HKDF_INPUT);
}

#[test]
fn parent_and_children_have_independent_lifetimes() {
    let mut identity = SecretKey::generate().unwrap();
    let first = identity.derive(b"session", 1).unwrap();
    let second = identity.derive(b"session", 2).unwrap();
    assert!(!first.ct_eq(&second));
    assert!(first.is_valid());
    assert!(second.is_valid());
    identity.burn();
    assert!(!identity.is_valid());
    assert!(first.is_valid());
    assert!(second.is_valid());
}
