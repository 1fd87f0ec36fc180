use duskura::crypto::{
    decode_base64, derive_key, encode_base64, hash, random_hex, verify_hash_chain, xor_decrypt,
    xor_encrypt,
};
use duskura::text::{int_text, nat_text, contains, same_text};
use duskura::{DuskuraError, IdentityState, MemoryClass, MemoryIntegrity, MemorySource};

#[test]
fn sha256_hex_of_known_inputs() {
    assert_eq!(
        hash(b"abc"),
        "ba7816bf8f01cfea414140de5dae2223b00361a396177a9cb410ff61f20015ad"
    );
    assert_eq!(
        hash(b""),
        "e3b0c44298fc1c149afbf4c8996fb92427ae41e4649b934ca495991b7852b855"
    );
}

#[test]
fn hash_chain_accepts_linked_pairs() {
    assert!(verify_hash_chain(&[]).is_ok());
    let chain = vec![
        ("h1".to_string(), "anything".to_string()),
        ("h2".to_string(), "h1".to_string()),
        ("h3".to_string(), "h2".to_string()),
    ];
    assert!(verify_hash_chain(&chain).is_ok());
}

#[test]
fn hash_chain_rejects_a_broken_link() {
    let chain = vec![
        ("h1".to_string(), "x".to_string()),
        ("h2".to_string(), "other".to_string()),
    ];
    assert_eq!(verify_hash_chain(&chain), Err(DuskuraError::HashVerificationFailed));
}

#[test]
fn hash_chain_skips_the_link_after_an_empty_hash() {
    let chain = vec![
        ("".to_string(), "x".to_string()),
        ("h2".to_string(), "unrelated".to_string()),
    ];
    assert!(verify_hash_chain(&chain).is_ok());
}

#[test]
fn xor_masks_each_byte_with_the_repeated_key() {
    let masked = xor_encrypt(&[1, 2, 3, 4, 5], &[0xff, 0x0f]);
    assert_eq!(masked, vec![0xfe, 0x0d, 0xfc, 0x0b, 0xfa]);
    assert_eq!(xor_decrypt(&masked, &[0xff, 0x0f]), vec![1, 2, 3, 4, 5]);
    assert_eq!(xor_encrypt(&[], &[]), Vec::<u8>::new());
}

#[test]
fn random_hex_is_lower_hex_of_the_length() {
    let h = random_hex(16);
    assert_eq!(h.len(), 32);
    assert!(h.chars().all(|c| c.is_ascii_digit() || ('a'..='f').contains(&c)));
}

#[test]
fn derive_key_gives_the_argon2_key() {
    let key = derive_key("password", b"somesaltbytes!!!").unwrap();
    let mut expected = [0u8; 32];
    argon2::Argon2::default()
        .hash_password_into(b"password", b"somesaltbytes!!!", &mut expected)
        .unwrap();
    assert_eq!(key, expected.to_vec());
    assert_eq!(derive_key("password", b"somesaltbytes!!!").unwrap(), key);
    assert_ne!(derive_key("passw0rd", b"somesaltbytes!!!").unwrap(), key);
    assert_eq!(derive_key("password", &[7u8; 8]).unwrap().len(), 32);
    match derive_key("password", b"abc") {
        Err(DuskuraError::EncryptionFailed(_)) => {}
        other => panic!("unexpected {:?}", other),
    }
    match derive_key("password", &[7u8; 7]) {
        Err(DuskuraError::EncryptionFailed(_)) => {}
        other => panic!("unexpected {:?}", other),
    }
    let long_salt = [7u8; 49];
    match derive_key("password", &long_salt) {
        Err(DuskuraError::EncryptionFailed(_)) => {}
        other => panic!("unexpected {:?}", other),
    }
}

#[test]
fn base64_round_trip_and_errors() {
    assert_eq!(encode_base64(b"hello"), "aGVsbG8=");
    assert_eq!(decode_base64("aGVsbG8=").unwrap(), b"hello".to_vec());
    match decode_base64("aGVsbG8") {
        Err(DuskuraError::EncryptionFailed(_)) => {}
        other => panic!("unexpected {:?}", other),
    }
}

#[test]
fn decimal_numerals() {
    assert_eq!(nat_text(0), "0");
    assert_eq!(nat_text(1234567890), "1234567890");
    assert_eq!(int_text(-42), "-42");
    assert_eq!(int_text(i64::MIN), "-9223372036854775808");
    assert_eq!(int_text(i64::MAX), "9223372036854775807");
}

#[test]
fn substring_and_equality() {
    assert!(contains("sibling-of-abc", "abc"));
    assert!(contains("abc", ""));
    assert!(!contains("ab", "abc"));
    assert!(!contains("xaxbx", "ab"));
    assert!(same_text("ANCHOR", "ANCHOR"));
    assert!(!same_text("ANCHOR", "ANCHOr"));
}

#[test]
fn display_texts_of_enums() {
    assert_eq!(IdentityState::FinalRest.to_string(), "FINAL_REST");
    assert_eq!(IdentityState::Active.to_string(), "ACTIVE");
    assert_eq!(MemoryClass::Expendable.to_string(), "EXPENDABLE");
    assert_eq!(MemorySource::Self_.to_string(), "SELF");
    assert_eq!(MemoryIntegrity::Corrupted.to_string(), "CORRUPTED");
}

#[test]
fn error_messages_and_kinds() {
    assert_eq!(
        DuskuraError::IdentityNotFound("x".to_string()).to_string(),
        "Identity not found: x"
    );
    assert_eq!(
        DuskuraError::InvalidStateTransition("ACTIVE".to_string(), "THRESHOLD".to_string())
            .to_string(),
        "Invalid state transition: ACTIVE -> THRESHOLD"
    );
    assert_eq!(DuskuraError::HashVerificationFailed.to_string(), "Hash verification failed");
    assert!(DuskuraError::BondNotFound("b".to_string()).is_recoverable());
    assert!(!DuskuraError::BondNotFound("b".to_string()).is_security_critical());
    assert!(DuskuraError::MemoryChainCorrupted.is_security_critical());
    assert!(!DuskuraError::MemoryChainCorrupted.is_recoverable());
    assert!(!DuskuraError::Unknown("u".to_string()).is_recoverable());
}
