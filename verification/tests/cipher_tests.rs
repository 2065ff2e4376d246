use xeen_cc::cipher::{
    decrypt_member, decrypt_toc, encrypt_member, encrypt_toc, verify_decrypt, MEMBER_KEY,
    TOC_COUNTER_START, TOC_COUNTER_STEP,
};

#[test]
fn cipher_constants() {
    assert_eq!(TOC_COUNTER_START, 0xAC);
    assert_eq!(TOC_COUNTER_STEP, 0x67);
    assert_eq!(MEMBER_KEY, 0x35);
}

#[test]
fn decrypt_toc_of_zero_bytes_is_the_counter() {
    // 0xAC, then 0xAC + 0x67 = 0x113 -> 0x13, then 0x7A, 0xE1, 0x48.
    assert_eq!(decrypt_toc(vec![0, 0, 0, 0, 0]), vec![0xAC, 0x13, 0x7A, 0xE1, 0x48]);
}

#[test]
fn decrypt_toc_rotates_then_adds() {
    // 0x15 rotated left by two is 0x54; 0x54 + 0xAC wraps to 0.
    assert_eq!(decrypt_toc(vec![0x15]), vec![0x00]);
    // 0xFF rotated is 0xFF; 0xFF + 0xAC = 0x1AB -> 0xAB.
    assert_eq!(decrypt_toc(vec![0xFF]), vec![0xAB]);
    // 0x81 rotated is 0x06; 0x06 + 0xAC = 0xB2.
    assert_eq!(decrypt_toc(vec![0x81]), vec![0xB2]);
    // Second position: 0x40 rotated is 0x01; 0x01 + 0x13 = 0x14.
    assert_eq!(decrypt_toc(vec![0x15, 0x40]), vec![0x00, 0x14]);
}

#[test]
fn decrypt_toc_of_nothing_is_nothing() {
    assert_eq!(decrypt_toc(Vec::new()), Vec::<u8>::new());
    assert_eq!(encrypt_toc(Vec::new()), Vec::<u8>::new());
}

#[test]
fn encrypt_toc_subtracts_then_rotates() {
    // 0 - 0xAC wraps to 0x54; rotated right by two it is 0x15.
    assert_eq!(encrypt_toc(vec![0x00]), vec![0x15]);
    // 0xB2 - 0xAC = 0x06; rotated right it is 0x81.
    assert_eq!(encrypt_toc(vec![0xB2]), vec![0x81]);
    assert_eq!(encrypt_toc(vec![0x00, 0x14]), vec![0x15, 0x40]);
}

#[test]
fn toc_cipher_round_trips_every_byte_value() {
    let mut bytes: Vec<u8> = Vec::new();
    for round in 0..3u32 {
        for value in 0..=255u8 {
            bytes.push(value.wrapping_mul(7).wrapping_add(round as u8));
        }
    }
    assert_eq!(bytes.len() % 8, 0);
    assert_eq!(encrypt_toc(decrypt_toc(bytes.clone())), bytes);
    assert_eq!(decrypt_toc(encrypt_toc(bytes.clone())), bytes);
    assert_ne!(decrypt_toc(bytes.clone()), bytes);
}

#[test]
fn toc_cipher_round_trips_odd_lengths() {
    let bytes: Vec<u8> = vec![9, 8, 7, 6, 5, 4, 3, 2, 1, 0, 255];
    assert_eq!(encrypt_toc(decrypt_toc(bytes.clone())), bytes);
    assert_eq!(decrypt_toc(encrypt_toc(bytes.clone())), bytes);
}

#[test]
fn encrypted_zeros_pass_verification() {
    let encrypted = encrypt_toc(vec![0u8; 16]);
    assert_ne!(encrypted, vec![0u8; 16]);
    let plain = decrypt_toc(encrypted);
    assert_eq!(plain, vec![0u8; 16]);
    assert!(verify_decrypt(&plain));
}

#[test]
fn corrupted_padding_fails_verification() {
    let mut first = vec![0u8; 16];
    first[7] = 1;
    assert!(!verify_decrypt(&first));
    let mut second = vec![0u8; 16];
    second[15] = 0xFF;
    assert!(!verify_decrypt(&second));
    let mut late = vec![0u8; 64];
    late[63] = 0x80;
    assert!(!verify_decrypt(&late));
}

#[test]
fn corrupted_cipher_text_fails_verification() {
    let mut encrypted = encrypt_toc(vec![0u8; 16]);
    encrypted[15] ^= 0x01;
    assert!(!verify_decrypt(&decrypt_toc(encrypted)));
}

#[test]
fn verification_looks_at_padding_bytes_only() {
    let mut plain = vec![0xEEu8; 24];
    plain[7] = 0;
    plain[15] = 0;
    plain[23] = 0;
    assert!(verify_decrypt(&plain));
}

#[test]
fn verification_of_short_buffers() {
    assert!(verify_decrypt(&Vec::new()));
    // Seven bytes hold no padding byte.
    assert!(verify_decrypt(&vec![1u8; 7]));
    assert!(!verify_decrypt(&vec![1u8; 8]));
    assert!(verify_decrypt(&vec![1, 1, 1, 1, 1, 1, 1, 0]));
    // A record cut short after a sound one.
    assert!(verify_decrypt(&vec![1, 1, 1, 1, 1, 1, 1, 0, 1, 1, 1]));
}

#[test]
fn decrypt_member_xors_with_the_key() {
    assert_eq!(decrypt_member(&[0x35, 0x00, 0xFF, 0x01]), vec![0x00, 0x35, 0xCA, 0x34]);
    assert_eq!(decrypt_member(&[]), Vec::<u8>::new());
}

#[test]
fn member_cipher_round_trips() {
    let mut bytes: Vec<u8> = Vec::new();
    for value in 0..=255u8 {
        bytes.push(value);
    }
    let encrypted = encrypt_member(&bytes);
    assert_ne!(encrypted, bytes);
    assert_eq!(decrypt_member(&encrypted), bytes);
    assert_eq!(encrypt_member(&decrypt_member(&bytes)), bytes);
    assert_eq!(encrypt_member(&bytes), decrypt_member(&bytes));
}
