use login_gateway::blowfish::cipher::Cipher;
use login_gateway::error::ProtocolError;
use login_gateway::loginserver::crypt::{blowfish_decrypt, checksum, decrypt_payload};

const SHARED_KEY: &[u8] = b"[;'.]94-31==-%&@!^+]\x0000";

fn encrypt_all(key: &[u8], plain: &[u8]) -> Vec<u8> {
    let c = Cipher::new(key.to_vec()).unwrap();
    let mut out = vec![0u8; plain.len()];
    for i in (0..plain.len()).step_by(8) {
        c.encrypt(&mut out[i..i + 8], &plain[i..i + 8]);
    }
    out
}

#[test]
fn checksum_is_the_xor_of_all_words_but_the_last() {
    let mut raw = vec![
        0x01, 0x02, 0x03, 0x04, 0x10, 0x20, 0x30, 0x40, 0xff, 0x00, 0xff, 0x00, 0, 0, 0, 0,
    ];
    assert!(!checksum(&mut raw));
    assert_eq!(&raw[12..], &[0xee, 0x22, 0xcc, 0x44]);
    assert_eq!(&raw[..12], &[0x01, 0x02, 0x03, 0x04, 0x10, 0x20, 0x30, 0x40, 0xff, 0x00, 0xff, 0x00]);
    assert!(checksum(&mut raw));
    assert_eq!(&raw[12..], &[0xee, 0x22, 0xcc, 0x44]);
}

#[test]
fn a_single_word_has_checksum_zero() {
    let mut raw = vec![9, 9, 9, 9];
    assert!(!checksum(&mut raw));
    assert_eq!(raw, vec![0, 0, 0, 0]);
    assert!(checksum(&mut raw));
}

#[test]
fn sealed_payloads_verify() {
    for words in 1..=12usize {
        let mut raw: Vec<u8> = (0..words * 4).map(|i| (i * 29 + words) as u8).collect();
        checksum(&mut raw);
        let sealed = raw.clone();
        assert!(checksum(&mut raw));
        assert_eq!(raw, sealed);
    }
}

#[test]
fn every_flipped_bit_is_detected() {
    let mut sealed: Vec<u8> = (0..24).map(|i| (i * 7 + 3) as u8).collect();
    checksum(&mut sealed);
    for i in 0..sealed.len() {
        for bit in 0..8 {
            let mut damaged = sealed.clone();
            damaged[i] ^= 1 << bit;
            assert!(!checksum(&mut damaged), "byte {} bit {}", i, bit);
        }
    }
}

#[test]
fn decrypts_block_by_block() {
    let plain: Vec<u8> = (0..32).collect();
    let enc = encrypt_all(SHARED_KEY, &plain);
    assert_ne!(enc, plain);
    assert_eq!(blowfish_decrypt(enc.clone(), SHARED_KEY.to_vec()), Ok(plain.clone()));
    let c = Cipher::new(SHARED_KEY.to_vec()).unwrap();
    assert_eq!(decrypt_payload(&c, &enc), Ok(plain));
}

#[test]
fn decrypts_a_known_block() {
    let enc = vec![0xd3, 0xdb, 0x84, 0x0d, 0x43, 0x30, 0x21, 0x2e];
    assert_eq!(blowfish_decrypt(enc, SHARED_KEY.to_vec()), Ok(vec![1, 2, 3, 4, 5, 6, 7, 8]));
}

#[test]
fn misaligned_payload_is_rejected() {
    for len in [1usize, 7, 9, 12, 15, 33] {
        assert_eq!(
            blowfish_decrypt(vec![0u8; len], SHARED_KEY.to_vec()),
            Err(ProtocolError::InvalidBlockAlignment)
        );
    }
}

#[test]
fn empty_payload_is_rejected() {
    assert_eq!(
        blowfish_decrypt(Vec::new(), SHARED_KEY.to_vec()),
        Err(ProtocolError::InvalidBlockAlignment)
    );
}

#[test]
fn bad_key_is_reported_before_bad_length() {
    assert_eq!(blowfish_decrypt(vec![0u8; 3], Vec::new()), Err(ProtocolError::InvalidKeySize));
    assert_eq!(blowfish_decrypt(vec![0u8; 8], vec![0u8; 57]), Err(ProtocolError::InvalidKeySize));
}
