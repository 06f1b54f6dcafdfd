use login_gateway::blowfish::cipher::{
    decrypt_block, encrypt_block, expand_key, expand_key_with_salt, get_next_word, init_cipher,
    Cipher, BLOCK_SIZE,
};
use login_gateway::error::ProtocolError;

fn cipher(key: &[u8]) -> Cipher {
    Cipher::new(key.to_vec()).expect("key of valid length")
}

fn hex(s: &str) -> Vec<u8> {
    (0..s.len()).step_by(2).map(|i| u8::from_str_radix(&s[i..i + 2], 16).unwrap()).collect()
}

#[test]
fn known_answers_on_words() {
    let vectors: [(&str, u32, u32, u32, u32); 4] = [
        ("0000000000000000", 0x00000000, 0x00000000, 0x4ef99745, 0x6198dd78),
        ("ffffffffffffffff", 0xffffffff, 0xffffffff, 0x51866fd5, 0xb85ecb8a),
        ("0123456789abcdef", 0x11111111, 0x11111111, 0x61f9c380, 0x2281b096),
        ("fedcba9876543210", 0x01234567, 0x89abcdef, 0x0aceab0f, 0xc6a0a28d),
    ];
    for (key, l, r, el, er) in vectors {
        let c = cipher(&hex(key));
        assert_eq!(encrypt_block(l, r, &c), (el, er));
        assert_eq!(decrypt_block(el, er, &c), (l, r));
    }
}

#[test]
fn known_answer_on_bytes_reads_and_writes_little_endian_words() {
    let c = cipher(&[0u8; 8]);
    let mut out = [0xaau8; 8];
    c.encrypt(&mut out, &[0u8; 8]);
    assert_eq!(out, [0x45, 0x97, 0xf9, 0x4e, 0x78, 0xdd, 0x98, 0x61]);
    let mut back = [0xaau8; 8];
    c.decrypt(&mut back, &out);
    assert_eq!(back, [0u8; 8]);
}

#[test]
fn known_answer_under_the_shared_key() {
    let c = cipher(b"[;'.]94-31==-%&@!^+]\x0000");
    let mut out = [0u8; 8];
    c.encrypt(&mut out, &[1, 2, 3, 4, 5, 6, 7, 8]);
    assert_eq!(out, [0xd3, 0xdb, 0x84, 0x0d, 0x43, 0x30, 0x21, 0x2e]);
}

#[test]
fn encrypt_touches_only_the_first_block_of_dst() {
    let c = cipher(b"key");
    let mut dst = [7u8; 12];
    c.encrypt(&mut dst, &[9u8; 10]);
    assert_eq!(&dst[8..], &[7u8; 4]);
    let mut first = [0u8; 8];
    c.encrypt(&mut first, &[9u8; 8]);
    assert_eq!(&dst[..8], &first);
}

#[test]
fn decrypt_undoes_encrypt_for_every_key_length() {
    let blocks: [[u8; 8]; 4] = [
        [0; 8],
        [0xff; 8],
        [1, 2, 3, 4, 5, 6, 7, 8],
        [0x80, 0, 0, 0x01, 0xfe, 0xdc, 0xba, 0x98],
    ];
    for len in 1..=56usize {
        let key: Vec<u8> = (0..len).map(|i| (i * 37 + len) as u8).collect();
        let c = cipher(&key);
        for block in blocks {
            let mut enc = [0u8; 8];
            c.encrypt(&mut enc, &block);
            let mut dec = [0u8; 8];
            c.decrypt(&mut dec, &enc);
            assert_eq!(dec, block);
            let mut dec2 = [0u8; 8];
            c.decrypt(&mut dec2, &block);
            let mut enc2 = [0u8; 8];
            c.encrypt(&mut enc2, &dec2);
            assert_eq!(enc2, block);
        }
    }
}

#[test]
fn key_of_no_bytes_is_refused() {
    assert_eq!(Cipher::new(Vec::new()).err(), Some(ProtocolError::InvalidKeySize));
    assert_eq!(Cipher::new_salt(&[], b"salt").err(), Some(ProtocolError::InvalidKeySize));
    assert_eq!(Cipher::new_salt(&[], &[]).err(), Some(ProtocolError::InvalidKeySize));
}

#[test]
fn key_of_57_bytes_is_refused() {
    assert_eq!(Cipher::new(vec![1u8; 57]).err(), Some(ProtocolError::InvalidKeySize));
    assert_eq!(Cipher::new_salt(&[1u8; 57], b"salt").err(), Some(ProtocolError::InvalidKeySize));
    assert!(Cipher::new(vec![1u8; 56]).is_ok());
    assert!(Cipher::new(vec![1u8; 1]).is_ok());
}

#[test]
fn empty_salt_gives_the_unsalted_cipher() {
    for len in [1usize, 5, 8, 23, 56] {
        let key: Vec<u8> = (0..len).map(|i| (i + 1) as u8).collect();
        let plain = Cipher::new(key.clone()).unwrap();
        let salted = Cipher::new_salt(&key, &[]).unwrap();
        assert!(plain == salted);
    }
}

#[test]
fn salt_changes_the_cipher() {
    let plain = cipher(b"secret");
    let salted = Cipher::new_salt(b"secret", b"salty").unwrap();
    assert!(plain != salted);
    assert_eq!(encrypt_block(0, 0, &plain), (0x010a0d91, 0x49750a32));
    assert_eq!(encrypt_block(0, 0, &salted), (0x0f9635b7, 0xa83ad5de));
    let (l, r) = encrypt_block(0x01020304, 0x05060708, &salted);
    assert_eq!(decrypt_block(l, r, &salted), (0x01020304, 0x05060708));
}

#[test]
fn key_schedule_fills_every_table_for_every_key_and_salt_length() {
    for key_len in 1..=56usize {
        let key = vec![0x5au8; key_len];
        assert!(Cipher::new(key.clone()).is_ok());
        for salt_len in [1usize, 2, 3, 4, 5, 7, 8, 16, 33] {
            let salt = vec![0xa5u8; salt_len];
            assert!(Cipher::new_salt(&key, &salt).is_ok());
        }
    }
}

#[test]
fn schedule_steps_compose_to_new() {
    let key = b"compose";
    let mut c = cipher(b"other");
    init_cipher(&mut c);
    expand_key(key, &mut c);
    assert!(c == cipher(key));
    let mut s = cipher(b"other");
    init_cipher(&mut s);
    expand_key_with_salt(&mut s, key, b"pepper");
    assert!(s == Cipher::new_salt(key, b"pepper").unwrap());
    assert!(s != c);
}

#[test]
fn next_word_is_big_endian_and_wraps() {
    let bytes = [0x01u8, 0x02, 0x03, 0x04, 0x05, 0x06];
    let mut pos = 0usize;
    assert_eq!(get_next_word(&bytes, &mut pos), 0x01020304);
    assert_eq!(pos, 4);
    assert_eq!(get_next_word(&bytes, &mut pos), 0x05060102);
    assert_eq!(pos, 2);
    let one = [0xabu8];
    let mut p = 0usize;
    assert_eq!(get_next_word(&one, &mut p), 0xabababab);
    assert_eq!(p, 0);
    let four = [1u8, 2, 3, 4];
    let mut q = 3usize;
    assert_eq!(get_next_word(&four, &mut q), 0x04010203);
    assert_eq!(q, 3);
}

#[test]
fn block_size_is_eight() {
    assert_eq!(cipher(b"k").block_size(), 8);
    assert_eq!(BLOCK_SIZE, 8);
}
