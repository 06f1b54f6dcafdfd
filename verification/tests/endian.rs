use login_gateway::endian::{read_le_u32, write_le_u32};

#[test]
fn reads_a_little_endian_word_at_an_offset() {
    let bytes = [0xaa, 0x78, 0x56, 0x34, 0x12, 0xbb];
    assert_eq!(read_le_u32(&bytes, 1), 0x12345678);
    assert_eq!(read_le_u32(&bytes, 0), 0x345678aa);
    assert_eq!(read_le_u32(&bytes, 2), 0xbb123456);
}

#[test]
fn writes_a_little_endian_word_at_an_offset() {
    let mut bytes = [0x11u8; 7];
    write_le_u32(&mut bytes, 2, 0xdeadbeef);
    assert_eq!(bytes, [0x11, 0x11, 0xef, 0xbe, 0xad, 0xde, 0x11]);
    assert_eq!(read_le_u32(&bytes, 2), 0xdeadbeef);
    write_le_u32(&mut bytes, 0, 0);
    assert_eq!(bytes, [0, 0, 0, 0, 0xad, 0xde, 0x11]);
}
