use login_gateway::error::ProtocolError;
use login_gateway::packet::{frame, payload_length, Buffer, PacketRead, MAX_PAYLOAD};

#[test]
fn writes_are_little_endian_and_in_order() {
    let mut b = Buffer::new();
    assert!(b.buffer.is_empty());
    assert!(b.write_uint8(0x11).is_ok());
    assert!(b.write_uint16(0x2233).is_ok());
    assert!(b.write_uint32(0x44556677).is_ok());
    assert!(b.write_uint64(0x8899aabbccddeeff).is_ok());
    assert!(b.write(vec![1, 2, 3]).is_ok());
    assert!(b.write_usize(200).is_ok());
    assert_eq!(
        b.buffer,
        vec![
            0x11, 0x33, 0x22, 0x77, 0x66, 0x55, 0x44, 0xff, 0xee, 0xdd, 0xcc, 0xbb, 0xaa, 0x99,
            0x88, 1, 2, 3, 200
        ]
    );
}

#[test]
fn reads_give_back_what_was_written() {
    let mut b = Buffer::new();
    b.write_uint64(u64::MAX - 1).unwrap();
    b.write_uint32(0xdeadbeef).unwrap();
    b.write_uint16(0xcafe).unwrap();
    b.write_uint8(0x42).unwrap();
    b.write_uint64(0).unwrap();
    let mut r = PacketRead::new(b.buffer);
    assert_eq!(r.remaining(), 23);
    assert_eq!(r.read_u64(), Ok(u64::MAX - 1));
    assert_eq!(r.read_u32(), Ok(0xdeadbeef));
    assert_eq!(r.read_u16(), Ok(0xcafe));
    assert_eq!(r.read_u8(), Ok(0x42));
    assert_eq!(r.read_u64(), Ok(0));
    assert_eq!(r.remaining(), 0);
}

#[test]
fn floats_travel_as_their_bits() {
    let mut b = Buffer::new();
    b.write_uint64((-1234.5f64).to_bits()).unwrap();
    b.write_uint32(0.15625f32.to_bits()).unwrap();
    assert_eq!(&b.buffer[..8], &(-1234.5f64).to_le_bytes());
    assert_eq!(&b.buffer[8..], &0.15625f32.to_le_bytes());
    let mut r = PacketRead::new(b.buffer);
    assert_eq!(f64::from_bits(r.read_u64().unwrap()), -1234.5);
    assert_eq!(f32::from_bits(r.read_u32().unwrap()), 0.15625);
}

#[test]
fn reads_consume_from_the_front() {
    let mut r = PacketRead::new(vec![0x01, 0x02, 0x03, 0x04, 0x05, 0x06, 0x07]);
    assert_eq!(r.read_u16(), Ok(0x0201));
    assert_eq!(r.read_u32(), Ok(0x06050403));
    assert_eq!(r.remaining(), 1);
    assert_eq!(r.read_u8(), Ok(0x07));
}

#[test]
fn reading_past_the_end_is_a_short_read_and_consumes_nothing() {
    let mut r = PacketRead::new(vec![0xaa, 0xbb, 0xcc]);
    assert_eq!(r.read_u64(), Err(ProtocolError::ShortRead));
    assert_eq!(r.read_u32(), Err(ProtocolError::ShortRead));
    assert_eq!(r.remaining(), 3);
    assert_eq!(r.read_u16(), Ok(0xbbaa));
    assert_eq!(r.read_u16(), Err(ProtocolError::ShortRead));
    assert_eq!(r.read_u8(), Ok(0xcc));
    assert_eq!(r.read_u8(), Err(ProtocolError::ShortRead));
    let mut empty = PacketRead::new(Vec::new());
    assert_eq!(empty.read_u8(), Err(ProtocolError::ShortRead));
}

#[test]
fn frame_counts_its_own_header() {
    assert_eq!(frame(vec![9, 8, 7]), vec![5, 0, 9, 8, 7]);
    assert_eq!(frame(Vec::new()), vec![2, 0]);
    let big = frame(vec![1u8; 300]);
    assert_eq!(&big[..2], &[0x2e, 0x01]);
    assert_eq!(big.len(), 302);
    let largest = frame(vec![0u8; MAX_PAYLOAD]);
    assert_eq!(&largest[..2], &[0xff, 0xff]);
}

#[test]
fn header_announces_the_payload() {
    assert_eq!(payload_length(&[0x2a, 0x00]), 40);
    assert_eq!(payload_length(&[0x02, 0x00]), 0);
    assert_eq!(payload_length(&[0x01, 0x00]), 0);
    assert_eq!(payload_length(&[0x00, 0x00]), 0);
    assert_eq!(payload_length(&[0x00, 0x01]), 254);
    assert_eq!(payload_length(&[0xff, 0xff]), 65533);
}

#[test]
fn frame_round_trip() {
    for len in [0usize, 1, 8, 40, 255, 256, 4000] {
        let payload: Vec<u8> = (0..len).map(|i| (i % 251) as u8).collect();
        let framed = frame(payload.clone());
        assert_eq!(payload_length(&[framed[0], framed[1]]), len);
        assert_eq!(&framed[2..], &payload[..]);
    }
}
