//! The packet codec: a writer that appends little-endian values to a
//! buffer, a reader that consumes them from the front of one, and the frame
//! that carries a payload behind its two-byte length.

use vstd::prelude::*;
use byteorder::{LittleEndian, WriteBytesExt};
use crate::endian::{le_u16, le_u32, le_u64, u16_le_bytes, u32_le_bytes, u64_le_bytes};
use crate::error::ProtocolError;

verus! {

/// `std::io::Error`, the error type of a writer's result. It is only
/// carried through: nothing is known of what it holds.
#[verifier::external_type_specification]
#[verifier::external_body]
pub struct ExIoError(std::io::Error);

/// `byteorder::WriteBytesExt::write_u8` on a vector, which hands the byte
/// to the vector's `write_all`. That writer appends to the vector, which
/// grows as needed, and has no way to fail: the call returns `Ok` with the
/// byte added at the end.
#[verifier::external_body]
fn put_u8(buf: &mut Vec<u8>, n: u8) -> (res: Result<(), std::io::Error>)
    ensures
        res is Ok,
        final(buf)@ == old(buf)@.push(n),
{
    buf.write_u8(n)
}

/// `byteorder::WriteBytesExt::write_u16` in little-endian order on a vector:
/// it lays `n` out with `to_le_bytes` and hands the bytes to the vector's
/// `write_all`. That writer appends to the vector and has no way to fail:
/// the call returns `Ok` with the two bytes of `n` added at the end, least
/// significant first.
#[verifier::external_body]
fn put_u16(buf: &mut Vec<u8>, n: u16) -> (res: Result<(), std::io::Error>)
    ensures
        res is Ok,
        final(buf)@ == old(buf)@ + u16_le_bytes(n),
{
    buf.write_u16::<LittleEndian>(n)
}

/// `byteorder::WriteBytesExt::write_u32` in little-endian order on a vector:
/// it lays `n` out with `to_le_bytes` and hands the bytes to the vector's
/// `write_all`. That writer appends to the vector and has no way to fail:
/// the call returns `Ok` with the four bytes of `n` added at the end, least
/// significant first.
#[verifier::external_body]
fn put_u32(buf: &mut Vec<u8>, n: u32) -> (res: Result<(), std::io::Error>)
    ensures
        res is Ok,
        final(buf)@ == old(buf)@ + u32_le_bytes(n),
{
    buf.write_u32::<LittleEndian>(n)
}

/// `byteorder::WriteBytesExt::write_u64` in little-endian order on a vector:
/// it lays `n` out with `to_le_bytes` and hands the bytes to the vector's
/// `write_all`. That writer appends to the vector and has no way to fail:
/// the call returns `Ok` with the eight bytes of `n` added at the end, least
/// significant first.
#[verifier::external_body]
fn put_u64(buf: &mut Vec<u8>, n: u64) -> (res: Result<(), std::io::Error>)
    ensures
        res is Ok,
        final(buf)@ == old(buf)@ + u64_le_bytes(n),
{
    buf.write_u64::<LittleEndian>(n)
}

/// A growing run of bytes that a frame is composed in, field by field.
pub struct Buffer {
    pub buffer: Vec<u8>,
}

impl View for Buffer {
    type V = Seq<u8>;

    open spec fn view(&self) -> Seq<u8> {
        self.buffer@
    }
}

impl Buffer {
    /// An empty buffer.
    pub fn new() -> (b: Buffer)
        ensures
            b@ == Seq::<u8>::empty(),
    {
        Buffer { buffer: Vec::new() }
    }

    /// Appends the bytes of `value` as they are.
    pub fn write(&mut self, value: Vec<u8>) -> (res: std::io::Result<()>)
        ensures
            res is Ok,
            final(self)@ == old(self)@ + value@,
    {
        let mut value = value;
        self.buffer.append(&mut value);
        Ok(())
    }

    /// Appends `value` as a single byte. The value must fit in one.
    pub fn write_usize(&mut self, value: usize) -> (res: std::io::Result<()>)
        requires
            value <= u8::MAX,
        ensures
            res is Ok,
            final(self)@ == old(self)@.push(value as u8),
    {
        put_u8(&mut self.buffer, value as u8)
    }

    /// Appends the eight bytes of `value`, least significant first.
    pub fn write_uint64(&mut self, value: u64) -> (res: std::io::Result<()>)
        ensures
            res is Ok,
            final(self)@ == old(self)@ + u64_le_bytes(value),
    {
        put_u64(&mut self.buffer, value)
    }

    /// Appends the four bytes of `value`, least significant first.
    pub fn write_uint32(&mut self, value: u32) -> (res: std::io::Result<()>)
        ensures
            res is Ok,
            final(self)@ == old(self)@ + u32_le_bytes(value),
    {
        put_u32(&mut self.buffer, value)
    }

    /// Appends the two bytes of `value`, least significant first.
    pub fn write_uint16(&mut self, value: u16) -> (res: std::io::Result<()>)
        ensures
            res is Ok,
            final(self)@ == old(self)@ + u16_le_bytes(value),
    {
        put_u16(&mut self.buffer, value)
    }

    /// Appends the byte `value`.
    pub fn write_uint8(&mut self, value: u8) -> (res: std::io::Result<()>)
        ensures
            res is Ok,
            final(self)@ == old(self)@.push(value),
    {
        self.buffer.push(value);
        Ok(())
    }
}

/// A run of bytes that is consumed from the front, value by value. What has
/// been read is gone: there is no way back.
pub struct PacketRead {
    buffer: Vec<u8>,
    position: usize,
}

impl View for PacketRead {
    type V = Seq<u8>;

    /// The bytes not yet read.
    closed spec fn view(&self) -> Seq<u8> {
        self.buffer@.skip(self.position as int)
    }
}

impl PacketRead {
    #[verifier::type_invariant]
    spec fn in_bounds(self) -> bool {
        self.position <= self.buffer@.len()
    }

    /// A reader over `buffer`, with nothing read yet.
    pub fn new(buffer: Vec<u8>) -> (r: PacketRead)
        ensures
            r@ == buffer@,
    {
        PacketRead { buffer, position: 0 }
    }

    /// Number of bytes not yet read.
    pub fn remaining(&self) -> (n: usize)
        ensures
            n == self@.len(),
    {
        proof {
            use_type_invariant(self);
        }
        self.buffer.len() - self.position
    }

    /// Reads eight bytes as a little-endian value, or fails and reads
    /// nothing if fewer are left.
    pub fn read_u64(&mut self) -> (res: Result<u64, ProtocolError>)
        ensures
            match res {
                Ok(v) => old(self)@.len() >= 8 && v == le_u64(old(self)@) && final(self)@ == old(
                    self,
                )@.skip(8),
                Err(e) => old(self)@.len() < 8 && e == ProtocolError::ShortRead && final(self)@
                    == old(self)@,
            },
    {
        proof {
            use_type_invariant(&*self);
        }
        if self.buffer.len() - self.position < 8 {
            return Err(ProtocolError::ShortRead);
        }
        let at: usize = self.position;
        let b = &self.buffer;
        let v: u64 = (b[at] as u64) | (b[at + 1] as u64) << 8 | (b[at + 2] as u64) << 16 | (b[at
            + 3] as u64) << 24 | (b[at + 4] as u64) << 32 | (b[at + 5] as u64) << 40 | (b[at
            + 6] as u64) << 48 | (b[at + 7] as u64) << 56;
        self.position = at + 8;
        assert(self@ =~= old(self)@.skip(8));
        Ok(v)
    }

    /// Reads four bytes as a little-endian value, or fails and reads
    /// nothing if fewer are left.
    pub fn read_u32(&mut self) -> (res: Result<u32, ProtocolError>)
        ensures
            match res {
                Ok(v) => old(self)@.len() >= 4 && v == le_u32(old(self)@) && final(self)@ == old(
                    self,
                )@.skip(4),
                Err(e) => old(self)@.len() < 4 && e == ProtocolError::ShortRead && final(self)@
                    == old(self)@,
            },
    {
        proof {
            use_type_invariant(&*self);
        }
        if self.buffer.len() - self.position < 4 {
            return Err(ProtocolError::ShortRead);
        }
        let at: usize = self.position;
        let b = &self.buffer;
        let v: u32 = (b[at] as u32) | (b[at + 1] as u32) << 8 | (b[at + 2] as u32) << 16 | (b[at
            + 3] as u32) << 24;
        self.position = at + 4;
        assert(self@ =~= old(self)@.skip(4));
        Ok(v)
    }

    /// Reads two bytes as a little-endian value, or fails and reads
    /// nothing if fewer are left.
    pub fn read_u16(&mut self) -> (res: Result<u16, ProtocolError>)
        ensures
            match res {
                Ok(v) => old(self)@.len() >= 2 && v == le_u16(old(self)@) && final(self)@ == old(
                    self,
                )@.skip(2),
                Err(e) => old(self)@.len() < 2 && e == ProtocolError::ShortRead && final(self)@
                    == old(self)@,
            },
    {
        proof {
            use_type_invariant(&*self);
        }
        if self.buffer.len() - self.position < 2 {
            return Err(ProtocolError::ShortRead);
        }
        let at: usize = self.position;
        let b = &self.buffer;
        let v: u16 = (b[at] as u16) | (b[at + 1] as u16) << 8;
        self.position = at + 2;
        assert(self@ =~= old(self)@.skip(2));
        Ok(v)
    }

    /// Reads one byte, or fails if none is left.
    pub fn read_u8(&mut self) -> (res: Result<u8, ProtocolError>)
        ensures
            match res {
                Ok(v) => old(self)@.len() >= 1 && v == old(self)@[0] && final(self)@ == old(
                    self,
                )@.skip(1),
                Err(e) => old(self)@.len() < 1 && e == ProtocolError::ShortRead && final(self)@
                    == old(self)@,
            },
    {
        proof {
            use_type_invariant(&*self);
        }
        if self.buffer.len() - self.position < 1 {
            return Err(ProtocolError::ShortRead);
        }
        let at: usize = self.position;
        let v: u8 = self.buffer[at];
        self.position = at + 1;
        assert(self@ =~= old(self)@.skip(1));
        Ok(v)
    }
}

/// Largest payload that a frame can carry: its length is a 16-bit count
/// that includes the two bytes of the count.
pub const MAX_PAYLOAD: usize = 65533;

/// A payload as it travels: the length of the whole frame in two bytes,
/// least significant first, then the payload.
pub open spec fn framed(payload: Seq<u8>) -> Seq<u8>
    recommends
        payload.len() <= MAX_PAYLOAD,
{
    u16_le_bytes((payload.len() + 2) as u16) + payload
}

/// Number of payload bytes that follow a frame header. A header that
/// declares less than its own two bytes announces none.
pub open spec fn announced_len(header: Seq<u8>) -> int
    recommends
        header.len() == 2,
{
    let total = le_u16(header);
    if total >= 2 {
        total - 2
    } else {
        0
    }
}

/// Number of payload bytes to read after the frame header `header`.
pub fn payload_length(header: &[u8; 2]) -> (n: usize)
    ensures
        n == announced_len(header@),
{
    let total: u16 = (header[0] as u16) | (header[1] as u16) << 8;
    if total >= 2 {
        (total - 2) as usize
    } else {
        0
    }
}

/// Frames `payload` for the wire.
pub fn frame(payload: Vec<u8>) -> (out: Vec<u8>)
    requires
        payload@.len() <= MAX_PAYLOAD,
    ensures
        out@ == framed(payload@),
{
    let total: u16 = (payload.len() + 2) as u16;
    let mut buffer = Buffer::new();
    let _ = buffer.write_uint16(total);
    let _ = buffer.write(payload);
    buffer.buffer
}

/// A byte that was written is the byte that is read, and what followed it
/// is what is left. With the laws of the wider integers this gives back, in
/// order, every field that a writer composed.
pub proof fn lemma_u8_round_trip(v: u8, rest: Seq<u8>)
    ensures
        Seq::<u8>::empty().push(v) + rest == seq![v] + rest,
        (seq![v] + rest)[0] == v,
        (seq![v] + rest).skip(1) == rest,
{
    assert(Seq::<u8>::empty().push(v) =~= seq![v]);
    assert((seq![v] + rest).skip(1) =~= rest);
}

/// A frame's header announces exactly the payload that follows it.
pub proof fn lemma_frame_round_trip(payload: Seq<u8>)
    requires
        payload.len() <= MAX_PAYLOAD,
    ensures
        framed(payload).len() == payload.len() + 2,
        announced_len(framed(payload).take(2)) == payload.len(),
        framed(payload).skip(2) == payload,
{
    let total = (payload.len() + 2) as u16;
    crate::endian::lemma_u16_round_trip(total, Seq::empty());
    assert(framed(payload).take(2) =~= u16_le_bytes(total) + Seq::empty());
    assert(framed(payload).skip(2) =~= payload);
}

} // verus!
