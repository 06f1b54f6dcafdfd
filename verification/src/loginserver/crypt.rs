//! Payload protection: the checksum in the last four bytes of a payload,
//! and decryption of a payload block by block.

use vstd::prelude::*;
use vstd::slice::slice_subrange;
use crate::blowfish::cipher::Cipher;
use crate::blowfish::model::{decrypted_block, key_state, valid_key_len, CipherState};
use crate::endian::{le_u32, read_le_u32, u32_le_bytes, write_le_u32};
use crate::error::ProtocolError;

verus! {

/// The little-endian word in the four bytes of `raw` that start at `i`.
pub open spec fn word_at(raw: Seq<u8>, i: int) -> u32
    recommends
        0 <= i,
        i + 4 <= raw.len(),
{
    le_u32(raw.subrange(i, i + 4))
}

/// The first `n` words of `raw`, xored together.
pub open spec fn xor_of_words(raw: Seq<u8>, n: nat) -> u32
    recommends
        4 * n <= raw.len(),
    decreases n,
{
    if n == 0 {
        0
    } else {
        xor_of_words(raw, (n - 1) as nat) ^ word_at(raw, 4 * (n - 1))
    }
}

/// Payloads that have a checksum: whole words, and at least one.
pub open spec fn has_checksum_slot(raw: Seq<u8>) -> bool {
    raw.len() >= 4 && raw.len() % 4 == 0
}

/// The checksum of a payload: all its words but the last, xored together.
pub open spec fn computed_checksum(raw: Seq<u8>) -> u32
    recommends
        has_checksum_slot(raw),
{
    xor_of_words(raw, (raw.len() / 4 - 1) as nat)
}

/// The checksum that a payload carries in its last word.
pub open spec fn stored_checksum(raw: Seq<u8>) -> u32
    recommends
        has_checksum_slot(raw),
{
    word_at(raw, raw.len() - 4)
}

/// The payload carries its own checksum.
pub open spec fn checksum_matches(raw: Seq<u8>) -> bool
    recommends
        has_checksum_slot(raw),
{
    stored_checksum(raw) == computed_checksum(raw)
}

/// The payload with its checksum written into its last word.
pub open spec fn sealed(raw: Seq<u8>) -> Seq<u8>
    recommends
        has_checksum_slot(raw),
{
    raw.take(raw.len() - 4) + u32_le_bytes(computed_checksum(raw))
}

/// Computes the checksum of `raw`, says whether the last word held it, and
/// writes it there.
pub fn checksum(raw: &mut Vec<u8>) -> (ok: bool)
    requires
        has_checksum_slot(old(raw)@),
    ensures
        ok == checksum_matches(old(raw)@),
        final(raw)@ == sealed(old(raw)@),
{
    let count: usize = raw.len() - 4;
    let mut chksum: u32 = 0;
    let mut i: usize = 0;
    while i < count
        invariant
            i <= count,
            i % 4 == 0,
            count + 4 == raw@.len(),
            count % 4 == 0,
            raw@ == old(raw)@,
            chksum == xor_of_words(raw@, (i / 4) as nat),
        decreases count - i,
    {
        let ecx: u32 = read_le_u32(raw.as_slice(), i);
        chksum = chksum ^ ecx;
        i += 4;
    }
    let stored: u32 = read_le_u32(raw.as_slice(), i);
    write_le_u32(raw.as_mut_slice(), i, chksum);
    proof {
        let before = old(raw)@;
        assert(before.subrange(0, i as int) =~= before.take(before.len() - 4));
        assert(before.subrange(i + 4, before.len() as int) =~= Seq::<u8>::empty());
        assert(raw@ =~= sealed(before));
    }
    stored == chksum
}

/// Lengths that the cipher takes: whole blocks, and at least one.
pub open spec fn block_aligned(len: nat) -> bool {
    len > 0 && len % 8 == 0
}

/// The first `n` blocks of `data`, each decrypted under `c`.
pub open spec fn decrypted_blocks(c: CipherState, data: Seq<u8>, n: nat) -> Seq<u8>
    recommends
        8 * n <= data.len(),
    decreases n,
{
    if n == 0 {
        Seq::empty()
    } else {
        decrypted_blocks(c, data, (n - 1) as nat) + decrypted_block(
            c,
            data.subrange(8 * (n - 1), 8 * (n as int)),
        )
    }
}

/// `data` decrypted under `c`, block by block.
pub open spec fn decrypted_payload(c: CipherState, data: Seq<u8>) -> Seq<u8>
    recommends
        block_aligned(data.len()),
{
    decrypted_blocks(c, data, data.len() / 8)
}

/// Decrypts `encrypted` under `cipher`, or rejects it if it is not made of
/// whole blocks.
pub fn decrypt_payload(cipher: &Cipher, encrypted: &[u8]) -> (res: Result<Vec<u8>, ProtocolError>)
    ensures
        match res {
            Ok(d) => block_aligned(encrypted@.len()) && d@ == decrypted_payload(
                cipher@,
                encrypted@,
            ),
            Err(e) => !block_aligned(encrypted@.len()) && e
                == ProtocolError::InvalidBlockAlignment,
        },
{
    let len: usize = encrypted.len();
    if len == 0 || len % 8 != 0 {
        return Err(ProtocolError::InvalidBlockAlignment);
    }
    let count: usize = len / 8;
    let mut decrypted: Vec<u8> = Vec::with_capacity(len);
    let mut i: usize = 0;
    while i < count
        invariant
            i <= count,
            count * 8 == len,
            len == encrypted@.len(),
            decrypted@ == decrypted_blocks(cipher@, encrypted@, i as nat),
        decreases count - i,
    {
        let mut block: [u8; 8] = [0; 8];
        let src = slice_subrange(encrypted, i * 8, (i + 1) * 8);
        cipher.decrypt(&mut block, src);
        proof {
            assert(src@.subrange(0, 8) =~= encrypted@.subrange(8 * i, 8 * (i + 1)));
            assert(block@ =~= decrypted_block(cipher@, src@.subrange(0, 8)));
        }
        decrypted.extend_from_slice(&block);
        i += 1;
    }
    Ok(decrypted)
}

/// Decrypts `encrypted` under the cipher of `key`. A bad key is reported
/// before a bad length.
pub fn blowfish_decrypt(encrypted: Vec<u8>, key: Vec<u8>) -> (res: Result<Vec<u8>, ProtocolError>)
    ensures
        match res {
            Ok(d) => valid_key_len(key@.len()) && block_aligned(encrypted@.len()) && d@
                == decrypted_payload(key_state(key@), encrypted@),
            Err(e) => if valid_key_len(key@.len()) {
                !block_aligned(encrypted@.len()) && e == ProtocolError::InvalidBlockAlignment
            } else {
                e == ProtocolError::InvalidKeySize
            },
        },
{
    match Cipher::new(key) {
        Ok(cipher) => decrypt_payload(&cipher, encrypted.as_slice()),
        Err(e) => Err(e),
    }
}

} // verus!
