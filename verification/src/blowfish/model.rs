//! What the cipher computes, stated over sequences of words.
//!
//! A cipher state is eighteen round keys and four substitution tables of 256
//! words. One block is two words; encryption sends them through sixteen
//! Feistel rounds, and decryption is the same network with the round keys
//! read backwards. The key schedule builds a state by encrypting a running
//! block over and over with the state it is building.

use vstd::prelude::*;
use crate::endian::{be_u32, le_u32, u32_le_bytes};
use super::fixed;

verus! {

/// Round keys and substitution tables of one cipher.
pub ghost struct CipherState {
    pub p: Seq<u32>,
    pub s0: Seq<u32>,
    pub s1: Seq<u32>,
    pub s2: Seq<u32>,
    pub s3: Seq<u32>,
}

impl CipherState {
    /// Eighteen round keys and four full tables.
    pub open spec fn wf(self) -> bool {
        &&& self.p.len() == 18
        &&& self.s0.len() == 256
        &&& self.s1.len() == 256
        &&& self.s2.len() == 256
        &&& self.s3.len() == 256
    }
}

/// Sum of two words modulo 2^32.
pub open spec fn wrapping_sum(a: u32, b: u32) -> u32 {
    ((a + b) % 0x1_0000_0000) as u32
}

/// The round function: the four bytes of `x`, most significant first, each
/// select an entry of one table; the entries are combined by add, xor, add.
pub open spec fn round_f(c: CipherState, x: u32) -> u32 {
    wrapping_sum(
        wrapping_sum(c.s0[(x >> 24) as int], c.s1[((x >> 16) & 0xff) as int]) ^ c.s2[((x >> 8)
            & 0xff) as int],
        c.s3[(x & 0xff) as int],
    )
}

/// The `i`-th round key in the order in which one pass consumes them:
/// front to back when encrypting, back to front when decrypting.
pub open spec fn round_key(c: CipherState, reverse: bool, i: int) -> u32 {
    if reverse {
        c.p[17 - i]
    } else {
        c.p[i]
    }
}

/// The two halves after `n` rounds, the half updated last in front.
pub open spec fn after_rounds(c: CipherState, reverse: bool, l: u32, r: u32, n: nat) -> (u32, u32)
    decreases n,
{
    if n == 0 {
        (l ^ round_key(c, reverse, 0), r)
    } else {
        let (a, b) = after_rounds(c, reverse, l, r, (n - 1) as nat);
        (b ^ round_f(c, a) ^ round_key(c, reverse, n as int), a)
    }
}

/// One pass through the network: sixteen rounds, then the halves change
/// places and the last round key is mixed into the new left half.
pub open spec fn feistel(c: CipherState, reverse: bool, l: u32, r: u32) -> (u32, u32) {
    let (a, b) = after_rounds(c, reverse, l, r, 16);
    (b ^ round_key(c, reverse, 17), a)
}

/// The block `(l, r)` encrypted under `c`.
pub open spec fn encrypted_words(c: CipherState, l: u32, r: u32) -> (u32, u32) {
    feistel(c, false, l, r)
}

/// The block `(l, r)` decrypted under `c`.
pub open spec fn decrypted_words(c: CipherState, l: u32, r: u32) -> (u32, u32) {
    feistel(c, true, l, r)
}

/// The two words of an eight-byte block: bytes 0 to 3 are the left half,
/// bytes 4 to 7 the right half, each least significant byte first.
pub open spec fn block_words(block: Seq<u8>) -> (u32, u32)
    recommends
        block.len() == 8,
{
    (le_u32(block.subrange(0, 4)), le_u32(block.subrange(4, 8)))
}

/// The eight bytes of a block, laid out as `block_words` reads them.
pub open spec fn words_block(w: (u32, u32)) -> Seq<u8> {
    u32_le_bytes(w.0) + u32_le_bytes(w.1)
}

/// The eight bytes `block` encrypted under `c`.
pub open spec fn encrypted_block(c: CipherState, block: Seq<u8>) -> Seq<u8>
    recommends
        block.len() == 8,
{
    let (l, r) = block_words(block);
    words_block(encrypted_words(c, l, r))
}

/// The eight bytes `block` decrypted under `c`.
pub open spec fn decrypted_block(c: CipherState, block: Seq<u8>) -> Seq<u8>
    recommends
        block.len() == 8,
{
    let (l, r) = block_words(block);
    words_block(decrypted_words(c, l, r))
}

/// The big-endian word made of the four bytes that start at `start`, where
/// positions wrap around to the beginning of `bytes`.
pub open spec fn cyclic_word(bytes: Seq<u8>, start: int) -> u32
    recommends
        bytes.len() > 0,
        start >= 0,
{
    let n = bytes.len() as int;
    be_u32(bytes[start % n], bytes[(start + 1) % n], bytes[(start + 2) % n], bytes[(start + 3) % n])
}

/// `c` with successive key words mixed into its round keys.
pub open spec fn keyed(c: CipherState, key: Seq<u8>) -> CipherState
    recommends
        key.len() > 0,
{
    CipherState { p: Seq::new(18, |i: int| c.p[i] ^ cyclic_word(key, 4 * i)), ..c }
}

/// Number of words in a state: eighteen round keys and four tables of 256.
pub open spec fn state_words() -> int {
    1042
}

/// Number of block encryptions that fill a state two words at a time.
pub open spec fn fill_steps() -> nat {
    521
}

/// Which part of the state holds word `i` in fill order: 0 for the round
/// keys, 1 to 4 for the tables.
pub open spec fn word_table(i: int) -> int {
    if i < 18 {
        0
    } else {
        (i - 18) / 256 + 1
    }
}

/// Position of word `i` inside its part of the state.
pub open spec fn word_offset(i: int) -> int {
    if i < 18 {
        i
    } else {
        (i - 18) % 256
    }
}

/// Number of words in part `t` of the state.
pub open spec fn table_len(t: int) -> int {
    if t == 0 {
        18
    } else {
        256
    }
}

/// `c` with word `i`, counted in fill order, replaced by `w`.
pub open spec fn with_word(c: CipherState, i: int, w: u32) -> CipherState
    recommends
        0 <= i < state_words(),
{
    let at = word_offset(i);
    let t = word_table(i);
    if t == 0 {
        CipherState { p: c.p.update(at, w), ..c }
    } else if t == 1 {
        CipherState { s0: c.s0.update(at, w), ..c }
    } else if t == 2 {
        CipherState { s1: c.s1.update(at, w), ..c }
    } else if t == 3 {
        CipherState { s2: c.s2.update(at, w), ..c }
    } else {
        CipherState { s3: c.s3.update(at, w), ..c }
    }
}

/// `c` with the `n`-th pair of words replaced by the halves of a block.
pub open spec fn with_pair(c: CipherState, n: int, l: u32, r: u32) -> CipherState
    recommends
        0 <= n < fill_steps(),
{
    with_word(with_word(c, 2 * n, l), 2 * n + 1, r)
}

/// A key schedule under way: the state so far and the running block.
pub ghost struct Schedule {
    pub state: CipherState,
    pub left: u32,
    pub right: u32,
}

/// The schedule after `n` block encryptions: each one encrypts the running
/// block under the state as it then stands and stores the result in the next
/// pair of words.
pub open spec fn filled(c: CipherState, n: nat) -> Schedule
    decreases n,
{
    if n == 0 {
        Schedule { state: c, left: 0, right: 0 }
    } else {
        let prev = filled(c, (n - 1) as nat);
        let (l, r) = encrypted_words(prev.state, prev.left, prev.right);
        Schedule { state: with_pair(prev.state, n - 1, l, r), left: l, right: r }
    }
}

/// As `filled`, but before each encryption the next two salt words are mixed
/// into the running block.
pub open spec fn filled_salted(c: CipherState, salt: Seq<u8>, n: nat) -> Schedule
    recommends
        salt.len() > 0,
    decreases n,
{
    if n == 0 {
        Schedule { state: c, left: 0, right: 0 }
    } else {
        let prev = filled_salted(c, salt, (n - 1) as nat);
        let (l, r) = encrypted_words(
            prev.state,
            prev.left ^ cyclic_word(salt, 8 * (n - 1)),
            prev.right ^ cyclic_word(salt, 8 * (n - 1) + 4),
        );
        Schedule { state: with_pair(prev.state, n - 1, l, r), left: l, right: r }
    }
}

/// The state every key schedule starts from.
pub open spec fn initial_state() -> CipherState {
    CipherState { p: fixed::P@, s0: fixed::S0@, s1: fixed::S1@, s2: fixed::S2@, s3: fixed::S3@ }
}

/// Key lengths that the schedule accepts.
pub open spec fn valid_key_len(len: nat) -> bool {
    1 <= len <= 56
}

/// `c` after the key schedule has run on it with `key`.
pub open spec fn expanded(c: CipherState, key: Seq<u8>) -> CipherState
    recommends
        key.len() > 0,
{
    filled(keyed(c, key), fill_steps()).state
}

/// `c` after the salted key schedule has run on it with `key` and `salt`.
pub open spec fn expanded_salted(c: CipherState, key: Seq<u8>, salt: Seq<u8>) -> CipherState
    recommends
        key.len() > 0,
        salt.len() > 0,
{
    filled_salted(keyed(c, key), salt, fill_steps()).state
}

/// The cipher state of `key`.
pub open spec fn key_state(key: Seq<u8>) -> CipherState
    recommends
        valid_key_len(key.len()),
{
    expanded(initial_state(), key)
}

/// The cipher state of `key` and `salt`; with no salt, that of `key` alone.
pub open spec fn salted_key_state(key: Seq<u8>, salt: Seq<u8>) -> CipherState
    recommends
        valid_key_len(key.len()),
{
    if salt.len() == 0 {
        key_state(key)
    } else {
        expanded_salted(initial_state(), key, salt)
    }
}

} // verus!
