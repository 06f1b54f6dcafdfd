//! The cipher itself: a state built by the key schedule, and block
//! encryption and decryption under it.

use vstd::prelude::*;
use vstd::arithmetic::div_mod::{
    lemma_fundamental_div_mod, lemma_fundamental_div_mod_converse, lemma_mod_bound,
    lemma_small_mod,
};
use crate::endian::{read_le_u32, write_le_u32};
use crate::error::ProtocolError;
use super::fixed;
use super::model::{
    after_rounds, cyclic_word, decrypted_block, decrypted_words, encrypted_block, encrypted_words,
    expanded, expanded_salted, feistel, fill_steps, filled, filled_salted, initial_state, key_state,
    keyed, round_f, salted_key_state, valid_key_len, with_pair, CipherState, Schedule,
};

verus! {

/// Size in bytes of the blocks the cipher works on.
pub const BLOCK_SIZE: usize = 8;

/// A keyed cipher: the round keys and substitution tables that a key
/// schedule has left. Encrypting and decrypting only read them.
#[derive(Clone, Debug, PartialEq, Eq)]
pub struct Cipher {
    p: [u32; 18],
    s0: [u32; 256],
    s1: [u32; 256],
    s2: [u32; 256],
    s3: [u32; 256],
}

impl View for Cipher {
    type V = CipherState;

    closed spec fn view(&self) -> CipherState {
        CipherState { p: self.p@, s0: self.s0@, s1: self.s1@, s2: self.s2@, s3: self.s3@ }
    }
}

impl Cipher {
    /// Every cipher holds eighteen round keys and four full tables.
    pub proof fn lemma_wf(&self)
        ensures
            self@.wf(),
    {
    }
}

/// The round function applied to `x`.
fn round_function(c: &Cipher, x: u32) -> (y: u32)
    ensures
        y == round_f(c@, x),
{
    assert((x >> 24) < 256 && ((x >> 16) & 0xff) < 256 && ((x >> 8) & 0xff) < 256 && (x & 0xff)
        < 256) by (bit_vector);
    let a: u32 = c.s0[(x >> 24) as usize];
    let b: u32 = c.s1[((x >> 16) & 0xff) as usize];
    let d: u32 = c.s2[((x >> 8) & 0xff) as usize];
    let e: u32 = c.s3[(x & 0xff) as usize];
    (a.wrapping_add(b) ^ d).wrapping_add(e)
}

/// One pass through the network, with the round keys read front to back,
/// or back to front if `reverse`.
fn feistel_network(l: u32, r: u32, c: &Cipher, reverse: bool) -> (out: (u32, u32))
    ensures
        out == feistel(c@, reverse, l, r),
{
    let mut a: u32 = l ^ (if reverse { c.p[17] } else { c.p[0] });
    let mut b: u32 = r;
    let mut i: usize = 1;
    while i <= 16
        invariant
            1 <= i <= 17,
            (a, b) == after_rounds(c@, reverse, l, r, (i - 1) as nat),
        decreases 17 - i,
    {
        let k: u32 = if reverse { c.p[17 - i] } else { c.p[i] };
        let t: u32 = b ^ round_function(c, a) ^ k;
        b = a;
        a = t;
        i += 1;
    }
    (b ^ (if reverse { c.p[0] } else { c.p[17] }), a)
}

/// Encrypts the block `(l, r)` under `c`.
pub fn encrypt_block(l: u32, r: u32, c: &Cipher) -> (out: (u32, u32))
    ensures
        out == encrypted_words(c@, l, r),
{
    feistel_network(l, r, c, false)
}

/// Decrypts the block `(l, r)` under `c`.
pub fn decrypt_block(l: u32, r: u32, c: &Cipher) -> (out: (u32, u32))
    ensures
        out == decrypted_words(c@, l, r),
{
    feistel_network(l, r, c, true)
}

/// Stepping a position that wraps at `m` keeps it equal to the count of
/// steps taken, modulo `m`.
proof fn lemma_step_wraps(j: int, x: int, m: int)
    requires
        m > 0,
        x >= 0,
        j == x % m,
    ensures
        (if j + 1 >= m { 0 } else { j + 1 }) == (x + 1) % m,
{
    lemma_fundamental_div_mod(x, m);
    lemma_mod_bound(x, m);
    let q = x / m;
    if j + 1 >= m {
        assert(x + 1 == (q + 1) * m + 0) by (nonlinear_arith)
            requires
                x == m * q + j,
                j + 1 == m,
        ;
        lemma_fundamental_div_mod_converse(x + 1, m, q + 1, 0);
    } else {
        assert(x + 1 == q * m + (j + 1)) by (nonlinear_arith)
            requires
                x == m * q + j,
        ;
        lemma_fundamental_div_mod_converse(x + 1, m, q, j + 1);
    }
}

/// A word drawn at a wrapped position is the word drawn at the position.
proof fn lemma_cyclic_word_wraps(bytes: Seq<u8>, start: int)
    requires
        bytes.len() > 0,
        start >= 0,
    ensures
        cyclic_word(bytes, start % (bytes.len() as int)) == cyclic_word(bytes, start),
{
    let n = bytes.len() as int;
    let j = start % n;
    lemma_mod_bound(start, n);
    lemma_small_mod(j as nat, n as nat);
    lemma_step_wraps(j, start, n);
    lemma_step_wraps(j, j, n);
    lemma_step_wraps((start + 1) % n, start + 1, n);
    lemma_step_wraps((j + 1) % n, j + 1, n);
    lemma_step_wraps((start + 2) % n, start + 2, n);
    lemma_step_wraps((j + 2) % n, j + 2, n);
}

/// Draws the next big-endian word from `b`, starting at `*pos` and wrapping
/// to the beginning when the bytes run out, and moves `*pos` past it.
pub fn get_next_word(b: &[u8], pos: &mut usize) -> (w: u32)
    requires
        *old(pos) < b@.len(),
    ensures
        w == cyclic_word(b@, *old(pos) as int),
        *final(pos) == (*old(pos) + 4) % (b@.len() as int),
{
    let len: usize = b.len();
    let ghost start = *pos as int;
    let mut j: usize = *pos;
    proof {
        lemma_small_mod(start as nat, len as nat);
    }
    let b0: u8 = b[j];
    j = if j + 1 >= len { 0 } else { j + 1 };
    proof {
        lemma_step_wraps(start, start, len as int);
    }
    let b1: u8 = b[j];
    proof {
        lemma_step_wraps(j as int, start + 1, len as int);
    }
    j = if j + 1 >= len { 0 } else { j + 1 };
    let b2: u8 = b[j];
    proof {
        lemma_step_wraps(j as int, start + 2, len as int);
    }
    j = if j + 1 >= len { 0 } else { j + 1 };
    let b3: u8 = b[j];
    proof {
        lemma_step_wraps(j as int, start + 3, len as int);
    }
    j = if j + 1 >= len { 0 } else { j + 1 };
    *pos = j;
    (b0 as u32) << 24 | (b1 as u32) << 16 | (b2 as u32) << 8 | (b3 as u32)
}

/// Resets `c` to the state every key schedule starts from.
pub fn init_cipher(c: &mut Cipher)
    ensures
        final(c)@ == initial_state(),
{
    c.p = fixed::P;
    c.s0 = fixed::S0;
    c.s1 = fixed::S1;
    c.s2 = fixed::S2;
    c.s3 = fixed::S3;
}

/// Mixes successive words of `key` into the round keys of `c`.
fn mix_key(c: &mut Cipher, key: &[u8])
    requires
        key@.len() > 0,
    ensures
        final(c)@ == keyed(old(c)@, key@),
{
    let ghost before = c@;
    let mut j: usize = 0;
    let mut i: usize = 0;
    proof {
        lemma_small_mod(0, key@.len());
    }
    while i < 18
        invariant
            0 <= i <= 18,
            key@.len() > 0,
            j == (4 * i) % (key@.len() as int),
            j < key@.len(),
            c@.s0 == before.s0,
            c@.s1 == before.s1,
            c@.s2 == before.s2,
            c@.s3 == before.s3,
            c@.p.len() == 18,
            before.p.len() == 18,
            forall|k: int| 0 <= k < i ==> c@.p[k] == before.p[k] ^ cyclic_word(key@, 4 * k),
            forall|k: int| i <= k < 18 ==> c@.p[k] == before.p[k],
        decreases 18 - i,
    {
        let ghost n = key@.len() as int;
        let w: u32 = get_next_word(key, &mut j);
        proof {
            lemma_cyclic_word_wraps(key@, 4 * i);
            lemma_wrapped_advance(4 * i, n);
        }
        c.p[i] = c.p[i] ^ w;
        i += 1;
    }
    assert(c@.p =~= keyed(before, key@).p);
}

/// Stores the halves of a block in the `n`-th pair of state words.
fn store_pair(c: &mut Cipher, n: usize, l: u32, r: u32)
    requires
        n < fill_steps(),
    ensures
        final(c)@ == with_pair(old(c)@, n as int, l, r),
{
    let i: usize = 2 * n;
    if i < 18 {
        c.p[i] = l;
        c.p[i + 1] = r;
    } else {
        let at: usize = (i - 18) % 256;
        let table: usize = (i - 18) / 256;
        if table == 0 {
            c.s0[at] = l;
            c.s0[at + 1] = r;
        } else if table == 1 {
            c.s1[at] = l;
            c.s1[at + 1] = r;
        } else if table == 2 {
            c.s2[at] = l;
            c.s2[at + 1] = r;
        } else {
            c.s3[at] = l;
            c.s3[at + 1] = r;
        }
    }
}

/// Runs the key schedule on `c` with `key`: the key is mixed into the round
/// keys, then every word of the state is replaced, two at a time, by
/// successive encryptions of a running block that starts at zero.
pub fn expand_key(key: &[u8], c: &mut Cipher)
    requires
        key@.len() > 0,
    ensures
        final(c)@ == expanded(old(c)@, key@),
{
    mix_key(c, key);
    let ghost start = c@;
    let mut l: u32 = 0;
    let mut r: u32 = 0;
    let mut n: usize = 0;
    while n < 521
        invariant
            0 <= n <= 521,
            (Schedule { state: c@, left: l, right: r }) == filled(start, n as nat),
        decreases 521 - n,
    {
        let (el, er) = encrypt_block(l, r, c);
        store_pair(c, n, el, er);
        l = el;
        r = er;
        n += 1;
    }
}

/// Runs the salted key schedule on `c`: as `expand_key`, but before each
/// encryption the next two words of `salt` are mixed into the running block.
pub fn expand_key_with_salt(c: &mut Cipher, key: &[u8], salt: &[u8])
    requires
        key@.len() > 0,
        salt@.len() > 0,
    ensures
        final(c)@ == expanded_salted(old(c)@, key@, salt@),
{
    mix_key(c, key);
    let ghost start = c@;
    let ghost m = salt@.len() as int;
    let mut j: usize = 0;
    let mut l: u32 = 0;
    let mut r: u32 = 0;
    let mut n: usize = 0;
    proof {
        lemma_small_mod(0, salt@.len());
    }
    while n < 521
        invariant
            0 <= n <= 521,
            m == salt@.len(),
            m > 0,
            j == (8 * n) % m,
            j < m,
            (Schedule { state: c@, left: l, right: r }) == filled_salted(start, salt@, n as nat),
        decreases 521 - n,
    {
        let wl: u32 = get_next_word(salt, &mut j);
        proof {
            lemma_cyclic_word_wraps(salt@, 8 * n);
            lemma_wrapped_advance(8 * n, m);
        }
        let wr: u32 = get_next_word(salt, &mut j);
        proof {
            lemma_cyclic_word_wraps(salt@, 8 * n + 4);
            lemma_wrapped_advance(8 * n + 4, m);
        }
        let (el, er) = encrypt_block(l ^ wl, r ^ wr, c);
        store_pair(c, n, el, er);
        l = el;
        r = er;
        n += 1;
    }
}

/// Moving a wrapped position four places on is wrapping the position moved
/// four places on.
proof fn lemma_wrapped_advance(x: int, m: int)
    requires
        m > 0,
        x >= 0,
    ensures
        (x % m + 4) % m == (x + 4) % m,
        0 <= (x + 4) % m < m,
{
    lemma_mod_bound(x, m);
    lemma_step_wraps(x % m, x, m);
    lemma_step_wraps((x + 1) % m, x + 1, m);
    lemma_step_wraps((x + 2) % m, x + 2, m);
    lemma_step_wraps((x + 3) % m, x + 3, m);
    let j = x % m;
    lemma_small_mod(j as nat, m as nat);
    lemma_step_wraps(j, j, m);
    lemma_step_wraps((j + 1) % m, j + 1, m);
    lemma_step_wraps((j + 2) % m, j + 2, m);
    lemma_step_wraps((j + 3) % m, j + 3, m);
    lemma_mod_bound(x + 4, m);
}

impl Cipher {
    /// Builds the cipher of `key`, which must be 1 to 56 bytes long.
    pub fn new(key: Vec<u8>) -> (res: Result<Cipher, ProtocolError>)
        ensures
            match res {
                Ok(c) => valid_key_len(key@.len()) && c@ == key_state(key@),
                Err(e) => !valid_key_len(key@.len()) && e == ProtocolError::InvalidKeySize,
            },
    {
        let len: usize = key.len();
        if len < 1 || len > 56 {
            return Err(ProtocolError::InvalidKeySize);
        }
        let mut result = Cipher { p: [0; 18], s0: [0; 256], s1: [0; 256], s2: [0; 256], s3: [0; 256] };
        init_cipher(&mut result);
        expand_key(key.as_slice(), &mut result);
        Ok(result)
    }

    /// Builds the cipher of `key` and `salt`. The key must be 1 to 56 bytes
    /// long; an empty salt gives the cipher of the key alone.
    pub fn new_salt(key: &[u8], salt: &[u8]) -> (res: Result<Cipher, ProtocolError>)
        ensures
            match res {
                Ok(c) => valid_key_len(key@.len()) && c@ == salted_key_state(key@, salt@),
                Err(e) => !valid_key_len(key@.len()) && e == ProtocolError::InvalidKeySize,
            },
    {
        let len: usize = key.len();
        if len < 1 || len > 56 {
            return Err(ProtocolError::InvalidKeySize);
        }
        let mut result = Cipher { p: [0; 18], s0: [0; 256], s1: [0; 256], s2: [0; 256], s3: [0; 256] };
        init_cipher(&mut result);
        if salt.len() == 0 {
            expand_key(key, &mut result);
        } else {
            expand_key_with_salt(&mut result, key, salt);
        }
        Ok(result)
    }

    /// The size in bytes of one block.
    pub fn block_size(&self) -> (n: usize)
        ensures
            n == 8,
    {
        BLOCK_SIZE
    }

    /// Encrypts the first eight bytes of `src` into the first eight bytes of
    /// `dst`; the rest of `dst` is left as it was.
    pub fn encrypt(&self, dst: &mut [u8], src: &[u8])
        requires
            src@.len() >= 8,
            old(dst)@.len() >= 8,
        ensures
            final(dst)@ == encrypted_block(self@, src@.subrange(0, 8)) + old(dst)@.subrange(
                8,
                old(dst)@.len() as int,
            ),
    {
        let l: u32 = read_le_u32(src, 0);
        let r: u32 = read_le_u32(src, 4);
        let (el, er) = encrypt_block(l, r, self);
        write_le_u32(dst, 0, el);
        write_le_u32(dst, 4, er);
        proof {
            let block = src@.subrange(0, 8);
            assert(block.subrange(0, 4) =~= src@.subrange(0, 4));
            assert(block.subrange(4, 8) =~= src@.subrange(4, 8));
            assert(dst@ =~= encrypted_block(self@, block) + old(dst)@.subrange(
                8,
                old(dst)@.len() as int,
            ));
        }
    }

    /// Decrypts the first eight bytes of `src` into the first eight bytes of
    /// `dst`; the rest of `dst` is left as it was.
    pub fn decrypt(&self, dst: &mut [u8], src: &[u8])
        requires
            src@.len() >= 8,
            old(dst)@.len() >= 8,
        ensures
            final(dst)@ == decrypted_block(self@, src@.subrange(0, 8)) + old(dst)@.subrange(
                8,
                old(dst)@.len() as int,
            ),
    {
        let l: u32 = read_le_u32(src, 0);
        let r: u32 = read_le_u32(src, 4);
        let (dl, dr) = decrypt_block(l, r, self);
        write_le_u32(dst, 0, dl);
        write_le_u32(dst, 4, dr);
        proof {
            let block = src@.subrange(0, 8);
            assert(block.subrange(0, 4) =~= src@.subrange(0, 4));
            assert(block.subrange(4, 8) =~= src@.subrange(4, 8));
            assert(dst@ =~= decrypted_block(self@, block) + old(dst)@.subrange(
                8,
                old(dst)@.len() as int,
            ));
        }
    }
}

} // verus!
