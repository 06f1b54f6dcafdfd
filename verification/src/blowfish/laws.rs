//! What holds of the cipher whatever the key: decryption undoes encryption,
//! an empty salt changes nothing, and the key schedule stays inside the
//! tables it fills.

use vstd::prelude::*;
use crate::endian::{lemma_u32_bytes_round_trip, lemma_u32_round_trip, u32_le_bytes};
use super::model::{
    after_rounds, block_words, decrypted_block, decrypted_words, encrypted_block, encrypted_words,
    feistel, fill_steps, filled, filled_salted, key_state, round_f, round_key, salted_key_state,
    table_len, with_pair, with_word, word_offset, word_table, words_block, CipherState,
};

verus! {

/// Mixing the same two words into a word twice leaves it as it was.
proof fn lemma_mix_twice(y: u32, f: u32, k: u32)
    ensures
        (y ^ f ^ k) ^ f ^ k == y,
        (y ^ k) ^ k == y,
{
    assert((y ^ f ^ k) ^ f ^ k == y) by (bit_vector);
    assert((y ^ k) ^ k == y) by (bit_vector);
}

/// Run backwards on the output of a pass, the network retraces the pass:
/// after `n` rounds it holds what the pass held `n` rounds before its end,
/// with the halves exchanged.
proof fn lemma_rounds_retrace(c: CipherState, reverse: bool, l: u32, r: u32, n: nat)
    requires
        n <= 16,
    ensures
        ({
            let out = feistel(c, reverse, l, r);
            let back = after_rounds(c, !reverse, out.0, out.1, n);
            let forth = after_rounds(c, reverse, l, r, (16 - n) as nat);
            back == (forth.1, forth.0)
        }),
    decreases n,
{
    let out = feistel(c, reverse, l, r);
    if n == 0 {
        let last = after_rounds(c, reverse, l, r, 16);
        lemma_mix_twice(last.1, 0, round_key(c, reverse, 17));
    } else {
        lemma_rounds_retrace(c, reverse, l, r, (n - 1) as nat);
        let before = after_rounds(c, reverse, l, r, (16 - n) as nat);
        assert(after_rounds(c, reverse, l, r, (17 - n) as nat) == (
            before.1 ^ round_f(c, before.0) ^ round_key(c, reverse, 17 - n),
            before.0,
        ));
        lemma_mix_twice(before.1, round_f(c, before.0), round_key(c, reverse, 17 - n));
    }
}

/// A pass with the round keys in one order undoes a pass with them in the other.
proof fn lemma_feistel_inverse(c: CipherState, reverse: bool, l: u32, r: u32)
    ensures
        ({
            let out = feistel(c, reverse, l, r);
            feistel(c, !reverse, out.0, out.1) == (l, r)
        }),
{
    lemma_rounds_retrace(c, reverse, l, r, 16);
    lemma_mix_twice(l, 0, round_key(c, reverse, 0));
}

/// Decrypting an encrypted block of words gives the block back.
pub proof fn lemma_decrypt_encrypt_words(c: CipherState, l: u32, r: u32)
    ensures
        ({
            let e = encrypted_words(c, l, r);
            decrypted_words(c, e.0, e.1) == (l, r)
        }),
{
    lemma_feistel_inverse(c, false, l, r);
}

/// Encrypting a decrypted block of words gives the block back.
pub proof fn lemma_encrypt_decrypt_words(c: CipherState, l: u32, r: u32)
    ensures
        ({
            let d = decrypted_words(c, l, r);
            encrypted_words(c, d.0, d.1) == (l, r)
        }),
{
    lemma_feistel_inverse(c, true, l, r);
}

/// Reading the words of a block just laid out gives the words back.
proof fn lemma_block_of_words(w: (u32, u32))
    ensures
        words_block(w).len() == 8,
        block_words(words_block(w)) == w,
{
    let block = words_block(w);
    lemma_u32_round_trip(w.0, Seq::empty());
    lemma_u32_round_trip(w.1, Seq::empty());
    assert(block.subrange(0, 4) =~= u32_le_bytes(w.0) + Seq::empty());
    assert(block.subrange(4, 8) =~= u32_le_bytes(w.1) + Seq::empty());
}

/// Laying out the words of a block gives the block back.
proof fn lemma_words_of_block(block: Seq<u8>)
    requires
        block.len() == 8,
    ensures
        words_block(block_words(block)) == block,
{
    lemma_u32_bytes_round_trip(block.subrange(0, 4));
    lemma_u32_bytes_round_trip(block.subrange(4, 8));
    assert(words_block(block_words(block)) =~= block);
}

/// For every cipher state, and so for the state of every key, decrypting
/// the encryption of an eight-byte block gives the block back.
pub proof fn lemma_decrypt_encrypt(c: CipherState, block: Seq<u8>)
    requires
        block.len() == 8,
    ensures
        encrypted_block(c, block).len() == 8,
        decrypted_block(c, encrypted_block(c, block)) == block,
{
    let (l, r) = block_words(block);
    lemma_block_of_words(encrypted_words(c, l, r));
    lemma_decrypt_encrypt_words(c, l, r);
    lemma_words_of_block(block);
}

/// For every cipher state, and so for the state of every key, encrypting
/// the decryption of an eight-byte block gives the block back.
pub proof fn lemma_encrypt_decrypt(c: CipherState, block: Seq<u8>)
    requires
        block.len() == 8,
    ensures
        decrypted_block(c, block).len() == 8,
        encrypted_block(c, decrypted_block(c, block)) == block,
{
    let (l, r) = block_words(block);
    lemma_block_of_words(decrypted_words(c, l, r));
    lemma_encrypt_decrypt_words(c, l, r);
    lemma_words_of_block(block);
}

/// A key with an empty salt has the cipher state of the key alone.
pub proof fn lemma_empty_salt(key: Seq<u8>)
    ensures
        salted_key_state(key, Seq::empty()) == key_state(key),
{
}

/// Each step of the key schedule writes its two words side by side into
/// one part of the state, at positions that the part has.
pub proof fn lemma_fill_in_bounds(n: int)
    requires
        0 <= n < fill_steps(),
    ensures
        0 <= word_table(2 * n) <= 4,
        word_table(2 * n + 1) == word_table(2 * n),
        0 <= word_offset(2 * n),
        word_offset(2 * n + 1) == word_offset(2 * n) + 1,
        word_offset(2 * n + 1) < table_len(word_table(2 * n)),
{
}

/// Replacing a pair of words keeps the round keys eighteen and the tables
/// 256 entries long.
pub proof fn lemma_with_pair_wf(c: CipherState, n: int, l: u32, r: u32)
    requires
        c.wf(),
        0 <= n < fill_steps(),
    ensures
        with_pair(c, n, l, r).wf(),
{
    lemma_fill_in_bounds(n);
    assert(with_word(c, 2 * n, l).wf());
}

/// The key schedule never changes the size of the round keys or of a table,
/// however far it has run.
pub proof fn lemma_filled_wf(c: CipherState, n: nat)
    requires
        c.wf(),
        n <= fill_steps(),
    ensures
        filled(c, n).state.wf(),
    decreases n,
{
    if n > 0 {
        lemma_filled_wf(c, (n - 1) as nat);
        let prev = filled(c, (n - 1) as nat);
        let (l, r) = encrypted_words(prev.state, prev.left, prev.right);
        lemma_with_pair_wf(prev.state, n - 1, l, r);
    }
}

/// The salted key schedule never changes the size of the round keys or of a
/// table, whatever the salt and however far it has run.
pub proof fn lemma_filled_salted_wf(c: CipherState, salt: Seq<u8>, n: nat)
    requires
        c.wf(),
        n <= fill_steps(),
    ensures
        filled_salted(c, salt, n).state.wf(),
    decreases n,
{
    if n > 0 {
        lemma_filled_salted_wf(c, salt, (n - 1) as nat);
        let prev = filled_salted(c, salt, (n - 1) as nat);
        lemma_with_pair_wf(prev.state, n - 1, filled_salted(c, salt, n).left, filled_salted(
            c,
            salt,
            n,
        ).right);
    }
}

} // verus!
