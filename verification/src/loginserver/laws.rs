//! What holds of the checksum whatever the payload: a sealed payload
//! verifies, a payload that verifies is left as it is by sealing, and no
//! change to a single byte goes unnoticed. And what holds of a connection
//! whatever arrives on it.

use vstd::prelude::*;
use crate::endian::{le_u32, lemma_u32_bytes_round_trip, lemma_u32_round_trip, u32_le_bytes};
use crate::blowfish::model::CipherState;
use crate::error::ProtocolError;
use super::crypt::{
    block_aligned, checksum_matches, computed_checksum, decrypted_payload, has_checksum_slot,
    sealed, stored_checksum, word_at, xor_of_words,
};
use super::models::{opened_frame, stepped, ActionView, ClientView, EventView};

verus! {

/// The xor of the first `n` words depends on those words only.
proof fn lemma_xor_of_words_prefix(a: Seq<u8>, b: Seq<u8>, n: nat)
    requires
        4 * n <= a.len(),
        4 * n <= b.len(),
        a.take(4 * n as int) == b.take(4 * n as int),
    ensures
        xor_of_words(a, n) == xor_of_words(b, n),
    decreases n,
{
    if n > 0 {
        let m = (n - 1) as nat;
        let (lo, hi) = (4 * (n - 1), 4 * (n as int));
        assert(a.take(lo) =~= a.take(hi).take(lo));
        assert(b.take(lo) =~= b.take(hi).take(lo));
        lemma_xor_of_words_prefix(a, b, m);
        assert(a.subrange(lo, hi) =~= a.take(hi).subrange(lo, hi));
        assert(b.subrange(lo, hi) =~= b.take(hi).subrange(lo, hi));
    }
}

/// Sealing a payload makes it verify: for every payload made of whole
/// words, the sealed payload carries its own checksum.
pub proof fn lemma_sealed_matches(raw: Seq<u8>)
    requires
        has_checksum_slot(raw),
    ensures
        sealed(raw).len() == raw.len(),
        has_checksum_slot(sealed(raw)),
        checksum_matches(sealed(raw)),
{
    let body = raw.len() - 4;
    let n = (raw.len() / 4 - 1) as nat;
    let s = sealed(raw);
    let sum = computed_checksum(raw);
    assert(s.take(body) =~= raw.take(body));
    lemma_xor_of_words_prefix(s, raw, n);
    lemma_u32_round_trip(sum, Seq::empty());
    assert(s.subrange(body, body + 4) =~= u32_le_bytes(sum) + Seq::empty());
}

/// Sealing a payload that verifies changes nothing.
pub proof fn lemma_matching_is_sealed(raw: Seq<u8>)
    requires
        has_checksum_slot(raw),
        checksum_matches(raw),
    ensures
        sealed(raw) == raw,
{
    let body = raw.len() - 4;
    lemma_u32_bytes_round_trip(raw.subrange(body, body + 4));
    assert(sealed(raw) =~= raw);
}

/// The mark that a change `d` to byte `k` of a word leaves on the word.
spec fn byte_mark(d: u8, k: int) -> u32 {
    if k == 0 {
        d as u32
    } else if k == 1 {
        (d as u32) << 8
    } else if k == 2 {
        (d as u32) << 16
    } else {
        (d as u32) << 24
    }
}

/// Changing one byte of a word changes the word by the mark of the change,
/// and a change that is one leaves a mark.
proof fn lemma_word_change(w: Seq<u8>, k: int, b: u8)
    requires
        w.len() == 4,
        0 <= k < 4,
    ensures
        le_u32(w.update(k, b)) == le_u32(w) ^ byte_mark(w[k] ^ b, k),
        b != w[k] ==> byte_mark(w[k] ^ b, k) != 0,
{
    let (b0, b1, b2, b3) = (w[0], w[1], w[2], w[3]);
    assert((b as u32) | (b1 as u32) << 8 | (b2 as u32) << 16 | (b3 as u32) << 24 == ((b0 as u32) | (
    b1 as u32) << 8 | (b2 as u32) << 16 | (b3 as u32) << 24) ^ ((b0 ^ b) as u32)) by (bit_vector);
    assert((b0 as u32) | (b as u32) << 8 | (b2 as u32) << 16 | (b3 as u32) << 24 == ((b0 as u32) | (
    b1 as u32) << 8 | (b2 as u32) << 16 | (b3 as u32) << 24) ^ (((b1 ^ b) as u32) << 8))
        by (bit_vector);
    assert((b0 as u32) | (b1 as u32) << 8 | (b as u32) << 16 | (b3 as u32) << 24 == ((b0 as u32) | (
    b1 as u32) << 8 | (b2 as u32) << 16 | (b3 as u32) << 24) ^ (((b2 ^ b) as u32) << 16))
        by (bit_vector);
    assert((b0 as u32) | (b1 as u32) << 8 | (b2 as u32) << 16 | (b as u32) << 24 == ((b0 as u32) | (
    b1 as u32) << 8 | (b2 as u32) << 16 | (b3 as u32) << 24) ^ (((b3 ^ b) as u32) << 24))
        by (bit_vector);
    let a = w[k];
    assert(b != a ==> ((a ^ b) as u32) != 0 && ((a ^ b) as u32) << 8 != 0 && ((a ^ b) as u32) << 16
        != 0 && ((a ^ b) as u32) << 24 != 0) by (bit_vector);
}

/// A mark on one of the words xored together shows in the xor.
proof fn lemma_xor_marked(a: u32, w: u32, mark: u32)
    ensures
        a ^ (w ^ mark) == (a ^ w) ^ mark,
        (a ^ mark) ^ w == (a ^ w) ^ mark,
        mark != 0 ==> a ^ mark != a,
{
    assert(a ^ (w ^ mark) == (a ^ w) ^ mark) by (bit_vector);
    assert((a ^ mark) ^ w == (a ^ w) ^ mark) by (bit_vector);
    assert(mark != 0 ==> a ^ mark != a) by (bit_vector);
}

/// Changing byte `i` changes the word it lies in by the mark of the change
/// and leaves every other word as it was.
proof fn lemma_word_at_changed(raw: Seq<u8>, i: int, b: u8, j: int)
    requires
        0 <= i < raw.len(),
        0 <= j,
        4 * j + 4 <= raw.len(),
    ensures
        word_at(raw.update(i, b), 4 * j) == if j == i / 4 {
            word_at(raw, 4 * j) ^ byte_mark(raw[i] ^ b, i % 4)
        } else {
            word_at(raw, 4 * j)
        },
{
    let changed = raw.update(i, b);
    let w = raw.subrange(4 * j, 4 * j + 4);
    if j == i / 4 {
        assert(changed.subrange(4 * j, 4 * j + 4) =~= w.update(i % 4, b));
        lemma_word_change(w, i % 4, b);
    } else {
        assert(changed.subrange(4 * j, 4 * j + 4) =~= w);
    }
}

/// Changing byte `i` changes the xor of the first `n` words by the mark of
/// the change if the byte lies in one of them, and not at all otherwise.
proof fn lemma_xor_of_words_changed(raw: Seq<u8>, i: int, b: u8, n: nat)
    requires
        0 <= i < raw.len(),
        4 * n <= raw.len(),
    ensures
        xor_of_words(raw.update(i, b), n) == if i < 4 * n {
            xor_of_words(raw, n) ^ byte_mark(raw[i] ^ b, i % 4)
        } else {
            xor_of_words(raw, n)
        },
    decreases n,
{
    if n > 0 {
        let m = (n - 1) as nat;
        lemma_xor_of_words_changed(raw, i, b, m);
        lemma_word_at_changed(raw, i, b, m as int);
        lemma_xor_marked(
            xor_of_words(raw, m),
            word_at(raw, 4 * (n - 1)),
            byte_mark(raw[i] ^ b, i % 4),
        );
    }
}

/// No change to a single byte of a payload that verifies goes unnoticed,
/// wherever the byte lies.
pub proof fn lemma_changed_byte_detected(raw: Seq<u8>, i: int, b: u8)
    requires
        has_checksum_slot(raw),
        checksum_matches(raw),
        0 <= i < raw.len(),
        b != raw[i],
    ensures
        has_checksum_slot(raw.update(i, b)),
        !checksum_matches(raw.update(i, b)),
{
    let n = (raw.len() / 4 - 1) as nat;
    let mark = byte_mark(raw[i] ^ b, i % 4);
    lemma_xor_of_words_changed(raw, i, b, n);
    lemma_word_at_changed(raw, i, b, n as int);
    lemma_word_change(raw.subrange(4 * (i / 4), 4 * (i / 4) + 4), i % 4, b);
    lemma_xor_marked(computed_checksum(raw), 0, mark);
    lemma_xor_marked(stored_checksum(raw), 0, mark);
}

/// Flipping any single bit of a payload that verifies makes it fail,
/// wherever the bit lies.
pub proof fn lemma_flipped_bit_detected(raw: Seq<u8>, i: int, bit: u8)
    requires
        has_checksum_slot(raw),
        checksum_matches(raw),
        0 <= i < raw.len(),
        bit < 8,
    ensures
        !checksum_matches(raw.update(i, raw[i] ^ (1u8 << bit))),
{
    let a = raw[i];
    assert(bit < 8 ==> a ^ (1u8 << bit) != a) by (bit_vector);
    lemma_changed_byte_detected(raw, i, a ^ (1u8 << bit));
}

/// A payload that is not a positive number of whole blocks is rejected for
/// its alignment, whatever it holds and whatever the cipher.
pub proof fn lemma_misaligned_rejected(c: CipherState, payload: Seq<u8>)
    requires
        payload.len() == 0 || payload.len() % 8 != 0,
    ensures
        opened_frame(c, payload) == Err::<(u8, Seq<u8>), ProtocolError>(
            ProtocolError::InvalidBlockAlignment,
        ),
{
}

/// A frame that is rejected for its alignment is dropped: the connection
/// stays as it was and goes on.
pub proof fn lemma_misaligned_frame_dropped(client: ClientView, payload: Seq<u8>)
    requires
        client.state.is_live(),
        !block_aligned(payload.len()),
    ensures
        stepped(client, EventView::Frame(payload)) == (
            client,
            ActionView::Discard(ProtocolError::InvalidBlockAlignment),
        ),
{
}

/// A frame whose checksum does not match closes the connection.
pub proof fn lemma_bad_checksum_closes(client: ClientView, payload: Seq<u8>)
    requires
        client.state.is_live(),
        block_aligned(payload.len()),
        !checksum_matches(decrypted_payload(client.cipher, payload)),
    ensures
        stepped(client, EventView::Frame(payload)).0.state is Closed,
        stepped(client, EventView::Frame(payload)).1 == ActionView::Terminate(
            ProtocolError::ChecksumMismatch,
        ),
{
}

/// Nothing moves a connection that was rejected or closed.
pub proof fn lemma_final_states_stay(client: ClientView, event: EventView)
    requires
        !client.state.is_live(),
    ensures
        stepped(client, event) == (client, ActionView::Hangup),
{
}

/// No event changes the session id or the cipher of a connection.
pub proof fn lemma_identity_kept(client: ClientView, event: EventView)
    ensures
        stepped(client, event).0.session_id == client.session_id,
        stepped(client, event).0.cipher == client.cipher,
{
}

/// A connection that holds an account exactly when it is established
/// still does so after any event.
pub proof fn lemma_account_iff_established(client: ClientView, event: EventView)
    requires
        client.account is Some <==> client.state is Established,
    ensures
        stepped(client, event).0.account is Some <==> stepped(client, event).0.state is Established,
{
}

} // verus!
