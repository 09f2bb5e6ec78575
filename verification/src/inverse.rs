//! Decryption undoes encryption, and encryption undoes decryption, for
//! every choice of round keys.

use vstd::prelude::*;
use crate::block::{
    bytes_of_words, data_round, decrypt_block, decrypt_rounds, encrypt_block, encrypt_rounds,
    load, round_keys, word_at, State,
};
use crate::word::{lemma_pack_unpack, lemma_unpack_pack, t_data};

verus! {

/// The state with its four words in reverse order.
pub open spec fn reversed(s: State) -> State {
    State { x0: s.x3, x1: s.x2, x2: s.x1, x3: s.x0 }
}

/// XOR of three words and a key word does not depend on the order of the three.
proof fn lemma_xor_order(p: u32, q: u32, r: u32, k: u32)
    ensures
        r ^ q ^ p ^ k == p ^ q ^ r ^ k,
{
    assert(r ^ q ^ p ^ k == p ^ q ^ r ^ k) by (bit_vector);
}

/// XORing the same word in twice changes nothing.
proof fn lemma_xor_twice(a: u32, t: u32)
    ensures
        (a ^ t) ^ t == a,
{
    assert((a ^ t) ^ t == a) by (bit_vector);
}

/// A round on the reversed state, with the same four key words in reverse
/// order, undoes the round.
pub proof fn lemma_round_undone(s: State, k0: u32, k1: u32, k2: u32, k3: u32)
    ensures
        data_round(reversed(data_round(s, k0, k1, k2, k3)), k3, k2, k1, k0) == reversed(s),
{
    let x0 = s.x0 ^ t_data(s.x1 ^ s.x2 ^ s.x3 ^ k0);
    let x1 = s.x1 ^ t_data(s.x2 ^ s.x3 ^ x0 ^ k1);
    let x2 = s.x2 ^ t_data(s.x3 ^ x0 ^ x1 ^ k2);
    let x3 = s.x3 ^ t_data(x0 ^ x1 ^ x2 ^ k3);
    lemma_xor_order(x0, x1, x2, k3);
    lemma_xor_twice(s.x3, t_data(x0 ^ x1 ^ x2 ^ k3));
    lemma_xor_order(s.x3, x0, x1, k2);
    lemma_xor_twice(s.x2, t_data(s.x3 ^ x0 ^ x1 ^ k2));
    lemma_xor_order(s.x2, s.x3, x0, k1);
    lemma_xor_twice(s.x1, t_data(s.x2 ^ s.x3 ^ x0 ^ k1));
    lemma_xor_order(s.x1, s.x2, s.x3, k0);
    lemma_xor_twice(s.x0, t_data(s.x1 ^ s.x2 ^ s.x3 ^ k0));
}

/// After `n` rounds of decryption on the reversed result of the 8
/// encryption rounds, the state is the reversed result of the first
/// `8 - n` encryption rounds.
proof fn lemma_decrypt_rounds_unwind(rk: Seq<u32>, s: State, n: nat)
    requires
        n <= 8,
    ensures
        decrypt_rounds(rk, reversed(encrypt_rounds(rk, s, 8)), n) == reversed(
            encrypt_rounds(rk, s, (8 - n) as nat),
        ),
    decreases n,
{
    if n > 0 {
        lemma_decrypt_rounds_unwind(rk, s, (n - 1) as nat);
        let g = 4 * (8 - n);
        let before = encrypt_rounds(rk, s, (8 - n) as nat);
        assert(encrypt_rounds(rk, s, (8 - n + 1) as nat) == data_round(
            before,
            rk[g],
            rk[g + 1],
            rk[g + 2],
            rk[g + 3],
        ));
        lemma_round_undone(before, rk[g], rk[g + 1], rk[g + 2], rk[g + 3]);
    }
}

/// After `n` rounds of encryption on the reversed result of the 8
/// decryption rounds, the state is the reversed result of the first
/// `8 - n` decryption rounds.
proof fn lemma_encrypt_rounds_unwind(rk: Seq<u32>, s: State, n: nat)
    requires
        n <= 8,
    ensures
        encrypt_rounds(rk, reversed(decrypt_rounds(rk, s, 8)), n) == reversed(
            decrypt_rounds(rk, s, (8 - n) as nat),
        ),
    decreases n,
{
    if n > 0 {
        lemma_encrypt_rounds_unwind(rk, s, (n - 1) as nat);
        let g = 4 * (n - 1);
        let before = decrypt_rounds(rk, s, (8 - n) as nat);
        assert(decrypt_rounds(rk, s, (8 - n + 1) as nat) == data_round(
            before,
            rk[g + 3],
            rk[g + 2],
            rk[g + 1],
            rk[g],
        ));
        lemma_round_undone(before, rk[g + 3], rk[g + 2], rk[g + 1], rk[g]);
    }
}

/// Parsing the bytes that four words were written as gives the four words.
pub proof fn lemma_load_bytes_of_words(w0: u32, w1: u32, w2: u32, w3: u32)
    ensures
        load(bytes_of_words(w0, w1, w2, w3)) == (State { x0: w0, x1: w1, x2: w2, x3: w3 }),
{
    lemma_pack_unpack(w0);
    lemma_pack_unpack(w1);
    lemma_pack_unpack(w2);
    lemma_pack_unpack(w3);
}

/// Writing out the words that 16 bytes were parsed into gives the 16 bytes.
pub proof fn lemma_bytes_of_words_load(bytes: Seq<u8>)
    requires
        bytes.len() == 16,
    ensures
        bytes_of_words(word_at(bytes, 0), word_at(bytes, 1), word_at(bytes, 2), word_at(bytes, 3))
            == bytes,
{
    lemma_unpack_pack(bytes[0], bytes[1], bytes[2], bytes[3]);
    lemma_unpack_pack(bytes[4], bytes[5], bytes[6], bytes[7]);
    lemma_unpack_pack(bytes[8], bytes[9], bytes[10], bytes[11]);
    lemma_unpack_pack(bytes[12], bytes[13], bytes[14], bytes[15]);
    assert(bytes_of_words(
        word_at(bytes, 0),
        word_at(bytes, 1),
        word_at(bytes, 2),
        word_at(bytes, 3),
    ) =~= bytes);
}

/// Decrypting the ciphertext of a block, under the same 32 round keys,
/// gives the block back.
pub proof fn lemma_decrypt_encrypt(rk: Seq<u32>, block: Seq<u8>)
    requires
        rk.len() == 32,
        block.len() == 16,
    ensures
        decrypt_block(rk, encrypt_block(rk, block)) == block,
{
    let s = load(block);
    let e = encrypt_rounds(rk, s, 8);
    lemma_load_bytes_of_words(e.x3, e.x2, e.x1, e.x0);
    assert(load(encrypt_block(rk, block)) == reversed(e));
    lemma_decrypt_rounds_unwind(rk, s, 8);
    assert(decrypt_rounds(rk, reversed(e), 8) == reversed(s));
    lemma_bytes_of_words_load(block);
}

/// Encrypting the plaintext of a block, under the same 32 round keys,
/// gives the block back.
pub proof fn lemma_encrypt_decrypt(rk: Seq<u32>, block: Seq<u8>)
    requires
        rk.len() == 32,
        block.len() == 16,
    ensures
        encrypt_block(rk, decrypt_block(rk, block)) == block,
{
    let s = load(block);
    let d = decrypt_rounds(rk, s, 8);
    lemma_load_bytes_of_words(d.x3, d.x2, d.x1, d.x0);
    assert(load(decrypt_block(rk, block)) == reversed(d));
    lemma_encrypt_rounds_unwind(rk, s, 8);
    assert(encrypt_rounds(rk, reversed(d), 8) == reversed(s));
    lemma_bytes_of_words_load(block);
}

/// For every 16-byte key and 16-byte block, decryption under the key's
/// round keys inverts encryption under them, and the other way round.
pub proof fn lemma_key_round_trip(key: Seq<u8>, block: Seq<u8>)
    requires
        key.len() == 16,
        block.len() == 16,
    ensures
        decrypt_block(round_keys(key), encrypt_block(round_keys(key), block)) == block,
        encrypt_block(round_keys(key), decrypt_block(round_keys(key), block)) == block,
{
    lemma_decrypt_encrypt(round_keys(key), block);
    lemma_encrypt_decrypt(round_keys(key), block);
}

} // verus!
