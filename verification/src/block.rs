//! The mathematical model of the cipher: the four-word state, the round
//! update, the key schedule and the two directions of the block transform.

use vstd::prelude::*;
use crate::tables::{CK, FK};
use crate::word::{byte_of_word, t_data, t_key, word_of_bytes};

verus! {

/// The four words that a round works on.
pub struct State {
    pub x0: u32,
    pub x1: u32,
    pub x2: u32,
    pub x3: u32,
}

/// Word `i` of `bytes`, read as consecutive big-endian 32-bit words.
pub open spec fn word_at(bytes: Seq<u8>, i: int) -> u32 {
    word_of_bytes(bytes[4 * i], bytes[4 * i + 1], bytes[4 * i + 2], bytes[4 * i + 3])
}

/// The state that a 16-byte string is parsed into.
pub open spec fn load(bytes: Seq<u8>) -> State {
    State {
        x0: word_at(bytes, 0),
        x1: word_at(bytes, 1),
        x2: word_at(bytes, 2),
        x3: word_at(bytes, 3),
    }
}

/// The 16 bytes of the words `w0 w1 w2 w3`, each written big-endian.
pub open spec fn bytes_of_words(w0: u32, w1: u32, w2: u32, w3: u32) -> Seq<u8> {
    Seq::new(
        16,
        |i: int|
            if i < 4 {
                byte_of_word(w0, i)
            } else if i < 8 {
                byte_of_word(w1, i - 4)
            } else if i < 12 {
                byte_of_word(w2, i - 8)
            } else {
                byte_of_word(w3, i - 12)
            },
    )
}

/// The bytes a final state is written out as: its words in reverse order.
pub open spec fn store_reversed(s: State) -> Seq<u8> {
    bytes_of_words(s.x3, s.x2, s.x1, s.x0)
}

/// One data round: each word in turn absorbs the round function of the
/// other three and one round-key word.
pub open spec fn data_round(s: State, k0: u32, k1: u32, k2: u32, k3: u32) -> State {
    let x0 = s.x0 ^ t_data(s.x1 ^ s.x2 ^ s.x3 ^ k0);
    let x1 = s.x1 ^ t_data(s.x2 ^ s.x3 ^ x0 ^ k1);
    let x2 = s.x2 ^ t_data(s.x3 ^ x0 ^ x1 ^ k2);
    let x3 = s.x3 ^ t_data(x0 ^ x1 ^ x2 ^ k3);
    State { x0, x1, x2, x3 }
}

/// One key-schedule round: the same shape as a data round, with the
/// key-schedule round function and four round constants.
pub open spec fn key_round(s: State, c0: u32, c1: u32, c2: u32, c3: u32) -> State {
    let x0 = s.x0 ^ t_key(s.x1 ^ s.x2 ^ s.x3 ^ c0);
    let x1 = s.x1 ^ t_key(s.x2 ^ s.x3 ^ x0 ^ c1);
    let x2 = s.x2 ^ t_key(s.x3 ^ x0 ^ x1 ^ c2);
    let x3 = s.x3 ^ t_key(x0 ^ x1 ^ x2 ^ c3);
    State { x0, x1, x2, x3 }
}

/// The key-schedule state after `n` rounds; round 0 is the key whitened by FK.
pub open spec fn key_state(key: Seq<u8>, n: nat) -> State
    decreases n,
{
    if n == 0 {
        State {
            x0: word_at(key, 0) ^ FK[0],
            x1: word_at(key, 1) ^ FK[1],
            x2: word_at(key, 2) ^ FK[2],
            x3: word_at(key, 3) ^ FK[3],
        }
    } else {
        let g = 4 * (n - 1);
        key_round(key_state(key, (n - 1) as nat), CK[g], CK[g + 1], CK[g + 2], CK[g + 3])
    }
}

/// Word `j` of a state.
pub open spec fn state_word(s: State, j: int) -> u32 {
    if j == 0 {
        s.x0
    } else if j == 1 {
        s.x1
    } else if j == 2 {
        s.x2
    } else {
        s.x3
    }
}

/// The 32 round-key words of a 16-byte key: group `g` (words `4g .. 4g+3`)
/// is the key-schedule state after round `g + 1`.
pub open spec fn round_keys(key: Seq<u8>) -> Seq<u32> {
    Seq::new(32, |i: int| state_word(key_state(key, (i / 4 + 1) as nat), i % 4))
}

/// The state after the first `n` rounds of encryption: round-key groups
/// `0 .. n-1` in order, the words of each group in order.
pub open spec fn encrypt_rounds(rk: Seq<u32>, s: State, n: nat) -> State
    decreases n,
{
    if n == 0 {
        s
    } else {
        let g = 4 * (n - 1);
        data_round(encrypt_rounds(rk, s, (n - 1) as nat), rk[g], rk[g + 1], rk[g + 2], rk[g + 3])
    }
}

/// The state after the first `n` rounds of decryption: round-key groups
/// `7, 6, ..` downwards, the words of each group in reverse order.
pub open spec fn decrypt_rounds(rk: Seq<u32>, s: State, n: nat) -> State
    decreases n,
{
    if n == 0 {
        s
    } else {
        let g = 4 * (8 - n);
        data_round(decrypt_rounds(rk, s, (n - 1) as nat), rk[g + 3], rk[g + 2], rk[g + 1], rk[g])
    }
}

/// The ciphertext of the 16-byte `block` under the round keys `rk`.
pub open spec fn encrypt_block(rk: Seq<u32>, block: Seq<u8>) -> Seq<u8> {
    store_reversed(encrypt_rounds(rk, load(block), 8))
}

/// The plaintext of the 16-byte `block` under the round keys `rk`.
pub open spec fn decrypt_block(rk: Seq<u32>, block: Seq<u8>) -> Seq<u8> {
    store_reversed(decrypt_rounds(rk, load(block), 8))
}

/// The ciphertext is a function of the key bytes and the block bytes and of
/// nothing else: equal bytes give equal ciphertext.
pub proof fn lemma_encrypt_deterministic(k1: Seq<u8>, k2: Seq<u8>, b1: Seq<u8>, b2: Seq<u8>)
    requires
        k1.len() == 16,
        k2.len() == 16,
        b1.len() == 16,
        b2.len() == 16,
        forall|i: int| 0 <= i < 16 ==> k1[i] == k2[i],
        forall|i: int| 0 <= i < 16 ==> b1[i] == b2[i],
    ensures
        encrypt_block(round_keys(k1), b1) == encrypt_block(round_keys(k2), b2),
{
    assert(k1 =~= k2);
    assert(b1 =~= b2);
}

} // verus!
