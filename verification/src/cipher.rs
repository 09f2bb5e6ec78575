//! The cipher instance: round keys derived once from a key, and the
//! in-place transform of single blocks.

use vstd::prelude::*;
use crate::block::{
    data_round, decrypt_block, decrypt_rounds, encrypt_block, encrypt_rounds, key_round,
    key_state, load, round_keys, state_word, store_reversed, word_at, State,
};
use crate::inverse::{lemma_decrypt_encrypt, lemma_encrypt_decrypt};
use crate::tables::{CK, FK};
use crate::word::{byte_of_word, pack_be, t_prime_trans, t_trans, unpack_be};

verus! {

/// Why a key or a block was refused.
#[derive(Debug, Clone, Copy, PartialEq, Eq, Structural)]
pub enum Sm4Error {
    /// The key is not exactly 16 bytes long.
    InvalidKeyLength,
    /// The block is not exactly 16 bytes long.
    InvalidBlockLength,
}

/// An SM4 cipher: the 32 round-key words of one key, in 8 groups of 4.
#[derive(Debug)]
pub struct Sm4 {
    rk: [[u32; 4]; 8],
}

impl Clone for Sm4 {
    /// A copy with the same round keys.
    fn clone(&self) -> (r: Self)
        ensures
            r@ == self@,
    {
        Sm4 { rk: self.rk }
    }
}

impl View for Sm4 {
    type V = Seq<u32>;

    /// The round-key words in order: word `j` of group `g` at index `4g + j`.
    closed spec fn view(&self) -> Seq<u32> {
        Seq::new(32, |i: int| self.rk[i / 4][i % 4])
    }
}

/// Reads word `i` of a byte slice as a big-endian 32-bit word.
fn read_word(bytes: &[u8], i: usize) -> (w: u32)
    requires
        4 * i + 4 <= bytes@.len(),
    ensures
        w == word_at(bytes@, i as int),
{
    assert(bytes@.len() == bytes.len());
    pack_be(bytes[4 * i], bytes[4 * i + 1], bytes[4 * i + 2], bytes[4 * i + 3])
}

/// Writes `w` big-endian over bytes `4i .. 4i+3` of a byte slice.
fn write_word(bytes: &mut [u8], i: usize, w: u32)
    requires
        4 * i + 4 <= old(bytes)@.len(),
    ensures
        final(bytes)@.len() == old(bytes)@.len(),
        forall|j: int|
            0 <= j < old(bytes)@.len() ==> final(bytes)@[j] == if 4 * i <= j < 4 * i + 4 {
                byte_of_word(w, j - 4 * i)
            } else {
                old(bytes)@[j]
            },
{
    assert(bytes@.len() == bytes.len());
    let b = unpack_be(w);
    bytes[4 * i] = b[0];
    bytes[4 * i + 1] = b[1];
    bytes[4 * i + 2] = b[2];
    bytes[4 * i + 3] = b[3];
}

/// Runs one key-schedule round on `s` with the round constants `c0 .. c3`.
fn schedule_round(s: State, c0: u32, c1: u32, c2: u32, c3: u32) -> (r: State)
    ensures
        r == key_round(s, c0, c1, c2, c3),
{
    let x0: u32 = s.x0 ^ t_prime_trans(s.x1 ^ s.x2 ^ s.x3 ^ c0);
    let x1: u32 = s.x1 ^ t_prime_trans(s.x2 ^ s.x3 ^ x0 ^ c1);
    let x2: u32 = s.x2 ^ t_prime_trans(s.x3 ^ x0 ^ x1 ^ c2);
    let x3: u32 = s.x3 ^ t_prime_trans(x0 ^ x1 ^ x2 ^ c3);
    State { x0, x1, x2, x3 }
}

/// Runs one data round on `s` with the round-key words `k0 .. k3`.
fn cipher_round(s: State, k0: u32, k1: u32, k2: u32, k3: u32) -> (r: State)
    ensures
        r == data_round(s, k0, k1, k2, k3),
{
    let x0: u32 = s.x0 ^ t_trans(s.x1 ^ s.x2 ^ s.x3 ^ k0);
    let x1: u32 = s.x1 ^ t_trans(s.x2 ^ s.x3 ^ x0 ^ k1);
    let x2: u32 = s.x2 ^ t_trans(s.x3 ^ x0 ^ x1 ^ k2);
    let x3: u32 = s.x3 ^ t_trans(x0 ^ x1 ^ x2 ^ k3);
    State { x0, x1, x2, x3 }
}

/// Parses a 16-byte slice into the four-word state.
fn read_state(bytes: &[u8]) -> (s: State)
    requires
        bytes@.len() == 16,
    ensures
        s == load(bytes@),
{
    State {
        x0: read_word(bytes, 0),
        x1: read_word(bytes, 1),
        x2: read_word(bytes, 2),
        x3: read_word(bytes, 3),
    }
}

/// Writes the words of `s`, last word first, over a 16-byte slice.
fn write_state_reversed(bytes: &mut [u8], s: State)
    requires
        old(bytes)@.len() == 16,
    ensures
        final(bytes)@ == store_reversed(s),
{
    write_word(bytes, 0, s.x3);
    write_word(bytes, 1, s.x2);
    write_word(bytes, 2, s.x1);
    write_word(bytes, 3, s.x0);
    assert(bytes@ =~= store_reversed(s));
}

impl Sm4 {
    /// Length of a key in bytes.
    pub const KEY_LEN: usize = 16;

    /// Length of a block in bytes.
    pub const BLOCK_LEN: usize = 16;

    /// Derives the round keys of `key`. Fails exactly when the key is not
    /// 16 bytes long.
    pub fn new(key: &[u8]) -> (r: Result<Sm4, Sm4Error>)
        ensures
            key@.len() == 16 ==> r is Ok && r->Ok_0@ == round_keys(key@),
            key@.len() != 16 ==> r == Err::<Sm4, Sm4Error>(Sm4Error::InvalidKeyLength),
    {
        if key.len() != Self::KEY_LEN {
            return Err(Sm4Error::InvalidKeyLength);
        }
        let mut k = State {
            x0: read_word(key, 0) ^ FK[0],
            x1: read_word(key, 1) ^ FK[1],
            x2: read_word(key, 2) ^ FK[2],
            x3: read_word(key, 3) ^ FK[3],
        };

        let mut rk: [[u32; 4]; 8] = [[0u32; 4]; 8];
        let mut i: usize = 0;
        while i < 8
            invariant
                i <= 8,
                k == key_state(key@, i as nat),
                forall|g: int, j: int|
                    0 <= g < i && 0 <= j < 4 ==> rk[g][j] == state_word(
                        key_state(key@, (g + 1) as nat),
                        j,
                    ),
            decreases 8 - i,
        {
            k = schedule_round(k, CK[i * 4], CK[i * 4 + 1], CK[i * 4 + 2], CK[i * 4 + 3]);
            rk[i] = [k.x0, k.x1, k.x2, k.x3];
            i += 1;
        }
        let cipher = Sm4 { rk };
        proof {
            assert(cipher@ =~= round_keys(key@));
        }
        Ok(cipher)
    }

    /// Where the words of round-key group `g` stand in the view.
    proof fn lemma_group(&self, g: int)
        requires
            0 <= g < 8,
        ensures
            self@[4 * g] == self.rk[g][0],
            self@[4 * g + 1] == self.rk[g][1],
            self@[4 * g + 2] == self.rk[g][2],
            self@[4 * g + 3] == self.rk[g][3],
    {
    }

    /// Every cipher holds exactly 32 round-key words.
    pub proof fn lemma_round_key_count(&self)
        ensures
            self@.len() == 32,
    {
    }

    /// Decrypting what this cipher encrypted, and encrypting what it
    /// decrypted, gives the 16-byte block back.
    pub proof fn lemma_round_trip(&self, block: Seq<u8>)
        requires
            block.len() == 16,
        ensures
            decrypt_block(self@, encrypt_block(self@, block)) == block,
            encrypt_block(self@, decrypt_block(self@, block)) == block,
    {
        lemma_decrypt_encrypt(self@, block);
        lemma_encrypt_decrypt(self@, block);
    }

    /// The round keys, group by group.
    pub fn round_keys(&self) -> (rk: [[u32; 4]; 8])
        ensures
            forall|g: int, j: int| 0 <= g < 8 && 0 <= j < 4 ==> rk[g][j] == self@[4 * g + j],
    {
        self.rk
    }

    /// Encrypts `block` in place. Fails, leaving the block as it was,
    /// exactly when it is not 16 bytes long.
    pub fn encrypt(&self, block: &mut [u8]) -> (r: Result<(), Sm4Error>)
        ensures
            old(block)@.len() == 16 ==> r is Ok && final(block)@ == encrypt_block(
                self@,
                old(block)@,
            ),
            old(block)@.len() != 16 ==> r == Err::<(), Sm4Error>(Sm4Error::InvalidBlockLength)
                && final(block)@ == old(block)@,
    {
        if block.len() != Self::BLOCK_LEN {
            return Err(Sm4Error::InvalidBlockLength);
        }
        let mut x = read_state(block);
        let mut i: usize = 0;
        while i < 8
            invariant
                i <= 8,
                x == encrypt_rounds(self@, load(old(block)@), i as nat),
            decreases 8 - i,
        {
            proof {
                self.lemma_group(i as int);
            }
            let k = &self.rk[i];
            x = cipher_round(x, k[0], k[1], k[2], k[3]);
            i += 1;
        }
        write_state_reversed(block, x);
        Ok(())
    }

    /// Decrypts `block` in place. Fails, leaving the block as it was,
    /// exactly when it is not 16 bytes long.
    pub fn decrypt(&self, block: &mut [u8]) -> (r: Result<(), Sm4Error>)
        ensures
            old(block)@.len() == 16 ==> r is Ok && final(block)@ == decrypt_block(
                self@,
                old(block)@,
            ),
            old(block)@.len() != 16 ==> r == Err::<(), Sm4Error>(Sm4Error::InvalidBlockLength)
                && final(block)@ == old(block)@,
    {
        if block.len() != Self::BLOCK_LEN {
            return Err(Sm4Error::InvalidBlockLength);
        }
        let mut x = read_state(block);
        let mut i: usize = 0;
        while i < 8
            invariant
                i <= 8,
                x == decrypt_rounds(self@, load(old(block)@), i as nat),
            decreases 8 - i,
        {
            proof {
                self.lemma_group(8 - i - 1);
            }
            let k = &self.rk[8 - i - 1];
            x = cipher_round(x, k[3], k[2], k[1], k[0]);
            i += 1;
        }
        write_state_reversed(block, x);
        Ok(())
    }
}

} // verus!
