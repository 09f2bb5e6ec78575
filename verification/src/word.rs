//! Operations on 32-bit words: big-endian packing, rotation, the byte
//! substitution tau, the two linear maps L and L', and their composites.

use vstd::prelude::*;
use crate::tables::{sbox, sbox_lookup};

verus! {

/// The word whose big-endian bytes are `b0 b1 b2 b3` (`b0` most significant).
pub open spec fn word_of_bytes(b0: u8, b1: u8, b2: u8, b3: u8) -> u32 {
    ((b0 as u32) << 24) | ((b1 as u32) << 16) | ((b2 as u32) << 8) | (b3 as u32)
}

/// Byte `i` of `w` in big-endian order: byte 0 is the most significant.
pub open spec fn byte_of_word(w: u32, i: int) -> u8 {
    ((w >> ((24 - 8 * i) as u32)) & 0xff) as u8
}

/// Packs four bytes, most significant first, into a word.
pub fn pack_be(b0: u8, b1: u8, b2: u8, b3: u8) -> (w: u32)
    ensures
        w == word_of_bytes(b0, b1, b2, b3),
{
    ((b0 as u32) << 24) | ((b1 as u32) << 16) | ((b2 as u32) << 8) | (b3 as u32)
}

/// Splits a word into its four bytes, most significant first.
pub fn unpack_be(w: u32) -> (b: [u8; 4])
    ensures
        forall|i: int| 0 <= i < 4 ==> b[i] == byte_of_word(w, i),
{
    let b0: u8 = ((w >> 24) & 0xff) as u8;
    let b1: u8 = ((w >> 16) & 0xff) as u8;
    let b2: u8 = ((w >> 8) & 0xff) as u8;
    let b3: u8 = (w & 0xff) as u8;
    proof {
        assert(w >> 0u32 == w) by (bit_vector);
    }
    [b0, b1, b2, b3]
}

/// Circular left rotation of `x` by `i` bits, `i` taken modulo 32.
pub open spec fn rotl(x: u32, i: u32) -> u32 {
    let n = i % 32;
    if n == 0 {
        x
    } else {
        (x << n) | (x >> ((32 - n) as u32))
    }
}

/// The byte substitution: each of the four bytes of `x` goes through the
/// S-box, and keeps its place.
pub open spec fn tau(x: u32) -> u32 {
    word_of_bytes(
        sbox(byte_of_word(x, 0)),
        sbox(byte_of_word(x, 1)),
        sbox(byte_of_word(x, 2)),
        sbox(byte_of_word(x, 3)),
    )
}

/// The linear map of the data rounds.
pub open spec fn lin(b: u32) -> u32 {
    b ^ rotl(b, 2) ^ rotl(b, 10) ^ rotl(b, 18) ^ rotl(b, 24)
}

/// The linear map of the key schedule.
pub open spec fn lin_prime(b: u32) -> u32 {
    b ^ rotl(b, 13) ^ rotl(b, 23)
}

/// The round function of the data rounds: substitution, then `lin`.
pub open spec fn t_data(x: u32) -> u32 {
    lin(tau(x))
}

/// The round function of the key schedule: substitution, then `lin_prime`.
pub open spec fn t_key(x: u32) -> u32 {
    lin_prime(tau(x))
}

/// Substitutes the four bytes of `input` through the S-box.
pub fn tau_trans(input: u32) -> (r: u32)
    ensures
        r == tau(input),
{
    let octets = unpack_be(input);
    pack_be(
        sbox_lookup(octets[0]),
        sbox_lookup(octets[1]),
        sbox_lookup(octets[2]),
        sbox_lookup(octets[3]),
    )
}

/// Rotates `x` left by `i` bits; any `i` is accepted and counts modulo 32.
pub fn l_rotate(x: u32, i: u32) -> (r: u32)
    ensures
        r == rotl(x, i),
{
    let n: u32 = i % 32;
    if n == 0 {
        x
    } else {
        (x << n) | (x >> (32 - n))
    }
}

/// Applies the data-round linear map.
pub fn l_trans(b: u32) -> (r: u32)
    ensures
        r == lin(b),
{
    b ^ l_rotate(b, 2) ^ l_rotate(b, 10) ^ l_rotate(b, 18) ^ l_rotate(b, 24)
}

/// Applies the data-round function.
pub fn t_trans(input: u32) -> (r: u32)
    ensures
        r == t_data(input),
{
    l_trans(tau_trans(input))
}

/// Applies the key-schedule linear map.
pub fn l_prime_trans(b: u32) -> (r: u32)
    ensures
        r == lin_prime(b),
{
    b ^ l_rotate(b, 13) ^ l_rotate(b, 23)
}

/// Applies the key-schedule round function.
pub fn t_prime_trans(input: u32) -> (r: u32)
    ensures
        r == t_key(input),
{
    l_prime_trans(tau_trans(input))
}

/// Packing the four bytes of a word gives the word back.
pub proof fn lemma_pack_unpack(w: u32)
    ensures
        word_of_bytes(
            byte_of_word(w, 0),
            byte_of_word(w, 1),
            byte_of_word(w, 2),
            byte_of_word(w, 3),
        ) == w,
{
    assert((((w >> 24u32) & 0xff) as u8 as u32) << 24 | (((w >> 16u32) & 0xff) as u8 as u32) << 16
        | (((w >> 8u32) & 0xff) as u8 as u32) << 8 | (((w >> 0u32) & 0xff) as u8 as u32) == w)
        by (bit_vector);
}

/// Each byte of a packed word is the byte that was packed at its place.
pub proof fn lemma_unpack_pack(b0: u8, b1: u8, b2: u8, b3: u8)
    ensures
        byte_of_word(word_of_bytes(b0, b1, b2, b3), 0) == b0,
        byte_of_word(word_of_bytes(b0, b1, b2, b3), 1) == b1,
        byte_of_word(word_of_bytes(b0, b1, b2, b3), 2) == b2,
        byte_of_word(word_of_bytes(b0, b1, b2, b3), 3) == b3,
{
    let w = word_of_bytes(b0, b1, b2, b3);
    assert(w == ((b0 as u32) << 24) | ((b1 as u32) << 16) | ((b2 as u32) << 8) | (b3 as u32));
    assert(((w >> 24u32) & 0xff) as u8 == b0 && ((w >> 16u32) & 0xff) as u8 == b1 && ((w >> 8u32)
        & 0xff) as u8 == b2 && ((w >> 0u32) & 0xff) as u8 == b3) by (bit_vector)
        requires
            w == ((b0 as u32) << 24) | ((b1 as u32) << 16) | ((b2 as u32) << 8) | (b3 as u32),
    ;
}

/// Whether bit `j` of `x` is set; bit 0 is the least significant.
pub open spec fn bit(x: u32, j: u32) -> bool {
    (x >> j) & 1 == 1
}

/// Rotation by `i` moves every bit `i` places up, around the word: bit `j`
/// of `x` is bit `(j + i) mod 32` of the rotated word.
pub proof fn lemma_rotl_moves_bits(x: u32, i: u32, j: u32)
    requires
        j < 32,
    ensures
        bit(rotl(x, i), ((j + i) % 32) as u32) == bit(x, j),
{
    let n: u32 = i % 32;
    let m: u32 = (32 - n) as u32;
    let t: u32 = ((j + i) % 32) as u32;
    if n == 0 {
        assert(t == j);
    } else if j + n < 32 {
        assert(t == j + n);
        assert(((((x << n) | (x >> m)) >> t) & 1 == 1) == ((x >> j) & 1 == 1)) by (bit_vector)
            requires
                0 < n < 32,
                m == 32 - n,
                t == j + n,
                t < 32,
        ;
    } else {
        assert(t == j + n - 32);
        assert(((((x << n) | (x >> m)) >> t) & 1 == 1) == ((x >> j) & 1 == 1)) by (bit_vector)
            requires
                0 < n < 32,
                j < 32,
                m == 32 - n,
                t + 32 == j + n,
        ;
    }
}

} // verus!
