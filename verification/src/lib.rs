//! The SM4 block cipher: a 128-bit key, a 128-bit block.
//!
//! `tables` holds the fixed constants, `word` the operations on 32-bit
//! words, `block` the mathematical model of the key schedule and of the
//! block transform, `cipher` the executable cipher, and `inverse` the proof
//! that decryption and encryption undo each other.

pub mod block;
pub mod cipher;
pub mod inverse;
pub mod tables;
pub mod word;

pub use cipher::{Sm4, Sm4Error};
