use sm4::tables::{sbox_lookup, CK, FK, SBOX};
use sm4::word::{
    l_prime_trans, l_rotate, l_trans, pack_be, t_prime_trans, t_trans, tau_trans, unpack_be,
};

#[test]
fn pack_puts_the_first_byte_on_top() {
    assert_eq!(pack_be(0x01, 0x23, 0x45, 0x67), 0x0123_4567);
    assert_eq!(pack_be(0xff, 0x00, 0x00, 0x00), 0xff00_0000);
    assert_eq!(pack_be(0x00, 0x00, 0x00, 0xff), 0x0000_00ff);
}

#[test]
fn unpack_gives_the_top_byte_first() {
    assert_eq!(unpack_be(0x0123_4567), [0x01, 0x23, 0x45, 0x67]);
    assert_eq!(unpack_be(0xff00_0000), [0xff, 0x00, 0x00, 0x00]);
    assert_eq!(unpack_be(0x0000_00ff), [0x00, 0x00, 0x00, 0xff]);
}

#[test]
fn pack_and_unpack_agree_with_the_standard_library() {
    for w in [0u32, 1, 0x0123_4567, 0xdead_beef, 0x8000_0000, u32::MAX] {
        assert_eq!(unpack_be(w), w.to_be_bytes());
        let b = w.to_be_bytes();
        assert_eq!(pack_be(b[0], b[1], b[2], b[3]), u32::from_be_bytes(b));
    }
}

#[test]
fn rotation_by_a_few_bits() {
    assert_eq!(l_rotate(0x8000_0001, 1), 0x0000_0003);
    assert_eq!(l_rotate(0x1234_5678, 8), 0x3456_7812);
    assert_eq!(l_rotate(0x1234_5678, 31), 0x091a_2b3c);
    assert_eq!(l_rotate(0xdead_beef, 13), 0xb7dd_fbd5);
}

#[test]
fn rotation_counts_modulo_32() {
    assert_eq!(l_rotate(0x1234_5678, 0), 0x1234_5678);
    assert_eq!(l_rotate(0x1234_5678, 32), 0x1234_5678);
    assert_eq!(l_rotate(0x1234_5678, 36), 0x2345_6781);
    assert_eq!(l_rotate(0x1234_5678, u32::MAX), 0x091a_2b3c);
}

#[test]
fn rotation_agrees_with_the_standard_library() {
    for x in [0u32, 1, 0x0123_4567, 0xdead_beef, 0x8000_0000, u32::MAX] {
        for i in 0..70 {
            assert_eq!(l_rotate(x, i), x.rotate_left(i));
        }
    }
}

#[test]
fn sbox_corners() {
    assert_eq!(sbox_lookup(0x00), 0xd6);
    assert_eq!(sbox_lookup(0x01), 0x90);
    assert_eq!(sbox_lookup(0x0f), 0x05);
    assert_eq!(sbox_lookup(0x10), 0x2b);
    assert_eq!(sbox_lookup(0xef), 0x84);
    assert_eq!(sbox_lookup(0xff), 0x48);
}

#[test]
fn sbox_is_a_permutation() {
    let mut seen = [false; 256];
    for b in 0..=255u8 {
        let s = sbox_lookup(b);
        assert_eq!(s, SBOX[b as usize]);
        assert!(!seen[s as usize]);
        seen[s as usize] = true;
    }
    assert!(seen.iter().all(|&hit| hit));
}

#[test]
fn system_parameter_and_round_constants() {
    assert_eq!(FK, [0xa3b1_bac6, 0x56aa_3350, 0x677d_9197, 0xb270_22dc]);
    assert_eq!(CK[0], 0x0007_0e15);
    assert_eq!(CK[1], 0x1c23_2a31);
    assert_eq!(CK[31], 0x646b_7279);
}

#[test]
fn round_constants_follow_the_multiples_of_seven() {
    // Byte j of constant i is (4i + j) * 7 modulo 256.
    for i in 0..32u32 {
        let mut w: u32 = 0;
        for j in 0..4u32 {
            w = (w << 8) | (((4 * i + j) * 7) % 256);
        }
        assert_eq!(CK[i as usize], w);
    }
}

#[test]
fn tau_substitutes_each_byte_in_place() {
    assert_eq!(tau_trans(0x0000_0000), 0xd6d6_d6d6);
    assert_eq!(tau_trans(0xffff_ffff), 0x4848_4848);
    assert_eq!(tau_trans(0x0123_4567), 0x90f4_73a2);
    assert_eq!(tau_trans(0xdead_beef), 0xb453_5b84);
    assert_eq!(tau_trans(0x0000_00ff), 0xd6d6_d648);
}

#[test]
fn data_linear_map() {
    assert_eq!(l_trans(0x0000_0000), 0x0000_0000);
    assert_eq!(l_trans(0xffff_ffff), 0xffff_ffff);
    assert_eq!(l_trans(0x0123_4567), 0xfa26_eb37);
    assert_eq!(l_trans(0xdead_beef), 0x0681_2d22);
    assert_eq!(l_trans(0x0000_0001), 0x0104_0405);
}

#[test]
fn key_linear_map() {
    assert_eq!(l_prime_trans(0x0000_0000), 0x0000_0000);
    assert_eq!(l_prime_trans(0xffff_ffff), 0xffff_ffff);
    assert_eq!(l_prime_trans(0x0123_4567), 0xda0f_34e1);
    assert_eq!(l_prime_trans(0xdead_beef), 0x1e9f_13e5);
    assert_eq!(l_prime_trans(0x0000_0001), 0x0080_2001);
}

#[test]
fn the_two_linear_maps_differ() {
    assert_ne!(l_trans(0x0000_0001), l_prime_trans(0x0000_0001));
}

#[test]
fn data_round_function() {
    assert_eq!(t_trans(0x0000_0000), 0x5b5b_5b5b);
    assert_eq!(t_trans(0xffff_ffff), 0x2121_2121);
    assert_eq!(t_trans(0x0123_4567), 0x6ef1_80c9);
    assert_eq!(t_trans(0xdead_beef), 0xc2d6_a551);
    for x in [0u32, 7, 0x0123_4567, u32::MAX] {
        assert_eq!(t_trans(x), l_trans(tau_trans(x)));
    }
}

#[test]
fn key_round_function() {
    assert_eq!(t_prime_trans(0x0000_0000), 0x6767_6767);
    assert_eq!(t_prime_trans(0xffff_ffff), 0x6565_6565);
    assert_eq!(t_prime_trans(0x0123_4567), 0xcfc8_5b85);
    assert_eq!(t_prime_trans(0xdead_beef), 0x1d79_e4a3);
    for x in [0u32, 7, 0x0123_4567, u32::MAX] {
        assert_eq!(t_prime_trans(x), l_prime_trans(tau_trans(x)));
    }
}

#[test]
fn first_round_of_the_standard_example() {
    // x0 ^ T(x1 ^ x2 ^ x3 ^ rk0) for the standard's plaintext and first round key.
    let x: [u32; 4] = [0x0123_4567, 0x89ab_cdef, 0xfedc_ba98, 0x7654_3210];
    let rk0: u32 = 0xf121_86f9;
    assert_eq!(x[0] ^ t_trans(x[1] ^ x[2] ^ x[3] ^ rk0), 0x27fa_d345);
}
