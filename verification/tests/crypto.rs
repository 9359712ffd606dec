//! AES, SHA and GFNI operations on known values.
use x86jit_core::ir::{AesOp, GfniOp, ShaOp, VpUnaryOp};

const STATE: u128 = 0x7b5b5465_73745665_63746f72_5d53475d;
const KEY: u128 = 0x48692853_68617929_5b477565_726f6e5d;

#[test]
fn aes_rounds() {
    assert_eq!(AesOp::Enc.apply(STATE, KEY), 0xa8311c2f_9fdba3c5_8b104b58_ded7e595);
    assert_eq!(AesOp::EncLast.apply(STATE, KEY), 0xc7fb881e_938c5964_177ec425_53fdc611);
    assert_eq!(AesOp::Dec.apply(STATE, KEY), 0x138ac342_faea2787_b58eb95e_b730392a);
    assert_eq!(AesOp::DecLast.apply(STATE, KEY), 0xc5a391ef_6b317f95_d410637b_72a593d0);
}

#[test]
fn aes_last_rounds_undo_each_other() {
    let there = AesOp::EncLast.apply(STATE, KEY);
    assert_eq!(AesOp::DecLast.apply(there ^ KEY, 0), STATE);
    let back = AesOp::DecLast.apply(STATE, KEY);
    assert_eq!(AesOp::EncLast.apply(back ^ KEY, 0), STATE);
}

fn words(x: u128) -> [u32; 4] {
    [x as u32, (x >> 32) as u32, (x >> 64) as u32, (x >> 96) as u32]
}

fn register(w: [u32; 4]) -> u128 {
    w[0] as u128 | (w[1] as u128) << 32 | (w[2] as u128) << 64 | (w[3] as u128) << 96
}

fn sums(a: [u32; 4], b: [u32; 4]) -> [u32; 4] {
    [
        a[0].wrapping_add(b[0]),
        a[1].wrapping_add(b[1]),
        a[2].wrapping_add(b[2]),
        a[3].wrapping_add(b[3]),
    ]
}

/// The one block of the message `abc`.
fn block() -> [u32; 16] {
    let mut b = [0u32; 16];
    b[0] = 0x61626380;
    b[15] = 24;
    b
}

const K: [u32; 64] = [
    0x428a2f98, 0x71374491, 0xb5c0fbcf, 0xe9b5dba5, 0x3956c25b, 0x59f111f1, 0x923f82a4, 0xab1c5ed5,
    0xd807aa98, 0x12835b01, 0x243185be, 0x550c7dc3, 0x72be5d74, 0x80deb1fe, 0x9bdc06a7, 0xc19bf174,
    0xe49b69c1, 0xefbe4786, 0x0fc19dc6, 0x240ca1cc, 0x2de92c6f, 0x4a7484aa, 0x5cb0a9dc, 0x76f988da,
    0x983e5152, 0xa831c66d, 0xb00327c8, 0xbf597fc7, 0xc6e00bf3, 0xd5a79147, 0x06ca6351, 0x14292967,
    0x27b70a85, 0x2e1b2138, 0x4d2c6dfc, 0x53380d13, 0x650a7354, 0x766a0abb, 0x81c2c92e, 0x92722c85,
    0xa2bfe8a1, 0xa81a664b, 0xc24b8b70, 0xc76c51a3, 0xd192e819, 0xd6990624, 0xf40e3585, 0x106aa070,
    0x19a4c116, 0x1e376c08, 0x2748774c, 0x34b0bcb5, 0x391c0cb3, 0x4ed8aa4a, 0x5b9cca4f, 0x682e6ff3,
    0x748f82ee, 0x78a5636f, 0x84c87814, 0x8cc70208, 0x90befffa, 0xa4506ceb, 0xbef9a3f7, 0xc67178f2,
];

#[test]
fn sha256_of_abc() {
    let h: [u32; 8] = [
        0x6a09e667, 0xbb67ae85, 0x3c6ef372, 0xa54ff53a, 0x510e527f, 0x9b05688c, 0x1f83d9ab,
        0x5be0cd19,
    ];
    let b = block();
    let mut w: Vec<u128> =
        (0..4).map(|i| register([b[4 * i], b[4 * i + 1], b[4 * i + 2], b[4 * i + 3]])).collect();
    for g in 4..16 {
        let (x, y) = (words(w[g - 2]), words(w[g - 1]));
        let mid = [x[1], x[2], x[3], y[0]];
        let first = ShaOp::Sha256Msg1.apply(w[g - 4], w[g - 3], 0, 0);
        w.push(ShaOp::Sha256Msg2.apply(register(sums(words(first), mid)), w[g - 1], 0, 0));
    }
    let mut abef = register([h[5], h[4], h[1], h[0]]);
    let mut cdgh = register([h[7], h[6], h[3], h[2]]);
    for g in 0..16 {
        let wk = sums(words(w[g]), [K[4 * g], K[4 * g + 1], K[4 * g + 2], K[4 * g + 3]]);
        let next = ShaOp::Sha256Rnds2.apply(cdgh, abef, register(wk), 0);
        cdgh = abef;
        abef = next;
        let next = ShaOp::Sha256Rnds2.apply(cdgh, abef, register([wk[2], wk[3], 0, 0]), 0);
        cdgh = abef;
        abef = next;
    }
    let (a, c) = (words(abef), words(cdgh));
    let out = [a[3], a[2], c[3], c[2], a[1], a[0], c[1], c[0]];
    let digest: Vec<u32> = (0..8).map(|i| out[i].wrapping_add(h[i])).collect();
    assert_eq!(
        digest,
        [
            0xba7816bf, 0x8f01cfea, 0x414140de, 0x5dae2223, 0xb00361a3, 0x96177a9c, 0xb410ff61,
            0xf20015ad
        ]
    );
}

#[test]
fn sha1_of_abc() {
    let h: [u32; 5] = [0x67452301, 0xefcdab89, 0x98badcfe, 0x10325476, 0xc3d2e1f0];
    let b = block();
    let mut w: Vec<u128> =
        (0..4).map(|i| register([b[4 * i + 3], b[4 * i + 2], b[4 * i + 1], b[4 * i]])).collect();
    for g in 4..20 {
        let first = ShaOp::Sha1Msg1.apply(w[g - 4], w[g - 3], 0, 0);
        w.push(ShaOp::Sha1Msg2.apply(first ^ w[g - 2], w[g - 1], 0, 0));
    }
    let mut abcd = register([h[3], h[2], h[1], h[0]]);
    let mut before = abcd;
    for g in 0..20 {
        let e = if g == 0 {
            register(sums(words(w[0]), [0, 0, 0, h[4]]))
        } else {
            ShaOp::Sha1NextE.apply(before, w[g], 0, 0)
        };
        before = abcd;
        abcd = ShaOp::Sha1Rnds4.apply(abcd, e, 0, (g / 5) as u8);
    }
    let last = ShaOp::Sha1NextE.apply(before, register([0, 0, 0, h[4]]), 0, 0);
    let o = words(abcd);
    let digest = [
        o[3].wrapping_add(h[0]),
        o[2].wrapping_add(h[1]),
        o[1].wrapping_add(h[2]),
        o[0].wrapping_add(h[3]),
        words(last)[3],
    ];
    assert_eq!(digest, [0xa9993e36, 0x4706816a, 0xba3e2571, 0x7850c26c, 0x9cd0d89d]);
}

#[test]
fn gfni_products() {
    let a: u128 = 0x57 | 0x02 << 8 | 0xff << 16;
    let b: u128 = 0x83 | 0x80 << 8 | 0x01 << 16;
    assert_eq!(GfniOp::Mulb.apply(a, b, 0x77), 0xc1 | 0x1b << 8 | 0xff << 16);
}

#[test]
fn gfni_affine_maps() {
    let identity: u64 = 0x0102_0408_1020_4080;
    let both = identity as u128 | (identity as u128) << 64;
    assert_eq!(GfniOp::AffineQb.apply(STATE, both, 0), STATE);
    let flipped = STATE ^ 0x63636363_63636363_63636363_63636363;
    assert_eq!(GfniOp::AffineQb.apply(STATE, both, 0x63), flipped);
    // The matrix and the constant of the AES S-box.
    let sbox: u64 = 0xf1e3_c78f_1f3e_7cf8;
    let rows = sbox as u128 | (sbox as u128) << 64;
    assert_eq!(GfniOp::AffineInvQb.apply(0x53, rows, 0x63) as u8, 0xed);
    assert_eq!(GfniOp::AffineInvQb.apply(0x00, rows, 0x63) as u8, 0x63);
    // Only the half that a byte lies in is its matrix.
    let low = identity as u128;
    assert_eq!(GfniOp::AffineQb.apply(STATE, low, 0), STATE & 0xffff_ffff_ffff_ffff);
}

#[test]
fn operation_numbers() {
    assert_eq!(AesOp::from_u8(0), AesOp::Enc);
    assert_eq!(AesOp::from_u8(2), AesOp::EncLast);
    assert_eq!(AesOp::from_u8(200), AesOp::DecLast);
    assert_eq!(ShaOp::from_u8(3), ShaOp::Sha1Rnds4);
    assert_eq!(ShaOp::from_u8(6), ShaOp::Sha1Msg2);
    assert_eq!(ShaOp::from_u8(7), ShaOp::Sha1Msg2);
    assert_eq!(GfniOp::from_u8(1), GfniOp::AffineQb);
    assert_eq!(GfniOp::from_u8(3), GfniOp::AffineInvQb);
    assert_eq!(format!("{:?}", VpUnaryOp::from_u8(0)), "Lzcnt");
    assert_eq!(format!("{:?}", VpUnaryOp::from_u8(1)), "Rol");
    assert_eq!(format!("{:?}", VpUnaryOp::from_u8(9)), "Conflict");
}

#[test]
fn gfni_product_laws() {
    let ones = u128::from_le_bytes([1; 16]);
    assert_eq!(GfniOp::Mulb.apply(STATE, KEY, 7), GfniOp::Mulb.apply(KEY, STATE, 0));
    assert_eq!(GfniOp::Mulb.apply(STATE, ones, 3), STATE);
}

#[test]
fn gfni_constant_is_only_added() {
    let all = u128::from_le_bytes([0xa5; 16]);
    for op in [GfniOp::AffineQb, GfniOp::AffineInvQb] {
        assert_eq!(op.apply(STATE, KEY, 0xa5), op.apply(STATE, KEY, 0) ^ all);
    }
}
