//! The GFNI instructions on 128-bit registers.
use crate::gf::{invert, multiply};
use crate::ir::GfniOp;
use crate::lanes::{from_bytes, to_bytes};
use crate::{gf, lanes};
use vstd::prelude::*;

verus! {

/// Whether an odd number of bits is set: 1 if so, and 0 if not.
pub open spec fn odd(x: u8) -> u8 {
    (x ^ (x >> 1) ^ (x >> 2) ^ (x >> 3) ^ (x >> 4) ^ (x >> 5) ^ (x >> 6) ^ (x >> 7)) & 1
}

/// Bit `i` of the affine map of a byte: the row of the matrix times the byte, plus the
/// constant. Row 0 is the last of the eight bytes of the matrix.
pub open spec fn affine_bit(rows: Seq<u8>, x: u8, imm: u8, i: int) -> u8 {
    odd(rows[7 - i] & x) ^ ((imm >> (i as u8)) & 1)
}

/// The affine map of a byte.
pub open spec fn affine(rows: Seq<u8>, x: u8, imm: u8) -> u8 {
    affine_bit(rows, x, imm, 0) | (affine_bit(rows, x, imm, 1) << 1) | (affine_bit(rows, x, imm, 2)
        << 2) | (affine_bit(rows, x, imm, 3) << 3) | (affine_bit(rows, x, imm, 4) << 4) | (
    affine_bit(rows, x, imm, 5) << 5) | (affine_bit(rows, x, imm, 6) << 6) | (affine_bit(
        rows,
        x,
        imm,
        7,
    ) << 7)
}

/// The eight bytes of the half of a register in which byte `i` lies.
pub open spec fn half_of(b: Seq<u8>, i: int) -> Seq<u8> {
    b.subrange(i / 8 * 8, i / 8 * 8 + 8)
}

/// What the operation does with byte `i` of its first operand. Each half of the second
/// operand is the matrix for that half of the first.
pub open spec fn result_byte(op: GfniOp, a: Seq<u8>, b: Seq<u8>, imm: u8, i: int) -> u8 {
    match op {
        GfniOp::Mulb => gf::product(a[i], b[i]),
        GfniOp::AffineQb => affine(half_of(b, i), a[i], imm),
        GfniOp::AffineInvQb => affine(half_of(b, i), gf::inverse(a[i]), imm),
    }
}

/// The operation on all bytes.
pub open spec fn result(op: GfniOp, a: Seq<u8>, b: Seq<u8>, imm: u8) -> Seq<u8> {
    Seq::new(16, |i: int| result_byte(op, a, b, imm, i))
}

/// The parity of the set bits.
fn parity(x: u8) -> (r: u8)
    ensures
        r == odd(x),
{
    (x ^ (x >> 1) ^ (x >> 2) ^ (x >> 3) ^ (x >> 4) ^ (x >> 5) ^ (x >> 6) ^ (x >> 7)) & 1
}

/// The affine map of a byte, by the matrix whose eight bytes start at `at`.
fn affine_byte(b: &[u8; 16], at: usize, x: u8, imm: u8) -> (r: u8)
    requires
        at <= 8,
    ensures
        r == affine(b@.subrange(at as int, at + 8), x, imm),
{
    let b0: u8 = parity(b[at + 7] & x) ^ ((imm >> 0u8) & 1);
    let b1: u8 = parity(b[at + 6] & x) ^ ((imm >> 1u8) & 1);
    let b2: u8 = parity(b[at + 5] & x) ^ ((imm >> 2u8) & 1);
    let b3: u8 = parity(b[at + 4] & x) ^ ((imm >> 3u8) & 1);
    let b4: u8 = parity(b[at + 3] & x) ^ ((imm >> 4u8) & 1);
    let b5: u8 = parity(b[at + 2] & x) ^ ((imm >> 5u8) & 1);
    let b6: u8 = parity(b[at + 1] & x) ^ ((imm >> 6u8) & 1);
    let b7: u8 = parity(b[at] & x) ^ ((imm >> 7u8) & 1);
    b0 | (b1 << 1) | (b2 << 2) | (b3 << 3) | (b4 << 4) | (b5 << 5) | (b6 << 6) | (b7 << 7)
}

/// `gf2p8mulb`: the products of the bytes.
pub fn gf2p8mulb(a: u128, b: u128) -> (r: u128)
    ensures
        lanes::bytes(r) == result(GfniOp::Mulb, lanes::bytes(a), lanes::bytes(b), 0),
{
    let x = to_bytes(a);
    let y = to_bytes(b);
    let mut out: [u8; 16] = [0;16];
    let mut i: usize = 0;
    while i < 16
        invariant
            i <= 16,
            out@.len() == 16,
            forall|j: int| 0 <= j < i ==> #[trigger] out@[j] == gf::product(x@[j], y@[j]),
        decreases 16 - i,
    {
        out[i] = multiply(x[i], y[i]);
        i = i + 1;
    }
    assert(out@ =~= result(GfniOp::Mulb, x@, y@, 0));
    from_bytes(&out)
}

/// `gf2p8affineqb`: the affine map of each byte.
pub fn gf2p8affineqb(a: u128, b: u128, imm: u8) -> (r: u128)
    ensures
        lanes::bytes(r) == result(GfniOp::AffineQb, lanes::bytes(a), lanes::bytes(b), imm),
{
    let x = to_bytes(a);
    let y = to_bytes(b);
    let mut out: [u8; 16] = [0;16];
    let mut i: usize = 0;
    while i < 16
        invariant
            i <= 16,
            out@.len() == 16,
            forall|j: int|
                0 <= j < i ==> #[trigger] out@[j] == affine(half_of(y@, j), x@[j], imm),
        decreases 16 - i,
    {
        out[i] = affine_byte(&y, i / 8 * 8, x[i], imm);
        i = i + 1;
    }
    assert(out@ =~= result(GfniOp::AffineQb, x@, y@, imm));
    from_bytes(&out)
}

/// `gf2p8affineinvqb`: the affine map of the inverse of each byte.
pub fn gf2p8affineinvqb(a: u128, b: u128, imm: u8) -> (r: u128)
    ensures
        lanes::bytes(r) == result(GfniOp::AffineInvQb, lanes::bytes(a), lanes::bytes(b), imm),
{
    let x = to_bytes(a);
    let y = to_bytes(b);
    let mut out: [u8; 16] = [0;16];
    let mut i: usize = 0;
    while i < 16
        invariant
            i <= 16,
            out@.len() == 16,
            forall|j: int|
                0 <= j < i ==> #[trigger] out@[j] == affine(
                    half_of(y@, j),
                    gf::inverse(x@[j]),
                    imm,
                ),
        decreases 16 - i,
    {
        out[i] = affine_byte(&y, i / 8 * 8, invert(x[i]), imm);
        i = i + 1;
    }
    assert(out@ =~= result(GfniOp::AffineInvQb, x@, y@, imm));
    from_bytes(&out)
}

impl GfniOp {
    /// The operation on the contents of two registers; `imm` is the constant of the affine
    /// map, which a product ignores.
    pub fn apply(self, a: u128, b: u128, imm: u8) -> (r: u128)
        ensures
            lanes::bytes(r) == result(self, lanes::bytes(a), lanes::bytes(b), imm),
    {
        match self {
            GfniOp::Mulb => {
                assert(result(self, lanes::bytes(a), lanes::bytes(b), imm) =~= result(
                    self,
                    lanes::bytes(a),
                    lanes::bytes(b),
                    0,
                ));
                gf2p8mulb(a, b)
            },
            GfniOp::AffineQb => gf2p8affineqb(a, b, imm),
            GfniOp::AffineInvQb => gf2p8affineinvqb(a, b, imm),
        }
    }
}

// --- what the operations promise ---

/// The constant of the affine map is only added, which is exclusive or.
pub proof fn law_affine_constant_added(rows: Seq<u8>, x: u8, imm: u8)
    ensures
        affine(rows, x, imm) == affine(rows, x, 0) ^ imm,
{
    let y0 = odd(rows[7] & x);
    lemma_odd(rows[7] & x);
    let y1 = odd(rows[6] & x);
    lemma_odd(rows[6] & x);
    let y2 = odd(rows[5] & x);
    lemma_odd(rows[5] & x);
    let y3 = odd(rows[4] & x);
    lemma_odd(rows[4] & x);
    let y4 = odd(rows[3] & x);
    lemma_odd(rows[3] & x);
    let y5 = odd(rows[2] & x);
    lemma_odd(rows[2] & x);
    let y6 = odd(rows[1] & x);
    lemma_odd(rows[1] & x);
    let y7 = odd(rows[0] & x);
    lemma_odd(rows[0] & x);
    assert(((y0 ^ ((imm >> 0u8) & 1))
        | ((y1 ^ ((imm >> 1u8) & 1)) << 1)
        | ((y2 ^ ((imm >> 2u8) & 1)) << 2)
        | ((y3 ^ ((imm >> 3u8) & 1)) << 3)
        | ((y4 ^ ((imm >> 4u8) & 1)) << 4)
        | ((y5 ^ ((imm >> 5u8) & 1)) << 5)
        | ((y6 ^ ((imm >> 6u8) & 1)) << 6)
        | ((y7 ^ ((imm >> 7u8) & 1)) << 7)) == ((y0 ^ ((0u8 >> 0u8) & 1))
        | ((y1 ^ ((0u8 >> 1u8) & 1)) << 1)
        | ((y2 ^ ((0u8 >> 2u8) & 1)) << 2)
        | ((y3 ^ ((0u8 >> 3u8) & 1)) << 3)
        | ((y4 ^ ((0u8 >> 4u8) & 1)) << 4)
        | ((y5 ^ ((0u8 >> 5u8) & 1)) << 5)
        | ((y6 ^ ((0u8 >> 6u8) & 1)) << 6)
        | ((y7 ^ ((0u8 >> 7u8) & 1)) << 7)) ^ imm) by (bit_vector)
        requires
            y0 <= 1,
            y1 <= 1,
            y2 <= 1,
            y3 <= 1,
            y4 <= 1,
            y5 <= 1,
            y6 <= 1,
            y7 <= 1,
    ;
}

proof fn lemma_odd(x: u8)
    ensures
        odd(x) <= 1,
{
    assert(odd(x) <= 1) by (bit_vector);
}

/// The constant of both affine operations is only added to each byte.
pub proof fn law_constant_added(op: GfniOp, a: Seq<u8>, b: Seq<u8>, imm: u8)
    requires
        !(op is Mulb),
    ensures
        result(op, a, b, imm) == Seq::new(16, |i: int| result(op, a, b, 0)[i] ^ imm),
{
    assert forall|i: int| 0 <= i < 16 implies #[trigger] result(op, a, b, imm)[i] == result(
        op,
        a,
        b,
        0,
    )[i] ^ imm by {
        law_affine_constant_added(half_of(b, i), a[i], imm);
        law_affine_constant_added(half_of(b, i), gf::inverse(a[i]), imm);
    }
    assert(result(op, a, b, imm) =~= Seq::new(16, |i: int| result(op, a, b, 0)[i] ^ imm));
}

/// The order of the factors does not matter to a product, nor does the constant.
pub proof fn law_mulb_commutes(a: Seq<u8>, b: Seq<u8>, i: u8, j: u8)
    ensures
        result(GfniOp::Mulb, a, b, i) == result(GfniOp::Mulb, b, a, j),
{
    assert forall|k: int| 0 <= k < 16 implies #[trigger] result(GfniOp::Mulb, a, b, i)[k] == result(
        GfniOp::Mulb,
        b,
        a,
        j,
    )[k] by {
        gf::law_product_commutes(a[k], b[k]);
    }
    assert(result(GfniOp::Mulb, a, b, i) =~= result(GfniOp::Mulb, b, a, j));
}

/// A product with one in every byte changes nothing.
pub proof fn law_mulb_by_one(a: Seq<u8>, imm: u8)
    requires
        a.len() == 16,
    ensures
        result(GfniOp::Mulb, a, lanes::repeated(1), imm) == a,
{
    assert forall|i: int| 0 <= i < 16 implies gf::product(#[trigger] a[i], 1) == a[i] by {
        gf::law_product_of_one(a[i]);
    }
    assert(result(GfniOp::Mulb, a, lanes::repeated(1), imm) =~= a);
}

/// Of registers: where `r` and `r0` are what an affine operation gives with the constant
/// `imm` and with zero, and `m` holds `imm` in every byte, `r` is `r0` with `m` added.
pub proof fn law_constant_added_to_register(
    op: GfniOp,
    a: u128,
    b: u128,
    imm: u8,
    r: u128,
    r0: u128,
    m: u128,
)
    requires
        !(op is Mulb),
        lanes::bytes(r) == result(op, lanes::bytes(a), lanes::bytes(b), imm),
        lanes::bytes(r0) == result(op, lanes::bytes(a), lanes::bytes(b), 0),
        lanes::bytes(m) == lanes::repeated(imm),
    ensures
        r == r0 ^ m,
{
    law_constant_added(op, lanes::bytes(a), lanes::bytes(b), imm);
    lanes::law_bytes_of_xor(r0, m);
    assert(lanes::bytes(r) =~= lanes::bytes(r0 ^ m));
    lanes::law_bytes_determine_register(r, r0 ^ m);
}

} // verus!
