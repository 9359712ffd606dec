//! The field with 256 elements that AES and the GFNI instructions compute in: bytes as
//! polynomials over two elements, modulo `x^8 + x^4 + x^3 + x + 1`.
use vstd::prelude::*;

verus! {

/// The element times `x`.
pub open spec fn doubled(a: u8) -> u8 {
    (a << 1) ^ (if a & 0x80 == 0 {
        0u8
    } else {
        0x1bu8
    })
}

/// The element times `x` to the power `n`.
pub open spec fn shifted(a: u8, n: u8) -> u8
    decreases n,
{
    if n == 0 {
        a
    } else {
        doubled(shifted(a, (n - 1) as u8))
    }
}

/// What coefficient `n` of the second factor adds to a product.
pub open spec fn part(a: u8, b: u8, n: u8) -> u8 {
    if (b >> n) & 1 == 0 {
        0u8
    } else {
        shifted(a, n)
    }
}

/// The product of two elements.
#[verifier::opaque]
pub open spec fn product(a: u8, b: u8) -> u8 {
    part(a, b, 0) ^ part(a, b, 1) ^ part(a, b, 2) ^ part(a, b, 3) ^ part(a, b, 4) ^ part(a, b, 5)
        ^ part(a, b, 6) ^ part(a, b, 7)
}

/// The element to the power 254, which undoes multiplication by it; zero for zero.
#[verifier::opaque]
pub open spec fn inverse(a: u8) -> u8 {
    let a2 = product(a, a);
    let a4 = product(a2, a2);
    let a8 = product(a4, a4);
    let a16 = product(a8, a8);
    let a32 = product(a16, a16);
    let a64 = product(a32, a32);
    let a128 = product(a64, a64);
    let a192 = product(a64, a128);
    let a224 = product(a32, a192);
    let a240 = product(a16, a224);
    let a248 = product(a8, a240);
    let a252 = product(a4, a248);
    product(a2, a252)
}

/// Every element but zero times its inverse is one.
#[verifier::rlimit(100)]
pub proof fn law_inverse(a: u8)
    ensures
        a != 0 ==> product(a, inverse(a)) == 1,
        inverse(0) == 0,
{
    reveal(inverse);
    lemma_zero();
    let a2 = product(a, a);
    let a4 = product(a2, a2);
    let a8 = product(a4, a4);
    let a16 = product(a8, a8);
    let a32 = product(a16, a16);
    let a64 = product(a32, a32);
    let a128 = product(a64, a64);
    let a192 = product(a64, a128);
    let a224 = product(a32, a192);
    let a240 = product(a16, a224);
    let a248 = product(a8, a240);
    let a252 = product(a4, a248);
    let a254 = product(a2, a252);
    assert(a != 0 ==> product(a, a254) == 1) by (bit_vector)
        requires
            a2 == product(a, a),
            a4 == product(a2, a2),
            a8 == product(a4, a4),
            a16 == product(a8, a8),
            a32 == product(a16, a16),
            a64 == product(a32, a32),
            a128 == product(a64, a64),
            a192 == product(a64, a128),
            a224 == product(a32, a192),
            a240 == product(a16, a224),
            a248 == product(a8, a240),
            a252 == product(a4, a248),
            a254 == product(a2, a252),
    ;
}

proof fn lemma_zero()
    ensures
        product(0, 0) == 0,
{
    assert(product(0, 0) == 0) by (bit_vector);
}

/// The order of factors does not matter.
pub proof fn law_product_commutes(a: u8, b: u8)
    ensures
        product(a, b) == product(b, a),
{
    assert(product(a, b) == product(b, a)) by (bit_vector);
}

proof fn lemma_shifted_sum(a: u8, b: u8, n: u8)
    ensures
        shifted(a ^ b, n) == shifted(a, n) ^ shifted(b, n),
    decreases n,
{
    if n > 0 {
        lemma_shifted_sum(a, b, (n - 1) as u8);
        let x = shifted(a, (n - 1) as u8);
        let y = shifted(b, (n - 1) as u8);
        assert(doubled(x ^ y) == doubled(x) ^ doubled(y)) by (bit_vector);
    }
}

proof fn lemma_part_sum(a: u8, b: u8, c: u8, n: u8)
    ensures
        part(a ^ b, c, n) == part(a, c, n) ^ part(b, c, n),
{
    lemma_shifted_sum(a, b, n);
    assert(0u8 ^ 0u8 == 0) by (bit_vector);
}

/// The product of a sum, which is exclusive or, is the sum of the products.
pub proof fn law_product_distributes(a: u8, b: u8, c: u8)
    ensures
        product(a ^ b, c) == product(a, c) ^ product(b, c),
{
    reveal(product);
    lemma_part_sum(a, b, c, 0);
    lemma_part_sum(a, b, c, 1);
    lemma_part_sum(a, b, c, 2);
    lemma_part_sum(a, b, c, 3);
    lemma_part_sum(a, b, c, 4);
    lemma_part_sum(a, b, c, 5);
    lemma_part_sum(a, b, c, 6);
    lemma_part_sum(a, b, c, 7);
    let p0 = part(a, c, 0);
    let p1 = part(a, c, 1);
    let p2 = part(a, c, 2);
    let p3 = part(a, c, 3);
    let p4 = part(a, c, 4);
    let p5 = part(a, c, 5);
    let p6 = part(a, c, 6);
    let p7 = part(a, c, 7);
    let q0 = part(b, c, 0);
    let q1 = part(b, c, 1);
    let q2 = part(b, c, 2);
    let q3 = part(b, c, 3);
    let q4 = part(b, c, 4);
    let q5 = part(b, c, 5);
    let q6 = part(b, c, 6);
    let q7 = part(b, c, 7);
    assert((p0 ^ q0) ^ (p1 ^ q1) ^ (p2 ^ q2) ^ (p3 ^ q3) ^ (p4 ^ q4) ^ (p5 ^ q5) ^ (p6 ^ q6) ^ (p7
        ^ q7) == (p0 ^ p1 ^ p2 ^ p3 ^ p4 ^ p5 ^ p6 ^ p7) ^ (q0 ^ q1 ^ q2 ^ q3 ^ q4 ^ q5 ^ q6 ^ q7))
        by (bit_vector);
}

proof fn lemma_shifted_product(a: u8, b: u8, n: u8)
    ensures
        product(shifted(a, n), b) == shifted(product(a, b), n),
    decreases n,
{
    if n > 0 {
        lemma_shifted_product(a, b, (n - 1) as u8);
        let x = shifted(a, (n - 1) as u8);
        assert(product(doubled(x), b) == doubled(product(x, b))) by (bit_vector);
    }
}

/// Nothing times anything is nothing.
pub proof fn law_product_of_zero(a: u8)
    ensures
        product(0, a) == 0,
{
    assert(product(0, a) == 0) by (bit_vector);
}

/// One times anything is that itself.
pub proof fn law_product_of_one(a: u8)
    ensures
        product(1, a) == a,
        product(a, 1) == a,
{
    assert(product(1, a) == a) by (bit_vector);
    law_product_commutes(1, a);
}

proof fn lemma_part_product(a: u8, b: u8, c: u8, n: u8)
    ensures
        product(part(b, c, n), a) == part(product(b, a), c, n),
{
    lemma_shifted_product(b, a, n);
    law_product_of_zero(a);
}

/// How factors are grouped does not matter.
pub proof fn law_product_associates(a: u8, b: u8, c: u8)
    ensures
        product(product(a, b), c) == product(a, product(b, c)),
{
    reveal(product);
    let p0 = part(b, c, 0);
    let p1 = part(b, c, 1);
    let p2 = part(b, c, 2);
    let p3 = part(b, c, 3);
    let p4 = part(b, c, 4);
    let p5 = part(b, c, 5);
    let p6 = part(b, c, 6);
    let p7 = part(b, c, 7);
    law_product_distributes(p0, p1, a);
    law_product_distributes(p0 ^ p1, p2, a);
    law_product_distributes(p0 ^ p1 ^ p2, p3, a);
    law_product_distributes(p0 ^ p1 ^ p2 ^ p3, p4, a);
    law_product_distributes(p0 ^ p1 ^ p2 ^ p3 ^ p4, p5, a);
    law_product_distributes(p0 ^ p1 ^ p2 ^ p3 ^ p4 ^ p5, p6, a);
    law_product_distributes(p0 ^ p1 ^ p2 ^ p3 ^ p4 ^ p5 ^ p6, p7, a);
    lemma_part_product(a, b, c, 0);
    lemma_part_product(a, b, c, 1);
    lemma_part_product(a, b, c, 2);
    lemma_part_product(a, b, c, 3);
    lemma_part_product(a, b, c, 4);
    lemma_part_product(a, b, c, 5);
    lemma_part_product(a, b, c, 6);
    lemma_part_product(a, b, c, 7);
    law_product_commutes(a, product(b, c));
    law_product_commutes(a, b);
}

/// No other element is the inverse.
pub proof fn law_inverse_is_unique(a: u8, b: u8)
    requires
        product(a, b) == 1,
    ensures
        b == inverse(a),
{
    law_product_of_zero(b);
    law_inverse(a);
    let i = inverse(a);
    law_product_commutes(a, i);
    law_product_associates(i, a, b);
    law_product_of_one(b);
    law_product_of_one(i);
}

/// The inverse of the inverse is the element itself.
pub proof fn law_inverse_undoes_itself(a: u8)
    ensures
        inverse(inverse(a)) == a,
{
    law_inverse(a);
    if a != 0 {
        law_product_commutes(a, inverse(a));
        law_inverse_is_unique(inverse(a), a);
    }
}

/// One byte of a column that AES mixes.
pub open spec fn mixed_byte(s0: u8, s1: u8, s2: u8, s3: u8) -> u8 {
    product(s0, 2) ^ product(s1, 3) ^ product(s2, 1) ^ product(s3, 1)
}

/// The matrix that mixes a column back is the inverse of the one that mixes it.
pub proof fn lemma_mixed_back(s0: u8, s1: u8, s2: u8, s3: u8)
    ensures
        product(mixed_byte(s0, s1, s2, s3), 14) ^ product(mixed_byte(s1, s2, s3, s0), 11)
            ^ product(mixed_byte(s2, s3, s0, s1), 13) ^ product(
            mixed_byte(s3, s0, s1, s2),
            9,
        ) == s0,
{
    let m0 = mixed_byte(s0, s1, s2, s3);
    let m1 = mixed_byte(s1, s2, s3, s0);
    let m2 = mixed_byte(s2, s3, s0, s1);
    let m3 = mixed_byte(s3, s0, s1, s2);
    assert(product(m0, 14) ^ product(m1, 11) ^ product(m2, 13) ^ product(m3, 9)
        == s0) by (bit_vector)
        requires
            m0 == product(s0, 2) ^ product(s1, 3) ^ product(s2, 1) ^ product(s3, 1),
            m1 == product(s1, 2) ^ product(s2, 3) ^ product(s3, 1) ^ product(s0, 1),
            m2 == product(s2, 2) ^ product(s3, 3) ^ product(s0, 1) ^ product(s1, 1),
            m3 == product(s3, 2) ^ product(s0, 3) ^ product(s1, 1) ^ product(s2, 1),
    ;
}

fn double(a: u8) -> (r: u8)
    ensures
        r == doubled(a),
{
    if a & 0x80 == 0 {
        assert((a << 1) ^ 0u8 == a << 1) by (bit_vector);
        a << 1
    } else {
        (a << 1) ^ 0x1b
    }
}

/// Multiplies two elements.
pub fn multiply(a: u8, b: u8) -> (r: u8)
    ensures
        r == product(a, b),
{
    let a1: u8 = double(a);
    let a2: u8 = double(a1);
    let a3: u8 = double(a2);
    let a4: u8 = double(a3);
    let a5: u8 = double(a4);
    let a6: u8 = double(a5);
    let a7: u8 = double(a6);
    proof {
        reveal(product);
        reveal_with_fuel(shifted, 8);
    }
    pick(a, b, 0) ^ pick(a1, b, 1) ^ pick(a2, b, 2) ^ pick(a3, b, 3) ^ pick(a4, b, 4) ^ pick(
        a5,
        b,
        5,
    ) ^ pick(a6, b, 6) ^ pick(a7, b, 7)
}

/// `a`, where bit `n` of `b` is set, and zero otherwise.
fn pick(a: u8, b: u8, n: u8) -> (r: u8)
    requires
        n < 8,
    ensures
        r == if (b >> n) & 1 == 0 {
            0u8
        } else {
            a
        },
{
    if (b >> n) & 1 == 0 {
        0
    } else {
        a
    }
}

/// Computes the inverse of an element; that of zero is zero.
pub fn invert(a: u8) -> (r: u8)
    ensures
        r == inverse(a),
{
    reveal(inverse);
    let a2: u8 = multiply(a, a);
    let a4: u8 = multiply(a2, a2);
    let a8: u8 = multiply(a4, a4);
    let a16: u8 = multiply(a8, a8);
    let a32: u8 = multiply(a16, a16);
    let a64: u8 = multiply(a32, a32);
    let a128: u8 = multiply(a64, a64);
    let a192: u8 = multiply(a64, a128);
    let a224: u8 = multiply(a32, a192);
    let a240: u8 = multiply(a16, a224);
    let a248: u8 = multiply(a8, a240);
    let a252: u8 = multiply(a4, a248);
    multiply(a2, a252)
}

} // verus!
