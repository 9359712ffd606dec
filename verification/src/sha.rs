//! The SHA instructions on 128-bit registers. Word 3 of a register is the first of the four
//! words that it holds where an instruction speaks of the most significant first.
use crate::ir::ShaOp;
use crate::lanes;
use crate::lanes::{from_words, get_word};
use vstd::prelude::*;

verus! {

/// The four words of a register, the lowest first.
#[verifier::ext_equal]
#[derive(Copy, Clone, PartialEq, Eq, Structural, Debug)]
pub struct Words {
    pub w0: u32,
    pub w1: u32,
    pub w2: u32,
    pub w3: u32,
}

/// The words of a register.
pub open spec fn words(x: u128) -> Words {
    Words {
        w0: lanes::word(x, 0),
        w1: lanes::word(x, 1),
        w2: lanes::word(x, 2),
        w3: lanes::word(x, 3),
    }
}

fn to_words(x: u128) -> (r: Words)
    ensures
        r == words(x),
{
    Words { w0: get_word(x, 0), w1: get_word(x, 1), w2: get_word(x, 2), w3: get_word(x, 3) }
}

fn to_register(w: Words) -> (r: u128)
    ensures
        words(r) == w,
{
    from_words(w.w0, w.w1, w.w2, w.w3)
}

/// The word with its bits moved up by `n` places, round the end.
#[verifier::allow_in_spec]
pub fn rotl(x: u32, n: u32) -> u32
    requires
        0 < n < 32,
    returns
        (x << n) | (x >> (32 - n) as u32),
{
    (x << n) | (x >> (32 - n))
}

/// The word with its bits moved down by `n` places, round the end.
#[verifier::allow_in_spec]
pub fn rotr(x: u32, n: u32) -> u32
    requires
        0 < n < 32,
    returns
        (x >> n) | (x << (32 - n) as u32),
{
    (x >> n) | (x << (32 - n))
}

/// The bits of `y` where `x` has ones, and of `z` where it has zeros.
#[verifier::allow_in_spec]
pub fn ch(x: u32, y: u32, z: u32) -> u32
    returns
        (x & y) ^ (!x & z),
{
    (x & y) ^ (!x & z)
}

/// The bits that most of the three have.
#[verifier::allow_in_spec]
pub fn maj(x: u32, y: u32, z: u32) -> u32
    returns
        (x & y) ^ (x & z) ^ (y & z),
{
    (x & y) ^ (x & z) ^ (y & z)
}

#[verifier::allow_in_spec]
pub fn big_sigma0(x: u32) -> u32
    returns
        rotr(x, 2) ^ rotr(x, 13) ^ rotr(x, 22),
{
    rotr(x, 2) ^ rotr(x, 13) ^ rotr(x, 22)
}

#[verifier::allow_in_spec]
pub fn big_sigma1(x: u32) -> u32
    returns
        rotr(x, 6) ^ rotr(x, 11) ^ rotr(x, 25),
{
    rotr(x, 6) ^ rotr(x, 11) ^ rotr(x, 25)
}

#[verifier::allow_in_spec]
pub fn small_sigma0(x: u32) -> u32
    returns
        rotr(x, 7) ^ rotr(x, 18) ^ (x >> 3),
{
    rotr(x, 7) ^ rotr(x, 18) ^ (x >> 3)
}

#[verifier::allow_in_spec]
pub fn small_sigma1(x: u32) -> u32
    returns
        rotr(x, 17) ^ rotr(x, 19) ^ (x >> 10),
{
    rotr(x, 17) ^ rotr(x, 19) ^ (x >> 10)
}

/// The sum modulo 2 to the power 32.
pub open spec fn sum(x: u32, y: u32) -> u32 {
    ((x + y) % 0x1_0000_0000) as u32
}

fn plus(x: u32, y: u32) -> (r: u32)
    ensures
        r == sum(x, y),
{
    x.wrapping_add(y)
}

// --- SHA-256 ---

/// The eight working variables.
#[derive(Copy, Clone, PartialEq, Eq, Structural, Debug)]
pub struct State256 {
    pub a: u32,
    pub b: u32,
    pub c: u32,
    pub d: u32,
    pub e: u32,
    pub f: u32,
    pub g: u32,
    pub h: u32,
}

/// One round, with the sum of message word and round constant.
pub open spec fn round256(s: State256, wk: u32) -> State256 {
    let t1 = sum(sum(sum(ch(s.e, s.f, s.g), big_sigma1(s.e)), wk), s.h);
    let t2 = sum(maj(s.a, s.b, s.c), big_sigma0(s.a));
    State256 {
        a: sum(t1, t2),
        b: s.a,
        c: s.b,
        d: s.c,
        e: sum(t1, s.d),
        f: s.e,
        g: s.f,
        h: s.g,
    }
}

fn run_round256(s: State256, wk: u32) -> (r: State256)
    ensures
        r == round256(s, wk),
{
    let t1: u32 = plus(plus(plus(ch(s.e, s.f, s.g), big_sigma1(s.e)), wk), s.h);
    let t2: u32 = plus(maj(s.a, s.b, s.c), big_sigma0(s.a));
    State256 {
        a: plus(t1, t2),
        b: s.a,
        c: s.b,
        d: s.c,
        e: plus(t1, s.d),
        f: s.e,
        g: s.f,
        h: s.g,
    }
}

/// Two rounds. The first operand holds C, D, G and H, the second A, B, E and F; the result
/// holds the new A, B, E and F.
pub open spec fn rnds2(x: Words, y: Words, wk: Words) -> Words {
    let s = State256 {
        a: y.w3,
        b: y.w2,
        c: x.w3,
        d: x.w2,
        e: y.w1,
        f: y.w0,
        g: x.w1,
        h: x.w0,
    };
    let t = round256(round256(s, wk.w0), wk.w1);
    Words { w0: t.f, w1: t.e, w2: t.b, w3: t.a }
}

/// `sha256rnds2`.
pub fn sha256rnds2(a: u128, b: u128, xmm0: u128) -> (r: u128)
    ensures
        words(r) == rnds2(words(a), words(b), words(xmm0)),
{
    let x = to_words(a);
    let y = to_words(b);
    let wk = to_words(xmm0);
    let s = State256 {
        a: y.w3,
        b: y.w2,
        c: x.w3,
        d: x.w2,
        e: y.w1,
        f: y.w0,
        g: x.w1,
        h: x.w0,
    };
    let t = run_round256(run_round256(s, wk.w0), wk.w1);
    to_register(Words { w0: t.f, w1: t.e, w2: t.b, w3: t.a })
}

/// The first half of the message schedule: each word plus the small sigma of the next.
pub open spec fn msg1_256(x: Words, y: Words) -> Words {
    Words {
        w0: sum(x.w0, small_sigma0(x.w1)),
        w1: sum(x.w1, small_sigma0(x.w2)),
        w2: sum(x.w2, small_sigma0(x.w3)),
        w3: sum(x.w3, small_sigma0(y.w0)),
    }
}

/// `sha256msg1`.
pub fn sha256msg1(a: u128, b: u128) -> (r: u128)
    ensures
        words(r) == msg1_256(words(a), words(b)),
{
    let x = to_words(a);
    let y = to_words(b);
    to_register(
        Words {
            w0: plus(x.w0, small_sigma0(x.w1)),
            w1: plus(x.w1, small_sigma0(x.w2)),
            w2: plus(x.w2, small_sigma0(x.w3)),
            w3: plus(x.w3, small_sigma0(y.w0)),
        },
    )
}

/// The second half of the message schedule: each word plus the small sigma of the word two
/// before it.
pub open spec fn msg2_256(x: Words, y: Words) -> Words {
    let w16 = sum(x.w0, small_sigma1(y.w2));
    let w17 = sum(x.w1, small_sigma1(y.w3));
    Words {
        w0: w16,
        w1: w17,
        w2: sum(x.w2, small_sigma1(w16)),
        w3: sum(x.w3, small_sigma1(w17)),
    }
}

/// `sha256msg2`.
pub fn sha256msg2(a: u128, b: u128) -> (r: u128)
    ensures
        words(r) == msg2_256(words(a), words(b)),
{
    let x = to_words(a);
    let y = to_words(b);
    let w16: u32 = plus(x.w0, small_sigma1(y.w2));
    let w17: u32 = plus(x.w1, small_sigma1(y.w3));
    to_register(
        Words {
            w0: w16,
            w1: w17,
            w2: plus(x.w2, small_sigma1(w16)),
            w3: plus(x.w3, small_sigma1(w17)),
        },
    )
}

// --- SHA-1 ---

/// The five working variables.
#[derive(Copy, Clone, PartialEq, Eq, Structural, Debug)]
pub struct State1 {
    pub a: u32,
    pub b: u32,
    pub c: u32,
    pub d: u32,
    pub e: u32,
}

/// The round function that the low two bits of the immediate select.
#[verifier::allow_in_spec]
pub fn f1(imm: u8, b: u32, c: u32, d: u32) -> u32
    returns
        (if imm & 3 == 0 {
            ch(b, c, d)
        } else if imm & 3 == 2 {
            maj(b, c, d)
        } else {
            b ^ c ^ d
        }),
{
    if imm & 3 == 0 {
        ch(b, c, d)
    } else if imm & 3 == 2 {
        maj(b, c, d)
    } else {
        b ^ c ^ d
    }
}

/// The round constant that the low two bits of the immediate select.
#[verifier::allow_in_spec]
pub fn k1(imm: u8) -> u32
    returns
        (if imm & 3 == 0 {
            0x5a82_7999u32
        } else if imm & 3 == 1 {
            0x6ed9_eba1u32
        } else if imm & 3 == 2 {
            0x8f1b_bcdcu32
        } else {
            0xca62_c1d6u32
        }),
{
    if imm & 3 == 0 {
        0x5a82_7999
    } else if imm & 3 == 1 {
        0x6ed9_eba1
    } else if imm & 3 == 2 {
        0x8f1b_bcdc
    } else {
        0xca62_c1d6
    }
}

/// One round on a message word.
pub open spec fn round1(s: State1, w: u32, imm: u8) -> State1 {
    State1 {
        a: sum(sum(sum(sum(f1(imm, s.b, s.c, s.d), rotl(s.a, 5)), w), s.e), k1(imm)),
        b: s.a,
        c: rotl(s.b, 30),
        d: s.c,
        e: s.d,
    }
}

fn run_round1(s: State1, w: u32, imm: u8) -> (r: State1)
    ensures
        r == round1(s, w, imm),
{
    State1 {
        a: plus(plus(plus(plus(f1(imm, s.b, s.c, s.d), rotl(s.a, 5)), w), s.e), k1(imm)),
        b: s.a,
        c: rotl(s.b, 30),
        d: s.c,
        e: s.d,
    }
}

/// Four rounds. The first operand holds A, B, C and D; the second the message words, with E
/// added to the first.
pub open spec fn rnds4(x: Words, y: Words, imm: u8) -> Words {
    let s = State1 { a: x.w3, b: x.w2, c: x.w1, d: x.w0, e: 0 };
    let t = round1(
        round1(round1(round1(s, y.w3, imm), y.w2, imm), y.w1, imm),
        y.w0,
        imm,
    );
    Words { w0: t.d, w1: t.c, w2: t.b, w3: t.a }
}

/// `sha1rnds4`.
pub fn sha1rnds4(a: u128, b: u128, imm: u8) -> (r: u128)
    ensures
        words(r) == rnds4(words(a), words(b), imm),
{
    let x = to_words(a);
    let y = to_words(b);
    let s = State1 { a: x.w3, b: x.w2, c: x.w1, d: x.w0, e: 0 };
    let t = run_round1(
        run_round1(run_round1(run_round1(s, y.w3, imm), y.w2, imm), y.w1, imm),
        y.w0,
        imm,
    );
    to_register(Words { w0: t.d, w1: t.c, w2: t.b, w3: t.a })
}

/// The message words of the second operand, with the next E, which is A rotated, added to the
/// first of them.
pub open spec fn next_e(x: Words, y: Words) -> Words {
    Words { w3: sum(y.w3, rotl(x.w3, 30)), ..y }
}

/// `sha1nexte`.
pub fn sha1nexte(a: u128, b: u128) -> (r: u128)
    ensures
        words(r) == next_e(words(a), words(b)),
{
    let x = to_words(a);
    let y = to_words(b);
    to_register(Words { w0: y.w0, w1: y.w1, w2: y.w2, w3: plus(y.w3, rotl(x.w3, 30)) })
}

/// The first part of the message schedule: each word, and the one two behind it.
pub open spec fn msg1_1(x: Words, y: Words) -> Words {
    Words { w3: x.w1 ^ x.w3, w2: x.w0 ^ x.w2, w1: y.w3 ^ x.w1, w0: y.w2 ^ x.w0 }
}

/// `sha1msg1`.
pub fn sha1msg1(a: u128, b: u128) -> (r: u128)
    ensures
        words(r) == msg1_1(words(a), words(b)),
{
    let x = to_words(a);
    let y = to_words(b);
    to_register(Words { w3: x.w1 ^ x.w3, w2: x.w0 ^ x.w2, w1: y.w3 ^ x.w1, w0: y.w2 ^ x.w0 })
}

/// The last part of the message schedule; the last word uses the first that it makes.
pub open spec fn msg2_1(x: Words, y: Words) -> Words {
    let w16 = rotl(x.w3 ^ y.w2, 1);
    Words {
        w3: w16,
        w2: rotl(x.w2 ^ y.w1, 1),
        w1: rotl(x.w1 ^ y.w0, 1),
        w0: rotl(x.w0 ^ w16, 1),
    }
}

/// `sha1msg2`.
pub fn sha1msg2(a: u128, b: u128) -> (r: u128)
    ensures
        words(r) == msg2_1(words(a), words(b)),
{
    let x = to_words(a);
    let y = to_words(b);
    let w16: u32 = rotl(x.w3 ^ y.w2, 1);
    to_register(
        Words {
            w3: w16,
            w2: rotl(x.w2 ^ y.w1, 1),
            w1: rotl(x.w1 ^ y.w0, 1),
            w0: rotl(x.w0 ^ w16, 1),
        },
    )
}

/// The operation on the words of its operands.
pub open spec fn result(op: ShaOp, x: Words, y: Words, wk: Words, imm: u8) -> Words {
    match op {
        ShaOp::Sha256Rnds2 => rnds2(x, y, wk),
        ShaOp::Sha256Msg1 => msg1_256(x, y),
        ShaOp::Sha256Msg2 => msg2_256(x, y),
        ShaOp::Sha1Rnds4 => rnds4(x, y, imm),
        ShaOp::Sha1NextE => next_e(x, y),
        ShaOp::Sha1Msg1 => msg1_1(x, y),
        ShaOp::Sha1Msg2 => msg2_1(x, y),
    }
}

impl ShaOp {
    /// The operation on the contents of its registers. Only `sha256rnds2` reads `xmm0`, and
    /// only `sha1rnds4` the immediate.
    pub fn apply(self, a: u128, b: u128, xmm0: u128, imm: u8) -> (r: u128)
        ensures
            words(r) == result(self, words(a), words(b), words(xmm0), imm),
    {
        match self {
            ShaOp::Sha256Rnds2 => sha256rnds2(a, b, xmm0),
            ShaOp::Sha256Msg1 => sha256msg1(a, b),
            ShaOp::Sha256Msg2 => sha256msg2(a, b),
            ShaOp::Sha1Rnds4 => sha1rnds4(a, b, imm),
            ShaOp::Sha1NextE => sha1nexte(a, b),
            ShaOp::Sha1Msg1 => sha1msg1(a, b),
            ShaOp::Sha1Msg2 => sha1msg2(a, b),
        }
    }
}

// --- what the steps compute together ---

/// A chosen bit is that of `y` where `x` has a one, and of `z` where it has a zero; a bit of the
/// majority is one where at least two are.
pub proof fn law_bits_chosen(x: u32, y: u32, z: u32, i: u32)
    requires
        i < 32,
    ensures
        (ch(x, y, z) >> i) & 1 == if (x >> i) & 1 == 1 {
            (y >> i) & 1
        } else {
            (z >> i) & 1
        },
        (maj(x, y, z) >> i) & 1 == 1 <==> ((x >> i) & 1) + ((y >> i) & 1) + ((z >> i) & 1) >= 2,
{
    assert(((((x & y) ^ (!x & z)) >> i) & 1 == if (x >> i) & 1 == 1 {
        (y >> i) & 1
    } else {
        (z >> i) & 1
    }) && (((((x & y) ^ (x & z) ^ (y & z)) >> i) & 1 == 1) == (((x >> i) & 1) + ((y >> i) & 1) + ((z
        >> i) & 1) >= 2))) by (bit_vector)
        requires
            i < 32,
    ;
}

/// A rotation moves each bit by its amount, round the end.
pub proof fn law_bits_rotated(x: u32, n: u32, i: u32)
    requires
        0 < n < 32,
        i < 32,
    ensures
        (rotr(x, n) >> i) & 1 == (x >> ((i + n) % 32) as u32) & 1,
        (rotl(x, n) >> ((i + n) % 32) as u32) & 1 == (x >> i) & 1,
{
    let m = (32 - n) as u32;
    let j = ((i + n) % 32) as u32;
    assert((((x >> n) | (x << m)) >> i) & 1 == (x >> j) & 1 && (((x << n) | (x >> m)) >> j) & 1 == (x
        >> i) & 1) by (bit_vector)
        requires
            0 < n < 32,
            i < 32,
            m == 32 - n,
            j == (i + n) % 32,
    ;
}

/// A sum may be reduced at any time.
proof fn lemma_reduced(x: int, y: int)
    ensures
        (x % 0x1_0000_0000 + y) % 0x1_0000_0000 == (x + y) % 0x1_0000_0000,
{
}

/// The sum of four words.
proof fn lemma_sum_of_four(a: u32, b: u32, c: u32, d: u32)
    ensures
        sum(sum(a, b), c) == (a + b + c) % 0x1_0000_0000,
        sum(sum(sum(a, b), c), d) == (a + b + c + d) % 0x1_0000_0000,
{
    lemma_reduced(a + b, c as int);
    lemma_reduced(a + b + c, d as int);
}

/// One round of SHA-256: the variables move on by one, and two of them take sums modulo 2 to the
/// power 32.
pub proof fn law_round_of_sha256(s: State256, wk: u32)
    ensures
        ({
            let t = round256(s, wk);
            let t1 = s.h + big_sigma1(s.e) + ch(s.e, s.f, s.g) + wk;
            let t2 = big_sigma0(s.a) + maj(s.a, s.b, s.c);
            &&& t.b == s.a && t.c == s.b && t.d == s.c
            &&& t.f == s.e && t.g == s.f && t.h == s.g
            &&& t.a == (t1 + t2) % 0x1_0000_0000
            &&& t.e == (s.d + t1) % 0x1_0000_0000
        }),
{
    let x = ch(s.e, s.f, s.g);
    let y = big_sigma1(s.e);
    let p = maj(s.a, s.b, s.c);
    let q = big_sigma0(s.a);
    lemma_sum_of_four(x, y, wk, s.h);
    lemma_reduced(x + y + wk + s.h, sum(p, q) as int);
    lemma_reduced(p + q, x + y + wk + s.h);
    lemma_reduced(x + y + wk + s.h, s.d as int);
}

/// Four words in a row, the first lowest.
pub open spec fn four(w: Seq<u32>, i: int) -> Words {
    Words { w0: w[i], w1: w[i + 1], w2: w[i + 2], w3: w[i + 3] }
}

/// The sums of the words of two registers.
pub open spec fn sums(x: Words, y: Words) -> Words {
    Words {
        w0: sum(x.w0, y.w0),
        w1: sum(x.w1, y.w1),
        w2: sum(x.w2, y.w2),
        w3: sum(x.w3, y.w3),
    }
}

/// The two steps of the message schedule give the next four words of SHA-256: each is the sum of
/// the words 16 and 7 before it and of the small sigmas of those 15 and 2 before it.
pub proof fn law_schedule_of_sha256(w: Seq<u32>)
    requires
        w.len() == 16,
    ensures
        ({
            let r = msg2_256(sums(msg1_256(four(w, 0), four(w, 4)), four(w, 9)), four(w, 12));
            let m = 0x1_0000_0000int;
            &&& r.w0 == (w[0] + small_sigma0(w[1]) + w[9] + small_sigma1(w[14])) % m
            &&& r.w1 == (w[1] + small_sigma0(w[2]) + w[10] + small_sigma1(w[15])) % m
            &&& r.w2 == (w[2] + small_sigma0(w[3]) + w[11] + small_sigma1(r.w0)) % m
            &&& r.w3 == (w[3] + small_sigma0(w[4]) + w[12] + small_sigma1(r.w1)) % m
        }),
{
    let r = msg2_256(sums(msg1_256(four(w, 0), four(w, 4)), four(w, 9)), four(w, 12));
    lemma_sum_of_four(w[0], small_sigma0(w[1]), w[9], small_sigma1(w[14]));
    lemma_sum_of_four(w[1], small_sigma0(w[2]), w[10], small_sigma1(w[15]));
    lemma_sum_of_four(w[2], small_sigma0(w[3]), w[11], small_sigma1(r.w0));
    lemma_sum_of_four(w[3], small_sigma0(w[4]), w[12], small_sigma1(r.w1));
}

/// One round of SHA-1: choice, parity, majority and parity again by the stage, and a constant that
/// is the root of 2, 3, 5 or 10, times 2 to the power 30, cut off.
pub proof fn law_round_of_sha1(s: State1, w: u32, imm: u8)
    requires
        imm < 4,
    ensures
        ({
            let t = round1(s, w, imm);
            let k = k1(imm) as int;
            let f = if imm == 0 {
                ch(s.b, s.c, s.d)
            } else if imm == 2 {
                maj(s.b, s.c, s.d)
            } else {
                s.b ^ s.c ^ s.d
            };
            let n: int = if imm == 0 {
                2
            } else if imm == 1 {
                3
            } else if imm == 2 {
                5
            } else {
                10
            };
            &&& t.a == (rotl(s.a, 5) + f + s.e + w + k) % 0x1_0000_0000
            &&& t.b == s.a && t.c == rotl(s.b, 30) && t.d == s.c && t.e == s.d
            &&& k * k <= n * 0x1000_0000_0000_0000int
            &&& (k + 1) * (k + 1) > n * 0x1000_0000_0000_0000int
        }),
{
    assert(imm < 4 ==> imm & 3 == imm) by (bit_vector);
    let f = f1(imm, s.b, s.c, s.d);
    lemma_sum_of_four(f, rotl(s.a, 5), w, s.e);
    lemma_reduced(f + rotl(s.a, 5) + w + s.e, k1(imm) as int);
    let unit = 0x1000_0000_0000_0000int;
    assert(0x5a82_7999int * 0x5a82_7999int <= 2 * unit < 0x5a82_799aint * 0x5a82_799aint);
    assert(0x6ed9_eba1int * 0x6ed9_eba1int <= 3 * unit < 0x6ed9_eba2int * 0x6ed9_eba2int);
    assert(0x8f1b_bcdcint * 0x8f1b_bcdcint <= 5 * unit < 0x8f1b_bcddint * 0x8f1b_bcddint);
    assert(0xca62_c1d6int * 0xca62_c1d6int <= 10 * unit < 0xca62_c1d7int * 0xca62_c1d7int);
}

/// Four words in a row, the first highest.
pub open spec fn four_down(w: Seq<u32>, i: int) -> Words {
    Words { w3: w[i], w2: w[i + 1], w1: w[i + 2], w0: w[i + 3] }
}

/// The two steps of the message schedule, with an exclusive or between them, give the next four
/// words of SHA-1: each is the exclusive or of those 16, 14, 8 and 3 before it, rotated by one.
pub proof fn law_schedule_of_sha1(w: Seq<u32>)
    requires
        w.len() == 16,
    ensures
        ({
            let m = msg1_1(four_down(w, 0), four_down(w, 4));
            let x = four_down(w, 8);
            let mixed = Words {
                w0: m.w0 ^ x.w0,
                w1: m.w1 ^ x.w1,
                w2: m.w2 ^ x.w2,
                w3: m.w3 ^ x.w3,
            };
            let r = msg2_1(mixed, four_down(w, 12));
            &&& r.w3 == rotl(w[2] ^ w[0] ^ w[8] ^ w[13], 1)
            &&& r.w2 == rotl(w[3] ^ w[1] ^ w[9] ^ w[14], 1)
            &&& r.w1 == rotl(w[4] ^ w[2] ^ w[10] ^ w[15], 1)
            &&& r.w0 == rotl(w[5] ^ w[3] ^ w[11] ^ r.w3, 1)
        }),
{
}

} // verus!
