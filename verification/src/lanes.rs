//! A 128-bit register as bytes and as words, the lowest first.
use vstd::prelude::*;

verus! {

/// Byte `i` of the register.
pub open spec fn byte(x: u128, i: int) -> u8 {
    (x >> ((8 * i) as u128)) as u8
}

/// The sixteen bytes of the register.
pub open spec fn bytes(x: u128) -> Seq<u8> {
    Seq::new(16, |i: int| byte(x, i))
}

/// Word `i` of the register.
pub open spec fn word(x: u128, i: int) -> u32 {
    (x >> ((32 * i) as u128)) as u32
}

/// Takes the register apart into bytes.
pub fn to_bytes(x: u128) -> (r: [u8; 16])
    ensures
        r@ == bytes(x),
{
    let r: [u8; 16] = [
        x as u8,
        (x >> 8) as u8,
        (x >> 16) as u8,
        (x >> 24) as u8,
        (x >> 32) as u8,
        (x >> 40) as u8,
        (x >> 48) as u8,
        (x >> 56) as u8,
        (x >> 64) as u8,
        (x >> 72) as u8,
        (x >> 80) as u8,
        (x >> 88) as u8,
        (x >> 96) as u8,
        (x >> 104) as u8,
        (x >> 112) as u8,
        (x >> 120) as u8,
    ];
    assert(x >> 0u128 == x) by (bit_vector);
    assert(r@ =~= bytes(x));
    r
}

/// Puts a register together from bytes.
pub fn from_bytes(b: &[u8; 16]) -> (r: u128)
    ensures
        bytes(r) == b@,
{
    let w0: u32 = join(b[0], b[1], b[2], b[3]);
    let w1: u32 = join(b[4], b[5], b[6], b[7]);
    let w2: u32 = join(b[8], b[9], b[10], b[11]);
    let w3: u32 = join(b[12], b[13], b[14], b[15]);
    let r: u128 = from_words(w0, w1, w2, w3);
    proof {
        lemma_bytes_of_word(r);
        assert(bytes(r) =~= b@);
    }
    r
}

/// Four bytes as a word.
fn join(b0: u8, b1: u8, b2: u8, b3: u8) -> (r: u32)
    ensures
        r as u8 == b0,
        (r >> 8) as u8 == b1,
        (r >> 16) as u8 == b2,
        (r >> 24) as u8 == b3,
{
    let r: u32 = (b0 as u32) | ((b1 as u32) << 8) | ((b2 as u32) << 16) | ((b3 as u32) << 24);
    assert(r as u8 == b0 && (r >> 8) as u8 == b1 && (r >> 16) as u8 == b2 && (r >> 24) as u8 == b3)
        by (bit_vector)
        requires
            r == (b0 as u32) | ((b1 as u32) << 8) | ((b2 as u32) << 16) | ((b3 as u32) << 24),
    ;
    r
}

/// Takes word `i` out of the register.
pub fn get_word(x: u128, i: u32) -> (r: u32)
    requires
        i < 4,
    ensures
        r == word(x, i as int),
{
    (x >> (32 * i)) as u32
}

/// Puts a register together from words, the lowest first.
pub fn from_words(w0: u32, w1: u32, w2: u32, w3: u32) -> (r: u128)
    ensures
        word(r, 0) == w0,
        word(r, 1) == w1,
        word(r, 2) == w2,
        word(r, 3) == w3,
{
    let r: u128 = (w0 as u128) | ((w1 as u128) << 32) | ((w2 as u128) << 64) | ((w3 as u128)
        << 96);
    assert((r >> 0u128) as u32 == w0 && (r >> 32u128) as u32 == w1 && (r >> 64u128) as u32 == w2
        && (r >> 96u128) as u32 == w3) by (bit_vector)
        requires
            r == (w0 as u128) | ((w1 as u128) << 32) | ((w2 as u128) << 64) | ((w3 as u128) << 96),
    ;
    r
}

/// The bytes of a register are those of its words.
proof fn lemma_bytes_of_word(x: u128)
    ensures
        forall|i: int|
            0 <= i < 4 ==> {
                let w = #[trigger] word(x, i);
                &&& byte(x, 4 * i) == w as u8
                &&& byte(x, 4 * i + 1) == (w >> 8) as u8
                &&& byte(x, 4 * i + 2) == (w >> 16) as u8
                &&& byte(x, 4 * i + 3) == (w >> 24) as u8
            },
{
    assert forall|i: int| 0 <= i < 4 implies {
        let w = #[trigger] word(x, i);
        &&& byte(x, 4 * i) == w as u8
        &&& byte(x, 4 * i + 1) == (w >> 8) as u8
        &&& byte(x, 4 * i + 2) == (w >> 16) as u8
        &&& byte(x, 4 * i + 3) == (w >> 24) as u8
    } by {
        let s = (32 * i) as u128;
        let s1 = (32 * i + 8) as u128;
        let s2 = (32 * i + 16) as u128;
        let s3 = (32 * i + 24) as u128;
        let w = (x >> s) as u32;
        assert((x >> s) as u8 == w as u8 && (x >> s1) as u8 == (w >> 8) as u8 && (x >> s2) as u8
            == (w >> 16) as u8 && (x >> s3) as u8 == (w >> 24) as u8) by (bit_vector)
            requires
                w == (x >> s) as u32,
                s <= 96,
                s1 == s + 8,
                s2 == s + 16,
                s3 == s + 24,
        ;
    }
}

/// A register is what its bytes are.
pub proof fn law_bytes_determine_register(x: u128, y: u128)
    requires
        bytes(x) == bytes(y),
    ensures
        x == y,
{
    assert forall|i: int| 0 <= i < 16 implies #[trigger] byte(x, i) == byte(y, i) by {
        assert(bytes(x)[i] == byte(x, i));
        assert(bytes(y)[i] == byte(y, i));
    }
    assert((x >> 0u128) as u8 == (y >> 0u128) as u8 && (x >> 8u128) as u8 == (y >> 8u128) as u8 && (
    x >> 16u128) as u8 == (y >> 16u128) as u8 && (x >> 24u128) as u8 == (y >> 24u128) as u8 && (x
        >> 32u128) as u8 == (y >> 32u128) as u8 && (x >> 40u128) as u8 == (y >> 40u128) as u8 && (x
        >> 48u128) as u8 == (y >> 48u128) as u8 && (x >> 56u128) as u8 == (y >> 56u128) as u8 && (x
        >> 64u128) as u8 == (y >> 64u128) as u8 && (x >> 72u128) as u8 == (y >> 72u128) as u8 && (x
        >> 80u128) as u8 == (y >> 80u128) as u8 && (x >> 88u128) as u8 == (y >> 88u128) as u8 && (x
        >> 96u128) as u8 == (y >> 96u128) as u8 && (x >> 104u128) as u8 == (y >> 104u128) as u8 && (
    x >> 112u128) as u8 == (y >> 112u128) as u8 && (x >> 120u128) as u8 == (y >> 120u128) as u8
        ==> x == y) by (bit_vector);
    assert(byte(x, 0) == byte(y, 0) && byte(x, 1) == byte(y, 1) && byte(x, 2) == byte(y, 2)
        && byte(x, 3) == byte(y, 3) && byte(x, 4) == byte(y, 4) && byte(x, 5) == byte(y, 5)
        && byte(x, 6) == byte(y, 6) && byte(x, 7) == byte(y, 7) && byte(x, 8) == byte(y, 8)
        && byte(x, 9) == byte(y, 9) && byte(x, 10) == byte(y, 10) && byte(x, 11) == byte(y, 11)
        && byte(x, 12) == byte(y, 12) && byte(x, 13) == byte(y, 13) && byte(x, 14) == byte(y, 14)
        && byte(x, 15) == byte(y, 15));
}

/// The register that holds the same byte throughout, as bytes.
pub open spec fn repeated(x: u8) -> Seq<u8> {
    Seq::new(16, |i: int| x)
}

/// Exclusive or works on each byte alone.
pub proof fn law_bytes_of_xor(x: u128, y: u128)
    ensures
        bytes(x ^ y) == Seq::new(16, |i: int| bytes(x)[i] ^ bytes(y)[i]),
{
    assert forall|i: int| 0 <= i < 16 implies #[trigger] byte(x ^ y, i) == byte(x, i) ^ byte(
        y,
        i,
    ) by {
        let n = (8 * i) as u128;
        assert(((x ^ y) >> n) as u8 == ((x >> n) as u8) ^ ((y >> n) as u8)) by (bit_vector);
    }
    assert(bytes(x ^ y) =~= Seq::new(16, |i: int| bytes(x)[i] ^ bytes(y)[i]));
}

/// The bytes of zero.
pub proof fn law_bytes_of_zero()
    ensures
        bytes(0) == repeated(0),
{
    assert forall|i: int| 0 <= i < 16 implies #[trigger] byte(0, i) == 0 by {
        let n = (8 * i) as u128;
        assert((0u128 >> n) as u8 == 0) by (bit_vector);
    }
    assert(bytes(0) =~= repeated(0));
}

} // verus!
