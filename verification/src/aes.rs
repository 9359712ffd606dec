//! AES rounds on 128-bit registers. Byte `r + 4 * c` of a register is row `r`, column `c` of
//! the state.
use crate::gf::{invert, multiply};
use crate::ir::AesOp;
use crate::lanes::{from_bytes, to_bytes};
use crate::{gf, lanes};
use vstd::prelude::*;

verus! {

/// The byte with its bits moved up by `n` places, round the end.
pub open spec fn rotated(x: u8, n: u8) -> u8 {
    (x << n) | (x >> ((8 - n) as u8))
}

/// The affine map behind the S-box.
pub open spec fn affine(x: u8) -> u8 {
    x ^ rotated(x, 1) ^ rotated(x, 2) ^ rotated(x, 3) ^ rotated(x, 4) ^ 0x63
}

/// The affine map that undoes it.
pub open spec fn inverse_affine(x: u8) -> u8 {
    rotated(x, 1) ^ rotated(x, 3) ^ rotated(x, 6) ^ 0x05
}

/// The S-box: the inverse in the field, then the affine map.
pub open spec fn substitute(x: u8) -> u8 {
    affine(gf::inverse(x))
}

/// The inverse S-box.
pub open spec fn inverse_substitute(x: u8) -> u8 {
    gf::inverse(inverse_affine(x))
}

/// The S-box on every byte.
pub open spec fn sub_bytes(s: Seq<u8>) -> Seq<u8> {
    Seq::new(16, |i: int| substitute(s[i]))
}

/// The inverse S-box on every byte.
pub open spec fn inverse_sub_bytes(s: Seq<u8>) -> Seq<u8> {
    Seq::new(16, |i: int| inverse_substitute(s[i]))
}

/// Row `r` of the state, moved left by `r` columns.
pub open spec fn shift_rows(s: Seq<u8>) -> Seq<u8> {
    Seq::new(16, |i: int| s[(i + 4 * (i % 4)) % 16])
}

/// Row `r` of the state, moved right by `r` columns.
pub open spec fn inverse_shift_rows(s: Seq<u8>) -> Seq<u8> {
    Seq::new(16, |i: int| s[(i + 12 * (i % 4)) % 16])
}

/// The byte `k` rows below byte `i` in its column, round the end.
pub open spec fn below(s: Seq<u8>, i: int, k: int) -> u8 {
    s[i / 4 * 4 + (i + k) % 4]
}

/// Each column times a fixed matrix, whose rows are the coefficients moved on by one each.
pub open spec fn mixed(s: Seq<u8>, c0: u8, c1: u8, c2: u8, c3: u8) -> Seq<u8> {
    Seq::new(
        16,
        |i: int|
            gf::product(below(s, i, 0), c0) ^ gf::product(below(s, i, 1), c1) ^ gf::product(
                below(s, i, 2),
                c2,
            ) ^ gf::product(below(s, i, 3), c3),
    )
}

/// The columns mixed.
pub open spec fn mix_columns(s: Seq<u8>) -> Seq<u8> {
    mixed(s, 2, 3, 1, 1)
}

/// The columns mixed back.
pub open spec fn inverse_mix_columns(s: Seq<u8>) -> Seq<u8> {
    mixed(s, 14, 11, 13, 9)
}

/// The round key added.
pub open spec fn add_round_key(s: Seq<u8>, rk: Seq<u8>) -> Seq<u8> {
    Seq::new(16, |i: int| s[i] ^ rk[i])
}

/// One round of the given kind on the bytes of the state.
pub open spec fn round(op: AesOp, s: Seq<u8>, rk: Seq<u8>) -> Seq<u8> {
    match op {
        AesOp::Enc => add_round_key(mix_columns(shift_rows(sub_bytes(s))), rk),
        AesOp::Dec => add_round_key(
            inverse_mix_columns(inverse_shift_rows(inverse_sub_bytes(s))),
            rk,
        ),
        AesOp::EncLast => add_round_key(shift_rows(sub_bytes(s)), rk),
        AesOp::DecLast => add_round_key(inverse_shift_rows(inverse_sub_bytes(s)), rk),
    }
}

fn rotate(x: u8, n: u8) -> (r: u8)
    requires
        0 < n < 8,
    ensures
        r == rotated(x, n),
{
    (x << n) | (x >> (8 - n))
}

/// The S-box of a byte.
pub fn sub_byte(x: u8) -> (r: u8)
    ensures
        r == substitute(x),
{
    let y: u8 = invert(x);
    y ^ rotate(y, 1) ^ rotate(y, 2) ^ rotate(y, 3) ^ rotate(y, 4) ^ 0x63
}

/// The inverse S-box of a byte.
pub fn inverse_sub_byte(x: u8) -> (r: u8)
    ensures
        r == inverse_substitute(x),
{
    invert(rotate(x, 1) ^ rotate(x, 3) ^ rotate(x, 6) ^ 0x05)
}

/// The S-box on every byte, then the rows shifted.
fn sub_and_shift(s: &[u8; 16]) -> (r: [u8; 16])
    ensures
        r@ == shift_rows(sub_bytes(s@)),
{
    let mut out: [u8; 16] = [0;16];
    let mut i: usize = 0;
    while i < 16
        invariant
            i <= 16,
            out@.len() == 16,
            forall|j: int| 0 <= j < i ==> #[trigger] out@[j] == shift_rows(sub_bytes(s@))[j],
        decreases 16 - i,
    {
        out[i] = sub_byte(s[(i + 4 * (i % 4)) % 16]);
        i = i + 1;
    }
    assert(out@ =~= shift_rows(sub_bytes(s@)));
    out
}

/// The inverse S-box on every byte, then the rows shifted back.
fn inverse_sub_and_shift(s: &[u8; 16]) -> (r: [u8; 16])
    ensures
        r@ == inverse_shift_rows(inverse_sub_bytes(s@)),
{
    let mut out: [u8; 16] = [0;16];
    let mut i: usize = 0;
    while i < 16
        invariant
            i <= 16,
            out@.len() == 16,
            forall|j: int|
                0 <= j < i ==> #[trigger] out@[j] == inverse_shift_rows(inverse_sub_bytes(s@))[j],
        decreases 16 - i,
    {
        out[i] = inverse_sub_byte(s[(i + 12 * (i % 4)) % 16]);
        i = i + 1;
    }
    assert(out@ =~= inverse_shift_rows(inverse_sub_bytes(s@)));
    out
}

/// Multiplies each column by the matrix with these coefficients.
fn mix(s: &[u8; 16], c0: u8, c1: u8, c2: u8, c3: u8) -> (r: [u8; 16])
    ensures
        r@ == mixed(s@, c0, c1, c2, c3),
{
    let mut out: [u8; 16] = [0;16];
    let mut i: usize = 0;
    while i < 16
        invariant
            i <= 16,
            out@.len() == 16,
            forall|j: int| 0 <= j < i ==> #[trigger] out@[j] == mixed(s@, c0, c1, c2, c3)[j],
        decreases 16 - i,
    {
        let col: usize = i / 4 * 4;
        out[i] = multiply(s[col + i % 4], c0) ^ multiply(s[col + (i + 1) % 4], c1) ^ multiply(
            s[col + (i + 2) % 4],
            c2,
        ) ^ multiply(s[col + (i + 3) % 4], c3);
        i = i + 1;
    }
    assert(out@ =~= mixed(s@, c0, c1, c2, c3));
    out
}

/// Adds the round key.
fn add_key(s: &[u8; 16], rk: &[u8; 16]) -> (r: [u8; 16])
    ensures
        r@ == add_round_key(s@, rk@),
{
    let mut out: [u8; 16] = [0;16];
    let mut i: usize = 0;
    while i < 16
        invariant
            i <= 16,
            out@.len() == 16,
            forall|j: int| 0 <= j < i ==> #[trigger] out@[j] == s@[j] ^ rk@[j],
        decreases 16 - i,
    {
        out[i] = s[i] ^ rk[i];
        i = i + 1;
    }
    assert(out@ =~= add_round_key(s@, rk@));
    out
}

/// `aesenc`: one round.
pub fn aes_enc(state: u128, rk: u128) -> (r: u128)
    ensures
        lanes::bytes(r) == round(AesOp::Enc, lanes::bytes(state), lanes::bytes(rk)),
{
    let s = sub_and_shift(&to_bytes(state));
    from_bytes(&add_key(&mix(&s, 2, 3, 1, 1), &to_bytes(rk)))
}

/// `aesdec`: one round of the equivalent inverse cipher.
pub fn aes_dec(state: u128, rk: u128) -> (r: u128)
    ensures
        lanes::bytes(r) == round(AesOp::Dec, lanes::bytes(state), lanes::bytes(rk)),
{
    let s = inverse_sub_and_shift(&to_bytes(state));
    from_bytes(&add_key(&mix(&s, 14, 11, 13, 9), &to_bytes(rk)))
}

/// `aesenclast`: the last round, which does not mix columns.
pub fn aes_enc_last(state: u128, rk: u128) -> (r: u128)
    ensures
        lanes::bytes(r) == round(AesOp::EncLast, lanes::bytes(state), lanes::bytes(rk)),
{
    from_bytes(&add_key(&sub_and_shift(&to_bytes(state)), &to_bytes(rk)))
}

/// `aesdeclast`: the last round of the inverse cipher.
pub fn aes_dec_last(state: u128, rk: u128) -> (r: u128)
    ensures
        lanes::bytes(r) == round(AesOp::DecLast, lanes::bytes(state), lanes::bytes(rk)),
{
    from_bytes(&add_key(&inverse_sub_and_shift(&to_bytes(state)), &to_bytes(rk)))
}

impl AesOp {
    /// One round on the contents of two registers, the state and the round key.
    pub fn apply(self, state: u128, rk: u128) -> (r: u128)
        ensures
            lanes::bytes(r) == round(self, lanes::bytes(state), lanes::bytes(rk)),
    {
        match self {
            AesOp::Enc => aes_enc(state, rk),
            AesOp::Dec => aes_dec(state, rk),
            AesOp::EncLast => aes_enc_last(state, rk),
            AesOp::DecLast => aes_dec_last(state, rk),
        }
    }
}

// --- what the steps promise ---

/// The inverse S-box undoes the S-box, and the S-box the inverse S-box.
pub proof fn law_substitution_undone(x: u8)
    ensures
        inverse_substitute(substitute(x)) == x,
        substitute(inverse_substitute(x)) == x,
{
    let y = gf::inverse(x);
    assert(inverse_affine(affine(y)) == y) by (bit_vector);
    gf::law_inverse_undoes_itself(x);
    assert(affine(inverse_affine(x)) == x) by (bit_vector);
    gf::law_inverse_undoes_itself(inverse_affine(x));
}

/// Shifting the rows back undoes shifting them, and shifting them undoes shifting them back.
pub proof fn law_shift_rows_undone(s: Seq<u8>)
    requires
        s.len() == 16,
    ensures
        inverse_shift_rows(shift_rows(s)) == s,
        shift_rows(inverse_shift_rows(s)) == s,
{
    let there = shift_rows(s);
    let back = inverse_shift_rows(s);
    assert forall|i: int| 0 <= i < 16 implies #[trigger] inverse_shift_rows(there)[i] == s[i] by {
        let j = (i + 12 * (i % 4)) % 16;
        assert(j % 4 == i % 4);
        assert(there[j] == s[(j + 4 * (j % 4)) % 16]);
    }
    assert forall|i: int| 0 <= i < 16 implies #[trigger] shift_rows(back)[i] == s[i] by {
        let j = (i + 4 * (i % 4)) % 16;
        assert(j % 4 == i % 4);
        assert(back[j] == s[(j + 12 * (j % 4)) % 16]);
    }
    assert(inverse_shift_rows(there) =~= s);
    assert(shift_rows(back) =~= s);
}

/// Mixing the columns back undoes mixing them.
pub proof fn law_mix_columns_undone(s: Seq<u8>)
    requires
        s.len() == 16,
    ensures
        inverse_mix_columns(mix_columns(s)) == s,
{
    let m = mix_columns(s);
    assert forall|i: int| 0 <= i < 16 implies inverse_mix_columns(m)[i] == s[i] by {
        let s0 = below(s, i, 0);
        let s1 = below(s, i, 1);
        let s2 = below(s, i, 2);
        let s3 = below(s, i, 3);
        gf::lemma_mixed_back(s0, s1, s2, s3);
        assert(s0 == s[i]);
        let c = i / 4 * 4;
        let i1 = c + (i + 1) % 4;
        let i2 = c + (i + 2) % 4;
        let i3 = c + (i + 3) % 4;
        assert(below(m, i, 0) == m[i]);
        assert(below(m, i, 1) == m[i1]);
        assert(below(m, i, 2) == m[i2]);
        assert(below(m, i, 3) == m[i3]);
        assert(below(s, i1, 0) == s1 && below(s, i1, 1) == s2 && below(s, i1, 2) == s3 && below(
            s,
            i1,
            3,
        ) == s0);
        assert(below(s, i2, 0) == s2 && below(s, i2, 1) == s3 && below(s, i2, 2) == s0 && below(
            s,
            i2,
            3,
        ) == s1);
        assert(below(s, i3, 0) == s3 && below(s, i3, 1) == s0 && below(s, i3, 2) == s1 && below(
            s,
            i3,
            3,
        ) == s2);
    }
    assert(inverse_mix_columns(m) =~= s);
}

/// The last round of the other direction.
pub open spec fn opposite(op: AesOp) -> AesOp {
    match op {
        AesOp::EncLast => AesOp::DecLast,
        _ => AesOp::EncLast,
    }
}

/// Of the last rounds of encryption and of decryption each undoes the other, once the round
/// key is taken away.
pub proof fn law_last_round_undone(op: AesOp, s: Seq<u8>, rk: Seq<u8>)
    requires
        op is EncLast || op is DecLast,
        s.len() == 16,
        rk.len() == 16,
    ensures
        round(opposite(op), add_round_key(round(op, s, rk), rk), lanes::repeated(0)) == s,
{
    let zero = lanes::repeated(0);
    let (t, back) = if op is EncLast {
        let t = shift_rows(sub_bytes(s));
        (t, inverse_shift_rows(inverse_sub_bytes(t)))
    } else {
        let t = inverse_shift_rows(inverse_sub_bytes(s));
        (t, shift_rows(sub_bytes(t)))
    };
    assert(add_round_key(add_round_key(t, rk), rk) =~= t) by {
        assert forall|i: int| 0 <= i < 16 implies (t[i] ^ rk[i]) ^ rk[i] == t[i] by {
            let x = t[i];
            let k = rk[i];
            assert((x ^ k) ^ k == x) by (bit_vector);
        }
    }
    assert(back =~= s) by {
        law_shift_rows_undone(s);
        assert forall|i: int| 0 <= i < 16 implies back[i] == s[i] by {
            law_substitution_undone(s[i]);
            assert(inverse_shift_rows(shift_rows(s))[i] == s[i]);
            assert(shift_rows(inverse_shift_rows(s))[i] == s[i]);
        }
    }
    assert(add_round_key(back, zero) =~= back) by {
        assert forall|i: int| 0 <= i < 16 implies back[i] ^ 0u8 == back[i] by {
            let x = back[i];
            assert(x ^ 0u8 == x) by (bit_vector);
        }
    }
}

/// Of registers: where `r` is what a last round gives, and `back` what the last round of the
/// other direction makes of it without the round key, `back` is the state again.
pub proof fn law_last_round_undone_in_register(op: AesOp, s: u128, rk: u128, r: u128, back: u128)
    requires
        op is EncLast || op is DecLast,
        lanes::bytes(r) == round(op, lanes::bytes(s), lanes::bytes(rk)),
        lanes::bytes(back) == round(opposite(op), lanes::bytes(r ^ rk), lanes::bytes(0)),
    ensures
        back == s,
{
    lanes::law_bytes_of_xor(r, rk);
    lanes::law_bytes_of_zero();
    assert(lanes::bytes(r ^ rk) =~= add_round_key(lanes::bytes(r), lanes::bytes(rk)));
    law_last_round_undone(op, lanes::bytes(s), lanes::bytes(rk));
    lanes::law_bytes_determine_register(back, s);
}

} // verus!
