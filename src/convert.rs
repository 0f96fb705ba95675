//! Conversion of normalized floating-point input samples to 16-bit PCM.
//!
//! A sample is taken as its IEEE-754 single-precision bit pattern (what
//! `f32::to_bits` returns), and converted with integer arithmetic to exactly
//! what `(sample * 32767.0f32) as i16` gives: the product is rounded to single
//! precision (24 significant bits, ties to even), then truncated toward zero
//! and saturated to the 16-bit range. Out-of-range input therefore clamps
//! rather than wraps; infinities clamp to the bound of their sign and NaN
//! gives zero.

use vstd::prelude::*;
use vstd::arithmetic::power2::{pow2, lemma_pow2_adds, lemma_pow2_pos, lemma_pow2_strictly_increases};
use vstd::arithmetic::div_mod::{lemma_div_denominator, lemma_div_multiples_vanish};
use vstd::bits::lemma_u64_shr_is_div;

verus! {

/// The largest positive 16-bit sample; a full-scale input maps to it.
pub const FULL_SCALE: u64 = 32767;

/// The biased exponent field of an IEEE-754 single-precision value.
pub open spec fn exponent_of(bits: u32) -> u32 {
    (bits >> 23u32) & 0xffu32
}

/// The fraction field of an IEEE-754 single-precision value.
pub open spec fn fraction_of(bits: u32) -> u32 {
    bits & 0x7f_ffffu32
}

pub open spec fn is_negative(bits: u32) -> bool {
    (bits >> 31u32) == 1
}

pub open spec fn is_nan(bits: u32) -> bool {
    exponent_of(bits) == 255 && fraction_of(bits) != 0
}

/// The integer significand of a finite value (implicit leading bit included for normal values).
pub open spec fn significand_of(bits: u32) -> nat {
    if exponent_of(bits) == 0 {
        fraction_of(bits) as nat
    } else {
        fraction_of(bits) as nat + pow2(23)
    }
}

/// The exponent that scales the significand: a finite value is
/// `significand_of(bits) * 2^(scale_of(bits) - 150)`.
pub open spec fn scale_of(bits: u32) -> nat {
    if exponent_of(bits) == 0 {
        1
    } else {
        exponent_of(bits) as nat
    }
}

/// How many low bits of `p` lie beyond its 24 most significant bits.
pub open spec fn dropped_bits(p: nat) -> nat
    decreases p,
{
    if p < 0x100_0000 {
        0
    } else {
        1 + dropped_bits(p / 2)
    }
}

/// `p` rounded to 24 significant bits, to nearest with ties to even: the
/// significand of a single-precision product whose exact significand is `p`.
pub open spec fn round_to_single(p: nat) -> nat {
    let d = pow2(dropped_bits(p));
    let q = p / d;
    let r = p % d;
    let up = 2 * r > d || (2 * r == d && q % 2 == 1);
    (if up { q + 1 } else { q }) * d
}

/// The magnitude of a finite value times full scale, computed in single
/// precision and truncated toward zero: the exact product is
/// `significand_of(bits) * 32767 * 2^(scale_of(bits) - 150)`, and only its
/// significand is rounded.
pub open spec fn scaled_magnitude(bits: u32) -> nat {
    (round_to_single(significand_of(bits) * (FULL_SCALE as nat)) * pow2(scale_of(bits))) / pow2(150)
}

/// The 16-bit sample for a normalized floating-point sample given by its bit
/// pattern: the value times 32767 in single precision, truncated toward zero
/// and clamped to the 16-bit range. Infinities clamp to the bound of their sign; NaN gives zero.
pub open spec fn sample_value(bits: u32) -> int {
    if is_nan(bits) {
        0
    } else if exponent_of(bits) == 255 {
        if is_negative(bits) { -32768 } else { 32767 }
    } else if is_negative(bits) {
        if scaled_magnitude(bits) > 32768 { -32768 } else { -(scaled_magnitude(bits) as int) }
    } else {
        if scaled_magnitude(bits) > 32767 { 32767 } else { scaled_magnitude(bits) as int }
    }
}

proof fn lemma_magnitude_below(p: nat, e: nat)
    requires
        e < 150,
    ensures
        (p * pow2(e)) / pow2(150) == p / pow2((150 - e) as nat),
{
    let s = (150 - e) as nat;
    lemma_pow2_adds(e, s);
    lemma_pow2_pos(e);
    lemma_pow2_pos(s);
    lemma_div_denominator((p * pow2(e)) as int, pow2(e) as int, pow2(s) as int);
    lemma_div_multiples_vanish(p as int, pow2(e) as int);
    assert(p * pow2(e) == pow2(e) * p) by (nonlinear_arith);
}

proof fn lemma_magnitude_above(p: nat, e: nat)
    requires
        e >= 150,
    ensures
        (p * pow2(e)) / pow2(150) >= p,
{
    let s = (e - 150) as nat;
    lemma_pow2_adds(150, s);
    lemma_pow2_pos(150);
    lemma_pow2_pos(s);
    assert(p * pow2(e) == pow2(150) * (p * pow2(s))) by (nonlinear_arith)
        requires pow2(e) == pow2(150) * pow2(s);
    lemma_div_multiples_vanish((p * pow2(s)) as int, pow2(150) as int);
    assert(p * pow2(s) >= p) by (nonlinear_arith)
        requires pow2(s) >= 1;
}

/// Rounds a product's significand to 24 significant bits, ties to even.
fn round_significand(p: u64) -> (r: u64)
    requires
        p < 0x80_0000_0000,
    ensures
        r as nat == round_to_single(p as nat),
        r <= 2 * p,
        p >= 0x100_0000 ==> r >= 0x80_0000,
{
    let mut q: u64 = p;
    let mut rem: u64 = 0;
    let mut pw: u64 = 1;
    let ghost mut k: nat = 0;
    proof {
        vstd::arithmetic::power2::lemma2_to64();
    }
    while q >= 0x100_0000
        invariant
            p == q * pw + rem,
            rem < pw,
            1 <= pw,
            pw == pow2(k),
            q <= p,
            dropped_bits(q as nat) + k == dropped_bits(p as nat),
            k > 0 ==> q >= 0x80_0000,
            p < 0x80_0000_0000,
        decreases q,
    {
        let bit: u64 = q % 2;
        let half: u64 = q / 2;
        proof {
            assert(pw <= p) by (nonlinear_arith)
                requires p == q * pw + rem, q >= 1, pw >= 1;
            assert(p == half * (2 * pw) + (bit * pw + rem)) by (nonlinear_arith)
                requires p == q * pw + rem, q == 2 * half + bit;
            assert(bit * pw + rem < 2 * pw) by (nonlinear_arith)
                requires bit <= 1, rem < pw;
            vstd::arithmetic::power2::lemma_pow2_unfold(k + 1);
        }
        rem = bit * pw + rem;
        pw = 2 * pw;
        q = half;
        proof {
            k = k + 1;
        }
    }
    proof {
        lemma_pow2_pos(k);
        vstd::arithmetic::div_mod::lemma_fundamental_div_mod_converse(
            p as int, pw as int, q as int, rem as int);
        assert(dropped_bits(q as nat) == 0);
        assert(q * pw <= p) by (nonlinear_arith)
            requires p == q * pw + rem;
        assert(k > 0 ==> pw <= p) by (nonlinear_arith)
            requires p == q * pw + rem, k > 0 ==> q >= 0x80_0000, pw >= 1;
        assert(k == 0 ==> pw == 1);
        assert(q * pw >= q) by (nonlinear_arith)
            requires pw >= 1;
    }
    let up: bool = 2 * rem > pw || (2 * rem == pw && q % 2 == 1);
    let rounded: u64 = if up { q + 1 } else { q };
    proof {
        assert(rounded * pw <= q * pw + pw) by (nonlinear_arith)
            requires rounded <= q + 1;
        assert(k == 0 ==> !up);
        assert(rounded * pw >= q * pw) by (nonlinear_arith)
            requires rounded >= q, pw >= 1;
    }
    rounded * pw
}

/// Converts one floating-point sample, given by its bit pattern, to a 16-bit sample.
pub fn sample_to_i16(bits: u32) -> (r: i16)
    ensures
        r as int == sample_value(bits),
{
    let exp: u32 = (bits >> 23u32) & 0xffu32;
    let frac: u32 = bits & 0x7f_ffffu32;
    let negative: bool = (bits >> 31u32) == 1;
    assert(exp <= 255) by (bit_vector)
        requires exp == (bits >> 23u32) & 0xffu32;
    assert(frac <= 0x7f_ffff) by (bit_vector)
        requires frac == bits & 0x7f_ffffu32;
    if exp == 255 {
        if frac != 0 {
            return 0;
        }
        return if negative { -32768 } else { 32767 };
    }
    proof {
        vstd::arithmetic::power2::lemma2_to64();
    }
    let sig: u64 = if exp == 0 { frac as u64 } else { frac as u64 + 0x80_0000 };
    let scale: u32 = if exp == 0 { 1 } else { exp };
    let exact: u64 = sig * FULL_SCALE;
    assert(exact == significand_of(bits) * (FULL_SCALE as nat));
    let product: u64 = round_significand(exact);
    let magnitude: u64 = if scale >= 150 {
        proof {
            lemma_magnitude_above(product as nat, scale as nat);
        }
        32768
    } else {
        let shift: u32 = 150 - scale;
        proof {
            lemma_magnitude_below(product as nat, scale as nat);
        }
        if shift > 40 {
            proof {
                lemma_pow2_strictly_increases(40, shift as nat);
                vstd::arithmetic::power2::lemma2_to64_rest();
                vstd::arithmetic::div_mod::lemma_basic_div(product as int, pow2(shift as nat) as int);
            }
            0
        } else {
            proof {
                lemma_u64_shr_is_div(product, shift as u64);
            }
            product >> shift
        }
    };
    if negative {
        if magnitude > 32768 { -32768 } else { -(magnitude as i32) as i16 }
    } else {
        if magnitude > 32767 { 32767 } else { magnitude as i16 }
    }
}


/// The 16-bit samples for a buffer of floating-point samples, in order.
pub open spec fn converted(samples: Seq<u32>) -> Seq<int> {
    samples.map_values(|b: u32| sample_value(b))
}

/// Converts one buffer delivered by the input stream, sample by sample, keeping
/// the order of arrival.
pub fn convert_buffer(samples: &[u32]) -> (r: Vec<i16>)
    ensures
        r@.len() == samples@.len(),
        forall|i: int| 0 <= i < r@.len() ==> #[trigger] r@[i] as int == sample_value(samples@[i]),
{
    let mut out: Vec<i16> = Vec::with_capacity(samples.len());
    let mut i: usize = 0;
    while i < samples.len()
        invariant
            i <= samples@.len(),
            out@.len() == i,
            forall|j: int| 0 <= j < i ==> #[trigger] out@[j] as int == sample_value(samples@[j]),
        decreases samples@.len() - i,
    {
        out.push(sample_to_i16(samples[i]));
        i += 1;
    }
    out
}

/// Converting buffers one after another gives the conversion of all their
/// samples in arrival order: nothing is dropped, duplicated or reordered.
pub proof fn lemma_converted_concat(a: Seq<u32>, b: Seq<u32>)
    ensures
        converted(a + b) == converted(a) + converted(b),
{
    assert(converted(a + b) =~= converted(a) + converted(b));
}

/// The 16-bit samples for a sequence of buffers, buffer by buffer.
pub open spec fn converted_buffers(bufs: Seq<Seq<u32>>) -> Seq<int>
    decreases bufs.len(),
{
    if bufs.len() == 0 {
        Seq::empty()
    } else {
        converted(bufs[0]) + converted_buffers(bufs.subrange(1, bufs.len() as int))
    }
}

/// Converting N buffers one by one gives exactly the converted samples of all
/// of them in arrival order, as many as were delivered.
pub proof fn lemma_buffers_in_arrival_order(bufs: Seq<Seq<u32>>)
    ensures
        converted_buffers(bufs) == converted(bufs.flatten()),
        converted_buffers(bufs).len() == bufs.flatten().len(),
    decreases bufs.len(),
{
    if bufs.len() > 0 {
        let rest = bufs.subrange(1, bufs.len() as int);
        lemma_buffers_in_arrival_order(rest);
        assert(bufs.flatten() == bufs[0] + rest.flatten());
        lemma_converted_concat(bufs[0], rest.flatten());
    } else {
        assert(converted(bufs.flatten()) =~= Seq::empty());
    }
}

} // verus!
