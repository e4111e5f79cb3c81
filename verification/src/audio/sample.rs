//! Conversion of normalized samples to 16-bit signed PCM, and back.
//!
//! A sample is an IEEE-754 single-precision number, handled here by its bit
//! pattern: one sign bit, eight exponent bits, twenty-three fraction bits.
//! The conversion clamps the sample to `[-1, 1]`, scales it by `32767` and
//! rounds to the nearest integer, halves away from zero. It is computed
//! exactly, in integers. Decoding gives the single-precision number nearest
//! to the stored value divided by `32767`; encoding that number gives the
//! stored value back.

use vstd::arithmetic::div_mod::{lemma_div_is_ordered, lemma_div_multiples_vanish_quotient};
use vstd::arithmetic::power2::*;
use vstd::bits::*;
use vstd::prelude::*;

verus! {

/// Largest magnitude of an encoded sample.
pub const FULL_SCALE: u16 = 32767;

/// Bit pattern of the sample `1.0`.
pub const ONE_BITS: u32 = 0x3f80_0000;

/// The sign bit of a bit pattern.
pub const SIGN_BIT: u32 = 0x8000_0000;

/// The eight exponent bits of a sample.
pub open spec fn exponent_field(bits: u32) -> u32 {
    (bits >> 23) & 0xff
}

/// The twenty-three fraction bits of a sample.
pub open spec fn fraction_field(bits: u32) -> u32 {
    bits & 0x7f_ffff
}

/// Whether the sign bit of a sample is set.
pub open spec fn is_negative(bits: u32) -> bool {
    bits & SIGN_BIT != 0
}

/// Whether a bit pattern is not a number.
pub open spec fn is_nan(bits: u32) -> bool {
    exponent_field(bits) == 255 && fraction_field(bits) != 0
}

/// Whether the magnitude of a sample is at least one (infinities included).
pub open spec fn is_saturated(bits: u32) -> bool {
    !is_nan(bits) && exponent_field(bits) >= 127
}

/// Numerator of the magnitude of a sample below one: the magnitude is
/// `significand(bits) / 2^scale(bits)`.
pub open spec fn significand(bits: u32) -> nat {
    if exponent_field(bits) == 0 {
        fraction_field(bits) as nat
    } else {
        (fraction_field(bits) + 0x80_0000) as nat
    }
}

/// Binary logarithm of the denominator of the magnitude of a sample below
/// one.
pub open spec fn scale(bits: u32) -> nat {
    if exponent_field(bits) == 0 {
        149
    } else {
        (150 - exponent_field(bits)) as nat
    }
}

/// `m * 32767 / 2^k`, rounded to the nearest integer, a half going up.
pub open spec fn rounded_scaled(m: nat, k: nat) -> int {
    (2 * (m as int) * (FULL_SCALE as int) + pow2(k) as int) / (2 * (pow2(k) as int))
}

/// Magnitude of the encoded sample: `32767` for a sample of magnitude one or
/// more, `0` for a pattern that is not a number, and otherwise
/// `significand * 32767 / 2^scale` rounded to the nearest integer, a half
/// going up.
pub open spec fn quantized_magnitude(bits: u32) -> nat {
    if is_nan(bits) {
        0
    } else if is_saturated(bits) {
        FULL_SCALE as nat
    } else {
        rounded_scaled(significand(bits), scale(bits)) as nat
    }
}

/// The encoded sample: the magnitude with the sign of the sample.
pub open spec fn quantized(bits: u32) -> int {
    if is_negative(bits) {
        -(quantized_magnitude(bits) as int)
    } else {
        quantized_magnitude(bits) as int
    }
}

/// The encoding of a whole chunk, sample by sample.
pub open spec fn quantized_seq(samples: Seq<u32>) -> Seq<i16> {
    Seq::new(samples.len(), |i: int| quantized(samples[i]) as i16)
}

/// Encodes one sample.
pub fn quantize(bits: u32) -> (q: i16)
    ensures
        q == quantized(bits),
        -(FULL_SCALE as int) <= q <= FULL_SCALE as int,
{
    let exponent: u32 = (bits >> 23) & 0xff;
    let fraction: u32 = bits & 0x7f_ffff;
    let negative: bool = bits & SIGN_BIT != 0;
    assert(exponent <= 255 && fraction <= 0x7f_ffff) by (bit_vector)
        requires
            exponent == (bits >> 23) & 0xff,
            fraction == bits & 0x7f_ffff,
    ;
    let magnitude: i16 = if exponent == 255 && fraction != 0 {
        0
    } else if exponent >= 127 {
        32767
    } else {
        let m: u64 = if exponent == 0 {
            fraction as u64
        } else {
            (fraction + 0x80_0000) as u64
        };
        let k: u64 = if exponent == 0 {
            149
        } else {
            (150 - exponent) as u64
        };
        proof {
            lemma_rounding_bounds(m as nat, k as nat);
        }
        if k >= 40 {
            0
        } else {
            proof {
                lemma_u64_pow2_no_overflow(k as nat);
                lemma_u64_shl_is_mul(1, k);
                lemma_pow2_unfold((k + 1) as nat);
                lemma_pow2_strictly_increases(k as nat, 40);
                lemma2_to64_rest();
            }
            let half_step: u64 = 1u64 << k;
            let doubled: u64 = 2 * m * 32767 + half_step;
            proof {
                lemma_u64_shr_is_div(doubled, (k + 1) as u64);
            }
            (doubled >> (k + 1)) as i16
        }
    };
    if negative {
        -magnitude
    } else {
        magnitude
    }
}

/// Encodes a chunk: every sample in order, none added or dropped.
pub fn quantize_chunk(samples: &Vec<u32>) -> (pcm: Vec<i16>)
    ensures
        pcm@ == quantized_seq(samples@),
{
    let mut pcm: Vec<i16> = Vec::with_capacity(samples.len());
    let mut i: usize = 0;
    while i < samples.len()
        invariant
            i <= samples.len(),
            pcm@ == quantized_seq(samples@.take(i as int)),
        decreases samples.len() - i,
    {
        let q: i16 = quantize(samples[i]);
        pcm.push(q);
        i += 1;
        assert(pcm@ =~= quantized_seq(samples@.take(i as int)));
    }
    assert(samples@.take(i as int) =~= samples@);
    pcm
}

/// Encoding goes sample by sample: the encoding of two chunks one after the
/// other is the encoding of the first followed by that of the second.
pub proof fn lemma_quantized_seq_concat(first: Seq<u32>, second: Seq<u32>)
    ensures
        quantized_seq(first + second) == quantized_seq(first) + quantized_seq(second),
{
    assert(quantized_seq(first + second) =~= quantized_seq(first) + quantized_seq(second));
}

/// An encoded sample never leaves the symmetric 16-bit range.
pub proof fn lemma_quantized_range(bits: u32)
    ensures
        -(FULL_SCALE as int) <= quantized(bits) <= FULL_SCALE as int,
{
    lemma_fields(bits);
    if !is_nan(bits) && !is_saturated(bits) {
        lemma_rounding_bounds(significand(bits), scale(bits));
    }
}

/// Flipping the sign of a sample negates its encoding.
pub proof fn lemma_quantized_odd(bits: u32)
    ensures
        quantized(bits ^ SIGN_BIT) == -quantized(bits),
{
    let flipped = bits ^ SIGN_BIT;
    assert(exponent_field(flipped) == exponent_field(bits) && fraction_field(flipped)
        == fraction_field(bits) && is_negative(flipped) == !is_negative(bits)) by (bit_vector)
        requires
            flipped == bits ^ 0x8000_0000u32,
    ;
}

/// For a sample of magnitude below one, the encoding is off from the exact
/// scaled value `32767 * significand / 2^scale` by at most one half.
pub proof fn lemma_quantized_error(bits: u32)
    requires
        !is_nan(bits),
        !is_saturated(bits),
    ensures
        -(pow2(scale(bits)) as int) < 2 * (quantized_magnitude(bits) * pow2(scale(bits)) - FULL_SCALE
            * significand(bits)) <= pow2(scale(bits)) as int,
{
    let m = significand(bits) as int;
    let p = pow2(scale(bits)) as int;
    let q = rounded_scaled(significand(bits), scale(bits));
    lemma_fields(bits);
    lemma_rounding_bounds(significand(bits), scale(bits));
    lemma_pow2_pos(scale(bits));
    let n = 2 * m * 32767 + p;
    assert(q == n / (2 * p));
    assert(n == (2 * p) * (n / (2 * p)) + n % (2 * p) && 0 <= n % (2 * p) < 2 * p) by (nonlinear_arith)
        requires
            p > 0,
    ;
    assert(2 * (q * p - 32767 * m) == p - n % (2 * p)) by (nonlinear_arith)
        requires
            n == 2 * m * 32767 + p,
            n == (2 * p) * q + n % (2 * p),
    ;
}

/// The encoding is the nearest integer: a sample of magnitude below one is
/// encoded with the magnitude `k` exactly if its exact scaled value
/// `32767 * significand / 2^scale` lies within half a step of `k`, the
/// lower end included.
pub proof fn lemma_quantized_nearest(bits: u32, k: int)
    requires
        !is_nan(bits),
        !is_saturated(bits),
    ensures
        quantized_magnitude(bits) == k <==> -(pow2(scale(bits)) as int) <= 2 * (FULL_SCALE
            * significand(bits) - k * pow2(scale(bits))) < pow2(scale(bits)) as int,
{
    let m = significand(bits) as int;
    let p = pow2(scale(bits)) as int;
    let q = rounded_scaled(significand(bits), scale(bits));
    lemma_quantized_error(bits);
    lemma_fields(bits);
    lemma_rounding_bounds(significand(bits), scale(bits));
    lemma_pow2_pos(scale(bits));
    assert(quantized_magnitude(bits) == q);
    assert(-p < 2 * (q * p - 32767 * m) <= p);
    if -p <= 2 * (32767 * m - k * p) < p {
        assert(q == k) by (nonlinear_arith)
            requires
                -p < 2 * (q * p - 32767 * m) <= p,
                -p <= 2 * (32767 * m - k * p) < p,
                p > 0,
        ;
    }
}

/// Whether a bit pattern is the sample that the stored value `k` decodes
/// to: the single-precision number nearest to `k / 32767`. For `k = 0` that
/// is zero; otherwise it is the number with the sign of `k`, in normal form,
/// whose magnitude `significand / 2^scale` differs from `|k| / 32767` by
/// less than half a unit of its last place.
pub open spec fn is_decoding(bits: u32, k: int) -> bool {
    let n = if k < 0 {
        -k
    } else {
        k
    };
    if k == 0 {
        bits == 0
    } else {
        &&& is_negative(bits) == (k < 0)
        &&& 1 <= exponent_field(bits) <= 127
        &&& -(FULL_SCALE as int) < 2 * (FULL_SCALE * significand(bits) - n * pow2(scale(bits)))
            < FULL_SCALE as int
    }
}

/// Decodes a stored value: the sample `k / 32767` as a single-precision
/// number, rounded to the nearest. Encoding the result gives the stored
/// value back, for every value that an encoding can be; the one value below
/// that range decodes to a sample below minus one, which is encoded as the
/// least value of the range.
pub fn dequantize(k: i16) -> (bits: u32)
    ensures
        is_decoding(bits, k as int),
        -(FULL_SCALE as int) <= k ==> quantized(bits) == k,
        k < -(FULL_SCALE as int) ==> quantized(bits) == -(FULL_SCALE as int),
{
    if k == 0 {
        assert(exponent_field(0) == 0 && fraction_field(0) == 0 && !is_negative(0)) by (bit_vector);
        proof {
            lemma_rounding_bounds(0, 149);
        }
        return 0;
    }
    let negative: bool = k < 0;
    let n: u64 = if negative {
        (-(k as i32)) as u64
    } else {
        k as u64
    };
    proof {
        lemma2_to64();
    }
    let mut s: u32 = 23;
    let mut x: u64 = n * 0x80_0000;
    while x < 0x80_0000 * 32767
        invariant
            1 <= n <= 32768,
            23 <= s <= 38,
            x == n * pow2(s as nat),
            x < 0x100_0000 * 32767,
            s == 23 ==> x == n * 0x80_0000,
            n >= 32767 ==> s == 23,
        decreases 38 - s,
    {
        proof {
            lemma_pow2_unfold((s + 1) as nat);
            lemma2_to64_rest();
            assert(s < 38) by {
                if s == 38 {
                    assert(pow2(38) == 0x40_0000_0000);
                    assert(n * pow2(38) >= 0x40_0000_0000) by (nonlinear_arith)
                        requires
                            n >= 1,
                            pow2(38) == 0x40_0000_0000,
                    ;
                }
            }
            assert(n * (2 * pow2(s as nat)) == 2 * (n * pow2(s as nat))) by (nonlinear_arith);
        }
        x = x * 2;
        s = s + 1;
    }
    let m: u64 = (2 * x + 32767) / 65534;
    let exponent: u32 = 150 - s;
    proof {
        assert(x % 0x80_0000 == 0) by {
            lemma_pow2_adds(23, (s - 23) as nat);
            let t = pow2((s - 23) as nat) as int;
            assert(x == 0x80_0000 * (n * t)) by (nonlinear_arith)
                requires
                    x == n * pow2(s as nat),
                    pow2(s as nat) == 0x80_0000 * t,
            ;
            assert((0x80_0000 * (n * t)) % 0x80_0000 == 0) by (nonlinear_arith)
                requires
                    n * t >= 0,
            ;
        }
        assert(x <= 0x100_0000 * 32767 - 0x80_0000);
    }
    assert(0x80_0000 <= m < 0x100_0000);
    let fraction: u32 = (m - 0x80_0000) as u32;
    let magnitude: u32 = (exponent << 23) | fraction;
    let bits: u32 = if negative {
        magnitude | SIGN_BIT
    } else {
        magnitude
    };
    proof {
        assert(exponent_field(bits) == exponent && fraction_field(bits) == fraction && is_negative(
            bits,
        ) == negative) by (bit_vector)
            requires
                exponent <= 127,
                fraction <= 0x7f_ffff,
                magnitude == (exponent << 23) | fraction,
                bits == (if negative {
                    magnitude | 0x8000_0000u32
                } else {
                    magnitude
                }),
        ;
        assert(significand(bits) == m);
        assert(scale(bits) == s);
        let p = pow2(s as nat) as int;
        assert(x == n * p);
        assert(-32767 < 2 * (32767 * m - x) < 32767);
        if n < 32767 {
            assert(s >= 24);
            lemma_pow2_strictly_increases(23, s as nat);
            assert(p > 32767);
            assert(!is_saturated(bits) && !is_nan(bits));
            lemma_quantized_nearest(bits, n as int);
            assert(quantized_magnitude(bits) == n);
        } else {
            assert(s == 23);
            assert(is_saturated(bits));
            assert(quantized_magnitude(bits) == 32767);
        }
    }
    bits
}

/// The magnitude bits of a sample: everything but its sign.
pub open spec fn magnitude_bits(bits: u32) -> u32 {
    bits & 0x7fff_ffff
}

/// The louder sample never gets the smaller encoding: between two samples
/// that are numbers, the one with the larger magnitude is encoded with a
/// magnitude that is at least as large.
pub proof fn lemma_quantized_monotonic(quiet: u32, loud: u32)
    requires
        !is_nan(quiet),
        !is_nan(loud),
        magnitude_bits(quiet) <= magnitude_bits(loud),
    ensures
        quantized_magnitude(quiet) <= quantized_magnitude(loud),
{
    lemma_fields(quiet);
    lemma_fields(loud);
    let ea = exponent_field(quiet);
    let eb = exponent_field(loud);
    let fa = fraction_field(quiet);
    let fb = fraction_field(loud);
    assert(ea < eb || (ea == eb && fa <= fb)) by (bit_vector)
        requires
            quiet & 0x7fff_ffffu32 <= loud & 0x7fff_ffffu32,
            ea == (quiet >> 23) & 0xff,
            eb == (loud >> 23) & 0xff,
            fa == quiet & 0x7f_ffff,
            fb == loud & 0x7f_ffff,
    ;
    if is_saturated(loud) {
        if !is_saturated(quiet) {
            lemma_rounding_bounds(significand(quiet), scale(quiet));
        }
    } else {
        let ma = significand(quiet);
        let mb = significand(loud);
        let ka = scale(quiet);
        let kb = scale(loud);
        assert(ka >= kb);
        let d = (ka - kb) as nat;
        lemma_rounded_scaled_rescale(mb, kb, d);
        lemma_pow2_pos(d);
        lemma_pow2_pos(ka);
        lemma2_to64();
        assert(ka == kb + d);
        let t = pow2(d) as int;
        assert(t >= 1);
        assert(ma as int <= (mb as int) * t) by {
            if ea == eb {
                assert(ka == kb);
                assert(d == 0);
                assert(t == 1);
                assert(ma <= mb);
                assert((mb as int) * 1 == mb as int);
            } else {
                assert(ea < eb);
                assert(eb >= 1);
                assert(mb >= 0x80_0000);
                if ea == 0 {
                    assert(ma < 0x80_0000);
                    assert((mb as int) * t >= mb as int) by (nonlinear_arith)
                        requires
                            t >= 1,
                            mb >= 0,
                    ;
                } else {
                    assert(ka == 150 - ea && kb == 150 - eb);
                    assert(d >= 1);
                    lemma_pow2_unfold(d);
                    lemma_pow2_pos((d - 1) as nat);
                    assert(t >= 2);
                    assert(ma < 0x100_0000);
                    assert((mb as int) * t >= (mb as int) * 2) by (nonlinear_arith)
                        requires
                            t >= 2,
                            mb >= 0,
                    ;
                }
            }
        }
        assert((mb * pow2(d)) as int == (mb as int) * t) by (nonlinear_arith)
            requires
                t == pow2(d),
                mb >= 0,
                t >= 1,
        ;
        let p = pow2(ka) as int;
        assert(2 * (ma as int) * 32767 + p <= 2 * ((mb * pow2(d)) as int) * 32767 + p)
            by (nonlinear_arith)
            requires
                ma as int <= (mb as int) * t,
                (mb * pow2(d)) as int == (mb as int) * t,
        ;
        lemma_div_is_ordered(
            2 * (ma as int) * 32767 + p,
            2 * ((mb * pow2(d)) as int) * 32767 + p,
            2 * p,
        );
        lemma_rounding_bounds(ma, ka);
    }
}

/// Scaling numerator and denominator by the same power of two leaves the
/// rounded value as it is.
proof fn lemma_rounded_scaled_rescale(m: nat, k: nat, d: nat)
    ensures
        rounded_scaled(m * pow2(d), k + d) == rounded_scaled(m, k),
{
    lemma_pow2_adds(k, d);
    lemma_pow2_pos(k);
    lemma_pow2_pos(d);
    let t = pow2(d) as int;
    let p = pow2(k) as int;
    let n = 2 * (m as int) * 32767 + p;
    assert(2 * ((m * pow2(d)) as int) * 32767 + pow2(k + d) as int == t * n) by (nonlinear_arith)
        requires
            pow2(k + d) == pow2(k) * pow2(d),
            t == pow2(d),
            p == pow2(k),
            n == 2 * (m as int) * 32767 + p,
    ;
    assert(2 * (pow2(k + d) as int) == t * (2 * p)) by (nonlinear_arith)
        requires
            pow2(k + d) == pow2(k) * pow2(d),
            t == pow2(d),
            p == pow2(k),
    ;
    assert(n >= 0) by (nonlinear_arith)
        requires
            n == 2 * (m as int) * 32767 + p,
            p > 0,
            m >= 0,
    ;
    lemma_div_multiples_vanish_quotient(t, n, 2 * p);
}

/// The fields of any bit pattern are in range; below saturation the
/// significand has at most twenty-four bits and the scale is at least
/// twenty-four.
proof fn lemma_fields(bits: u32)
    ensures
        exponent_field(bits) <= 255,
        fraction_field(bits) <= 0x7f_ffff,
        significand(bits) < 0x100_0000,
        exponent_field(bits) < 127 ==> 24 <= scale(bits) <= 149,
{
    assert(((bits >> 23) & 0xff) <= 255 && (bits & 0x7f_ffff) <= 0x7f_ffff) by (bit_vector);
}

/// Rounding `m * 32767 / 2^k` never exceeds full scale when `m < 2^24` and
/// `k >= 24`, and gives zero from `k = 40` on.
proof fn lemma_rounding_bounds(m: nat, k: nat)
    requires
        m < 0x100_0000,
        k >= 24,
    ensures
        0 <= rounded_scaled(m, k) <= 32767,
        k >= 40 ==> rounded_scaled(m, k) == 0,
{
    lemma2_to64();
    lemma2_to64_rest();
    lemma_pow2_pos(k);
    let p = pow2(k) as int;
    if k > 24 {
        lemma_pow2_strictly_increases(24, k);
    }
    assert(p >= 0x100_0000);
    let n = 2 * (m as int) * 32767 + p;
    assert(0 <= n < 2 * p * 32768) by (nonlinear_arith)
        requires
            n == 2 * (m as int) * 32767 + p,
            0 <= m < 0x100_0000,
            p >= 0x100_0000,
    ;
    assert(0 <= n / (2 * p) < 32768) by (nonlinear_arith)
        requires
            0 <= n < 2 * p * 32768,
            p > 0,
    ;
    if k >= 40 {
        if k > 40 {
            lemma_pow2_strictly_increases(40, k);
        }
        assert(p >= 0x100_0000_0000);
        assert(n / (2 * p) == 0) by (nonlinear_arith)
            requires
                n == 2 * (m as int) * 32767 + p,
                0 <= m < 0x100_0000,
                p >= 0x100_0000_0000,
        ;
    }
}

} // verus!
