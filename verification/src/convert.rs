//! Sample conversion: 16-bit linear PCM to gain-scaled 32-bit float PCM.
//!
//! The wire format downstream expects is little-endian IEEE-754
//! single-precision samples. Because verified code here works on integers
//! only, a float value is always handled as its 32-bit pattern:
//! [`sample_to_bits`] gives the exact pattern of `s / 32768` (exact because
//! a 16-bit sample fits a 24-bit significand), and the one genuinely
//! rounded step, multiplying by the gain, is delegated to an IEEE-754
//! software implementation behind [`mul_bits`].

use vstd::arithmetic::mul::lemma_mul_inequality;
use vstd::arithmetic::power2::{lemma2_to64, lemma_pow2_adds, lemma_pow2_strictly_increases, pow2};
use vstd::prelude::*;

use rustc_apfloat::Float;

use crate::pool::{acquire_transition, has_fit, BufferPool, PooledBuffer};

verus! {

/// Position of the highest set bit: the largest `k` with `pow2(k) <= m`,
/// and `0` for `m == 0`.
pub open spec fn floor_log2(m: nat) -> nat
    decreases m,
{
    if m < 2 {
        0
    } else {
        1 + floor_log2((m / 2) as nat)
    }
}

pub proof fn lemma_floor_log2_bounds(m: nat)
    requires
        1 <= m,
    ensures
        pow2(floor_log2(m)) <= m < pow2(floor_log2(m) + 1),
    decreases m,
{
    lemma2_to64();
    if m < 2 {
    } else {
        lemma_floor_log2_bounds((m / 2) as nat);
        lemma_pow2_adds(floor_log2((m / 2) as nat), 1);
        lemma_pow2_adds(floor_log2((m / 2) as nat) + 1, 1);
    }
}

/// The IEEE-754 single-precision bit pattern of the value `s / 32768`,
/// for a sample `s` in the 16-bit range.
///
/// The value is either zero or `(m / pow2(k)) * pow2(k - 15)` with
/// `m = |s|` and `k` the position of `m`'s highest bit, so the biased
/// exponent field is `k - 15 + 127 = k + 112` and the 23-bit fraction
/// field is `m - pow2(k)`, shifted left by `23 - k`. No rounding occurs:
/// every 16-bit magnitude fits the 24-bit significand exactly.
pub open spec fn sample_to_bits(s: int) -> u32
    recommends
        -0x8000 <= s <= 0x7FFF,
{
    if s == 0 {
        0u32
    } else {
        let sign: nat = if s < 0 {
            1
        } else {
            0
        };
        let m: nat = if s < 0 {
            (-s) as nat
        } else {
            s as nat
        };
        let k = floor_log2(m);
        (sign * 0x8000_0000 + (k + 112) * 0x80_0000 + (m - pow2(k)) * pow2((23 - k) as nat)) as u32
    }
}

/// Computes [`sample_to_bits`] with integer arithmetic.
pub fn sample_bits(s: i16) -> (r: u32)
    ensures
        r == sample_to_bits(s as int),
{
    if s == 0 {
        return 0u32;
    }
    let sign: u32 = if s < 0 {
        0x8000_0000u32
    } else {
        0u32
    };
    let m: u32 = if s < 0 {
        (-(s as i32)) as u32
    } else {
        s as u32
    };
    let ghost gk = floor_log2(m as nat);
    proof {
        lemma2_to64();
        lemma_floor_log2_bounds(m as nat);
        if gk > 15 {
            lemma_pow2_strictly_increases(15, gk);
        }
        assert(gk <= 15);
    }
    // k := floor_log2(m)
    let mut k: u32 = 0;
    let mut t: u32 = m;
    while t >= 2
        invariant
            1 <= t <= m,
            gk == k + floor_log2(t as nat),
            gk <= 15,
        decreases t,
    {
        t = t / 2;
        k = k + 1;
    }
    assert(k == gk);
    assert(k <= 15);
    // p := pow2(k)
    let mut p: u32 = 1;
    let mut j: u32 = 0;
    while j < k
        invariant
            j <= k <= 15,
            p == pow2(j as nat),
            p <= 0x8000,
        decreases k - j,
    {
        proof {
            lemma2_to64();
            lemma_pow2_adds(j as nat, 1);
            if ((j + 1) as nat) <= 15 {
                if ((j + 1) as nat) < 15 {
                    lemma_pow2_strictly_increases((j + 1) as nat, 15);
                }
            }
        }
        p = p * 2;
        j = j + 1;
    }
    // q := pow2(23 - k)
    let shift: u32 = 23 - k;
    let mut q: u32 = 1;
    let mut j2: u32 = 0;
    while j2 < shift
        invariant
            j2 <= shift <= 23,
            q == pow2(j2 as nat),
            q <= 0x80_0000,
        decreases shift - j2,
    {
        proof {
            lemma2_to64();
            lemma_pow2_adds(j2 as nat, 1);
            if ((j2 + 1) as nat) < 23 {
                lemma_pow2_strictly_increases((j2 + 1) as nat, 23);
            }
        }
        q = q * 2;
        j2 = j2 + 1;
    }
    proof {
        lemma2_to64();
        assert(p == pow2(k as nat));
        assert(q == pow2((23 - k) as nat));
        // p <= m < 2 * p, so m - p < p, and (m - p) * q < p * q == pow2(23)
        lemma_pow2_adds(k as nat, (23 - k) as nat);
        assert(p * q == pow2(23));
        lemma_pow2_adds(k as nat, 1);
        assert(pow2((k + 1) as nat) == 2 * p);
        assert(p <= m < 2 * p);
        assert(p * q == 0x80_0000);
        assert((m - p) * q < 0x80_0000) by (nonlinear_arith)
            requires
                p <= m < 2 * p,
                1 <= q,
                p * q == 0x80_0000,
        ;
        lemma_mul_inequality((k + 112) as int, 127, 0x80_0000);
        assert((k + 112) * 0x80_0000 <= 127 * 0x80_0000);
    }
    let frac: u32 = (m - p) * q;
    let r: u32 = sign + (k + 112) * 0x80_0000 + frac;
    proof {
        assert(r == sample_to_bits(s as int));
    }
    r
}

/// The real number a finite IEEE-754 single-precision pattern denotes,
/// expressed in units of `2^-149` (the smallest subnormal), so that every
/// finite value is an integer. For a zero or subnormal pattern this is
/// the fraction field itself; for a normal pattern, the fraction with its
/// implicit leading bit, scaled by the unbiased exponent.
pub open spec fn f32_val_in_quanta(bits: u32) -> int
    recommends
        (bits / 0x80_0000) % 0x100 < 0xFF,  // finite: not infinity or NaN
{
    let sign: int = if bits >= 0x8000_0000 {
        -1
    } else {
        1
    };
    let biased_exp: nat = (((bits as nat) / 0x80_0000) % 0x100) as nat;
    let frac: nat = ((bits as nat) % 0x80_0000) as nat;
    if biased_exp == 0 {
        sign * frac
    } else {
        sign * (0x80_0000 + frac) * pow2((biased_exp - 1) as nat)
    }
}

/// Exactness of normalization: the pattern [`sample_to_bits`] produces
/// denotes exactly `s / 32768` — in `2^-149` quanta, `s * 2^134`. Nothing
/// of the sample is lost before the gain multiply, which is the one
/// rounding step of the conversion.
pub proof fn lemma_sample_to_bits_exact(s: int)
    requires
        -0x8000 <= s <= 0x7FFF,
    ensures
        f32_val_in_quanta(sample_to_bits(s)) == s * pow2(134),
{
    lemma2_to64();
    vstd::arithmetic::power2::lemma2_to64_rest();
    if s == 0 {
    } else {
        let sign: nat = if s < 0 {
            1
        } else {
            0
        };
        let m: nat = if s < 0 {
            (-s) as nat
        } else {
            s as nat
        };
        lemma_floor_log2_bounds(m);
        let k = floor_log2(m);
        if k > 15 {
            lemma_pow2_strictly_increases(15, k);
        }
        let frac: nat = ((m - pow2(k)) * pow2((23 - k) as nat)) as nat;
        let bits = sample_to_bits(s);
        lemma_pow2_adds(k, (23 - k) as nat);
        lemma_pow2_adds(k, 1);
        assert(m < 2 * pow2(k));
        assert(frac < 0x80_0000) by (nonlinear_arith)
            requires
                pow2(k) <= m < 2 * pow2(k),
                frac == (m - pow2(k)) * pow2((23 - k) as nat),
                pow2(k) * pow2((23 - k) as nat) == 0x80_0000,
                1 <= pow2((23 - k) as nat),
        ;
        assert(bits == sign * 0x8000_0000 + (k + 112) * 0x80_0000 + frac);
        assert((bits as nat) % 0x80_0000 == frac);
        assert(((bits as nat) / 0x80_0000) % 0x100 == k + 112);
        assert(bits >= 0x8000_0000 <==> s < 0);
        // (2^23 + (m - 2^k) * 2^(23-k)) == m * 2^(23-k)
        assert(0x80_0000 + frac == m * pow2((23 - k) as nat)) by (nonlinear_arith)
            requires
                pow2(k) <= m,
                frac == (m - pow2(k)) * pow2((23 - k) as nat),
                pow2(k) * pow2((23 - k) as nat) == 0x80_0000,
        ;
        // and 2^(23-k) * 2^(k + 111) == 2^134
        lemma_pow2_adds((23 - k) as nat, (k + 111) as nat);
        assert((0x80_0000 + frac) * pow2((k + 111) as nat) == m * pow2(134)) by (nonlinear_arith)
            requires
                0x80_0000 + frac == m * pow2((23 - k) as nat),
                pow2((23 - k) as nat) * pow2((k + 111) as nat) == pow2(134),
        ;
        let v = f32_val_in_quanta(bits);
        let sgn: int = if s < 0 {
            -1
        } else {
            1
        };
        assert(v == (sgn * (0x80_0000 + frac as int)) * pow2((k + 111) as nat));
        assert((sgn * (0x80_0000 + frac as int)) * pow2((k + 111) as nat) == s * pow2(134))
            by (nonlinear_arith)
            requires
                (0x80_0000 + frac) * pow2((k + 111) as nat) == m * pow2(134),
                (sgn == 1 && s == m) || (sgn == -1 && s == -(m as int)),
        ;
    }
}

/// The bit pattern that IEEE-754 single-precision multiplication (round
/// to nearest, ties to even) yields for the two operand patterns; a pure
/// function of the two words, computed by `rustc_apfloat`.
pub uninterp spec fn mul_bits(a: u32, b: u32) -> u32;

/// Relies on rustc_apfloat's `IeeeFloat<SingleS>::mul_r`: a
/// correctly-rounded (nearest, ties to even) IEEE-754 single-precision
/// product, depending on the two bit patterns alone.
#[verifier::external_body]
pub fn mul_gain(a: u32, b: u32) -> (r: u32)
    ensures
        r == mul_bits(a, b),
{
    let x = rustc_apfloat::ieee::Single::from_bits(a as u128);
    let y = rustc_apfloat::ieee::Single::from_bits(b as u128);
    x.mul_r(y, rustc_apfloat::Round::NearestTiesToEven).value.to_bits() as u32
}

/// The four bytes of `x`, least significant first.
pub open spec fn le_bytes_of(x: u32) -> Seq<u8> {
    seq![
        (x & 0xFF) as u8,
        ((x >> 8) & 0xFF) as u8,
        ((x >> 16) & 0xFF) as u8,
        ((x >> 24) & 0xFF) as u8,
    ]
}

/// One converted sample: the little-endian bytes of the normalized
/// sample's pattern multiplied by the gain pattern.
pub open spec fn converted_sample(s: i16, gain_bits: u32) -> Seq<u8> {
    le_bytes_of(mul_bits(sample_to_bits(s as int), gain_bits))
}

/// The full converted frame: each sample's four bytes, in sample order.
pub open spec fn converted_bytes(samples: Seq<i16>, gain_bits: u32) -> Seq<u8>
    decreases samples.len(),
{
    if samples.len() == 0 {
        Seq::<u8>::empty()
    } else {
        converted_bytes(samples.drop_last(), gain_bits) + converted_sample(
            samples.last(),
            gain_bits,
        )
    }
}

pub proof fn lemma_converted_bytes_len(samples: Seq<i16>, gain_bits: u32)
    ensures
        converted_bytes(samples, gain_bits).len() == 4 * samples.len(),
    decreases samples.len(),
{
    if samples.len() > 0 {
        lemma_converted_bytes_len(samples.drop_last(), gain_bits);
    }
}

/// Appends the converted form of `samples` to `buf.data`, four bytes per
/// sample in sample order.
pub fn fill_converted(buf: &mut PooledBuffer, samples: &Vec<i16>, gain_bits: u32)
    requires
        old(buf).data@.len() == 0,
        samples@.len() * 4 <= usize::MAX,
    ensures
        final(buf).data@ == converted_bytes(samples@, gain_bits),
        final(buf).cap == old(buf).cap,
{
    let n = samples.len();
    let mut i: usize = 0;
    proof {
        assert(samples@.take(0int) =~= Seq::<i16>::empty());
    }
    while i < n
        invariant
            n == samples@.len(),
            0 <= i <= n,
            samples@.len() * 4 <= usize::MAX,
            buf.data@ == converted_bytes(samples@.take(i as int), gain_bits),
            buf.cap == old(buf).cap,
        decreases n - i,
    {
        proof {
            lemma_converted_bytes_len(samples@.take(i as int), gain_bits);
        }
        let sb = sample_bits(samples[i]);
        let scaled = mul_gain(sb, gain_bits);
        buf.data.push((scaled & 0xFF) as u8);
        buf.data.push(((scaled >> 8) & 0xFF) as u8);
        buf.data.push(((scaled >> 16) & 0xFF) as u8);
        buf.data.push(((scaled >> 24) & 0xFF) as u8);
        proof {
            assert(samples@.take(i + 1).drop_last() =~= samples@.take(i as int));
            assert(samples@.take(i + 1).last() == samples@[i as int]);
            assert(buf.data@ =~= converted_bytes(samples@.take(i + 1), gain_bits));
        }
        i += 1;
    }
    proof {
        assert(samples@.take(n as int) =~= samples@);
    }
}

/// Converts one frame: borrows a buffer from the pool sized for
/// `samples.len() * 4` bytes and fills it with the gain-scaled
/// little-endian float samples. Also reports whether the buffer was
/// reused from the pool, for the caller's statistics.
pub fn convert_voice_data(pool: &mut BufferPool, samples: &Vec<i16>, gain_bits: u32) -> (r: (
    PooledBuffer,
    bool,
))
    requires
        samples@.len() * 4 <= usize::MAX,
    ensures
        r.0.data@ == converted_bytes(samples@, gain_bits),
        r.0.cap >= samples@.len() * 4,
        r.1 == has_fit(old(pool).caps(), (samples@.len() * 4) as usize),
        acquire_transition(
            old(pool).caps(),
            final(pool).caps(),
            r.0.cap,
            r.1,
            (samples@.len() * 4) as usize,
        ),
{
    let needed: usize = samples.len() * 4;
    let (mut buf, reused) = pool.acquire(needed);
    fill_converted(&mut buf, samples, gain_bits);
    (buf, reused)
}

} // verus!
