use vstd::prelude::*;

verus! {

/// Lowest fader position, in thousandths of a dB.
pub const MIN_FADER_MDB: i64 = -96000;

/// Highest fader position, in thousandths of a dB.
pub const MAX_FADER_MDB: i64 = 10000;

/// Gain word of a channel at 0 dB.
pub const CHANNEL_UNITY: u32 = 0x0100_0000;

/// Gain word that silences a route.
pub const MUTED: u32 = 0x0000_0000;

/// Gain word that the bypass preset writes for a route at full level.
pub const UNITY: u32 = 0xBC00_0000;

/// Meter word of a signal at 0 dBFS.
pub const ZERO_DBFS: u32 = 0x8000_0000;

/// Meter reading that stands for minus infinity (a meter word of zero).
pub const NEG_INFINITY_MDB: i64 = i64::MIN;

/// 2^60, the scale of the fixed-point gain factors.
pub const Q60: u128 = 0x1000_0000_0000_0000;

/// 20 * log10(2) in thousandths of a dB, scaled by 10^9.
pub const MDB_PER_OCTAVE_E9: u128 = 6020599913280;

pub open spec fn clamp_spec(d: int, lo: int, hi: int) -> int {
    if d < lo {
        lo
    } else if d > hi {
        hi
    } else {
        d
    }
}

/// A level in thousandths of a dB, brought into the fader range.
pub open spec fn clamp_fader_spec(d: int) -> int {
    clamp_spec(d, MIN_FADER_MDB as int, MAX_FADER_MDB as int)
}

/// A clamped value lies in [lo, hi], and a value out of bounds becomes the nearest bound.
pub proof fn lemma_clamp_nearest(d: int, lo: int, hi: int)
    requires
        lo <= hi,
    ensures
        lo <= clamp_spec(d, lo, hi) <= hi,
        d < lo ==> clamp_spec(d, lo, hi) == lo,
        d > hi ==> clamp_spec(d, lo, hi) == hi,
        lo <= d <= hi ==> clamp_spec(d, lo, hi) == d,
{
}

/// Clamps a level in thousandths of a dB to the fader range.
pub fn clamp_mdb(d: i64) -> (r: i64)
    ensures
        r == clamp_fader_spec(d as int),
{
    if d < MIN_FADER_MDB {
        MIN_FADER_MDB
    } else if d > MAX_FADER_MDB {
        MAX_FADER_MDB
    } else {
        d
    }
}

/// Gain factor for whole dB steps: 10^(a/20), scaled by 2^60.
pub open spec fn step_db(i: int) -> int {
    if i == 0 { 1152921504606846976 }
    else if i == 1 { 1293599204530468460 }
    else if i == 2 { 1451442179953525678 }
    else if i == 3 { 1628544911260127140 }
    else if i == 4 { 1827257444093416062 }
    else if i == 5 { 2050216573033451057 }
    else if i == 6 { 2300380830259261285 }
    else if i == 7 { 2581069743473363665 }
    else if i == 8 { 2896007884017548777 }
    else if i == 9 { 3249374289671669878 }
    else if i == 10 { 3645857917945947428 }
    else if i == 11 { 4090719865698286571 }
    else if i == 12 { 4589863180693126954 }
    else if i == 13 { 5149911191458795808 }
    else if i == 14 { 5778295394832980954 }
    else if i == 15 { 6483354067410654807 }
    else if i == 16 { 7274442909408450558 }
    else if i == 17 { 8162059189122347523 }
    else if i == 18 { 9157981035300193419 }
    else { 10275423725754217862 }
}

fn step_db_exec(i: u64) -> (r: u128)
    requires
        i < 20,
    ensures
        r == step_db(i as int),
        r < 10 * Q60,
{
    if i == 0 { 1152921504606846976 }
    else if i == 1 { 1293599204530468460 }
    else if i == 2 { 1451442179953525678 }
    else if i == 3 { 1628544911260127140 }
    else if i == 4 { 1827257444093416062 }
    else if i == 5 { 2050216573033451057 }
    else if i == 6 { 2300380830259261285 }
    else if i == 7 { 2581069743473363665 }
    else if i == 8 { 2896007884017548777 }
    else if i == 9 { 3249374289671669878 }
    else if i == 10 { 3645857917945947428 }
    else if i == 11 { 4090719865698286571 }
    else if i == 12 { 4589863180693126954 }
    else if i == 13 { 5149911191458795808 }
    else if i == 14 { 5778295394832980954 }
    else if i == 15 { 6483354067410654807 }
    else if i == 16 { 7274442909408450558 }
    else if i == 17 { 8162059189122347523 }
    else if i == 18 { 9157981035300193419 }
    else { 10275423725754217862 }
}

/// Gain factor for tenths of a dB: 10^(b/200), scaled by 2^60.
pub open spec fn step_tenth(i: int) -> int {
    if i == 0 { 1152921504606846976 }
    else if i == 1 { 1166271706434695346 }
    else if i == 2 { 1179776496313969701 }
    else if i == 3 { 1193437664289940653 }
    else if i == 4 { 1207257021135626152 }
    else if i == 5 { 1221236398591807481 }
    else if i == 6 { 1235377649609824518 }
    else if i == 7 { 1249682648597182427 }
    else if i == 8 { 1264153291666002342 }
    else { 1278791496884348975 }
}

fn step_tenth_exec(i: u64) -> (r: u128)
    requires
        i < 10,
    ensures
        r == step_tenth(i as int),
        r < 2 * Q60,
{
    if i == 0 { 1152921504606846976 }
    else if i == 1 { 1166271706434695346 }
    else if i == 2 { 1179776496313969701 }
    else if i == 3 { 1193437664289940653 }
    else if i == 4 { 1207257021135626152 }
    else if i == 5 { 1221236398591807481 }
    else if i == 6 { 1235377649609824518 }
    else if i == 7 { 1249682648597182427 }
    else if i == 8 { 1264153291666002342 }
    else { 1278791496884348975 }
}

/// Gain factor for hundredths of a dB: 10^(c/2000), scaled by 2^60.
pub open spec fn step_hundredth(i: int) -> int {
    if i == 0 { 1152921504606846976 }
    else if i == 1 { 1154249618919152828 }
    else if i == 2 { 1155579263160096062 }
    else if i == 3 { 1156910439092086444 }
    else if i == 4 { 1158243148479563961 }
    else if i == 5 { 1159577393089001151 }
    else if i == 6 { 1160913174688905455 }
    else if i == 7 { 1162250495049821553 }
    else if i == 8 { 1163589355944333713 }
    else { 1164929759147068145 }
}

fn step_hundredth_exec(i: u64) -> (r: u128)
    requires
        i < 10,
    ensures
        r == step_hundredth(i as int),
        r < 2 * Q60,
{
    if i == 0 { 1152921504606846976 }
    else if i == 1 { 1154249618919152828 }
    else if i == 2 { 1155579263160096062 }
    else if i == 3 { 1156910439092086444 }
    else if i == 4 { 1158243148479563961 }
    else if i == 5 { 1159577393089001151 }
    else if i == 6 { 1160913174688905455 }
    else if i == 7 { 1162250495049821553 }
    else if i == 8 { 1163589355944333713 }
    else { 1164929759147068145 }
}

/// Gain factor for thousandths of a dB: 10^(u/20000), scaled by 2^60.
pub open spec fn step_thousandth(i: int) -> int {
    if i == 0 { 1152921504606846976 }
    else if i == 1 { 1153054247241475646 }
    else if i == 2 { 1153187005159544669 }
    else if i == 3 { 1153319778362813718 }
    else if i == 4 { 1153452566853042669 }
    else if i == 5 { 1153585370631991598 }
    else if i == 6 { 1153718189701420786 }
    else if i == 7 { 1153851024063090716 }
    else if i == 8 { 1153983873718762074 }
    else { 1154116738670195747 }
}

fn step_thousandth_exec(i: u64) -> (r: u128)
    requires
        i < 10,
    ensures
        r == step_thousandth(i as int),
        r < 2 * Q60,
{
    if i == 0 { 1152921504606846976 }
    else if i == 1 { 1153054247241475646 }
    else if i == 2 { 1153187005159544669 }
    else if i == 3 { 1153319778362813718 }
    else if i == 4 { 1153452566853042669 }
    else if i == 5 { 1153585370631991598 }
    else if i == 6 { 1153718189701420786 }
    else if i == 7 { 1153851024063090716 }
    else if i == 8 { 1153983873718762074 }
    else { 1154116738670195747 }
}

pub open spec fn pow10(n: int) -> int {
    if n <= 0 {
        1
    } else if n == 1 {
        10
    } else if n == 2 {
        100
    } else if n == 3 {
        1000
    } else if n == 4 {
        10000
    } else {
        100000
    }
}

/// Product of two gain factors in 2^60 fixed point, rounded down.
pub open spec fn mul_q60(x: int, y: int) -> int {
    x * y / (Q60 as int)
}

/// 10^(r/20000) in 2^60 fixed point, for 0 <= r < 20000 (r in thousandths of a dB).
pub open spec fn gain_factor(r: int) -> int {
    mul_q60(
        mul_q60(mul_q60(step_db(r / 1000), step_tenth((r % 1000) / 100)), step_hundredth((r % 100) / 10)),
        step_thousandth(r % 10),
    )
}

/// round(CHANNEL_UNITY * 10^(d/20)) for d in thousandths of a dB within the fader range,
/// computed from the fixed-point gain factors.
#[verifier::opaque]
pub open spec fn gain_word(d: int) -> int {
    let e = d + 100000;
    (gain_factor(e % 20000) * pow10(e / 20000) * (CHANNEL_UNITY as int) + 100000 * (Q60 as int) / 2)
        / (100000 * (Q60 as int))
}

proof fn lemma_mul_le(x: int, y: int, bx: int, by: int)
    requires
        0 <= x <= bx,
        0 <= y <= by,
    ensures
        0 <= x * y <= bx * by,
{
    assert(0 <= x * y <= bx * by) by (nonlinear_arith)
        requires
            0 <= x <= bx,
            0 <= y <= by,
    ;
}

fn mul_q60_exec(x: u128, y: u128, bx: Ghost<int>) -> (r: u128)
    requires
        x <= bx@,
        y <= 2 * Q60,
        bx@ <= 80 * Q60,
    ensures
        r == mul_q60(x as int, y as int),
        r <= 2 * bx@,
{
    proof {
        lemma_mul_le(x as int, y as int, bx@, 2 * Q60);
        lemma_mul_le(bx@, 2 * Q60, 80 * Q60, 2 * Q60);
        assert(x as int * y as int / (Q60 as int) <= 2 * bx@) by (nonlinear_arith)
            requires
                x as int * y as int <= bx@ * (2 * Q60),
                Q60 > 0,
        ;
    }
    x * y / Q60
}

proof fn lemma_mul_q60_bounds(x: int, y: int, bx: int, by: int)
    requires
        Q60 <= x <= bx,
        Q60 <= y <= by,
    ensures
        Q60 <= mul_q60(x, y) <= bx * by / (Q60 as int),
{
    lemma_mul_le(x, y, bx, by);
    lemma_mul_le(Q60 as int, Q60 as int, x, y);
    assert(Q60 <= x * y / (Q60 as int)) by (nonlinear_arith)
        requires
            (Q60 as int) * (Q60 as int) <= x * y,
            Q60 > 0,
    ;
    assert(x * y / (Q60 as int) <= bx * by / (Q60 as int)) by (nonlinear_arith)
        requires
            x * y <= bx * by,
            Q60 > 0,
    ;
}

/// Every level of the fader range has a gain word that is neither MUTED nor past 32 bits.
pub proof fn lemma_gain_word_bounds(d: int)
    requires
        MIN_FADER_MDB <= d <= MAX_FADER_MDB,
    ensures
        1 <= gain_word(d) < 0x1_0000_0000,
{
    reveal(gain_word);
    let e = d + 100000;
    let r = e % 20000;
    let n = e / 20000;
    assert(0 <= r < 20000);
    assert(0 <= n <= 5);
    let a = r / 1000;
    let b = (r % 1000) / 100;
    let c = (r % 100) / 10;
    let u = r % 10;
    assert(Q60 <= step_db(a) <= 10 * Q60);
    assert(Q60 <= step_tenth(b) <= 2 * Q60);
    assert(Q60 <= step_hundredth(c) <= 2 * Q60);
    assert(Q60 <= step_thousandth(u) <= 2 * Q60);
    let q = Q60 as int;
    lemma_mul_q60_bounds(step_db(a), step_tenth(b), 10 * q, 2 * q);
    assert((10 * q) * (2 * q) / q == 20 * q) by (nonlinear_arith)
        requires
            q > 0,
    ;
    let x1 = mul_q60(step_db(a), step_tenth(b));
    lemma_mul_q60_bounds(x1, step_hundredth(c), 20 * q, 2 * q);
    assert((20 * q) * (2 * q) / q == 40 * q) by (nonlinear_arith)
        requires
            q > 0,
    ;
    let x2 = mul_q60(x1, step_hundredth(c));
    lemma_mul_q60_bounds(x2, step_thousandth(u), 40 * q, 2 * q);
    assert((40 * q) * (2 * q) / q == 80 * q) by (nonlinear_arith)
        requires
            q > 0,
    ;
    let x = gain_factor(r);
    assert(q <= x <= 80 * q);
    let p = pow10(n);
    assert(1 <= p <= 100000);
    let num = x * p * 0x0100_0000 + 100000 * q / 2;
    lemma_mul_le(q, 1, x, p);
    assert(num >= q * 0x0100_0000);
    assert(num <= 80 * q * 100000 * 0x0100_0000 + 100000 * q / 2) by (nonlinear_arith)
        requires
            0 <= x <= 80 * q,
            0 <= p <= 100000,
            num == x * p * 0x0100_0000 + 100000 * q / 2,
    ;
    assert(num / (100000 * q) >= 1) by (nonlinear_arith)
        requires
            num >= q * 0x0100_0000,
            q > 0,
    ;
    assert(num / (100000 * q) <= 80 * 0x0100_0000 + 1) by (nonlinear_arith)
        requires
            num <= 80 * q * 100000 * 0x0100_0000 + 100000 * q / 2,
            q > 0,
    ;
}

/// A level of 0 dB encodes to CHANNEL_UNITY exactly.
pub proof fn lemma_unity_gain()
    ensures
        gain_word(0) == CHANNEL_UNITY,
{
    reveal(gain_word);
    let q = Q60 as int;
    assert(q * q / q == q) by (nonlinear_arith)
        requires
            q > 0,
    ;
    assert(mul_q60(q, q) == q);
    assert(gain_factor(0) == q);
    assert(pow10(5) == 100000);
    assert((q * 100000 * 0x0100_0000 + 100000 * q / 2) / (100000 * q) == 0x0100_0000) by (nonlinear_arith)
        requires
            q == 0x1000_0000_0000_0000,
    ;
}

/// Encodes a fader level (thousandths of a dB) as the device's gain word:
/// the level is clamped to [-96, +10] dB first.
pub fn encode_db(d: i64) -> (r: u32)
    ensures
        r == gain_word(clamp_fader_spec(d as int)),
        d == 0 ==> r == CHANNEL_UNITY,
        r != MUTED,
{
    proof {
        lemma_gain_word_bounds(clamp_fader_spec(d as int));
        lemma_unity_gain();
    }
    let c = clamp_mdb(d);
    let e = (c + 100000) as u64;
    let n = e / 20000;
    let rem = e % 20000;
    let x0 = step_db_exec(rem / 1000);
    let x1 = mul_q60_exec(x0, step_tenth_exec((rem % 1000) / 100), Ghost(10 * Q60));
    let x2 = mul_q60_exec(x1, step_hundredth_exec((rem % 100) / 10), Ghost(20 * Q60));
    let x3 = mul_q60_exec(x2, step_thousandth_exec(rem % 10), Ghost(40 * Q60));
    let p: u128 = if n == 0 {
        1
    } else if n == 1 {
        10
    } else if n == 2 {
        100
    } else if n == 3 {
        1000
    } else if n == 4 {
        10000
    } else {
        100000
    };
    assert(p == pow10(n as int));
    proof {
        lemma_mul_le(x3 as int, p as int, 80 * Q60, 100000);
        lemma_mul_le(x3 as int * p as int, CHANNEL_UNITY as int, 80 * Q60 * 100000, CHANNEL_UNITY as int);
    }
    reveal(gain_word);
    let num = x3 * p * (CHANNEL_UNITY as u128) + 100000 * Q60 / 2;
    let w = num / (100000 * Q60);
    assert(w <= 80 * 0x0100_0000 + 1) by (nonlinear_arith)
        requires
            num as int <= 80 * 0x1000_0000_0000_0000int * 100000 * 0x0100_0000 + 100000
                * 0x1000_0000_0000_0000int / 2,
            w as int == num as int / (100000 * 0x1000_0000_0000_0000int),
    ;
    w as u32
}

/// Position of the leading one of a meter word: (y, k) with y = m * 2^(31 - k) in [2^31, 2^32).
pub open spec fn normalize(y: int, k: int) -> (int, int)
    decreases k,
{
    if y >= 0x8000_0000 || k <= 0 {
        (y, k)
    } else {
        normalize(2 * y, k - 1)
    }
}

/// Fraction bits of log2(y / 2^31) for y in [2^31, 2^32), by repeated squaring,
/// appended to acc (most significant bit first).
pub open spec fn log2_fraction(y: int, n: nat, acc: int) -> int
    decreases n,
{
    if n == 0 {
        acc
    } else {
        let y2 = y * y / 0x8000_0000;
        if y2 >= 0x1_0000_0000 {
            log2_fraction(y2 / 2, (n - 1) as nat, 2 * acc + 1)
        } else {
            log2_fraction(y2, (n - 1) as nat, 2 * acc)
        }
    }
}

/// log2(m) for a meter word m > 0, in 2^24 fixed point.
pub open spec fn log2_fixed(m: int) -> int {
    let (y, k) = normalize(m, 31);
    k * 0x100_0000 + log2_fraction(y, 24, 0)
}

/// 20 * log10(m / ZERO_DBFS) in thousandths of a dB, rounded to nearest, for a meter word m > 0.
pub open spec fn meter_mdb(m: int) -> int {
    let diff = 31 * 0x100_0000 - log2_fixed(m);
    let den = 0x100_0000 * 1_000_000_000int;
    if diff >= 0 {
        -((diff * MDB_PER_OCTAVE_E9 + den / 2) / den)
    } else {
        ((-diff) * MDB_PER_OCTAVE_E9 + den / 2) / den
    }
}

proof fn lemma_fraction_of_one(n: nat, acc: int)
    ensures
        log2_fraction(0x8000_0000, n, acc) == acc * vstd::arithmetic::power2::pow2(n),
    decreases n,
{
    if n == 0 {
        vstd::arithmetic::power2::lemma2_to64();
    } else {
        assert(0x8000_0000int * 0x8000_0000int / 0x8000_0000 == 0x8000_0000int);
        lemma_fraction_of_one((n - 1) as nat, 2 * acc);
        vstd::arithmetic::power2::lemma_pow2_unfold(n);
        assert(2 * acc * vstd::arithmetic::power2::pow2((n - 1) as nat) == acc * (2 * vstd::arithmetic::power2::pow2((n - 1) as nat))) by (nonlinear_arith);
    }
}

/// A meter word of ZERO_DBFS reads 0 dBFS; half of it reads -6.021 dBFS.
pub proof fn lemma_meter_reference_points()
    ensures
        meter_mdb(ZERO_DBFS as int) == 0,
        meter_mdb(0x4000_0000) == -6021,
{
    lemma_fraction_of_one(24, 0);
    assert(normalize(0x8000_0000, 31) == (0x8000_0000int, 31int));
    assert(normalize(0x4000_0000, 31) == normalize(0x8000_0000, 30));
    assert(normalize(0x8000_0000, 30) == (0x8000_0000int, 30int));
}

/// Decodes a meter word into dBFS, in thousandths of a dB: 20 * log10(m / ZERO_DBFS),
/// or NEG_INFINITY_MDB for a word of zero.
pub fn decode_meter(m: u32) -> (r: i64)
    ensures
        m == 0 ==> r == NEG_INFINITY_MDB,
        m > 0 ==> r == meter_mdb(m as int),
{
    if m == 0 {
        return NEG_INFINITY_MDB;
    }
    let mut y: u64 = m as u64;
    let mut k: i64 = 31;
    proof {
        vstd::arithmetic::power2::lemma2_to64();
    }
    while y < 0x8000_0000 && k > 0
        invariant
            normalize(y as int, k as int) == normalize(m as int, 31),
            vstd::arithmetic::power2::pow2((31 - k) as nat) <= y < 0x1_0000_0000,
            0 <= k <= 31,
        decreases k,
    {
        proof {
            vstd::arithmetic::power2::lemma_pow2_unfold((31 - k + 1) as nat);
        }
        y = y * 2;
        k = k - 1;
    }
    proof {
        if k == 0 {
            vstd::arithmetic::power2::lemma2_to64();
        }
    }
    let ghost y0 = y;
    let mut frac: u64 = 0;
    let mut i: u64 = 0;
    while i < 24
        invariant
            0x8000_0000 <= y < 0x1_0000_0000,
            i <= 24,
            0 <= frac < vstd::arithmetic::power2::pow2(i as nat),
            log2_fraction(y as int, (24 - i) as nat, frac as int) == log2_fraction(y0 as int, 24, 0),
        decreases 24 - i,
    {
        proof {
            lemma_mul_le(y as int, y as int, 0xFFFF_FFFF, 0xFFFF_FFFF);
            lemma_mul_le(0x8000_0000, 0x8000_0000, y as int, y as int);
            vstd::arithmetic::power2::lemma_pow2_unfold((i + 1) as nat);
            vstd::arithmetic::power2::lemma_pow2_strictly_increases(i as nat, 24);
            vstd::arithmetic::power2::lemma2_to64();
        }
        let y2 = y * y / 0x8000_0000;
        if y2 >= 0x1_0000_0000 {
            y = y2 / 2;
            frac = 2 * frac + 1;
        } else {
            y = y2;
            frac = 2 * frac;
        }
        i = i + 1;
    }
    proof {
        vstd::arithmetic::power2::lemma2_to64();
    }
    let l: i128 = (k as i128) * 0x100_0000 + (frac as i128);
    let diff: i128 = 31 * 0x100_0000 - l;
    let den: u128 = 0x100_0000 * 1_000_000_000;
    if diff >= 0 {
        let mag = ((diff as u128) * MDB_PER_OCTAVE_E9 + den / 2) / den;
        assert(mag <= 200_000) by (nonlinear_arith)
            requires
                mag as int == ((diff as int) * 6020599913280 + 0x100_0000 * 500_000_000) / (0x100_0000
                    * 1_000_000_000int),
                0 <= diff <= 31 * 0x100_0000,
        ;
        -(mag as i64)
    } else {
        let mag = (((-diff) as u128) * MDB_PER_OCTAVE_E9 + den / 2) / den;
        assert(mag <= 200_000) by (nonlinear_arith)
            requires
                mag as int == ((-diff as int) * 6020599913280 + 0x100_0000 * 500_000_000) / (0x100_0000
                    * 1_000_000_000int),
                0 < -diff <= 0x100_0000,
        ;
        mag as i64
    }
}

} // verus!
