//! Frequencies in kHz shown in MHz with one decimal: the text of the kHz
//! value converted to a 32-bit float, divided by 1000 in 32-bit float, and
//! printed with one decimal.
//!
//! The text is computed here in integer arithmetic. The specification
//! states the IEEE-754 binary32 rules directly (24-bit significand,
//! round to nearest, ties to even), and printing rounds the exact value of
//! the quotient to tenths, ties to an even last digit.
use crate::text::push_char;
use vstd::arithmetic::div_mod::{
    lemma_div_denominator, lemma_fundamental_div_mod, lemma_fundamental_div_mod_converse,
};
use vstd::prelude::*;

verus! {

/// `2^n`.
pub open spec fn pow2(n: nat) -> nat
    decreases n,
{
    if n == 0 {
        1
    } else {
        2 * pow2((n - 1) as nat)
    }
}

/// `a / b` rounded to the nearest integer, ties to the even one.
pub open spec fn div_round_even(a: nat, b: nat) -> nat {
    let q = a / b;
    let r = a % b;
    if 2 * r > b || (2 * r == b && q % 2 == 1) {
        q + 1
    } else {
        q
    }
}

/// `2^24`: binary32 significands have 24 bits.
pub const SIGNIFICAND_LIMIT: u64 = 16_777_216;

/// `1000 * 2^23`: a quotient by 1000 carries a full significand once the
/// dividend reaches this.
pub const SCALED_THOUSAND: u64 = 8_388_608_000;

/// How many halvings bring `v` below `2^24`.
pub open spec fn excess_bits(v: nat) -> nat
    decreases v,
{
    if v < SIGNIFICAND_LIMIT {
        0
    } else {
        1 + excess_bits(v / 2)
    }
}

/// `k as f32`, which is a whole number: the value with a 24-bit significand
/// nearest to `k`, ties to an even significand.
pub open spec fn to_f32(k: nat) -> nat {
    let s = excess_bits(k);
    div_round_even(k, pow2(s)) * pow2(s)
}

/// For `v > 0`: how many doublings bring `v` to at least `1000 * 2^23`.
pub open spec fn scale_bits(v: nat) -> nat
    decreases (if v < SCALED_THOUSAND {
        SCALED_THOUSAND - v
    } else {
        0
    }),
{
    if v == 0 || v >= SCALED_THOUSAND {
        0
    } else {
        1 + scale_bits(2 * v)
    }
}

/// For a whole-number float `f`: `f / 1000.0` in binary32 is `q / 2^d`, with
/// `q` the 24-bit significand nearest to `f * 2^d / 1000` (ties to even);
/// printed with one decimal it shows `q / 2^d` rounded to tenths, ties to an
/// even tenths digit. The result counts tenths.
pub open spec fn tenths_of_thousandth(f: nat) -> nat {
    if f == 0 {
        0
    } else {
        let d = scale_bits(f);
        let q = div_round_even(f * pow2(d), 1000);
        div_round_even(10 * q, pow2(d))
    }
}

/// The tenths of MHz shown for a frequency of `khz` kHz.
pub open spec fn mhz_tenths(khz: nat) -> nat {
    tenths_of_thousandth(to_f32(khz))
}

/// The decimal digit `d` (for `d < 10`).
pub open spec fn digit_char(d: nat) -> char {
    (d + 48) as char
}

/// The decimal numeral of `n`, without leading zeros.
pub open spec fn decimal(n: nat) -> Seq<char>
    decreases n,
{
    if n < 10 {
        seq![digit_char(n)]
    } else {
        decimal(n / 10).push(digit_char(n % 10))
    }
}

/// The MHz text for `khz` kHz: whole MHz, a point, one decimal.
pub open spec fn mhz_digits(khz: nat) -> Seq<char> {
    let t = mhz_tenths(khz);
    decimal(t / 10).push('.').push(digit_char(t % 10))
}

/// On the FM band's 100 kHz grid the shown MHz are exact: every such
/// frequency shows its whole MHz and its tenth digit, e.g. 101 100 kHz as
/// "101.1", with nothing lost to the float conversion.
pub proof fn law_band_grid_shows_exact_tenths(khz: nat)
    requires
        87_500 <= khz <= 108_000,
        khz % 100 == 0,
    ensures
        mhz_tenths(khz) == khz / 100,
        mhz_digits(khz) == decimal(khz / 1000).push('.').push(digit_char((khz / 100) % 10)),
{
    let m = khz / 100;
    assert(khz == m * 100);
    // The integer converts to binary32 exactly.
    assert(excess_bits(khz) == 0);
    assert(pow2(0) == 1);
    lemma_fundamental_div_mod_converse(khz as int, 1, khz as int, 0);
    assert(to_f32(khz) == khz);
    // Seventeen doublings give the quotient by 1000 a full significand.
    let p17: nat = 131_072;
    assert(pow2(1) == 2);
    assert(pow2(2) == 4);
    assert(pow2(3) == 8);
    assert(pow2(4) == 16);
    assert(pow2(5) == 32);
    assert(pow2(6) == 64);
    assert(pow2(7) == 128);
    assert(pow2(8) == 256);
    assert(pow2(9) == 512);
    assert(pow2(10) == 1024);
    assert(pow2(11) == 2048);
    assert(pow2(12) == 4096);
    assert(pow2(13) == 8192);
    assert(pow2(14) == 16384);
    assert(pow2(15) == 32768);
    assert(pow2(16) == 65536);
    assert(pow2(17) == p17);
    assert(scale_bits(khz * 131_072) == 0);
    assert(scale_bits(khz * 65_536) == 1);
    assert(scale_bits(khz * 32_768) == 2);
    assert(scale_bits(khz * 16_384) == 3);
    assert(scale_bits(khz * 8_192) == 4);
    assert(scale_bits(khz * 4_096) == 5);
    assert(scale_bits(khz * 2_048) == 6);
    assert(scale_bits(khz * 1_024) == 7);
    assert(scale_bits(khz * 512) == 8);
    assert(scale_bits(khz * 256) == 9);
    assert(scale_bits(khz * 128) == 10);
    assert(scale_bits(khz * 64) == 11);
    assert(scale_bits(khz * 32) == 12);
    assert(scale_bits(khz * 16) == 13);
    assert(scale_bits(khz * 8) == 14);
    assert(scale_bits(khz * 4) == 15);
    assert(scale_bits(khz * 2) == 16);
    assert(scale_bits(khz) == 17);
    // The significand: m * 131072 / 10, rounded.
    let w = m * p17;
    let a = khz * p17;
    assert(a == w * 100);
    let q0 = w / 10;
    let r0 = w % 10;
    lemma_fundamental_div_mod_converse(w as int, 10, q0 as int, r0 as int);
    lemma_fundamental_div_mod_converse(a as int, 1000, q0 as int, (r0 * 100) as int);
    let q = div_round_even(a, 1000);
    assert(10 * q0 == w - r0);
    assert(w - 9 <= 10 * q <= w + 10);
    // Its tenths: 10 * q / 2^17, rounded, is m.
    let t = div_round_even(10 * q, p17);
    if 10 * q >= w {
        lemma_fundamental_div_mod_converse((10 * q) as int, p17 as int, m as int, (10 * q - w) as int);
    } else {
        lemma_fundamental_div_mod_converse(
            (10 * q) as int,
            p17 as int,
            m - 1,
            (10 * q - w + p17) as int,
        );
    }
    assert(t == m);
    assert(mhz_tenths(khz) == m);
    lemma_div_denominator(khz as int, 100, 10);
}

fn round_half_even(a: u64, b: u64) -> (r: u64)
    requires
        b > 0,
        a / b < u64::MAX,
    ensures
        r == div_round_even(a as nat, b as nat),
{
    let q = a / b;
    let rem = a % b;
    if rem > b - rem || (rem == b - rem && q % 2 == 1) {
        q + 1
    } else {
        q
    }
}

/// `khz as f32`, as a whole number.
fn khz_to_f32(khz: u32) -> (f: u64)
    ensures
        f == to_f32(khz as nat),
        f <= 8_589_934_592,
{
    let mut v: u64 = khz as u64;
    let mut p: u64 = 1;
    let ghost mut s: nat = 0;
    while v >= SIGNIFICAND_LIMIT
        invariant
            p == pow2(s),
            p >= 1,
            p == 1 || p * 8_388_608 <= khz,
            v == (khz as nat) / (p as nat),
            excess_bits(khz as nat) == s + excess_bits(v as nat),
        decreases v,
    {
        proof {
            lemma_div_denominator(khz as int, p as int, 2);
            lemma_fundamental_div_mod(khz as int, p as int);
            assert(p * v <= khz) by (nonlinear_arith)
                requires
                    khz as int == p * (khz as int / p as int) + (khz as int % p as int),
                    v == khz as int / p as int,
                    0 <= khz as int % p as int,
            ;
            assert(p * SIGNIFICAND_LIMIT <= p * v) by (nonlinear_arith)
                requires
                    v >= SIGNIFICAND_LIMIT,
                    p >= 1,
            ;
        }
        v = v / 2;
        p = p * 2;
        proof {
            s = s + 1;
        }
    }
    proof {
        lemma_fundamental_div_mod(khz as int, p as int);
        assert(p * v <= khz) by (nonlinear_arith)
            requires
                khz as int == p * (khz as int / p as int) + (khz as int % p as int),
                v == khz as int / p as int,
                0 <= khz as int % p as int,
        ;
    }
    let rounded = round_half_even(khz as u64, p);
    proof {
        assert(rounded * p <= 8_589_934_592) by (nonlinear_arith)
            requires
                rounded <= v + 1,
                v < SIGNIFICAND_LIMIT,
                1 <= p <= 512,
        ;
    }
    rounded * p
}

/// `f / 1000.0` in binary32, printed with one decimal, in tenths.
fn thousandth_tenths(f: u64) -> (t: u64)
    requires
        f <= 8_589_934_592,
    ensures
        t == tenths_of_thousandth(f as nat),
{
    if f == 0 {
        return 0;
    }
    let mut v: u64 = f;
    let mut p: u64 = 1;
    let ghost mut d: nat = 0;
    while v < SCALED_THOUSAND
        invariant
            f > 0,
            p == pow2(d),
            1 <= p <= v,
            v == f * p,
            v < 2 * SCALED_THOUSAND,
            scale_bits(f as nat) == d + scale_bits(v as nat),
        decreases (if v < SCALED_THOUSAND {
            SCALED_THOUSAND - v
        } else {
            0
        }),
    {
        proof {
            assert(f * (2 * p) == 2 * v) by (nonlinear_arith)
                requires
                    v == f * p,
            ;
        }
        v = v * 2;
        p = p * 2;
        proof {
            d = d + 1;
        }
    }
    let q = round_half_even(v, 1000);
    round_half_even(10 * q, p)
}

/// Appends the decimal numeral of `n` to `s`.
fn push_decimal(s: &mut String, n: u64)
    ensures
        final(s)@ == old(s)@ + decimal(n as nat),
    decreases n,
{
    if n >= 10 {
        push_decimal(s, n / 10);
    }
    let digit = ((n % 10) as u8 + 48u8) as char;
    push_char(s, digit);
    proof {
        assert(final(s)@ =~= old(s)@ + decimal(n as nat));
    }
}

/// The frequency `khz` (in kHz) as MHz with one decimal, e.g. `101.1` for
/// 101 100 kHz.
pub fn format_mhz(khz: u32) -> (s: String)
    ensures
        s@ == mhz_digits(khz as nat),
{
    let tenths = thousandth_tenths(khz_to_f32(khz));
    let mut s = String::new();
    push_decimal(&mut s, tenths / 10);
    push_char(&mut s, '.');
    let last = ((tenths % 10) as u8 + 48u8) as char;
    push_char(&mut s, last);
    s
}

} // verus!
