//! Integers as IEEE-754 double-precision numbers.
//!
//! OneBot v12 writes event times as floating-point seconds. An integer
//! below 2^53 in magnitude is exactly representable as a double; this
//! module computes that double's bit pattern with integer arithmetic, and
//! its shortest decimal text, which for such integers is the integer's
//! decimal digits followed by `.0`.

use vstd::prelude::*;

use crate::json::{JsonNumber, JsonValue, Json, NumV};
use crate::text::{chars_of, int_decimal, push_int_decimal, push_str, string_from_chars};

verus! {

/// 2 to the power `e`.
pub open spec fn two_pow(e: nat) -> nat
    decreases e,
{
    if e == 0 {
        1
    } else {
        2 * two_pow((e - 1) as nat)
    }
}

/// The position of the highest set bit of a positive integer.
pub open spec fn high_bit(m: nat) -> nat
    decreases m,
{
    if m < 2 {
        0
    } else {
        1 + high_bit(m / 2)
    }
}

/// Bound on the magnitude of exactly representable integers: 2^53.
pub const EXACT_BOUND: i64 = 9_007_199_254_740_992;

/// The IEEE-754 double bit pattern of an integer of magnitude below 2^53:
/// sign bit, biased exponent of the highest set bit, and the remaining
/// bits left-aligned in the 52-bit fraction.
pub open spec fn int_f64_bits(x: int) -> int {
    if x == 0 {
        0
    } else {
        let m: nat = if x < 0 {
            (-x) as nat
        } else {
            x as nat
        };
        let e = high_bit(m);
        (if x < 0 {
            two_pow(63)
        } else {
            0
        }) + (e + 1023) * two_pow(52) + (m - two_pow(e)) * two_pow((52 - e) as nat)
    }
}

proof fn lemma_two_pow_adds(a: nat, b: nat)
    ensures
        two_pow(a + b) == two_pow(a) * two_pow(b),
    decreases a,
{
    if a > 0 {
        lemma_two_pow_adds((a - 1) as nat, b);
        let x = two_pow((a - 1) as nat);
        let y = two_pow(b);
        assert(two_pow(a) == 2 * x);
        assert(((a + b) - 1) as nat == (a - 1 + b) as nat);
        assert(two_pow(((a - 1) as nat + b) as nat) == x * y);
        assert(two_pow(a + b) == 2 * two_pow((a - 1 + b) as nat));
        assert(2 * (x * y) == (2 * x) * y) by (nonlinear_arith);
    } else {
        assert(two_pow(0) == 1);
        assert(a + b == b);
    }
}

proof fn lemma_two_pow_consts()
    ensures
        two_pow(52) == 4_503_599_627_370_496,
        two_pow(53) == 9_007_199_254_740_992,
        two_pow(63) == 0x8000_0000_0000_0000,
{
    reveal_with_fuel(two_pow, 64);
}

proof fn lemma_two_pow_monotone(a: nat, b: nat)
    requires
        a <= b,
    ensures
        two_pow(a) <= two_pow(b),
    decreases b,
{
    if a < b {
        lemma_two_pow_monotone(a, (b - 1) as nat);
    }
}

proof fn lemma_high_bit(m: nat, e: nat)
    requires
        two_pow(e) <= m < 2 * two_pow(e),
    ensures
        high_bit(m) == e,
    decreases e,
{
    if e > 0 {
        let h = two_pow((e - 1) as nat);
        assert(two_pow(e) == 2 * h);
        assert(h <= m / 2 < 2 * h);
        lemma_high_bit(m / 2, (e - 1) as nat);
    }
}

/// The IEEE-754 double bit pattern of an integer of magnitude below 2^53.
pub fn f64_bits_of_int(x: i64) -> (r: u64)
    requires
        -EXACT_BOUND < x < EXACT_BOUND,
    ensures
        r as int == int_f64_bits(x as int),
{
    if x == 0 {
        return 0;
    }
    proof {
        lemma_two_pow_consts();
    }
    let m: u64 = if x < 0 {
        (0 - x) as u64
    } else {
        x as u64
    };
    let mut p: u64 = 1;
    let mut e: u64 = 0;
    while p <= m / 2
        invariant
            1 <= p <= m,
            e <= 52,
            p == two_pow(e as nat),
            m < two_pow(53),
            two_pow(53) == 9_007_199_254_740_992,
        decreases m - p,
    {
        assert(two_pow((e + 1) as nat) == 2 * two_pow(e as nat));
        assert(p * 2 <= m) by (nonlinear_arith)
            requires
                p <= m / 2,
        ;
        proof {
            if e + 1 > 52 {
                lemma_two_pow_monotone(53, (e + 1) as nat);
            }
        }
        p = p * 2;
        e = e + 1;
    }
    assert(m < 2 * p) by (nonlinear_arith)
        requires
            p > m / 2,
    ;
    proof {
        lemma_high_bit(m as nat, e as nat);
    }
    let mut q: u64 = 1;
    let mut k: u64 = 0;
    while k < 52 - e
        invariant
            e <= 52,
            k <= 52 - e,
            q == two_pow(k as nat),
            q >= 1,
            two_pow(52) == 4_503_599_627_370_496,
        decreases 52 - e - k,
    {
        proof {
            lemma_two_pow_monotone((k + 1) as nat, 52);
            assert(two_pow((k + 1) as nat) == 2 * two_pow(k as nat));
        }
        q = q * 2;
        k = k + 1;
    }
    proof {
        lemma_two_pow_adds(e as nat, (52 - e) as nat);
        assert((m - p) * q < p * q) by (nonlinear_arith)
            requires
                m - p < p,
                q > 0,
        ;
    }
    let frac: u64 = (m - p) * q;
    let sign: u64 = if x < 0 {
        0x8000_0000_0000_0000
    } else {
        0
    };
    sign + (e + 1023) * 0x10_0000_0000_0000 + frac
}

/// The JSON number of an integer written as a double: its bit pattern and
/// its shortest text, the digits followed by `.0`.
pub open spec fn int_as_float_json(x: i64) -> Json {
    Json::Num(NumV::Float { bits: int_f64_bits(x as int) as u64, text: int_decimal(x as int) + ".0"@ })
}

/// A JSON number holding an integer of magnitude below 2^53 as a double.
pub fn int_as_float(x: i64) -> (r: JsonValue)
    requires
        -EXACT_BOUND < x < EXACT_BOUND,
    ensures
        r@ == int_as_float_json(x),
{
    let bits = f64_bits_of_int(x);
    let mut buf: Vec<char> = Vec::new();
    push_int_decimal(&mut buf, x);
    push_str(&mut buf, ".0");
    assert(buf@ =~= int_decimal(x as int) + ".0"@);
    JsonValue::Number(JsonNumber::Float { bits, text: string_from_chars(buf.as_slice()) })
}

} // verus!
