//! Host-side classification of the engine's numbers.
//!
//! The engine has a single numeric type, the IEEE-754 double, while the host
//! distinguishes integers from fractional numbers. This module reclassifies
//! an engine double, given by its 64 raw bits, into the closed [`Number`]
//! variants: a finite double without a fractional part becomes `Int`, one
//! with a fractional part becomes `Float` (still carried as raw bits), and
//! the non-finite patterns become the `NaN` / `Infinity` sentinels.
//!
//! All reasoning is done on the bit fields with integer arithmetic: a finite
//! double with significand `m` and binary exponent `e` denotes the value
//! `(-1)^sign * m * 2^e`, so "no fractional part" is exactly divisibility of
//! `m` by `2^-e` when `e` is negative.

use vstd::prelude::*;

verus! {

use vstd::arithmetic::div_mod::lemma_basic_div;
use vstd::arithmetic::div_mod::lemma_small_mod;
use vstd::arithmetic::mul::lemma_mul_inequality;
use vstd::arithmetic::power2::lemma2_to64;
use vstd::arithmetic::power2::lemma2_to64_rest;
use vstd::arithmetic::power2::lemma_pow2_adds;
use vstd::arithmetic::power2::lemma_pow2_pos;
use vstd::arithmetic::power2::pow2;
use vstd::bits::lemma_u64_low_bits_mask_is_mod;
use vstd::bits::lemma_u64_pow2_no_overflow;
use vstd::bits::lemma_u64_shl_is_mul;
use vstd::bits::lemma_u64_shr_is_div;
use vstd::bits::low_bits_mask;

/// The raw exponent field that marks a non-finite double.
pub const RAW_EXPONENT_NON_FINITE: u64 = 0x7ff;

/// Mask of the 52-bit fraction field.
pub const FRACTION_MASK: u64 = 0xf_ffff_ffff_ffff;

/// The implicit leading bit of a normal double's significand, `2^52`.
pub const IMPLICIT_BIT: u64 = 0x10_0000_0000_0000;

/// A number read from, or destined for, the engine.
///
/// `Float` carries the raw IEEE-754 bits of a finite double that has a
/// nonzero fractional part; `Int` carries a finite double without one,
/// truncated into the host's 64-bit signed range.
#[derive(Clone, Copy, PartialEq, Eq, Structural, Debug)]
pub enum Number {
    NaN,
    Infinity,
    Float(u64),
    Int(i64),
}

/// The sign bit of a double's raw bits: 0 for positive, 1 for negative.
pub open spec fn sign_of(bits: u64) -> u64 {
    bits >> 63
}

/// The 11-bit raw (biased) exponent field.
pub open spec fn raw_exponent(bits: u64) -> u64 {
    (bits >> 52) & RAW_EXPONENT_NON_FINITE
}

/// The 52-bit fraction field.
pub open spec fn fraction_of(bits: u64) -> u64 {
    bits & FRACTION_MASK
}

/// Whether the bits denote a NaN.
pub open spec fn is_nan_bits(bits: u64) -> bool {
    raw_exponent(bits) == RAW_EXPONENT_NON_FINITE && fraction_of(bits) != 0
}

/// Whether the bits denote a (positive or negative) infinity.
pub open spec fn is_infinite_bits(bits: u64) -> bool {
    raw_exponent(bits) == RAW_EXPONENT_NON_FINITE && fraction_of(bits) == 0
}

/// Whether the bits denote a finite double.
pub open spec fn is_finite_bits(bits: u64) -> bool {
    raw_exponent(bits) != RAW_EXPONENT_NON_FINITE
}

/// The integer significand of a finite double: the fraction field, with the
/// implicit leading bit added for normal numbers.
pub open spec fn significand_of(bits: u64) -> nat {
    if raw_exponent(bits) == 0 {
        fraction_of(bits) as nat
    } else {
        (fraction_of(bits) + IMPLICIT_BIT) as nat
    }
}

/// The power of two that scales the integer significand: a finite double
/// denotes `(-1)^sign * significand * 2^binary_exponent`.
pub open spec fn binary_exponent(bits: u64) -> int {
    (if raw_exponent(bits) == 0 {
        1int
    } else {
        raw_exponent(bits) as int
    }) - 1075
}

/// Whether a finite double has no fractional part.
pub open spec fn is_integral_bits(bits: u64) -> bool {
    &&& is_finite_bits(bits)
    &&& (binary_exponent(bits) >= 0 || significand_of(bits) % pow2(
        (-binary_exponent(bits)) as nat,
    ) == 0)
}

/// The integer part of a finite double's magnitude (truncation toward zero).
pub open spec fn magnitude_trunc(bits: u64) -> nat {
    if binary_exponent(bits) >= 0 {
        significand_of(bits) * pow2(binary_exponent(bits) as nat)
    } else {
        significand_of(bits) / pow2((-binary_exponent(bits)) as nat)
    }
}

/// The integer part of a finite double's value (truncation toward zero).
pub open spec fn integer_part(bits: u64) -> int {
    if sign_of(bits) == 0 {
        magnitude_trunc(bits) as int
    } else {
        -(magnitude_trunc(bits) as int)
    }
}

/// Saturation of a mathematical integer into the signed 64-bit range, as the
/// host's narrowing cast from a double performs it.
pub open spec fn clamp_i64(v: int) -> int {
    if v > i64::MAX {
        i64::MAX as int
    } else if v < i64::MIN {
        i64::MIN as int
    } else {
        v
    }
}

/// What the host's saturating double-to-integer cast yields for raw bits:
/// 0 for NaN, the end of the range for an infinity, and the clamped integer
/// part for a finite double.
pub open spec fn float_to_i64_bits(bits: u64) -> int {
    if is_nan_bits(bits) {
        0
    } else if is_infinite_bits(bits) {
        if sign_of(bits) == 0 {
            i64::MAX as int
        } else {
            i64::MIN as int
        }
    } else {
        clamp_i64(integer_part(bits))
    }
}

/// Truncating division of the significand by `2^k`, for a finite double
/// whose binary exponent is `-k`: yields the integer part of the magnitude
/// and whether the double was integral.
fn significand_shift_down(sign: u64, sig: u64, k: u64) -> (r: (i64, bool))
    requires
        sign <= 1,
        0 < sig < 0x20_0000_0000_0000,
        1 <= k <= 1074,
    ensures
        r.0 as int == (if sign == 0 {
            (sig as nat / pow2(k as nat)) as int
        } else {
            -((sig as nat / pow2(k as nat)) as int)
        }),
        r.1 == (sig as nat % pow2(k as nat) == 0),
{
    if k >= 53 {
        // The significand is below 2^53 <= 2^k: the integer part is 0 and
        // the remainder is the whole (nonzero) significand.
        proof {
            assert(sig < 0x20_0000_0000_0000);
            lemma2_to64_rest();
            assert(pow2(53) == 0x20_0000_0000_0000) by {
                lemma_pow2_adds(52, 1);
                lemma2_to64();
                lemma2_to64_rest();
            }
            if k > 53 {
                lemma_pow2_pos(53);
                lemma_pow2_pos(k as nat);
                assert(pow2(53) <= pow2(k as nat)) by {
                    lemma_pow2_adds(53, (k - 53) as nat);
                    lemma_pow2_pos((k - 53) as nat);
                    lemma_mul_inequality(1, pow2((k - 53) as nat) as int, pow2(53) as int);
                }
            }
            assert(sig < pow2(k as nat));
            lemma_basic_div(sig as int, pow2(k as nat) as int);
            lemma_small_mod(sig as nat, pow2(k as nat));
        }
        (0i64, false)
    } else {
        proof {
            lemma_u64_pow2_no_overflow(k as nat);
            lemma_u64_shl_is_mul(1u64, k);
            lemma_pow2_pos(k as nat);
        }
        let mask: u64 = (1u64 << k) - 1;
        let rem: u64 = sig & mask;
        let q: u64 = sig >> k;
        proof {
            assert(mask == low_bits_mask(k as nat));
            lemma_u64_low_bits_mask_is_mod(sig, k as nat);
            lemma_u64_shr_is_div(sig, k);
            assert(q as nat == sig as nat / pow2(k as nat));
            assert(q <= sig) by {
                lemma_pow2_pos(k as nat);
                vstd::arithmetic::div_mod::lemma_div_is_ordered_by_denominator(
                    sig as int,
                    1,
                    pow2(k as nat) as int,
                );
            }
        }
        if sign == 0 {
            (q as i64, rem == 0)
        } else {
            (-(q as i64), rem == 0)
        }
    }
}

/// Saturating computation of `(-1)^sign * sig * 2^e` into the signed 64-bit
/// range, for a normal double whose binary exponent `e` is nonnegative.
fn significand_shift_up(sign: u64, sig: u64, e: u64) -> (r: i64)
    requires
        sign <= 1,
        0x10_0000_0000_0000 <= sig < 0x20_0000_0000_0000,
        e <= 971,
    ensures
        r as int == clamp_i64(
            if sign == 0 {
                (sig as nat * pow2(e as nat)) as int
            } else {
                -((sig as nat * pow2(e as nat)) as int)
            },
        ),
{
    proof {
        lemma2_to64();
        lemma2_to64_rest();
    }
    if e >= 12 {
        // The magnitude is at least 2^52 * 2^12 = 2^64: saturate.
        proof {
            assert(pow2(12) <= pow2(e as nat)) by {
                if e > 12 {
                    lemma_pow2_adds(12, (e - 12) as nat);
                    lemma_pow2_pos((e - 12) as nat);
                    lemma_mul_inequality(1, pow2((e - 12) as nat) as int, pow2(12) as int);
                }
            }
            assert(sig as nat * pow2(e as nat) >= 0x10_0000_0000_0000 * pow2(12)) by {
                lemma_mul_inequality(0x10_0000_0000_0000, sig as int, pow2(12) as int);
                lemma_mul_inequality(pow2(12) as int, pow2(e as nat) as int, sig as int);
                vstd::arithmetic::mul::lemma_mul_is_commutative(sig as int, pow2(12) as int);
                vstd::arithmetic::mul::lemma_mul_is_commutative(sig as int, pow2(e as nat) as int);
            }
            assert(0x10_0000_0000_0000 * pow2(12) == 0x1_0000_0000_0000_0000) by {
                lemma_pow2_adds(52, 12);
            }
        }
        if sign == 0 {
            i64::MAX
        } else {
            i64::MIN
        }
    } else {
        proof {
            assert(pow2(e as nat) <= pow2(11)) by {
                if e < 11 {
                    lemma_pow2_adds(e as nat, (11 - e) as nat);
                    lemma_pow2_pos((11 - e) as nat);
                    lemma_pow2_pos(e as nat);
                    lemma_mul_inequality(1, pow2((11 - e) as nat) as int, pow2(e as nat) as int);
                }
            }
            // sig * 2^e <= (2^53 - 1) * 2^11 = 2^64 - 2^11 <= u64::MAX
            assert(sig as nat * pow2(e as nat) <= 0x1fff_ffff_ffff_ff * pow2(11)) by {
                vstd::arithmetic::mul::lemma_mul_upper_bound(
                    sig as int,
                    0x1fff_ffff_ffff_ff,
                    pow2(e as nat) as int,
                    pow2(11) as int,
                );
            }
            lemma_u64_shl_is_mul(sig, e);
        }
        let prod: u64 = sig << e;
        proof {
            assert(prod as nat == sig as nat * pow2(e as nat));
        }
        if sign == 0 {
            if prod <= 0x7fff_ffff_ffff_ffff {
                prod as i64
            } else {
                i64::MAX
            }
        } else {
            if prod < 0x8000_0000_0000_0000 {
                -(prod as i64)
            } else {
                i64::MIN
            }
        }
    }
}

/// The integer part (clamped into the signed 64-bit range, truncating toward
/// zero) of a finite double, and whether the double had no fractional part.
fn integer_analysis(bits: u64) -> (r: (i64, bool))
    requires
        is_finite_bits(bits),
    ensures
        r.0 as int == clamp_i64(integer_part(bits)),
        r.1 == is_integral_bits(bits),
{
    let sign: u64 = bits >> 63;
    let exp: u64 = (bits >> 52) & RAW_EXPONENT_NON_FINITE;
    let frac: u64 = bits & FRACTION_MASK;
    proof {
        assert(bits >> 63 <= 1) by (bit_vector);
        assert((bits >> 52) & 0x7ff < 0x800) by (bit_vector);
        assert(bits & 0xf_ffff_ffff_ffff < 0x10_0000_0000_0000) by (bit_vector);
    }
    let sig: u64 = if exp == 0 {
        frac
    } else {
        frac + IMPLICIT_BIT
    };
    proof {
        assert(sig as nat == significand_of(bits));
    }
    if sig == 0 {
        // Positive or negative zero: integral, with integer part 0.
        proof {
            if binary_exponent(bits) < 0 {
                lemma_pow2_pos((-binary_exponent(bits)) as nat);
                lemma_basic_div(0, pow2((-binary_exponent(bits)) as nat) as int);
                lemma_small_mod(0, pow2((-binary_exponent(bits)) as nat));
            } else {
                vstd::arithmetic::mul::lemma_mul_basics(pow2(binary_exponent(bits) as nat) as int);
            }
        }
        (0i64, true)
    } else if exp >= 1075 {
        // Binary exponent at least 0: always integral; saturate the value.
        let r = significand_shift_up(sign, sig, exp - 1075);
        (r, true)
    } else {
        // Negative binary exponent -k: integral exactly when 2^k divides
        // the significand.
        let k: u64 = 1075 - (if exp == 0 {
            1
        } else {
            exp
        });
        significand_shift_down(sign, sig, k)
    }
}

/// The character for one decimal digit.
pub open spec fn decimal_digit(d: nat) -> char {
    if d == 0 {
        '0'
    } else if d == 1 {
        '1'
    } else if d == 2 {
        '2'
    } else if d == 3 {
        '3'
    } else if d == 4 {
        '4'
    } else if d == 5 {
        '5'
    } else if d == 6 {
        '6'
    } else if d == 7 {
        '7'
    } else if d == 8 {
        '8'
    } else {
        '9'
    }
}

/// The decimal representation of a natural number, most significant digit
/// first, without leading zeros (`0` itself is the single digit `0`).
pub open spec fn decimal_text(n: nat) -> Seq<char>
    decreases n,
{
    if n < 10 {
        seq![decimal_digit(n)]
    } else {
        decimal_text(n / 10).push(decimal_digit(n % 10))
    }
}

/// The decimal representation of an integer: a leading minus sign for a
/// negative value, then the magnitude's digits.
pub open spec fn decimal_text_signed(v: int) -> Seq<char> {
    if v < 0 {
        seq!['-'] + decimal_text((-v) as nat)
    } else {
        decimal_text(v as nat)
    }
}

/// The one-character string for a decimal digit.
fn digit_str(d: u64) -> (s: &'static str)
    requires
        d < 10,
    ensures
        s@ == seq![decimal_digit(d as nat)],
{
    proof {
        reveal_strlit("0");
        reveal_strlit("1");
        reveal_strlit("2");
        reveal_strlit("3");
        reveal_strlit("4");
        reveal_strlit("5");
        reveal_strlit("6");
        reveal_strlit("7");
        reveal_strlit("8");
        reveal_strlit("9");
    }
    let s: &'static str = match d {
        0 => "0",
        1 => "1",
        2 => "2",
        3 => "3",
        4 => "4",
        5 => "5",
        6 => "6",
        7 => "7",
        8 => "8",
        _ => "9",
    };
    proof {
        assert(s@ =~= seq![decimal_digit(d as nat)]);
    }
    s
}

/// Render a natural number in decimal.
pub fn u64_to_decimal(n: u64) -> (s: String)
    ensures
        s@ == decimal_text(n as nat),
    decreases n,
{
    if n < 10 {
        digit_str(n).to_owned()
    } else {
        let mut s = u64_to_decimal(n / 10);
        let d = digit_str(n % 10);
        s.append(d);
        proof {
            assert(s@ =~= decimal_text(n as nat));
        }
        s
    }
}

/// Render a signed integer in decimal.
pub fn i64_to_decimal(v: i64) -> (s: String)
    ensures
        s@ == decimal_text_signed(v as int),
{
    if v >= 0 {
        u64_to_decimal(v as u64)
    } else {
        let magnitude: u64 = (-(v as i128)) as u64;
        proof {
            reveal_strlit("-");
        }
        let mut s = "-".to_owned();
        let m = u64_to_decimal(magnitude);
        s.append(m.as_str());
        proof {
            assert(s@ =~= decimal_text_signed(v as int));
        }
        s
    }
}

/// The classification of a double's raw bits as a [`Number`]: what
/// [`Number::from_bits`] returns.
pub open spec fn classified_number(bits: u64) -> Number {
    if is_nan_bits(bits) {
        Number::NaN
    } else if is_infinite_bits(bits) {
        Number::Infinity
    } else if is_integral_bits(bits) {
        Number::Int(clamp_i64(integer_part(bits)) as i64)
    } else {
        Number::Float(bits)
    }
}

/// The textual form of a number, where the host can produce one: the
/// sentinels and integers have exact text; a fractional double has none
/// host-side (its rendering would depend on floating-point formatting).
pub open spec fn number_text(n: Number) -> Option<Seq<char>> {
    match n {
        Number::NaN => Some("NaN"@),
        Number::Infinity => Some("Infinity"@),
        Number::Int(v) => Some(decimal_text_signed(v as int)),
        Number::Float(_) => None,
    }
}

impl Number {
    /// Classify an engine double, given by its raw IEEE-754 bits.
    ///
    /// A finite double without a fractional part yields `Int` with the
    /// double's integer value (saturated into the signed 64-bit range); a
    /// finite double with a fractional part yields `Float` carrying the bits
    /// unchanged; the non-finite patterns yield `NaN` or `Infinity`.
    pub fn from_bits(bits: u64) -> (n: Number)
        ensures
            is_nan_bits(bits) ==> n == Number::NaN,
            is_infinite_bits(bits) ==> n == Number::Infinity,
            is_finite_bits(bits) && is_integral_bits(bits) ==> (n matches Number::Int(v) && v
                as int == clamp_i64(integer_part(bits))),
            is_finite_bits(bits) && !is_integral_bits(bits) ==> n == Number::Float(bits),
            n == classified_number(bits),
    {
        let exp: u64 = (bits >> 52) & RAW_EXPONENT_NON_FINITE;
        let frac: u64 = bits & FRACTION_MASK;
        if exp == RAW_EXPONENT_NON_FINITE {
            if frac != 0 {
                Number::NaN
            } else {
                Number::Infinity
            }
        } else {
            let r = integer_analysis(bits);
            if r.1 {
                Number::Int(r.0)
            } else {
                Number::Float(bits)
            }
        }
    }

    /// Narrow this number to the host's signed 64-bit integer type, the way
    /// the host's saturating cast from a double does: NaN becomes 0, an
    /// infinity saturates, and a finite double truncates toward zero and
    /// saturates.
    pub fn to_i64(&self) -> (r: i64)
        ensures
            self is NaN ==> r == 0,
            self is Infinity ==> r == i64::MAX,
            self matches Number::Int(v) ==> r == v,
            self matches Number::Float(bits) ==> r as int == float_to_i64_bits(*bits),
    {
        match self {
            Number::NaN => 0,
            Number::Infinity => i64::MAX,
            Number::Int(v) => *v,
            Number::Float(bits) => {
                let exp: u64 = (*bits >> 52) & RAW_EXPONENT_NON_FINITE;
                let frac: u64 = *bits & FRACTION_MASK;
                if exp == RAW_EXPONENT_NON_FINITE {
                    if frac != 0 {
                        0
                    } else {
                        let sign: u64 = *bits >> 63;
                        if sign == 0 {
                            i64::MAX
                        } else {
                            i64::MIN
                        }
                    }
                } else {
                    let r = integer_analysis(*bits);
                    r.0
                }
            },
        }
    }

    /// The textual form of this number, where the host can produce one.
    ///
    /// `NaN`, `Infinity` and integers render exactly; a fractional double
    /// yields `None`, since rendering it is floating-point work the host
    /// does not do here.
    pub fn to_text(&self) -> (r: Option<String>)
        ensures
            r matches Some(s) ==> (number_text(*self) matches Some(t) && s@ == t),
            r is None <==> number_text(*self) is None,
    {
        match self {
            Number::NaN => Some("NaN".to_owned()),
            Number::Infinity => Some("Infinity".to_owned()),
            Number::Int(v) => Some(i64_to_decimal(*v)),
            Number::Float(_) => None,
        }
    }
}

} // verus!
