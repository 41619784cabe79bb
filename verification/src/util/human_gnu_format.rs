//! Numbers in the short form of the GNU tools: `10M` for ten million.

use vstd::prelude::*;
use crate::text::{decimal, digit_char, digit_text, push_decimal};

verus! {

/// `base` to the power `k`.
pub open spec fn power(base: nat, k: nat) -> nat
    decreases k,
{
    if k == 0 {
        1
    } else {
        base * power(base, (k - 1) as nat)
    }
}

/// How often `value` is divided by `base`, counting on from `k` divisions:
/// once more for as long as it is 1000 or more, and at most five times in
/// all.
pub open spec fn scalings_from(value: nat, base: nat, k: nat) -> nat
    decreases 5 - k,
{
    if k < 5 && value >= 1000 * power(base, k) {
        scalings_from(value, base, k + 1)
    } else {
        k
    }
}

/// How often `value` is divided by `base`.
pub open spec fn scalings(value: nat, base: nat) -> nat {
    scalings_from(value, base, 0)
}

/// The integer nearest to `numerator / denominator`, and the even one of the
/// two where both are equally near.
pub open spec fn rounded(numerator: nat, denominator: nat) -> nat {
    let quotient = numerator / denominator;
    let rest = numerator % denominator;
    if 2 * rest > denominator || (2 * rest == denominator && quotient % 2 == 1) {
        quotient + 1
    } else {
        quotient
    }
}

/// The digits of `value / divisor`: one decimal place where the quotient is
/// below ten, none otherwise.
pub open spec fn scaled_text(value: nat, divisor: nat) -> Seq<char> {
    if value < 10 * divisor {
        let tenths = rounded(10 * value, divisor);
        decimal(tenths / 10) + "."@ + seq![digit_char((tenths % 10) as int)]
    } else {
        decimal(rounded(value, divisor))
    }
}

/// The short form of `value`.
///
/// A value below 1000 is printed as it is, followed by `unit`. A larger one is
/// divided by `base` for as long as it is 1000 or more, at most five times,
/// and printed rounded, with the suffix of that many divisions and with
/// `unit`.
pub open spec fn human_text(
    value: nat,
    base: nat,
    suffixes: spec_fn(nat) -> Seq<char>,
    unit: Seq<char>,
) -> Seq<char> {
    let k = scalings(value, base);
    if k == 0 {
        decimal(value) + unit
    } else {
        scaled_text(value, power(base, k)) + suffixes(k) + unit
    }
}

/// The suffixes of the powers of 1000.
pub open spec fn decimal_suffix(k: nat) -> Seq<char> {
    if k == 1 {
        "k"@
    } else if k == 2 {
        "M"@
    } else if k == 3 {
        "B"@
    } else if k == 4 {
        "T"@
    } else {
        "P"@
    }
}

/// The suffixes of the powers of 1024.
pub open spec fn binary_suffix(k: nat) -> Seq<char> {
    if k == 1 {
        "Ki"@
    } else if k == 2 {
        "Mi"@
    } else if k == 3 {
        "Gi"@
    } else if k == 4 {
        "Ti"@
    } else {
        "Pi"@
    }
}

/// The powers of 1024 up to the fifth bound those of any smaller base.
proof fn lemma_power_bound(base: nat, k: nat)
    requires
        base <= 1024,
        k <= 5,
    ensures
        power(base, k) <= power(1024, k),
        power(1024, k) <= 0x4_0000_0000_0000,
    decreases k,
{
    reveal_with_fuel(power, 7);
    if k > 0 {
        lemma_power_bound(base, (k - 1) as nat);
        assert(base * power(base, (k - 1) as nat) <= 1024 * power(1024, (k - 1) as nat))
            by (nonlinear_arith)
            requires
                base <= 1024,
                power(base, (k - 1) as nat) <= power(1024, (k - 1) as nat),
        ;
    }
}

/// Rounds `numerator / denominator` to the nearest integer, to the even one
/// of two that are equally near.
fn round_half_even(numerator: u128, denominator: u128) -> (nearest: u128)
    requires
        denominator > 0,
        numerator <= 0xffff_ffff_ffff_ffff_ffff,
        denominator <= 0xffff_ffff_ffff_ffff,
    ensures
        nearest == rounded(numerator as nat, denominator as nat),
        nearest <= numerator,
{
    let quotient = numerator / denominator;
    let rest = numerator % denominator;
    assert(quotient * denominator + rest == numerator) by (nonlinear_arith)
        requires
            quotient == numerator / denominator,
            rest == numerator % denominator,
            denominator > 0,
    ;
    if 2 * rest > denominator || (2 * rest == denominator && quotient % 2 == 1) {
        assert(quotient + 1 <= numerator) by (nonlinear_arith)
            requires
                quotient * denominator + rest == numerator,
                rest < denominator,
                2 * rest >= denominator,
                denominator > 0,
                quotient >= 0,
        ;
        quotient + 1
    } else {
        quotient
    }
}

/// Appends the digits of `value / divisor`.
fn push_scaled(out: &mut String, value: u64, divisor: u64)
    requires
        divisor > 0,
    ensures
        final(out)@ == old(out)@ + scaled_text(value as nat, divisor as nat),
{
    if (value as u128) < 10 * (divisor as u128) {
        let tenths = round_half_even(10 * (value as u128), divisor as u128);
        push_decimal(out, (tenths / 10) as u64);
        out.append(".");
        out.append(digit_text((tenths % 10) as u8));
        assert(out@ =~= old(out)@ + scaled_text(value as nat, divisor as nat));
    } else {
        let whole = round_half_even(value as u128, divisor as u128);
        push_decimal(out, whole as u64);
    }
}

/// The number of divisions for `value`, and `base` to that power.
fn scale(value: u64, base: u64) -> (scaled: (u8, u64))
    requires
        0 < base <= 1024,
    ensures
        scaled.0 == scalings(value as nat, base as nat),
        scaled.1 == power(base as nat, scaled.0 as nat),
        scaled.0 <= 5,
        scaled.1 > 0,
{
    let mut k: u8 = 0;
    let mut divisor: u64 = 1;
    proof {
        reveal_with_fuel(power, 2);
    }
    while k < 5 && value >= 1000 * divisor
        invariant
            0 < base <= 1024,
            k <= 5,
            divisor == power(base as nat, k as nat),
            divisor <= 0x4_0000_0000_0000,
            divisor > 0,
            k < 5 ==> divisor <= 0x100_0000_0000,
            scalings_from(value as nat, base as nat, k as nat) == scalings(
                value as nat,
                base as nat,
            ),
        decreases 5 - k,
    {
        proof {
            lemma_power_bound(base as nat, (k + 1) as nat);
            lemma_power_bound(base as nat, k as nat);
            reveal_with_fuel(power, 7);
            assert(power(base as nat, (k + 1) as nat) == base * power(base as nat, k as nat));
            if k + 1 < 5 {
                assert(power(1024, (k + 1) as nat) <= 0x100_0000_0000);
            }
            assert(divisor * base == base * divisor && divisor * base > 0) by (nonlinear_arith)
                requires
                    divisor > 0,
                    base > 0,
            ;
        }
        divisor = divisor * base;
        k = k + 1;
    }
    (k, divisor)
}

/// Print a number in short human format, similar to GNU tools, e.g., 10M for
/// 10 million: see [`human_text`], with powers of 1000 and the suffixes k, M,
/// B, T and P.
pub fn format_integer(uint: u64) -> (text: String)
    ensures
        text@ == human_text(uint as nat, 1000, |k: nat| decimal_suffix(k), Seq::empty()),
{
    let mut text = String::new();
    let (k, divisor) = scale(uint, 1000);
    if k == 0 {
        push_decimal(&mut text, uint);
    } else {
        push_scaled(&mut text, uint, divisor);
        let suffix = if k == 1 {
            "k"
        } else if k == 2 {
            "M"
        } else if k == 3 {
            "B"
        } else if k == 4 {
            "T"
        } else {
            "P"
        };
        text.append(suffix);
    }
    assert(text@ =~= human_text(uint as nat, 1000, |k: nat| decimal_suffix(k), Seq::empty()));
    text
}

/// Similar to [`format_integer`], except that it uses binary suffixes
/// (Kibibyte etc.) and B as a unit: see [`human_text`], with powers of 1024
/// and the suffixes Ki, Mi, Gi, Ti and Pi.
pub fn format_file_size_binary(uint: u64) -> (text: String)
    ensures
        text@ == human_text(uint as nat, 1024, |k: nat| binary_suffix(k), "B"@),
{
    let mut text = String::new();
    let (k, divisor) = scale(uint, 1024);
    if k == 0 {
        push_decimal(&mut text, uint);
    } else {
        push_scaled(&mut text, uint, divisor);
        let suffix = if k == 1 {
            "Ki"
        } else if k == 2 {
            "Mi"
        } else if k == 3 {
            "Gi"
        } else if k == 4 {
            "Ti"
        } else {
            "Pi"
        };
        text.append(suffix);
    }
    text.append("B");
    assert(text@ =~= human_text(uint as nat, 1024, |k: nat| binary_suffix(k), "B"@));
    text
}

} // verus!
