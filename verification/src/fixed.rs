//! Exact fractions written in decimal with a fixed number of places.
//!
//! A rate is a quotient of two integers. It is written without ever
//! leaving integer arithmetic: the digits come from long division, and the
//! last place is rounded to nearest, a tie going to the even digit.

use vstd::prelude::*;
use vstd::string::StringExecFns;
use crate::decimal::{
    digits_of, lemma_padded_unique, lemma_pow10_positive, lemma_value_bound, push_digit_chars,
    spec_all_digits, spec_chars, spec_digits, spec_padded, spec_pow10, spec_value,
};

verus! {

/// The largest denominator that `format_fixed` takes: a tenth of the
/// largest `u128`, so that ten times a remainder can be held.
pub const MAX_DENOMINATOR: u128 = 34028236692093846346337460743176821145;

/// `num / den` rounded to the nearest integer; a value exactly half way
/// between two integers goes to the even one.
pub open spec fn spec_round_half_even(num: nat, den: nat) -> nat {
    let q = num / den;
    let r = num % den;
    if 2 * r > den || (2 * r == den && q % 2 == 1) {
        q + 1
    } else {
        q
    }
}

/// `num / den` in units of ten to the power `-precision`, rounded.
pub open spec fn spec_scaled(num: nat, den: nat, precision: nat) -> nat {
    spec_round_half_even(num * spec_pow10(precision), den)
}

/// `num / den` written with `precision` decimal places: the integer part
/// without leading zeros and, where `precision` is not zero, a point and
/// exactly `precision` digits.
pub open spec fn spec_fixed(num: nat, den: nat, precision: nat) -> Seq<char> {
    let v = spec_scaled(num, den, precision);
    let whole = spec_chars(spec_digits(v / spec_pow10(precision)));
    if precision == 0 {
        whole
    } else {
        whole + seq!['.'] + spec_chars(spec_padded(v % spec_pow10(precision), precision))
    }
}

/// Whether the character is one of `0` to `9`.
pub open spec fn spec_is_digit_char(c: char) -> bool {
    48 <= c as u32 <= 57
}

/// The shape of what `spec_fixed` writes: one digit or more, then, where
/// `precision` is not zero, a point and exactly `precision` digits; and
/// nothing else, so no sign and no exponent.
pub proof fn lemma_fixed_shape(num: nat, den: nat, precision: nat)
    ensures
        ({
            let text = spec_fixed(num, den, precision);
            let whole_len = spec_digits(
                spec_scaled(num, den, precision) / spec_pow10(precision),
            ).len();
            &&& whole_len >= 1
            &&& precision == 0 ==> text.len() == whole_len
            &&& precision > 0 ==> text.len() == whole_len + 1 + precision && text[whole_len as int]
                == '.'
            &&& forall|i: int|
                0 <= i < text.len() && i != whole_len ==> spec_is_digit_char(#[trigger] text[i])
        }),
{
    let v = spec_scaled(num, den, precision);
    let whole = spec_digits(v / spec_pow10(precision));
    let frac = spec_padded(v % spec_pow10(precision), precision);
    let text = spec_fixed(num, den, precision);
    crate::decimal::lemma_digits_denote(v / spec_pow10(precision));
    crate::decimal::lemma_padded_denotes(v % spec_pow10(precision), precision);
    assert forall|i: int| 0 <= i < text.len() && i != whole.len() implies spec_is_digit_char(
        #[trigger] text[i],
    ) by {
        if i < whole.len() {
            assert(whole[i] <= 9);
            assert(text[i] == crate::decimal::spec_digit_char(whole[i]));
        } else {
            let j = i - whole.len() - 1;
            assert(frac[j] <= 9);
            assert(text[i] == crate::decimal::spec_digit_char(frac[j]));
        }
    }
}

/// Rounding to nearest stays within half a unit of the exact quotient, and
/// is exact where the division leaves no remainder.
pub proof fn lemma_round_is_nearest(num: nat, den: nat)
    requires
        den > 0,
    ensures
        2 * (spec_round_half_even(num, den) * den - num) <= den,
        2 * (num - spec_round_half_even(num, den) * den) <= den,
        num % den == 0 ==> spec_round_half_even(num, den) * den == num,
{
    let q = num / den;
    let r = num % den;
    vstd::arithmetic::div_mod::lemma_fundamental_div_mod(num as int, den as int);
    assert(num == q * den + r) by (nonlinear_arith)
        requires
            num == den * q + r,
    ;
    assert((q + 1) * den == q * den + den) by (nonlinear_arith);
}

/// Multiplying numerator and denominator by the same factor changes
/// nothing of what is written.
pub proof fn lemma_fixed_scale(k: nat, num: nat, den: nat, precision: nat)
    requires
        k > 0,
        den > 0,
    ensures
        spec_scaled(k * num, k * den, precision) == spec_scaled(num, den, precision),
        spec_fixed(k * num, k * den, precision) == spec_fixed(num, den, precision),
{
    let p = spec_pow10(precision);
    let x = (num * p) as int;
    assert((k * num) * p == k * (num * p)) by (nonlinear_arith);
    if x > 0 {
        vstd::arithmetic::div_mod::lemma_div_multiples_vanish_quotient(k as int, x, den as int);
    } else {
        assert(k * x == 0) by (nonlinear_arith)
            requires
                x == 0,
        ;
        assert(k * den > 0) by (nonlinear_arith)
            requires
                k > 0,
                den > 0,
        ;
    }
    vstd::arithmetic::div_mod::lemma_truncate_middle(x, k as int, den as int);
    let r = x % (den as int);
    assert((2 * (k * r) > k * den) == (2 * r > den)) by (nonlinear_arith)
        requires
            k > 0,
    ;
    assert((2 * (k * r) == k * den) == (2 * r == den)) by (nonlinear_arith)
        requires
            k > 0,
    ;
}

proof fn lemma_div_mod_unique(x: int, d: int, q: int, r: int)
    requires
        d > 0,
        0 <= r < d,
        x == q * d + r,
    ensures
        q == x / d,
        r == x % d,
{
    vstd::arithmetic::div_mod::lemma_fundamental_div_mod_converse_div(x, d, q, r);
    vstd::arithmetic::div_mod::lemma_fundamental_div_mod_converse_mod(x, d, q, r);
}

/// One step of long division: from the quotient and remainder of `n` by
/// `den` to those of `10 * n`.
proof fn lemma_long_division_step(n: int, den: int, q: int, rem: int, digit: int, rem2: int)
    requires
        den > 0,
        n == den * q + rem,
        10 * rem == den * digit + rem2,
    ensures
        10 * n == den * (10 * q + digit) + rem2,
{
    assert(10 * (den * q + rem) == den * (10 * q) + 10 * rem) by (nonlinear_arith);
    assert(den * (10 * q + digit) == den * (10 * q) + den * digit) by (nonlinear_arith);
}

/// Adding one at digit `k`, where every digit behind `k` was a nine and
/// has become a zero, adds one to the number.
proof fn lemma_increment_at(before: Seq<u8>, after: Seq<u8>, k: int)
    requires
        before.len() == after.len(),
        0 <= k < before.len(),
        before[k] < 9,
        after[k] == before[k] + 1,
        forall|j: int| 0 <= j < k ==> after[j] == before[j],
        forall|j: int| k < j < before.len() ==> before[j] == 9 && after[j] == 0,
    ensures
        spec_value(after) == spec_value(before) + 1,
    decreases before.len(),
{
    if k == before.len() - 1 {
        assert(after.drop_last() =~= before.drop_last());
    } else {
        lemma_increment_at(before.drop_last(), after.drop_last(), k);
    }
}

/// Where every digit was a nine and has become a zero, the number was one
/// below the next power of ten and is now zero.
proof fn lemma_increment_carry(before: Seq<u8>, after: Seq<u8>)
    requires
        before.len() == after.len(),
        forall|j: int| 0 <= j < before.len() ==> before[j] == 9 && after[j] == 0,
    ensures
        spec_value(after) == 0,
        spec_value(before) + 1 == spec_pow10(before.len()),
    decreases before.len(),
{
    if before.len() > 0 {
        lemma_increment_carry(before.drop_last(), after.drop_last());
    }
}

/// Adds one to the number that `digits` denotes, keeping the width. The
/// result tells whether a one was carried out of the first digit.
fn increment(digits: &mut Vec<u8>) -> (carry: bool)
    requires
        spec_all_digits(old(digits)@),
    ensures
        final(digits)@.len() == old(digits)@.len(),
        spec_all_digits(final(digits)@),
        carry ==> spec_value(final(digits)@) + spec_pow10(old(digits)@.len()) == spec_value(
            old(digits)@,
        ) + 1,
        !carry ==> spec_value(final(digits)@) == spec_value(old(digits)@) + 1,
{
    let mut i: usize = digits.len();
    while i > 0
        invariant
            i <= digits.len(),
            digits@.len() == old(digits)@.len(),
            spec_all_digits(old(digits)@),
            forall|j: int| 0 <= j < i ==> digits@[j] == old(digits)@[j],
            forall|j: int| i <= j < digits@.len() ==> old(digits)@[j] == 9 && digits@[j] == 0,
        decreases i,
    {
        i -= 1;
        let d = digits[i];
        assert(d <= 9);
        if d == 9 {
            digits.set(i, 0);
        } else {
            digits.set(i, d + 1);
            proof {
                lemma_increment_at(old(digits)@, digits@, i as int);
                assert forall|j: int| 0 <= j < digits@.len() implies #[trigger] digits@[j]
                    <= 9 by {
                    if j < i {
                        assert(old(digits)@[j] <= 9);
                    }
                }
            }
            return false;
        }
    }
    proof {
        lemma_increment_carry(old(digits)@, digits@);
    }
    true
}

/// Writes `num / den` with `precision` decimal places, rounded to nearest
/// with ties to even.
pub fn format_fixed(num: u128, den: u128, precision: usize) -> (text: String)
    requires
        0 < den <= MAX_DENOMINATOR,
    ensures
        text@ == spec_fixed(num as nat, den as nat, precision as nat),
{
    let mut whole: u128 = num / den;
    let mut rem: u128 = num % den;
    let mut frac: Vec<u8> = Vec::new();
    let mut i: usize = 0;
    proof {
        vstd::arithmetic::div_mod::lemma_fundamental_div_mod(num as int, den as int);
        assert(spec_value(frac@) == 0);
        assert(spec_pow10(0) == 1);
        assert(num * 1 == den * (whole * 1 + 0) + rem) by (nonlinear_arith)
            requires
                num == den * (num as int / den as int) + (num as int % den as int),
                whole == num as int / den as int,
                rem == num as int % den as int,
        ;
    }
    while i < precision
        invariant
            0 < den <= MAX_DENOMINATOR,
            i <= precision,
            frac@.len() == i,
            spec_all_digits(frac@),
            rem < den,
            whole * den <= num,
            num * spec_pow10(i as nat) == den * (whole * spec_pow10(i as nat) + spec_value(frac@))
                + rem,
        decreases precision - i,
    {
        let t: u128 = rem * 10;
        let digit: u128 = t / den;
        let rem2: u128 = t % den;
        proof {
            vstd::arithmetic::div_mod::lemma_fundamental_div_mod(t as int, den as int);
            assert(digit <= 9) by (nonlinear_arith)
                requires
                    t == den * digit + rem2,
                    t < 10 * den,
                    den > 0,
            ;
            let p = spec_pow10(i as nat) as int;
            let q = whole * p + spec_value(frac@);
            lemma_long_division_step(num * p, den as int, q, rem as int, digit as int, rem2 as int);
            let frac2 = frac@.push(digit as u8);
            assert(frac2.drop_last() =~= frac@);
            assert(spec_value(frac2) == spec_value(frac@) * 10 + digit);
            assert(spec_pow10((i + 1) as nat) == 10 * p);
            assert(num * (10 * p) == 10 * (num * p)) by (nonlinear_arith);
            assert(whole * (10 * p) + (spec_value(frac@) * 10 + digit) == 10 * q + digit)
                by (nonlinear_arith)
                requires
                    q == whole * p + spec_value(frac@),
            ;
        }
        frac.push(digit as u8);
        rem = rem2;
        i += 1;
    }
    let ghost p = spec_pow10(precision as nat) as int;
    let ghost q = whole * p + spec_value(frac@);
    let last_odd = if precision == 0 {
        whole % 2 == 1
    } else {
        frac[precision - 1] % 2 == 1
    };
    let twice: u128 = rem * 2;
    let up = twice > den || (twice == den && last_odd);
    proof {
        lemma_pow10_positive(precision as nat);
        assert(den * q == q * den) by (nonlinear_arith);
        lemma_div_mod_unique(num * p, den as int, q, rem as int);
        if precision == 0 {
            assert(q == whole) by (nonlinear_arith)
                requires
                    q == whole * p + 0,
                    p == 1,
            ;
        } else {
            let tenth = spec_pow10((precision - 1) as nat) as int;
            assert(p == 10 * tenth);
            assert(frac@.last() == frac@[precision - 1]);
            assert(q == 10 * (whole * tenth + spec_value(frac@.drop_last())) + frac@.last())
                by (nonlinear_arith)
                requires
                    q == whole * p + (spec_value(frac@.drop_last()) * 10 + frac@.last()),
                    p == 10 * tenth,
            ;
        }
        assert(last_odd == (q % 2 == 1));
        assert(up == (spec_scaled(num as nat, den as nat, precision as nat) == q + 1));
        assert(!up == (spec_scaled(num as nat, den as nat, precision as nat) == q));
    }
    if up {
        proof {
            assert(rem >= 1);
            assert(den >= 2);
            assert(whole < u128::MAX) by (nonlinear_arith)
                requires
                    whole * den <= num,
                    den >= 2,
                    num <= u128::MAX,
                    whole >= 0,
            ;
        }
        let ghost before = frac@;
        let carry = increment(&mut frac);
        if carry {
            whole = whole + 1;
            proof {
                assert((whole - 1) * p + spec_value(before) + 1 == whole * p + spec_value(frac@))
                    by (nonlinear_arith)
                    requires
                        spec_value(frac@) + p == spec_value(before) + 1,
                ;
            }
        }
    }
    let ghost v = spec_scaled(num as nat, den as nat, precision as nat) as int;
    proof {
        assert(v == whole * p + spec_value(frac@));
        lemma_value_bound(frac@);
        lemma_div_mod_unique(v, p, whole as int, spec_value(frac@) as int);
        lemma_padded_unique(frac@);
    }
    let mut text = String::new();
    let whole_digits = digits_of(whole);
    proof {
        crate::decimal::lemma_digits_denote(whole as nat);
    }
    push_digit_chars(&mut text, &whole_digits);
    if precision > 0 {
        proof {
            reveal_strlit(".");
        }
        text.append(".");
        push_digit_chars(&mut text, &frac);
        assert(text@ =~= spec_fixed(num as nat, den as nat, precision as nat)) by {
            assert("."@ =~= seq!['.']);
        }
    } else {
        assert(text@ =~= spec_fixed(num as nat, den as nat, precision as nat));
    }
    text
}

} // verus!
