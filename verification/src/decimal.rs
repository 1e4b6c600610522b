//! Decimal notation for natural numbers, as sequences of digits.
//!
//! A digit sequence holds the digit values 0 to 9, most significant first.
//! The handshake writes such a sequence as ASCII bytes and the report
//! writes it as characters.

use vstd::prelude::*;
use vstd::string::StringExecFns;

verus! {

/// The digits of `n`, most significant first, without leading zeros.
/// Zero is the single digit 0.
pub open spec fn spec_digits(n: nat) -> Seq<u8>
    decreases n,
{
    if n < 10 {
        seq![n as u8]
    } else {
        spec_digits(n / 10).push((n % 10) as u8)
    }
}

/// The last `width` digits of `n`, with zeros in front where `n` is short.
pub open spec fn spec_padded(n: nat, width: nat) -> Seq<u8>
    decreases width,
{
    if width == 0 {
        Seq::<u8>::empty()
    } else {
        spec_padded(n / 10, (width - 1) as nat).push((n % 10) as u8)
    }
}

/// The number that a digit sequence denotes. The empty sequence denotes 0.
pub open spec fn spec_value(d: Seq<u8>) -> nat
    decreases d.len(),
{
    if d.len() == 0 {
        0
    } else {
        spec_value(d.drop_last()) * 10 + d.last() as nat
    }
}

/// Every element is a digit value.
pub open spec fn spec_all_digits(d: Seq<u8>) -> bool {
    forall|i: int| 0 <= i < d.len() ==> #[trigger] d[i] <= 9
}

/// Ten to the power `e`.
pub open spec fn spec_pow10(e: nat) -> nat
    decreases e,
{
    if e == 0 {
        1
    } else {
        10 * spec_pow10((e - 1) as nat)
    }
}

/// The character for a digit value.
pub open spec fn spec_digit_char(d: u8) -> char {
    if d == 0 {
        '0'
    } else if d == 1 {
        '1'
    } else if d == 2 {
        '2'
    } else if d == 3 {
        '3'
    } else if d == 4 {
        '4'
    } else if d == 5 {
        '5'
    } else if d == 6 {
        '6'
    } else if d == 7 {
        '7'
    } else if d == 8 {
        '8'
    } else {
        '9'
    }
}

/// A digit sequence written as characters.
pub open spec fn spec_chars(d: Seq<u8>) -> Seq<char> {
    Seq::new(d.len(), |i: int| spec_digit_char(d[i]))
}

/// A digit sequence written as ASCII bytes.
pub open spec fn spec_ascii(d: Seq<u8>) -> Seq<u8> {
    Seq::new(d.len(), |i: int| (d[i] + 48) as u8)
}

/// Powers of ten are positive.
pub proof fn lemma_pow10_positive(e: nat)
    ensures
        spec_pow10(e) > 0,
    decreases e,
{
    if e > 0 {
        lemma_pow10_positive((e - 1) as nat);
    }
}

/// The digits of a number are digit values, there is at least one, and
/// they denote the number.
pub proof fn lemma_digits_denote(n: nat)
    ensures
        spec_all_digits(spec_digits(n)),
        spec_digits(n).len() >= 1,
        spec_value(spec_digits(n)) == n,
        n > 0 ==> spec_digits(n)[0] != 0,
    decreases n,
{
    if n < 10 {
        let d = spec_digits(n);
        assert(d.drop_last() =~= Seq::<u8>::empty());
        assert(spec_value(d.drop_last()) == 0);
    } else {
        lemma_digits_denote(n / 10);
        let rest = spec_digits(n / 10);
        let d = rest.push((n % 10) as u8);
        assert(d.drop_last() =~= rest);
        assert(d[0] == rest[0]);
    }
}

/// A number below ten to the power `k` has at most `k` digits, for `k` of
/// at least one.
pub proof fn lemma_digits_len(n: nat, k: nat)
    requires
        k >= 1,
        n < spec_pow10(k),
    ensures
        spec_digits(n).len() <= k,
    decreases k,
{
    if n >= 10 {
        assert(spec_pow10(1) == 10) by {
            assert(spec_pow10(0) == 1);
        }
        assert(k >= 2);
        lemma_digits_len(n / 10, (k - 1) as nat);
    }
}

/// A padded number has the width asked for, holds digit values, and
/// denotes the number modulo ten to the power of the width.
pub proof fn lemma_padded_denotes(n: nat, width: nat)
    ensures
        spec_padded(n, width).len() == width,
        spec_all_digits(spec_padded(n, width)),
        spec_value(spec_padded(n, width)) == n % spec_pow10(width),
    decreases width,
{
    if width == 0 {
    } else {
        let w1 = (width - 1) as nat;
        lemma_padded_denotes(n / 10, w1);
        let rest = spec_padded(n / 10, w1);
        let d = rest.push((n % 10) as u8);
        assert(d.drop_last() =~= rest);
        lemma_pow10_positive(w1);
        let p = spec_pow10(w1) as int;
        let a = n as int;
        // a % (10 * p) == 10 * ((a / 10) % p) + a % 10
        vstd::arithmetic::div_mod::lemma_breakdown(a, 10, p);
        assert(10 * p == p * 10) by (nonlinear_arith);
    }
}

/// A digit sequence denotes a number below ten to the power of its length.
pub proof fn lemma_value_bound(d: Seq<u8>)
    requires
        spec_all_digits(d),
    ensures
        spec_value(d) < spec_pow10(d.len()),
    decreases d.len(),
{
    if d.len() > 0 {
        assert(spec_all_digits(d.drop_last())) by {
            assert forall|i: int| 0 <= i < d.drop_last().len() implies #[trigger] d.drop_last()[i]
                <= 9 by {
                assert(d.drop_last()[i] == d[i]);
            }
        }
        lemma_value_bound(d.drop_last());
        assert(d.last() <= 9);
    }
}

/// A digit sequence is the padded notation of the number it denotes.
pub proof fn lemma_padded_unique(d: Seq<u8>)
    requires
        spec_all_digits(d),
    ensures
        d == spec_padded(spec_value(d), d.len()),
    decreases d.len(),
{
    if d.len() == 0 {
        assert(d =~= Seq::<u8>::empty());
    } else {
        let rest = d.drop_last();
        assert(spec_all_digits(rest)) by {
            assert forall|i: int| 0 <= i < rest.len() implies #[trigger] rest[i] <= 9 by {
                assert(rest[i] == d[i]);
            }
        }
        lemma_padded_unique(rest);
        let v = spec_value(d);
        assert(d.last() <= 9);
        assert(v / 10 == spec_value(rest));
        assert(v % 10 == d.last() as nat);
        assert(d =~= rest.push(d.last()));
    }
}

/// Appends the digits of `n` to `out`.
fn push_digits(n: u128, out: &mut Vec<u8>)
    ensures
        final(out)@ == old(out)@ + spec_digits(n as nat),
    decreases n,
{
    if n >= 10 {
        push_digits(n / 10, out);
    }
    out.push((n % 10) as u8);
    assert(out@ =~= old(out)@ + spec_digits(n as nat));
}

/// The digits of `n`.
pub fn digits_of(n: u128) -> (d: Vec<u8>)
    ensures
        d@ == spec_digits(n as nat),
{
    let mut d: Vec<u8> = Vec::new();
    push_digits(n, &mut d);
    assert(d@ =~= spec_digits(n as nat));
    d
}

/// The one-character text for a digit value.
fn digit_text(d: u8) -> (s: &'static str)
    requires
        d <= 9,
    ensures
        s@ == seq![spec_digit_char(d)],
{
    proof {
        reveal_strlit("0");
        reveal_strlit("1");
        reveal_strlit("2");
        reveal_strlit("3");
        reveal_strlit("4");
        reveal_strlit("5");
        reveal_strlit("6");
        reveal_strlit("7");
        reveal_strlit("8");
        reveal_strlit("9");
    }
    let s = if d == 0 {
        "0"
    } else if d == 1 {
        "1"
    } else if d == 2 {
        "2"
    } else if d == 3 {
        "3"
    } else if d == 4 {
        "4"
    } else if d == 5 {
        "5"
    } else if d == 6 {
        "6"
    } else if d == 7 {
        "7"
    } else if d == 8 {
        "8"
    } else {
        "9"
    };
    assert(s@ =~= seq![spec_digit_char(d)]);
    s
}

/// Appends a digit sequence to a text, as characters.
pub(crate) fn push_digit_chars(text: &mut String, digits: &Vec<u8>)
    requires
        spec_all_digits(digits@),
    ensures
        final(text)@ == old(text)@ + spec_chars(digits@),
{
    let mut i: usize = 0;
    while i < digits.len()
        invariant
            i <= digits.len(),
            spec_all_digits(digits@),
            text@ == old(text)@ + spec_chars(digits@.subrange(0, i as int)),
        decreases digits.len() - i,
    {
        text.append(digit_text(digits[i]));
        assert(text@ =~= old(text)@ + spec_chars(digits@.subrange(0, i + 1)));
        i += 1;
    }
    assert(digits@.subrange(0, i as int) =~= digits@);
}

} // verus!
