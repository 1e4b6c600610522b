//! The handshake: how the client tells the server the transfer unit size.
//!
//! Right after connecting, the client writes the size as ASCII decimal
//! digits and goes on to read; there is no answer. The server reads at
//! most `PREFERENCE_CAP` bytes, drops the NUL padding at their end, and
//! reads what remains as an unsigned number. It then writes zero-filled buffers of exactly that
//! size until the stream fails.

use vstd::prelude::*;
use vstd::slice::slice_subrange;
use vstd::utf8::valid_utf8;
use crate::decimal::{
    digits_of, lemma_digits_denote, lemma_digits_len, spec_all_digits, spec_ascii, spec_digits,
    spec_pow10, spec_value,
};

verus! {

/// The largest number of bytes that the server reads for the preference.
pub const PREFERENCE_CAP: usize = 128;

/// Why the bytes received are no transfer unit size.
#[derive(Clone, Copy, Debug, PartialEq, Eq, Structural)]
pub enum HandshakeError {
    /// The bytes are not well-formed UTF-8.
    NotUtf8,
    /// Nothing is left once the NUL padding at the end is dropped.
    Empty,
    /// The text is not an optional `+` followed by decimal digits.
    NotNumeric,
    /// The number is zero: a transfer unit holds at least one byte.
    Zero,
    /// The number does not fit the machine's size type.
    TooLarge,
}

/// The part of what was received that the server looks at: the first
/// `PREFERENCE_CAP` bytes.
pub open spec fn spec_window(received: Seq<u8>) -> Seq<u8> {
    if received.len() <= PREFERENCE_CAP {
        received
    } else {
        received.subrange(0, PREFERENCE_CAP as int)
    }
}

/// `s` without the NUL bytes at its end. A NUL byte anywhere else stays:
/// only padding behind the text is insignificant.
pub open spec fn spec_trim_end(s: Seq<u8>) -> Seq<u8>
    decreases s.len(),
{
    if s.len() > 0 && s.last() == 0 {
        spec_trim_end(s.drop_last())
    } else {
        s
    }
}

/// The text behind an optional leading `+`.
pub open spec fn spec_unsigned_part(text: Seq<u8>) -> Seq<u8> {
    if text.len() > 0 && text[0] == 43 {
        text.drop_first()
    } else {
        text
    }
}

/// Whether every byte is an ASCII decimal digit.
pub open spec fn spec_all_ascii_digits(text: Seq<u8>) -> bool {
    forall|i: int| 0 <= i < text.len() ==> 48 <= #[trigger] text[i] <= 57
}

/// Whether the text is a number: an optional `+`, then one digit or more.
pub open spec fn spec_is_number(text: Seq<u8>) -> bool {
    spec_unsigned_part(text).len() > 0 && spec_all_ascii_digits(spec_unsigned_part(text))
}

/// The digit values of a text of ASCII digits.
pub open spec fn spec_digit_values(text: Seq<u8>) -> Seq<u8> {
    Seq::new(text.len(), |i: int| (text[i] - 48) as u8)
}

/// The number that a text denotes, where it is a number.
pub open spec fn spec_number(text: Seq<u8>) -> nat {
    spec_value(spec_digit_values(spec_unsigned_part(text)))
}

/// What the server makes of the bytes it received: the transfer unit size,
/// which is never zero, or the reason why there is none.
pub open spec fn spec_decode(received: Seq<u8>) -> Result<usize, HandshakeError> {
    let window = spec_window(received);
    if !valid_utf8(window) {
        Err(HandshakeError::NotUtf8)
    } else {
        let text = spec_trim_end(window);
        if text.len() == 0 {
            Err(HandshakeError::Empty)
        } else if !spec_is_number(text) {
            Err(HandshakeError::NotNumeric)
        } else if spec_number(text) == 0 {
            Err(HandshakeError::Zero)
        } else if spec_number(text) > usize::MAX {
            Err(HandshakeError::TooLarge)
        } else {
            Ok(spec_number(text) as usize)
        }
    }
}

/// What the client writes for a transfer unit size: its decimal digits in
/// ASCII, without sign, padding or leading zeros.
pub open spec fn spec_encode(buffer_size: usize) -> Seq<u8> {
    spec_ascii(spec_digits(buffer_size as nat))
}

/// A buffer of `size` zero bytes.
pub open spec fn spec_zeros(size: nat) -> Seq<u8> {
    Seq::new(size, |i: int| 0u8)
}

/// Tells whether `bytes` are well-formed UTF-8, by `core::str::from_utf8`,
/// which succeeds on exactly the well-formed byte strings.
#[verifier::external_body]
fn is_utf8(bytes: &[u8]) -> (r: bool)
    ensures
        r == valid_utf8(bytes@),
{
    core::str::from_utf8(bytes).is_ok()
}

proof fn lemma_trim_end_at(s: Seq<u8>, b: int)
    requires
        0 <= b <= s.len(),
        forall|j: int| b <= j < s.len() ==> s[j] == 0,
        b > 0 ==> s[b - 1] != 0,
    ensures
        spec_trim_end(s) == s.subrange(0, b),
    decreases s.len() - b,
{
    if b == s.len() {
        assert(s.subrange(0, s.len() as int) =~= s);
    } else {
        let rest = s.drop_last();
        lemma_trim_end_at(rest, b);
        assert(rest.subrange(0, b) =~= s.subrange(0, b));
    }
}

/// A digit sequence denotes at least what any of its prefixes denotes.
proof fn lemma_value_prefix(d: Seq<u8>, k: int)
    requires
        0 <= k <= d.len(),
    ensures
        spec_value(d.subrange(0, k)) <= spec_value(d),
    decreases d.len(),
{
    if k == d.len() {
        assert(d.subrange(0, k) =~= d);
    } else {
        lemma_value_prefix(d.drop_last(), k);
        assert(d.drop_last().subrange(0, k) =~= d.subrange(0, k));
    }
}

/// What the client writes is short: at most twenty digits, each an ASCII
/// digit, the first of them not a zero unless the size is zero.
pub proof fn lemma_encode_shape(buffer_size: usize)
    ensures
        1 <= spec_encode(buffer_size).len() <= 20,
        spec_all_ascii_digits(spec_encode(buffer_size)),
        spec_digit_values(spec_encode(buffer_size)) == spec_digits(buffer_size as nat),
        buffer_size > 0 ==> spec_encode(buffer_size)[0] != 48,
{
    let n = buffer_size as nat;
    lemma_digits_denote(n);
    assert(spec_pow10(20) == 100_000_000_000_000_000_000nat) by {
        reveal_with_fuel(spec_pow10, 21);
    }
    lemma_digits_len(n, 20);
    let digits = spec_digits(n);
    let text = spec_encode(buffer_size);
    assert forall|i: int| 0 <= i < text.len() implies 48 <= #[trigger] text[i] <= 57 by {
        assert(digits[i] <= 9);
    }
    assert(spec_digit_values(text) =~= digits) by {
        assert forall|i: int| 0 <= i < digits.len() implies spec_digit_values(text)[i]
            == digits[i] by {
            assert(digits[i] <= 9);
        }
    }
    assert(digits[0] <= 9);
}

/// The handshake round trip. Whatever size above zero the client asks
/// for, and however many NUL bytes follow its digits within the server's
/// read, the server reads exactly that size.
pub proof fn lemma_preference_round_trip(buffer_size: usize, padding: nat)
    requires
        buffer_size > 0,
        spec_encode(buffer_size).len() + padding <= PREFERENCE_CAP,
    ensures
        spec_decode(spec_encode(buffer_size) + spec_zeros(padding)) == Ok::<
            usize,
            HandshakeError,
        >(buffer_size),
{
    let text = spec_encode(buffer_size);
    let sent = text + spec_zeros(padding);
    lemma_encode_shape(buffer_size);
    lemma_digits_denote(buffer_size as nat);
    assert(spec_window(sent) == sent);
    assert(valid_utf8(sent)) by {
        assert(sent.subrange(0, 0) =~= Seq::<u8>::empty());
        assert(vstd::utf8::partial_valid_utf8(sent, 0));
        assert forall|i: int| 0 <= i < sent.len() implies #[trigger]
            vstd::utf8::is_leading_byte_width_1(sent[i]) by {
            if i < text.len() {
                assert(sent[i] == text[i]);
            }
        }
        vstd::utf8::partial_valid_utf8_extend_ascii_block(sent, 0, sent.len() as int);
        assert(sent.subrange(0, sent.len() as int) =~= sent);
    }
    assert(sent[text.len() - 1] == text[text.len() - 1]);
    lemma_trim_end_at(sent, text.len() as int);
    assert(sent.subrange(0, text.len() as int) =~= text);
    assert(spec_trim_end(sent) == text);
    assert(spec_unsigned_part(text) == text);
}

/// Finds where the NUL padding at the end begins: the length of
/// `spec_trim_end`.
fn trimmed_len(window: &[u8]) -> (end: usize)
    ensures
        end <= window@.len(),
        window@.subrange(0, end as int) == spec_trim_end(window@),
{
    let mut end: usize = window.len();
    while end > 0 && window[end - 1] == 0
        invariant
            end <= window.len(),
            forall|j: int| end <= j < window.len() ==> window@[j] == 0,
        decreases end,
    {
        end -= 1;
    }
    proof {
        lemma_trim_end_at(window@, end as int);
    }
    end
}

/// Tells whether the bytes from `from` up to `to` are all ASCII digits.
fn all_ascii_digits(window: &[u8], from: usize, to: usize) -> (r: bool)
    requires
        from <= to <= window@.len(),
    ensures
        r == spec_all_ascii_digits(window@.subrange(from as int, to as int)),
{
    let ghost text = window@.subrange(from as int, to as int);
    let mut i: usize = from;
    while i < to
        invariant
            from <= i <= to <= window@.len(),
            text == window@.subrange(from as int, to as int),
            forall|j: int| 0 <= j < i - from ==> 48 <= #[trigger] text[j] <= 57,
        decreases to - i,
    {
        let b = window[i];
        if b < 48 || b > 57 {
            assert(text[i - from] == b);
            return false;
        }
        i += 1;
    }
    true
}

/// The number that the ASCII digits from `from` up to `to` denote, unless
/// it is too large for the size type.
fn number_of(window: &[u8], from: usize, to: usize) -> (r: Option<usize>)
    requires
        from <= to <= window@.len(),
        spec_all_ascii_digits(window@.subrange(from as int, to as int)),
    ensures
        match r {
            Some(n) => n == spec_value(
                spec_digit_values(window@.subrange(from as int, to as int)),
            ),
            None => spec_value(spec_digit_values(window@.subrange(from as int, to as int)))
                > usize::MAX,
        },
{
    let ghost text = window@.subrange(from as int, to as int);
    let ghost values = spec_digit_values(text);
    let mut acc: u128 = 0;
    let mut k: usize = from;
    assert(values.subrange(0, 0) =~= Seq::<u8>::empty());
    while k < to
        invariant
            from <= k <= to <= window@.len(),
            text == window@.subrange(from as int, to as int),
            spec_all_ascii_digits(text),
            values == spec_digit_values(text),
            acc == spec_value(values.subrange(0, k - from)),
            acc <= usize::MAX,
        decreases to - k,
    {
        let b = window[k];
        assert(text[k - from] == b);
        let next: u128 = acc * 10 + (b - 48) as u128;
        proof {
            let upto = values.subrange(0, k - from + 1);
            assert(upto.drop_last() =~= values.subrange(0, k - from));
            assert(upto.last() == (b - 48) as u8);
        }
        if next > usize::MAX as u128 {
            proof {
                lemma_value_prefix(values, k - from + 1);
            }
            return None;
        }
        acc = next;
        k += 1;
    }
    assert(values.subrange(0, to - from) =~= values);
    Some(acc as usize)
}

/// Reads the transfer unit size out of what the server received.
pub fn decode_preference(received: &[u8]) -> (r: Result<usize, HandshakeError>)
    ensures
        r == spec_decode(received@),
        r matches Ok(size) ==> size > 0,
{
    let window = if received.len() <= PREFERENCE_CAP {
        received
    } else {
        slice_subrange(received, 0, PREFERENCE_CAP)
    };
    assert(window@ =~= spec_window(received@));
    if !is_utf8(window) {
        return Err(HandshakeError::NotUtf8);
    }
    let end = trimmed_len(window);
    let ghost text = window@.subrange(0, end as int);
    if end == 0 {
        return Err(HandshakeError::Empty);
    }
    let first: usize = if window[0] == 43 {
        1
    } else {
        0
    };
    assert(spec_unsigned_part(text) =~= window@.subrange(first as int, end as int));
    if first == end || !all_ascii_digits(window, first, end) {
        return Err(HandshakeError::NotNumeric);
    }
    match number_of(window, first, end) {
        Some(n) => if n == 0 {
            Err(HandshakeError::Zero)
        } else {
            Ok(n)
        },
        None => Err(HandshakeError::TooLarge),
    }
}

/// Writes the transfer unit size as the client sends it.
pub fn encode_preference(buffer_size: usize) -> (bytes: Vec<u8>)
    ensures
        bytes@ == spec_encode(buffer_size),
{
    let digits = digits_of(buffer_size as u128);
    proof {
        lemma_digits_denote(buffer_size as nat);
    }
    let mut bytes: Vec<u8> = Vec::new();
    let mut i: usize = 0;
    while i < digits.len()
        invariant
            i <= digits.len(),
            spec_all_digits(digits@),
            bytes@ == spec_ascii(digits@.subrange(0, i as int)),
        decreases digits.len() - i,
    {
        let d = digits[i];
        assert(d <= 9);
        bytes.push(d + 48);
        assert(bytes@ =~= spec_ascii(digits@.subrange(0, i + 1)));
        i += 1;
    }
    assert(digits@.subrange(0, i as int) =~= digits@);
    bytes
}

/// The buffer that the server writes again and again: `size` zero bytes.
pub fn send_buffer(size: usize) -> (buffer: Vec<u8>)
    ensures
        buffer@ == spec_zeros(size as nat),
{
    let buffer = vec![0u8; size];
    assert(buffer@ =~= spec_zeros(size as nat));
    buffer
}

} // verus!
