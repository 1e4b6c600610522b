//! The lines of the report: one per window and one for the average.
//!
//! A rate is the number of bits transferred, divided by the number of bits
//! in one unit and by the number of seconds. It is an exact fraction and is
//! written with the configured number of decimal places.
//!
//! A window counts as one second, however long its last read took. The one
//! exception is a window that the byte maximum cut short: its rate is
//! taken over the time it lasted, which makes it an approximation of the
//! rate at that instant.

use vstd::prelude::*;
use vstd::string::StringExecFns;
use crate::config::Configuration;
use crate::decimal::{
    digits_of, lemma_digits_denote, push_digit_chars, spec_chars, spec_digits, spec_pow10,
};
use crate::fixed::{
    format_fixed, lemma_fixed_scale, lemma_round_is_nearest, spec_fixed, spec_scaled,
};
use crate::sampler::{spec_sample_wf, IntervalSample, SessionTotals, WINDOW_NANOS};
use crate::units::{spec_unit_of_char, UnitScale};

verus! {

/// The number of bits in `transfers` transfer units of `buffer_size` bytes.
pub open spec fn spec_bits(transfers: nat, buffer_size: nat) -> nat {
    transfers * buffer_size * 8
}

/// The rate of `transfers` transfer units of `buffer_size` bytes in
/// `seconds` seconds, in `unit` per second, written with `precision`
/// decimal places.
pub open spec fn spec_rate_text(
    transfers: nat,
    buffer_size: nat,
    unit: UnitScale,
    seconds: nat,
    precision: nat,
) -> Seq<char> {
    spec_fixed(spec_bits(transfers, buffer_size), unit.spec_divisor() * seconds, precision)
}

/// The volume of a window: its bits in `unit`.
pub open spec fn spec_volume_text(
    sample: IntervalSample,
    buffer_size: usize,
    unit: UnitScale,
    precision: usize,
) -> Seq<char> {
    spec_rate_text(sample.transfer_count as nat, buffer_size as nat, unit, 1, precision as nat)
}

/// The time over which the rate of a window that was cut short is taken:
/// the time it lasted, and one nanosecond where that was not measurable.
pub open spec fn spec_effective_nanos(sample: IntervalSample) -> nat {
    if sample.elapsed_nanos == 0 {
        1
    } else {
        sample.elapsed_nanos as nat
    }
}

/// The rate of a window in `unit` per second. A whole window counts as one
/// second, so its rate is its volume. A window that was cut short has its
/// bits divided by the seconds it lasted; there is no rate to write where
/// its bits times the nanoseconds of a second leave the range of 128 bits.
pub open spec fn spec_window_rate_text(
    sample: IntervalSample,
    buffer_size: usize,
    unit: UnitScale,
    precision: usize,
) -> Option<Seq<char>> {
    let bits = spec_bits(sample.transfer_count as nat, buffer_size as nat);
    if !sample.cut_short {
        Some(spec_fixed(bits, unit.spec_divisor(), precision as nat))
    } else if bits * (WINDOW_NANOS as nat) > u128::MAX {
        None
    } else {
        Some(
            spec_fixed(
                bits * (WINDOW_NANOS as nat),
                unit.spec_divisor() * spec_effective_nanos(sample),
                precision as nat,
            ),
        )
    }
}

/// The line for one window: its number, a tab, the volume with its unit, a
/// tab, and the rate with its unit and `/s`. There is no line where there
/// is no rate.
pub open spec fn spec_report_line(
    sample: IntervalSample,
    buffer_size: usize,
    unit: UnitScale,
    precision: usize,
) -> Option<Seq<char>> {
    match spec_window_rate_text(sample, buffer_size, unit, precision) {
        None => None,
        Some(rate) => Some(
            spec_chars(spec_digits(sample.index as nat)) + "\t"@ + spec_volume_text(
                sample,
                buffer_size,
                unit,
                precision,
            ) + unit.spec_label() + "\t"@ + rate + unit.spec_label() + "/s"@,
        ),
    }
}

/// The last line: the rate over the whole session.
pub open spec fn spec_average_line(
    total_transfers: u64,
    buffer_size: usize,
    unit: UnitScale,
    duration_seconds: usize,
    precision: usize,
) -> Seq<char> {
    "Average rate over "@ + spec_chars(spec_digits(duration_seconds as nat)) + " seconds: "@
        + spec_rate_text(
        total_transfers as nat,
        buffer_size as nat,
        unit,
        duration_seconds as nat,
        precision as nat,
    ) + unit.spec_label()
}

/// The reported number is the raw bit count over the divisor of the unit.
/// For each of the six scale characters the divisor is the one of the
/// table: a thousand, a million and a thousand millions for `K`, `M`, `G`;
/// 8192, 8388608 and 8589934592 for `k`, `m`, `g`. The number written,
/// read in units of ten to the power `-precision`, differs from the exact
/// quotient by at most half such a unit, and not at all where the quotient
/// has no more than `precision` decimal places.
pub proof fn lemma_rate_in_unit(c: char, raw_bits: nat, precision: nat)
    requires
        c == 'K' || c == 'M' || c == 'G' || c == 'k' || c == 'm' || c == 'g',
    ensures
        spec_unit_of_char(c) is Some,
        ({
            let divisor = spec_unit_of_char(c)->Some_0.spec_divisor();
            let written = spec_scaled(raw_bits, divisor, precision);
            let exact = raw_bits * spec_pow10(precision);
            &&& c == 'K' ==> divisor == 1_000
            &&& c == 'M' ==> divisor == 1_000_000
            &&& c == 'G' ==> divisor == 1_000_000_000
            &&& c == 'k' ==> divisor == 8_192
            &&& c == 'm' ==> divisor == 8_388_608
            &&& c == 'g' ==> divisor == 8_589_934_592
            &&& 2 * (written * divisor - exact) <= divisor
            &&& 2 * (exact - written * divisor) <= divisor
            &&& exact % divisor == 0 ==> written * divisor == exact
        }),
{
    let divisor = spec_unit_of_char(c)->Some_0.spec_divisor();
    lemma_round_is_nearest(raw_bits * spec_pow10(precision), divisor);
}

/// Every sample that a session reports has a rate, and so a line.
pub proof fn lemma_sampled_window_has_a_line(
    sample: IntervalSample,
    buffer_size: usize,
    max_bytes: Option<usize>,
    unit: UnitScale,
    precision: usize,
)
    requires
        spec_sample_wf(sample, buffer_size, max_bytes),
    ensures
        spec_window_rate_text(sample, buffer_size, unit, precision) is Some,
        spec_report_line(sample, buffer_size, unit, precision) is Some,
{
    if sample.cut_short {
        let before = sample.transfer_count - 1;
        let cap = max_bytes->Some_0;
        assert(before * buffer_size <= cap);
        assert(spec_bits(sample.transfer_count as nat, buffer_size as nat) == (before
            * buffer_size + buffer_size) * 8) by (nonlinear_arith)
            requires
                before == sample.transfer_count - 1,
                spec_bits(sample.transfer_count as nat, buffer_size as nat)
                    == sample.transfer_count * buffer_size * 8,
        ;
    }
}

/// Writes the rate of `transfers` transfer units of `buffer_size` bytes in
/// `seconds` seconds.
pub fn rate_text(
    transfers: u64,
    buffer_size: usize,
    unit: UnitScale,
    seconds: usize,
    precision: usize,
) -> (text: String)
    requires
        seconds > 0,
    ensures
        text@ == spec_rate_text(
            transfers as nat,
            buffer_size as nat,
            unit,
            seconds as nat,
            precision as nat,
        ),
{
    let per_unit = unit.bytes_per_unit();
    assert(transfers * buffer_size <= u128::MAX) by (nonlinear_arith)
        requires
            transfers <= u64::MAX,
            buffer_size <= u64::MAX,
    ;
    assert(0 < per_unit * seconds <= crate::fixed::MAX_DENOMINATOR) by (nonlinear_arith)
        requires
            0 < per_unit <= 1_073_741_824,
            0 < seconds <= u64::MAX,
    ;
    let bytes: u128 = (transfers as u128) * (buffer_size as u128);
    let den: u128 = (per_unit as u128) * (seconds as u128);
    proof {
        lemma_fixed_scale(8, bytes as nat, den as nat, precision as nat);
        assert(8 * bytes == spec_bits(transfers as nat, buffer_size as nat)) by (nonlinear_arith)
            requires
                bytes == transfers * buffer_size,
        ;
        assert(8 * den == unit.spec_divisor() * seconds) by (nonlinear_arith)
            requires
                den == per_unit * seconds,
                8 * per_unit == unit.spec_divisor(),
        ;
    }
    format_fixed(bytes, den, precision)
}

/// Writes the rate of one window, if it has one.
pub fn window_rate_text(
    sample: &IntervalSample,
    buffer_size: usize,
    unit: UnitScale,
    precision: usize,
) -> (text: Option<String>)
    ensures
        match spec_window_rate_text(*sample, buffer_size, unit, precision) {
            Some(t) => text is Some && text->Some_0@ == t,
            None => text is None,
        },
{
    if !sample.cut_short {
        let text = rate_text(sample.transfer_count, buffer_size, unit, 1, precision);
        assert(unit.spec_divisor() * 1 == unit.spec_divisor());
        return Some(text);
    }
    assert(sample.transfer_count * buffer_size <= u128::MAX) by (nonlinear_arith)
        requires
            sample.transfer_count <= u64::MAX,
            buffer_size <= u64::MAX,
    ;
    let bytes: u128 = (sample.transfer_count as u128) * (buffer_size as u128);
    let ghost bits = spec_bits(sample.transfer_count as nat, buffer_size as nat);
    assert(bits == bytes * 8) by (nonlinear_arith)
        requires
            bits == sample.transfer_count * buffer_size * 8,
            bytes == sample.transfer_count * buffer_size,
    ;
    let scaled = match bytes.checked_mul(8) {
        Some(b) => b.checked_mul(WINDOW_NANOS as u128),
        None => None,
    };
    match scaled {
        None => None,
        Some(num) => {
            let nanos: u64 = if sample.elapsed_nanos == 0 {
                1
            } else {
                sample.elapsed_nanos
            };
            let divisor = unit.divisor();
            assert(0 < divisor * nanos <= crate::fixed::MAX_DENOMINATOR) by (nonlinear_arith)
                requires
                    0 < divisor <= 8_589_934_592,
                    0 < nanos <= u64::MAX,
            ;
            let den: u128 = (divisor as u128) * (nanos as u128);
            Some(format_fixed(num, den, precision))
        },
    }
}

/// Writes the line for one window, if its rate can be written.
pub fn report_line(sample: &IntervalSample, config: &Configuration) -> (line: Option<String>)
    ensures
        match spec_report_line(
            *sample,
            config.spec_buffer_size(),
            config.spec_unit(),
            config.spec_precision(),
        ) {
            Some(t) => line is Some && line->Some_0@ == t,
            None => line is None,
        },
{
    let unit = config.unit();
    let rate = match window_rate_text(sample, config.buffer_size(), unit, config.precision()) {
        Some(rate) => rate,
        None => {
            return None;
        },
    };
    let volume = rate_text(
        sample.transfer_count,
        config.buffer_size(),
        unit,
        1,
        config.precision(),
    );
    let mut line = String::new();
    let index = digits_of(sample.index as u128);
    proof {
        lemma_digits_denote(sample.index as nat);
    }
    push_digit_chars(&mut line, &index);
    line.append("\t");
    line.append(volume.as_str());
    line.append(unit.label());
    line.append("\t");
    line.append(rate.as_str());
    line.append(unit.label());
    line.append("/s");
    assert(line@ =~= spec_report_line(
        *sample,
        config.spec_buffer_size(),
        config.spec_unit(),
        config.spec_precision(),
    )->Some_0);
    Some(line)
}

/// Writes the line for the average over the session.
pub fn average_line(totals: &SessionTotals, config: &Configuration) -> (line: String)
    ensures
        line@ == spec_average_line(
            totals.total_transfers,
            config.spec_buffer_size(),
            config.spec_unit(),
            config.spec_duration_seconds(),
            config.spec_precision(),
        ),
{
    let unit = config.unit();
    let duration = config.duration_seconds();
    let value = rate_text(
        totals.total_transfers,
        config.buffer_size(),
        unit,
        duration,
        config.precision(),
    );
    let mut line = String::from_str("Average rate over ");
    let seconds = digits_of(duration as u128);
    proof {
        lemma_digits_denote(duration as nat);
    }
    push_digit_chars(&mut line, &seconds);
    line.append(" seconds: ");
    line.append(value.as_str());
    line.append(unit.label());
    assert(line@ =~= spec_average_line(
        totals.total_transfers,
        config.spec_buffer_size(),
        config.spec_unit(),
        config.spec_duration_seconds(),
        config.spec_precision(),
    ));
    line
}

} // verus!
