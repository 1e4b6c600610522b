use quic_perf::config::Configuration;
use quic_perf::report::{average_line, rate_text, report_line, window_rate_text};
use quic_perf::sampler::{IntervalSample, SessionTotals};
use quic_perf::units::UnitScale;

fn config(buffer_size: usize, duration: usize, scale: char, precision: usize) -> Configuration {
    Configuration::new(
        String::from("127.0.0.1"),
        5201,
        buffer_size,
        duration,
        scale,
        precision,
        None,
        None,
    )
    .unwrap()
}

fn line(sample: &IntervalSample, config: &Configuration) -> String {
    report_line(sample, config).unwrap()
}

fn cut(transfer_count: u64, elapsed_nanos: u64) -> IntervalSample {
    IntervalSample { index: 1, transfer_count, elapsed_nanos, cut_short: true }
}

fn sample(index: usize, transfer_count: u64) -> IntervalSample {
    IntervalSample { index, transfer_count, elapsed_nanos: 1_000_000_123, cut_short: false }
}

#[test]
fn hundred_buffers_of_1024_bytes_are_0_82_megabits() {
    // 100 * 1024 * 8 / 1_000_000 = 0.8192
    assert_eq!(rate_text(100, 1024, UnitScale::Megabits, 1, 2), "0.82");
    assert_eq!(rate_text(100, 1024, UnitScale::Megabits, 1, 4), "0.8192");
}

#[test]
fn rate_in_each_unit() {
    // 1_000_000 transfers of 1024 bytes: 8_192_000_000 bits.
    assert_eq!(rate_text(1_000_000, 1024, UnitScale::Kilobits, 1, 2), "8192000.00");
    assert_eq!(rate_text(1_000_000, 1024, UnitScale::Megabits, 1, 2), "8192.00");
    assert_eq!(rate_text(1_000_000, 1024, UnitScale::Gigabits, 1, 2), "8.19");
    assert_eq!(rate_text(1_000_000, 1024, UnitScale::Kilobytes, 1, 2), "1000000.00");
    assert_eq!(rate_text(1_000_000, 1024, UnitScale::Megabytes, 1, 2), "976.56");
    assert_eq!(rate_text(1_000_000, 1024, UnitScale::Gigabytes, 1, 2), "0.95");
}

#[test]
fn rate_divides_by_the_seconds() {
    assert_eq!(rate_text(200, 1024, UnitScale::Megabits, 2, 2), "0.82");
    assert_eq!(rate_text(100, 1024, UnitScale::Megabits, 2, 4), "0.4096");
    assert_eq!(rate_text(1, 1, UnitScale::Kilobits, 3, 5), "0.00267");
}

#[test]
fn rate_of_nothing_is_zero() {
    assert_eq!(rate_text(0, 1024, UnitScale::Megabits, 1, 2), "0.00");
    assert_eq!(rate_text(0, 1024, UnitScale::Gigabytes, 7, 0), "0");
}

#[test]
fn rate_of_the_largest_counts_does_not_overflow() {
    // (2^64 - 1)^2 * 8 / 1000, rounded to an integer.
    let bits = (u64::MAX as u128) * (u64::MAX as u128);
    let den = 125u128;
    let whole = bits / den;
    let rem = bits % den;
    let rounded = if 2 * rem > den || (2 * rem == den && whole % 2 == 1) {
        whole + 1
    } else {
        whole
    };
    if usize::MAX as u128 == u64::MAX as u128 {
        assert_eq!(
            rate_text(u64::MAX, usize::MAX, UnitScale::Kilobits, 1, 0),
            format!("{}", rounded)
        );
    }
    let text = rate_text(u64::MAX, usize::MAX, UnitScale::Gigabytes, usize::MAX, 3);
    assert!(text.contains('.'));
}

#[test]
fn report_line_layout() {
    let cfg = config(1024, 2, 'M', 2);
    assert_eq!(line(&sample(1, 100), &cfg), "1\t0.82Mbits\t0.82Mbits/s");
    assert_eq!(line(&sample(2, 12_500), &cfg), "2\t102.40Mbits\t102.40Mbits/s");
    let cfg = config(1024, 2, 'k', 1);
    assert_eq!(line(&sample(10, 3), &cfg), "10\t3.0KB\t3.0KB/s");
    let cfg = config(1, 1, 'K', 0);
    assert_eq!(line(&sample(1, 1), &cfg), "1\t0Kbits\t0Kbits/s");
    assert_eq!(line(&sample(1, 63), &cfg), "1\t1Kbits\t1Kbits/s");
}

#[test]
fn a_whole_window_counts_as_one_second_however_long_it_took() {
    let cfg = config(1024, 2, 'M', 2);
    let slow = IntervalSample {
        index: 1,
        transfer_count: 100,
        elapsed_nanos: 3_000_000_000,
        cut_short: false,
    };
    assert_eq!(line(&slow, &cfg), "1\t0.82Mbits\t0.82Mbits/s");
}

#[test]
fn a_window_cut_short_is_rated_over_the_time_it_lasted() {
    let cfg = config(1024, 2, 'M', 2);
    // 819200 bits in half a second: 1.6384 megabits per second.
    assert_eq!(line(&cut(100, 500_000_000), &cfg), "1\t0.82Mbits\t1.64Mbits/s");
    // In exactly one second the rate is the volume.
    assert_eq!(line(&cut(100, 1_000_000_000), &cfg), "1\t0.82Mbits\t0.82Mbits/s");
    // 24576 bits in 300 nanoseconds.
    assert_eq!(line(&cut(3, 300), &cfg), "1\t0.02Mbits\t81920.00Mbits/s");
    let cfg = config(1024, 2, 'k', 3);
    // 10 KB in a quarter of a second: 40 KB per second.
    assert_eq!(line(&cut(10, 250_000_000), &cfg), "1\t10.000KB\t40.000KB/s");
    let cfg = config(1000, 2, 'G', 4);
    // 8e9 bits in three seconds.
    assert_eq!(line(&cut(1_000_000, 3_000_000_000), &cfg), "1\t8.0000Gbits\t2.6667Gbits/s");
}

#[test]
fn a_window_cut_short_in_no_time_counts_as_one_nanosecond() {
    let cfg = config(1024, 2, 'M', 2);
    assert_eq!(line(&cut(100, 0), &cfg), line(&cut(100, 1), &cfg));
    assert_eq!(line(&cut(100, 0), &cfg), "1\t0.82Mbits\t819200000.00Mbits/s");
}

#[test]
fn a_rate_beyond_128_bits_is_not_written() {
    let cfg = config(usize::MAX, 2, 'M', 2);
    if usize::MAX as u128 == u64::MAX as u128 {
        assert_eq!(report_line(&cut(u64::MAX, 5), &cfg), None);
        assert_eq!(window_rate_text(&cut(u64::MAX, 5), usize::MAX, UnitScale::Megabits, 2), None);
        // The same counts in a whole window have a rate.
        assert!(report_line(&sample(1, u64::MAX), &cfg).is_some());
    }
    // The largest bit count that still fits: bits * 10^9 <= 2^128 - 1.
    let limit = u128::MAX / 1_000_000_000 / 8;
    let cfg = config(1, 2, 'K', 0);
    if limit <= u64::MAX as u128 {
        assert!(report_line(&cut(limit as u64, 7), &cfg).is_some());
    } else {
        assert!(report_line(&cut(u64::MAX, 7), &cfg).is_some());
    }
}

#[test]
fn window_rate_text_of_both_kinds_of_window() {
    assert_eq!(
        window_rate_text(&sample(1, 100), 1024, UnitScale::Megabits, 2),
        Some(String::from("0.82"))
    );
    assert_eq!(
        window_rate_text(&cut(100, 2_000_000_000), 1024, UnitScale::Megabits, 4),
        Some(String::from("0.4096"))
    );
}

#[test]
fn average_line_layout() {
    let cfg = config(1024, 2, 'M', 2);
    let totals = SessionTotals { total_transfers: 200, total_intervals: 2 };
    assert_eq!(average_line(&totals, &cfg), "Average rate over 2 seconds: 0.82Mbits");
    let cfg = config(1024, 10, 'm', 3);
    let totals = SessionTotals { total_transfers: 10_240, total_intervals: 10 };
    assert_eq!(average_line(&totals, &cfg), "Average rate over 10 seconds: 1.000MB");
}

#[test]
fn lines_show_exactly_the_configured_places() {
    for precision in [1usize, 2, 5, 9] {
        let cfg = config(1024, 2, 'M', precision);
        for count in [0u64, 1, 99, 100, 123_456_789] {
            let line = line(&sample(1, count), &cfg);
            let fields: Vec<&str> = line.split('\t').collect();
            assert_eq!(fields.len(), 3);
            assert_eq!(fields[0], "1");
            let volume = fields[1].strip_suffix("Mbits").unwrap();
            let rate = fields[2].strip_suffix("Mbits/s").unwrap();
            assert_eq!(volume, rate);
            let (whole, frac) = rate.split_once('.').unwrap();
            assert!(!whole.is_empty() && whole.bytes().all(|b| b.is_ascii_digit()));
            assert_eq!(frac.len(), precision);
            assert!(frac.bytes().all(|b| b.is_ascii_digit()));
        }
    }
}
