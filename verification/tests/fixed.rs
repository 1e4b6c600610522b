use quic_perf::decimal::digits_of;
use quic_perf::fixed::{format_fixed, MAX_DENOMINATOR};

#[test]
fn digits_of_small_and_large_numbers() {
    assert_eq!(digits_of(0), vec![0]);
    assert_eq!(digits_of(7), vec![7]);
    assert_eq!(digits_of(10), vec![1, 0]);
    assert_eq!(digits_of(4096), vec![4, 0, 9, 6]);
    let all: Vec<u8> = "340282366920938463463374607431768211455"
        .bytes()
        .map(|b| b - b'0')
        .collect();
    assert_eq!(digits_of(u128::MAX), all);
}

#[test]
fn fixed_rounds_to_the_places_asked_for() {
    assert_eq!(format_fixed(8192, 10000, 2), "0.82");
    assert_eq!(format_fixed(819_200, 1_000_000, 2), "0.82");
    assert_eq!(format_fixed(819_200, 1_000_000, 4), "0.8192");
    assert_eq!(format_fixed(819_200, 1_000_000, 6), "0.819200");
    assert_eq!(format_fixed(1, 3, 5), "0.33333");
    assert_eq!(format_fixed(2, 3, 5), "0.66667");
    assert_eq!(format_fixed(22, 7, 3), "3.143");
}

#[test]
fn fixed_without_places_has_no_point() {
    assert_eq!(format_fixed(0, 5, 0), "0");
    assert_eq!(format_fixed(12, 5, 0), "2");
    assert_eq!(format_fixed(13, 5, 0), "3");
    assert_eq!(format_fixed(100, 1, 0), "100");
}

#[test]
fn fixed_sends_ties_to_the_even_digit() {
    assert_eq!(format_fixed(1, 8, 2), "0.12");
    assert_eq!(format_fixed(3, 8, 2), "0.38");
    assert_eq!(format_fixed(1, 2, 0), "0");
    assert_eq!(format_fixed(3, 2, 0), "2");
    assert_eq!(format_fixed(5, 2, 0), "2");
    assert_eq!(format_fixed(7, 2, 0), "4");
    assert_eq!(format_fixed(25, 100, 1), "0.2");
    assert_eq!(format_fixed(35, 100, 1), "0.4");
    assert_eq!(format_fixed(1, 8, 3), "0.125");
}

#[test]
fn fixed_carries_into_the_integer_part() {
    assert_eq!(format_fixed(999, 1000, 2), "1.00");
    assert_eq!(format_fixed(9_999, 1000, 1), "10.0");
    assert_eq!(format_fixed(99_999, 1000, 0), "100");
    assert_eq!(format_fixed(1_995, 1000, 2), "2.00");
    assert_eq!(format_fixed(1_994, 1000, 2), "1.99");
    assert_eq!(format_fixed(10_949, 1000, 1), "10.9");
    assert_eq!(format_fixed(10_951, 1000, 1), "11.0");
}

#[test]
fn fixed_pads_the_fraction_with_zeros() {
    assert_eq!(format_fixed(0, 5, 2), "0.00");
    assert_eq!(format_fixed(5, 1, 3), "5.000");
    assert_eq!(format_fixed(1, 1000, 2), "0.00");
    assert_eq!(format_fixed(1, 1000, 3), "0.001");
    assert_eq!(format_fixed(1_001, 1000, 5), "1.00100");
}

#[test]
fn fixed_takes_any_number_of_places() {
    let text = format_fixed(1, 3, 60);
    assert_eq!(text.len(), 62);
    assert_eq!(&text[..2], "0.");
    assert!(text[2..].bytes().all(|b| b == b'3'));
    let text = format_fixed(2, 3, 60);
    assert!(text[2..61].bytes().all(|b| b == b'6'));
    assert_eq!(&text[61..], "7");
}

#[test]
fn fixed_handles_the_largest_operands() {
    assert_eq!(
        format_fixed(u128::MAX, 1, 0),
        "340282366920938463463374607431768211455"
    );
    assert_eq!(
        format_fixed(u128::MAX, 1, 2),
        "340282366920938463463374607431768211455.00"
    );
    assert_eq!(format_fixed(MAX_DENOMINATOR, MAX_DENOMINATOR, 3), "1.000");
    assert_eq!(format_fixed(MAX_DENOMINATOR - 1, MAX_DENOMINATOR, 3), "1.000");
    assert_eq!(format_fixed(1, MAX_DENOMINATOR, 3), "0.000");
    assert_eq!(format_fixed(u128::MAX, MAX_DENOMINATOR, 1), "10.0");
    assert_eq!(MAX_DENOMINATOR, u128::MAX / 10);
}

#[test]
fn fixed_agrees_with_binary_floating_point_where_that_is_exact() {
    // With a power of two below, every quotient here is an exact double,
    // so the standard formatter prints the same digits.
    let mut n: u64 = 1;
    for step in 0..4000u64 {
        n = n.wrapping_mul(6364136223846793005).wrapping_add(1442695040888963407 + step);
        let num = n >> 30;
        for den in [1024u64, 8192, 1_048_576] {
            for places in [0usize, 1, 2, 3, 6] {
                let expected = format!("{:.*}", places, num as f64 / den as f64);
                assert_eq!(format_fixed(num as u128, den as u128, places), expected);
            }
        }
    }
}

#[test]
fn fixed_agrees_with_floating_point_on_everyday_rates() {
    // Transfer units of 1024 bytes, in megabits: no quotient is a tie at
    // two places, so the standard formatter prints the same digits.
    for transfers in 0..5000u128 {
        let bits = transfers * 1024 * 8;
        let expected = format!("{:.2}", bits as f64 / 1_000_000f64);
        assert_eq!(format_fixed(bits, 1_000_000, 2), expected);
    }
}
