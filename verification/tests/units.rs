use quic_perf::backend::{parse_backend, select_backend, BackendError, Proto};
use quic_perf::units::{UnitScale, UnknownScale};

#[test]
fn scale_characters_select_their_units() {
    assert_eq!(UnitScale::from_char('K'), Ok(UnitScale::Kilobits));
    assert_eq!(UnitScale::from_char('M'), Ok(UnitScale::Megabits));
    assert_eq!(UnitScale::from_char('G'), Ok(UnitScale::Gigabits));
    assert_eq!(UnitScale::from_char('k'), Ok(UnitScale::Kilobytes));
    assert_eq!(UnitScale::from_char('m'), Ok(UnitScale::Megabytes));
    assert_eq!(UnitScale::from_char('g'), Ok(UnitScale::Gigabytes));
}

#[test]
fn unknown_scale_character_is_refused() {
    assert_eq!(UnitScale::from_char('x'), Err(UnknownScale { given: 'x' }));
    assert_eq!(UnitScale::from_char('T'), Err(UnknownScale { given: 'T' }));
    assert_eq!(UnitScale::from_char(' '), Err(UnknownScale { given: ' ' }));
}

#[test]
fn divisor_table() {
    assert_eq!(UnitScale::Kilobits.divisor(), 1_000);
    assert_eq!(UnitScale::Megabits.divisor(), 1_000_000);
    assert_eq!(UnitScale::Gigabits.divisor(), 1_000_000_000);
    assert_eq!(UnitScale::Kilobytes.divisor(), 8_192);
    assert_eq!(UnitScale::Megabytes.divisor(), 8_388_608);
    assert_eq!(UnitScale::Gigabytes.divisor(), 8_589_934_592);
}

#[test]
fn every_unit_holds_eight_bits_per_byte() {
    for c in ['K', 'M', 'G', 'k', 'm', 'g'] {
        let unit = UnitScale::from_char(c).unwrap();
        assert_eq!(unit.bytes_per_unit() * 8, unit.divisor());
    }
}

#[test]
fn unit_labels() {
    assert_eq!(UnitScale::Kilobits.label(), "Kbits");
    assert_eq!(UnitScale::Megabits.label(), "Mbits");
    assert_eq!(UnitScale::Gigabits.label(), "Gbits");
    assert_eq!(UnitScale::Kilobytes.label(), "KB");
    assert_eq!(UnitScale::Megabytes.label(), "MB");
    assert_eq!(UnitScale::Gigabytes.label(), "GB");
}

#[test]
fn backend_names() {
    assert_eq!(parse_backend(Some("TCP")), Ok(Proto::Tcp));
    assert_eq!(parse_backend(Some("Quiche")), Ok(Proto::Quiche));
    assert_eq!(parse_backend(Some("Quinn")), Ok(Proto::Quinn));
    assert_eq!(parse_backend(None), Ok(Proto::Tcp));
}

#[test]
fn unknown_backend_name_is_refused() {
    assert_eq!(parse_backend(Some("UDP")), Err(BackendError::UnknownName));
    assert_eq!(parse_backend(Some("tcp")), Err(BackendError::UnknownName));
    assert_eq!(parse_backend(Some("")), Err(BackendError::UnknownName));
    assert_eq!(parse_backend(Some("TCP ")), Err(BackendError::UnknownName));
    assert_eq!(parse_backend(Some("Quinnn")), Err(BackendError::UnknownName));
}

#[test]
fn unfinished_backend_is_reported_unavailable() {
    assert_eq!(select_backend(Some("Quiche")), Err(BackendError::Unavailable));
    assert_eq!(select_backend(Some("TCP")), Ok(Proto::Tcp));
    assert_eq!(select_backend(Some("Quinn")), Ok(Proto::Quinn));
    assert_eq!(select_backend(None), Ok(Proto::Tcp));
    assert_eq!(select_backend(Some("nope")), Err(BackendError::UnknownName));
    assert!(Proto::Tcp.is_available());
    assert!(Proto::Quinn.is_available());
    assert!(!Proto::Quiche.is_available());
}
