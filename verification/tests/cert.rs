use quic_perf::cert::{certificate_names, certified, generate_self_signed_cert};

#[test]
fn certificate_names_are_the_two_hosts() {
    assert_eq!(
        certificate_names(),
        vec![String::from("localhost"), String::from("jubliantfourier.net")]
    );
}

#[test]
fn self_signed_certificate_is_der() {
    let made = generate_self_signed_cert().unwrap();
    // Both are DER: a SEQUENCE tag first.
    assert_eq!(made.certificate_der[0], 0x30);
    assert_eq!(made.private_key_der[0], 0x30);
    assert!(made.certificate_der.len() > 100);
    assert!(made.private_key_der.len() > 30);
    // The names stand in the certificate as plain ASCII.
    let holds = |name: &[u8]| made.certificate_der.windows(name.len()).any(|w| w == name);
    assert!(holds(b"localhost"));
    assert!(holds(b"jubliantfourier.net"));
}

#[test]
fn each_certificate_has_its_own_key() {
    let first = generate_self_signed_cert().unwrap();
    let second = generate_self_signed_cert().unwrap();
    assert_ne!(first.private_key_der, second.private_key_der);
    assert_ne!(first.certificate_der, second.certificate_der);
}

#[test]
fn certified_keeps_certificate_and_key_in_their_places() {
    let made = certified(Ok((vec![0x30, 1, 2], vec![0x30, 9]))).unwrap();
    assert_eq!(made.certificate_der, vec![0x30, 1, 2]);
    assert_eq!(made.private_key_der, vec![0x30, 9]);
    let made = certified(Ok((vec![], vec![7]))).unwrap();
    assert!(made.certificate_der.is_empty());
    assert_eq!(made.private_key_der, vec![7]);
}

#[test]
fn certified_keeps_the_cause_of_a_failure() {
    let failed = certified(Err(rcgen::Error::KeyGenerationUnavailable)).unwrap_err();
    assert_eq!(failed.cause, rcgen::Error::KeyGenerationUnavailable);
    let failed = certified(Err(rcgen::Error::RingUnspecified)).unwrap_err();
    assert_eq!(failed.cause, rcgen::Error::RingUnspecified);
}
