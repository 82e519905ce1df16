//! Validation and resolution of the control-plane admission ceiling.

use portunus::daemon::admission::{AdmissionConfig, AdmissionError, DEFAULT_ADMISSION_LIMIT};

// Zero is refused; one is the smallest valid ceiling.
#[test]
fn validates_request_admission_boundaries() {
    assert_eq!(AdmissionConfig::new(0), Err(AdmissionError::ZeroLimit));
    assert!(AdmissionConfig::new(1).is_ok());
}

// Absent selects the default; decimals override; malformed and zero are refused.
#[test]
fn resolves_validated_admission_configuration() {
    assert_eq!(
        AdmissionConfig::from_source(None).unwrap(),
        AdmissionConfig::new(128).unwrap()
    );
    assert_eq!(
        AdmissionConfig::from_source(Some("7")).unwrap(),
        AdmissionConfig::new(7).unwrap()
    );
    assert_eq!(
        AdmissionConfig::from_source(Some("bad")),
        Err(AdmissionError::InvalidLimit)
    );
    assert_eq!(
        AdmissionConfig::from_source(Some("0")),
        Err(AdmissionError::ZeroLimit)
    );
}

// Signs, blanks, empty text and values beyond the machine word are not limits.
#[test]
fn rejects_non_decimal_and_oversized_limits() {
    for source in ["", "+", "-1", " 7", "7 ", "1_000", "0x10", "18446744073709551616"] {
        assert_eq!(
            AdmissionConfig::from_source(Some(source)),
            Err(AdmissionError::InvalidLimit),
            "{source:?}"
        );
    }
    assert_eq!(AdmissionConfig::from_source(Some("007")).unwrap().limit(), 7);
    assert_eq!(AdmissionConfig::from_source(Some("+7")).unwrap().limit(), 7);
    assert_eq!(
        AdmissionConfig::from_source(None).unwrap().limit(),
        DEFAULT_ADMISSION_LIMIT
    );
}
