use rcv::outcome::{failed_outcome, outcome_after_encode, ConversionOutcome, ErrorKind};

#[test]
fn test_outcome_success() {
    let r = outcome_after_encode("in/a.jpg", "out/a.webp".to_string(), true, true);
    let expected = ConversionOutcome::Success { output_path: "out/a.webp".to_string() };
    assert_eq!(r, expected);
}

#[test]
fn test_outcome_encode_failure() {
    let r = outcome_after_encode("in/a.jpg", "out/a.webp".to_string(), false, false);
    let expected = ConversionOutcome::Failure {
        source_path: "in/a.jpg".to_string(),
        kind: ErrorKind::Encode,
    };
    assert_eq!(r, expected);
}

#[test]
fn test_outcome_write_failure() {
    let r = outcome_after_encode("in/a.jpg", "out/a.webp".to_string(), true, false);
    let expected = ConversionOutcome::Failure {
        source_path: "in/a.jpg".to_string(),
        kind: ErrorKind::Write,
    };
    assert_eq!(r, expected);
}

#[test]
fn test_failed_outcome_decode() {
    let r = failed_outcome("in/corrupt.jpg", ErrorKind::Decode);
    let expected = ConversionOutcome::Failure {
        source_path: "in/corrupt.jpg".to_string(),
        kind: ErrorKind::Decode,
    };
    assert_eq!(r, expected);
}
