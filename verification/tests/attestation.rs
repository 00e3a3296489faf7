use katana_hypervisor::tee::attestation::{AttestationVerifier, QuoteResponse};

#[test]
fn test_extract_measurement_from_report() {
    // Create a mock report with 1184 bytes (SEV-SNP report size)
    let mut report_bytes = vec![0u8; 1184];

    // Set a recognizable pattern at offset 0x90 (144 bytes)
    for i in 0..48 {
        report_bytes[144 + i] = (i as u8) + 1;
    }

    let report_hex = hex::encode(&report_bytes);

    // Extract measurement
    let measurement = AttestationVerifier::extract_measurement_from_report(&report_hex).unwrap();

    // Verify it extracted the correct 48 bytes
    let expected = hex::encode((1u8..=48).collect::<Vec<u8>>());
    assert_eq!(measurement, expected);
}

#[test]
fn test_extract_measurement_with_0x_prefix() {
    let mut report_bytes = vec![0u8; 1184];
    for i in 0..48 {
        report_bytes[144 + i] = 0xAA;
    }

    let report_hex = format!("0x{}", hex::encode(&report_bytes));

    let measurement = AttestationVerifier::extract_measurement_from_report(&report_hex).unwrap();

    assert_eq!(measurement, "a".repeat(96)); // 48 bytes of 0xAA = 96 hex chars
}

#[test]
fn test_extract_measurement_report_too_small() {
    let report_bytes = vec![0u8; 100]; // Too small
    let report_hex = hex::encode(&report_bytes);

    let result = AttestationVerifier::extract_measurement_from_report(&report_hex);
    assert!(result.is_err());
}

fn quote_with_measurement(fill: u8) -> QuoteResponse {
    let mut report_bytes = vec![0u8; 1184];
    for i in 0..48 {
        report_bytes[144 + i] = fill;
    }
    QuoteResponse {
        quote: hex::encode(&report_bytes),
        block_number: 42,
        block_hash: "0xabc".to_string(),
        state_root: "0xdef".to_string(),
    }
}

#[test]
fn verify_quote_matching_measurement() {
    let verifier = AttestationVerifier::new();
    let quote = quote_with_measurement(0xAB);
    let expected = "ab".repeat(48);

    let result = verifier.verify_quote(&quote, &expected).unwrap();
    assert!(result.verified);
    assert_eq!(result.actual_measurement, "ab".repeat(48));
    assert_eq!(result.expected_measurement, expected);
    assert_eq!(result.block_number, 42);
    assert_eq!(result.block_hash, "0xabc");
    assert_eq!(result.state_root, "0xdef");
    assert_eq!(result.quote_hex, quote.quote);
}

#[test]
fn verify_quote_is_case_insensitive() {
    let verifier = AttestationVerifier::new();
    let quote = quote_with_measurement(0xAB);
    let expected = "AB".repeat(48);

    let result = verifier.verify_quote(&quote, &expected).unwrap();
    assert!(result.verified);
}

#[test]
fn verify_quote_mismatch_is_not_verified() {
    let verifier = AttestationVerifier::new();
    let quote = quote_with_measurement(0xAB);
    let expected = "ac".repeat(48);

    let result = verifier.verify_quote(&quote, &expected).unwrap();
    assert!(!result.verified);
}

#[test]
fn verify_quote_short_report_is_error_not_false() {
    let verifier = AttestationVerifier::new();
    // 191 bytes: one short of the minimum
    let quote = QuoteResponse {
        quote: hex::encode(vec![0u8; 191]),
        block_number: 0,
        block_hash: String::new(),
        state_root: String::new(),
    };

    let result = verifier.verify_quote(&quote, &"00".repeat(48));
    assert!(result.is_err());
}

#[test]
fn verify_quote_invalid_hex_is_error() {
    let verifier = AttestationVerifier::new();
    let quote = QuoteResponse {
        quote: "zz".repeat(100),
        block_number: 0,
        block_hash: String::new(),
        state_root: String::new(),
    };

    let result = verifier.verify_quote(&quote, "00");
    assert!(result.is_err());
}

#[test]
fn verify_quote_exactly_192_bytes_succeeds() {
    let verifier = AttestationVerifier::new();
    let mut report_bytes = vec![0u8; 192];
    for i in 0..48 {
        report_bytes[144 + i] = 0x5A;
    }
    let quote = QuoteResponse {
        quote: hex::encode(&report_bytes),
        block_number: 7,
        block_hash: String::new(),
        state_root: String::new(),
    };

    let result = verifier.verify_quote(&quote, &"5a".repeat(48)).unwrap();
    assert!(result.verified);
}
