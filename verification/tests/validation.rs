//! End-to-end tests of evidence validation and key extraction.

use curve25519_dalek::constants::RISTRETTO_BASEPOINT_COMPRESSED;
use ingest_report::{
    extract_ingest_pubkey, Error, IngestAttestationEvidenceVerifier, IngestIdentity, RemoteReport,
};

/// Build a 384-byte report body with the given fields, zero elsewhere.
fn body_bytes(
    mr_enclave: [u8; 32],
    mr_signer: [u8; 32],
    product_id: u16,
    svn: u16,
    report_data: [u8; 64],
) -> Vec<u8> {
    let mut v = vec![0u8; 384];
    v[64..96].copy_from_slice(&mr_enclave);
    v[128..160].copy_from_slice(&mr_signer);
    v[256..258].copy_from_slice(&product_id.to_le_bytes());
    v[258..260].copy_from_slice(&svn.to_le_bytes());
    v[320..384].copy_from_slice(&report_data);
    v
}

/// Report data whose key window holds the Ristretto basepoint encoding.
fn basepoint_report_data() -> [u8; 64] {
    let mut rd = [0u8; 64];
    rd[32..64].copy_from_slice(&RISTRETTO_BASEPOINT_COMPRESSED.to_bytes());
    rd
}

fn mr_enclave_identity(measurement: [u8; 32]) -> IngestIdentity {
    IngestIdentity::MrEnclave { measurement }
}

#[test]
fn accepts_matching_mr_enclave_and_returns_bound_key() {
    let verifier = IngestAttestationEvidenceVerifier::new(vec![mr_enclave_identity([7u8; 32])]);
    let evidence = RemoteReport::new(body_bytes(
        [7u8; 32],
        [9u8; 32],
        3,
        4,
        basepoint_report_data(),
    ));
    let key = verifier
        .validate_ingest_attestation_evidence(&evidence)
        .ok()
        .unwrap();
    assert_eq!(
        key.compressed_bytes().as_slice(),
        RISTRETTO_BASEPOINT_COMPRESSED.to_bytes().as_slice()
    );
    // The decompressed point really is the one the encoding names.
    assert_eq!(key.point().compress(), RISTRETTO_BASEPOINT_COMPRESSED);
}

#[test]
fn empty_identity_set_rejects() {
    let verifier = IngestAttestationEvidenceVerifier::default();
    let evidence = RemoteReport::new(body_bytes(
        [7u8; 32],
        [9u8; 32],
        3,
        4,
        basepoint_report_data(),
    ));
    let result = verifier.validate_ingest_attestation_evidence(&evidence);
    assert!(matches!(result, Err(Error::Verifier)));
}

#[test]
fn non_matching_identities_reject() {
    let verifier = IngestAttestationEvidenceVerifier::new(vec![
        mr_enclave_identity([1u8; 32]),
        mr_enclave_identity([2u8; 32]),
    ]);
    let evidence = RemoteReport::new(body_bytes(
        [7u8; 32],
        [9u8; 32],
        3,
        4,
        basepoint_report_data(),
    ));
    let result = verifier.validate_ingest_attestation_evidence(&evidence);
    assert!(matches!(result, Err(Error::Verifier)));
}

#[test]
fn invalid_key_window_reports_key_error() {
    let mut report_data = [0u8; 64];
    report_data[32..64].copy_from_slice(&[0xFFu8; 32]);
    let verifier = IngestAttestationEvidenceVerifier::new(vec![mr_enclave_identity([7u8; 32])]);
    let evidence = RemoteReport::new(body_bytes([7u8; 32], [9u8; 32], 3, 4, report_data));
    let result = verifier.validate_ingest_attestation_evidence(&evidence);
    assert!(matches!(result, Err(Error::Key)));
}

#[test]
fn short_evidence_reports_parse_error() {
    let verifier = IngestAttestationEvidenceVerifier::new(vec![mr_enclave_identity([7u8; 32])]);
    let evidence = RemoteReport::new(vec![0u8; 383]);
    let result = verifier.validate_ingest_attestation_evidence(&evidence);
    assert!(matches!(result, Err(Error::VerificationParse)));
}

#[test]
fn bytes_outside_key_window_do_not_affect_key() {
    let verifier = IngestAttestationEvidenceVerifier::new(vec![mr_enclave_identity([7u8; 32])]);
    let mut tampered_report_data = basepoint_report_data();
    for byte in tampered_report_data[0..32].iter_mut() {
        *byte = 0xAB;
    }
    let evidence_a = RemoteReport::new(body_bytes(
        [7u8; 32],
        [9u8; 32],
        3,
        4,
        basepoint_report_data(),
    ));
    let evidence_b = RemoteReport::new(body_bytes([7u8; 32], [9u8; 32], 3, 4, tampered_report_data));
    let key_a = verifier
        .validate_ingest_attestation_evidence(&evidence_a)
        .ok()
        .unwrap();
    let key_b = verifier
        .validate_ingest_attestation_evidence(&evidence_b)
        .ok()
        .unwrap();
    assert_eq!(key_a.compressed_bytes(), key_b.compressed_bytes());
}

#[test]
fn repeat_validation_is_identical() {
    let verifier = IngestAttestationEvidenceVerifier::new(vec![mr_enclave_identity([7u8; 32])]);
    let evidence = RemoteReport::new(body_bytes(
        [7u8; 32],
        [9u8; 32],
        3,
        4,
        basepoint_report_data(),
    ));
    let first = verifier.validate_ingest_attestation_evidence(&evidence);
    let second = verifier.validate_ingest_attestation_evidence(&evidence);
    match (first, second) {
        (Ok(key1), Ok(key2)) => assert_eq!(key1.compressed_bytes(), key2.compressed_bytes()),
        _ => panic!("validation of trusted evidence should succeed both times"),
    }
    let rejecting = IngestAttestationEvidenceVerifier::default();
    let first = rejecting.validate_ingest_attestation_evidence(&evidence);
    let second = rejecting.validate_ingest_attestation_evidence(&evidence);
    assert_eq!(first.err(), second.err());
}

#[test]
fn identity_order_is_irrelevant() {
    let a = mr_enclave_identity([7u8; 32]);
    let b = mr_enclave_identity([8u8; 32]);
    let ab = IngestAttestationEvidenceVerifier::new(vec![a.clone(), b.clone()]);
    let ba = IngestAttestationEvidenceVerifier::new(vec![b, a]);
    let matching_a = RemoteReport::new(body_bytes(
        [7u8; 32],
        [9u8; 32],
        3,
        4,
        basepoint_report_data(),
    ));
    let matching_b = RemoteReport::new(body_bytes(
        [8u8; 32],
        [9u8; 32],
        3,
        4,
        basepoint_report_data(),
    ));
    for evidence in [&matching_a, &matching_b] {
        let key_ab = ab
            .validate_ingest_attestation_evidence(evidence)
            .ok()
            .unwrap();
        let key_ba = ba
            .validate_ingest_attestation_evidence(evidence)
            .ok()
            .unwrap();
        assert_eq!(key_ab.compressed_bytes(), key_ba.compressed_bytes());
    }
}

#[test]
fn from_identities_builds_the_same_verifier_as_new() {
    let evidence = RemoteReport::new(body_bytes(
        [7u8; 32],
        [9u8; 32],
        3,
        4,
        basepoint_report_data(),
    ));
    let built = IngestAttestationEvidenceVerifier::new(vec![mr_enclave_identity([7u8; 32])]);
    let converted = IngestAttestationEvidenceVerifier::from(vec![mr_enclave_identity([7u8; 32])]);
    let key_built = built
        .validate_ingest_attestation_evidence(&evidence)
        .ok()
        .unwrap();
    let key_converted = converted
        .validate_ingest_attestation_evidence(&evidence)
        .ok()
        .unwrap();
    assert_eq!(key_built.compressed_bytes(), key_converted.compressed_bytes());
}

#[test]
fn mr_signer_identity_checks_signer_product_and_svn() {
    let signer = IngestIdentity::MrSigner {
        key_hash: [9u8; 32],
        product_id: 3,
        minimum_svn: 4,
    };
    let verifier = IngestAttestationEvidenceVerifier::new(vec![signer]);
    let accepted_at_minimum = RemoteReport::new(body_bytes(
        [7u8; 32],
        [9u8; 32],
        3,
        4,
        basepoint_report_data(),
    ));
    let accepted_above_minimum = RemoteReport::new(body_bytes(
        [7u8; 32],
        [9u8; 32],
        3,
        9,
        basepoint_report_data(),
    ));
    let rejected_below_minimum = RemoteReport::new(body_bytes(
        [7u8; 32],
        [9u8; 32],
        3,
        3,
        basepoint_report_data(),
    ));
    let rejected_wrong_product = RemoteReport::new(body_bytes(
        [7u8; 32],
        [9u8; 32],
        5,
        4,
        basepoint_report_data(),
    ));
    let rejected_wrong_signer = RemoteReport::new(body_bytes(
        [7u8; 32],
        [1u8; 32],
        3,
        4,
        basepoint_report_data(),
    ));
    assert!(verifier
        .validate_ingest_attestation_evidence(&accepted_at_minimum)
        .is_ok());
    assert!(verifier
        .validate_ingest_attestation_evidence(&accepted_above_minimum)
        .is_ok());
    assert!(matches!(
        verifier.validate_ingest_attestation_evidence(&rejected_below_minimum),
        Err(Error::Verifier)
    ));
    assert!(matches!(
        verifier.validate_ingest_attestation_evidence(&rejected_wrong_product),
        Err(Error::Verifier)
    ));
    assert!(matches!(
        verifier.validate_ingest_attestation_evidence(&rejected_wrong_signer),
        Err(Error::Verifier)
    ));
}

#[test]
fn trailing_bytes_after_report_body_are_ignored() {
    let verifier = IngestAttestationEvidenceVerifier::new(vec![mr_enclave_identity([7u8; 32])]);
    let mut blob = body_bytes([7u8; 32], [9u8; 32], 3, 4, basepoint_report_data());
    blob.extend_from_slice(&[0xEEu8; 100]);
    let key = verifier
        .validate_ingest_attestation_evidence(&RemoteReport::new(blob))
        .ok()
        .unwrap();
    assert_eq!(
        key.compressed_bytes().as_slice(),
        RISTRETTO_BASEPOINT_COMPRESSED.to_bytes().as_slice()
    );
}

#[test]
fn extract_short_report_data_reports_encoding_error() {
    let result = extract_ingest_pubkey(&vec![0u8; 63]);
    assert!(matches!(result, Err(Error::Encoding)));
}

#[test]
fn extract_reads_exactly_the_key_window() {
    let mut report_data = vec![0u8; 64];
    report_data[32..64].copy_from_slice(&RISTRETTO_BASEPOINT_COMPRESSED.to_bytes());
    let key = extract_ingest_pubkey(&report_data).ok().unwrap();
    assert_eq!(
        key.compressed_bytes().as_slice(),
        RISTRETTO_BASEPOINT_COMPRESSED.to_bytes().as_slice()
    );
    report_data[0] = 0x55;
    let key_again = extract_ingest_pubkey(&report_data).ok().unwrap();
    assert_eq!(key.compressed_bytes(), key_again.compressed_bytes());
}

#[test]
fn zeroed_key_window_decodes_to_the_identity_point() {
    // The all-zero window is the canonical encoding of the identity point,
    // so a zeroed report data field still extracts a key.
    let report_data = vec![0u8; 64];
    let key = extract_ingest_pubkey(&report_data).ok().unwrap();
    assert_eq!(key.compressed_bytes().as_slice(), &[0u8; 32]);
}
