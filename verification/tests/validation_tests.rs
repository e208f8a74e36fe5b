use strellerminds::certificate::errors::CertificateError;
use strellerminds::certificate::types::MintCertificateParams;
use strellerminds::certificate::validation::{MetadataValidator, MintFieldChecks};
use strellerminds::common::ids::{Address, Bytes32};

fn s(x: &str) -> String {
    x.to_string()
}

fn mint_params(id: [u8; 32], course: &str, student: u64, title: &str, description: &str, uri: &str) -> MintCertificateParams {
    MintCertificateParams {
        certificate_id: Bytes32::from_array(id),
        course_id: s(course),
        student: Address { id: student },
        title: s(title),
        description: s(description),
        metadata_uri: s(uri),
        expiry_date: 86400,
    }
}

const ACCEPTED: MintFieldChecks = MintFieldChecks {
    certificate_id: true,
    course_id: true,
    title: true,
    description: true,
    metadata_uri: true,
    expiry_date: true,
};

fn all_fields_valid(n: usize) -> Vec<MintFieldChecks> {
    vec![ACCEPTED; n]
}

#[test]
fn metadata_validation_tests_test_validate_batch_params_success() {
    let params1 = mint_params(
        [1u8; 32],
        "CS-101",
        1,
        "Computer Science Fundamentals",
        "This certificate validates completion of CS-101 course.",
        "https://example.com/metadata/cert1.json",
    );
    let params2 = mint_params(
        [2u8; 32],
        "CS-102",
        2,
        "Advanced Computer Science",
        "This certificate validates completion of CS-102 course.",
        "https://example.com/metadata/cert2.json",
    );
    let params_list = vec![params1, params2];
    assert!(MetadataValidator::validate_batch_params(&params_list, &all_fields_valid(2)).is_ok());
}

#[test]
fn metadata_validation_tests_test_validate_batch_params_empty() {
    let params_list: Vec<MintCertificateParams> = vec![];
    assert_eq!(
        MetadataValidator::validate_batch_params(&params_list, &all_fields_valid(0)),
        Err(CertificateError::InvalidInput)
    );
}

#[test]
fn test_validate_batch_params_too_large() {
    let mut params_list = Vec::new();
    for i in 0..101 {
        let mut id_bytes = [0u8; 32];
        id_bytes[0] = i as u8;
        params_list.push(mint_params(
            id_bytes,
            &format!("CS-{}", i),
            1,
            &format!("Certificate {}", i),
            &format!("This is certificate number {}", i),
            &format!("https://example.com/cert{}.json", i),
        ));
    }
    assert_eq!(
        MetadataValidator::validate_batch_params(&params_list, &all_fields_valid(101)),
        Err(CertificateError::InvalidInput)
    );
}

#[test]
fn test_validate_batch_params_duplicate_ids() {
    let params1 = mint_params([1u8; 32], "CS-101", 1, "Certificate 1", "This is the first certificate.", "https://example.com/cert1.json");
    let params2 = mint_params([1u8; 32], "CS-102", 1, "Certificate 2", "This is the second certificate.", "https://example.com/cert2.json");
    let params_list = vec![params1, params2];
    assert_eq!(
        MetadataValidator::validate_batch_params(&params_list, &all_fields_valid(2)),
        Err(CertificateError::CertificateAlreadyExists)
    );
}

#[test]
fn test_validate_batch_params_invalid_individual() {
    let valid_params = mint_params([1u8; 32], "CS-101", 1, "Valid Certificate", "This is a valid certificate.", "https://example.com/cert1.json");
    let invalid_params = mint_params([2u8; 32], "CS-102", 1, "AB", "This is an invalid certificate.", "https://example.com/cert2.json");
    let params_list = vec![valid_params, invalid_params];
    // The shared validator refuses the two-character title of the second item.
    let checks = vec![ACCEPTED, MintFieldChecks { title: false, ..ACCEPTED }];
    assert_eq!(
        MetadataValidator::validate_batch_params(&params_list, &checks),
        Err(CertificateError::InvalidMetadata)
    );
}

#[test]
fn validation_test_validate_batch_params_success() {
    let params = mint_params(
        [1u8; 32],
        "CS-101",
        3,
        "Valid Certificate",
        "A valid test certificate",
        "https://example.com/metadata.json",
    );
    let batch = vec![params];
    assert!(MetadataValidator::validate_batch_params(&batch, &all_fields_valid(1)).is_ok());
}

#[test]
fn validation_test_validate_batch_params_empty() {
    let empty_batch: Vec<MintCertificateParams> = Vec::new();
    assert_eq!(
        MetadataValidator::validate_batch_params(&empty_batch, &all_fields_valid(0)),
        Err(CertificateError::InvalidInput)
    );
}

#[test]
fn test_validate_metadata_update_success() {
    // Each of "Updated Title", "Updated description" and its https URI passes its check.
    assert!(MetadataValidator::validate_metadata_update(Some(true), Some(true), Some(true)).is_ok());
}

#[test]
fn test_validate_metadata_update_invalid_title() {
    // The shared validator refuses a title holding a script tag.
    assert_eq!(
        MetadataValidator::validate_metadata_update(Some(false), None, None),
        Err(CertificateError::InvalidMetadata)
    );
}

#[test]
fn update_checks_stop_at_the_first_failure() {
    assert_eq!(
        MetadataValidator::validate_metadata_update(Some(true), Some(false), Some(false)),
        Err(CertificateError::InvalidMetadata)
    );
    assert_eq!(MetadataValidator::validate_metadata_update(None, None, Some(false)), Err(CertificateError::InvalidUri));
    assert_eq!(MetadataValidator::validate_metadata_update(None, None, None), Ok(()));
}

#[test]
fn batch_item_failure_comes_before_duplicates() {
    let a = mint_params([7u8; 32], "CS-1", 1, "T1", "D1", "U1");
    let b = mint_params([7u8; 32], "CS-2", 1, "T2", "D2", "U2");
    let checks = vec![ACCEPTED, MintFieldChecks { metadata_uri: false, ..ACCEPTED }];
    assert_eq!(MetadataValidator::validate_batch_params(&vec![a, b], &checks), Err(CertificateError::InvalidUri));
}

#[test]
fn mint_checks_map_each_refusal() {
    assert_eq!(MetadataValidator::validate_mint_params(ACCEPTED), Ok(()));
    assert_eq!(
        MetadataValidator::validate_mint_params(MintFieldChecks { certificate_id: false, ..ACCEPTED }),
        Err(CertificateError::InvalidMetadata)
    );
    assert_eq!(
        MetadataValidator::validate_mint_params(MintFieldChecks { metadata_uri: false, ..ACCEPTED }),
        Err(CertificateError::InvalidUri)
    );
    assert_eq!(
        MetadataValidator::validate_mint_params(MintFieldChecks { metadata_uri: false, description: false, ..ACCEPTED }),
        Err(CertificateError::InvalidMetadata)
    );
    assert_eq!(
        MetadataValidator::validate_mint_params(MintFieldChecks { expiry_date: false, ..ACCEPTED }),
        Err(CertificateError::InvalidMetadata)
    );
}
