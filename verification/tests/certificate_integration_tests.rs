use strellerminds::certificate::errors::CertificateError;
use strellerminds::certificate::state::Certificate;
use strellerminds::certificate::types::MintCertificateParams;
use strellerminds::certificate::validation::{MetadataValidator, MintFieldChecks};
use strellerminds::common::ids::{Address, Bytes32};

/// The shared validator's answers on fields it accepts.
const ACCEPTED: MintFieldChecks = MintFieldChecks {
    certificate_id: true,
    course_id: true,
    title: true,
    description: true,
    metadata_uri: true,
    expiry_date: true,
};

const NOW: u64 = 1_000_000;
const DAY: u64 = 86400;

fn s(x: &str) -> String {
    x.to_string()
}

fn setup_test_env() -> (Certificate, Address, Address) {
    let mut c = Certificate::new();
    let admin = Address { id: 1 };
    let issuer = Address { id: 2 };
    c.initialize(admin, true).unwrap();
    (c, admin, issuer)
}

fn mint_params(id: u8, student: Address, course: &str, title: &str, description: &str, uri: &str) -> MintCertificateParams {
    MintCertificateParams {
        certificate_id: Bytes32::from_array([id; 32]),
        course_id: s(course),
        student,
        title: s(title),
        description: s(description),
        metadata_uri: s(uri),
        expiry_date: NOW + DAY,
    }
}

#[test]
fn test_size_limits_integration() {
    let (mut c, _admin, issuer) = setup_test_env();
    let student = Address { id: 3 };

    // A title of 201 characters exceeds the validator's limit of 200.
    let too_long_title = "A".repeat(201);
    let params = mint_params(
        1,
        student,
        "CS-101",
        &too_long_title,
        "Valid description for testing size limits.",
        "https://example.com/metadata.json",
    );
    let result = c.mint_certificate(issuer, params, MintFieldChecks { title: false, ..ACCEPTED }, true, NOW);
    assert_eq!(result, Err(CertificateError::InvalidMetadata));

    // A description of 1001 characters exceeds the validator's limit of 1000.
    let too_long_description = "A".repeat(1001);
    let params = mint_params(
        2,
        student,
        "CS-101",
        "Valid Certificate Title",
        &too_long_description,
        "https://example.com/metadata.json",
    );
    let result = c.mint_certificate(issuer, params, MintFieldChecks { description: false, ..ACCEPTED }, true, NOW);
    assert_eq!(result, Err(CertificateError::InvalidMetadata));
    assert!(c.get_certificate(&Bytes32::from_array([1; 32])).is_none());
    assert!(c.get_certificate(&Bytes32::from_array([2; 32])).is_none());
}

#[test]
fn test_uri_validation_integration() {
    let (mut c, _admin, issuer) = setup_test_env();
    let student = Address { id: 3 };
    let valid_uris = [
        "https://example.com/metadata.json",
        "ipfs://QmYwAPJzv5CZsnA625s3Xf2nemtYgPpHdWEz79ojWnPbdG",
        "ar://abc123def456ghi789jkl012mno345pqr678stu901v",
    ];
    for (i, uri) in valid_uris.iter().enumerate() {
        let params = mint_params(
            10 + i as u8,
            student,
            "CS-101",
            "Valid Certificate Title",
            "This certificate validates completion of the course.",
            uri,
        );
        assert!(c.mint_certificate(issuer, params, ACCEPTED, true, NOW).is_ok(), "valid URI accepted: {}", uri);
    }
    let invalid_uris = [
        "http://example.com/metadata.json",
        "ftp://example.com/metadata.json",
        "file:///path/to/metadata.json",
        "data:application/json,{}",
    ];
    for (i, uri) in invalid_uris.iter().enumerate() {
        let params = mint_params(
            20 + i as u8,
            student,
            "CS-101",
            "Certificate Title",
            "This certificate validates completion of the course.",
            uri,
        );
        let result = c.mint_certificate(issuer, params, MintFieldChecks { metadata_uri: false, ..ACCEPTED }, true, NOW);
        assert_eq!(result, Err(CertificateError::InvalidUri), "invalid URI refused: {}", uri);
    }
}

#[test]
fn test_batch_certificate_validation_integration() {
    let (mut c, _admin, issuer) = setup_test_env();
    let student1 = Address { id: 3 };
    let student2 = Address { id: 4 };
    let params1 = mint_params(
        1,
        student1,
        "CS-101",
        "Computer Science Fundamentals",
        "This certificate validates completion of CS-101 course covering programming fundamentals.",
        "https://example.com/metadata/cert1.json",
    );
    let params2 = mint_params(
        2,
        student2,
        "CS-102",
        "Advanced Computer Science",
        "This certificate validates completion of CS-102 course covering advanced programming concepts.",
        "https://example.com/metadata/cert2.json",
    );
    let batch = vec![params1.clone(), params2.clone()];
    assert_eq!(MetadataValidator::validate_batch_params(&batch, &vec![ACCEPTED, ACCEPTED]), Ok(()));
    let result = c.mint_certificates_batch(issuer, &batch, true, NOW);
    assert!(result.is_ok(), "Valid batch should mint successfully");
    assert!(c.get_certificate(&params1.certificate_id).is_some());
    assert!(c.get_certificate(&params2.certificate_id).is_some());

    let duplicate_params = mint_params(
        1,
        student1,
        "CS-103",
        "Duplicate Certificate",
        "This should fail due to duplicate ID.",
        "https://example.com/metadata/cert3.json",
    );
    let invalid_batch = vec![params1, duplicate_params];
    assert_eq!(
        MetadataValidator::validate_batch_params(&invalid_batch, &vec![ACCEPTED, ACCEPTED]),
        Err(CertificateError::CertificateAlreadyExists)
    );
    let result = c.mint_certificates_batch(issuer, &invalid_batch, true, NOW);
    assert_eq!(result, Err(CertificateError::CertificateAlreadyExists));
}

#[test]
fn test_uri_update_validation_integration() {
    let (mut c, _admin, issuer) = setup_test_env();
    let student = Address { id: 3 };
    let cert_id = Bytes32::from_array([1; 32]);
    let params = mint_params(
        1,
        student,
        "CS-101",
        "Computer Science Certificate",
        "This certificate validates completion of CS-101.",
        "https://example.com/original.json",
    );
    c.mint_certificate(issuer, params, ACCEPTED, true, NOW).unwrap();

    let new_valid_uri = s("https://updated.example.com/metadata.json");
    let result = c.update_certificate_uri(issuer, cert_id, new_valid_uri.clone(), true, true, NOW + 1);
    assert!(result.is_ok(), "Valid URI update should succeed");

    // The validator refuses a plain http URI.
    let invalid_uri = s("http://insecure.example.com/metadata.json");
    let result = c.update_certificate_uri(issuer, cert_id, invalid_uri, false, true, NOW + 2);
    assert_eq!(result, Err(CertificateError::InvalidUri));

    let result = c.update_certificate_uri(issuer, cert_id, s(""), false, true, NOW + 3);
    assert_eq!(result, Err(CertificateError::InvalidUri));

    // The refused updates left the URI and the history as they were.
    assert_eq!(c.get_certificate(&cert_id).unwrap().metadata_uri, new_valid_uri);
    assert_eq!(c.get_metadata_history(&cert_id).unwrap().len(), 1);
}

#[test]
fn test_expiry_date_validation_integration() {
    let (mut c, _admin, issuer) = setup_test_env();
    let student = Address { id: 3 };
    let mut params = mint_params(
        1,
        student,
        "CS-101",
        "Expired Certificate",
        "This certificate should not be created with past expiry.",
        "https://example.com/metadata.json",
    );
    params.expiry_date = NOW - 1000;
    let result = c.mint_certificate(issuer, params, MintFieldChecks { expiry_date: false, ..ACCEPTED }, true, NOW);
    assert_eq!(result, Err(CertificateError::InvalidMetadata));

    let mut params = mint_params(
        2,
        student,
        "CS-101",
        "Far Future Certificate",
        "This certificate should not be created with too far future expiry.",
        "https://example.com/metadata.json",
    );
    params.expiry_date = NOW + 101 * 365 * 24 * 60 * 60;
    let result = c.mint_certificate(issuer, params, MintFieldChecks { expiry_date: false, ..ACCEPTED }, true, NOW);
    assert_eq!(result, Err(CertificateError::InvalidMetadata));
}

#[test]
fn empty_title_is_refused_before_the_validator_is_consulted() {
    let (mut c, _admin, issuer) = setup_test_env();
    let params = mint_params(1, Address { id: 3 }, "CS-101", "", "A description", "https://example.com/m.json");
    assert_eq!(c.mint_certificate(issuer, params, ACCEPTED, true, NOW), Err(CertificateError::InvalidMetadata));
}

#[test]
fn refused_uri_on_mint_is_an_invalid_uri_and_stores_nothing() {
    let (mut c, _admin, issuer) = setup_test_env();
    let params = mint_params(1, Address { id: 3 }, "CS-101", "Title", "A description", "ftp://example.com/m.json");
    let before = c.get_certificate(&Bytes32::from_array([1; 32])).is_some();
    assert_eq!(
        c.mint_certificate(issuer, params, MintFieldChecks { metadata_uri: false, ..ACCEPTED }, true, NOW),
        Err(CertificateError::InvalidUri)
    );
    assert!(!before);
    assert!(c.get_certificate(&Bytes32::from_array([1; 32])).is_none());
}
