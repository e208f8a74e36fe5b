use strellerminds::certificate::errors::CertificateError;
use strellerminds::certificate::expiry::ExpiryManager;
use strellerminds::certificate::state::Certificate;
use strellerminds::certificate::types::{
    BulkExpiryOperation, CertificateStatus, ExtensionParams, MintCertificateParams, NotificationType, RenewalStatus,
};
use strellerminds::common::ids::{Address, Bytes32};
use strellerminds::certificate::validation::MintFieldChecks;

/// The shared validator's answers on fields it accepts.
const ACCEPTED: MintFieldChecks = MintFieldChecks {
    certificate_id: true,
    course_id: true,
    title: true,
    description: true,
    metadata_uri: true,
    expiry_date: true,
};

const START: u64 = 1_000_000;
const DAY: u64 = 86400;

fn s(x: &str) -> String {
    x.to_string()
}

fn create_test_env() -> (Certificate, Address, Address, Address) {
    let mut c = Certificate::new();
    let admin = Address { id: 21 };
    let instructor = Address { id: 22 };
    let student = Address { id: 23 };
    c.initialize(admin, true).unwrap();
    (c, admin, instructor, student)
}

fn params(id: Bytes32, student: Address, course: &str, title: &str, description: &str, expiry_date: u64) -> MintCertificateParams {
    MintCertificateParams {
        certificate_id: id,
        student,
        course_id: s(course),
        title: s(title),
        description: s(description),
        metadata_uri: s("https://example.com/metadata"),
        expiry_date,
    }
}

fn setup_contract_with_certificate(c: &mut Certificate, instructor: &Address, student: &Address) -> Bytes32 {
    let certificate_id = Bytes32::from_array([1u8; 32]);
    let p = params(certificate_id, *student, "COURSE_001", "Test Certificate", "A test certificate", START + DAY * 30);
    c.mint_certificate(*instructor, p, ACCEPTED, true, START).unwrap();
    certificate_id
}

#[test]
fn test_request_certificate_renewal() {
    let (mut c, _admin, instructor, student) = create_test_env();
    let certificate_id = setup_contract_with_certificate(&mut c, &instructor, &student);
    let extension_period = DAY * 30;
    let result = ExpiryManager::request_renewal(
        &mut c,
        &student,
        &certificate_id,
        extension_period,
        s("Certificate still needed for employment"),
        START,
    );
    assert!(result.is_ok());
    let renewal_request = c.renewal_requests.get(&certificate_id);
    assert!(renewal_request.is_some());
    let request = renewal_request.unwrap();
    assert_eq!(request.certificate_id, certificate_id);
    assert_eq!(request.requester, student);
    assert_eq!(request.requested_extension, extension_period);
    assert_eq!(request.status, RenewalStatus::Pending);
}

#[test]
fn test_request_renewal_nonexistent_certificate() {
    let (mut c, _admin, _instructor, student) = create_test_env();
    let fake_certificate_id = Bytes32::from_array([99u8; 32]);
    let result = ExpiryManager::request_renewal(&mut c, &student, &fake_certificate_id, DAY * 30, s("Test reason"), START);
    assert_eq!(result, Err(CertificateError::CertificateNotFound));
}

#[test]
fn test_process_renewal_request_approval() {
    let (mut c, admin, instructor, student) = create_test_env();
    let certificate_id = setup_contract_with_certificate(&mut c, &instructor, &student);
    ExpiryManager::request_renewal(&mut c, &student, &certificate_id, DAY * 30, s("Need extension"), START).unwrap();
    let original_expiry = c.get_certificate(&certificate_id).unwrap().expiry_date;
    let result = ExpiryManager::process_renewal_request(
        &mut c,
        &admin,
        &certificate_id,
        true,
        Some(s("Approved for continued education")),
        START + 10,
    );
    assert!(result.is_ok());
    let updated_cert = c.get_certificate(&certificate_id).unwrap();
    assert!(updated_cert.expiry_date > original_expiry);
    assert_eq!(updated_cert.status, CertificateStatus::Renewed);
    assert_eq!(updated_cert.renewal_count, 1);
    let renewal_request = c.renewal_requests.get(&certificate_id);
    assert!(renewal_request.is_some());
    assert_eq!(renewal_request.unwrap().status, RenewalStatus::Approved);
}

#[test]
fn test_process_renewal_request_rejection() {
    let (mut c, admin, instructor, student) = create_test_env();
    let certificate_id = setup_contract_with_certificate(&mut c, &instructor, &student);
    ExpiryManager::request_renewal(&mut c, &student, &certificate_id, DAY * 30, s("Need extension"), START).unwrap();
    let original_expiry = c.get_certificate(&certificate_id).unwrap().expiry_date;
    let result = ExpiryManager::process_renewal_request(
        &mut c,
        &admin,
        &certificate_id,
        false,
        Some(s("Insufficient justification")),
        START + 10,
    );
    assert!(result.is_ok());
    let updated_cert = c.get_certificate(&certificate_id).unwrap();
    assert_eq!(updated_cert.expiry_date, original_expiry);
    assert_eq!(updated_cert.status, CertificateStatus::Active);
    let renewal_request = c.renewal_requests.get(&certificate_id);
    assert!(renewal_request.is_some());
    assert_eq!(renewal_request.unwrap().status, RenewalStatus::Rejected);
}

#[test]
fn test_extend_certificate_expiry() {
    // As in a fresh ledger, the certificate is minted and extended at time zero.
    let (mut c, admin, instructor, student) = create_test_env();
    let certificate_id = Bytes32::from_array([1u8; 32]);
    let p = params(certificate_id, student, "COURSE_001", "Test Certificate", "A test certificate", DAY * 30);
    c.mint_certificate(instructor, p, ACCEPTED, true, 0).unwrap();
    let original_expiry = c.get_certificate(&certificate_id).unwrap().expiry_date;
    let extension_period = DAY * 60;
    let p = ExtensionParams {
        certificate_id,
        extension_period,
        reason: s("Administrative extension"),
        max_renewals: None,
    };
    let result = ExpiryManager::extend_certificate_expiry(&mut c, &admin, &p, 0);
    assert!(result.is_ok());
    let updated_cert = c.get_certificate(&certificate_id).unwrap();
    assert_eq!(updated_cert.expiry_date, original_expiry + extension_period);
    assert_eq!(updated_cert.renewal_count, 1);
    assert!(updated_cert.last_renewed_date > 0);
}

#[test]
fn extension_later_records_its_time() {
    let (mut c, admin, instructor, student) = create_test_env();
    let certificate_id = setup_contract_with_certificate(&mut c, &instructor, &student);
    let p = ExtensionParams {
        certificate_id,
        extension_period: DAY * 60,
        reason: s("Administrative extension"),
        max_renewals: None,
    };
    ExpiryManager::extend_certificate_expiry(&mut c, &admin, &p, START + 5).unwrap();
    assert_eq!(c.get_certificate(&certificate_id).unwrap().last_renewed_date, START + 5);
}

#[test]
fn test_bulk_extend_certificates() {
    let (mut c, admin, instructor, student) = create_test_env();
    let mut certificate_ids = Vec::new();
    for i in 0..3u8 {
        let cert_id = Bytes32::from_array([i; 32]);
        let p = params(
            cert_id,
            student,
            &format!("COURSE_{:03}", i),
            &format!("Test Certificate {}", i),
            "A test certificate",
            START + DAY * 30,
        );
        c.mint_certificate(instructor, p, ACCEPTED, true, START).unwrap();
        certificate_ids.push(cert_id);
    }
    let new_expiry_date = START + DAY * 90;
    let operation = BulkExpiryOperation {
        certificate_ids: certificate_ids.clone(),
        new_expiry_date,
        reason: s("Bulk administrative extension"),
        operator: admin,
    };
    let result = ExpiryManager::bulk_extend_certificates(&mut c, &admin, &operation, START);
    assert!(result.is_ok());
    let successful_ids = result.unwrap();
    assert_eq!(successful_ids.len(), 3);
    for cert_id in certificate_ids.iter() {
        let cert = c.get_certificate(cert_id).unwrap();
        assert_eq!(cert.expiry_date, new_expiry_date);
        assert_eq!(cert.renewal_count, 1);
    }
}

#[test]
fn test_get_expiring_certificates() {
    let (mut c, _admin, instructor, student) = create_test_env();
    let current_time = START;
    let cert_id_1 = Bytes32::from_array([1u8; 32]);
    let params_1 = params(cert_id_1, student, "COURSE_001", "Expiring Soon", "Certificate expiring in 5 days", current_time + DAY * 5);
    let cert_id_2 = Bytes32::from_array([2u8; 32]);
    let params_2 = params(cert_id_2, student, "COURSE_002", "Not Expiring Soon", "Certificate expiring in 60 days", current_time + DAY * 60);
    c.mint_certificate(instructor, params_1, ACCEPTED, true, current_time).unwrap();
    c.mint_certificate(instructor, params_2, ACCEPTED, true, current_time).unwrap();
    let expiring_certs = ExpiryManager::get_expiring_certificates(&c, DAY * 7, current_time);
    assert_eq!(expiring_certs.len(), 1);
    assert_eq!(expiring_certs[0], cert_id_1);
}

#[test]
fn test_update_expired_certificates() {
    let (mut c, _admin, instructor, student) = create_test_env();
    let cert_id = Bytes32::from_array([1u8; 32]);
    let p = params(cert_id, student, "COURSE_001", "Expired Certificate", "This certificate is expired", START - DAY);
    c.mint_certificate(instructor, p, ACCEPTED, true, START).unwrap();
    let result = ExpiryManager::update_expired_certificates(&mut c, START);
    assert!(result.is_ok());
    let updated_count = result.unwrap();
    assert_eq!(updated_count, 1);
    let cert = c.get_certificate(&cert_id).unwrap();
    assert_eq!(cert.status, CertificateStatus::Expired);
}

#[test]
fn test_acknowledge_notification() {
    let (mut c, _admin, instructor, student) = create_test_env();
    let certificate_id = setup_contract_with_certificate(&mut c, &instructor, &student);
    // The notification that the expiry checks would have raised.
    ExpiryManager::create_expiry_notification(&mut c, &certificate_id, NotificationType::Warning30Days, START).unwrap();
    let result = ExpiryManager::acknowledge_notification(&mut c, &student, &certificate_id);
    assert!(result.is_ok());
    let notifications = ExpiryManager::get_user_notifications(&c, &student);
    let acknowledged_notifications: Vec<_> = notifications
        .iter()
        .filter(|n| n.certificate_id == certificate_id && n.acknowledged)
        .collect();
    assert!(!acknowledged_notifications.is_empty());
}

#[test]
fn test_renewal_request_expiry() {
    let (mut c, admin, instructor, student) = create_test_env();
    let certificate_id = setup_contract_with_certificate(&mut c, &instructor, &student);
    ExpiryManager::request_renewal(&mut c, &student, &certificate_id, DAY * 30, s("Need extension"), START).unwrap();
    let result = ExpiryManager::process_renewal_request(
        &mut c,
        &admin,
        &certificate_id,
        true,
        Some(s("Processing expired request")),
        START + DAY * 31,
    );
    assert!(result.is_err());
}

#[test]
fn test_multiple_renewal_requests() {
    let (mut c, _admin, instructor, student) = create_test_env();
    let certificate_id = setup_contract_with_certificate(&mut c, &instructor, &student);
    ExpiryManager::request_renewal(&mut c, &student, &certificate_id, DAY * 30, s("First renewal"), START).unwrap();
    let result = ExpiryManager::request_renewal(&mut c, &student, &certificate_id, DAY * 30, s("Second renewal"), START);
    assert!(result.is_err());
}

#[test]
fn test_renewal_limits() {
    let (mut c, admin, instructor, student) = create_test_env();
    let certificate_id = setup_contract_with_certificate(&mut c, &instructor, &student);
    for i in 0..5 {
        let extension_period = DAY * 30;
        ExpiryManager::request_renewal(&mut c, &student, &certificate_id, extension_period, format!("Renewal {}", i + 1), START)
            .unwrap();
        ExpiryManager::process_renewal_request(
            &mut c,
            &admin,
            &certificate_id,
            true,
            Some(format!("Approved renewal {}", i + 1)),
            START,
        )
        .unwrap();
    }
    let result = ExpiryManager::request_renewal(&mut c, &student, &certificate_id, DAY * 30, s("Sixth renewal"), START);
    let cert = c.get_certificate(&certificate_id).unwrap();
    assert_eq!(cert.renewal_count, 5);
    // The sixth request meets the renewal limit.
    assert_eq!(result, Err(CertificateError::InvalidInput));
}
