use strellerminds::certificate::multisig::MultiSigManager;
use strellerminds::certificate::state::Certificate;
use strellerminds::certificate::types::{CertificatePriority, MintCertificateParams, MultiSigConfig, MultiSigRequestStatus};
use strellerminds::common::ids::{Address, Bytes32};
use strellerminds::certificate::validation::MintFieldChecks;

/// The shared validator's answers on fields it accepts.
const ACCEPTED: MintFieldChecks = MintFieldChecks {
    certificate_id: true,
    course_id: true,
    title: true,
    description: true,
    metadata_uri: true,
    expiry_date: true,
};

const NOW: u64 = 1_000;

fn s(x: &str) -> String {
    x.to_string()
}

fn create_test_env() -> (Certificate, Address, Address, Address, Address, Address) {
    let mut c = Certificate::new();
    let admin = Address { id: 31 };
    let instructor = Address { id: 32 };
    let student = Address { id: 33 };
    let approver1 = Address { id: 34 };
    let approver2 = Address { id: 35 };
    c.initialize(admin, true).unwrap();
    (c, admin, instructor, student, approver1, approver2)
}

fn create_test_config(course_id: &str, required_approvals: u32, approvers: Vec<Address>) -> MultiSigConfig {
    MultiSigConfig {
        course_id: s(course_id),
        required_approvals,
        authorized_approvers: approvers,
        timeout_duration: 86400,
        priority: CertificatePriority::Premium,
        auto_execute: true,
    }
}

fn create_test_mint_params(student: &Address, course_id: &str) -> MintCertificateParams {
    MintCertificateParams {
        certificate_id: Bytes32::from_array([1u8; 32]),
        course_id: s(course_id),
        student: *student,
        title: s("Test Certificate"),
        description: s("Test Description"),
        metadata_uri: s("https://example.com/metadata"),
        expiry_date: NOW + 31536000,
    }
}

fn configured(c: &mut Certificate, admin: &Address, config: MultiSigConfig) {
    MultiSigManager::configure_multisig(c, admin, config, true, NOW).unwrap();
}

fn new_request(c: &mut Certificate, instructor: &Address, student: &Address) -> Bytes32 {
    let params = create_test_mint_params(student, "COURSE_001");
    MultiSigManager::create_multisig_request(c, instructor, params, s("Test request"), ACCEPTED, true, NOW).unwrap()
}

#[test]
fn test_configure_multisig_success() {
    let (mut c, admin, _, _, approver1, approver2) = create_test_env();
    let config = create_test_config("COURSE_001", 2, vec![approver1, approver2]);
    let result = MultiSigManager::configure_multisig(&mut c, &admin, config.clone(), true, NOW);
    assert!(result.is_ok());
    let stored_config = MultiSigManager::get_config(&c, &s("COURSE_001"));
    assert!(stored_config.is_ok());
    assert_eq!(stored_config.unwrap().required_approvals, 2);
}

#[test]
fn test_configure_multisig_invalid_threshold() {
    let (mut c, admin, _, _, approver1, _) = create_test_env();
    let mut config = create_test_config("COURSE_001", 3, vec![approver1]);
    config.required_approvals = 3;
    let result = MultiSigManager::configure_multisig(&mut c, &admin, config, true, NOW);
    assert!(result.is_err());
}

#[test]
fn test_configure_multisig_timeout_too_short() {
    let (mut c, admin, _, _, approver1, approver2) = create_test_env();
    let mut config = create_test_config("COURSE_001", 2, vec![approver1, approver2]);
    config.timeout_duration = 1800;
    let result = MultiSigManager::configure_multisig(&mut c, &admin, config, true, NOW);
    assert!(result.is_err());
}

#[test]
fn test_create_multisig_request_invalid_metadata_rejected() {
    let (mut c, admin, instructor, student, approver1, approver2) = create_test_env();
    configured(&mut c, &admin, create_test_config("COURSE_001", 2, vec![approver1, approver2]));
    // A two-character title is too short for the shared validator.
    let mut params = create_test_mint_params(&student, "COURSE_001");
    params.title = s("AB");
    let request_id = params.certificate_id;
    let result = MultiSigManager::create_multisig_request(
        &mut c,
        &instructor,
        params,
        s("Invalid title"),
        MintFieldChecks { title: false, ..ACCEPTED },
        true,
        NOW,
    );
    assert!(result.is_err());
    assert!(MultiSigManager::get_request(&c, &request_id).is_err());
    assert!(MultiSigManager::get_pending_approvals(&c, &approver1).is_empty());
}

#[test]
fn test_create_multisig_request_success() {
    let (mut c, admin, instructor, student, approver1, approver2) = create_test_env();
    configured(&mut c, &admin, create_test_config("COURSE_001", 2, vec![approver1, approver2]));
    let params = create_test_mint_params(&student, "COURSE_001");
    let result = MultiSigManager::create_multisig_request(&mut c, &instructor, params, s("High-value certificate request"), ACCEPTED, true, NOW);
    assert!(result.is_ok());
    let request_id = result.unwrap();
    let request = MultiSigManager::get_request(&c, &request_id);
    assert!(request.is_ok());
    assert_eq!(request.unwrap().status, MultiSigRequestStatus::Pending);
}

#[test]
fn test_create_multisig_request_no_config() {
    let (mut c, _admin, instructor, student, _, _) = create_test_env();
    let params = create_test_mint_params(&student, "COURSE_001");
    let result = MultiSigManager::create_multisig_request(&mut c, &instructor, params, s("Test request"), ACCEPTED, true, NOW);
    assert!(result.is_err());
}

#[test]
fn test_process_multisig_approval_success() {
    let (mut c, admin, instructor, student, approver1, approver2) = create_test_env();
    configured(&mut c, &admin, create_test_config("COURSE_001", 2, vec![approver1, approver2]));
    let request_id = new_request(&mut c, &instructor, &student);

    let result = MultiSigManager::process_approval(&mut c, &approver1, &request_id, true, s("Approved by approver1"), None, NOW);
    assert!(result.is_ok());
    let request = MultiSigManager::get_request(&c, &request_id).unwrap();
    assert_eq!(request.status, MultiSigRequestStatus::Pending);
    assert_eq!(request.current_approvals, 1);

    let result = MultiSigManager::process_approval(&mut c, &approver2, &request_id, true, s("Approved by approver2"), None, NOW);
    assert!(result.is_ok());
    let request = MultiSigManager::get_request(&c, &request_id).unwrap();
    assert_eq!(request.status, MultiSigRequestStatus::Executed);
    assert_eq!(request.current_approvals, 2);
}

#[test]
fn test_process_multisig_approval_rejection() {
    let (mut c, admin, instructor, student, approver1, approver2) = create_test_env();
    configured(&mut c, &admin, create_test_config("COURSE_001", 2, vec![approver1, approver2]));
    let request_id = new_request(&mut c, &instructor, &student);
    let result = MultiSigManager::process_approval(
        &mut c,
        &approver1,
        &request_id,
        false,
        s("Rejected - insufficient documentation"),
        None,
        NOW,
    );
    assert!(result.is_ok());
    let request = MultiSigManager::get_request(&c, &request_id).unwrap();
    assert_eq!(request.status, MultiSigRequestStatus::Rejected);
}

#[test]
fn test_process_multisig_approval_unauthorized_approver() {
    let (mut c, admin, instructor, student, approver1, approver2) = create_test_env();
    let unauthorized_approver = Address { id: 36 };
    configured(&mut c, &admin, create_test_config("COURSE_001", 2, vec![approver1, approver2]));
    let request_id = new_request(&mut c, &instructor, &student);
    let result = MultiSigManager::process_approval(&mut c, &unauthorized_approver, &request_id, true, s("Unauthorized approval"), None, NOW);
    assert!(result.is_err());
}

#[test]
fn test_process_multisig_approval_duplicate_approval() {
    let (mut c, admin, instructor, student, approver1, approver2) = create_test_env();
    configured(&mut c, &admin, create_test_config("COURSE_001", 2, vec![approver1, approver2]));
    let request_id = new_request(&mut c, &instructor, &student);
    MultiSigManager::process_approval(&mut c, &approver1, &request_id, true, s("First approval"), None, NOW).unwrap();
    let result = MultiSigManager::process_approval(&mut c, &approver1, &request_id, true, s("Duplicate approval"), None, NOW);
    assert!(result.is_err());
}

#[test]
fn test_execute_multisig_request_manual() {
    let (mut c, admin, instructor, student, approver1, approver2) = create_test_env();
    let mut config = create_test_config("COURSE_001", 2, vec![approver1, approver2]);
    config.auto_execute = false;
    configured(&mut c, &admin, config);
    let request_id = new_request(&mut c, &instructor, &student);
    MultiSigManager::process_approval(&mut c, &approver1, &request_id, true, s("Approved"), None, NOW).unwrap();
    MultiSigManager::process_approval(&mut c, &approver2, &request_id, true, s("Approved"), None, NOW).unwrap();

    let request = MultiSigManager::get_request(&c, &request_id).unwrap().clone();
    let result = MultiSigManager::execute_certificate_issuance(&mut c, &request, NOW);
    assert!(result.is_ok());

    let cert_id = Bytes32::from_array([1u8; 32]);
    let certificate = c.get_certificate(&cert_id);
    assert!(certificate.is_some());
}

#[test]
fn completing_approval_keeps_the_records_and_counts() {
    let (mut c, admin, instructor, student, approver1, approver2) = create_test_env();
    configured(&mut c, &admin, create_test_config("COURSE_001", 2, vec![approver1, approver2]));
    let request_id = new_request(&mut c, &instructor, &student);
    MultiSigManager::process_approval(&mut c, &approver1, &request_id, true, s("first"), None, NOW).unwrap();
    MultiSigManager::process_approval(&mut c, &approver2, &request_id, true, s("second"), None, NOW + 1).unwrap();
    let request = MultiSigManager::get_request(&c, &request_id).unwrap();
    assert_eq!(request.status, MultiSigRequestStatus::Executed);
    assert_eq!(request.current_approvals, 2);
    assert_eq!(request.approval_records.len(), 2);
    assert_eq!(request.approval_records[0].approver, approver1);
    assert_eq!(request.approval_records[0].comments, s("first"));
    assert_eq!(request.approval_records[1].approver, approver2);
    assert_eq!(request.approval_records[1].timestamp, NOW + 1);
    assert!(c.get_certificate(&request_id).is_some());
}

#[test]
fn a_repeated_approver_gets_the_request_twice() {
    let (mut c, admin, instructor, student, approver1, _) = create_test_env();
    configured(&mut c, &admin, create_test_config("COURSE_001", 1, vec![approver1, approver1]));
    let request_id = new_request(&mut c, &instructor, &student);
    assert_eq!(MultiSigManager::get_pending_approvals(&c, &approver1), vec![request_id, request_id]);
}

#[test]
fn test_get_pending_approvals() {
    let (mut c, admin, instructor, student, approver1, approver2) = create_test_env();
    configured(&mut c, &admin, create_test_config("COURSE_001", 2, vec![approver1, approver2]));
    let request_id = new_request(&mut c, &instructor, &student);
    let pending1 = MultiSigManager::get_pending_approvals(&c, &approver1);
    let pending2 = MultiSigManager::get_pending_approvals(&c, &approver2);
    assert_eq!(pending1.len(), 1);
    assert_eq!(pending2.len(), 1);
    assert_eq!(pending1[0], request_id);
    assert_eq!(pending2[0], request_id);
}

#[test]
fn test_multisig_audit_trail() {
    let (mut c, admin, instructor, student, approver1, approver2) = create_test_env();
    configured(&mut c, &admin, create_test_config("COURSE_001", 2, vec![approver1, approver2]));
    let request_id = new_request(&mut c, &instructor, &student);
    MultiSigManager::process_approval(&mut c, &approver1, &request_id, true, s("Approved by approver1"), None, NOW).unwrap();
    MultiSigManager::process_approval(&mut c, &approver2, &request_id, true, s("Approved by approver2"), None, NOW).unwrap();
    let audit_trail = MultiSigManager::get_audit_trail(&c, &request_id);
    assert!(audit_trail.len() >= 3);
}

#[test]
fn test_certificate_priority_levels() {
    let (mut c, admin, _instructor, _student, approver1, approver2) = create_test_env();
    let priorities = vec![
        (CertificatePriority::Standard, 1),
        (CertificatePriority::Premium, 2),
        (CertificatePriority::Enterprise, 3),
        (CertificatePriority::Institutional, 5),
    ];
    for (priority, expected_approvals) in priorities {
        let course_id = format!("COURSE_{:?}", priority);
        let mut config = create_test_config(&course_id, expected_approvals, vec![approver1, approver2]);
        config.priority = priority;
        let result = MultiSigManager::configure_multisig(&mut c, &admin, config, true, NOW);
        if expected_approvals <= 2 {
            assert!(result.is_ok());
        } else {
            assert!(result.is_err());
        }
    }
}
