use strellerminds::certificate::multisig::MultiSigManager;
use strellerminds::certificate::state::Certificate;
use strellerminds::certificate::types::{
    CertificatePriority, CertificateStatus, MintCertificateParams, MultiSigConfig, MultiSigRequestStatus,
};
use strellerminds::common::ids::{Address, Bytes32};
use strellerminds::certificate::validation::MintFieldChecks;

/// The shared validator's answers on fields it accepts.
const ACCEPTED: MintFieldChecks = MintFieldChecks {
    certificate_id: true,
    course_id: true,
    title: true,
    description: true,
    metadata_uri: true,
    expiry_date: true,
};

const START: u64 = 5_000;

fn s(x: &str) -> String {
    x.to_string()
}

fn setup_full_multisig_scenario() -> (Certificate, Address, Address, Address, Vec<Address>) {
    let mut c = Certificate::new();
    let admin = Address { id: 41 };
    let instructor = Address { id: 42 };
    let student = Address { id: 43 };
    let approvers = vec![Address { id: 44 }, Address { id: 45 }, Address { id: 46 }];
    c.initialize(admin, true).unwrap();
    (c, admin, instructor, student, approvers)
}

fn params(id: u8, course: &str, student: Address, title: &str, description: &str, uri: &str) -> MintCertificateParams {
    MintCertificateParams {
        certificate_id: Bytes32::from_array([id; 32]),
        course_id: s(course),
        student,
        title: s(title),
        description: s(description),
        metadata_uri: s(uri),
        expiry_date: START + 31536000,
    }
}

#[test]
fn test_end_to_end_multisig_workflow() {
    let (mut c, admin, instructor, student, approvers) = setup_full_multisig_scenario();
    let config = MultiSigConfig {
        course_id: s("ENTERPRISE_COURSE_001"),
        required_approvals: 3,
        authorized_approvers: approvers.clone(),
        timeout_duration: 86400,
        priority: CertificatePriority::Enterprise,
        auto_execute: true,
    };
    MultiSigManager::configure_multisig(&mut c, &admin, config, true, START).unwrap();

    let p = params(
        1,
        "ENTERPRISE_COURSE_001",
        student,
        "Enterprise Blockchain Certification",
        "Advanced enterprise blockchain development certification",
        "https://enterprise.example.com/cert/metadata",
    );
    let request_id = MultiSigManager::create_multisig_request(
        &mut c,
        &instructor,
        p.clone(),
        s("High-value enterprise certification requiring multiple approvals"),
        ACCEPTED,
        true,
        START,
    )
    .unwrap();

    let request = MultiSigManager::get_request(&c, &request_id).unwrap();
    assert_eq!(request.status, MultiSigRequestStatus::Pending);
    assert_eq!(request.required_approvals, 3);
    assert_eq!(request.current_approvals, 0);

    MultiSigManager::process_approval(
        &mut c,
        &approvers[0],
        &request_id,
        true,
        s("Approved - student demonstrated excellent technical skills"),
        Some(Bytes32::from_array([0xA1u8; 32])),
        START,
    )
    .unwrap();
    let request = MultiSigManager::get_request(&c, &request_id).unwrap();
    assert_eq!(request.current_approvals, 1);
    assert_eq!(request.status, MultiSigRequestStatus::Pending);

    MultiSigManager::process_approval(
        &mut c,
        &approvers[1],
        &request_id,
        true,
        s("Approved - comprehensive project portfolio reviewed"),
        Some(Bytes32::from_array([0xB2u8; 32])),
        START,
    )
    .unwrap();
    let request = MultiSigManager::get_request(&c, &request_id).unwrap();
    assert_eq!(request.current_approvals, 2);
    assert_eq!(request.status, MultiSigRequestStatus::Pending);

    MultiSigManager::process_approval(
        &mut c,
        &approvers[2],
        &request_id,
        true,
        s("Final approval - all requirements met"),
        Some(Bytes32::from_array([0xC3u8; 32])),
        START,
    )
    .unwrap();
    let request = MultiSigManager::get_request(&c, &request_id).unwrap();
    assert_eq!(request.current_approvals, 3);
    assert_eq!(request.status, MultiSigRequestStatus::Executed);

    let certificate = c.get_certificate(&p.certificate_id).unwrap();
    assert_eq!(certificate.status, CertificateStatus::Active);
    assert_eq!(certificate.student_id, student);
    assert_eq!(certificate.instructor_id, instructor);

    let audit_trail = MultiSigManager::get_audit_trail(&c, &request_id);
    assert!(audit_trail.len() >= 5);
}

#[test]
fn test_multisig_rejection_workflow() {
    let (mut c, admin, instructor, student, approvers) = setup_full_multisig_scenario();
    let config = MultiSigConfig {
        course_id: s("PREMIUM_COURSE_001"),
        required_approvals: 2,
        authorized_approvers: approvers[0..2].to_vec(),
        timeout_duration: 86400,
        priority: CertificatePriority::Premium,
        auto_execute: false,
    };
    MultiSigManager::configure_multisig(&mut c, &admin, config, true, START).unwrap();
    let p = params(2, "PREMIUM_COURSE_001", student, "Premium Certification", "Premium level certification", "https://premium.example.com/metadata");
    let request_id = MultiSigManager::create_multisig_request(&mut c, &instructor, p.clone(), s("Premium certification request"), ACCEPTED, true, START).unwrap();
    MultiSigManager::process_approval(
        &mut c,
        &approvers[0],
        &request_id,
        false,
        s("Rejected - insufficient project quality"),
        None,
        START,
    )
    .unwrap();
    let request = MultiSigManager::get_request(&c, &request_id).unwrap();
    assert_eq!(request.status, MultiSigRequestStatus::Rejected);
    let certificate = c.get_certificate(&p.certificate_id);
    assert!(certificate.is_none());
}

#[test]
fn test_multisig_timeout_scenario() {
    let (mut c, admin, instructor, student, approvers) = setup_full_multisig_scenario();
    let config = MultiSigConfig {
        course_id: s("TIMEOUT_COURSE"),
        required_approvals: 2,
        authorized_approvers: approvers[0..2].to_vec(),
        timeout_duration: 3600,
        priority: CertificatePriority::Premium,
        auto_execute: false,
    };
    MultiSigManager::configure_multisig(&mut c, &admin, config, true, START).unwrap();
    let p = params(3, "TIMEOUT_COURSE", student, "Timeout Test Cert", "Testing timeout behavior", "https://timeout.example.com/metadata");
    let request_id = MultiSigManager::create_multisig_request(&mut c, &instructor, p, s("Timeout test request"), ACCEPTED, true, START).unwrap();
    let result = MultiSigManager::process_approval(&mut c, &approvers[0], &request_id, true, s("Late approval"), None, START + 7200);
    assert!(result.is_err());
}

#[test]
fn test_multiple_concurrent_requests() {
    let (mut c, admin, instructor, student, approvers) = setup_full_multisig_scenario();
    let config = MultiSigConfig {
        course_id: s("CONCURRENT_COURSE"),
        required_approvals: 2,
        authorized_approvers: approvers[0..2].to_vec(),
        timeout_duration: 86400,
        priority: CertificatePriority::Premium,
        auto_execute: true,
    };
    MultiSigManager::configure_multisig(&mut c, &admin, config, true, START).unwrap();

    let mut request_ids = Vec::new();
    for i in 0..3u8 {
        let p = params(
            i + 10,
            "CONCURRENT_COURSE",
            student,
            &format!("Concurrent Cert {}", i),
            &format!("Concurrent test {}", i),
            &format!("https://concurrent{}.example.com", i),
        );
        let request_id = MultiSigManager::create_multisig_request(
            &mut c,
            &instructor,
            p,
            format!("Concurrent request {}", i),
            ACCEPTED,
            true,
            START,
        )
        .unwrap();
        request_ids.push(request_id);
    }
    for request_id in &request_ids {
        let request = MultiSigManager::get_request(&c, request_id).unwrap();
        assert_eq!(request.status, MultiSigRequestStatus::Pending);
    }
    for request_id in &request_ids {
        MultiSigManager::process_approval(&mut c, &approvers[0], request_id, true, s("Batch approval 1"), None, START).unwrap();
        MultiSigManager::process_approval(&mut c, &approvers[1], request_id, true, s("Batch approval 2"), None, START).unwrap();
    }
    for request_id in &request_ids {
        let request = MultiSigManager::get_request(&c, request_id).unwrap();
        assert_eq!(request.status, MultiSigRequestStatus::Executed);
    }
}

#[test]
fn test_multisig_with_different_priority_levels() {
    let (mut c, admin, instructor, student, approvers) = setup_full_multisig_scenario();
    let test_cases = vec![(CertificatePriority::Premium, 2u32, true, 1u8), (CertificatePriority::Enterprise, 3u32, true, 2u8)];
    for (priority, required_approvals, should_succeed, number) in test_cases {
        let course_id = format!("PRIORITY_{:?}", priority);
        let config = MultiSigConfig {
            course_id: course_id.clone(),
            required_approvals,
            authorized_approvers: approvers.clone(),
            timeout_duration: 86400,
            priority,
            auto_execute: true,
        };
        let config_result = MultiSigManager::configure_multisig(&mut c, &admin, config, true, START);
        assert_eq!(config_result.is_ok(), should_succeed);
        if should_succeed {
            let p = params(
                number,
                &course_id,
                student,
                &format!("{:?} Certificate", priority),
                &format!("{:?} level cert", priority),
                "https://priority.example.com",
            );
            let request_id = MultiSigManager::create_multisig_request(
                &mut c,
                &instructor,
                p,
                format!("{:?} priority request", priority),
                ACCEPTED,
                true,
                START,
            )
            .unwrap();
            for i in 0..required_approvals {
                MultiSigManager::process_approval(
                    &mut c,
                    &approvers[i as usize],
                    &request_id,
                    true,
                    format!("Approval {}", i + 1),
                    None,
                    START,
                )
                .unwrap();
            }
            let request = MultiSigManager::get_request(&c, &request_id).unwrap();
            assert_eq!(request.status, MultiSigRequestStatus::Executed);
        }
    }
}

#[test]
fn test_multisig_audit_trail_completeness() {
    let (mut c, admin, instructor, student, approvers) = setup_full_multisig_scenario();
    let config = MultiSigConfig {
        course_id: s("AUDIT_COURSE"),
        required_approvals: 2,
        authorized_approvers: approvers[0..2].to_vec(),
        timeout_duration: 86400,
        priority: CertificatePriority::Premium,
        auto_execute: true,
    };
    MultiSigManager::configure_multisig(&mut c, &admin, config, true, START).unwrap();
    let p = params(99, "AUDIT_COURSE", student, "Audit Trail Test", "Testing audit trail", "https://audit.example.com");
    let request_id = MultiSigManager::create_multisig_request(&mut c, &instructor, p, s("Audit trail test request"), ACCEPTED, true, START).unwrap();
    MultiSigManager::process_approval(
        &mut c,
        &approvers[0],
        &request_id,
        true,
        s("First approval with detailed comments"),
        Some(Bytes32::from_array([0xABu8; 32])),
        START,
    )
    .unwrap();
    MultiSigManager::process_approval(
        &mut c,
        &approvers[1],
        &request_id,
        true,
        s("Second approval completing the process"),
        Some(Bytes32::from_array([0xCDu8; 32])),
        START,
    )
    .unwrap();
    let audit_trail = MultiSigManager::get_audit_trail(&c, &request_id);
    assert_eq!(audit_trail.len(), 4);
    assert_eq!(audit_trail[0].actor, instructor);
    assert_eq!(audit_trail[1].actor, approvers[0]);
    assert_eq!(audit_trail[2].actor, approvers[1]);
    assert_eq!(audit_trail[3].actor, instructor);
}
