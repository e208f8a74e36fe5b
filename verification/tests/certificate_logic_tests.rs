use strellerminds::certificate::batch::{GasTestCertificate, SimpleCertificateError, SimpleCertificateParams};
use strellerminds::certificate::contract::AccessPermission;
use strellerminds::certificate::errors::CertificateError;
use strellerminds::certificate::expiry::ExpiryManager;
use strellerminds::certificate::multisig::MultiSigManager;
use strellerminds::certificate::prerequisites::PrerequisiteManager;
use strellerminds::certificate::state::Certificate;
use strellerminds::certificate::types::{
    AuditAction, BulkExpiryOperation, CertificatePriority, CertificateStatus, CoursePrerequisite, ExtensionParams,
    MintCertificateParams, MultiSigConfig, PrerequisiteCourse, PrerequisiteOverride, PrerequisitePolicy,
};
use strellerminds::common::ids::{Address, Bytes32};
use strellerminds::certificate::validation::MintFieldChecks;

/// The shared validator's answers on fields it accepts.
const ACCEPTED: MintFieldChecks = MintFieldChecks {
    certificate_id: true,
    course_id: true,
    title: true,
    description: true,
    metadata_uri: true,
    expiry_date: true,
};

const NOW: u64 = 2_000_000;
const DAY: u64 = 86400;

fn s(x: &str) -> String {
    x.to_string()
}

fn id(n: u8) -> Bytes32 {
    Bytes32::from_array([n; 32])
}

fn params(n: u8, student: Address, expiry_date: u64) -> MintCertificateParams {
    MintCertificateParams {
        certificate_id: id(n),
        course_id: s("COURSE"),
        student,
        title: s("Title"),
        description: s("Description"),
        metadata_uri: s("ipfs://uri"),
        expiry_date,
    }
}

fn minted(n: u8, owner: Address, expiry_date: u64) -> Certificate {
    let mut c = Certificate::new();
    c.initialize(Address { id: 1 }, true).unwrap();
    c.mint_certificate(Address { id: 2 }, params(n, owner, expiry_date), ACCEPTED, true, NOW).unwrap();
    c
}

#[test]
fn initialize_refused_by_access_control() {
    let mut c = Certificate::new();
    assert_eq!(c.initialize(Address { id: 1 }, false), Err(CertificateError::InitializationFailed));
    assert_eq!(c.get_admin(), Err(CertificateError::NotInitialized));
}

#[test]
fn mint_records_every_field() {
    let student = Address { id: 9 };
    let c = minted(3, student, NOW + DAY);
    let m = c.get_certificate(&id(3)).unwrap();
    assert_eq!(m.token_id, id(3));
    assert_eq!(m.issue_date, NOW);
    assert_eq!(m.expiry_date, NOW + DAY);
    assert_eq!(m.original_expiry_date, NOW + DAY);
    assert_eq!(m.renewal_count, 0);
    assert_eq!(c.get_instructor_certificates(&Address { id: 2 }), vec![id(3)]);
    assert!(c.get_metadata_history(&id(3)).unwrap().is_empty());
}

#[test]
fn mint_without_issue_right_is_refused() {
    let mut c = Certificate::new();
    let r = c.mint_certificate(Address { id: 2 }, params(1, Address { id: 9 }, NOW), ACCEPTED, false, NOW);
    assert_eq!(r, Err(CertificateError::Unauthorized));
    assert!(c.get_certificate(&id(1)).is_none());
}

#[test]
fn revoked_certificate_is_never_valid() {
    let mut c = minted(4, Address { id: 9 }, NOW + DAY);
    assert!(c.is_valid_certificate(&id(4), NOW));
    assert_eq!(c.revoke_certificate(Address { id: 1 }, id(4), true), Ok(()));
    assert_eq!(c.get_certificate(&id(4)).unwrap().status, CertificateStatus::Revoked);
    assert!(!c.is_valid_certificate(&id(4), NOW));
    assert!(!c.is_valid_certificate(&id(4), 0));
    assert_eq!(c.revoke_certificate(Address { id: 1 }, id(4), true), Err(CertificateError::CertificateAlreadyRevoked));
    assert_eq!(c.revoke_certificate(Address { id: 1 }, id(5), true), Err(CertificateError::CertificateNotFound));
    assert_eq!(c.revoke_certificate(Address { id: 1 }, id(4), false), Err(CertificateError::Unauthorized));
}

#[test]
fn minted_certificate_is_valid_until_its_expiry() {
    let c = minted(6, Address { id: 9 }, NOW + DAY);
    assert!(c.is_valid_certificate(&id(6), NOW + DAY));
    assert!(!c.is_certificate_expired(&id(6), NOW + DAY));
    assert!(!c.is_valid_certificate(&id(6), NOW + DAY + 1));
    assert!(c.is_certificate_expired(&id(6), NOW + DAY + 1));
    assert!(!c.is_certificate_expired(&id(7), NOW));
    assert!(!c.is_valid_certificate(&id(7), NOW));
}

#[test]
fn transfer_moves_ownership() {
    let owner = Address { id: 9 };
    let other = Address { id: 10 };
    let mut c = minted(8, owner, NOW + DAY);
    assert_eq!(c.transfer_certificate(other, owner, id(8), true), Err(CertificateError::Unauthorized));
    assert_eq!(c.transfer_certificate(owner, other, id(8), true), Ok(()));
    assert!(c.get_user_certificates(&other).contains(&id(8)));
    assert!(!c.get_user_certificates(&owner).contains(&id(8)));
    c.revoke_certificate(Address { id: 1 }, id(8), true).unwrap();
    assert_eq!(c.transfer_certificate(other, owner, id(8), true), Err(CertificateError::CertificateRevoked));
}

#[test]
fn batch_mint_stops_at_the_first_clash() {
    let mut c = minted(1, Address { id: 9 }, NOW + DAY);
    let list = vec![params(2, Address { id: 9 }, NOW), params(1, Address { id: 9 }, NOW), params(3, Address { id: 9 }, NOW)];
    assert_eq!(c.mint_certificates_batch(Address { id: 2 }, &list, true, NOW), Err(CertificateError::CertificateAlreadyExists));
    assert!(c.get_certificate(&id(2)).is_some());
    assert!(c.get_certificate(&id(3)).is_none());

    let mut d = Certificate::new();
    let twice = vec![params(4, Address { id: 9 }, NOW), params(4, Address { id: 9 }, NOW)];
    assert_eq!(d.mint_certificates_batch(Address { id: 2 }, &twice, true, NOW), Err(CertificateError::CertificateAlreadyExists));
    assert_eq!(d.mint_certificates_batch(Address { id: 2 }, &twice, false, NOW), Err(CertificateError::Unauthorized));

    let mut e = Certificate::new();
    let fine = vec![params(5, Address { id: 9 }, NOW), params(6, Address { id: 10 }, NOW)];
    assert_eq!(e.mint_certificates_batch(Address { id: 2 }, &fine, true, NOW), Ok(()));
    assert_eq!(e.get_user_certificates(&Address { id: 9 }), vec![id(5)]);
    assert_eq!(e.get_user_certificates(&Address { id: 10 }), vec![id(6)]);
}

fn simple(n: u8) -> SimpleCertificateParams {
    SimpleCertificateParams {
        certificate_id: id(n),
        student: Address { id: 9 },
        course_id: s("COURSE_001"),
        title: s("Test Certificate"),
        description: s("Test Description"),
        metadata_uri: s("https://example.com/metadata"),
        expiry_date: 86400,
    }
}

#[test]
fn small_contract_counts_its_mints() {
    let mut g = GasTestCertificate::new();
    assert_eq!(g.initialize(Address { id: 1 }), Ok(()));
    assert_eq!(g.initialize(Address { id: 1 }), Err(SimpleCertificateError::AlreadyExists));
    assert_eq!(g.get_certificate_count(), 0);
    assert_eq!(g.mint_certificate(Address { id: 2 }, simple(1)), Ok(()));
    assert_eq!(g.get_certificate_count(), 1);
    assert_eq!(g.mint_certificate(Address { id: 2 }, simple(1)), Err(SimpleCertificateError::AlreadyExists));
    let batch: Vec<SimpleCertificateParams> = (2..=6).map(simple).collect();
    assert_eq!(g.mint_certificates_batch(Address { id: 2 }, &batch), Ok(()));
    assert_eq!(g.get_certificate_count(), 6);
    let clash = vec![simple(7), simple(3)];
    assert_eq!(g.mint_certificates_batch(Address { id: 2 }, &clash), Err(SimpleCertificateError::AlreadyExists));
    assert_eq!(g.get_certificate_count(), 6);
    assert!(g.certificates.get(&id(7)).is_none());
}

#[test]
fn permission_numbers() {
    assert_eq!(AccessPermission::from_code(0), Some(AccessPermission::IssueCertificate));
    assert_eq!(AccessPermission::from_code(1), Some(AccessPermission::RevokeCertificate));
    assert_eq!(AccessPermission::from_code(2), Some(AccessPermission::TransferCertificate));
    assert_eq!(AccessPermission::from_code(3), Some(AccessPermission::UpdateCertificateMetadata));
    assert_eq!(AccessPermission::from_code(4), None);
}

#[test]
fn certificate_error_codes() {
    assert_eq!(CertificateError::AlreadyInitialized.code(), 1);
    assert_eq!(CertificateError::InvalidUri.code(), 13);
    assert_eq!(CertificateError::CircularDependency.code(), 39);
    assert_eq!(CertificateError::InvalidLearningPath.code(), 45);
}

#[test]
fn multisig_configuration_is_audited_with_its_course() {
    let mut c = Certificate::new();
    let config = MultiSigConfig {
        course_id: s("COURSE_001"),
        required_approvals: 1,
        authorized_approvers: vec![Address { id: 5 }],
        timeout_duration: 86400,
        priority: CertificatePriority::Standard,
        auto_execute: true,
    };
    assert_eq!(MultiSigManager::configure_multisig(&mut c, &Address { id: 1 }, config.clone(), false, NOW), Err(CertificateError::Unauthorized));
    MultiSigManager::configure_multisig(&mut c, &Address { id: 1 }, config, true, NOW).unwrap();
    let trail = MultiSigManager::get_audit_trail(&c, &Bytes32::zero());
    assert_eq!(trail.len(), 1);
    assert_eq!(trail[0].action, AuditAction::ConfigUpdated);
    assert_eq!(trail[0].actor, Address { id: 1 });
    assert_eq!(trail[0].details, "Multi-sig config updated for course: COURSE_001");
}

#[test]
fn multisig_config_errors() {
    let mut c = Certificate::new();
    let base = MultiSigConfig {
        course_id: s("C"),
        required_approvals: 0,
        authorized_approvers: vec![Address { id: 5 }],
        timeout_duration: 86400,
        priority: CertificatePriority::Standard,
        auto_execute: true,
    };
    assert_eq!(MultiSigManager::configure_multisig(&mut c, &Address { id: 1 }, base.clone(), true, NOW), Err(CertificateError::InvalidApprovalThreshold));
    let mut long = base.clone();
    long.required_approvals = 1;
    long.timeout_duration = 2592001;
    assert_eq!(MultiSigManager::configure_multisig(&mut c, &Address { id: 1 }, long, true, NOW), Err(CertificateError::TimeoutTooLong));
    let mut short = base;
    short.required_approvals = 1;
    short.timeout_duration = 3599;
    assert_eq!(MultiSigManager::configure_multisig(&mut c, &Address { id: 1 }, short, true, NOW), Err(CertificateError::TimeoutTooShort));
}

#[test]
fn renewal_is_refused_to_others_and_on_bad_periods() {
    let owner = Address { id: 9 };
    let mut c = minted(1, owner, NOW + 61 * DAY);
    assert_eq!(ExpiryManager::request_renewal(&mut c, &Address { id: 10 }, &id(1), 30 * DAY, s("r"), NOW), Err(CertificateError::Unauthorized));
    assert_eq!(ExpiryManager::request_renewal(&mut c, &owner, &id(1), 29 * DAY, s("r"), NOW + DAY), Err(CertificateError::InvalidInput));
    assert_eq!(ExpiryManager::request_renewal(&mut c, &owner, &id(1), 30 * DAY, s("r"), NOW + DAY), Ok(()));
    assert_eq!(c.get_certificate(&id(1)).unwrap().status, CertificateStatus::PendingRenewal);
    c.revoke_certificate(Address { id: 1 }, id(1), true).unwrap();
    assert_eq!(ExpiryManager::request_renewal(&mut c, &owner, &id(1), 30 * DAY, s("r"), NOW + DAY), Err(CertificateError::CertificateRevoked));
}

#[test]
fn processing_a_decided_request_is_refused() {
    let owner = Address { id: 9 };
    let mut c = minted(1, owner, NOW + DAY);
    assert_eq!(
        ExpiryManager::process_renewal_request(&mut c, &Address { id: 1 }, &id(1), true, None, NOW),
        Err(CertificateError::CertificateNotFound)
    );
    ExpiryManager::request_renewal(&mut c, &owner, &id(1), 30 * DAY, s("r"), NOW).unwrap();
    ExpiryManager::process_renewal_request(&mut c, &Address { id: 1 }, &id(1), true, None, NOW).unwrap();
    assert_eq!(
        ExpiryManager::process_renewal_request(&mut c, &Address { id: 1 }, &id(1), true, None, NOW),
        Err(CertificateError::InvalidInput)
    );
    let m = c.get_certificate(&id(1)).unwrap();
    assert_eq!(m.expiry_date, NOW + 31 * DAY);
    assert_eq!(m.last_renewed_date, NOW);
}

#[test]
fn extension_limits() {
    let mut c = minted(1, Address { id: 9 }, NOW);
    let mut p = ExtensionParams { certificate_id: id(1), extension_period: 29 * DAY, reason: s("r"), max_renewals: None };
    assert_eq!(ExpiryManager::extend_certificate_expiry(&mut c, &Address { id: 1 }, &p, NOW), Err(CertificateError::InvalidInput));
    p.extension_period = 5 * 365 * DAY + 1;
    assert_eq!(ExpiryManager::extend_certificate_expiry(&mut c, &Address { id: 1 }, &p, NOW), Err(CertificateError::InvalidInput));
    p.extension_period = 30 * DAY;
    p.max_renewals = Some(0);
    assert_eq!(ExpiryManager::extend_certificate_expiry(&mut c, &Address { id: 1 }, &p, NOW), Err(CertificateError::InvalidInput));
    p.max_renewals = None;
    p.certificate_id = id(2);
    assert_eq!(ExpiryManager::extend_certificate_expiry(&mut c, &Address { id: 1 }, &p, NOW), Err(CertificateError::CertificateNotFound));
    p.certificate_id = id(1);
    for _ in 0..5 {
        assert_eq!(ExpiryManager::extend_certificate_expiry(&mut c, &Address { id: 1 }, &p, NOW), Ok(()));
    }
    assert_eq!(c.get_certificate(&id(1)).unwrap().renewal_count, 5);
    assert_eq!(ExpiryManager::extend_certificate_expiry(&mut c, &Address { id: 1 }, &p, NOW), Err(CertificateError::InvalidInput));
}

#[test]
fn bulk_extension_skips_what_it_cannot_extend() {
    let mut c = minted(1, Address { id: 9 }, NOW + DAY);
    c.mint_certificate(Address { id: 2 }, params(2, Address { id: 9 }, NOW + DAY), ACCEPTED, true, NOW).unwrap();
    c.mint_certificate(Address { id: 2 }, params(3, Address { id: 9 }, NOW + 100 * DAY), ACCEPTED, true, NOW).unwrap();
    c.revoke_certificate(Address { id: 1 }, id(2), true).unwrap();
    let op = BulkExpiryOperation { certificate_ids: vec![id(1), id(2), id(3), id(4)], new_expiry_date: NOW + 50 * DAY, reason: s("r"), operator: Address { id: 1 } };
    let done = ExpiryManager::bulk_extend_certificates(&mut c, &Address { id: 1 }, &op, NOW).unwrap();
    assert_eq!(done, vec![id(1)]);
    assert_eq!(c.get_certificate(&id(2)).unwrap().expiry_date, NOW + DAY);
    assert_eq!(c.get_certificate(&id(3)).unwrap().expiry_date, NOW + 100 * DAY);
    let empty = BulkExpiryOperation { certificate_ids: vec![], new_expiry_date: NOW, reason: s("r"), operator: Address { id: 1 } };
    assert_eq!(ExpiryManager::bulk_extend_certificates(&mut c, &Address { id: 1 }, &empty, NOW), Err(CertificateError::InvalidInput));
}

#[test]
fn acknowledging_without_notification_fails() {
    let mut c = minted(1, Address { id: 9 }, NOW + DAY);
    assert_eq!(ExpiryManager::acknowledge_notification(&mut c, &Address { id: 9 }, &id(1)), Err(CertificateError::CertificateNotFound));
    assert_eq!(ExpiryManager::generate_expiry_notifications(&mut c, NOW), Ok(0));
    assert_eq!(ExpiryManager::cleanup_expired_requests(&mut c, NOW), Ok(0));
}

fn chain(c: &mut Certificate, course: &str, needs: &[&str], pct: u32) {
    let cp = CoursePrerequisite {
        course_id: s(course),
        prerequisite_courses: needs
            .iter()
            .map(|n| PrerequisiteCourse { course_id: s(n), minimum_percentage: pct, weight: 1, required_certificate: false })
            .collect(),
        minimum_completion_percentage: pct,
        policy: PrerequisitePolicy::Strict,
        created_by: Address { id: 1 },
        created_at: NOW,
        updated_at: NOW,
    };
    PrerequisiteManager::define_prerequisites(c, &Address { id: 1 }, cp, true).unwrap();
}

#[test]
fn all_prerequisites_breadth_first() {
    let mut c = Certificate::new();
    chain(&mut c, "d", &["b", "c"], 80);
    chain(&mut c, "b", &["a"], 80);
    chain(&mut c, "c", &["a"], 80);
    let all = PrerequisiteManager::get_all_prerequisites(&c, &s("d")).unwrap();
    assert_eq!(all, vec![s("b"), s("c"), s("a")]);
    assert_eq!(PrerequisiteManager::get_all_prerequisites(&c, &s("a")).unwrap(), Vec::<String>::new());
}

#[test]
fn learning_path_puts_prerequisites_first() {
    let mut c = Certificate::new();
    chain(&mut c, "d", &["b", "c"], 80);
    chain(&mut c, "b", &["a"], 80);
    chain(&mut c, "c", &["a"], 80);
    let student = Address { id: 9 };
    let path = PrerequisiteManager::generate_learning_path(&mut c, &student, &s("d"), &Address { id: 3 }, NOW).unwrap();
    assert_eq!(path.recommended_sequence, vec![s("a"), s("b"), s("c")]);
    assert_eq!(path.estimated_total_time, 3 * 144000);
    assert_eq!(path.current_position, 0);
    assert_eq!(path.generated_at, NOW);
    assert_eq!(c.learning_paths.get(&(student, s("d"))).unwrap(), &path);
}

#[test]
fn met_prerequisites_leave_the_path() {
    let mut c = Certificate::new();
    chain(&mut c, "b", &["a"], 70);
    chain(&mut c, "c", &["b"], 80);
    let path = PrerequisiteManager::generate_learning_path(&mut c, &Address { id: 9 }, &s("c"), &Address { id: 3 }, NOW).unwrap();
    // "b" asks 70% of "a" and 75% is reported: "b" may be taken, "a" has no definition.
    assert_eq!(path.recommended_sequence, vec![s("a")]);
}

#[test]
fn checks_with_and_without_override() {
    let mut c = Certificate::new();
    chain(&mut c, "b", &["a"], 70);
    chain(&mut c, "c", &["b"], 80);
    let student = Address { id: 9 };
    let ok = PrerequisiteManager::check_prerequisites(&mut c, &student, &s("b"), &Address { id: 3 }, NOW).unwrap();
    assert!(ok.eligible);
    assert_eq!(ok.completed_prerequisites.len(), 1);
    assert_eq!(ok.completed_prerequisites[0].completion_date, Some(NOW - DAY));
    assert_eq!(c.check_cache.get(&(student, s("b"))).unwrap(), &ok);
    assert_eq!(
        PrerequisiteManager::check_prerequisites(&mut c, &student, &s("z"), &Address { id: 3 }, NOW).unwrap_err(),
        CertificateError::PrerequisiteNotFound
    );
    let o = PrerequisiteOverride {
        student,
        course_id: s("c"),
        override_reason: s("r"),
        overridden_prerequisites: vec![s("b")],
        granted_by: Address { id: 1 },
        granted_at: NOW,
        expires_at: Some(NOW),
        conditions: None,
    };
    PrerequisiteManager::grant_prerequisite_override(&mut c, &Address { id: 1 }, o, true).unwrap();
    let with = PrerequisiteManager::check_prerequisites(&mut c, &student, &s("c"), &Address { id: 3 }, NOW).unwrap();
    assert!(with.eligible && with.override_applied.is_some());
    let after = PrerequisiteManager::check_prerequisites(&mut c, &student, &s("c"), &Address { id: 3 }, NOW + 1).unwrap();
    assert!(!after.eligible);
    assert_eq!(after.missing_prerequisites[0].required_percentage, 80);
    assert_eq!(after.missing_prerequisites[0].estimated_completion_time, Some(36000));
}

#[test]
fn definitions_need_the_metadata_right() {
    let mut c = Certificate::new();
    let cp = CoursePrerequisite {
        course_id: s("b"),
        prerequisite_courses: vec![PrerequisiteCourse { course_id: s("a"), minimum_percentage: 0, weight: 10, required_certificate: false }],
        minimum_completion_percentage: 0,
        policy: PrerequisitePolicy::Weighted,
        created_by: Address { id: 1 },
        created_at: NOW,
        updated_at: NOW,
    };
    assert_eq!(PrerequisiteManager::define_prerequisites(&mut c, &Address { id: 1 }, cp.clone(), false), Err(CertificateError::Unauthorized));
    assert_eq!(PrerequisiteManager::validate_prerequisite_config(&cp), Ok(()));
    assert_eq!(PrerequisiteManager::define_prerequisites(&mut c, &Address { id: 1 }, cp, true), Ok(()));
    let node = PrerequisiteManager::get_dependency_graph(&c, &s("b")).unwrap();
    assert_eq!(node.level, 1);
    assert_eq!(node.direct_prerequisites, vec![s("a")]);
}


#[test]
fn permission_checks_by_number() {
    let granted = vec![AccessPermission::IssueCertificate, AccessPermission::UpdateCertificateMetadata];
    assert!(Certificate::has_permission(0, &granted));
    assert!(!Certificate::has_permission(1, &granted));
    assert!(Certificate::has_permission(3, &granted));
    assert!(!Certificate::has_permission(7, &granted));
    assert!(!Certificate::has_permission(0, &Vec::new()));
}

#[test]
fn permanent_certificates_never_expire() {
    let mut c = minted(1, Address { id: 9 }, 0);
    c.mint_certificate(Address { id: 2 }, params(2, Address { id: 9 }, 1000), ACCEPTED, true, NOW).unwrap();
    for now in [0u64, 1, 2000, NOW + 31536000] {
        assert!(!c.is_certificate_expired(&id(1), now));
        assert!(c.is_valid_certificate(&id(1), now));
    }
    assert!(c.is_certificate_expired(&id(2), 2000));
    assert!(!c.is_valid_certificate(&id(2), 2000));
    assert!(ExpiryManager::get_expiring_certificates(&c, 100 * DAY, 0).iter().all(|x| *x != id(1)));
    assert_eq!(ExpiryManager::update_expired_certificates(&mut c, 2000), Ok(1));
    assert_eq!(c.get_certificate(&id(1)).unwrap().status, CertificateStatus::Active);
    assert_eq!(c.get_certificate(&id(2)).unwrap().status, CertificateStatus::Expired);
}

#[test]
fn learning_path_fails_on_a_longer_cycle() {
    let mut c = Certificate::new();
    chain(&mut c, "a", &["b"], 80);
    chain(&mut c, "b", &["c"], 80);
    // "c" requiring "a" closes a cycle of three, which the definition check lets through.
    chain(&mut c, "c", &["a"], 80);
    let r = PrerequisiteManager::generate_learning_path(&mut c, &Address { id: 9 }, &s("a"), &Address { id: 3 }, NOW);
    assert_eq!(r, Err(CertificateError::CircularDependency));
    assert!(c.learning_paths.get(&(Address { id: 9 }, s("a"))).is_none());
}
