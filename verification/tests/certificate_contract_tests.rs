use strellerminds::certificate::errors::CertificateError;
use strellerminds::certificate::state::{Certificate, CertificateStorage};
use strellerminds::certificate::types::{CertificateStatus, MintCertificateParams, Permission, Role};
use strellerminds::common::ids::{Address, Bytes32};
use strellerminds::certificate::validation::MintFieldChecks;

/// The shared validator's answers on fields it accepts.
const ACCEPTED: MintFieldChecks = MintFieldChecks {
    certificate_id: true,
    course_id: true,
    title: true,
    description: true,
    metadata_uri: true,
    expiry_date: true,
};

/// The shared validator accepts the URI.
const URI_OK: bool = true;


fn setup_test() -> (Certificate, Address, Address) {
    let mut c = Certificate::new();
    let admin = Address { id: 100 };
    let user = Address { id: 101 };
    c.initialize(admin, true).unwrap();
    (c, admin, user)
}

fn s(x: &str) -> String {
    x.to_string()
}

fn create_test_certificate_id(id: u32) -> Bytes32 {
    let mut bytes = [0u8; 32];
    bytes[0..4].copy_from_slice(&id.to_be_bytes());
    Bytes32::from_array(bytes)
}

fn create_issuer_role() -> Role {
    Role { can_issue: true, can_revoke: false }
}

fn create_revoker_role() -> Role {
    Role { can_issue: false, can_revoke: true }
}

fn has_permission(c: &Certificate, user: &Address, permission: Permission) -> bool {
    match CertificateStorage::get_role(c, user) {
        Some(role) => role.has(permission),
        None => false,
    }
}

#[test]
fn test_initialize() {
    let mut c = Certificate::new();
    let admin = Address { id: 100 };
    let result = c.initialize(admin, true);
    assert!(result.is_ok());
    let result = c.initialize(admin, true);
    assert_eq!(result, Err(CertificateError::AlreadyInitialized));
    let admin_res = c.get_admin();
    assert_eq!(admin_res, Ok(admin));
}

#[test]
fn test_test_permission_checks() {
    let (mut c, _admin, user) = setup_test();
    let user2 = Address { id: 102 };
    CertificateStorage::set_role(&mut c, &user, &create_issuer_role());
    CertificateStorage::set_role(&mut c, &user2, &create_revoker_role());
    assert!(has_permission(&c, &user, Permission::Issue));
    assert!(!has_permission(&c, &user, Permission::Revoke));
    assert!(has_permission(&c, &user2, Permission::Revoke));
    assert!(!has_permission(&c, &user2, Permission::Issue));
    assert!(!has_permission(&c, &Address { id: 103 }, Permission::Issue));
}

#[test]
fn test_certificate_mint_and_verify() {
    let (mut c, _admin, student) = setup_test();
    let issuer = Address { id: 104 };
    CertificateStorage::set_role(&mut c, &issuer, &create_issuer_role());
    let now = 0u64;

    let cert_id = create_test_certificate_id(1);
    let course_id = s("CS101");
    let title = s("Intro to Computer Science");
    let desc = s("Fundamentals of Computer Science");
    let uri = s("ipfs://certificate-metadata-uri");
    let expiry_date = now + 1000000000;
    let params = MintCertificateParams {
        certificate_id: cert_id,
        course_id: course_id.clone(),
        student,
        title: title.clone(),
        description: desc.clone(),
        metadata_uri: uri.clone(),
        expiry_date,
    };

    let permitted = has_permission(&c, &issuer, Permission::Issue);
    let mint_result = c.mint_certificate(issuer, params.clone(), ACCEPTED, permitted, now);
    assert!(mint_result.is_ok());
    let metadata = c.get_certificate(&cert_id).unwrap();
    assert_eq!(metadata.title, title);
    assert_eq!(metadata.course_id, course_id);
    assert_eq!(metadata.description, desc);
    assert_eq!(metadata.metadata_uri, uri);
    assert_eq!(metadata.student_id, student);
    assert_eq!(metadata.instructor_id, issuer);
    assert_eq!(metadata.status, CertificateStatus::Active);

    let user_certs = c.get_user_certificates(&student);
    assert_eq!(user_certs.len(), 1);
    assert!(user_certs.contains(&cert_id));

    let mint_fail = c.mint_certificate(issuer, params.clone(), ACCEPTED, permitted, now);
    assert_eq!(mint_fail, Err(CertificateError::CertificateAlreadyExists));

    let invalid_params = MintCertificateParams {
        certificate_id: create_test_certificate_id(2),
        course_id: course_id.clone(),
        student,
        title: s(""),
        description: desc.clone(),
        metadata_uri: uri.clone(),
        expiry_date,
    };
    let mint_invalid = c.mint_certificate(issuer, invalid_params, ACCEPTED, permitted, now);
    assert_eq!(mint_invalid, Err(CertificateError::InvalidMetadata));
}

#[test]
fn test_track_certificates() {
    let (mut c, _admin, student) = setup_test();
    let issuer = Address { id: 104 };
    let other_student = Address { id: 105 };
    CertificateStorage::set_role(&mut c, &issuer, &create_issuer_role());
    let permitted = has_permission(&c, &issuer, Permission::Issue);

    let cert_id1 = create_test_certificate_id(1);
    let cert_id2 = create_test_certificate_id(2);
    let expiry_date = 1000000000u64;
    let params = |id: Bytes32| MintCertificateParams {
        certificate_id: id,
        course_id: s("COURSE"),
        student,
        title: s("TITLE"),
        description: s("DESC"),
        metadata_uri: s("URI"),
        expiry_date,
    };
    c.mint_certificate(issuer, params(cert_id1), ACCEPTED, permitted, 0).unwrap();
    c.mint_certificate(issuer, params(cert_id2), ACCEPTED, permitted, 0).unwrap();

    let student_certs = c.get_user_certificates(&student);
    assert_eq!(student_certs.len(), 2);
    assert!(student_certs.contains(&cert_id1));
    assert!(student_certs.contains(&cert_id2));

    let other_certs = c.get_user_certificates(&other_student);
    assert_eq!(other_certs.len(), 0);
}

#[test]
fn test_update_certificate_uri() {
    let (mut c, admin, student) = setup_test();
    let issuer = Address { id: 104 };
    let other_user = Address { id: 106 };
    CertificateStorage::set_role(&mut c, &issuer, &create_issuer_role());
    // The metadata right belongs to the admin and to issuers.
    let may_update = |a: Address| a == admin || a == issuer;

    let cert_id = create_test_certificate_id(1);
    let original_uri = s("ipfs://original-metadata");
    let params = MintCertificateParams {
        certificate_id: cert_id,
        course_id: s("CS101"),
        student,
        title: s("Computer Science 101"),
        description: s("Intro to CS certificate"),
        metadata_uri: original_uri.clone(),
        expiry_date: 0,
    };
    c.mint_certificate(issuer, params, ACCEPTED, true, 0).unwrap();

    let new_uri_1 = s("ipfs://updated-metadata-v1");
    let update_result = c.update_certificate_uri(issuer, cert_id, new_uri_1.clone(), URI_OK, may_update(issuer), 10);
    assert!(update_result.is_ok());
    assert_eq!(c.get_certificate(&cert_id).unwrap().metadata_uri, new_uri_1);

    let new_uri_2 = s("ipfs://updated-metadata-v2");
    let update_result = c.update_certificate_uri(admin, cert_id, new_uri_2.clone(), URI_OK, may_update(admin), 20);
    assert!(update_result.is_ok());
    assert_eq!(c.get_certificate(&cert_id).unwrap().metadata_uri, new_uri_2);

    let new_uri_3 = s("ipfs://unauthorized-update");
    let update_result = c.update_certificate_uri(other_user, cert_id, new_uri_3, URI_OK, may_update(other_user), 30);
    assert_eq!(update_result, Err(CertificateError::Unauthorized));

    let update_result = c.update_certificate_uri(issuer, cert_id, s(""), URI_OK, may_update(issuer), 40);
    assert_eq!(update_result, Err(CertificateError::InvalidUri));

    let non_existent_id = create_test_certificate_id(999);
    let update_result = c.update_certificate_uri(issuer, non_existent_id, new_uri_1.clone(), URI_OK, may_update(issuer), 50);
    assert_eq!(update_result, Err(CertificateError::CertificateNotFound));

    let history = c.get_metadata_history(&cert_id).unwrap();
    assert_eq!(history.len(), 2);
    let first_update = &history[0];
    assert_eq!(first_update.updater, issuer);
    assert_eq!(first_update.old_uri, original_uri);
    assert_eq!(first_update.new_uri, new_uri_1);
    let second_update = &history[1];
    assert_eq!(second_update.updater, admin);
    assert_eq!(second_update.old_uri, new_uri_1);
    assert_eq!(second_update.new_uri, new_uri_2);
}

fn intro_params(cert_id: Bytes32, student: Address, title: &str, desc: &str, uri: &str, expiry_date: u64) -> MintCertificateParams {
    MintCertificateParams {
        certificate_id: cert_id,
        course_id: s("CS101"),
        student,
        title: s(title),
        description: s(desc),
        metadata_uri: s(uri),
        expiry_date,
    }
}

#[test]
fn test_certificate_revocation() {
    let (mut c, _admin, student) = setup_test();
    let issuer = Address { id: 104 };
    let revoker = Address { id: 105 };
    CertificateStorage::set_role(&mut c, &issuer, &create_issuer_role());
    CertificateStorage::set_role(&mut c, &revoker, &create_revoker_role());

    let cert_id = create_test_certificate_id(1);
    let now = 0u64;
    let params = intro_params(cert_id, student, "Intro Certificate", "Description", "ipfs://...", now + 1000000000);
    let may_issue = has_permission(&c, &issuer, Permission::Issue);
    c.mint_certificate(issuer, params, ACCEPTED, may_issue, now).unwrap();

    // The issuer holds no right to revoke.
    let revoke_fail_issuer = c.revoke_certificate(issuer, cert_id, has_permission(&c, &issuer, Permission::Revoke));
    assert_eq!(revoke_fail_issuer, Err(CertificateError::Unauthorized));

    let revoke_result = c.revoke_certificate(revoker, cert_id, has_permission(&c, &revoker, Permission::Revoke));
    assert!(revoke_result.is_ok());

    // A revoked certificate is no longer valid.
    assert_eq!(c.get_certificate(&cert_id).unwrap().status, CertificateStatus::Revoked);
    assert!(!c.is_valid_certificate(&cert_id, now));

    let non_existent_cert = create_test_certificate_id(99);
    let revoke_non_existent = c.revoke_certificate(revoker, non_existent_cert, has_permission(&c, &revoker, Permission::Revoke));
    assert_eq!(revoke_non_existent, Err(CertificateError::CertificateNotFound));
}

#[test]
fn test_certificate_expiry() {
    let (mut c, _admin, student) = setup_test();
    let issuer = Address { id: 104 };
    CertificateStorage::set_role(&mut c, &issuer, &create_issuer_role());
    let may_issue = has_permission(&c, &issuer, Permission::Issue);

    let cert_id = create_test_certificate_id(1);
    let current_time = 0u64;
    let expiry_date = current_time + 1000;
    let params = intro_params(
        cert_id,
        student,
        "Intro to Computer Science",
        "Fundamentals of Computer Science",
        "ipfs://certificate-metadata-uri",
        expiry_date,
    );
    c.mint_certificate(issuer, params, ACCEPTED, may_issue, current_time).unwrap();
    assert!(!c.is_certificate_expired(&cert_id, current_time));
    assert!(c.is_valid_certificate(&cert_id, current_time));

    // Past the expiry date the certificate is expired and no longer valid.
    let later = expiry_date + 10;
    assert!(c.is_certificate_expired(&cert_id, later));
    assert!(!c.is_valid_certificate(&cert_id, later));

    // A certificate with expiry date zero never expires.
    let permanent_cert_id = create_test_certificate_id(2);
    let permanent_params = intro_params(
        permanent_cert_id,
        student,
        "Intro to Computer Science",
        "Fundamentals of Computer Science",
        "ipfs://certificate-metadata-uri",
        0,
    );
    c.mint_certificate(issuer, permanent_params, ACCEPTED, may_issue, later).unwrap();
    assert!(!c.is_certificate_expired(&permanent_cert_id, later));
    let a_year_later = current_time + 31536000;
    assert!(!c.is_certificate_expired(&permanent_cert_id, a_year_later));
    assert!(c.is_valid_certificate(&permanent_cert_id, a_year_later));
}

#[test]
fn test_is_valid_certificate() {
    let (mut c, _admin, student) = setup_test();
    let issuer = Address { id: 104 };
    CertificateStorage::set_role(&mut c, &issuer, &create_issuer_role());
    let may_issue = has_permission(&c, &issuer, Permission::Issue);

    let cert_id = create_test_certificate_id(1);
    let params = intro_params(cert_id, student, "Computer Science 101", "Intro to CS certificate", "ipfs://valid-metadata", 0);
    c.mint_certificate(issuer, params, ACCEPTED, may_issue, 0).unwrap();
    assert!(c.is_valid_certificate(&cert_id, 0));
    assert_eq!(c.get_certificate(&cert_id).unwrap().status, CertificateStatus::Active);

    // Minted with expiry date 1000 and checked at time 2000.
    let expired_cert_id = create_test_certificate_id(2);
    let expired_params =
        intro_params(expired_cert_id, student, "Computer Science 101", "Intro to CS certificate", "ipfs://valid-metadata", 1000);
    c.mint_certificate(issuer, expired_params, ACCEPTED, may_issue, 2000).unwrap();
    assert!(!c.is_valid_certificate(&expired_cert_id, 2000));
    // Its status is still active; only its date has passed.
    assert_eq!(c.get_certificate(&expired_cert_id).unwrap().status, CertificateStatus::Active);

    let non_existent_id = create_test_certificate_id(999);
    assert!(!c.is_valid_certificate(&non_existent_id, 2000));
    assert!(c.get_certificate(&non_existent_id).is_none());
}
