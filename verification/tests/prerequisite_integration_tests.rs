use strellerminds::certificate::errors::CertificateError;
use strellerminds::certificate::prerequisites::PrerequisiteManager;
use strellerminds::certificate::state::Certificate;
use strellerminds::certificate::types::{CoursePrerequisite, PrerequisiteCourse, PrerequisiteOverride, PrerequisitePolicy};
use strellerminds::common::ids::Address;

const NOW: u64 = 1_000_000;

fn create_test_contract() -> Certificate {
    Certificate::new()
}

fn create_test_addresses() -> (Address, Address, Address, Address) {
    (Address { id: 11 }, Address { id: 12 }, Address { id: 13 }, Address { id: 14 })
}

fn s(x: &str) -> String {
    x.to_string()
}

fn course(course_id: &str, prereqs: Vec<PrerequisiteCourse>, minimum: u32, admin: Address) -> CoursePrerequisite {
    course_with(course_id, prereqs, minimum, PrerequisitePolicy::Strict, admin)
}

fn course_with(course_id: &str, prereqs: Vec<PrerequisiteCourse>, minimum: u32, policy: PrerequisitePolicy, admin: Address) -> CoursePrerequisite {
    CoursePrerequisite {
        course_id: s(course_id),
        prerequisite_courses: prereqs,
        minimum_completion_percentage: minimum,
        policy,
        created_by: admin,
        created_at: NOW,
        updated_at: NOW,
    }
}

fn needs(course_id: &str, minimum_percentage: u32, weight: u32, required_certificate: bool) -> PrerequisiteCourse {
    PrerequisiteCourse { course_id: s(course_id), minimum_percentage, weight, required_certificate }
}

fn setup_basic_course_chain(c: &mut Certificate, admin: &Address) {
    let intro_prereq = course("basic_programming", vec![needs("intro_programming", 70, 1, false)], 70, *admin);
    let intermediate_prereq = course("intermediate_programming", vec![needs("basic_programming", 80, 1, false)], 80, *admin);
    let advanced_prereq = course("advanced_programming", vec![needs("intermediate_programming", 85, 1, true)], 85, *admin);
    PrerequisiteManager::define_prerequisites(c, admin, intro_prereq, true).unwrap();
    PrerequisiteManager::define_prerequisites(c, admin, intermediate_prereq, true).unwrap();
    PrerequisiteManager::define_prerequisites(c, admin, advanced_prereq, true).unwrap();
}

fn override_for(student: Address, admin: Address, course_id: &str, overridden: &str, reason: &str, expires_at: Option<u64>) -> PrerequisiteOverride {
    PrerequisiteOverride {
        student,
        course_id: s(course_id),
        overridden_prerequisites: vec![s(overridden)],
        override_reason: s(reason),
        granted_by: admin,
        granted_at: NOW,
        expires_at,
        conditions: None,
    }
}

#[test]
fn test_end_to_end_prerequisite_workflow() {
    let mut c = create_test_contract();
    let (admin, student, progress_contract, _) = create_test_addresses();
    c.initialize(admin, true).unwrap();
    setup_basic_course_chain(&mut c, &admin);

    let check_result = PrerequisiteManager::check_prerequisites(&mut c, &student, &s("advanced_programming"), &progress_contract, NOW);
    assert!(check_result.is_ok());
    let result = check_result.unwrap();
    assert!(!result.eligible || result.missing_prerequisites.len() > 0);

    let learning_path = PrerequisiteManager::generate_learning_path(&mut c, &student, &s("advanced_programming"), &progress_contract, NOW);
    assert!(learning_path.is_ok());
    let path = learning_path.unwrap();
    assert_eq!(path.target_course, s("advanced_programming"));
    assert!(path.recommended_sequence.len() > 0);

    let override_data = override_for(
        student,
        admin,
        "advanced_programming",
        "intermediate_programming",
        "Student has industry experience",
        Some(NOW + 86400 * 30),
    );
    let override_result = PrerequisiteManager::grant_prerequisite_override(&mut c, &admin, override_data.clone(), true);
    assert!(override_result.is_ok());

    let check_result2 = PrerequisiteManager::check_prerequisites(&mut c, &student, &s("advanced_programming"), &progress_contract, NOW);
    assert!(check_result2.is_ok());
    let result2 = check_result2.unwrap();
    assert!(result2.override_applied.is_some());

    let enrollment_result = PrerequisiteManager::validate_enrollment(
        &mut c,
        &student,
        &s("advanced_programming"),
        &admin,
        &progress_contract,
        NOW,
    );
    match enrollment_result {
        Ok(_) => assert!(true),
        Err(CertificateError::PrerequisiteNotMet) => {
            assert!(true);
        }
        Err(e) => panic!("Unexpected error: {:?}", e),
    }
}

#[test]
fn test_complex_dependency_resolution() {
    let mut c = create_test_contract();
    let (admin, student, progress_contract, _) = create_test_addresses();
    c.initialize(admin, true).unwrap();

    let calculus_prereq = course("calculus", vec![needs("basic_math", 80, 1, false)], 80, admin);
    let linear_algebra_prereq = course("linear_algebra", vec![needs("calculus", 85, 1, false)], 85, admin);
    let data_structures_prereq = course("data_structures", vec![needs("intro_cs", 75, 1, false)], 75, admin);
    let algorithms_prereq = course("algorithms", vec![needs("data_structures", 80, 1, false)], 80, admin);
    let ml_prereq = course_with(
        "machine_learning",
        vec![needs("linear_algebra", 85, 2, false), needs("algorithms", 80, 2, false)],
        85,
        PrerequisitePolicy::Weighted,
        admin,
    );
    PrerequisiteManager::define_prerequisites(&mut c, &admin, calculus_prereq, true).unwrap();
    PrerequisiteManager::define_prerequisites(&mut c, &admin, linear_algebra_prereq, true).unwrap();
    PrerequisiteManager::define_prerequisites(&mut c, &admin, data_structures_prereq, true).unwrap();
    PrerequisiteManager::define_prerequisites(&mut c, &admin, algorithms_prereq, true).unwrap();
    PrerequisiteManager::define_prerequisites(&mut c, &admin, ml_prereq, true).unwrap();

    let learning_path = PrerequisiteManager::generate_learning_path(&mut c, &student, &s("machine_learning"), &progress_contract, NOW);
    assert!(learning_path.is_ok());
    let path = learning_path.unwrap();
    assert_eq!(path.target_course, s("machine_learning"));
    assert!(path.recommended_sequence.len() >= 4);
    assert!(path.estimated_total_time > 0);

    let ml_graph = PrerequisiteManager::get_dependency_graph(&c, &s("machine_learning"));
    assert!(ml_graph.is_some());
    let graph = ml_graph.unwrap();
    assert_eq!(graph.course_id, s("machine_learning"));
    assert_eq!(graph.direct_prerequisites.len(), 2);
    assert!(graph.level > 0);
}

#[test]
fn test_prerequisite_override_expiration() {
    let mut c = create_test_contract();
    let (admin, student, progress_contract, _) = create_test_addresses();
    c.initialize(admin, true).unwrap();
    setup_basic_course_chain(&mut c, &admin);

    let override_data = override_for(
        student,
        admin,
        "advanced_programming",
        "intermediate_programming",
        "Temporary access for evaluation",
        Some(NOW + 1),
    );
    PrerequisiteManager::grant_prerequisite_override(&mut c, &admin, override_data.clone(), true).unwrap();

    let check_result1 = PrerequisiteManager::check_prerequisites(&mut c, &student, &s("advanced_programming"), &progress_contract, NOW);
    assert!(check_result1.is_ok());
    let result1 = check_result1.unwrap();
    assert!(result1.override_applied.is_some());

    let stored_override = c.overrides.get(&(student, s("advanced_programming")));
    assert!(stored_override.is_some());
    let override_info = stored_override.unwrap();
    assert!(override_info.expires_at.is_some());
}

#[test]
fn test_prerequisite_violation_tracking() {
    let mut c = create_test_contract();
    let (admin, student, progress_contract, instructor) = create_test_addresses();
    c.initialize(admin, true).unwrap();
    setup_basic_course_chain(&mut c, &admin);

    let validation_result = PrerequisiteManager::validate_enrollment(
        &mut c,
        &student,
        &s("advanced_programming"),
        &instructor,
        &progress_contract,
        NOW,
    );
    assert!(validation_result.is_err());
    assert_eq!(validation_result.unwrap_err(), CertificateError::PrerequisiteNotMet);

    let violations = c.violations.get(&student).unwrap();
    assert!(violations.len() > 0);
    let violation = &violations[0];
    assert_eq!(violation.student, student);
    assert_eq!(violation.attempted_course, s("advanced_programming"));
    assert_eq!(violation.attempted_by, instructor);
    assert!(violation.missing_prerequisites.len() > 0);
}

#[test]
fn test_weighted_prerequisite_policy() {
    let mut c = create_test_contract();
    let (admin, student, progress_contract, _) = create_test_addresses();
    c.initialize(admin, true).unwrap();

    let weighted_prereq = course_with(
        "data_science",
        vec![needs("statistics", 80, 3, false), needs("python_basics", 70, 2, false), needs("excel_basics", 60, 1, false)],
        75,
        PrerequisitePolicy::Weighted,
        admin,
    );
    PrerequisiteManager::define_prerequisites(&mut c, &admin, weighted_prereq, true).unwrap();

    let check_result = PrerequisiteManager::check_prerequisites(&mut c, &student, &s("data_science"), &progress_contract, NOW);
    assert!(check_result.is_ok());

    let stored_prereq = c.prerequisites.get(&s("data_science"));
    assert!(stored_prereq.is_some());
    let prereq = stored_prereq.unwrap();
    assert_eq!(prereq.policy, PrerequisitePolicy::Weighted);
    assert_eq!(prereq.prerequisite_courses.len(), 3);
}

#[test]
fn test_learning_path_updates() {
    let mut c = create_test_contract();
    let (admin, student, progress_contract, _) = create_test_addresses();
    c.initialize(admin, true).unwrap();
    setup_basic_course_chain(&mut c, &admin);

    let initial_path = PrerequisiteManager::generate_learning_path(&mut c, &student, &s("advanced_programming"), &progress_contract, NOW).unwrap();
    assert!(initial_path.recommended_sequence.len() > 0);

    let override_data = override_for(
        student,
        admin,
        "intermediate_programming",
        "basic_programming",
        "Completed equivalent course",
        None,
    );
    PrerequisiteManager::grant_prerequisite_override(&mut c, &admin, override_data, true).unwrap();

    let updated_path = PrerequisiteManager::generate_learning_path(&mut c, &student, &s("advanced_programming"), &progress_contract, NOW).unwrap();
    assert!(updated_path.last_updated >= initial_path.generated_at);

    let stored_path = c.learning_paths.get(&(student, s("advanced_programming")));
    assert!(stored_path.is_some());
    let path = stored_path.unwrap();
    assert_eq!(path.target_course, s("advanced_programming"));
    assert_eq!(path.student, student);
}

#[test]
fn test_prerequisite_system_with_certificate_requirements() {
    let mut c = create_test_contract();
    let (admin, student, progress_contract, _) = create_test_addresses();
    c.initialize(admin, true).unwrap();

    let cert_required_prereq = course("expert_programming", vec![needs("advanced_programming", 90, 1, true)], 90, admin);
    PrerequisiteManager::define_prerequisites(&mut c, &admin, cert_required_prereq, true).unwrap();

    let check_result = PrerequisiteManager::check_prerequisites(&mut c, &student, &s("expert_programming"), &progress_contract, NOW);
    assert!(check_result.is_ok());
    let result = check_result.unwrap();
    if !result.eligible {
        assert!(result.missing_prerequisites.len() > 0);
        let missing = &result.missing_prerequisites[0];
        assert!(missing.requires_certificate);
    }

    let stored_prereq = c.prerequisites.get(&s("expert_programming"));
    assert!(stored_prereq.is_some());
    let prereq = stored_prereq.unwrap();
    assert!(prereq.prerequisite_courses[0].required_certificate);
}
