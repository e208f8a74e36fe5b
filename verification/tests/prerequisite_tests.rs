use strellerminds::certificate::errors::CertificateError;
use strellerminds::certificate::prerequisites::PrerequisiteManager;
use strellerminds::certificate::state::Certificate;
use strellerminds::certificate::types::{CoursePrerequisite, PrerequisiteCourse, PrerequisiteOverride, PrerequisitePolicy};
use strellerminds::common::ids::Address;

const NOW: u64 = 1_000_000;

fn create_test_addresses() -> (Address, Address, Address, Address) {
    (Address { id: 1 }, Address { id: 2 }, Address { id: 3 }, Address { id: 4 })
}

fn s(x: &str) -> String {
    x.to_string()
}

fn create_basic_prerequisite(course_id: &str, prereq_course_id: &str) -> CoursePrerequisite {
    CoursePrerequisite {
        course_id: s(course_id),
        prerequisite_courses: vec![PrerequisiteCourse {
            course_id: s(prereq_course_id),
            minimum_percentage: 80,
            weight: 1,
            required_certificate: false,
        }],
        minimum_completion_percentage: 80,
        policy: PrerequisitePolicy::Strict,
        created_by: Address { id: 99 },
        created_at: NOW,
        updated_at: NOW,
    }
}

fn basic_override(student: Address, admin: Address, expires_at: Option<u64>) -> PrerequisiteOverride {
    PrerequisiteOverride {
        student,
        course_id: s("advanced_rust"),
        overridden_prerequisites: vec![s("basic_rust")],
        override_reason: s("Student has equivalent experience"),
        granted_by: admin,
        granted_at: NOW,
        expires_at,
        conditions: None,
    }
}

#[test]
fn test_define_prerequisites_success() {
    let mut c = Certificate::new();
    let (admin, _, _, _) = create_test_addresses();
    let prerequisite = create_basic_prerequisite("advanced_rust", "basic_rust");
    let result = PrerequisiteManager::define_prerequisites(&mut c, &admin, prerequisite.clone(), true);
    assert!(result.is_ok());
    let stored = c.prerequisites.get(&prerequisite.course_id);
    assert!(stored.is_some());
}

#[test]
fn test_define_prerequisites_invalid_config() {
    let mut c = Certificate::new();
    let (admin, _, _, _) = create_test_addresses();
    let mut prerequisite = create_basic_prerequisite("advanced_rust", "basic_rust");
    prerequisite.minimum_completion_percentage = 150;
    let result = PrerequisiteManager::define_prerequisites(&mut c, &admin, prerequisite, true);
    assert_eq!(result.unwrap_err(), CertificateError::InvalidPrerequisiteConfig);
}

#[test]
fn test_define_prerequisites_empty_courses() {
    let mut c = Certificate::new();
    let (admin, _, _, _) = create_test_addresses();
    let prerequisite = CoursePrerequisite {
        course_id: s("advanced_rust"),
        prerequisite_courses: Vec::new(),
        minimum_completion_percentage: 80,
        policy: PrerequisitePolicy::Strict,
        created_by: admin,
        created_at: NOW,
        updated_at: NOW,
    };
    let result = PrerequisiteManager::define_prerequisites(&mut c, &admin, prerequisite, true);
    assert_eq!(result.unwrap_err(), CertificateError::InvalidPrerequisiteConfig);
}

#[test]
fn test_check_prerequisites_eligible() {
    let mut c = Certificate::new();
    let (admin, student, progress_contract, _) = create_test_addresses();
    let prerequisite = create_basic_prerequisite("advanced_rust", "basic_rust");
    PrerequisiteManager::define_prerequisites(&mut c, &admin, prerequisite.clone(), true).unwrap();
    let result = PrerequisiteManager::check_prerequisites(&mut c, &student, &s("advanced_rust"), &progress_contract, NOW);
    assert!(result.is_ok());
    let check_result = result.unwrap();
    // The reported progress (75%) is below the required 80%.
    assert!(!check_result.eligible);
    assert_eq!(check_result.missing_prerequisites.len(), 1);
    assert_eq!(check_result.missing_prerequisites[0].current_percentage, 75);
}

#[test]
fn test_grant_prerequisite_override() {
    let mut c = Certificate::new();
    let (admin, student, _, _) = create_test_addresses();
    let override_data = basic_override(student, admin, Some(NOW + 86400 * 30));
    let result = PrerequisiteManager::grant_prerequisite_override(&mut c, &admin, override_data.clone(), true);
    assert!(result.is_ok());
    let stored = c.overrides.get(&(student, s("advanced_rust")));
    assert!(stored.is_some());
}

#[test]
fn test_revoke_prerequisite_override() {
    let mut c = Certificate::new();
    let (admin, student, _, _) = create_test_addresses();
    let override_data = basic_override(student, admin, None);
    PrerequisiteManager::grant_prerequisite_override(&mut c, &admin, override_data, true).unwrap();
    let result = PrerequisiteManager::revoke_prerequisite_override(
        &mut c,
        &admin,
        &student,
        &s("advanced_rust"),
        s("Override no longer needed"),
        true,
    );
    assert!(result.is_ok());
    let stored = c.overrides.get(&(student, s("advanced_rust")));
    assert!(stored.is_none());
}

#[test]
fn test_revoke_nonexistent_override() {
    let mut c = Certificate::new();
    let (admin, student, _, _) = create_test_addresses();
    let result = PrerequisiteManager::revoke_prerequisite_override(
        &mut c,
        &admin,
        &student,
        &s("advanced_rust"),
        s("Override no longer needed"),
        true,
    );
    assert_eq!(result.unwrap_err(), CertificateError::PrerequisiteOverrideNotFound);
}

#[test]
fn test_generate_learning_path() {
    let mut c = Certificate::new();
    let (admin, student, progress_contract, _) = create_test_addresses();
    let intro_prereq = create_basic_prerequisite("basic_rust", "intro_programming");
    let intermediate_prereq = create_basic_prerequisite("intermediate_rust", "basic_rust");
    let advanced_prereq = create_basic_prerequisite("advanced_rust", "intermediate_rust");
    PrerequisiteManager::define_prerequisites(&mut c, &admin, intro_prereq, true).unwrap();
    PrerequisiteManager::define_prerequisites(&mut c, &admin, intermediate_prereq, true).unwrap();
    PrerequisiteManager::define_prerequisites(&mut c, &admin, advanced_prereq, true).unwrap();
    let result = PrerequisiteManager::generate_learning_path(&mut c, &student, &s("advanced_rust"), &progress_contract, NOW);
    assert!(result.is_ok());
    let learning_path = result.unwrap();
    assert_eq!(learning_path.target_course, s("advanced_rust"));
    assert!(learning_path.recommended_sequence.len() > 0);
}

#[test]
fn test_circular_dependency_detection() {
    let mut c = Certificate::new();
    let (admin, _, _, _) = create_test_addresses();
    let prereq_a = create_basic_prerequisite("course_a", "course_b");
    PrerequisiteManager::define_prerequisites(&mut c, &admin, prereq_a, true).unwrap();
    let prereq_b = create_basic_prerequisite("course_b", "course_a");
    let result = PrerequisiteManager::define_prerequisites(&mut c, &admin, prereq_b, true);
    assert_eq!(result.unwrap_err(), CertificateError::CircularDependency);
}

#[test]
fn test_validate_enrollment_success() {
    let mut c = Certificate::new();
    let (admin, student, progress_contract, enrolled_by) = create_test_addresses();
    let prerequisite = create_basic_prerequisite("advanced_rust", "basic_rust");
    PrerequisiteManager::define_prerequisites(&mut c, &admin, prerequisite, true).unwrap();
    let result = PrerequisiteManager::validate_enrollment(
        &mut c,
        &student,
        &s("advanced_rust"),
        &enrolled_by,
        &progress_contract,
        NOW,
    );
    match result {
        Ok(_) => assert!(true),
        Err(CertificateError::PrerequisiteNotMet) => {
            assert!(true);
        }
        Err(e) => panic!("Unexpected error: {:?}", e),
    }
}

#[test]
fn test_dependency_graph_creation() {
    let mut c = Certificate::new();
    let (admin, _, _, _) = create_test_addresses();
    let prerequisite = create_basic_prerequisite("advanced_rust", "basic_rust");
    PrerequisiteManager::define_prerequisites(&mut c, &admin, prerequisite.clone(), true).unwrap();
    let dependency_graph = PrerequisiteManager::get_dependency_graph(&c, &s("advanced_rust"));
    assert!(dependency_graph.is_some());
    let graph = dependency_graph.unwrap();
    assert_eq!(graph.course_id, s("advanced_rust"));
    assert!(graph.direct_prerequisites.len() > 0);
}

#[test]
fn test_prerequisite_override_validation() {
    let mut c = Certificate::new();
    let (admin, student, _, _) = create_test_addresses();
    let mut invalid_override = basic_override(student, admin, None);
    invalid_override.override_reason = s("");
    let result = PrerequisiteManager::grant_prerequisite_override(&mut c, &admin, invalid_override, true);
    assert_eq!(result.unwrap_err(), CertificateError::InvalidInput);

    let mut invalid_override2 = basic_override(student, admin, None);
    invalid_override2.overridden_prerequisites = Vec::new();
    invalid_override2.override_reason = s("Valid reason");
    let result2 = PrerequisiteManager::grant_prerequisite_override(&mut c, &admin, invalid_override2, true);
    assert_eq!(result2.unwrap_err(), CertificateError::InvalidInput);
}

#[test]
fn test_weighted_prerequisites() {
    let mut c = Certificate::new();
    let (admin, _, _, _) = create_test_addresses();
    let prerequisite = CoursePrerequisite {
        course_id: s("advanced_rust"),
        prerequisite_courses: vec![
            PrerequisiteCourse { course_id: s("basic_rust"), minimum_percentage: 80, weight: 3, required_certificate: false },
            PrerequisiteCourse { course_id: s("intro_programming"), minimum_percentage: 70, weight: 1, required_certificate: false },
        ],
        minimum_completion_percentage: 80,
        policy: PrerequisitePolicy::Weighted,
        created_by: admin,
        created_at: NOW,
        updated_at: NOW,
    };
    let result = PrerequisiteManager::define_prerequisites(&mut c, &admin, prerequisite, true);
    assert!(result.is_ok());
}

#[test]
fn test_prerequisite_config_validation_edge_cases() {
    let prerequisite = CoursePrerequisite {
        course_id: s("advanced_rust"),
        prerequisite_courses: vec![PrerequisiteCourse {
            course_id: s("basic_rust"),
            minimum_percentage: 80,
            weight: 0,
            required_certificate: false,
        }],
        minimum_completion_percentage: 80,
        policy: PrerequisitePolicy::Strict,
        created_by: Address { id: 7 },
        created_at: NOW,
        updated_at: NOW,
    };
    let result = PrerequisiteManager::validate_prerequisite_config(&prerequisite);
    assert_eq!(result.unwrap_err(), CertificateError::InvalidPrerequisiteConfig);

    let prerequisite2 = CoursePrerequisite {
        course_id: s("advanced_rust"),
        prerequisite_courses: vec![PrerequisiteCourse {
            course_id: s("basic_rust"),
            minimum_percentage: 150,
            weight: 1,
            required_certificate: false,
        }],
        minimum_completion_percentage: 80,
        policy: PrerequisitePolicy::Strict,
        created_by: Address { id: 8 },
        created_at: NOW,
        updated_at: NOW,
    };
    let result2 = PrerequisiteManager::validate_prerequisite_config(&prerequisite2);
    assert_eq!(result2.unwrap_err(), CertificateError::InvalidPrerequisiteConfig);
}

#[test]
fn prerequisite_tests_test_learning_path_optimization() {
    let mut c = Certificate::new();
    let (admin, student, progress_contract, _) = create_test_addresses();
    let math_prereq = create_basic_prerequisite("advanced_math", "basic_math");
    let programming_prereq = create_basic_prerequisite("advanced_programming", "basic_programming");
    let combined_course = CoursePrerequisite {
        course_id: s("data_science"),
        prerequisite_courses: vec![
            PrerequisiteCourse { course_id: s("advanced_math"), minimum_percentage: 80, weight: 1, required_certificate: false },
            PrerequisiteCourse { course_id: s("advanced_programming"), minimum_percentage: 80, weight: 1, required_certificate: false },
        ],
        minimum_completion_percentage: 80,
        policy: PrerequisitePolicy::Strict,
        created_by: admin,
        created_at: NOW,
        updated_at: NOW,
    };
    PrerequisiteManager::define_prerequisites(&mut c, &admin, math_prereq, true).unwrap();
    PrerequisiteManager::define_prerequisites(&mut c, &admin, programming_prereq, true).unwrap();
    PrerequisiteManager::define_prerequisites(&mut c, &admin, combined_course, true).unwrap();
    let result = PrerequisiteManager::generate_learning_path(&mut c, &student, &s("data_science"), &progress_contract, NOW);
    assert!(result.is_ok());
    let learning_path = result.unwrap();
    assert!(learning_path.recommended_sequence.len() > 0);
    assert!(learning_path.estimated_total_time > 0);
}
