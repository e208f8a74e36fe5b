use vstd::prelude::*;
use crate::common::ids::{Address, Bytes32};

verus! {

/// Where a certificate stands in its life.
#[derive(Clone, Copy, Debug, PartialEq, Eq, Structural)]
pub enum CertificateStatus {
    Active,
    Revoked,
    Expired,
    PendingRenewal,
    Renewed,
}

/// What is recorded of a certificate.
#[derive(Clone, Debug, PartialEq, Eq)]
pub struct CertificateMetadata {
    pub token_id: Bytes32,
    pub student_id: Address,
    pub instructor_id: Address,
    pub course_id: String,
    pub title: String,
    pub description: String,
    pub metadata_uri: String,
    pub status: CertificateStatus,
    pub issue_date: u64,
    pub expiry_date: u64,
    pub original_expiry_date: u64,
    pub renewal_count: u32,
    pub last_renewed_date: u64,
}

/// One change of a certificate's metadata URI.
#[derive(Clone, Debug, PartialEq, Eq)]
pub struct MetadataUpdateEntry {
    pub updater: Address,
    pub timestamp: u64,
    pub old_uri: String,
    pub new_uri: String,
}

/// A stored certificate: its metadata, its current owner and its URI history.
#[derive(Clone, Debug, PartialEq, Eq)]
pub struct PackedCertificateData {
    pub metadata: CertificateMetadata,
    pub owner: Address,
    pub history: Vec<MetadataUpdateEntry>,
}

/// The two rights a role may carry.
#[derive(Clone, Copy, Debug, PartialEq, Eq, Structural)]
pub struct Role {
    pub can_issue: bool,
    pub can_revoke: bool,
}

/// A right that a role may carry.
#[derive(Clone, Copy, Debug, PartialEq, Eq, Structural)]
pub enum Permission {
    Issue,
    Revoke,
}

/// Whether `role` carries `permission`.
pub open spec fn role_has(role: Role, permission: Permission) -> bool {
    match permission {
        Permission::Issue => role.can_issue,
        Permission::Revoke => role.can_revoke,
    }
}

impl Role {
    /// Whether this role carries the permission.
    pub fn has(&self, permission: Permission) -> (r: bool)
        ensures
            r == role_has(*self, permission),
    {
        match permission {
            Permission::Issue => self.can_issue,
            Permission::Revoke => self.can_revoke,
        }
    }
}

/// What an issuer supplies to mint a certificate.
#[derive(Clone, Debug, PartialEq, Eq)]
pub struct MintCertificateParams {
    pub certificate_id: Bytes32,
    pub course_id: String,
    pub student: Address,
    pub title: String,
    pub description: String,
    pub metadata_uri: String,
    pub expiry_date: u64,
}

/// Where a renewal request stands.
#[derive(Clone, Copy, Debug, PartialEq, Eq, Structural)]
pub enum RenewalStatus {
    Pending,
    Approved,
    Rejected,
    Expired,
}

/// An owner's request to extend a certificate.
#[derive(Clone, Debug, PartialEq, Eq)]
pub struct RenewalRequest {
    pub certificate_id: Bytes32,
    pub requester: Address,
    pub requested_extension: u64,
    pub reason: String,
    pub request_date: u64,
    pub status: RenewalStatus,
    pub approver: Option<Address>,
    pub approval_date: Option<u64>,
}

/// How close to expiry a notification warns about.
#[derive(Clone, Copy, Debug, PartialEq, Eq, Structural)]
pub enum NotificationType {
    Warning30Days,
    Warning7Days,
    Warning1Day,
    Expired,
}

/// A warning to an owner that a certificate expires.
#[derive(Clone, Copy, Debug, PartialEq, Eq)]
pub struct ExpiryNotification {
    pub certificate_id: Bytes32,
    pub owner: Address,
    pub expiry_date: u64,
    pub notification_type: NotificationType,
    pub created_at: u64,
    pub acknowledged: bool,
}

/// Moves many certificates to one new expiry date.
#[derive(Clone, Debug, PartialEq, Eq)]
pub struct BulkExpiryOperation {
    pub certificate_ids: Vec<Bytes32>,
    pub new_expiry_date: u64,
    pub reason: String,
    pub operator: Address,
}

/// Extends one certificate by a period.
#[derive(Clone, Debug, PartialEq, Eq)]
pub struct ExtensionParams {
    pub certificate_id: Bytes32,
    pub extension_period: u64,
    pub reason: String,
    pub max_renewals: Option<u32>,
}

/// Where a multi-signature request stands.
#[derive(Clone, Copy, Debug, PartialEq, Eq, Structural)]
pub enum MultiSigRequestStatus {
    Pending,
    Approved,
    Rejected,
    Expired,
    Executed,
}

/// How many approvals a certificate of this level calls for.
#[derive(Clone, Copy, Debug, PartialEq, Eq, Structural)]
pub enum CertificatePriority {
    Standard,
    Premium,
    Enterprise,
    Institutional,
}

/// One approver's decision on a request.
#[derive(Clone, Debug, PartialEq, Eq)]
pub struct ApprovalRecord {
    pub approver: Address,
    pub approved: bool,
    pub timestamp: u64,
    pub signature_hash: Option<Bytes32>,
    pub comments: String,
}

/// A certificate that is minted only once enough approvers agree.
#[derive(Clone, Debug, PartialEq, Eq)]
pub struct MultiSigCertificateRequest {
    pub request_id: Bytes32,
    pub certificate_params: MintCertificateParams,
    pub requester: Address,
    pub required_approvals: u32,
    pub current_approvals: u32,
    pub approvers: Vec<Address>,
    pub approval_records: Vec<ApprovalRecord>,
    pub status: MultiSigRequestStatus,
    pub created_at: u64,
    pub expires_at: u64,
    pub reason: String,
    pub priority: CertificatePriority,
}

/// The approval rules of a course.
#[derive(Clone, Debug, PartialEq, Eq)]
pub struct MultiSigConfig {
    pub course_id: String,
    pub required_approvals: u32,
    pub authorized_approvers: Vec<Address>,
    pub timeout_duration: u64,
    pub priority: CertificatePriority,
    pub auto_execute: bool,
}

/// What an audit entry records.
#[derive(Clone, Copy, Debug, PartialEq, Eq, Structural)]
pub enum AuditAction {
    RequestCreated,
    ApprovalGranted,
    ApprovalRevoked,
    RequestApproved,
    RequestRejected,
    RequestExpired,
    CertificateIssued,
    ConfigUpdated,
}

/// One entry of a request's audit trail.
#[derive(Clone, Debug, PartialEq, Eq)]
pub struct MultiSigAuditEntry {
    pub request_id: Bytes32,
    pub action: AuditAction,
    pub actor: Address,
    pub timestamp: u64,
    pub details: String,
    pub previous_status: Option<MultiSigRequestStatus>,
    pub new_status: Option<MultiSigRequestStatus>,
}

/// One course that must be completed before another.
#[derive(Clone, Debug, PartialEq, Eq)]
pub struct PrerequisiteCourse {
    pub course_id: String,
    pub minimum_percentage: u32,
    pub required_certificate: bool,
    pub weight: u32,
}

/// The prerequisites of a course.
#[derive(Clone, Debug, PartialEq, Eq)]
pub struct CoursePrerequisite {
    pub course_id: String,
    pub prerequisite_courses: Vec<PrerequisiteCourse>,
    pub minimum_completion_percentage: u32,
    pub policy: PrerequisitePolicy,
    pub created_by: Address,
    pub created_at: u64,
    pub updated_at: u64,
}

/// A prerequisite that a student has not met yet.
#[derive(Clone, Debug, PartialEq, Eq)]
pub struct MissingPrerequisite {
    pub course_id: String,
    pub current_percentage: u32,
    pub required_percentage: u32,
    pub has_certificate: bool,
    pub requires_certificate: bool,
    pub estimated_completion_time: Option<u64>,
}

/// A prerequisite that a student has met.
#[derive(Clone, Debug, PartialEq, Eq)]
pub struct CompletedPrerequisite {
    pub course_id: String,
    pub completion_percentage: u32,
    pub has_certificate: bool,
    pub completion_date: Option<u64>,
    pub certificate_id: Option<Bytes32>,
}

/// An admin's exemption of a student from a course's prerequisites.
#[derive(Clone, Debug, PartialEq, Eq)]
pub struct PrerequisiteOverride {
    pub student: Address,
    pub course_id: String,
    pub override_reason: String,
    pub overridden_prerequisites: Vec<String>,
    pub granted_by: Address,
    pub granted_at: u64,
    pub expires_at: Option<u64>,
    pub conditions: Option<String>,
}

/// The outcome of checking a student against a course's prerequisites.
#[derive(Clone, Debug, PartialEq, Eq)]
pub struct PrerequisiteCheckResult {
    pub student: Address,
    pub course_id: String,
    pub eligible: bool,
    pub missing_prerequisites: Vec<MissingPrerequisite>,
    pub completed_prerequisites: Vec<CompletedPrerequisite>,
    pub check_timestamp: u64,
    pub override_applied: Option<PrerequisiteOverride>,
}

/// An enrolment refused for missing prerequisites.
#[derive(Clone, Debug, PartialEq, Eq)]
pub struct PrerequisiteViolation {
    pub student: Address,
    pub attempted_course: String,
    pub missing_prerequisites: Vec<String>,
    pub violation_timestamp: u64,
    pub attempted_by: Address,
}

/// A course's place in the prerequisite graph.
#[derive(Clone, Debug, PartialEq, Eq)]
pub struct CourseDependencyNode {
    pub course_id: String,
    pub level: u32,
    pub direct_prerequisites: Vec<String>,
    pub all_prerequisites: Vec<String>,
    pub dependent_courses: Vec<String>,
}

/// How strictly prerequisites are enforced.
#[derive(Clone, Copy, Debug, PartialEq, Eq, Structural)]
pub enum PrerequisitePolicy {
    Strict,
    Flexible,
    Weighted,
    Progressive,
}

/// The courses a student should take, in order, to reach a target course.
#[derive(Clone, Debug, PartialEq, Eq)]
pub struct LearningPath {
    pub student: Address,
    pub target_course: String,
    pub recommended_sequence: Vec<String>,
    pub estimated_total_time: u64,
    pub current_position: u32,
    pub generated_at: u64,
    pub last_updated: u64,
}

} // verus!
