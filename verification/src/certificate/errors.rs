use vstd::prelude::*;

verus! {

/// Errors of the certificate contract, each with the number it is reported under.
#[derive(Clone, Copy, Debug, PartialEq, Eq, Structural)]
pub enum CertificateError {
    AlreadyInitialized,
    NotInitialized,
    InitializationFailed,
    Unauthorized,
    RoleNotFound,
    InvalidRole,
    CertificateNotFound,
    CertificateAlreadyExists,
    CertificateAlreadyRevoked,
    CertificateRevoked,
    CertificateExpired,
    InvalidMetadata,
    InvalidUri,
    MetadataTooLarge,
    MetadataTooSmall,
    InvalidCharacters,
    InvalidFormat,
    InvalidAddress,
    InvalidInput,
    StorageError,
    EventError,
    MultiSigRequestNotFound,
    MultiSigRequestAlreadyExists,
    MultiSigRequestExpired,
    MultiSigRequestAlreadyApproved,
    MultiSigRequestAlreadyRejected,
    MultiSigRequestAlreadyExecuted,
    InsufficientApprovals,
    ApproverNotAuthorized,
    ApprovalAlreadyExists,
    InvalidMultiSigConfig,
    MultiSigConfigNotFound,
    InvalidApprovalThreshold,
    TimeoutTooShort,
    TimeoutTooLong,
    PrerequisiteNotMet,
    PrerequisiteNotFound,
    PrerequisiteAlreadyExists,
    CircularDependency,
    InvalidPrerequisiteConfig,
    PrerequisiteOverrideNotFound,
    PrerequisiteOverrideExpired,
    InsufficientProgress,
    CertificateRequired,
    InvalidLearningPath,
}

/// The number under which an error is reported.
pub open spec fn certificate_error_code(e: CertificateError) -> u32 {
    match e {
        CertificateError::AlreadyInitialized => 1,
        CertificateError::NotInitialized => 2,
        CertificateError::InitializationFailed => 3,
        CertificateError::Unauthorized => 4,
        CertificateError::RoleNotFound => 5,
        CertificateError::InvalidRole => 6,
        CertificateError::CertificateNotFound => 7,
        CertificateError::CertificateAlreadyExists => 8,
        CertificateError::CertificateAlreadyRevoked => 9,
        CertificateError::CertificateRevoked => 10,
        CertificateError::CertificateExpired => 11,
        CertificateError::InvalidMetadata => 12,
        CertificateError::InvalidUri => 13,
        CertificateError::MetadataTooLarge => 14,
        CertificateError::MetadataTooSmall => 15,
        CertificateError::InvalidCharacters => 16,
        CertificateError::InvalidFormat => 17,
        CertificateError::InvalidAddress => 18,
        CertificateError::InvalidInput => 19,
        CertificateError::StorageError => 20,
        CertificateError::EventError => 21,
        CertificateError::MultiSigRequestNotFound => 22,
        CertificateError::MultiSigRequestAlreadyExists => 23,
        CertificateError::MultiSigRequestExpired => 24,
        CertificateError::MultiSigRequestAlreadyApproved => 25,
        CertificateError::MultiSigRequestAlreadyRejected => 26,
        CertificateError::MultiSigRequestAlreadyExecuted => 27,
        CertificateError::InsufficientApprovals => 28,
        CertificateError::ApproverNotAuthorized => 29,
        CertificateError::ApprovalAlreadyExists => 30,
        CertificateError::InvalidMultiSigConfig => 31,
        CertificateError::MultiSigConfigNotFound => 32,
        CertificateError::InvalidApprovalThreshold => 33,
        CertificateError::TimeoutTooShort => 34,
        CertificateError::TimeoutTooLong => 35,
        CertificateError::PrerequisiteNotMet => 36,
        CertificateError::PrerequisiteNotFound => 37,
        CertificateError::PrerequisiteAlreadyExists => 38,
        CertificateError::CircularDependency => 39,
        CertificateError::InvalidPrerequisiteConfig => 40,
        CertificateError::PrerequisiteOverrideNotFound => 41,
        CertificateError::PrerequisiteOverrideExpired => 42,
        CertificateError::InsufficientProgress => 43,
        CertificateError::CertificateRequired => 44,
        CertificateError::InvalidLearningPath => 45,
    }
}

impl CertificateError {
    /// The number under which this error is reported.
    pub fn code(&self) -> (r: u32)
        ensures
            r == certificate_error_code(*self),
    {
        match self {
            CertificateError::AlreadyInitialized => 1,
            CertificateError::NotInitialized => 2,
            CertificateError::InitializationFailed => 3,
            CertificateError::Unauthorized => 4,
            CertificateError::RoleNotFound => 5,
            CertificateError::InvalidRole => 6,
            CertificateError::CertificateNotFound => 7,
            CertificateError::CertificateAlreadyExists => 8,
            CertificateError::CertificateAlreadyRevoked => 9,
            CertificateError::CertificateRevoked => 10,
            CertificateError::CertificateExpired => 11,
            CertificateError::InvalidMetadata => 12,
            CertificateError::InvalidUri => 13,
            CertificateError::MetadataTooLarge => 14,
            CertificateError::MetadataTooSmall => 15,
            CertificateError::InvalidCharacters => 16,
            CertificateError::InvalidFormat => 17,
            CertificateError::InvalidAddress => 18,
            CertificateError::InvalidInput => 19,
            CertificateError::StorageError => 20,
            CertificateError::EventError => 21,
            CertificateError::MultiSigRequestNotFound => 22,
            CertificateError::MultiSigRequestAlreadyExists => 23,
            CertificateError::MultiSigRequestExpired => 24,
            CertificateError::MultiSigRequestAlreadyApproved => 25,
            CertificateError::MultiSigRequestAlreadyRejected => 26,
            CertificateError::MultiSigRequestAlreadyExecuted => 27,
            CertificateError::InsufficientApprovals => 28,
            CertificateError::ApproverNotAuthorized => 29,
            CertificateError::ApprovalAlreadyExists => 30,
            CertificateError::InvalidMultiSigConfig => 31,
            CertificateError::MultiSigConfigNotFound => 32,
            CertificateError::InvalidApprovalThreshold => 33,
            CertificateError::TimeoutTooShort => 34,
            CertificateError::TimeoutTooLong => 35,
            CertificateError::PrerequisiteNotMet => 36,
            CertificateError::PrerequisiteNotFound => 37,
            CertificateError::PrerequisiteAlreadyExists => 38,
            CertificateError::CircularDependency => 39,
            CertificateError::InvalidPrerequisiteConfig => 40,
            CertificateError::PrerequisiteOverrideNotFound => 41,
            CertificateError::PrerequisiteOverrideExpired => 42,
            CertificateError::InsufficientProgress => 43,
            CertificateError::CertificateRequired => 44,
            CertificateError::InvalidLearningPath => 45,
        }
    }
}

} // verus!
