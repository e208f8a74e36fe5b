use vstd::prelude::*;

verus! {

/// Errors of the analytics contract, each with the number it is reported under.
#[derive(Clone, Copy, Debug, PartialEq, Eq, Structural)]
pub enum AnalyticsError {
    AlreadyInitialized,
    NotInitialized,
    Unauthorized,
    InvalidSessionData,
    InvalidTimeRange,
    InvalidScore,
    InvalidPercentage,
    SessionTooShort,
    SessionTooLong,
    SessionNotFound,
    StudentNotFound,
    CourseNotFound,
    ModuleNotFound,
    ReportNotFound,
    SessionAlreadyExists,
    SessionNotCompleted,
    InsufficientData,
    InvalidBatchSize,
    StorageError,
    InvalidConfiguration,
    UnauthorizedOracle,
    InvalidInsightData,
    InsightNotFound,
}

/// The number under which an error is reported.
pub open spec fn analytics_error_code(e: AnalyticsError) -> u32 {
    match e {
        AnalyticsError::AlreadyInitialized => 1,
        AnalyticsError::NotInitialized => 2,
        AnalyticsError::Unauthorized => 3,
        AnalyticsError::InvalidSessionData => 4,
        AnalyticsError::InvalidTimeRange => 5,
        AnalyticsError::InvalidScore => 6,
        AnalyticsError::InvalidPercentage => 7,
        AnalyticsError::SessionTooShort => 8,
        AnalyticsError::SessionTooLong => 9,
        AnalyticsError::SessionNotFound => 10,
        AnalyticsError::StudentNotFound => 11,
        AnalyticsError::CourseNotFound => 12,
        AnalyticsError::ModuleNotFound => 13,
        AnalyticsError::ReportNotFound => 14,
        AnalyticsError::SessionAlreadyExists => 15,
        AnalyticsError::SessionNotCompleted => 16,
        AnalyticsError::InsufficientData => 17,
        AnalyticsError::InvalidBatchSize => 18,
        AnalyticsError::StorageError => 19,
        AnalyticsError::InvalidConfiguration => 20,
        AnalyticsError::UnauthorizedOracle => 21,
        AnalyticsError::InvalidInsightData => 22,
        AnalyticsError::InsightNotFound => 23,
    }
}

impl AnalyticsError {
    /// The number under which this error is reported.
    pub fn code(&self) -> (r: u32)
        ensures
            r == analytics_error_code(*self),
    {
        match self {
            AnalyticsError::AlreadyInitialized => 1,
            AnalyticsError::NotInitialized => 2,
            AnalyticsError::Unauthorized => 3,
            AnalyticsError::InvalidSessionData => 4,
            AnalyticsError::InvalidTimeRange => 5,
            AnalyticsError::InvalidScore => 6,
            AnalyticsError::InvalidPercentage => 7,
            AnalyticsError::SessionTooShort => 8,
            AnalyticsError::SessionTooLong => 9,
            AnalyticsError::SessionNotFound => 10,
            AnalyticsError::StudentNotFound => 11,
            AnalyticsError::CourseNotFound => 12,
            AnalyticsError::ModuleNotFound => 13,
            AnalyticsError::ReportNotFound => 14,
            AnalyticsError::SessionAlreadyExists => 15,
            AnalyticsError::SessionNotCompleted => 16,
            AnalyticsError::InsufficientData => 17,
            AnalyticsError::InvalidBatchSize => 18,
            AnalyticsError::StorageError => 19,
            AnalyticsError::InvalidConfiguration => 20,
            AnalyticsError::UnauthorizedOracle => 21,
            AnalyticsError::InvalidInsightData => 22,
            AnalyticsError::InsightNotFound => 23,
        }
    }
}

} // verus!
