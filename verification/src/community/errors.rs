use vstd::prelude::*;

verus! {

/// Errors of the community contract.
#[derive(Clone, Copy, Debug, PartialEq, Eq, Structural)]
pub enum Error {
    AlreadyInitialized,
    NotInitialized,
    Unauthorized,
    NotFound,
    InvalidInput,
    // Forum
    PostNotFound,
    ReplyNotFound,
    AlreadyVoted,
    CannotEditPost,
    PostClosed,
    // Mentorship
    MentorNotAvailable,
    MentorshipNotFound,
    AlreadyMentor,
    MaxMenteesReached,
    InvalidMentorshipStatus,
    // Contributions
    ContributionNotFound,
    InvalidContributionStatus,
    InsufficientReputation,
    // Events
    EventNotFound,
    EventFull,
    AlreadyRegistered,
    EventNotActive,
    // Moderation
    NotModerator,
    ReportNotFound,
    ReportLimitReached,
    AlreadyReported,
    // Governance
    ProposalNotFound,
    VotingClosed,
    AlreadyVotedOnProposal,
    InsufficientVotingPower,
}

impl Error {
    /// The number the contract reports for this error.
    pub fn code(&self) -> (r: u32)
        ensures
            r == error_code(*self),
    {
        match self {
            Error::AlreadyInitialized => 1,
            Error::NotInitialized => 2,
            Error::Unauthorized => 3,
            Error::NotFound => 4,
            Error::InvalidInput => 5,
            Error::PostNotFound => 10,
            Error::ReplyNotFound => 11,
            Error::AlreadyVoted => 12,
            Error::CannotEditPost => 13,
            Error::PostClosed => 14,
            Error::MentorNotAvailable => 20,
            Error::MentorshipNotFound => 21,
            Error::AlreadyMentor => 22,
            Error::MaxMenteesReached => 23,
            Error::InvalidMentorshipStatus => 24,
            Error::ContributionNotFound => 30,
            Error::InvalidContributionStatus => 31,
            Error::InsufficientReputation => 32,
            Error::EventNotFound => 40,
            Error::EventFull => 41,
            Error::AlreadyRegistered => 42,
            Error::EventNotActive => 43,
            Error::NotModerator => 50,
            Error::ReportNotFound => 51,
            Error::ReportLimitReached => 52,
            Error::AlreadyReported => 53,
            Error::ProposalNotFound => 60,
            Error::VotingClosed => 61,
            Error::AlreadyVotedOnProposal => 62,
            Error::InsufficientVotingPower => 63,
        }
    }
}

pub open spec fn error_code(e: Error) -> u32 {
    match e {
        Error::AlreadyInitialized => 1,
        Error::NotInitialized => 2,
        Error::Unauthorized => 3,
        Error::NotFound => 4,
        Error::InvalidInput => 5,
        Error::PostNotFound => 10,
        Error::ReplyNotFound => 11,
        Error::AlreadyVoted => 12,
        Error::CannotEditPost => 13,
        Error::PostClosed => 14,
        Error::MentorNotAvailable => 20,
        Error::MentorshipNotFound => 21,
        Error::AlreadyMentor => 22,
        Error::MaxMenteesReached => 23,
        Error::InvalidMentorshipStatus => 24,
        Error::ContributionNotFound => 30,
        Error::InvalidContributionStatus => 31,
        Error::InsufficientReputation => 32,
        Error::EventNotFound => 40,
        Error::EventFull => 41,
        Error::AlreadyRegistered => 42,
        Error::EventNotActive => 43,
        Error::NotModerator => 50,
        Error::ReportNotFound => 51,
        Error::ReportLimitReached => 52,
        Error::AlreadyReported => 53,
        Error::ProposalNotFound => 60,
        Error::VotingClosed => 61,
        Error::AlreadyVotedOnProposal => 62,
        Error::InsufficientVotingPower => 63,
    }
}

} // verus!
