use vstd::prelude::*;
use crate::common::ids::{Address, KeyEq};

verus! {

// ───────── Forum ─────────

#[derive(Clone, Copy, Debug, PartialEq, Eq, Structural)]
pub enum ForumCategory {
    General,
    CourseSpecific,
    TechnicalHelp,
    CareerAdvice,
    ProjectShowcase,
    Announcements,
    Feedback,
}

impl View for ForumCategory {
    type V = ForumCategory;

    open spec fn view(&self) -> ForumCategory {
        *self
    }
}

impl KeyEq for ForumCategory {
    fn key_eq(&self, other: &Self) -> (r: bool) {
        *self == *other
    }
}

#[derive(Clone, Copy, Debug, PartialEq, Eq, Structural)]
pub enum PostStatus {
    Active,
    Resolved,
    Closed,
    Pinned,
    Archived,
}

#[derive(Clone, Debug, PartialEq, Eq)]
pub struct ForumPost {
    pub id: u64,
    pub author: Address,
    pub category: ForumCategory,
    pub title: String,
    pub content: String,
    pub status: PostStatus,
    pub created_at: u64,
    pub updated_at: u64,
    pub views: u32,
    pub replies_count: u32,
    pub upvotes: u32,
    pub downvotes: u32,
    pub is_pinned: bool,
    pub tags: Vec<String>,
    /// Empty when the post is not tied to a course.
    pub course_id: String,
}

#[derive(Clone, Debug, PartialEq, Eq)]
pub struct ForumReply {
    pub id: u64,
    pub post_id: u64,
    pub author: Address,
    pub content: String,
    pub created_at: u64,
    pub updated_at: u64,
    pub upvotes: u32,
    pub downvotes: u32,
    pub is_solution: bool,
    /// Zero for a top-level reply.
    pub parent_reply_id: u64,
}

// ───────── Mentorship ─────────

#[derive(Clone, Copy, Debug, PartialEq, Eq, Structural)]
pub enum MentorshipStatus {
    Pending,
    Active,
    Completed,
    Cancelled,
}

#[derive(Clone, Copy, Debug, PartialEq, Eq, Structural)]
pub enum MentorExpertise {
    Beginner,
    Intermediate,
    Advanced,
    Expert,
}

#[derive(Clone, Debug, PartialEq, Eq)]
pub struct MentorProfile {
    pub mentor: Address,
    pub expertise_areas: Vec<String>,
    pub expertise_level: MentorExpertise,
    pub max_mentees: u32,
    pub current_mentees: u32,
    pub total_sessions: u32,
    /// 0 to 100.
    pub rating: u32,
    pub is_available: bool,
    pub bio: String,
    pub joined_at: u64,
}

#[derive(Clone, Debug, PartialEq, Eq)]
pub struct MentorshipRequest {
    pub id: u64,
    pub mentee: Address,
    pub mentor: Address,
    pub topic: String,
    pub message: String,
    pub status: MentorshipStatus,
    pub created_at: u64,
    pub started_at: u64,
    pub completed_at: u64,
}

#[derive(Clone, Debug, PartialEq, Eq)]
pub struct MentorshipSession {
    pub id: u64,
    pub request_id: u64,
    pub mentor: Address,
    pub mentee: Address,
    pub topic: String,
    /// Seconds.
    pub duration: u64,
    pub notes: String,
    /// 0 to 100.
    pub rating: u32,
    pub completed_at: u64,
}

// ───────── Knowledge base ─────────

#[derive(Clone, Copy, Debug, PartialEq, Eq, Structural)]
pub enum ContributionType {
    Article,
    Tutorial,
    CodeSnippet,
    Resource,
    FAQ,
}

#[derive(Clone, Copy, Debug, PartialEq, Eq, Structural)]
pub enum ContributionStatus {
    Draft,
    Submitted,
    UnderReview,
    Approved,
    Rejected,
    Published,
}

#[derive(Clone, Debug, PartialEq, Eq)]
pub struct KnowledgeContribution {
    pub id: u64,
    pub contributor: Address,
    pub contribution_type: ContributionType,
    pub title: String,
    pub content: String,
    pub status: ContributionStatus,
    pub category: ForumCategory,
    pub tags: Vec<String>,
    pub upvotes: u32,
    pub views: u32,
    pub created_at: u64,
    pub published_at: u64,
    pub xp_reward: u32,
    pub token_reward: i128,
}

// ───────── Events ─────────

#[derive(Clone, Copy, Debug, PartialEq, Eq, Structural)]
pub enum EventType {
    Workshop,
    Webinar,
    StudyGroup,
    Hackathon,
    Competition,
    Meetup,
    AMA,
}

#[derive(Clone, Copy, Debug, PartialEq, Eq, Structural)]
pub enum EventStatus {
    Scheduled,
    InProgress,
    Completed,
    Cancelled,
}

#[derive(Clone, Debug, PartialEq, Eq)]
pub struct CommunityEvent {
    pub id: u64,
    pub organizer: Address,
    pub event_type: EventType,
    pub title: String,
    pub description: String,
    pub start_time: u64,
    pub end_time: u64,
    pub max_participants: u32,
    pub current_participants: u32,
    pub status: EventStatus,
    pub is_public: bool,
    pub xp_reward: u32,
    pub created_at: u64,
}

#[derive(Clone, Copy, Debug, PartialEq, Eq, Structural)]
pub struct EventParticipant {
    pub user: Address,
    pub event_id: u64,
    pub registered_at: u64,
    pub attended: bool,
    /// 0 to 100.
    pub feedback_rating: u32,
}

// ───────── Moderation ─────────

#[derive(Clone, Copy, Debug, PartialEq, Eq, Structural)]
pub enum ModeratorRole {
    Moderator,
    SeniorModerator,
    Admin,
}

#[derive(Clone, Copy, Debug, PartialEq, Eq, Structural)]
pub enum ReportReason {
    Spam,
    Harassment,
    Inappropriate,
    OffTopic,
    Misinformation,
    Other,
}

#[derive(Clone, Copy, Debug, PartialEq, Eq, Structural)]
pub enum ReportStatus {
    Pending,
    UnderReview,
    Resolved,
    Dismissed,
}

#[derive(Clone, Debug, PartialEq, Eq)]
pub struct ContentReport {
    pub id: u64,
    pub reporter: Address,
    /// "post", "reply" or "contribution".
    pub content_type: String,
    pub content_id: u64,
    pub reason: ReportReason,
    pub description: String,
    pub status: ReportStatus,
    pub created_at: u64,
    pub resolved_at: u64,
    /// `None` while the report is open.
    pub resolved_by: Option<Address>,
}

#[derive(Clone, Debug, PartialEq, Eq)]
pub struct ModeratorAction {
    pub id: u64,
    pub moderator: Address,
    /// "warn", "mute", "ban" or "delete".
    pub action_type: String,
    pub target_user: Address,
    pub reason: String,
    /// Zero means permanent.
    pub duration: u64,
    pub created_at: u64,
}

// ───────── Analytics ─────────

#[derive(Clone, Copy, Debug, PartialEq, Eq, Structural)]
pub struct CommunityMetrics {
    pub total_posts: u32,
    pub total_replies: u32,
    pub total_contributions: u32,
    pub total_events: u32,
    pub active_mentorships: u32,
    pub total_members: u32,
    pub daily_active_users: u32,
    pub weekly_active_users: u32,
    /// Seconds.
    pub avg_response_time: u64,
    /// 0 to 100.
    pub resolution_rate: u32,
    pub last_updated: u64,
}

#[derive(Clone, Copy, Debug, PartialEq, Eq, Structural)]
pub struct UserCommunityStats {
    pub user: Address,
    pub posts_created: u32,
    pub replies_given: u32,
    pub solutions_provided: u32,
    pub contributions_made: u32,
    pub events_attended: u32,
    pub mentorship_sessions: u32,
    pub helpful_votes_received: u32,
    pub reputation_score: u32,
    pub joined_at: u64,
}

// ───────── Governance ─────────

#[derive(Clone, Copy, Debug, PartialEq, Eq, Structural)]
pub enum ProposalType {
    FeatureRequest,
    PolicyChange,
    CommunityRule,
    EventProposal,
    Other,
}

#[derive(Clone, Copy, Debug, PartialEq, Eq, Structural)]
pub enum ProposalStatus {
    Draft,
    Active,
    Passed,
    Rejected,
    Implemented,
}

#[derive(Clone, Debug, PartialEq, Eq)]
pub struct CommunityProposal {
    pub id: u64,
    pub proposer: Address,
    pub proposal_type: ProposalType,
    pub title: String,
    pub description: String,
    pub status: ProposalStatus,
    pub votes_for: u32,
    pub votes_against: u32,
    pub created_at: u64,
    pub voting_ends_at: u64,
    pub min_votes_required: u32,
}

// ───────── Configuration ─────────

#[derive(Clone, Copy, Debug, PartialEq, Eq, Structural)]
pub struct CommunityConfig {
    pub post_xp_reward: u32,
    pub reply_xp_reward: u32,
    pub solution_xp_reward: u32,
    pub contribution_base_xp: u32,
    pub contribution_base_tokens: i128,
    pub mentor_session_xp: u32,
    pub event_attendance_xp: u32,
    pub min_reputation_to_moderate: u32,
    pub max_reports_per_day: u32,
    pub vote_weight_threshold: u32,
}

/// The configuration used until an admin sets another.
pub open spec fn default_config_spec() -> CommunityConfig {
    CommunityConfig {
        post_xp_reward: 10,
        reply_xp_reward: 5,
        solution_xp_reward: 50,
        contribution_base_xp: 100,
        contribution_base_tokens: 1000,
        mentor_session_xp: 75,
        event_attendance_xp: 25,
        min_reputation_to_moderate: 500,
        max_reports_per_day: 10,
        vote_weight_threshold: 100,
    }
}

pub fn default_config() -> (r: CommunityConfig)
    ensures
        r == default_config_spec(),
{
    CommunityConfig {
        post_xp_reward: 10,
        reply_xp_reward: 5,
        solution_xp_reward: 50,
        contribution_base_xp: 100,
        contribution_base_tokens: 1000,
        mentor_session_xp: 75,
        event_attendance_xp: 25,
        min_reputation_to_moderate: 500,
        max_reports_per_day: 10,
        vote_weight_threshold: 100,
    }
}

/// Statistics of a member who has done nothing yet.
pub open spec fn fresh_stats(user: Address, now: u64) -> UserCommunityStats {
    UserCommunityStats {
        user,
        posts_created: 0,
        replies_given: 0,
        solutions_provided: 0,
        contributions_made: 0,
        events_attended: 0,
        mentorship_sessions: 0,
        helpful_votes_received: 0,
        reputation_score: 0,
        joined_at: now,
    }
}

pub fn new_stats(user: Address, now: u64) -> (r: UserCommunityStats)
    ensures
        r == fresh_stats(user, now),
{
    UserCommunityStats {
        user,
        posts_created: 0,
        replies_given: 0,
        solutions_provided: 0,
        contributions_made: 0,
        events_attended: 0,
        mentorship_sessions: 0,
        helpful_votes_received: 0,
        reputation_score: 0,
        joined_at: now,
    }
}

} // verus!
