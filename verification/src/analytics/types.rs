use vstd::prelude::*;
use crate::common::ids::{Address, Bytes32, KeyEq};

verus! {

/// One study session of a student in a module.
#[derive(Clone, Debug, PartialEq, Eq)]
pub struct LearningSession {
    pub session_id: Bytes32,
    pub student: Address,
    pub course_id: String,
    pub module_id: String,
    pub start_time: u64,
    pub end_time: u64,
    pub completion_percentage: u32,
    pub time_spent: u64,
    pub interactions: u32,
    pub score: Option<u32>,
    pub session_type: SessionType,
}

/// What a session was spent on.
#[derive(Clone, Copy, Debug, PartialEq, Eq, Structural)]
pub enum SessionType {
    Study,
    Assessment,
    Practice,
    Review,
}

/// A student's progress in a course.
#[derive(Clone, Debug, PartialEq, Eq)]
pub struct ProgressAnalytics {
    pub student: Address,
    pub course_id: String,
    pub total_modules: u32,
    pub completed_modules: u32,
    pub completion_percentage: u32,
    pub total_time_spent: u64,
    pub average_session_time: u64,
    pub total_sessions: u32,
    pub last_activity: u64,
    pub first_activity: u64,
    pub average_score: Option<u32>,
    pub streak_days: u32,
    pub performance_trend: PerformanceTrend,
}

/// Which way a student's results go.
#[derive(Clone, Copy, Debug, PartialEq, Eq, Structural)]
pub enum PerformanceTrend {
    Improving,
    Stable,
    Declining,
    Insufficient,
}

/// Figures of a whole course.
#[derive(Clone, Debug, PartialEq, Eq)]
pub struct CourseAnalytics {
    pub course_id: String,
    pub total_students: u32,
    pub active_students: u32,
    pub completion_rate: u32,
    pub average_completion_time: u64,
    pub average_score: Option<u32>,
    pub dropout_rate: u32,
    pub most_difficult_module: Option<String>,
    pub easiest_module: Option<String>,
    pub total_time_invested: u64,
}

/// Figures of one module.
#[derive(Clone, Debug, PartialEq, Eq)]
pub struct ModuleAnalytics {
    pub course_id: String,
    pub module_id: String,
    pub total_attempts: u32,
    pub completion_rate: u32,
    pub average_time_to_complete: u64,
    pub average_score: Option<u32>,
    pub difficulty_rating: DifficultyRating,
    pub student_feedback_score: Option<u32>,
}

/// How hard a module turned out to be.
#[derive(Clone, Copy, Debug, PartialEq, Eq, Structural)]
pub enum DifficultyRating {
    Easy,
    Medium,
    Hard,
    VeryHard,
}

/// A student's activity in a course over a period.
#[derive(Clone, Debug, PartialEq, Eq)]
pub struct ProgressReport {
    pub student: Address,
    pub course_id: String,
    pub report_period: ReportPeriod,
    pub start_date: u64,
    pub end_date: u64,
    pub sessions_count: u32,
    pub total_time: u64,
    pub modules_completed: u32,
    pub average_daily_time: u64,
    pub consistency_score: u32,
    pub achievements: Vec<Achievement>,
}

/// The period a report covers.
#[derive(Clone, Copy, Debug, PartialEq, Eq, Structural)]
pub enum ReportPeriod {
    Daily,
    Weekly,
    Monthly,
    Custom,
}

/// A milestone a student reached.
#[derive(Clone, Debug, PartialEq, Eq)]
pub struct Achievement {
    pub achievement_id: String,
    pub title: String,
    pub description: String,
    pub earned_date: u64,
    pub achievement_type: AchievementType,
}

/// What kind of milestone an achievement marks.
#[derive(Clone, Copy, Debug, PartialEq, Eq, Structural)]
pub enum AchievementType {
    Completion,
    Streak,
    Speed,
    Excellence,
    Consistency,
}

/// A course's activity on one day.
#[derive(Clone, Debug, PartialEq, Eq)]
pub struct AggregatedMetrics {
    pub course_id: String,
    pub date: u64,
    pub active_students: u32,
    pub total_sessions: u32,
    pub total_time: u64,
    pub completions: u32,
    pub average_score: Option<u32>,
}

/// A student's place on a leaderboard.
#[derive(Clone, Debug, PartialEq, Eq)]
pub struct LeaderboardEntry {
    pub student: Address,
    pub score: u32,
    pub rank: u32,
    pub course_id: String,
    pub metric_type: LeaderboardMetric,
}

/// What a leaderboard ranks by.
#[derive(Clone, Copy, Debug, PartialEq, Eq, Structural)]
pub enum LeaderboardMetric {
    CompletionSpeed,
    TotalScore,
    ConsistencyScore,
    TimeSpent,
}

/// Completion rates that separate the difficulty ratings.
#[derive(Clone, Copy, Debug, PartialEq, Eq, Structural)]
pub struct DifficultyThresholds {
    pub easy_completion_rate: u32,
    pub medium_completion_rate: u32,
    pub hard_completion_rate: u32,
}

/// Limits and thresholds of the analytics.
#[derive(Clone, Copy, Debug, PartialEq, Eq, Structural)]
pub struct AnalyticsConfig {
    pub min_session_time: u64,
    pub max_session_time: u64,
    pub streak_threshold: u64,
    pub active_threshold: u64,
    pub difficulty_thresholds: DifficultyThresholds,
    pub oracle_address: Option<Address>,
}

/// Sessions recorded together.
#[derive(Clone, Debug, PartialEq, Eq)]
pub struct BatchSessionUpdate {
    pub sessions: Vec<LearningSession>,
    pub update_analytics: bool,
    pub update_leaderboards: bool,
}

/// Which sessions a query selects.
#[derive(Clone, Debug, PartialEq, Eq)]
pub struct AnalyticsFilter {
    pub course_id: Option<String>,
    pub student: Option<Address>,
    pub start_date: Option<u64>,
    pub end_date: Option<u64>,
    pub session_type: OptionalSessionType,
    pub min_score: Option<u32>,
}

/// Either any session type or one given type.
#[derive(Clone, Copy, Debug, PartialEq, Eq, Structural)]
pub enum OptionalSessionType {
    Any,
    Only(SessionType),
}

/// What a learning insight is about.
#[derive(Clone, Copy, Debug, PartialEq, Eq, Structural)]
pub enum InsightType {
    PatternRecognition,
    CompletionPrediction,
    Recommendation,
    AnomalyDetection,
    EngagementPrediction,
    KnowledgeGapAnalysis,
    CollaborativeInsight,
    LearningPathOptimization,
    PerformanceForecast,
    AdaptiveRecommendation,
    ContentAnalysis,
    EffectivenessMetrics,
}

/// A learning insight about a student in a course.
#[derive(Clone, Debug, PartialEq, Eq)]
pub struct MLInsight {
    pub insight_id: Bytes32,
    pub student: Address,
    pub course_id: String,
    pub insight_type: InsightType,
    pub data: String,
    pub confidence: u32,
    pub timestamp: u64,
    pub model_version: u32,
    pub metadata: Vec<(String, String)>,
}

/// The lower and upper bounds of a forecast.
#[derive(Clone, Copy, Debug, PartialEq, Eq, Structural)]
pub struct ConfidenceInterval {
    pub lower: u32,
    pub upper: u32,
}

/// A forecast of a student's completion.
#[derive(Clone, Debug, PartialEq, Eq)]
pub struct PredictionMetrics {
    pub predicted_completion_date: u64,
    pub probability_of_completion: u32,
    pub risk_score: u32,
    pub estimated_remaining_hours: u32,
    pub confidence_interval: ConfidenceInterval,
    pub influencing_factors: Vec<String>,
    pub recommended_actions: Vec<String>,
}

/// A module recommended to a student.
#[derive(Clone, Debug, PartialEq, Eq)]
pub struct LearningRecommendation {
    pub target_module: String,
    pub reason: String,
    pub priority: u32,
    pub estimated_difficulty: u32,
    pub prerequisites: Vec<String>,
    pub learning_resources: Vec<String>,
    pub adaptive_path: bool,
}

/// An unusual pattern in a student's activity.
#[derive(Clone, Debug, PartialEq, Eq)]
pub struct AnomalyData {
    pub detected_at: u64,
    pub anomaly_score: u32,
    pub description: String,
    pub anomaly_type: AnomalyType,
    pub severity: AnomalySeverity,
    pub suggested_intervention: String,
}

/// Kinds of unusual activity.
#[derive(Clone, Copy, Debug, PartialEq, Eq, Structural)]
pub enum AnomalyType {
    EngagementDrop,
    PerformanceDecline,
    UnusualPace,
    SkippingContent,
    Overstudying,
    InconsistentPattern,
}

/// How serious an anomaly is.
#[derive(Clone, Copy, Debug, PartialEq, Eq, Structural)]
pub enum AnomalySeverity {
    Low,
    Medium,
    High,
    Critical,
}

/// How engaged a student is.
#[derive(Clone, Debug, PartialEq, Eq)]
pub struct EngagementMetrics {
    pub student: Address,
    pub course_id: String,
    pub engagement_score: u32,
    pub activity_frequency: u32,
    pub session_regularity: u32,
    pub interaction_quality: u32,
    pub predicted_engagement: u32,
    pub risk_of_dropout: u32,
    pub trend: EngagementTrend,
}

/// Which way engagement goes.
#[derive(Clone, Copy, Debug, PartialEq, Eq, Structural)]
pub enum EngagementTrend {
    Increasing,
    Stable,
    Decreasing,
    Fluctuating,
}

/// A topic a student has not mastered.
#[derive(Clone, Debug, PartialEq, Eq)]
pub struct KnowledgeGap {
    pub topic: String,
    pub gap_severity: u32,
    pub impact_on_progress: u32,
    pub remediation_priority: u32,
}

/// The topics a student has not mastered.
#[derive(Clone, Debug, PartialEq, Eq)]
pub struct KnowledgeGapAnalysis {
    pub student: Address,
    pub course_id: String,
    pub identified_gaps: Vec<KnowledgeGap>,
    pub mastery_level: u32,
    pub recommended_remediation: Vec<LearningRecommendation>,
    pub confidence_score: u32,
}

/// A student set against peers.
#[derive(Clone, Copy, Debug, PartialEq, Eq, Structural)]
pub struct PeerComparison {
    pub percentile_rank: u32,
    pub performance_vs_peers: i32,
    pub pace_vs_peers: i32,
    pub engagement_vs_peers: i32,
}

/// A chance to learn with peers.
#[derive(Clone, Debug, PartialEq, Eq)]
pub struct CollaborationOpportunity {
    pub opportunity_type: String,
    pub recommended_peers: Vec<Address>,
    pub mutual_benefit: String,
    pub confidence: u32,
}

/// How a student learns among peers.
#[derive(Clone, Debug, PartialEq, Eq)]
pub struct CollaborativeInsight {
    pub student: Address,
    pub course_id: String,
    pub peer_comparison_metrics: PeerComparison,
    pub collaboration_opportunities: Vec<CollaborationOpportunity>,
    pub social_learning_score: u32,
}

/// A reordered path through a course.
#[derive(Clone, Debug, PartialEq, Eq)]
pub struct LearningPathOptimization {
    pub student: Address,
    pub course_id: String,
    pub optimized_path: Vec<String>,
    pub estimated_time_savings: u32,
    pub difficulty_progression: Vec<u32>,
    pub adaptation_reason: String,
    pub confidence: u32,
}

/// How well a student learns.
#[derive(Clone, Debug, PartialEq, Eq)]
pub struct EffectivenessMetrics {
    pub student: Address,
    pub course_id: String,
    pub retention_score: u32,
    pub application_score: u32,
    pub critical_thinking_score: u32,
    pub overall_effectiveness: u32,
    pub improvement_areas: Vec<String>,
    pub strengths: Vec<String>,
}

/// What a piece of content demands.
#[derive(Clone, Debug, PartialEq, Eq)]
pub struct ContentAnalysis {
    pub content_id: String,
    pub complexity_score: u32,
    pub engagement_prediction: u32,
    pub completion_prediction: u32,
    pub content_tags: Vec<String>,
    pub prerequisites: Vec<String>,
    pub learning_objectives: Vec<String>,
}

impl View for LeaderboardMetric {
    type V = LeaderboardMetric;

    open spec fn view(&self) -> LeaderboardMetric {
        *self
    }
}

impl KeyEq for LeaderboardMetric {
    fn key_eq(&self, other: &Self) -> (r: bool) {
        *self == *other
    }
}

} // verus!
