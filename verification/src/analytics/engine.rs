use vstd::prelude::*;
use crate::common::ids::{Address, Bytes32};
use crate::analytics::errors::AnalyticsError;
use crate::analytics::types::{InsightType, MLInsight};

verus! {

/// The eight bytes of `t`, most significant first.
pub open spec fn be_bytes_u64(t: u64) -> Seq<u8> {
    seq![
        (t >> 56u64) as u8, (t >> 48u64) as u8, (t >> 40u64) as u8, (t >> 32u64) as u8,
        (t >> 24u64) as u8, (t >> 16u64) as u8, (t >> 8u64) as u8, t as u8,
    ]
}

/// The four bytes of `s`, most significant first.
pub open spec fn be_bytes_u32(s: u32) -> Seq<u8> {
    seq![(s >> 24u32) as u8, (s >> 16u32) as u8, (s >> 8u32) as u8, s as u8]
}

/// The identifier of an insight made at ledger time `timestamp` and ledger sequence
/// `sequence`: the time's bytes, the sequence's bytes, then zeros.
pub open spec fn insight_id_bytes(timestamp: u64, sequence: u32) -> Seq<u8> {
    be_bytes_u64(timestamp) + be_bytes_u32(sequence) + Seq::new(20, |i: int| 0u8)
}

/// `r` is the insight of the given kind, text and confidence about a student in a course,
/// made at `timestamp` and `sequence` by the first model version.
pub open spec fn is_insight(
    r: MLInsight,
    student: Address,
    course_id: String,
    kind: InsightType,
    data: Seq<char>,
    confidence: u32,
    timestamp: u64,
    sequence: u32,
) -> bool {
    &&& r.insight_id@ == insight_id_bytes(timestamp, sequence)
    &&& r.student == student
    &&& r.course_id@ == course_id@
    &&& r.insight_type == kind
    &&& r.data@ == data
    &&& r.confidence == confidence
    &&& r.timestamp == timestamp
    &&& r.model_version == 1
    &&& r.metadata@.len() == 0
}

/// Learning insights about a student in a course, each made at a ledger time and
/// sequence number.
pub struct AnalyticsEngine;

impl AnalyticsEngine {
    /// The identifier of an insight made at the given ledger time and sequence number.
    pub fn generate_insight_id(timestamp: u64, sequence: u32) -> (r: Bytes32)
        ensures
            r@ == insight_id_bytes(timestamp, sequence),
    {
        let t = timestamp;
        let s = sequence;
        let r = Bytes32 {
            data: [
                (t >> 56u64) as u8, (t >> 48u64) as u8, (t >> 40u64) as u8, (t >> 32u64) as u8,
                (t >> 24u64) as u8, (t >> 16u64) as u8, (t >> 8u64) as u8, t as u8,
                (s >> 24u32) as u8, (s >> 16u32) as u8, (s >> 8u32) as u8, s as u8,
                0, 0, 0, 0, 0, 0, 0, 0, 0, 0, 0, 0, 0, 0, 0, 0, 0, 0, 0, 0,
            ],
        };
        assert(r@ =~= insight_id_bytes(timestamp, sequence));
        r
    }

    fn insight(
        student: &Address,
        course_id: &String,
        kind: InsightType,
        data: String,
        confidence: u32,
        timestamp: u64,
        sequence: u32,
    ) -> (r: MLInsight)
        ensures
            is_insight(r, *student, *course_id, kind, data@, confidence, timestamp, sequence),
    {
        MLInsight {
            insight_id: Self::generate_insight_id(timestamp, sequence),
            student: *student,
            course_id: course_id.clone(),
            insight_type: kind,
            data,
            confidence,
            timestamp,
            model_version: 1,
            metadata: Vec::new(),
        }
    }

    /// Analyses a student's learning patterns.
    pub fn analyze_learning_patterns(student: &Address, course_id: &String, timestamp: u64, sequence: u32) -> (r: Result<MLInsight, AnalyticsError>)
        ensures
            r is Ok,
            is_insight(r->Ok_0, *student, *course_id, InsightType::PatternRecognition,
                "Learning pattern analysis completed"@, 75, timestamp, sequence),
    {
        let data = String::from_str("Learning pattern analysis completed");
        Ok(Self::insight(student, course_id, InsightType::PatternRecognition, data, 75, timestamp, sequence))
    }

    /// Predicts how likely the student is to complete the course.
    pub fn predict_completion_rates(student: &Address, course_id: &String, timestamp: u64, sequence: u32) -> (r: Result<MLInsight, AnalyticsError>)
        ensures
            r is Ok,
            is_insight(r->Ok_0, *student, *course_id, InsightType::CompletionPrediction,
                "Completion prediction completed"@, 70, timestamp, sequence),
    {
        let data = String::from_str("Completion prediction completed");
        Ok(Self::insight(student, course_id, InsightType::CompletionPrediction, data, 70, timestamp, sequence))
    }

    /// Recommends how the student's course should adapt.
    pub fn generate_adaptive_recommendations(student: &Address, course_id: &String, timestamp: u64, sequence: u32) -> (r: Result<MLInsight, AnalyticsError>)
        ensures
            r is Ok,
            is_insight(r->Ok_0, *student, *course_id, InsightType::AdaptiveRecommendation,
                "Adaptive recommendations generated"@, 80, timestamp, sequence),
    {
        let data = String::from_str("Adaptive recommendations generated");
        Ok(Self::insight(student, course_id, InsightType::AdaptiveRecommendation, data, 80, timestamp, sequence))
    }

    /// Predicts the student's engagement.
    pub fn predict_engagement(student: &Address, course_id: &String, timestamp: u64, sequence: u32) -> (r: Result<MLInsight, AnalyticsError>)
        ensures
            r is Ok,
            is_insight(r->Ok_0, *student, *course_id, InsightType::EngagementPrediction,
                "Engagement prediction completed"@, 72, timestamp, sequence),
    {
        let data = String::from_str("Engagement prediction completed");
        Ok(Self::insight(student, course_id, InsightType::EngagementPrediction, data, 72, timestamp, sequence))
    }

    /// Finds the gaps in the student's knowledge.
    pub fn identify_knowledge_gaps(student: &Address, course_id: &String, timestamp: u64, sequence: u32) -> (r: Result<MLInsight, AnalyticsError>)
        ensures
            r is Ok,
            is_insight(r->Ok_0, *student, *course_id, InsightType::KnowledgeGapAnalysis,
                "Knowledge gaps identified"@, 78, timestamp, sequence),
    {
        let data = String::from_str("Knowledge gaps identified");
        Ok(Self::insight(student, course_id, InsightType::KnowledgeGapAnalysis, data, 78, timestamp, sequence))
    }

    /// Analyses how the student learns with peers.
    pub fn analyze_collaborative_learning(student: &Address, course_id: &String, timestamp: u64, sequence: u32) -> (r: Result<MLInsight, AnalyticsError>)
        ensures
            r is Ok,
            is_insight(r->Ok_0, *student, *course_id, InsightType::CollaborativeInsight,
                "Collaborative learning analysis completed"@, 68, timestamp, sequence),
    {
        let data = String::from_str("Collaborative learning analysis completed");
        Ok(Self::insight(student, course_id, InsightType::CollaborativeInsight, data, 68, timestamp, sequence))
    }

    /// Looks for anomalies in the student's activity.
    pub fn detect_advanced_anomalies(student: &Address, course_id: &String, timestamp: u64, sequence: u32) -> (r: Result<MLInsight, AnalyticsError>)
        ensures
            r is Ok,
            is_insight(r->Ok_0, *student, *course_id, InsightType::AnomalyDetection,
                "Advanced anomaly detection completed"@, 82, timestamp, sequence),
    {
        let data = String::from_str("Advanced anomaly detection completed");
        Ok(Self::insight(student, course_id, InsightType::AnomalyDetection, data, 82, timestamp, sequence))
    }

    /// Proposes a better order of the course's material.
    pub fn optimize_learning_path(student: &Address, course_id: &String, timestamp: u64, sequence: u32) -> (r: Result<MLInsight, AnalyticsError>)
        ensures
            r is Ok,
            is_insight(r->Ok_0, *student, *course_id, InsightType::LearningPathOptimization,
                "Learning path optimization completed"@, 76, timestamp, sequence),
    {
        let data = String::from_str("Learning path optimization completed");
        Ok(Self::insight(student, course_id, InsightType::LearningPathOptimization, data, 76, timestamp, sequence))
    }

    /// Measures how effective the student's learning is.
    pub fn calculate_effectiveness_metrics(student: &Address, course_id: &String, timestamp: u64, sequence: u32) -> (r: Result<MLInsight, AnalyticsError>)
        ensures
            r is Ok,
            is_insight(r->Ok_0, *student, *course_id, InsightType::EffectivenessMetrics,
                "Effectiveness metrics calculated"@, 74, timestamp, sequence),
    {
        let data = String::from_str("Effectiveness metrics calculated");
        Ok(Self::insight(student, course_id, InsightType::EffectivenessMetrics, data, 74, timestamp, sequence))
    }
}

} // verus!
