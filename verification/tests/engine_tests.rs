use strellerminds::analytics::engine::AnalyticsEngine;
use strellerminds::analytics::types::InsightType;
use strellerminds::common::ids::Address;

#[test]
fn insight_ids_hold_time_then_sequence() {
    let id = AnalyticsEngine::generate_insight_id(10000, 0x0102_0304);
    let mut expected = [0u8; 32];
    expected[6] = 0x27;
    expected[7] = 0x10;
    expected[8..12].copy_from_slice(&[1, 2, 3, 4]);
    assert_eq!(id.data, expected);
    let full = AnalyticsEngine::generate_insight_id(u64::MAX, u32::MAX);
    assert!(full.data[..12].iter().all(|b| *b == 0xff));
    assert!(full.data[12..].iter().all(|b| *b == 0));
}

#[test]
fn every_analysis_reports_its_kind() {
    let student = Address { id: 5 };
    let course = "RUST101".to_string();
    let cases = vec![
        (AnalyticsEngine::analyze_learning_patterns(&student, &course, 10000, 3).unwrap(), InsightType::PatternRecognition, 75, "Learning pattern analysis completed"),
        (AnalyticsEngine::predict_completion_rates(&student, &course, 10000, 3).unwrap(), InsightType::CompletionPrediction, 70, "Completion prediction completed"),
        (AnalyticsEngine::generate_adaptive_recommendations(&student, &course, 10000, 3).unwrap(), InsightType::AdaptiveRecommendation, 80, "Adaptive recommendations generated"),
        (AnalyticsEngine::predict_engagement(&student, &course, 10000, 3).unwrap(), InsightType::EngagementPrediction, 72, "Engagement prediction completed"),
        (AnalyticsEngine::identify_knowledge_gaps(&student, &course, 10000, 3).unwrap(), InsightType::KnowledgeGapAnalysis, 78, "Knowledge gaps identified"),
        (AnalyticsEngine::analyze_collaborative_learning(&student, &course, 10000, 3).unwrap(), InsightType::CollaborativeInsight, 68, "Collaborative learning analysis completed"),
        (AnalyticsEngine::detect_advanced_anomalies(&student, &course, 10000, 3).unwrap(), InsightType::AnomalyDetection, 82, "Advanced anomaly detection completed"),
        (AnalyticsEngine::optimize_learning_path(&student, &course, 10000, 3).unwrap(), InsightType::LearningPathOptimization, 76, "Learning path optimization completed"),
        (AnalyticsEngine::calculate_effectiveness_metrics(&student, &course, 10000, 3).unwrap(), InsightType::EffectivenessMetrics, 74, "Effectiveness metrics calculated"),
    ];
    for (insight, kind, confidence, text) in cases {
        assert_eq!(insight.insight_type, kind);
        assert_eq!(insight.confidence, confidence);
        assert_eq!(insight.data, text);
        assert_eq!(insight.student, student);
        assert_eq!(insight.course_id, course);
        assert_eq!(insight.timestamp, 10000);
        assert_eq!(insight.model_version, 1);
        assert!(insight.metadata.is_empty());
        assert_eq!(insight.insight_id, AnalyticsEngine::generate_insight_id(10000, 3));
    }
}
