use strellerminds::analytics::errors::AnalyticsError;
use strellerminds::analytics::gas::{batch_record_events, get_metrics, record_event_optimized, BatchResult};
use strellerminds::analytics::reports::ReportGenerator;
use strellerminds::analytics::storage::{Analytics, AnalyticsStorage};
use strellerminds::analytics::types::{
    Achievement, AchievementType, AnalyticsFilter, LeaderboardMetric, LearningSession, OptionalSessionType, PerformanceTrend,
    ProgressAnalytics, ReportPeriod, SessionType,
};
use strellerminds::common::ids::{Address, Bytes32};

const DAY: u64 = 86400;
const T0: u64 = 10000;

fn s(x: &str) -> String {
    x.to_string()
}

fn session(n: u8, student: Address, course: &str, module: &str, start: u64, length: u64, pct: u32, score: Option<u32>) -> LearningSession {
    LearningSession {
        session_id: Bytes32::from_array([n; 32]),
        student,
        course_id: s(course),
        module_id: s(module),
        start_time: start,
        end_time: start + length,
        completion_percentage: pct,
        time_spent: length,
        interactions: 10,
        score,
        session_type: SessionType::Study,
    }
}

fn record(a: &mut Analytics, x: LearningSession) {
    let (student, course) = (x.student, x.course_id.clone());
    AnalyticsStorage::set_session(a, x);
    AnalyticsStorage::add_course_student(a, &course, &student);
}

fn progress(student: Address, course: &str, average_score: Option<u32>, streak_days: u32, total_sessions: u32) -> ProgressAnalytics {
    ProgressAnalytics {
        student,
        course_id: s(course),
        total_modules: 10,
        completed_modules: 1,
        completion_percentage: 10,
        total_time_spent: 7200,
        average_session_time: 1800,
        total_sessions,
        last_activity: T0,
        first_activity: T0,
        average_score,
        streak_days,
        performance_trend: PerformanceTrend::Stable,
    }
}

#[test]
fn progress_report_over_a_week() {
    let mut a = Analytics::new();
    let student = Address { id: 1 };
    for i in 0..3u8 {
        let start = T0 + i as u64 * DAY;
        record(&mut a, session(i, student, "RUST101", &format!("module_{}", i + 1), start, 1800, 100, Some(85)));
    }
    let end = T0 + 7 * DAY;
    let report = ReportGenerator::generate_progress_report(&mut a, &student, &s("RUST101"), ReportPeriod::Weekly, T0, end, 99).unwrap();
    assert_eq!(report.student, student);
    assert_eq!(report.course_id, s("RUST101"));
    assert_eq!(report.sessions_count, 3);
    assert_eq!(report.modules_completed, 3);
    assert_eq!(report.total_time, 5400);
    // Eight days counted from the first to the last, both included.
    assert_eq!(report.average_daily_time, 5400 / 8);
    assert_eq!(report.consistency_score, 300 / 8);
    assert_eq!(AnalyticsStorage::get_progress_report(&a, &student, &s("RUST101"), 99), Some(&report));
}

#[test]
fn progress_report_errors() {
    let mut a = Analytics::new();
    let student = Address { id: 1 };
    assert_eq!(
        ReportGenerator::generate_progress_report(&mut a, &student, &s("C"), ReportPeriod::Daily, 10, 10, 0),
        Err(AnalyticsError::InvalidTimeRange)
    );
    assert_eq!(
        ReportGenerator::generate_progress_report(&mut a, &student, &s("C"), ReportPeriod::Daily, 0, 10, 0),
        Err(AnalyticsError::InsufficientData)
    );
}

#[test]
fn consistency_never_exceeds_a_hundred_on_day_aligned_periods() {
    let mut a = Analytics::new();
    let student = Address { id: 1 };
    for i in 0..3u8 {
        record(&mut a, session(i, student, "C", "m", 2 * DAY + i as u64 * DAY, 60, 50, None));
    }
    let r = ReportGenerator::generate_progress_report(&mut a, &student, &s("C"), ReportPeriod::Custom, 2 * DAY, 4 * DAY + 60, 0).unwrap();
    assert_eq!(r.consistency_score, 100);
    assert_eq!(r.modules_completed, 0);
}

#[test]
fn consistency_is_capped_when_a_short_period_spans_two_days() {
    let mut a = Analytics::new();
    let student = Address { id: 1 };
    record(&mut a, session(1, student, "C", "m", 86000, 100, 50, None));
    record(&mut a, session(2, student, "C", "m", 86500, 100, 50, None));
    let r = ReportGenerator::generate_progress_report(&mut a, &student, &s("C"), ReportPeriod::Custom, 86000, 87000, 0).unwrap();
    assert_eq!(r.sessions_count, 2);
    assert_eq!(r.consistency_score, 100);
}

#[test]
fn report_lists_achievements_of_the_period() {
    let mut a = Analytics::new();
    let student = Address { id: 1 };
    record(&mut a, session(1, student, "C", "m", T0, 60, 100, None));
    let early = Achievement { achievement_id: s("a1"), title: s("First"), description: s("d"), earned_date: 5, achievement_type: AchievementType::Completion };
    let inside = Achievement { achievement_id: s("a2"), title: s("Streak"), description: s("d"), earned_date: T0 + 5, achievement_type: AchievementType::Streak };
    AnalyticsStorage::add_student_achievement(&mut a, &student, early);
    AnalyticsStorage::add_student_achievement(&mut a, &student, inside.clone());
    let r = ReportGenerator::generate_progress_report(&mut a, &student, &s("C"), ReportPeriod::Daily, T0, T0 + 100, 0).unwrap();
    assert_eq!(r.achievements, vec![inside]);
}

#[test]
fn leaderboard_by_total_score() {
    let mut a = Analytics::new();
    let (s1, s2, s3) = (Address { id: 1 }, Address { id: 2 }, Address { id: 3 });
    for (st, score) in [(s2, 85u32), (s1, 95), (s3, 75)] {
        AnalyticsStorage::add_course_student(&mut a, &s("RUST101"), &st);
        AnalyticsStorage::set_progress_analytics(&mut a, &st, &s("RUST101"), progress(st, "RUST101", Some(score), 0, 0));
    }
    let board = ReportGenerator::generate_leaderboard(&mut a, &s("RUST101"), LeaderboardMetric::TotalScore, 10).unwrap();
    assert_eq!(board.len(), 3);
    assert_eq!((board[0].student, board[0].rank, board[0].score), (s1, 1, 95));
    assert_eq!((board[1].student, board[1].rank, board[1].score), (s2, 2, 85));
    assert_eq!((board[2].student, board[2].rank, board[2].score), (s3, 3, 75));
    let top = ReportGenerator::generate_leaderboard(&mut a, &s("RUST101"), LeaderboardMetric::TotalScore, 1).unwrap();
    assert_eq!(top.len(), 1);
    assert_eq!(top[0].student, s1);
    assert_eq!(AnalyticsStorage::get_leaderboard(&a, &s("RUST101"), LeaderboardMetric::TotalScore), Some(&top));
}

#[test]
fn leaderboard_keeps_order_of_equal_scores() {
    let mut a = Analytics::new();
    let (s1, s2, s3) = (Address { id: 1 }, Address { id: 2 }, Address { id: 3 });
    for (st, streak, sessions) in [(s1, 1u32, 5u32), (s2, 2, 0), (s3, 1, 9)] {
        AnalyticsStorage::add_course_student(&mut a, &s("C"), &st);
        AnalyticsStorage::set_progress_analytics(&mut a, &st, &s("C"), progress(st, "C", None, streak, sessions));
    }
    let board = ReportGenerator::generate_leaderboard(&mut a, &s("C"), LeaderboardMetric::ConsistencyScore, 0).unwrap();
    let order: Vec<(u64, u32)> = board.iter().map(|e| (e.student.id, e.score)).collect();
    assert_eq!(order, vec![(2, 20), (1, 10), (3, 10)]);
    assert_eq!(
        ReportGenerator::generate_leaderboard(&mut a, &s("EMPTY"), LeaderboardMetric::TimeSpent, 5),
        Err(AnalyticsError::InsufficientData)
    );
}

#[test]
fn daily_metrics_of_a_course() {
    let mut a = Analytics::new();
    let (s1, s2) = (Address { id: 1 }, Address { id: 2 });
    record(&mut a, session(1, s1, "C", "m1", 3 * DAY + 100, 600, 100, Some(90)));
    record(&mut a, session(2, s1, "C", "m2", 3 * DAY + 5000, 300, 40, None));
    record(&mut a, session(3, s2, "C", "m1", 3 * DAY + 7000, 900, 100, Some(70)));
    record(&mut a, session(4, s2, "C", "m1", 4 * DAY + 10, 900, 100, Some(10)));
    let m = ReportGenerator::generate_daily_metrics(&mut a, &s("C"), 3 * DAY + 12345).unwrap();
    assert_eq!(m.date, 3 * DAY);
    assert_eq!(m.active_students, 2);
    assert_eq!(m.total_sessions, 3);
    assert_eq!(m.total_time, 1800);
    assert_eq!(m.completions, 2);
    assert_eq!(m.average_score, Some(80));
    assert_eq!(AnalyticsStorage::get_daily_metrics(&a, &s("C"), 3 * DAY), Some(&m));
    let week = ReportGenerator::generate_weekly_summary(&mut a, &s("C"), 3 * DAY).unwrap();
    assert_eq!(week.len(), 7);
    assert_eq!(week[1].total_sessions, 1);
    assert_eq!(week[2].total_sessions, 0);
    assert_eq!(week[2].average_score, None);
    let month = ReportGenerator::generate_monthly_summary(&mut a, &s("C"), 0, 30).unwrap();
    assert_eq!(month.len(), 30);
    assert_eq!(month[3], m);
}

#[test]
fn filtered_sessions() {
    let mut a = Analytics::new();
    let (s1, s2) = (Address { id: 1 }, Address { id: 2 });
    record(&mut a, session(1, s1, "C", "m1", 100, 50, 100, Some(90)));
    record(&mut a, session(2, s1, "C", "m2", 300, 50, 100, Some(40)));
    let mut practice = session(3, s2, "C", "m1", 500, 50, 100, Some(95));
    practice.session_type = SessionType::Practice;
    record(&mut a, practice.clone());
    let all = AnalyticsFilter { course_id: Some(s("C")), student: None, start_date: None, end_date: None, session_type: OptionalSessionType::Any, min_score: None };
    assert_eq!(ReportGenerator::get_filtered_analytics(&a, &all).unwrap().len(), 3);
    let good = AnalyticsFilter { min_score: Some(80), ..all.clone() };
    let ids: Vec<u8> = ReportGenerator::get_filtered_analytics(&a, &good).unwrap().iter().map(|x| x.session_id.data[0]).collect();
    assert_eq!(ids, vec![1, 3]);
    let only = AnalyticsFilter { session_type: OptionalSessionType::Only(SessionType::Practice), ..all.clone() };
    assert_eq!(ReportGenerator::get_filtered_analytics(&a, &only).unwrap(), vec![practice]);
    let one = AnalyticsFilter { student: Some(s1), start_date: Some(200), ..all.clone() };
    assert_eq!(ReportGenerator::get_filtered_analytics(&a, &one).unwrap().len(), 1);
    let none = AnalyticsFilter { course_id: None, ..all };
    assert!(ReportGenerator::get_filtered_analytics(&a, &none).unwrap().is_empty());
}

#[test]
fn events_update_the_counters() {
    let mut a = Analytics::new();
    let learner = Address { id: 7 };
    assert_eq!(record_event_optimized(&mut a, &learner, 0, 0, (0, 0), 1), None);
    assert_eq!(record_event_optimized(&mut a, &learner, 1, 300, (0, 0), 2), None);
    assert_eq!(record_event_optimized(&mut a, &learner, 2, 80, (0, 0), 3), Some((1, 80)));
    assert_eq!(record_event_optimized(&mut a, &learner, 2, 60, (1, 80), 4), Some((2, 70)));
    assert_eq!(record_event_optimized(&mut a, &learner, 9, 60, (2, 70), 5), None);
    let m = get_metrics(&a);
    assert_eq!((m.total_views, m.total_completions, m.total_time_secs), (1, 1, 300));
    assert_eq!(a.event_count, Some(5));
    assert_eq!(a.compact_events.get(&2).unwrap().value, 80);
}

#[test]
fn batch_of_events() {
    let mut a = Analytics::new();
    let learner = Address { id: 7 };
    let events = vec![(0u32, 0u64), (1, 100), (2, 90), (5, 1), (2, 70), (0, 0)];
    let (result, pair) = batch_record_events(&mut a, &learner, &events, (0, 0));
    assert_eq!(result, BatchResult { processed: 5, skipped: 1 });
    assert_eq!(pair, (2, 80));
    let m = get_metrics(&a);
    assert_eq!((m.total_views, m.total_completions, m.total_time_secs), (2, 1, 100));
    assert_eq!(BatchResult::new(), BatchResult { processed: 0, skipped: 0 });
}

#[test]
fn storage_defaults_and_codes() {
    let a = Analytics::new();
    let c = AnalyticsStorage::get_default_config();
    assert_eq!((c.min_session_time, c.max_session_time, c.streak_threshold, c.active_threshold), (60, 14400, 86400, 2592000));
    assert_eq!(c.oracle_address, None);
    assert_eq!(AnalyticsStorage::get_config(&a), None);
    assert_eq!(AnalyticsError::AlreadyInitialized.code(), 1);
    assert_eq!(AnalyticsError::InsufficientData.code(), 17);
    assert_eq!(AnalyticsError::InsightNotFound.code(), 23);
}

#[test]
fn course_students_are_listed_once() {
    let mut a = Analytics::new();
    AnalyticsStorage::add_course_student(&mut a, &s("C"), &Address { id: 1 });
    AnalyticsStorage::add_course_student(&mut a, &s("C"), &Address { id: 1 });
    AnalyticsStorage::add_course_student(&mut a, &s("C"), &Address { id: 2 });
    assert_eq!(AnalyticsStorage::get_course_students(&a, &s("C")).unwrap(), &vec![Address { id: 1 }, Address { id: 2 }]);
}

#[test]
fn leaderboard_reads_only_the_course_students() {
    let mut a = Analytics::new();
    let (s1, other) = (Address { id: 1 }, Address { id: 2 });
    // A record in another course whose consistency figure would overflow.
    AnalyticsStorage::set_progress_analytics(&mut a, &other, &s("OTHER"), progress(other, "OTHER", None, u32::MAX, 0));
    assert_eq!(
        ReportGenerator::generate_leaderboard(&mut a, &s("C"), LeaderboardMetric::ConsistencyScore, 0),
        Err(AnalyticsError::InsufficientData)
    );
    AnalyticsStorage::add_course_student(&mut a, &s("C"), &s1);
    AnalyticsStorage::set_progress_analytics(&mut a, &s1, &s("C"), progress(s1, "C", None, 3, 20));
    let board = ReportGenerator::generate_leaderboard(&mut a, &s("C"), LeaderboardMetric::ConsistencyScore, 0).unwrap();
    assert_eq!(board.len(), 1);
    assert_eq!((board[0].student, board[0].rank, board[0].score), (s1, 1, 32));
}

#[test]
fn progress_report_without_sessions_needs_no_day_count() {
    let mut a = Analytics::new();
    let student = Address { id: 1 };
    assert_eq!(
        ReportGenerator::generate_progress_report(&mut a, &student, &s("C"), ReportPeriod::Custom, 0, u64::MAX, 0),
        Err(AnalyticsError::InsufficientData)
    );
}
