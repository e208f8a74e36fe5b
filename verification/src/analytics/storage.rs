use vstd::prelude::*;
use crate::common::ids::{Address, Bytes32};
use crate::common::lists::{list_at, list_pushed, push_to_list, push_unique, seq_has};
use crate::common::table::Table;
use crate::analytics::types::{
    Achievement, AggregatedMetrics, AnalyticsConfig, CourseAnalytics, DifficultyThresholds, LeaderboardEntry,
    LeaderboardMetric, LearningSession, ModuleAnalytics, ProgressAnalytics, ProgressReport,
};

verus! {

/// The counters kept by the cost-conscious event recorder. The last field holds the
/// number of learners and their average score, packed into one word.
#[derive(Clone, Copy, Debug, PartialEq, Eq, Structural)]
pub struct PackedMetrics {
    pub total_views: u64,
    pub total_completions: u64,
    pub total_time_secs: u64,
    pub learners_and_score: u64,
}

/// One recorded event of the cost-conscious recorder.
#[derive(Clone, Copy, Debug, PartialEq, Eq, Structural)]
pub struct CompactEvent {
    pub learner: Address,
    pub event_type: u32,
    pub value: u64,
    pub ledger_seq: u32,
}

/// The whole state of the analytics contract.
pub struct Analytics {
    pub admin: Option<Address>,
    pub config: Option<AnalyticsConfig>,
    pub sessions: Table<Bytes32, LearningSession>,
    pub student_sessions: Table<(Address, String), Vec<Bytes32>>,
    pub progress: Table<(Address, String), ProgressAnalytics>,
    pub course_analytics: Table<String, CourseAnalytics>,
    pub course_students: Table<String, Vec<Address>>,
    pub module_analytics: Table<(String, String), ModuleAnalytics>,
    pub reports: Table<(Address, String, u64), ProgressReport>,
    pub daily_metrics: Table<(String, u64), AggregatedMetrics>,
    pub achievements: Table<Address, Vec<Achievement>>,
    pub leaderboards: Table<(String, LeaderboardMetric), Vec<LeaderboardEntry>>,
    pub metrics: Option<PackedMetrics>,
    pub event_count: Option<u32>,
    pub compact_events: Table<u64, CompactEvent>,
}

impl Analytics {
    /// The state of a contract that has just been deployed.
    pub fn new() -> (r: Analytics)
        ensures
            r.admin.is_none(),
            r.config.is_none(),
            r.sessions@ == Map::<Seq<u8>, LearningSession>::empty(),
            r.student_sessions@ == Map::<(u64, Seq<char>), Vec<Bytes32>>::empty(),
            r.progress@ == Map::<(u64, Seq<char>), ProgressAnalytics>::empty(),
            r.course_analytics@ == Map::<Seq<char>, CourseAnalytics>::empty(),
            r.course_students@ == Map::<Seq<char>, Vec<Address>>::empty(),
            r.module_analytics@ == Map::<(Seq<char>, Seq<char>), ModuleAnalytics>::empty(),
            r.reports@ == Map::<(u64, Seq<char>, u64), ProgressReport>::empty(),
            r.daily_metrics@ == Map::<(Seq<char>, u64), AggregatedMetrics>::empty(),
            r.achievements@ == Map::<u64, Vec<Achievement>>::empty(),
            r.leaderboards@ == Map::<(Seq<char>, LeaderboardMetric), Vec<LeaderboardEntry>>::empty(),
            r.metrics.is_none(),
            r.event_count.is_none(),
            r.compact_events@ == Map::<u64, CompactEvent>::empty(),
    {
        Analytics {
            admin: None,
            config: None,
            sessions: Table::new(),
            student_sessions: Table::new(),
            progress: Table::new(),
            course_analytics: Table::new(),
            course_students: Table::new(),
            module_analytics: Table::new(),
            reports: Table::new(),
            daily_metrics: Table::new(),
            achievements: Table::new(),
            leaderboards: Table::new(),
            metrics: None,
            event_count: None,
            compact_events: Table::new(),
        }
    }

    /// Accepts an admin; nothing is stored.
    pub fn initialize(&mut self, admin: Address) -> (r: Result<(), ()>)
        ensures
            r is Ok,
            *final(self) == *old(self),
    {
        Ok(())
    }

    /// Accepts a session id; nothing is stored.
    pub fn record_session(&mut self, session_id: Bytes32) -> (r: Result<(), ()>)
        ensures
            r is Ok,
            *final(self) == *old(self),
    {
        Ok(())
    }

    /// Accepts a session id; nothing is stored.
    pub fn complete_session(&mut self, session_id: Bytes32) -> (r: Result<(), ()>)
        ensures
            r is Ok,
            *final(self) == *old(self),
    {
        Ok(())
    }

    /// Hands the session id back.
    pub fn get_session(&self, session_id: Bytes32) -> (r: Option<Bytes32>)
        ensures
            r == Some(session_id),
    {
        Some(session_id)
    }

    /// No admin is reported.
    pub fn get_admin(&self) -> (r: Option<Address>)
        ensures
            r is None,
    {
        None
    }
}

/// Storage helpers of the analytics contract.
pub struct AnalyticsStorage;

impl AnalyticsStorage {
    /// Stores a session and appends its id to the student's list for its course.
    pub fn set_session(a: &mut Analytics, session: LearningSession)
        ensures
            final(a).sessions@ == old(a).sessions@.insert(session.session_id@, session),
            list_pushed(old(a).student_sessions@, final(a).student_sessions@,
                (session.student.id, session.course_id@), session.session_id),
            *final(a) == (Analytics { sessions: final(a).sessions, student_sessions: final(a).student_sessions, ..*old(a) }),
    {
        let id = session.session_id;
        let key = (session.student, session.course_id.clone());
        a.sessions.set(id, session);
        push_to_list(&mut a.student_sessions, key, id);
    }

    pub fn get_session<'a>(a: &'a Analytics, session_id: &Bytes32) -> (r: Option<&'a LearningSession>)
        ensures
            match r {
                Some(s) => a.sessions@.contains_key(session_id@) && *s == a.sessions@[session_id@],
                None => !a.sessions@.contains_key(session_id@),
            },
    {
        a.sessions.get(session_id)
    }

    /// Appends a session id to a student's list for a course.
    pub fn add_student_session(a: &mut Analytics, student: &Address, course_id: &String, session_id: &Bytes32)
        ensures
            list_pushed(old(a).student_sessions@, final(a).student_sessions@, (student.id, course_id@), *session_id),
            *final(a) == (Analytics { student_sessions: final(a).student_sessions, ..*old(a) }),
    {
        push_to_list(&mut a.student_sessions, (*student, course_id.clone()), *session_id);
    }

    /// The ids of a student's sessions in a course, in the order they were stored.
    pub fn get_student_sessions<'a>(a: &'a Analytics, student: &Address, course_id: &String) -> (r: Option<&'a Vec<Bytes32>>)
        ensures
            match r {
                Some(v) => v@ == list_at(a.student_sessions@, (student.id, course_id@)),
                None => list_at(a.student_sessions@, (student.id, course_id@)) == Seq::<Bytes32>::empty(),
            },
    {
        a.student_sessions.get(&(*student, course_id.clone()))
    }

    pub fn set_progress_analytics(a: &mut Analytics, student: &Address, course_id: &String, analytics: ProgressAnalytics)
        ensures
            final(a).progress@ == old(a).progress@.insert((student.id, course_id@), analytics),
            *final(a) == (Analytics { progress: final(a).progress, ..*old(a) }),
    {
        a.progress.set((*student, course_id.clone()), analytics);
    }

    pub fn get_progress_analytics<'a>(a: &'a Analytics, student: &Address, course_id: &String) -> (r: Option<&'a ProgressAnalytics>)
        ensures
            match r {
                Some(p) => a.progress@.contains_key((student.id, course_id@)) && *p == a.progress@[(student.id, course_id@)],
                None => !a.progress@.contains_key((student.id, course_id@)),
            },
    {
        a.progress.get(&(*student, course_id.clone()))
    }

    pub fn set_course_analytics(a: &mut Analytics, course_id: &String, analytics: CourseAnalytics)
        ensures
            final(a).course_analytics@ == old(a).course_analytics@.insert(course_id@, analytics),
            *final(a) == (Analytics { course_analytics: final(a).course_analytics, ..*old(a) }),
    {
        a.course_analytics.set(course_id.clone(), analytics);
    }

    pub fn get_course_analytics<'a>(a: &'a Analytics, course_id: &String) -> (r: Option<&'a CourseAnalytics>)
        ensures
            match r {
                Some(x) => a.course_analytics@.contains_key(course_id@) && *x == a.course_analytics@[course_id@],
                None => !a.course_analytics@.contains_key(course_id@),
            },
    {
        a.course_analytics.get(course_id)
    }

    /// Enrols a student in a course's list, once.
    pub fn add_course_student(a: &mut Analytics, course_id: &String, student: &Address)
        ensures
            seq_has(list_at(old(a).course_students@, course_id@), student.id)
                ==> final(a).course_students@ == old(a).course_students@,
            !seq_has(list_at(old(a).course_students@, course_id@), student.id)
                ==> list_pushed(old(a).course_students@, final(a).course_students@, course_id@, *student),
            *final(a) == (Analytics { course_students: final(a).course_students, ..*old(a) }),
    {
        push_unique(&mut a.course_students, course_id.clone(), *student);
    }

    /// The students of a course, in the order they were enrolled.
    pub fn get_course_students<'a>(a: &'a Analytics, course_id: &String) -> (r: Option<&'a Vec<Address>>)
        ensures
            match r {
                Some(v) => v@ == list_at(a.course_students@, course_id@),
                None => list_at(a.course_students@, course_id@) == Seq::<Address>::empty(),
            },
    {
        a.course_students.get(course_id)
    }

    pub fn set_module_analytics(a: &mut Analytics, course_id: &String, module_id: &String, analytics: ModuleAnalytics)
        ensures
            final(a).module_analytics@ == old(a).module_analytics@.insert((course_id@, module_id@), analytics),
            *final(a) == (Analytics { module_analytics: final(a).module_analytics, ..*old(a) }),
    {
        a.module_analytics.set((course_id.clone(), module_id.clone()), analytics);
    }

    pub fn get_module_analytics<'a>(a: &'a Analytics, course_id: &String, module_id: &String) -> (r: Option<&'a ModuleAnalytics>)
        ensures
            match r {
                Some(x) => a.module_analytics@.contains_key((course_id@, module_id@))
                    && *x == a.module_analytics@[(course_id@, module_id@)],
                None => !a.module_analytics@.contains_key((course_id@, module_id@)),
            },
    {
        a.module_analytics.get(&(course_id.clone(), module_id.clone()))
    }

    pub fn set_progress_report(a: &mut Analytics, student: &Address, course_id: &String, timestamp: u64, report: ProgressReport)
        ensures
            final(a).reports@ == old(a).reports@.insert((student.id, course_id@, timestamp), report),
            *final(a) == (Analytics { reports: final(a).reports, ..*old(a) }),
    {
        a.reports.set((*student, course_id.clone(), timestamp), report);
    }

    pub fn get_progress_report<'a>(a: &'a Analytics, student: &Address, course_id: &String, timestamp: u64) -> (r: Option<&'a ProgressReport>)
        ensures
            match r {
                Some(x) => a.reports@.contains_key((student.id, course_id@, timestamp))
                    && *x == a.reports@[(student.id, course_id@, timestamp)],
                None => !a.reports@.contains_key((student.id, course_id@, timestamp)),
            },
    {
        a.reports.get(&(*student, course_id.clone(), timestamp))
    }

    pub fn set_daily_metrics(a: &mut Analytics, course_id: &String, date: u64, metrics: AggregatedMetrics)
        ensures
            final(a).daily_metrics@ == old(a).daily_metrics@.insert((course_id@, date), metrics),
            *final(a) == (Analytics { daily_metrics: final(a).daily_metrics, ..*old(a) }),
    {
        a.daily_metrics.set((course_id.clone(), date), metrics);
    }

    pub fn get_daily_metrics<'a>(a: &'a Analytics, course_id: &String, date: u64) -> (r: Option<&'a AggregatedMetrics>)
        ensures
            match r {
                Some(x) => a.daily_metrics@.contains_key((course_id@, date)) && *x == a.daily_metrics@[(course_id@, date)],
                None => !a.daily_metrics@.contains_key((course_id@, date)),
            },
    {
        a.daily_metrics.get(&(course_id.clone(), date))
    }

    pub fn set_student_achievements(a: &mut Analytics, student: &Address, achievements: Vec<Achievement>)
        ensures
            final(a).achievements@ == old(a).achievements@.insert(student.id, achievements),
            *final(a) == (Analytics { achievements: final(a).achievements, ..*old(a) }),
    {
        a.achievements.set(*student, achievements);
    }

    /// A student's achievements, oldest first.
    pub fn get_student_achievements<'a>(a: &'a Analytics, student: &Address) -> (r: Option<&'a Vec<Achievement>>)
        ensures
            match r {
                Some(v) => v@ == list_at(a.achievements@, student.id),
                None => list_at(a.achievements@, student.id) == Seq::<Achievement>::empty(),
            },
    {
        a.achievements.get(student)
    }

    /// Appends an achievement to a student's list.
    pub fn add_student_achievement(a: &mut Analytics, student: &Address, achievement: Achievement)
        ensures
            list_pushed(old(a).achievements@, final(a).achievements@, student.id, achievement),
            *final(a) == (Analytics { achievements: final(a).achievements, ..*old(a) }),
    {
        push_to_list(&mut a.achievements, *student, achievement);
    }

    pub fn set_leaderboard(a: &mut Analytics, course_id: &String, metric: LeaderboardMetric, entries: Vec<LeaderboardEntry>)
        ensures
            final(a).leaderboards@ == old(a).leaderboards@.insert((course_id@, metric), entries),
            *final(a) == (Analytics { leaderboards: final(a).leaderboards, ..*old(a) }),
    {
        a.leaderboards.set((course_id.clone(), metric), entries);
    }

    /// A course's leaderboard by one metric.
    pub fn get_leaderboard<'a>(a: &'a Analytics, course_id: &String, metric: LeaderboardMetric) -> (r: Option<&'a Vec<LeaderboardEntry>>)
        ensures
            match r {
                Some(v) => v@ == list_at(a.leaderboards@, (course_id@, metric)),
                None => list_at(a.leaderboards@, (course_id@, metric)) == Seq::<LeaderboardEntry>::empty(),
            },
    {
        a.leaderboards.get(&(course_id.clone(), metric))
    }

    pub fn set_config(a: &mut Analytics, config: AnalyticsConfig)
        ensures
            *final(a) == (Analytics { config: Some(config), ..*old(a) }),
    {
        a.config = Some(config);
    }

    pub fn get_config(a: &Analytics) -> (r: Option<AnalyticsConfig>)
        ensures
            r == a.config,
    {
        a.config
    }

    pub fn set_admin(a: &mut Analytics, admin: &Address)
        ensures
            *final(a) == (Analytics { admin: Some(*admin), ..*old(a) }),
    {
        a.admin = Some(*admin);
    }

    pub fn get_admin(a: &Analytics) -> (r: Option<Address>)
        ensures
            r == a.admin,
    {
        a.admin
    }

    pub fn has_session(a: &Analytics, session_id: &Bytes32) -> (r: bool)
        ensures
            r == a.sessions@.contains_key(session_id@),
    {
        a.sessions.contains_key(session_id)
    }

    pub fn has_progress_analytics(a: &Analytics, student: &Address, course_id: &String) -> (r: bool)
        ensures
            r == a.progress@.contains_key((student.id, course_id@)),
    {
        a.progress.contains_key(&(*student, course_id.clone()))
    }

    /// Forgets a session; the student's list of ids keeps its id.
    pub fn remove_session(a: &mut Analytics, session_id: &Bytes32)
        ensures
            final(a).sessions@ == old(a).sessions@.remove(session_id@),
            *final(a) == (Analytics { sessions: final(a).sessions, ..*old(a) }),
    {
        let _ = a.sessions.remove(session_id);
    }

    /// The configuration used when none is stored.
    pub fn get_default_config() -> (r: AnalyticsConfig)
        ensures
            r == (AnalyticsConfig {
                min_session_time: 60,
                max_session_time: 14400,
                streak_threshold: 86400,
                active_threshold: 2592000,
                difficulty_thresholds: DifficultyThresholds {
                    easy_completion_rate: 80,
                    medium_completion_rate: 60,
                    hard_completion_rate: 40,
                },
                oracle_address: None,
            }),
    {
        AnalyticsConfig {
            min_session_time: 60,
            max_session_time: 14400,
            streak_threshold: 86400,
            active_threshold: 2592000,
            difficulty_thresholds: DifficultyThresholds {
                easy_completion_rate: 80,
                medium_completion_rate: 60,
                hard_completion_rate: 40,
            },
            oracle_address: None,
        }
    }
}

} // verus!
