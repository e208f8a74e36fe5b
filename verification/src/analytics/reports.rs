use vstd::prelude::*;
use crate::common::ids::{Address, Bytes32};
use crate::common::lists::list_at;
use crate::certificate::prerequisites::{course_set, course_views, distinct_courses, lemma_distinct_len};
use crate::analytics::errors::AnalyticsError;
use crate::analytics::storage::{Analytics, AnalyticsStorage};
use crate::analytics::types::{
    ProgressAnalytics, Achievement, AggregatedMetrics, AnalyticsFilter, LeaderboardEntry, LeaderboardMetric, LearningSession,
    OptionalSessionType, ProgressReport, ReportPeriod,
};

verus! {

/// Seconds in a day.
pub const DAY: u64 = 86400;

/// The stored sessions that `ids` name and that lie within `[start, end]`, in order.
pub open spec fn sessions_within(ids: Seq<Bytes32>, m: Map<Seq<u8>, LearningSession>, start: u64, end: u64) -> Seq<LearningSession>
    decreases ids.len(),
{
    if ids.len() == 0 {
        Seq::empty()
    } else {
        let rest = sessions_within(ids.drop_last(), m, start, end);
        let k = ids.last()@;
        if m.contains_key(k) && m[k].start_time >= start && m[k].end_time <= end {
            rest.push(m[k])
        } else {
            rest
        }
    }
}

/// The time spent over sessions.
pub open spec fn time_total(ss: Seq<LearningSession>) -> int
    decreases ss.len(),
{
    if ss.len() == 0 { 0 } else { time_total(ss.drop_last()) + ss.last().time_spent }
}

/// The modules that some session completed.
pub open spec fn completed_module_set(ss: Seq<LearningSession>) -> Set<Seq<char>> {
    Set::new(|x: Seq<char>| exists|i: int| 0 <= i < ss.len() && ss[i].completion_percentage == 100
        && #[trigger] ss[i].module_id@ == x)
}

/// The days on which some session started.
pub open spec fn active_day_set(ss: Seq<LearningSession>) -> Set<u64> {
    Set::new(|d: u64| exists|i: int| 0 <= i < ss.len() && #[trigger] (ss[i].start_time / DAY) == d)
}

/// The days a period spans, both ends counted.
pub open spec fn period_days(start: u64, end: u64) -> int {
    (end - start) / (DAY as int) + 1
}

/// The share of a period's days, in percent, on which some session started, before capping.
pub open spec fn raw_consistency(ss: Seq<LearningSession>, start: u64, end: u64) -> u32 {
    if ss.len() == 0 {
        0
    } else {
        ((active_day_set(ss).len() * 100) as u32 / (period_days(start, end) as u32)) as u32
    }
}

/// The consistency score: the share of active days, in percent, capped at a hundred (a period
/// shorter than a day can touch two calendar days).
pub open spec fn consistency_of(ss: Seq<LearningSession>, start: u64, end: u64) -> u32 {
    let raw = raw_consistency(ss, start, end);
    if raw > 100 { 100 } else { raw }
}

/// The achievements earned within `[start, end]`, in order.
pub open spec fn achievements_within(a: Seq<Achievement>, start: u64, end: u64) -> Seq<Achievement>
    decreases a.len(),
{
    if a.len() == 0 {
        Seq::empty()
    } else {
        let rest = achievements_within(a.drop_last(), start, end);
        if a.last().earned_date >= start && a.last().earned_date <= end { rest.push(a.last()) } else { rest }
    }
}

/// Two reports say the same.
pub open spec fn same_report(a: ProgressReport, b: ProgressReport) -> bool {
    &&& a.student == b.student
    &&& a.course_id == b.course_id
    &&& a.report_period == b.report_period
    &&& a.start_date == b.start_date
    &&& a.end_date == b.end_date
    &&& a.sessions_count == b.sessions_count
    &&& a.total_time == b.total_time
    &&& a.modules_completed == b.modules_completed
    &&& a.average_daily_time == b.average_daily_time
    &&& a.consistency_score == b.consistency_score
    &&& a.achievements@ == b.achievements@
}

/// A copy of a session.
pub fn copy_session(s: &LearningSession) -> (r: LearningSession)
    ensures
        r == *s,
{
    LearningSession {
        session_id: s.session_id,
        student: s.student,
        course_id: s.course_id.clone(),
        module_id: s.module_id.clone(),
        start_time: s.start_time,
        end_time: s.end_time,
        completion_percentage: s.completion_percentage,
        time_spent: s.time_spent,
        interactions: s.interactions,
        score: s.score,
        session_type: s.session_type,
    }
}

/// A copy of an achievement.
pub fn copy_achievement(a: &Achievement) -> (r: Achievement)
    ensures
        r == *a,
{
    Achievement {
        achievement_id: a.achievement_id.clone(),
        title: a.title.clone(),
        description: a.description.clone(),
        earned_date: a.earned_date,
        achievement_type: a.achievement_type,
    }
}

fn copy_achievements(v: &Vec<Achievement>) -> (r: Vec<Achievement>)
    ensures
        r@ == v@,
{
    let mut out: Vec<Achievement> = Vec::new();
    let mut i: usize = 0;
    while i < v.len()
        invariant
            0 <= i <= v@.len(),
            out@ == v@.take(i as int),
        decreases v@.len() - i,
    {
        out.push(copy_achievement(&v[i]));
        proof {
            assert(v@.take(i + 1) =~= v@.take(i as int).push(v@[i as int]));
        }
        i = i + 1;
    }
    assert(v@.take(v@.len() as int) =~= v@);
    out
}

proof fn lemma_time_total_prefix(ss: Seq<LearningSession>, i: int)
    requires
        0 <= i <= ss.len(),
    ensures
        0 <= time_total(ss.take(i)) <= time_total(ss),
    decreases ss.len(),
{
    if ss.len() > 0 {
        if i == ss.len() {
            assert(ss.take(i) =~= ss);
            lemma_time_total_prefix(ss.drop_last(), i - 1);
            assert(ss.drop_last().take(i - 1) =~= ss.drop_last());
        } else {
            lemma_time_total_prefix(ss.drop_last(), i);
            assert(ss.drop_last().take(i) =~= ss.take(i));
        }
    }
}

proof fn lemma_distinct_days_len(days: Seq<u64>)
    requires
        days.no_duplicates(),
    ensures
        days.to_set().len() == days.len(),
{
    days.unique_seq_to_set();
}

/// The stored sessions that `ids` name and that started on the day beginning at `day_start`.
pub open spec fn sessions_on_day(ids: Seq<Bytes32>, m: Map<Seq<u8>, LearningSession>, day_start: u64) -> Seq<LearningSession>
    decreases ids.len(),
{
    if ids.len() == 0 {
        Seq::empty()
    } else {
        let rest = sessions_on_day(ids.drop_last(), m, day_start);
        let k = ids.last()@;
        if m.contains_key(k) && m[k].start_time >= day_start && m[k].start_time < day_start + DAY {
            rest.push(m[k])
        } else {
            rest
        }
    }
}

/// The sessions of a course's students that started on a day, student by student.
pub open spec fn course_day_sessions(
    lists: Map<(u64, Seq<char>), Vec<Bytes32>>,
    m: Map<Seq<u8>, LearningSession>,
    course: Seq<char>,
    students: Seq<Address>,
    day_start: u64,
) -> Seq<LearningSession>
    decreases students.len(),
{
    if students.len() == 0 {
        Seq::empty()
    } else {
        course_day_sessions(lists, m, course, students.drop_last(), day_start)
            + sessions_on_day(list_at(lists, (students.last().id, course)), m, day_start)
    }
}

/// How many of the students have a session that started on the day.
pub open spec fn active_count(
    lists: Map<(u64, Seq<char>), Vec<Bytes32>>,
    m: Map<Seq<u8>, LearningSession>,
    course: Seq<char>,
    students: Seq<Address>,
    day_start: u64,
) -> int
    decreases students.len(),
{
    if students.len() == 0 {
        0
    } else {
        active_count(lists, m, course, students.drop_last(), day_start)
            + if sessions_on_day(list_at(lists, (students.last().id, course)), m, day_start).len() > 0 { 1int } else { 0int }
    }
}

/// How many sessions completed their module.
pub open spec fn completion_count(ss: Seq<LearningSession>) -> int
    decreases ss.len(),
{
    if ss.len() == 0 {
        0
    } else {
        completion_count(ss.drop_last()) + if ss.last().completion_percentage == 100 { 1int } else { 0int }
    }
}

/// The scores the sessions carry, in order.
pub open spec fn scores_of(ss: Seq<LearningSession>) -> Seq<u32>
    decreases ss.len(),
{
    if ss.len() == 0 {
        Seq::empty()
    } else {
        match ss.last().score {
            Some(x) => scores_of(ss.drop_last()).push(x),
            None => scores_of(ss.drop_last()),
        }
    }
}

/// The sum of some scores.
pub open spec fn score_sum(xs: Seq<u32>) -> int
    decreases xs.len(),
{
    if xs.len() == 0 { 0 } else { score_sum(xs.drop_last()) + xs.last() }
}

/// The start of the day that `date` falls on.
pub open spec fn day_start_of(date: u64) -> u64 {
    ((date / DAY) * DAY) as u64
}

proof fn lemma_score_sum_prefix(xs: Seq<u32>, i: int)
    requires
        0 <= i <= xs.len(),
    ensures
        0 <= score_sum(xs.take(i)) <= score_sum(xs),
    decreases xs.len(),
{
    if xs.len() > 0 {
        if i == xs.len() {
            assert(xs.take(i) =~= xs);
        } else {
            lemma_score_sum_prefix(xs.drop_last(), i);
            assert(xs.drop_last().take(i) =~= xs.take(i));
        }
        lemma_score_sum_prefix(xs.drop_last(), 0);
    }
}

proof fn lemma_scores_len(ss: Seq<LearningSession>)
    ensures
        scores_of(ss).len() <= ss.len(),
    decreases ss.len(),
{
    if ss.len() > 0 {
        lemma_scores_len(ss.drop_last());
    }
}

/// Sums over `pre + ss.take(i)` are bounded by those over `pre + ss`.
proof fn lemma_concat_bounds(pre: Seq<LearningSession>, mid: Seq<LearningSession>, full: Seq<LearningSession>)
    requires
        full == pre + mid,
    ensures
        time_total(pre) <= time_total(full),
        pre.len() <= full.len(),
        score_sum(scores_of(pre)) <= score_sum(scores_of(full)),
        completion_count(pre) <= completion_count(full),
    decreases mid.len(),
{
    if mid.len() > 0 {
        let p = pre + mid.drop_last();
        assert(full.drop_last() =~= p);
        lemma_concat_bounds(pre, mid.drop_last(), p);
        match full.last().score {
            Some(x) => {
                assert(scores_of(full) == scores_of(p).push(x));
                assert(scores_of(full).drop_last() =~= scores_of(p));
            },
            None => {
                assert(scores_of(full) == scores_of(p));
            },
        }
    }
}

proof fn lemma_score_nonneg(ss: Seq<LearningSession>)
    ensures
        score_sum(scores_of(ss)) >= 0,
        time_total(ss) >= 0,
    decreases ss.len(),
{
    if ss.len() > 0 {
        lemma_score_nonneg(ss.drop_last());
        lemma_score_sum_prefix(scores_of(ss), 0);
    }
}

/// The sessions a prefix of the ids selects are a prefix of those all the ids select.
proof fn lemma_day_ids_prefix(ids: Seq<Bytes32>, m: Map<Seq<u8>, LearningSession>, j: int, day_start: u64)
    requires
        0 <= j <= ids.len(),
    ensures
        exists|rest: Seq<LearningSession>| sessions_on_day(ids, m, day_start) == sessions_on_day(ids.take(j), m, day_start) + rest,
    decreases ids.len(),
{
    if j == ids.len() {
        assert(ids.take(j) =~= ids);
        assert(sessions_on_day(ids, m, day_start) =~= sessions_on_day(ids.take(j), m, day_start) + Seq::<LearningSession>::empty());
    } else {
        lemma_day_ids_prefix(ids.drop_last(), m, j, day_start);
        assert(ids.drop_last().take(j) =~= ids.take(j));
        let rest = choose|rest: Seq<LearningSession>| sessions_on_day(ids.drop_last(), m, day_start)
            == sessions_on_day(ids.take(j), m, day_start) + rest;
        let k = ids.last()@;
        if m.contains_key(k) && m[k].start_time >= day_start && m[k].start_time < day_start + DAY {
            assert(sessions_on_day(ids, m, day_start) =~= sessions_on_day(ids.take(j), m, day_start) + rest.push(m[k]));
        }
    }
}

proof fn lemma_session_prefix_bounds(done: Seq<LearningSession>, ids: Seq<Bytes32>, m: Map<Seq<u8>, LearningSession>, j: int, day_start: u64)
    requires
        0 <= j <= ids.len(),
    ensures
        ({
            let cur = done + sessions_on_day(ids.take(j), m, day_start);
            let full = done + sessions_on_day(ids, m, day_start);
            &&& cur.len() <= full.len()
            &&& time_total(cur) <= time_total(full)
            &&& score_sum(scores_of(cur)) <= score_sum(scores_of(full))
        }),
{
    lemma_day_ids_prefix(ids, m, j, day_start);
    let rest = choose|rest: Seq<LearningSession>| sessions_on_day(ids, m, day_start) == sessions_on_day(ids.take(j), m, day_start) + rest;
    let cur = done + sessions_on_day(ids.take(j), m, day_start);
    let full = done + sessions_on_day(ids, m, day_start);
    assert(full =~= cur + rest);
    lemma_concat_bounds(cur, rest, full);
}

proof fn lemma_day_prefix_bounds(
    lists: Map<(u64, Seq<char>), Vec<Bytes32>>,
    m: Map<Seq<u8>, LearningSession>,
    course: Seq<char>,
    students: Seq<Address>,
    i: int,
    day_start: u64,
)
    requires
        0 <= i <= students.len(),
    ensures
        ({
            let cur = course_day_sessions(lists, m, course, students.take(i), day_start);
            let full = course_day_sessions(lists, m, course, students, day_start);
            &&& cur.len() <= full.len()
            &&& time_total(cur) <= time_total(full)
            &&& score_sum(scores_of(cur)) <= score_sum(scores_of(full))
        }),
    decreases students.len(),
{
    if i == students.len() {
        assert(students.take(i) =~= students);
    } else {
        lemma_day_prefix_bounds(lists, m, course, students.drop_last(), i, day_start);
        assert(students.drop_last().take(i) =~= students.take(i));
        let p = course_day_sessions(lists, m, course, students.drop_last(), day_start);
        let full = course_day_sessions(lists, m, course, students, day_start);
        lemma_concat_bounds(p, sessions_on_day(list_at(lists, (students.last().id, course)), m, day_start), full);
    }
}

/// A student's score on a leaderboard by `metric`.
pub open spec fn metric_score(p: ProgressAnalytics, metric: LeaderboardMetric) -> u32 {
    match metric {
        LeaderboardMetric::CompletionSpeed => {
            if p.completion_percentage == 100 {
                let span = (p.last_activity - p.first_activity) as u64;
                if span > 0 { (1000000u32 / (span as u32)) as u32 } else { 0 }
            } else {
                0
            }
        },
        LeaderboardMetric::TotalScore => match p.average_score {
            Some(x) => x,
            None => 0,
        },
        LeaderboardMetric::ConsistencyScore => (p.streak_days * 10 + p.total_sessions / 10) as u32,
        LeaderboardMetric::TimeSpent => (p.total_time_spent / 3600) as u32,
    }
}

/// The score can be computed: no subtraction goes below zero, no sum overflows and no
/// divisor is zero.
pub open spec fn metric_computable(p: ProgressAnalytics, metric: LeaderboardMetric) -> bool {
    match metric {
        LeaderboardMetric::CompletionSpeed => p.completion_percentage == 100 ==> {
            &&& p.last_activity >= p.first_activity
            &&& p.last_activity - p.first_activity > 0 ==> ((p.last_activity - p.first_activity) as u64) as u32 != 0
        },
        LeaderboardMetric::ConsistencyScore => p.streak_days * 10 + p.total_sessions / 10 <= u32::MAX,
        _ => true,
    }
}

/// Each student's progress figures in the course, where there are any, give a score for
/// the metric without overflow.
pub open spec fn students_computable(
    students: Seq<Address>,
    progress: Map<(u64, Seq<char>), ProgressAnalytics>,
    course: Seq<char>,
    metric: LeaderboardMetric,
) -> bool {
    forall|i: int| 0 <= i < students.len() && progress.contains_key((#[trigger] students[i].id, course))
        ==> metric_computable(progress[(students[i].id, course)], metric)
}

/// The unranked entries of the students that have progress figures, in enrolment order.
pub open spec fn unranked(
    students: Seq<Address>,
    progress: Map<(u64, Seq<char>), ProgressAnalytics>,
    course: String,
    metric: LeaderboardMetric,
) -> Seq<LeaderboardEntry>
    decreases students.len(),
{
    if students.len() == 0 {
        Seq::empty()
    } else {
        let rest = unranked(students.drop_last(), progress, course, metric);
        let k = (students.last().id, course@);
        if progress.contains_key(k) {
            rest.push(LeaderboardEntry {
                student: students.last(),
                score: metric_score(progress[k], metric),
                rank: 0,
                course_id: course,
                metric_type: metric,
            })
        } else {
            rest
        }
    }
}

/// The entries of `s` with score `v`, in order.
pub open spec fn with_score(s: Seq<LeaderboardEntry>, v: u32) -> Seq<LeaderboardEntry>
    decreases s.len(),
{
    if s.len() == 0 {
        Seq::empty()
    } else if s.last().score == v {
        with_score(s.drop_last(), v).push(s.last())
    } else {
        with_score(s.drop_last(), v)
    }
}

/// `out` orders `input` by descending score, keeping the order of equal scores.
pub open spec fn stable_descending(out: Seq<LeaderboardEntry>, input: Seq<LeaderboardEntry>) -> bool {
    &&& out.len() == input.len()
    &&& forall|p: int, q: int| 0 <= p < q < out.len() ==> out[p].score >= out[q].score
    &&& forall|v: u32| #[trigger] with_score(out, v) == with_score(input, v)
}

/// `out` is the first entries of `sorted`, ranked from one.
pub open spec fn ranked_prefix(out: Seq<LeaderboardEntry>, sorted: Seq<LeaderboardEntry>) -> bool {
    &&& out.len() <= sorted.len()
    &&& forall|i: int| 0 <= i < out.len() ==> #[trigger] out[i] == (LeaderboardEntry { rank: (i + 1) as u32, ..sorted[i] })
}

/// The entries kept on a leaderboard of `n` candidates with a limit.
pub open spec fn board_size(limit: u32, n: int) -> int {
    if limit > 0 && limit < n { limit as int } else { n }
}

proof fn lemma_swap_keeps_scores(s: Seq<LeaderboardEntry>, j: int, v: u32)
    requires
        0 <= j,
        j + 1 < s.len(),
        s[j].score != s[j + 1].score,
    ensures
        with_score(s.update(j, s[j + 1]).update(j + 1, s[j]), v) == with_score(s, v),
    decreases s.len(),
{
    let t = s.update(j, s[j + 1]).update(j + 1, s[j]);
    if j + 1 < s.len() - 1 {
        let d = s.drop_last();
        lemma_swap_keeps_scores(d, j, v);
        assert(t.drop_last() =~= d.update(j, d[j + 1]).update(j + 1, d[j]));
        assert(t.last() == s.last());
    } else {
        let p = s.drop_last().drop_last();
        let td = t.drop_last();
        let sd = s.drop_last();
        assert(td.drop_last() =~= p);
        assert(sd.drop_last() =~= p);
        assert(td.last() == s[j + 1]);
        assert(t.last() == s[j]);
        assert(sd.last() == s[j]);
        assert(s.last() == s[j + 1]);
        assert(with_score(td, v) == if s[j + 1].score == v { with_score(p, v).push(s[j + 1]) } else { with_score(p, v) });
        assert(with_score(sd, v) == if s[j].score == v { with_score(p, v).push(s[j]) } else { with_score(p, v) });
        assert(with_score(t, v) == if s[j].score == v { with_score(td, v).push(s[j]) } else { with_score(td, v) });
        assert(with_score(s, v) == if s[j + 1].score == v { with_score(sd, v).push(s[j + 1]) } else { with_score(sd, v) });
    }
}

/// A copy of a leaderboard entry.
fn copy_entry(e: &LeaderboardEntry) -> (r: LeaderboardEntry)
    ensures
        r == *e,
{
    LeaderboardEntry {
        student: e.student,
        score: e.score,
        rank: e.rank,
        course_id: e.course_id.clone(),
        metric_type: e.metric_type,
    }
}

/// The figures of a course's activity on the day that `date` falls on.
pub open spec fn daily_figures(a: &Analytics, course: String, date: u64) -> AggregatedMetrics {
    let day = day_start_of(date);
    let students = list_at(a.course_students@, course@);
    let ss = course_day_sessions(a.student_sessions@, a.sessions@, course@, students, day);
    let scores = scores_of(ss);
    AggregatedMetrics {
        course_id: course,
        date: day,
        active_students: active_count(a.student_sessions@, a.sessions@, course@, students, day) as u32,
        total_sessions: ss.len() as u32,
        total_time: time_total(ss) as u64,
        completions: completion_count(ss) as u32,
        average_score: if scores.len() == 0 { None } else { Some((score_sum(scores) / (scores.len() as int)) as u32) },
    }
}

/// The day's figures can be summed without overflow.
pub open spec fn daily_computable(a: &Analytics, course: Seq<char>, date: u64) -> bool {
    let ss = course_day_sessions(a.student_sessions@, a.sessions@, course,
        list_at(a.course_students@, course), day_start_of(date));
    &&& day_start_of(date) + DAY <= u64::MAX
    &&& ss.len() <= u32::MAX
    &&& time_total(ss) <= u64::MAX
    &&& score_sum(scores_of(ss)) <= u32::MAX
}

/// A session passes a filter's dates, type and minimum score.
pub open spec fn matches_filter(s: LearningSession, f: AnalyticsFilter) -> bool {
    &&& (f.start_date matches Some(d) ==> s.start_time >= d)
    &&& (f.end_date matches Some(d) ==> s.end_time <= d)
    &&& (f.session_type matches OptionalSessionType::Only(t) ==> s.session_type == t)
    &&& (f.min_score matches Some(ms) ==> (s.score matches Some(x) && x >= ms))
}

/// The stored sessions that `ids` name and that pass a filter, in order.
pub open spec fn matching_sessions(ids: Seq<Bytes32>, m: Map<Seq<u8>, LearningSession>, f: AnalyticsFilter) -> Seq<LearningSession>
    decreases ids.len(),
{
    if ids.len() == 0 {
        Seq::empty()
    } else {
        let rest = matching_sessions(ids.drop_last(), m, f);
        let k = ids.last()@;
        if m.contains_key(k) && matches_filter(m[k], f) { rest.push(m[k]) } else { rest }
    }
}

/// The sessions of a course's students that pass a filter, student by student.
pub open spec fn course_matching(
    lists: Map<(u64, Seq<char>), Vec<Bytes32>>,
    m: Map<Seq<u8>, LearningSession>,
    course: Seq<char>,
    students: Seq<Address>,
    f: AnalyticsFilter,
) -> Seq<LearningSession>
    decreases students.len(),
{
    if students.len() == 0 {
        Seq::empty()
    } else {
        course_matching(lists, m, course, students.drop_last(), f)
            + matching_sessions(list_at(lists, (students.last().id, course)), m, f)
    }
}

/// What a filtered query returns.
pub open spec fn filtered_result(a: &Analytics, f: AnalyticsFilter) -> Seq<LearningSession> {
    match f.course_id {
        None => Seq::empty(),
        Some(course) => match f.student {
            Some(st) => matching_sessions(list_at(a.student_sessions@, (st.id, course@)), a.sessions@, f),
            None => course_matching(a.student_sessions@, a.sessions@, course@, list_at(a.course_students@, course@), f),
        },
    }
}

/// Progress reports, daily figures and leaderboards.
pub struct ReportGenerator;

impl ReportGenerator {
    /// Reports a student's activity in a course within `[start_date, end_date]` and keeps
    /// the report under the time of writing.
    pub fn generate_progress_report(
        a: &mut Analytics,
        student: &Address,
        course_id: &String,
        period: ReportPeriod,
        start_date: u64,
        end_date: u64,
        now: u64,
    ) -> (r: Result<ProgressReport, AnalyticsError>)
        requires
            ({
                let ss = sessions_within(list_at(old(a).student_sessions@, (student.id, course_id@)),
                    old(a).sessions@, start_date, end_date);
                &&& ss.len() <= u32::MAX
                &&& time_total(ss) <= u64::MAX
                &&& active_day_set(ss).len() * 100 <= u32::MAX
                &&& start_date < end_date && ss.len() > 0 ==> period_days(start_date, end_date) as u32 != 0
            }),
        ensures
            start_date >= end_date
                ==> r == Err::<ProgressReport, AnalyticsError>(AnalyticsError::InvalidTimeRange) && *final(a) == *old(a),
            start_date < end_date ==> {
                let ss = sessions_within(list_at(old(a).student_sessions@, (student.id, course_id@)),
                    old(a).sessions@, start_date, end_date);
                &&& ss.len() == 0
                    ==> r == Err::<ProgressReport, AnalyticsError>(AnalyticsError::InsufficientData) && *final(a) == *old(a)
                &&& ss.len() > 0 ==> {
                    let p = r->Ok_0;
                    &&& r is Ok
                    &&& p.student == *student
                    &&& p.course_id == *course_id
                    &&& p.report_period == period
                    &&& p.start_date == start_date
                    &&& p.end_date == end_date
                    &&& p.sessions_count == ss.len()
                    &&& p.total_time == time_total(ss)
                    &&& p.modules_completed == completed_module_set(ss).len()
                    &&& p.average_daily_time == time_total(ss) / period_days(start_date, end_date)
                    &&& p.consistency_score == consistency_of(ss, start_date, end_date)
                    &&& p.achievements@ == achievements_within(list_at(old(a).achievements@, student.id), start_date, end_date)
                    &&& final(a).reports@.dom() == old(a).reports@.dom().insert((student.id, course_id@, now))
                    &&& same_report(final(a).reports@[(student.id, course_id@, now)], p)
                    &&& forall|k: (u64, Seq<char>, u64)| k != (student.id, course_id@, now)
                        && #[trigger] old(a).reports@.contains_key(k) ==> final(a).reports@[k] == old(a).reports@[k]
                    &&& *final(a) == (Analytics { reports: final(a).reports, ..*old(a) })
                }
            },
    {
        if start_date >= end_date {
            return Err(AnalyticsError::InvalidTimeRange);
        }
        let ghost ids = list_at(a.student_sessions@, (student.id, course_id@));
        let ghost ss = sessions_within(ids, a.sessions@, start_date, end_date);
        let mut filtered: Vec<LearningSession> = Vec::new();
        match AnalyticsStorage::get_student_sessions(a, student, course_id) {
            None => {},
            Some(list) => {
                let mut i: usize = 0;
                while i < list.len()
                    invariant
                        0 <= i <= list@.len(),
                        list@ == ids,
                        filtered@ == sessions_within(ids.take(i as int), a.sessions@, start_date, end_date),
                    decreases list@.len() - i,
                {
                    proof {
                        assert(ids.take(i + 1).drop_last() =~= ids.take(i as int));
                        assert(ids.take(i + 1).last() == ids[i as int]);
                    }
                    match AnalyticsStorage::get_session(a, &list[i]) {
                        Some(s) => {
                            if s.start_time >= start_date && s.end_time <= end_date {
                                filtered.push(copy_session(s));
                            }
                        },
                        None => {},
                    }
                    i = i + 1;
                }
                proof {
                    assert(ids.take(ids.len() as int) =~= ids);
                }
            },
        }
        proof {
            if ids.len() == 0 {
                assert(filtered@ == ss);
            }
        }
        if filtered.len() == 0 {
            return Err(AnalyticsError::InsufficientData);
        }
        let sessions_count = filtered.len() as u32;
        let mut total_time: u64 = 0;
        let mut modules_completed: u32 = 0;
        let mut completed_modules: Vec<String> = Vec::new();
        let mut i: usize = 0;
        proof {
            assert(course_views(completed_modules@) =~= Seq::<Seq<char>>::empty());
        }
        while i < filtered.len()
            invariant
                0 <= i <= filtered@.len(),
                filtered@ == ss,
                ss.len() <= u32::MAX,
                time_total(ss) <= u64::MAX,
                total_time == time_total(ss.take(i as int)),
                distinct_courses(completed_modules@),
                course_set(completed_modules@) == completed_module_set(ss.take(i as int)),
                modules_completed == completed_modules@.len(),
                completed_modules@.len() <= i,
            decreases filtered@.len() - i,
        {
            let ghost pre = ss.take(i as int);
            let ghost post = ss.take(i + 1);
            proof {
                assert(post.drop_last() =~= pre);
                assert(post.last() == ss[i as int]);
                lemma_time_total_prefix(ss, i + 1);
            }
            total_time = total_time + filtered[i].time_spent;
            if filtered[i].completion_percentage == 100 {
                let mut already_counted = false;
                let mut j: usize = 0;
                while j < completed_modules.len()
                    invariant
                        0 <= j <= completed_modules@.len(),
                        i < filtered@.len(),
                        already_counted == (exists|t: int| 0 <= t < j && completed_modules@[t]@ == filtered@[i as int].module_id@),
                    decreases completed_modules@.len() - j,
                {
                    if completed_modules[j] == filtered[i].module_id {
                        already_counted = true;
                    }
                    j = j + 1;
                }
                if !already_counted {
                    let ghost before = completed_modules@;
                    completed_modules.push(filtered[i].module_id.clone());
                    modules_completed = modules_completed + 1;
                    proof {
                        assert(course_views(completed_modules@) =~= course_views(before).push(ss[i as int].module_id@));
                        course_views(before).lemma_push_to_set_commute(ss[i as int].module_id@);
                    }
                }
            }
            proof {
                let m = ss[i as int];
                assert forall|x: Seq<char>| course_set(completed_modules@).contains(x)
                    <==> completed_module_set(post).contains(x) by {
                    if completed_module_set(post).contains(x) {
                        let t = choose|t: int| 0 <= t < post.len() && post[t].completion_percentage == 100
                            && #[trigger] post[t].module_id@ == x;
                        if t < i {
                            assert(pre[t] == post[t]);
                            assert(completed_module_set(pre).contains(x));
                        }
                    }
                    if completed_module_set(pre).contains(x) {
                        let t = choose|t: int| 0 <= t < pre.len() && pre[t].completion_percentage == 100
                            && #[trigger] pre[t].module_id@ == x;
                        assert(post[t] == pre[t]);
                    }
                    if course_set(completed_modules@).contains(x) && !completed_module_set(pre).contains(x) {
                        assert(post[i as int] == m);
                    }
                    if m.completion_percentage == 100 && x == m.module_id@ {
                        assert(post[i as int].module_id@ == x);
                        if !course_set(completed_modules@).contains(x) {
                            let w = choose|w: int| 0 <= w < completed_modules@.len() && #[trigger] completed_modules@[w]@ == m.module_id@;
                            assert(course_views(completed_modules@)[w] == x);
                        }
                    }
                }
                assert(course_set(completed_modules@) =~= completed_module_set(post));
                assert forall|p: int, q: int| 0 <= p < q < completed_modules@.len()
                    implies completed_modules@[p]@ != completed_modules@[q]@ by {
                }
            }
            i = i + 1;
        }
        proof {
            assert(ss.take(ss.len() as int) =~= ss);
            lemma_distinct_len(completed_modules@);
        }
        let report_days = (end_date - start_date) / DAY + 1;
        let average_daily_time = total_time / report_days;
        let consistency_score = Self::calculate_consistency_score(&filtered, start_date, end_date);
        let achievements = Self::get_achievements_in_period(a, student, start_date, end_date);
        let stored = ProgressReport {
            student: *student,
            course_id: course_id.clone(),
            report_period: period,
            start_date,
            end_date,
            sessions_count,
            total_time,
            modules_completed,
            average_daily_time,
            consistency_score,
            achievements: copy_achievements(&achievements),
        };
        AnalyticsStorage::set_progress_report(a, student, course_id, now, stored);
        proof {
            assert(a.reports@.dom() =~= old(a).reports@.dom().insert((student.id, course_id@, now)));
        }
        Ok(ProgressReport {
            student: *student,
            course_id: course_id.clone(),
            report_period: period,
            start_date,
            end_date,
            sessions_count,
            total_time,
            modules_completed,
            average_daily_time,
            consistency_score,
            achievements,
        })
    }

    /// The share of a period's days, in percent, on which some session started, at most a hundred.
    fn calculate_consistency_score(sessions: &Vec<LearningSession>, start_date: u64, end_date: u64) -> (r: u32)
        requires
            start_date < end_date,
            active_day_set(sessions@).len() * 100 <= u32::MAX,
            period_days(start_date, end_date) as u32 != 0,
        ensures
            r == consistency_of(sessions@, start_date, end_date),
    {
        if sessions.len() == 0 {
            return 0;
        }
        let total_days = (end_date - start_date) / DAY + 1;
        let mut active_days: Vec<u64> = Vec::new();
        let mut i: usize = 0;
        while i < sessions.len()
            invariant
                0 <= i <= sessions@.len(),
                active_days@.no_duplicates(),
                active_days@.to_set() == active_day_set(sessions@.take(i as int)),
            decreases sessions@.len() - i,
        {
            let ghost pre = sessions@.take(i as int);
            let ghost post = sessions@.take(i + 1);
            let day = sessions[i].start_time / DAY;
            let mut day_exists = false;
            let mut j: usize = 0;
            while j < active_days.len()
                invariant
                    0 <= j <= active_days@.len(),
                    day_exists == (exists|t: int| 0 <= t < j && active_days@[t] == day),
                decreases active_days@.len() - j,
            {
                if active_days[j] == day {
                    day_exists = true;
                }
                j = j + 1;
            }
            let ghost before = active_days@;
            if !day_exists {
                active_days.push(day);
                proof {
                    before.lemma_push_to_set_commute(day);
                    assert(!before.contains(day));
                }
            }
            proof {
                assert(post.drop_last() =~= pre);
                assert forall|d: u64| active_days@.to_set().contains(d) <==> active_day_set(post).contains(d) by {
                    if active_day_set(post).contains(d) {
                        let t = choose|t: int| 0 <= t < post.len() && #[trigger] (post[t].start_time / DAY) == d;
                        if t < i {
                            assert(pre[t] == post[t]);
                            assert(active_day_set(pre).contains(d));
                            assert(before.to_set().contains(d));
                            assert(before.contains(d));
                            let w = choose|w: int| 0 <= w < before.len() && before[w] == d;
                            assert(active_days@[w] == d);
                        } else {
                            assert(post[t] == sessions@[i as int]);
                            if day_exists {
                                let w = choose|w: int| 0 <= w < active_days@.len() && active_days@[w] == day;
                                assert(active_days@.contains(d));
                            } else {
                                assert(active_days@[active_days@.len() - 1] == d);
                                assert(active_days@.contains(d));
                            }
                        }
                    }
                    if active_days@.to_set().contains(d) {
                        assert(active_days@.contains(d));
                        let w = choose|w: int| 0 <= w < active_days@.len() && active_days@[w] == d;
                        if w < before.len() {
                            assert(before[w] == d);
                            assert(before.to_set().contains(d));
                            assert(active_day_set(pre).contains(d));
                            let t = choose|t: int| 0 <= t < pre.len() && #[trigger] (pre[t].start_time / DAY) == d;
                            assert(post[t] == pre[t]);
                        } else {
                            assert(d == day);
                            assert(post[i as int] == sessions@[i as int]);
                            assert((post[i as int].start_time / DAY) == d);
                        }
                    }
                }
                assert(active_days@.to_set() =~= active_day_set(post));
            }
            i = i + 1;
        }
        proof {
            assert(sessions@.take(sessions@.len() as int) =~= sessions@);
            lemma_distinct_days_len(active_days@);
        }
        let raw = (active_days.len() as u32 * 100) / (total_days as u32);
        if raw > 100 { 100 } else { raw }
    }

    /// The achievements of a student earned within `[start_date, end_date]`, in order.
    fn get_achievements_in_period(a: &Analytics, student: &Address, start_date: u64, end_date: u64) -> (r: Vec<Achievement>)
        ensures
            r@ == achievements_within(list_at(a.achievements@, student.id), start_date, end_date),
    {
        let mut out: Vec<Achievement> = Vec::new();
        match AnalyticsStorage::get_student_achievements(a, student) {
            None => {},
            Some(all) => {
                let mut i: usize = 0;
                while i < all.len()
                    invariant
                        0 <= i <= all@.len(),
                        out@ == achievements_within(all@.take(i as int), start_date, end_date),
                    decreases all@.len() - i,
                {
                    proof {
                        assert(all@.take(i + 1).drop_last() =~= all@.take(i as int));
                    }
                    if all[i].earned_date >= start_date && all[i].earned_date <= end_date {
                        out.push(copy_achievement(&all[i]));
                    }
                    i = i + 1;
                }
                proof {
                    assert(all@.take(all@.len() as int) =~= all@);
                }
            },
        }
        out
    }

    /// Sums up a course's activity on the day that `date` falls on and keeps the figures
    /// under the day's start.
    pub fn generate_daily_metrics(a: &mut Analytics, course_id: &String, date: u64) -> (r: Result<AggregatedMetrics, AnalyticsError>)
        requires
            day_start_of(date) + DAY <= u64::MAX,
            ({
                let ss = course_day_sessions(old(a).student_sessions@, old(a).sessions@, course_id@,
                    list_at(old(a).course_students@, course_id@), day_start_of(date));
                &&& ss.len() <= u32::MAX
                &&& time_total(ss) <= u64::MAX
                &&& score_sum(scores_of(ss)) <= u32::MAX
            }),
        ensures
            ({
                let day = day_start_of(date);
                let students = list_at(old(a).course_students@, course_id@);
                let ss = course_day_sessions(old(a).student_sessions@, old(a).sessions@, course_id@, students, day);
                let scores = scores_of(ss);
                let x = r->Ok_0;
                &&& r is Ok
                &&& x.course_id == *course_id
                &&& x.date == day
                &&& x.active_students == active_count(old(a).student_sessions@, old(a).sessions@, course_id@, students, day)
                &&& x.total_sessions == ss.len()
                &&& x.total_time == time_total(ss)
                &&& x.completions == completion_count(ss)
                &&& x.average_score == if scores.len() == 0 { None } else { Some((score_sum(scores) / (scores.len() as int)) as u32) }
                &&& x == daily_figures(old(a), *course_id, date)
                &&& final(a).daily_metrics@ == old(a).daily_metrics@.insert((course_id@, day), x)
                &&& *final(a) == (Analytics { daily_metrics: final(a).daily_metrics, ..*old(a) })
            }),
    {
        let day_start = (date / DAY) * DAY;
        let day_end = day_start + DAY;
        let ghost lists = a.student_sessions@;
        let ghost m = a.sessions@;
        let ghost students = list_at(a.course_students@, course_id@);
        let ghost all = course_day_sessions(lists, m, course_id@, students, day_start);
        let mut active_students: u32 = 0;
        let mut total_sessions: u32 = 0;
        let mut total_time: u64 = 0;
        let mut completions: u32 = 0;
        let mut scores: Vec<u32> = Vec::new();
        let empty: Vec<Address> = Vec::new();
        let studs: &Vec<Address> = match AnalyticsStorage::get_course_students(a, course_id) {
            Some(v) => v,
            None => &empty,
        };
        let mut i: usize = 0;
        proof {
            assert(students.take(0) =~= Seq::<Address>::empty());
            lemma_day_prefix_bounds(lists, m, course_id@, students, 0, day_start);
        }
        while i < studs.len()
            invariant
                0 <= i <= studs@.len(),
                studs@ == students,
                lists == a.student_sessions@,
                m == a.sessions@,
                day_start == day_start_of(date),
                day_end == day_start + DAY,
                all == course_day_sessions(lists, m, course_id@, students, day_start),
                all.len() <= u32::MAX,
                time_total(all) <= u64::MAX,
                score_sum(scores_of(all)) <= u32::MAX,
                ({
                    let done = course_day_sessions(lists, m, course_id@, students.take(i as int), day_start);
                    &&& active_students == active_count(lists, m, course_id@, students.take(i as int), day_start)
                    &&& active_students <= total_sessions
                    &&& completions <= total_sessions
                    &&& total_sessions == done.len()
                    &&& total_time == time_total(done)
                    &&& completions == completion_count(done)
                    &&& scores@ == scores_of(done)
                    &&& done.len() <= all.len()
                    &&& time_total(done) <= time_total(all)
                    &&& score_sum(scores_of(done)) <= score_sum(scores_of(all))
                }),
            decreases studs@.len() - i,
        {
            let student = studs[i];
            let ghost done = course_day_sessions(lists, m, course_id@, students.take(i as int), day_start);
            let ghost ids = list_at(lists, (student.id, course_id@));
            proof {
                assert(students.take(i + 1).drop_last() =~= students.take(i as int));
                assert(students.take(i + 1).last() == student);
                lemma_day_prefix_bounds(lists, m, course_id@, students, i as int + 1, day_start);
                assert(course_day_sessions(lists, m, course_id@, students.take(i + 1), day_start)
                    == done + sessions_on_day(ids, m, day_start));
                assert(ids.take(0) =~= Seq::<Bytes32>::empty());
                assert(done + sessions_on_day(ids.take(0), m, day_start) =~= done);
                lemma_session_prefix_bounds(done, ids, m, 0, day_start);
            }
            let mut student_active = false;
            match AnalyticsStorage::get_student_sessions(a, &student, course_id) {
                None => {
                    proof {
                        assert(done + sessions_on_day(ids, m, day_start) =~= done);
                    }
                },
                Some(list) => {
                    let mut j: usize = 0;
                    while j < list.len()
                        invariant
                            0 <= j <= list@.len(),
                            list@ == ids,
                            lists == a.student_sessions@,
                            m == a.sessions@,
                            day_start == day_start_of(date),
                            day_end == day_start + DAY,
                            i < students.len(),
                            active_students <= total_sessions,
                            completions <= total_sessions,
                            ({
                                let cur = done + sessions_on_day(ids.take(j as int), m, day_start);
                                let full = done + sessions_on_day(ids, m, day_start);
                                &&& student_active == (sessions_on_day(ids.take(j as int), m, day_start).len() > 0)
                                &&& active_students == active_count(lists, m, course_id@, students.take(i as int), day_start)
                                    + if student_active { 1int } else { 0int }
                                &&& total_sessions == cur.len()
                                &&& total_time == time_total(cur)
                                &&& completions == completion_count(cur)
                                &&& scores@ == scores_of(cur)
                                &&& full.len() <= u32::MAX
                                &&& time_total(full) <= u64::MAX
                                &&& score_sum(scores_of(full)) <= u32::MAX
                                &&& cur.len() <= full.len()
                                &&& time_total(cur) <= time_total(full)
                                &&& score_sum(scores_of(cur)) <= score_sum(scores_of(full))
                            }),
                        decreases list@.len() - j,
                    {
                        proof {
                            assert(ids.take(j + 1).drop_last() =~= ids.take(j as int));
                            assert(ids.take(j + 1).last() == ids[j as int]);
                            lemma_session_prefix_bounds(done, ids, m, j as int + 1, day_start);
                        }
                        match AnalyticsStorage::get_session(a, &list[j]) {
                            Some(s) => {
                                if s.start_time >= day_start && s.start_time < day_end {
                                    proof {
                                        let prev = done + sessions_on_day(ids.take(j as int), m, day_start);
                                        assert(done + sessions_on_day(ids.take(j + 1), m, day_start) =~= prev.push(*s));
                                        assert(prev.push(*s).drop_last() =~= prev);
                                        assert(time_total(prev.push(*s)) == time_total(prev) + s.time_spent);
                                    }
                                    if !student_active {
                                        active_students = active_students + 1;
                                        student_active = true;
                                    }
                                    total_sessions = total_sessions + 1;
                                    total_time = total_time + s.time_spent;
                                    if s.completion_percentage == 100 {
                                        completions = completions + 1;
                                    }
                                    match s.score {
                                        Some(score) => scores.push(score),
                                        None => {},
                                    }
                                }
                            },
                            None => {},
                        }
                        j = j + 1;
                    }
                    proof {
                        assert(ids.take(ids.len() as int) =~= ids);
                    }
                },
            }
            proof {
                if ids.len() == 0 {
                    assert(sessions_on_day(ids, m, day_start).len() == 0);
                }
            }
            i = i + 1;
        }
        proof {
            assert(students.take(students.len() as int) =~= students);
            lemma_scores_len(all);
        }
        let average_score = if scores.len() > 0 {
            let mut sum: u32 = 0;
            let mut k: usize = 0;
            while k < scores.len()
                invariant
                    0 <= k <= scores@.len(),
                    scores@ == scores_of(all),
                    score_sum(scores@) <= u32::MAX,
                    sum == score_sum(scores@.take(k as int)),
                decreases scores@.len() - k,
            {
                proof {
                    assert(scores@.take(k + 1).drop_last() =~= scores@.take(k as int));
                    lemma_score_sum_prefix(scores@, k as int + 1);
                }
                sum = sum + scores[k];
                k = k + 1;
            }
            proof {
                assert(scores@.take(scores@.len() as int) =~= scores@);
            }
            Some(sum / (scores.len() as u32))
        } else {
            None
        };
        let metrics = AggregatedMetrics {
            course_id: course_id.clone(),
            date: day_start,
            active_students,
            total_sessions,
            total_time,
            completions,
            average_score,
        };
        let stored = AggregatedMetrics {
            course_id: course_id.clone(),
            date: day_start,
            active_students,
            total_sessions,
            total_time,
            completions,
            average_score,
        };
        AnalyticsStorage::set_daily_metrics(a, course_id, day_start, stored);
        Ok(metrics)
    }

    /// Ranks the students of a course that have progress figures by a metric, highest
    /// score first and enrolment order among equal scores, keeps at most `limit` of them
    /// (all when `limit` is zero), and stores the board.
    pub fn generate_leaderboard(
        a: &mut Analytics,
        course_id: &String,
        metric: LeaderboardMetric,
        limit: u32,
    ) -> (r: Result<Vec<LeaderboardEntry>, AnalyticsError>)
        requires
            list_at(old(a).course_students@, course_id@).len() <= u32::MAX,
            students_computable(list_at(old(a).course_students@, course_id@), old(a).progress@, course_id@, metric),
        ensures
            list_at(old(a).course_students@, course_id@).len() == 0
                ==> r == Err::<Vec<LeaderboardEntry>, AnalyticsError>(AnalyticsError::InsufficientData) && *final(a) == *old(a),
            list_at(old(a).course_students@, course_id@).len() > 0 ==> {
                let input = unranked(list_at(old(a).course_students@, course_id@), old(a).progress@, *course_id, metric);
                let out = r->Ok_0@;
                &&& r is Ok
                &&& out.len() == board_size(limit, input.len() as int)
                &&& exists|sorted: Seq<LeaderboardEntry>| #[trigger] stable_descending(sorted, input) && ranked_prefix(out, sorted)
                &&& final(a).leaderboards@.dom() == old(a).leaderboards@.dom().insert((course_id@, metric))
                &&& list_at(final(a).leaderboards@, (course_id@, metric)) == out
                &&& forall|k: (Seq<char>, LeaderboardMetric)| k != (course_id@, metric) && #[trigger] old(a).leaderboards@.contains_key(k)
                    ==> final(a).leaderboards@[k] == old(a).leaderboards@[k]
                &&& *final(a) == (Analytics { leaderboards: final(a).leaderboards, ..*old(a) })
            },
    {
        let ghost students = list_at(a.course_students@, course_id@);
        let ghost progress = a.progress@;
        let studs: &Vec<Address> = match AnalyticsStorage::get_course_students(a, course_id) {
            Some(v) => v,
            None => return Err(AnalyticsError::InsufficientData),
        };
        if studs.len() == 0 {
            return Err(AnalyticsError::InsufficientData);
        }
        let ghost input = unranked(students, progress, *course_id, metric);
        let mut entries: Vec<LeaderboardEntry> = Vec::new();
        let mut i: usize = 0;
        while i < studs.len()
            invariant
                0 <= i <= studs@.len(),
                studs@ == students,
                progress == a.progress@,
                students_computable(students, progress, course_id@, metric),
                entries@ == unranked(students.take(i as int), progress, *course_id, metric),
                entries@.len() <= i,
            decreases studs@.len() - i,
        {
            proof {
                assert(students.take(i + 1).drop_last() =~= students.take(i as int));
                assert(students.take(i + 1).last() == students[i as int]);
            }
            let student = studs[i];
            match AnalyticsStorage::get_progress_analytics(a, &student, course_id) {
                Some(p) => {
                    let score = Self::score_for(p, metric);
                    entries.push(LeaderboardEntry {
                        student,
                        score,
                        rank: 0,
                        course_id: course_id.clone(),
                        metric_type: metric,
                    });
                },
                None => {},
            }
            i = i + 1;
        }
        proof {
            assert(students.take(students.len() as int) =~= students);
        }
        Self::sort_leaderboard_entries(&mut entries);
        let ghost sorted = entries@;
        let n = entries.len();
        let max_entries: usize = if limit > 0 && (limit as usize) < n { limit as usize } else { n };
        let mut final_entries: Vec<LeaderboardEntry> = Vec::new();
        let mut stored: Vec<LeaderboardEntry> = Vec::new();
        let mut t: usize = 0;
        while t < max_entries
            invariant
                0 <= t <= max_entries <= n,
                n == sorted.len(),
                n <= u32::MAX,
                entries@ == sorted,
                final_entries@.len() == t,
                stored@ == final_entries@,
                forall|q: int| 0 <= q < t ==> #[trigger] final_entries@[q] == (LeaderboardEntry { rank: (q + 1) as u32, ..sorted[q] }),
            decreases max_entries - t,
        {
            let e = &entries[t];
            let ranked = LeaderboardEntry {
                student: e.student,
                score: e.score,
                rank: (t + 1) as u32,
                course_id: e.course_id.clone(),
                metric_type: e.metric_type,
            };
            stored.push(copy_entry(&ranked));
            final_entries.push(ranked);
            t = t + 1;
        }
        AnalyticsStorage::set_leaderboard(a, course_id, metric, stored);
        proof {
            assert(a.leaderboards@.dom() =~= old(a).leaderboards@.dom().insert((course_id@, metric)));
            assert(stable_descending(sorted, input));
            assert(ranked_prefix(final_entries@, sorted));
        }
        Ok(final_entries)
    }

    /// A student's score by a metric.
    fn score_for(p: &ProgressAnalytics, metric: LeaderboardMetric) -> (r: u32)
        requires
            metric_computable(*p, metric),
        ensures
            r == metric_score(*p, metric),
    {
        match metric {
            LeaderboardMetric::CompletionSpeed => {
                if p.completion_percentage == 100 {
                    let completion_time = p.last_activity - p.first_activity;
                    if completion_time > 0 {
                        1000000u32 / (completion_time as u32)
                    } else {
                        0
                    }
                } else {
                    0
                }
            },
            LeaderboardMetric::TotalScore => match p.average_score {
                Some(x) => x,
                None => 0,
            },
            LeaderboardMetric::ConsistencyScore => p.streak_days * 10 + p.total_sessions / 10,
            LeaderboardMetric::TimeSpent => (p.total_time_spent / 3600) as u32,
        }
    }

    /// Orders entries by descending score with repeated passes of neighbour swaps, which
    /// keep equal scores in their order.
    fn sort_leaderboard_entries(entries: &mut Vec<LeaderboardEntry>)
        ensures
            stable_descending(final(entries)@, old(entries)@),
    {
        let ghost input = entries@;
        let n = entries.len();
        let mut k: usize = 0;
        while k < n
            invariant
                0 <= k <= n,
                n == entries@.len(),
                n == input.len(),
                forall|v: u32| #[trigger] with_score(entries@, v) == with_score(input, v),
                forall|p: int, q: int| n - k <= p < q < n ==> entries@[p].score >= entries@[q].score,
                forall|p: int, q: int| 0 <= p < n - k <= q < n ==> entries@[p].score >= entries@[q].score,
            decreases n - k,
        {
            let b: usize = n - k;
            let mut j: usize = 0;
            while j < n - 1
                invariant
                    0 <= k < n,
                    b == n - k,
                    1 <= b <= n,
                    0 <= j <= n - 1,
                    n == entries@.len(),
                    forall|v: u32| #[trigger] with_score(entries@, v) == with_score(input, v),
                    forall|p: int, q: int| b <= p < q < n ==> entries@[p].score >= entries@[q].score,
                    forall|p: int, q: int| 0 <= p < b <= q < n ==> entries@[p].score >= entries@[q].score,
                    forall|t: int| 0 <= t < j ==> entries@[t].score >= entries@[j as int].score,
                    j >= b - 1 ==> forall|t: int| 0 <= t < b - 1 ==> #[trigger] entries@[t].score >= entries@[b - 1].score,
                decreases n - 1 - j,
            {
                if entries[j].score < entries[j + 1].score {
                    let ghost before = entries@;
                    proof {
                        assert(j + 1 < b);
                    }
                    let moved = entries.remove(j + 1);
                    entries.insert(j, moved);
                    proof {
                        assert(entries@ =~= before.update(j as int, before[j + 1]).update(j + 1, before[j as int]));
                        assert forall|v: u32| #[trigger] with_score(entries@, v) == with_score(input, v) by {
                            lemma_swap_keeps_scores(before, j as int, v);
                        }
                    }
                }
                j = j + 1;
            }
            k = k + 1;
        }
    }

    /// The sessions a filter selects: those of one student in the course, or of every
    /// student of the course in enrolment order; none without a course.
    pub fn get_filtered_analytics(a: &Analytics, filter: &AnalyticsFilter) -> (r: Result<Vec<LearningSession>, AnalyticsError>)
        ensures
            r is Ok,
            r->Ok_0@ == filtered_result(a, *filter),
    {
        let mut out: Vec<LearningSession> = Vec::new();
        match &filter.course_id {
            None => {},
            Some(course_id) => match filter.student {
                Some(student) => {
                    Self::collect_matching(a, &student, course_id, filter, &mut out);
                    proof {
                        assert(out@ =~= matching_sessions(list_at(a.student_sessions@, (student.id, course_id@)), a.sessions@, *filter));
                    }
                },
                None => {
                    let ghost students = list_at(a.course_students@, course_id@);
                    match AnalyticsStorage::get_course_students(a, course_id) {
                        None => {},
                        Some(studs) => {
                            let mut i: usize = 0;
                            while i < studs.len()
                                invariant
                                    0 <= i <= studs@.len(),
                                    studs@ == students,
                                    out@ == course_matching(a.student_sessions@, a.sessions@, course_id@, students.take(i as int), *filter),
                                decreases studs@.len() - i,
                            {
                                proof {
                                    assert(students.take(i + 1).drop_last() =~= students.take(i as int));
                                    assert(students.take(i + 1).last() == students[i as int]);
                                }
                                let student = studs[i];
                                Self::collect_matching(a, &student, course_id, filter, &mut out);
                                i = i + 1;
                            }
                            proof {
                                assert(students.take(students.len() as int) =~= students);
                            }
                        },
                    }
                },
            },
        }
        Ok(out)
    }

    /// Appends the sessions of a student in a course that pass a filter.
    fn collect_matching(a: &Analytics, student: &Address, course_id: &String, filter: &AnalyticsFilter, out: &mut Vec<LearningSession>)
        ensures
            final(out)@ == old(out)@ + matching_sessions(list_at(a.student_sessions@, (student.id, course_id@)), a.sessions@, *filter),
    {
        let ghost ids = list_at(a.student_sessions@, (student.id, course_id@));
        let ghost start = out@;
        match AnalyticsStorage::get_student_sessions(a, student, course_id) {
            None => {
                assert(out@ =~= start + Seq::<LearningSession>::empty());
            },
            Some(list) => {
                let mut j: usize = 0;
                while j < list.len()
                    invariant
                        0 <= j <= list@.len(),
                        list@ == ids,
                        out@ == start + matching_sessions(ids.take(j as int), a.sessions@, *filter),
                    decreases list@.len() - j,
                {
                    proof {
                        assert(ids.take(j + 1).drop_last() =~= ids.take(j as int));
                        assert(ids.take(j + 1).last() == ids[j as int]);
                    }
                    match AnalyticsStorage::get_session(a, &list[j]) {
                        Some(s) => {
                            if Self::session_matches_filter(s, filter) {
                                let ghost before = out@;
                                out.push(copy_session(s));
                                proof {
                                    assert(out@ =~= start + matching_sessions(ids.take(j + 1), a.sessions@, *filter));
                                }
                            }
                        },
                        None => {},
                    }
                    j = j + 1;
                }
                proof {
                    assert(ids.take(ids.len() as int) =~= ids);
                }
            },
        }
    }

    /// Whether a session passes a filter's dates, type and minimum score.
    fn session_matches_filter(session: &LearningSession, filter: &AnalyticsFilter) -> (r: bool)
        ensures
            r == matches_filter(*session, *filter),
    {
        if let Some(start_date) = filter.start_date {
            if session.start_time < start_date {
                return false;
            }
        }
        if let Some(end_date) = filter.end_date {
            if session.end_time > end_date {
                return false;
            }
        }
        match filter.session_type {
            OptionalSessionType::Any => {},
            OptionalSessionType::Only(session_type) => {
                if session.session_type != session_type {
                    return false;
                }
            },
        }
        if let Some(min_score) = filter.min_score {
            match session.score {
                Some(score) => {
                    if score < min_score {
                        return false;
                    }
                },
                None => return false,
            }
        }
        true
    }

    /// The figures of the seven days from `week_start`, one per day.
    pub fn generate_weekly_summary(a: &mut Analytics, course_id: &String, week_start: u64) -> (r: Result<Vec<AggregatedMetrics>, AnalyticsError>)
        requires
            week_start + 6 * DAY <= u64::MAX,
            forall|d: int| 0 <= d < 7 ==> #[trigger] daily_computable(old(a), course_id@, (week_start + d * DAY) as u64),
        ensures
            r is Ok,
            r->Ok_0@.len() == 7,
            forall|d: int| 0 <= d < 7 ==> #[trigger] r->Ok_0@[d] == daily_figures(old(a), *course_id, (week_start + d * DAY) as u64),
            final(a).sessions == old(a).sessions,
            final(a).student_sessions == old(a).student_sessions,
            final(a).course_students == old(a).course_students,
    {
        Self::generate_days(a, course_id, week_start, 7)
    }

    /// The figures of the given number of days from `month_start`, one per day.
    pub fn generate_monthly_summary(a: &mut Analytics, course_id: &String, month_start: u64, days_in_month: u32) -> (r: Result<Vec<AggregatedMetrics>, AnalyticsError>)
        requires
            days_in_month > 0 ==> month_start + (days_in_month - 1) * DAY <= u64::MAX,
            forall|d: int| 0 <= d < days_in_month ==> #[trigger] daily_computable(old(a), course_id@, (month_start + d * DAY) as u64),
        ensures
            r is Ok,
            r->Ok_0@.len() == days_in_month,
            forall|d: int| 0 <= d < days_in_month ==> #[trigger] r->Ok_0@[d] == daily_figures(old(a), *course_id, (month_start + d * DAY) as u64),
            final(a).sessions == old(a).sessions,
            final(a).student_sessions == old(a).student_sessions,
            final(a).course_students == old(a).course_students,
    {
        Self::generate_days(a, course_id, month_start, days_in_month)
    }

    fn generate_days(a: &mut Analytics, course_id: &String, first: u64, days: u32) -> (r: Result<Vec<AggregatedMetrics>, AnalyticsError>)
        requires
            days > 0 ==> first + (days - 1) * DAY <= u64::MAX,
            forall|d: int| 0 <= d < days ==> #[trigger] daily_computable(old(a), course_id@, (first + d * DAY) as u64),
        ensures
            r is Ok,
            r->Ok_0@.len() == days,
            forall|d: int| 0 <= d < days ==> #[trigger] r->Ok_0@[d] == daily_figures(old(a), *course_id, (first + d * DAY) as u64),
            final(a).sessions == old(a).sessions,
            final(a).student_sessions == old(a).student_sessions,
            final(a).course_students == old(a).course_students,
    {
        let mut out: Vec<AggregatedMetrics> = Vec::new();
        let mut day: u32 = 0;
        while day < days
            invariant
                0 <= day <= days,
                days > 0 ==> first + (days - 1) * DAY <= u64::MAX,
                a.sessions == old(a).sessions,
                a.student_sessions == old(a).student_sessions,
                a.course_students == old(a).course_students,
                forall|d: int| 0 <= d < days ==> #[trigger] daily_computable(old(a), course_id@, (first + d * DAY) as u64),
                out@.len() == day,
                forall|d: int| 0 <= d < day ==> #[trigger] out@[d] == daily_figures(old(a), *course_id, (first + d * DAY) as u64),
            decreases days - day,
        {
            proof {
                assert(day * DAY <= (days - 1) * DAY) by (nonlinear_arith)
                    requires day <= days - 1;
                assert(daily_computable(old(a), course_id@, (first + day * DAY) as u64));
            }
            let date = first + (day as u64) * DAY;
            let ghost before = *a;
            match Self::generate_daily_metrics(a, course_id, date) {
                Ok(m) => {
                    proof {
                        assert(daily_figures(&before, *course_id, date) == daily_figures(old(a), *course_id, date));
                    }
                    out.push(m);
                },
                Err(_) => {},
            }
            day = day + 1;
        }
        Ok(out)
    }
}

} // verus!
