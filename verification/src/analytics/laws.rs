use vstd::prelude::*;
use vstd::set_lib::FiniteRange;
use crate::common::ids::{Address, Bytes32};
use crate::common::lists::list_at;
use crate::analytics::reports::{
    active_count, active_day_set, completion_count, consistency_of, raw_consistency, course_day_sessions, matches_filter,
    matching_sessions, period_days, ranked_prefix, stable_descending, with_score, DAY,
    course_matching, filtered_result, metric_score, sessions_within,
};
use crate::analytics::gas::{after_score, batch_fold, counted};
use crate::analytics::storage::PackedMetrics;
use crate::analytics::storage::Analytics;
use crate::analytics::types::{
    AnalyticsFilter, LeaderboardEntry, LeaderboardMetric, LearningSession, OptionalSessionType, ProgressAnalytics,
};

verus! {

/// A consistency score is never above one hundred.
pub proof fn law_consistency_at_most_100(ss: Seq<LearningSession>, start: u64, end: u64)
    ensures
        consistency_of(ss, start, end) <= 100,
{
}

/// Over a period that starts at the start of a day, the share of active days of sessions that
/// start within the period is at most one hundred, so the cap leaves the score unchanged.
pub proof fn law_consistency_uncapped_on_aligned_periods(ss: Seq<LearningSession>, start: u64, end: u64)
    requires
        start < end,
        start % DAY == 0,
        forall|i: int| 0 <= i < ss.len() ==> start <= #[trigger] ss[i].start_time <= end,
        active_day_set(ss).len() * 100 <= u32::MAX,
        period_days(start, end) <= u32::MAX,
    ensures
        raw_consistency(ss, start, end) <= 100,
        consistency_of(ss, start, end) == raw_consistency(ss, start, end),
{
    if ss.len() > 0 {
        let lo: u64 = start / DAY;
        let hi: u64 = (end / DAY + 1) as u64;
        let range = <u64 as FiniteRange>::range_set(lo, hi);
        vstd::set_lib::range_set_properties::<u64>(lo, hi);
        assert forall|d: u64| active_day_set(ss).contains(d) implies range.contains(d) by {
            let i = choose|i: int| 0 <= i < ss.len() && #[trigger] (ss[i].start_time / DAY) == d;
            assert(start <= ss[i].start_time <= end);
            assert(start / DAY <= ss[i].start_time / DAY) by (nonlinear_arith)
                requires start <= ss[i].start_time;
            assert(ss[i].start_time / DAY <= end / DAY) by (nonlinear_arith)
                requires ss[i].start_time <= end;
        }
        vstd::set_lib::lemma_len_subset(active_day_set(ss), range);
        assert(hi - lo == period_days(start, end)) by (nonlinear_arith)
            requires
                start % DAY == 0,
                start < end,
                lo == start / DAY,
                hi == end / DAY + 1,
                DAY == 86400;
        let n: int = active_day_set(ss).len() as int;
        let p = period_days(start, end);
        assert(n <= p);
        assert((p as u32) as int == p);
        assert(n * 100 / p <= 100) by (nonlinear_arith)
            requires
                n <= p,
                p > 0;
    }
}

/// A leaderboard lists its entries by descending score with ranks counting up from one.
pub proof fn law_leaderboard_ranked(out: Seq<LeaderboardEntry>, sorted: Seq<LeaderboardEntry>, input: Seq<LeaderboardEntry>, i: int, j: int)
    requires
        stable_descending(sorted, input),
        ranked_prefix(out, sorted),
        out.len() <= u32::MAX,
        0 <= i < j < out.len(),
    ensures
        out[i].score >= out[j].score,
        out[i].rank == i + 1,
        out[j].rank == j + 1,
{
    assert(out[i] == (LeaderboardEntry { rank: (i + 1) as u32, ..sorted[i] }));
    assert(out[j] == (LeaderboardEntry { rank: (j + 1) as u32, ..sorted[j] }));
    assert(out.len() <= sorted.len());
}

proof fn lemma_with_score_contains(s: Seq<LeaderboardEntry>, v: u32, x: LeaderboardEntry)
    ensures
        with_score(s, v).contains(x) <==> (s.contains(x) && x.score == v),
    decreases s.len(),
{
    if s.len() > 0 {
        lemma_with_score_contains(s.drop_last(), v, x);
        let d = s.drop_last();
        if s.contains(x) && x.score == v {
            let i = choose|i: int| 0 <= i < s.len() && s[i] == x;
            if i < s.len() - 1 {
                assert(d[i] == x);
            }
        }
        if d.contains(x) {
            let i = choose|i: int| 0 <= i < d.len() && d[i] == x;
            assert(s[i] == x);
        }
        if s.last().score == v {
            let w = with_score(d, v);
            assert(with_score(s, v) == w.push(s.last()));
            if w.push(s.last()).contains(x) {
                let i = choose|i: int| 0 <= i < w.len() + 1 && w.push(s.last())[i] == x;
                if i < w.len() {
                    assert(w[i] == x);
                }
            }
            if w.contains(x) {
                let i = choose|i: int| 0 <= i < w.len() && w[i] == x;
                assert(w.push(s.last())[i] == x);
            }
            assert(w.push(s.last())[w.len() as int] == s.last());
        }
    }
}

/// Ordering the candidates loses and adds none of them.
pub proof fn law_leaderboard_keeps_candidates(sorted: Seq<LeaderboardEntry>, input: Seq<LeaderboardEntry>, x: LeaderboardEntry)
    requires
        stable_descending(sorted, input),
    ensures
        sorted.contains(x) <==> input.contains(x),
        sorted.len() == input.len(),
{
    lemma_with_score_contains(sorted, x.score, x);
    lemma_with_score_contains(input, x.score, x);
    assert(with_score(sorted, x.score) == with_score(input, x.score));
}

/// A day's completions and active students never exceed the day's sessions.
pub proof fn law_daily_counts_bounded(
    lists: Map<(u64, Seq<char>), Vec<Bytes32>>,
    m: Map<Seq<u8>, LearningSession>,
    course: Seq<char>,
    students: Seq<Address>,
    day: u64,
)
    ensures
        completion_count(course_day_sessions(lists, m, course, students, day))
            <= course_day_sessions(lists, m, course, students, day).len(),
        active_count(lists, m, course, students, day) <= course_day_sessions(lists, m, course, students, day).len(),
    decreases students.len(),
{
    lemma_completions_bounded(course_day_sessions(lists, m, course, students, day));
    if students.len() > 0 {
        law_daily_counts_bounded(lists, m, course, students.drop_last(), day);
    }
}

proof fn lemma_completions_bounded(ss: Seq<LearningSession>)
    ensures
        0 <= completion_count(ss) <= ss.len(),
    decreases ss.len(),
{
    if ss.len() > 0 {
        lemma_completions_bounded(ss.drop_last());
    }
}

/// Every session a filtered query selects passes the filter.
pub proof fn law_filter_selects_matching(ids: Seq<Bytes32>, m: Map<Seq<u8>, LearningSession>, f: AnalyticsFilter, i: int)
    requires
        0 <= i < matching_sessions(ids, m, f).len(),
    ensures
        matches_filter(matching_sessions(ids, m, f)[i], f),
    decreases ids.len(),
{
    if ids.len() > 0 {
        let rest = matching_sessions(ids.drop_last(), m, f);
        if i < rest.len() {
            law_filter_selects_matching(ids.drop_last(), m, f, i);
            let k = ids.last()@;
            if m.contains_key(k) && matches_filter(m[k], f) {
                assert(matching_sessions(ids, m, f)[i] == rest[i]);
            }
        }
    }
}


/// The counters after each event of `events` in turn, as `record_event_optimized` counts one.
pub open spec fn events_counted(m: PackedMetrics, events: Seq<(u32, u64)>) -> PackedMetrics
    decreases events.len(),
{
    if events.len() == 0 {
        m
    } else {
        counted(events_counted(m, events.drop_last()), events.last().0, events.last().1)
    }
}

/// The learners and average after each score event of `events` in turn, as
/// `record_event_optimized` takes one.
pub open spec fn scores_taken(pair: (u32, u32), events: Seq<(u32, u64)>) -> (u32, u32)
    decreases events.len(),
{
    if events.len() == 0 {
        pair
    } else {
        let prev = scores_taken(pair, events.drop_last());
        if events.last().0 == 2 { after_score(prev.0, prev.1, events.last().1) } else { prev }
    }
}

/// The number of events of a known kind: a view, a completion or a score.
pub open spec fn known_count(events: Seq<(u32, u64)>) -> nat
    decreases events.len(),
{
    if events.len() == 0 {
        0
    } else {
        known_count(events.drop_last()) + if events.last().0 <= 2 { 1nat } else { 0nat }
    }
}

/// Recording a batch of events is recording each event in turn: the counters and the
/// learners' average are those that `record_event_optimized` leaves after each event in
/// order, the events of a known kind are counted as processed, the others as skipped, and
/// together they are the whole batch.
pub proof fn law_batch_is_events_in_turn(m: PackedMetrics, pair: (u32, u32), events: Seq<(u32, u64)>)
    requires
        events.len() <= u32::MAX,
    ensures
        batch_fold(m, pair, events).0 == events_counted(m, events),
        batch_fold(m, pair, events).1 == scores_taken(pair, events),
        batch_fold(m, pair, events).2 == known_count(events),
        batch_fold(m, pair, events).3 == events.len() - known_count(events),
        batch_fold(m, pair, events).2 + batch_fold(m, pair, events).3 == events.len(),
    decreases events.len(),
{
    if events.len() > 0 {
        law_batch_is_events_in_turn(m, pair, events.drop_last());
        lemma_known_count_bounded(events.drop_last());
    }
}

proof fn lemma_known_count_bounded(events: Seq<(u32, u64)>)
    ensures
        known_count(events) <= events.len(),
    decreases events.len(),
{
    if events.len() > 0 {
        lemma_known_count_bounded(events.drop_last());
    }
}


/// By completion speed, a student who completed the course in `t` seconds (a positive
/// time that fits 32 bits) scores a million divided by `t`: a shorter time scores more.
pub proof fn law_completion_speed_inverts_time(p: ProgressAnalytics)
    requires
        p.completion_percentage == 100,
        p.first_activity < p.last_activity,
        p.last_activity - p.first_activity <= u32::MAX,
    ensures
        metric_score(p, LeaderboardMetric::CompletionSpeed) == 1000000int / (p.last_activity - p.first_activity),
{
}

/// By completion speed, a student who has not completed the course scores nothing.
pub proof fn law_incomplete_scores_nothing_on_speed(p: ProgressAnalytics)
    requires
        p.completion_percentage != 100,
    ensures
        metric_score(p, LeaderboardMetric::CompletionSpeed) == 0,
{
}

/// Of two students who completed the course, the one with the shorter completion time never
/// scores lower by completion speed, so on a board ordered by score it never ranks below
/// the slower one.
pub proof fn law_faster_completion_never_scores_lower(p: ProgressAnalytics, q: ProgressAnalytics)
    requires
        p.completion_percentage == 100,
        q.completion_percentage == 100,
        p.first_activity < p.last_activity,
        q.first_activity < q.last_activity,
        p.last_activity - p.first_activity <= q.last_activity - q.first_activity,
        q.last_activity - q.first_activity <= u32::MAX,
    ensures
        metric_score(p, LeaderboardMetric::CompletionSpeed) >= metric_score(q, LeaderboardMetric::CompletionSpeed),
{
    let tp: int = p.last_activity - p.first_activity;
    let tq: int = q.last_activity - q.first_activity;
    law_completion_speed_inverts_time(p);
    law_completion_speed_inverts_time(q);
    assert(1000000int / tp >= 1000000int / tq) by (nonlinear_arith)
        requires
            0 < tp <= tq;
}

/// Every session a filtered query returns meets each bound the filter sets: it starts no
/// earlier than the start date, ends no later than the end date, has the session type
/// asked for and a score of at least the minimum.
pub proof fn law_filtered_sessions_meet_the_filter(a: &Analytics, f: AnalyticsFilter, i: int)
    requires
        0 <= i < filtered_result(a, f).len(),
    ensures
        ({
            let s = filtered_result(a, f)[i];
            &&& f.start_date matches Some(d) ==> s.start_time >= d
            &&& f.end_date matches Some(d) ==> s.end_time <= d
            &&& f.session_type matches OptionalSessionType::Only(t) ==> s.session_type == t
            &&& f.min_score matches Some(ms) ==> (s.score matches Some(x) && x >= ms)
        }),
{
    match f.course_id {
        None => {},
        Some(course) => match f.student {
            Some(st) => {
                law_filter_selects_matching(list_at(a.student_sessions@, (st.id, course@)), a.sessions@, f, i);
            },
            None => {
                lemma_course_matching_matches(a.student_sessions@, a.sessions@, course@, list_at(a.course_students@, course@), f, i);
            },
        },
    }
}

proof fn lemma_course_matching_matches(
    lists: Map<(u64, Seq<char>), Vec<Bytes32>>,
    m: Map<Seq<u8>, LearningSession>,
    course: Seq<char>,
    students: Seq<Address>,
    f: AnalyticsFilter,
    i: int,
)
    requires
        0 <= i < course_matching(lists, m, course, students, f).len(),
    ensures
        matches_filter(course_matching(lists, m, course, students, f)[i], f),
    decreases students.len(),
{
    if students.len() > 0 {
        let front = course_matching(lists, m, course, students.drop_last(), f);
        let back = matching_sessions(list_at(lists, (students.last().id, course)), m, f);
        if i < front.len() {
            lemma_course_matching_matches(lists, m, course, students.drop_last(), f, i);
            assert((front + back)[i] == front[i]);
        } else {
            law_filter_selects_matching(list_at(lists, (students.last().id, course)), m, f, i - front.len());
            assert((front + back)[i] == back[i - front.len()]);
        }
    }
}

/// Every session a progress report counts lies within the report's period: it starts no
/// earlier than the start date and ends no later than the end date.
pub proof fn law_report_sessions_within_period(ids: Seq<Bytes32>, m: Map<Seq<u8>, LearningSession>, start: u64, end: u64, i: int)
    requires
        0 <= i < sessions_within(ids, m, start, end).len(),
    ensures
        sessions_within(ids, m, start, end)[i].start_time >= start,
        sessions_within(ids, m, start, end)[i].end_time <= end,
    decreases ids.len(),
{
    if ids.len() > 0 {
        let rest = sessions_within(ids.drop_last(), m, start, end);
        if i < rest.len() {
            law_report_sessions_within_period(ids.drop_last(), m, start, end, i);
            assert(sessions_within(ids, m, start, end)[i] == rest[i]);
        }
    }
}

/// A session that ends after the period or starts before it leaves the sessions a report
/// counts, and so its session count and total time, as they were.
pub proof fn law_session_outside_period_not_counted(
    ids: Seq<Bytes32>,
    m: Map<Seq<u8>, LearningSession>,
    start: u64,
    end: u64,
    extra: Bytes32,
)
    requires
        m.contains_key(extra@) ==> (m[extra@].end_time > end || m[extra@].start_time < start),
    ensures
        sessions_within(ids.push(extra), m, start, end) == sessions_within(ids, m, start, end),
{
    assert(ids.push(extra).drop_last() =~= ids);
}

} // verus!
