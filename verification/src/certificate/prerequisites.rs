use vstd::prelude::*;
use vstd::multiset::Multiset;
use vstd::seq_lib::seq_to_set_is_finite;
use crate::common::ids::{vec_contains, Address};
use crate::certificate::errors::CertificateError;
use crate::certificate::state::Certificate;
use crate::common::lists::{list_at, list_pushed, push_to_list};
use crate::certificate::types::{
    CompletedPrerequisite, CourseDependencyNode, CoursePrerequisite, LearningPath, MissingPrerequisite,
    PrerequisiteCheckResult, PrerequisiteCourse, PrerequisiteOverride, PrerequisiteViolation,
};

verus! {

/// The courses that `course` directly requires, in the order they were defined.
pub open spec fn direct(m: Map<Seq<char>, CoursePrerequisite>, course: Seq<char>) -> Seq<Seq<char>> {
    if m.contains_key(course) {
        m[course].prerequisite_courses@.map_values(|pc: PrerequisiteCourse| pc.course_id@)
    } else {
        Seq::empty()
    }
}

/// `t` holds every course that `course` requires, directly or through another course
/// of `t`.
pub open spec fn closed_from(m: Map<Seq<char>, CoursePrerequisite>, course: Seq<char>, t: Set<Seq<char>>) -> bool {
    &&& forall|x: Seq<char>| direct(m, course).contains(x) ==> t.contains(x)
    &&& forall|y: Seq<char>, x: Seq<char>| #![trigger t.contains(y), direct(m, y).contains(x)]
        t.contains(y) && direct(m, y).contains(x) ==> t.contains(x)
}

/// The courses that `course` requires directly or transitively: those in every set
/// closed under the prerequisite relation that holds the direct prerequisites.
pub open spec fn reach_set(m: Map<Seq<char>, CoursePrerequisite>, course: Seq<char>) -> Set<Seq<char>> {
    Set::new(|x: Seq<char>| forall|t: Set<Seq<char>>| #[trigger] closed_from(m, course, t) ==> t.contains(x))
}

/// Every course that some course directly requires.
pub open spec fn universe(m: Map<Seq<char>, CoursePrerequisite>) -> Set<Seq<char>> {
    Set::new(|x: Seq<char>| exists|k: Seq<char>| m.contains_key(k) && #[trigger] direct(m, k).contains(x))
}

/// No course occurs twice.
pub open spec fn distinct_courses(s: Seq<String>) -> bool {
    forall|i: int, j: int| 0 <= i < j < s.len() ==> s[i]@ != s[j]@
}

/// The courses of `s`.
pub open spec fn course_views(s: Seq<String>) -> Seq<Seq<char>> {
    s.map_values(|x: String| x@)
}

/// The courses of `s`, as a set.
pub open spec fn course_set(s: Seq<String>) -> Set<Seq<char>> {
    course_views(s).to_set()
}

proof fn lemma_universe_finite(m: Map<Seq<char>, CoursePrerequisite>)
    requires
        m.dom().finite(),
    ensures
        universe(m).finite(),
{
    let f = |k: Seq<char>| direct(m, k).to_set();
    let big = m.dom().map(f).flatten();
    assert forall|s: Set<Seq<char>>| m.dom().map(f).contains(s) implies #[trigger] s.finite() by {
        let k = choose|k: Seq<char>| m.dom().contains(k) && f(k) == s;
        seq_to_set_is_finite(direct(m, k));
    }
    m.dom().lemma_map_finite(f);
    m.dom().map(f).lemma_flatten_finite();
    assert forall|x: Seq<char>| universe(m).contains(x) implies big.contains(x) by {
        let k = choose|k: Seq<char>| m.contains_key(k) && #[trigger] direct(m, k).contains(x);
        assert(m.dom().map(f).contains(f(k)));
        assert(f(k).contains(x));
    }
    vstd::set_lib::lemma_set_subset_finite(big, universe(m));
}

pub proof fn lemma_distinct_len(s: Seq<String>)
    requires
        distinct_courses(s),
    ensures
        course_set(s).len() == s.len(),
{
    let v = course_views(s);
    assert(v.no_duplicates()) by {
        assert forall|i: int, j: int| 0 <= i < v.len() && 0 <= j < v.len() && i != j implies v[i] != v[j] by {
            if i < j {
                assert(s[i]@ != s[j]@);
            } else {
                assert(s[j]@ != s[i]@);
            }
        }
    }
    v.unique_seq_to_set();
}

/// Every direct prerequisite of course `q[k]` is among `all`.
pub open spec fn expanded(m: Map<Seq<char>, CoursePrerequisite>, q: Seq<String>, k: int, all: Seq<String>) -> bool {
    forall|x: Seq<char>| #[trigger] direct(m, q[k]@).contains(x) ==> course_set(all).contains(x)
}

/// Every course of `s` comes after those of its direct prerequisites that `pool` holds.
pub open spec fn ordered_within(m: Map<Seq<char>, CoursePrerequisite>, s: Seq<Seq<char>>, pool: Seq<Seq<char>>) -> bool {
    forall|i: int, x: Seq<char>| #![trigger s[i], direct(m, s[i]).contains(x)]
        0 <= i < s.len() && direct(m, s[i]).contains(x) && pool.contains(x)
        ==> exists|j: int| 0 <= j < i && s[j] == x
}

/// Every course of `s` comes after those of its direct prerequisites that `s` holds.
pub open spec fn valid_order(m: Map<Seq<char>, CoursePrerequisite>, s: Seq<Seq<char>>) -> bool {
    ordered_within(m, s, s)
}

/// `course` directly requires a course of `pool` that `placed` lacks.
pub open spec fn blocked(
    m: Map<Seq<char>, CoursePrerequisite>,
    placed: Seq<Seq<char>>,
    pool: Seq<Seq<char>>,
    course: Seq<char>,
) -> bool {
    exists|x: Seq<char>| #[trigger] direct(m, course).contains(x) && pool.contains(x) && !placed.contains(x)
}

/// Each of the courses `rem` directly requires a course of `pool` that `placed` lacks.
pub open spec fn all_blocked(
    m: Map<Seq<char>, CoursePrerequisite>,
    placed: Seq<Seq<char>>,
    pool: Seq<Seq<char>>,
    rem: Seq<Seq<char>>,
) -> bool {
    forall|i: int| 0 <= i < rem.len() ==> #[trigger] blocked(m, placed, pool, rem[i])
}

/// Course `y` directly requires a course of `s`.
pub open spec fn requires_one_of(m: Map<Seq<char>, CoursePrerequisite>, s: Set<Seq<char>>, y: Seq<char>) -> bool {
    exists|x: Seq<char>| direct(m, y).contains(x) && s.contains(x)
}

/// Some nonempty part of `t` cannot be ordered: each of its courses directly requires
/// another of its courses.
pub open spec fn stuck_within(m: Map<Seq<char>, CoursePrerequisite>, t: Set<Seq<char>>) -> bool {
    exists|s: Set<Seq<char>>| #![trigger s.subset_of(t)]
        s.subset_of(t) && s.len() > 0 && s.finite()
        && forall|y: Seq<char>| s.contains(y) ==> #[trigger] requires_one_of(m, s, y)
}

/// No part of the courses of an ordered sequence is stuck.
proof fn lemma_ordered_not_stuck(m: Map<Seq<char>, CoursePrerequisite>, q: Seq<Seq<char>>, st: Set<Seq<char>>, i: int)
    requires
        valid_order(m, q),
        st.subset_of(q.to_set()),
        forall|y: Seq<char>| st.contains(y) ==> #[trigger] requires_one_of(m, st, y),
        0 <= i < q.len(),
    ensures
        !st.contains(q[i]),
    decreases i,
{
    if st.contains(q[i]) {
        let y = q[i];
        assert(requires_one_of(m, st, y));
        let x = choose|x: Seq<char>| direct(m, y).contains(x) && st.contains(x);
        assert(q.to_set().contains(x));
        assert(q.contains(x));
        assert(direct(m, q[i]).contains(x));
        let j = choose|j: int| 0 <= j < i && q[j] == x;
        lemma_ordered_not_stuck(m, q, st, j);
    }
}

/// The courses left over when ordering stops are a stuck part of the courses.
proof fn lemma_blocked_is_stuck(
    m: Map<Seq<char>, CoursePrerequisite>,
    placed: Seq<Seq<char>>,
    rem: Seq<Seq<char>>,
    pool: Seq<Seq<char>>,
)
    requires
        rem.len() > 0,
        placed.to_multiset().add(rem.to_multiset()) == pool.to_multiset(),
        all_blocked(m, placed, pool, rem),
    ensures
        stuck_within(m, pool.to_set()),
{
    broadcast use vstd::seq_lib::group_to_multiset_ensures;
    let st = rem.to_set();
    assert(st.contains(rem[0]));
    vstd::seq_lib::seq_to_set_is_finite(rem);
    assert(st.len() > 0) by {
        if st.len() == 0 {
            st.lemma_len0_is_empty();
        }
    }
    assert forall|y: Seq<char>| st.contains(y) implies pool.to_set().contains(y) by {
        assert(rem.to_multiset().count(y) > 0);
        assert(pool.to_multiset().count(y) > 0);
    }
    assert forall|y: Seq<char>| st.contains(y) implies #[trigger] requires_one_of(m, st, y) by {
        let k = choose|k: int| 0 <= k < rem.len() && rem[k] == y;
        assert(blocked(m, placed, pool, rem[k]));
        let x = choose|x: Seq<char>| #[trigger] direct(m, y).contains(x) && pool.contains(x) && !placed.contains(x);
        assert(pool.to_multiset().count(x) > 0);
        assert(placed.to_multiset().count(x) == 0);
        assert(rem.to_multiset().count(x) > 0);
        assert(st.contains(x));
    }
    assert(st.subset_of(pool.to_set()));
}

/// A copy of a list of strings.
pub fn copy_strings(v: &Vec<String>) -> (r: Vec<String>)
    ensures
        r@ == v@,
{
    let mut out: Vec<String> = Vec::new();
    let mut i: usize = 0;
    while i < v.len()
        invariant
            0 <= i <= v@.len(),
            out@ == v@.take(i as int),
        decreases v@.len() - i,
    {
        out.push(v[i].clone());
        proof {
            assert(v@.take(i + 1) =~= v@.take(i as int).push(v@[i as int]));
        }
        i = i + 1;
    }
    assert(v@.take(v@.len() as int) =~= v@);
    out
}

/// The share of a prerequisite course that progress reports for every student, while
/// no progress contract is consulted.
pub const REPORTED_COMPLETION: u32 = 75;

/// The share required of a prerequisite that names none.
pub const DEFAULT_REQUIRED_PERCENTAGE: u32 = 80;

/// The time left to finish a missing prerequisite, as reported: ten hours in seconds.
pub const REPORTED_REMAINING_TIME: u64 = 36000;

/// The time one course of a learning path is expected to take: forty hours in seconds.
pub const COURSE_DURATION: u64 = 144000;

/// The share of a prerequisite course a student must reach.
pub open spec fn required_percentage(pc: PrerequisiteCourse) -> u32 {
    if pc.minimum_percentage > 0 { pc.minimum_percentage } else { DEFAULT_REQUIRED_PERCENTAGE }
}

/// Whether the reported progress meets a prerequisite; no certificate is reported held.
pub open spec fn completes(pc: PrerequisiteCourse) -> bool {
    REPORTED_COMPLETION >= required_percentage(pc) && !pc.required_certificate
}

/// What is reported of a met prerequisite.
pub open spec fn completed_entry(pc: PrerequisiteCourse, now: u64) -> CompletedPrerequisite {
    CompletedPrerequisite {
        course_id: pc.course_id,
        completion_percentage: REPORTED_COMPLETION,
        has_certificate: false,
        completion_date: Some((now - 86400) as u64),
        certificate_id: None,
    }
}

/// What is reported of a prerequisite not met.
pub open spec fn missing_entry(pc: PrerequisiteCourse) -> MissingPrerequisite {
    MissingPrerequisite {
        course_id: pc.course_id,
        current_percentage: REPORTED_COMPLETION,
        required_percentage: required_percentage(pc),
        has_certificate: false,
        requires_certificate: pc.required_certificate,
        estimated_completion_time: Some(REPORTED_REMAINING_TIME),
    }
}

/// The met prerequisites of a list, in order.
pub open spec fn completed_list(pcs: Seq<PrerequisiteCourse>, now: u64) -> Seq<CompletedPrerequisite>
    decreases pcs.len(),
{
    if pcs.len() == 0 {
        Seq::empty()
    } else {
        let rest = completed_list(pcs.drop_last(), now);
        if completes(pcs.last()) { rest.push(completed_entry(pcs.last(), now)) } else { rest }
    }
}

/// The prerequisites of a list not met, in order.
pub open spec fn missing_list(pcs: Seq<PrerequisiteCourse>) -> Seq<MissingPrerequisite>
    decreases pcs.len(),
{
    if pcs.len() == 0 {
        Seq::empty()
    } else {
        let rest = missing_list(pcs.drop_last());
        if completes(pcs.last()) { rest } else { rest.push(missing_entry(pcs.last())) }
    }
}

/// Some prerequisite of the list is met.
pub open spec fn any_completes(pcs: Seq<PrerequisiteCourse>) -> bool {
    exists|i: int| 0 <= i < pcs.len() && #[trigger] completes(pcs[i])
}

/// An override holds at `now` unless it has an expiry that has passed.
pub open spec fn override_valid(o: PrerequisiteOverride, now: u64) -> bool {
    match o.expires_at {
        Some(e) => now <= e,
        None => true,
    }
}

/// A student holds a valid override of a course's prerequisites.
pub open spec fn active_override(c: &Certificate, student: Address, course: Seq<char>, now: u64) -> bool {
    c.overrides@.contains_key((student.id, course)) && override_valid(c.overrides@[(student.id, course)], now)
}

/// Whether a student may take a course at `now`.
pub open spec fn eligible_for(c: &Certificate, student: Address, course: Seq<char>, now: u64) -> bool {
    active_override(c, student, course, now)
        || missing_list(c.prerequisites@[course].prerequisite_courses@).len() == 0
}

/// The student may take the course: it has a definition and its prerequisites are
/// met or overridden.
pub open spec fn ready_for(c: &Certificate, student: Address, course: Seq<char>, now: u64) -> bool {
    c.prerequisites@.contains_key(course) && eligible_for(c, student, course, now)
}

/// Checking the course at `now` cannot fail on the clock: a met prerequisite is dated
/// one day before `now`.
pub open spec fn check_clock_ok(c: &Certificate, student: Address, course: Seq<char>, now: u64) -> bool {
    c.prerequisites@.contains_key(course) && !active_override(c, student, course, now)
        && any_completes(c.prerequisites@[course].prerequisite_courses@) ==> now >= 86400
}

/// Two overrides say the same.
pub open spec fn same_override(a: PrerequisiteOverride, b: PrerequisiteOverride) -> bool {
    &&& a.student == b.student
    &&& a.course_id == b.course_id
    &&& a.override_reason == b.override_reason
    &&& a.overridden_prerequisites@ == b.overridden_prerequisites@
    &&& a.granted_by == b.granted_by
    &&& a.granted_at == b.granted_at
    &&& a.expires_at == b.expires_at
    &&& a.conditions == b.conditions
}

/// `o` reports the stored override, if any, of `student` for `course`.
pub open spec fn reports_override(o: Option<PrerequisiteOverride>, c: &Certificate, student: Address, course: Seq<char>) -> bool {
    if c.overrides@.contains_key((student.id, course)) {
        o is Some && same_override(o->Some_0, c.overrides@[(student.id, course)])
    } else {
        o is None
    }
}

/// `r` is the outcome of checking `student` against `course` at `now`.
pub open spec fn is_check_result(r: PrerequisiteCheckResult, c: &Certificate, student: Address, course: String, now: u64) -> bool {
    let pcs = c.prerequisites@[course@].prerequisite_courses@;
    &&& r.student == student
    &&& r.course_id == course
    &&& r.check_timestamp == now
    &&& r.eligible == eligible_for(c, student, course@, now)
    &&& reports_override(r.override_applied, c, student, course@)
    &&& active_override(c, student, course@, now) ==> r.missing_prerequisites@.len() == 0
        && r.completed_prerequisites@.len() == 0
    &&& !active_override(c, student, course@, now) ==> r.missing_prerequisites@ == missing_list(pcs)
        && r.completed_prerequisites@ == completed_list(pcs, now)
}

/// Two check outcomes say the same.
pub open spec fn same_check(a: PrerequisiteCheckResult, b: PrerequisiteCheckResult) -> bool {
    &&& a.student == b.student
    &&& a.course_id == b.course_id
    &&& a.eligible == b.eligible
    &&& a.missing_prerequisites@ == b.missing_prerequisites@
    &&& a.completed_prerequisites@ == b.completed_prerequisites@
    &&& a.check_timestamp == b.check_timestamp
    &&& (a.override_applied is None <==> b.override_applied is None)
    &&& a.override_applied is Some ==> same_override(a.override_applied->Some_0, b.override_applied->Some_0)
}

/// Why a prerequisite definition is refused as malformed.
pub open spec fn config_ok(cp: CoursePrerequisite) -> bool {
    &&& cp.prerequisite_courses@.len() > 0
    &&& cp.minimum_completion_percentage <= 100
    &&& forall|i: int| 0 <= i < cp.prerequisite_courses@.len() ==> {
        let pc = #[trigger] cp.prerequisite_courses@[i];
        pc.minimum_percentage <= 100 && 1 <= pc.weight <= 10
    }
}

/// Some course that `cp` requires is defined as requiring `cp`'s course.
pub open spec fn closes_cycle(m: Map<Seq<char>, CoursePrerequisite>, cp: CoursePrerequisite) -> bool {
    exists|i: int| 0 <= i < cp.prerequisite_courses@.len()
        && #[trigger] direct(m, cp.prerequisite_courses@[i].course_id@).contains(cp.course_id@)
}

/// The highest level among the recorded nodes of `ids`, zero when none is recorded.
pub open spec fn max_level(deps: Map<Seq<char>, CourseDependencyNode>, ids: Seq<Seq<char>>) -> u32
    decreases ids.len(),
{
    if ids.len() == 0 {
        0
    } else {
        let rest = max_level(deps, ids.drop_last());
        let here: u32 = if deps.contains_key(ids.last()) { deps[ids.last()].level } else { 0 };
        if here > rest { here } else { rest }
    }
}

/// `o` is a copy of `i`.
fn copy_override(i: &PrerequisiteOverride) -> (o: PrerequisiteOverride)
    ensures
        same_override(o, *i),
{
    PrerequisiteOverride {
        student: i.student,
        course_id: i.course_id.clone(),
        override_reason: i.override_reason.clone(),
        overridden_prerequisites: copy_strings(&i.overridden_prerequisites),
        granted_by: i.granted_by,
        granted_at: i.granted_at,
        expires_at: i.expires_at,
        conditions: match &i.conditions {
            Some(s) => Some(s.clone()),
            None => None,
        },
    }
}

fn copy_missing(v: &Vec<MissingPrerequisite>) -> (r: Vec<MissingPrerequisite>)
    ensures
        r@ == v@,
{
    let mut out: Vec<MissingPrerequisite> = Vec::new();
    let mut i: usize = 0;
    while i < v.len()
        invariant
            0 <= i <= v@.len(),
            out@ == v@.take(i as int),
        decreases v@.len() - i,
    {
        let e = &v[i];
        out.push(MissingPrerequisite {
            course_id: e.course_id.clone(),
            current_percentage: e.current_percentage,
            required_percentage: e.required_percentage,
            has_certificate: e.has_certificate,
            requires_certificate: e.requires_certificate,
            estimated_completion_time: e.estimated_completion_time,
        });
        proof {
            assert(v@.take(i + 1) =~= v@.take(i as int).push(v@[i as int]));
        }
        i = i + 1;
    }
    assert(v@.take(v@.len() as int) =~= v@);
    out
}

fn copy_completed(v: &Vec<CompletedPrerequisite>) -> (r: Vec<CompletedPrerequisite>)
    ensures
        r@ == v@,
{
    let mut out: Vec<CompletedPrerequisite> = Vec::new();
    let mut i: usize = 0;
    while i < v.len()
        invariant
            0 <= i <= v@.len(),
            out@ == v@.take(i as int),
        decreases v@.len() - i,
    {
        let e = &v[i];
        out.push(CompletedPrerequisite {
            course_id: e.course_id.clone(),
            completion_percentage: e.completion_percentage,
            has_certificate: e.has_certificate,
            completion_date: e.completion_date,
            certificate_id: e.certificate_id,
        });
        proof {
            assert(v@.take(i + 1) =~= v@.take(i as int).push(v@[i as int]));
        }
        i = i + 1;
    }
    assert(v@.take(v@.len() as int) =~= v@);
    out
}

fn copy_check(r: &PrerequisiteCheckResult) -> (o: PrerequisiteCheckResult)
    ensures
        same_check(o, *r),
{
    PrerequisiteCheckResult {
        student: r.student,
        course_id: r.course_id.clone(),
        eligible: r.eligible,
        missing_prerequisites: copy_missing(&r.missing_prerequisites),
        completed_prerequisites: copy_completed(&r.completed_prerequisites),
        check_timestamp: r.check_timestamp,
        override_applied: match &r.override_applied {
            Some(o) => Some(copy_override(o)),
            None => None,
        },
    }
}

/// `vec_contains` on strings, read over the courses of the list.
proof fn lemma_course_views_contains(v: Seq<String>, k: String)
    ensures
        course_views(v).contains(k@) == (exists|i: int| 0 <= i < v.len() && #[trigger] v[i]@ == k@),
{
    if course_views(v).contains(k@) {
        let w = choose|w: int| 0 <= w < course_views(v).len() && course_views(v)[w] == k@;
        assert(v[w]@ == k@);
    }
    if exists|i: int| 0 <= i < v.len() && #[trigger] v[i]@ == k@ {
        let i = choose|i: int| 0 <= i < v.len() && #[trigger] v[i]@ == k@;
        assert(course_views(v)[i] == k@);
    }
}

/// Every course of `pool` that `course` directly requires is in `placed`.
fn prerequisites_placed(c: &Certificate, course: &String, placed: &Vec<String>, pool: &Vec<String>) -> (r: bool)
    ensures
        r == (forall|x: Seq<char>| direct(c.prerequisites@, course@).contains(x) && course_views(pool@).contains(x)
            ==> course_views(placed@).contains(x)),
{
    match c.prerequisites.get(course) {
        None => {
            proof {
                assert(direct(c.prerequisites@, course@) =~= Seq::<Seq<char>>::empty());
            }
            true
        },
        Some(p) => {
            let list = &p.prerequisite_courses;
            let ghost d = direct(c.prerequisites@, course@);
            let mut j: usize = 0;
            while j < list.len()
                invariant
                    0 <= j <= list@.len(),
                    c.prerequisites@.contains_key(course@),
                    list@ == c.prerequisites@[course@].prerequisite_courses@,
                    d == direct(c.prerequisites@, course@),
                    d.len() == list@.len(),
                    forall|k: int| 0 <= k < j && course_views(pool@).contains(#[trigger] d[k])
                        ==> course_views(placed@).contains(d[k]),
                decreases list@.len() - j,
            {
                assert(d[j as int] == list@[j as int].course_id@);
                let in_pool = vec_contains(pool, &list[j].course_id);
                let in_placed = vec_contains(placed, &list[j].course_id);
                proof {
                    lemma_course_views_contains(pool@, list@[j as int].course_id);
                    lemma_course_views_contains(placed@, list@[j as int].course_id);
                }
                if in_pool && !in_placed {
                    proof {
                        assert(d.contains(d[j as int]));
                    }
                    return false;
                }
                j = j + 1;
            }
            proof {
                assert forall|x: Seq<char>| d.contains(x) && course_views(pool@).contains(x)
                    implies course_views(placed@).contains(x) by {
                    let k = choose|k: int| 0 <= k < d.len() && d[k] == x;
                    assert(course_views(pool@).contains(d[k]));
                }
            }
            true
        },
    }
}

proof fn lemma_distinct_iff_no_duplicates(s: Seq<String>)
    ensures
        distinct_courses(s) <==> course_views(s).no_duplicates(),
{
    let v = course_views(s);
    if distinct_courses(s) {
        assert forall|i: int, j: int| 0 <= i < v.len() && 0 <= j < v.len() && i != j implies v[i] != v[j] by {
            if i < j {
                assert(s[i]@ != s[j]@);
            } else {
                assert(s[j]@ != s[i]@);
            }
        }
    }
    if v.no_duplicates() {
        assert forall|i: int, j: int| 0 <= i < j < s.len() implies s[i]@ != s[j]@ by {
            assert(v[i] != v[j]);
        }
    }
}

/// Same elements, counted with multiplicity, keep the courses apart and name the same set.
proof fn lemma_same_multiset(a: Seq<String>, b: Seq<String>)
    requires
        course_views(a).to_multiset() == course_views(b).to_multiset(),
        distinct_courses(b),
    ensures
        distinct_courses(a),
        course_set(a) == course_set(b),
{
    broadcast use vstd::seq_lib::group_to_multiset_ensures;
    let va = course_views(a);
    let vb = course_views(b);
    va.to_multiset_ensures();
    vb.to_multiset_ensures();
    lemma_distinct_iff_no_duplicates(b);
    vb.lemma_multiset_has_no_duplicates();
    va.lemma_multiset_has_no_duplicates_conv();
    lemma_distinct_iff_no_duplicates(a);
    assert forall|x: Seq<char>| course_set(a).contains(x) <==> course_set(b).contains(x) by {
        assert(va.contains(x) <==> va.to_multiset().count(x) > 0);
        assert(vb.contains(x) <==> vb.to_multiset().count(x) > 0);
    }
    assert(course_set(a) =~= course_set(b));
}

/// Two learning paths say the same.
pub open spec fn same_path(a: LearningPath, b: LearningPath) -> bool {
    &&& a.student == b.student
    &&& a.target_course == b.target_course
    &&& a.recommended_sequence@ == b.recommended_sequence@
    &&& a.estimated_total_time == b.estimated_total_time
    &&& a.current_position == b.current_position
    &&& a.generated_at == b.generated_at
    &&& a.last_updated == b.last_updated
}

/// The courses a student still lacks on the way to `target`.
pub open spec fn lacking(c: &Certificate, student: Address, target: Seq<char>, now: u64) -> Set<Seq<char>> {
    reach_set(c.prerequisites@, target).filter(|x: Seq<char>| !ready_for(c, student, x, now))
}

/// Prerequisite definitions and the checks and plans built on them.
pub struct PrerequisiteManager;

impl PrerequisiteManager {
    /// Every course that `course_id` requires, directly or transitively, each once, in
    /// breadth-first order.
    pub fn get_all_prerequisites(c: &Certificate, course_id: &String) -> (r: Result<Vec<String>, CertificateError>)
        ensures
            r is Ok,
            distinct_courses(r->Ok_0@),
            closed_from(c.prerequisites@, course_id@, course_set(r->Ok_0@)),
            forall|t: Set<Seq<char>>| #[trigger] closed_from(c.prerequisites@, course_id@, t)
                ==> course_set(r->Ok_0@).subset_of(t),
            course_set(r->Ok_0@) == reach_set(c.prerequisites@, course_id@),
    {
        let ghost m = c.prerequisites@;
        let ghost u = universe(m);
        proof {
            c.prerequisites.lemma_dom_finite();
            lemma_universe_finite(m);
        }
        let mut all: Vec<String> = Vec::new();
        let mut queue: Vec<String> = Vec::new();
        queue.push(course_id.clone());
        let mut head: usize = 0;
        proof {
            assert(course_views(all@) =~= Seq::<Seq<char>>::empty());
            assert(course_set(all@) =~= Set::<Seq<char>>::empty());
        }
        while head < queue.len()
            invariant
                m == c.prerequisites@,
                u == universe(m),
                u.finite(),
                queue@.len() == all@.len() + 1,
                queue@[0]@ == course_id@,
                forall|k: int| 0 <= k < all@.len() ==> #[trigger] queue@[k + 1]@ == all@[k]@,
                0 <= head <= queue@.len(),
                distinct_courses(all@),
                course_set(all@).subset_of(u),
                forall|k: int| 0 <= k < head ==> #[trigger] expanded(m, queue@, k, all@),
                forall|t: Set<Seq<char>>| #[trigger] closed_from(m, course_id@, t) ==> course_set(all@).subset_of(t),
            decreases u.len() - all@.len(), queue@.len() - head,
        {
            proof {
                lemma_distinct_len(all@);
                vstd::set_lib::lemma_len_subset(course_set(all@), u);
            }
            let current = queue[head].clone();
            let ghost cur = current@;
            let ghost all0 = all@;
            let ghost queue0 = queue@;
            match c.prerequisites.get(&current) {
                None => {
                    proof {
                        assert(direct(m, cur) =~= Seq::<Seq<char>>::empty());
                    }
                },
                Some(p) => {
                    let list = &p.prerequisite_courses;
                    let mut j: usize = 0;
                    let ghost d = direct(m, cur);
                    proof {
                        assert forall|t: Set<Seq<char>>| #[trigger] closed_from(m, course_id@, t)
                            implies (cur == course_id@ || t.contains(cur)) by {
                            if head > 0 {
                                let w = (head - 1) as int;
                                assert(queue@[w + 1]@ == all@[w]@);
                                assert(course_views(all@)[w] == cur);
                                assert(course_set(all@).contains(cur));
                            }
                        }
                    }
                    while j < list.len()
                        invariant
                            m == c.prerequisites@,
                            u == universe(m),
                            u.finite(),
                            m.contains_key(cur),
                            d == direct(m, cur),
                            list@ == m[cur].prerequisite_courses@,
                            0 <= j <= list@.len(),
                            queue@.len() == all@.len() + 1,
                            queue@[0]@ == course_id@,
                            forall|k: int| 0 <= k < all@.len() ==> #[trigger] queue@[k + 1]@ == all@[k]@,
                            all@.len() >= all0.len(),
                            all@.take(all0.len() as int) == all0,
                            queue@.take(queue0.len() as int) == queue0,
                            head < queue0.len(),
                            queue0.len() == all0.len() + 1,
                            queue0[head as int]@ == cur,
                            distinct_courses(all@),
                            course_set(all@).subset_of(u),
                            forall|k: int| 0 <= k < j ==> course_set(all@).contains(#[trigger] d[k]),
                            forall|t: Set<Seq<char>>| #[trigger] closed_from(m, course_id@, t) ==> course_set(all@).subset_of(t),
                            forall|t: Set<Seq<char>>| #[trigger] closed_from(m, course_id@, t) ==> (cur == course_id@ || t.contains(cur)),
                        decreases list@.len() - j,
                    {
                        let pc_id = &list[j].course_id;
                        assert(d[j as int] == pc_id@);
                        if !vec_contains(&all, pc_id) {
                            let ghost before = all@;
                            let ghost qbefore = queue@;
                            all.push(pc_id.clone());
                            queue.push(pc_id.clone());
                            proof {
                                assert(course_views(all@) =~= course_views(before).push(pc_id@));
                                course_views(before).lemma_push_to_set_commute(pc_id@);
                                assert(course_set(all@) =~= course_set(before).insert(pc_id@));
                                assert(u.contains(pc_id@)) by {
                                    assert(direct(m, cur).contains(pc_id@));
                                }
                                assert forall|t: Set<Seq<char>>| #[trigger] closed_from(m, course_id@, t)
                                    implies course_set(all@).subset_of(t) by {
                                    assert(course_set(before).subset_of(t));
                                    assert(direct(m, cur).contains(pc_id@));
                                    if cur != course_id@ {
                                        assert(t.contains(cur));
                                    }
                                }
                                assert forall|k: int| 0 <= k < j + 1 implies course_set(all@).contains(#[trigger] d[k]) by {
                                    if k < j {
                                        assert(course_set(before).contains(d[k]));
                                    }
                                }
                                assert(all@.take(all0.len() as int) =~= before.take(all0.len() as int));
                                assert(queue@.take(queue0.len() as int) =~= qbefore.take(queue0.len() as int));
                            }
                        } else {
                            proof {
                                let w = choose|w: int| 0 <= w < all@.len() && #[trigger] all@[w]@ == pc_id@;
                                assert(course_views(all@)[w] == pc_id@);
                            }
                        }
                        j = j + 1;
                    }
                    proof {
                        assert(d.len() == list@.len());
                    }
                },
            }
            proof {
                assert forall|k: int| 0 <= k < head + 1 implies #[trigger] expanded(m, queue@, k, all@) by {
                    assert forall|x: Seq<char>| #[trigger] direct(m, queue@[k]@).contains(x)
                        implies course_set(all@).contains(x) by {
                        assert(queue@[k] == queue0[k]);
                        if k < head {
                            assert(expanded(m, queue0, k, all0));
                            assert(course_set(all0).contains(x));
                            let w = choose|w: int| 0 <= w < all0.len() && #[trigger] course_views(all0)[w] == x;
                            assert(course_views(all@)[w] == x);
                        } else {
                            let w = choose|w: int| 0 <= w < direct(m, cur).len() && direct(m, cur)[w] == x;
                        }
                    }
                }
            }
            proof {
                lemma_distinct_len(all@);
                vstd::set_lib::lemma_len_subset(course_set(all@), u);
            }
            head = head + 1;
        }
        proof {
            assert forall|x: Seq<char>| direct(m, course_id@).contains(x) implies course_set(all@).contains(x) by {
                assert(expanded(m, queue@, 0, all@));
                assert(direct(m, queue@[0]@).contains(x));
            }
            assert forall|y: Seq<char>, x: Seq<char>| #![trigger course_set(all@).contains(y), direct(m, y).contains(x)]
                course_set(all@).contains(y) && direct(m, y).contains(x)
                implies course_set(all@).contains(x) by {
                let w = choose|w: int| 0 <= w < all@.len() && #[trigger] course_views(all@)[w] == y;
                assert(queue@[w + 1]@ == y);
                assert(expanded(m, queue@, w + 1, all@));
                assert(direct(m, queue@[w + 1]@).contains(x));
            }
            assert(course_set(all@) =~= reach_set(m, course_id@)) by {
                assert forall|x: Seq<char>| reach_set(m, course_id@).contains(x) implies course_set(all@).contains(x) by {
                    assert(closed_from(m, course_id@, course_set(all@)));
                }
            }
        }
        Ok(all)
    }

    /// Orders courses so that each comes after the courses it directly requires, taking
    /// at each pass, in order, every course whose prerequisites are already placed.
    /// Fails when a pass places nothing.
    fn optimize_learning_sequence(c: &Certificate, courses: &Vec<String>) -> (r: Result<Vec<String>, CertificateError>)
        ensures
            match r {
                Ok(seq) => course_views(seq@).to_multiset() == course_views(courses@).to_multiset()
                    && valid_order(c.prerequisites@, course_views(seq@)),
                Err(e) => e == CertificateError::CircularDependency && exists|placed: Seq<Seq<char>>, rem: Seq<Seq<char>>|
                    rem.len() > 0
                    && #[trigger] placed.to_multiset().add(rem.to_multiset()) == course_views(courses@).to_multiset()
                    && ordered_within(c.prerequisites@, placed, course_views(courses@))
                    && all_blocked(c.prerequisites@, placed, course_views(courses@), rem),
            },
    {
        broadcast use vstd::seq_lib::group_to_multiset_ensures;
        let ghost m = c.prerequisites@;
        let ghost pool = course_views(courses@);
        let mut sequence: Vec<String> = Vec::new();
        let mut remaining = copy_strings(courses);
        proof {
            assert(course_views(sequence@) =~= Seq::<Seq<char>>::empty());
            assert(course_views(sequence@).to_multiset() =~= Multiset::<Seq<char>>::empty());
        }
        while remaining.len() > 0
            invariant
                m == c.prerequisites@,
                course_views(sequence@).to_multiset().add(course_views(remaining@).to_multiset())
                    == course_views(courses@).to_multiset(),
                ordered_within(m, course_views(sequence@), pool),
                pool == course_views(courses@),
            decreases remaining@.len(),
        {
            let mut added_any = false;
            let mut i: usize = 0;
            let ghost start_len = remaining@.len();
            while i < remaining.len()
                invariant
                    m == c.prerequisites@,
                    0 <= i <= remaining@.len(),
                    remaining@.len() <= start_len,
                    added_any ==> remaining@.len() < start_len,
                    !added_any ==> remaining@.len() == start_len,
                    course_views(sequence@).to_multiset().add(course_views(remaining@).to_multiset())
                        == course_views(courses@).to_multiset(),
                    ordered_within(m, course_views(sequence@), pool),
                    pool == course_views(courses@),
                    !added_any ==> all_blocked(m, course_views(sequence@), pool, course_views(remaining@).take(i as int)),
                decreases remaining@.len() - i,
            {
                let can_add = prerequisites_placed(c, &remaining[i], &sequence, courses);
                if can_add {
                    let ghost sv = course_views(sequence@);
                    let ghost rv = course_views(remaining@);
                    let course = remaining.remove(i);
                    sequence.push(course);
                    proof {
                        assert(course_views(sequence@) =~= sv.push(rv[i as int]));
                        assert(course_views(remaining@) =~= rv.remove(i as int));
                        rv.to_multiset_ensures();
                        sv.to_multiset_ensures();
                        assert(rv.contains(rv[i as int]));
                        assert(rv.to_multiset().count(rv[i as int]) > 0);
                        assert(course_views(sequence@).to_multiset() =~= sv.to_multiset().insert(rv[i as int]));
                        assert(course_views(remaining@).to_multiset() =~= rv.to_multiset().remove(rv[i as int]));
                        assert(course_views(sequence@).to_multiset().add(course_views(remaining@).to_multiset())
                            =~= sv.to_multiset().add(rv.to_multiset()));
                        let nv = course_views(sequence@);
                        assert forall|a: int, x: Seq<char>| #![trigger nv[a], direct(m, nv[a]).contains(x)]
                            0 <= a < nv.len() && direct(m, nv[a]).contains(x) && pool.contains(x)
                            implies exists|b: int| 0 <= b < a && nv[b] == x by {
                            if a < sv.len() {
                                assert(nv[a] == sv[a]);
                                let b = choose|b: int| 0 <= b < a && sv[b] == x;
                                assert(nv[b] == sv[b]);
                            } else {
                                assert(sv.contains(x));
                                let b = choose|b: int| 0 <= b < sv.len() && sv[b] == x;
                                assert(nv[b] == sv[b]);
                            }
                        }
                    }
                    added_any = true;
                } else {
                    proof {
                        let rv = course_views(remaining@);
                        let sv = course_views(sequence@);
                        if !added_any {
                            assert forall|k: int| 0 <= k < i + 1 implies #[trigger] blocked(m, sv, pool, rv.take(i + 1)[k]) by {
                                if k < i {
                                    assert(rv.take(i + 1)[k] == rv.take(i as int)[k]);
                                    assert(blocked(m, sv, pool, rv.take(i as int)[k]));
                                } else {
                                    assert(rv.take(i + 1)[k] == remaining@[i as int]@);
                                    assert(!(forall|x: Seq<char>| direct(m, rv[i as int]).contains(x) && pool.contains(x) ==> sv.contains(x)));
                                }
                            }
                        }
                    }
                    i = i + 1;
                }
            }
            if !added_any {
                proof {
                    let placed = course_views(sequence@);
                    let rem = course_views(remaining@);
                    assert(rem.take(remaining@.len() as int) =~= rem);
                    assert(rem.len() > 0);
                    assert(placed.to_multiset().add(rem.to_multiset()) == course_views(courses@).to_multiset());
                }
                return Err(CertificateError::CircularDependency);
            }
        }
        proof {
            assert(course_views(remaining@) =~= Seq::<Seq<char>>::empty());
            assert(course_views(sequence@).to_multiset().add(Multiset::<Seq<char>>::empty())
                =~= course_views(sequence@).to_multiset());
            let sv = course_views(sequence@);
            sv.to_multiset_ensures();
            pool.to_multiset_ensures();
            assert forall|i: int, x: Seq<char>| #![trigger sv[i], direct(m, sv[i]).contains(x)]
                0 <= i < sv.len() && direct(m, sv[i]).contains(x) && sv.contains(x)
                implies exists|j: int| 0 <= j < i && sv[j] == x by {
                assert(sv.to_multiset().count(x) > 0);
                assert(pool.contains(x));
            }
        }
        Ok(sequence)
    }

    /// Checks a student against a course's prerequisites at `now`. A valid override makes
    /// the student eligible outright; otherwise each prerequisite is met or missing by the
    /// reported progress, and the outcome is kept for the pair.
    pub fn check_prerequisites(
        c: &mut Certificate,
        student: &Address,
        course_id: &String,
        progress_contract: &Address,
        now: u64,
    ) -> (r: Result<PrerequisiteCheckResult, CertificateError>)
        requires
            check_clock_ok(old(c), *student, course_id@, now),
        ensures
            !old(c).prerequisites@.contains_key(course_id@)
                ==> r == Err::<PrerequisiteCheckResult, CertificateError>(CertificateError::PrerequisiteNotFound)
                && *final(c) == *old(c),
            old(c).prerequisites@.contains_key(course_id@) ==> {
                &&& r is Ok
                &&& is_check_result(r->Ok_0, old(c), *student, *course_id, now)
                &&& active_override(old(c), *student, course_id@, now) ==> *final(c) == *old(c)
                &&& !active_override(old(c), *student, course_id@, now) ==> {
                    &&& final(c).check_cache@.dom() == old(c).check_cache@.dom().insert((student.id, course_id@))
                    &&& same_check(final(c).check_cache@[(student.id, course_id@)], r->Ok_0)
                    &&& forall|k: (u64, Seq<char>)| k != (student.id, course_id@) && #[trigger] old(c).check_cache@.contains_key(k)
                        ==> final(c).check_cache@[k] == old(c).check_cache@[k]
                    &&& *final(c) == (Certificate { check_cache: final(c).check_cache, ..*old(c) })
                }
            },
    {
        let key = (*student, course_id.clone());
        let override_applied: Option<PrerequisiteOverride> = match c.overrides.get(&key) {
            Some(o) => Some(copy_override(o)),
            None => None,
        };
        let valid = match &override_applied {
            Some(o) => match o.expires_at {
                Some(e) => now <= e,
                None => true,
            },
            None => false,
        };
        let pcs = match c.prerequisites.get(course_id) {
            None => return Err(CertificateError::PrerequisiteNotFound),
            Some(p) => &p.prerequisite_courses,
        };
        if valid {
            return Ok(PrerequisiteCheckResult {
                student: *student,
                course_id: course_id.clone(),
                eligible: true,
                missing_prerequisites: Vec::new(),
                completed_prerequisites: Vec::new(),
                check_timestamp: now,
                override_applied,
            });
        }
        let mut missing: Vec<MissingPrerequisite> = Vec::new();
        let mut completed: Vec<CompletedPrerequisite> = Vec::new();
        let mut eligible = true;
        let mut i: usize = 0;
        while i < pcs.len()
            invariant
                0 <= i <= pcs@.len(),
                any_completes(pcs@) ==> now >= 86400,
                missing@ == missing_list(pcs@.take(i as int)),
                completed@ == completed_list(pcs@.take(i as int), now),
                eligible == (missing@.len() == 0),
            decreases pcs@.len() - i,
        {
            proof {
                assert(pcs@.take(i + 1).drop_last() =~= pcs@.take(i as int));
                assert(pcs@.take(i + 1).last() == pcs@[i as int]);
            }
            match Self::check_course_completion(student, &pcs[i].course_id, &pcs[i], progress_contract, now) {
                Ok(done) => completed.push(done),
                Err(miss) => {
                    missing.push(miss);
                    eligible = false;
                },
            }
            i = i + 1;
        }
        proof {
            assert(pcs@.take(pcs@.len() as int) =~= pcs@);
        }
        let eligible = Self::apply_enforcement_policy(eligible);
        let result = PrerequisiteCheckResult {
            student: *student,
            course_id: course_id.clone(),
            eligible,
            missing_prerequisites: missing,
            completed_prerequisites: completed,
            check_timestamp: now,
            override_applied,
        };
        let cached = copy_check(&result);
        c.check_cache.set(key, cached);
        Ok(result)
    }

    /// Whether the reported progress meets one prerequisite: the met prerequisite, or what
    /// is missing of it.
    fn check_course_completion(
        student: &Address,
        course_id: &String,
        prereq_course: &PrerequisiteCourse,
        progress_contract: &Address,
        now: u64,
    ) -> (r: Result<CompletedPrerequisite, MissingPrerequisite>)
        requires
            *course_id == prereq_course.course_id,
            completes(*prereq_course) ==> now >= 86400,
        ensures
            completes(*prereq_course) ==> r == Ok::<CompletedPrerequisite, MissingPrerequisite>(completed_entry(*prereq_course, now)),
            !completes(*prereq_course) ==> r == Err::<CompletedPrerequisite, MissingPrerequisite>(missing_entry(*prereq_course)),
    {
        let completion_percentage = REPORTED_COMPLETION;
        let has_certificate = false;
        let required = if prereq_course.minimum_percentage > 0 {
            prereq_course.minimum_percentage
        } else {
            DEFAULT_REQUIRED_PERCENTAGE
        };
        if completion_percentage >= required && (!prereq_course.required_certificate || has_certificate) {
            Ok(CompletedPrerequisite {
                course_id: course_id.clone(),
                completion_percentage,
                has_certificate,
                completion_date: Some(now - 86400),
                certificate_id: None,
            })
        } else {
            Err(MissingPrerequisite {
                course_id: course_id.clone(),
                current_percentage: completion_percentage,
                required_percentage: required,
                has_certificate,
                requires_certificate: prereq_course.required_certificate,
                estimated_completion_time: Some(REPORTED_REMAINING_TIME),
            })
        }
    }

    /// The strict policy: eligibility is what the prerequisites give.
    fn apply_enforcement_policy(base_eligible: bool) -> (r: bool)
        ensures
            r == base_eligible,
    {
        base_eligible
    }

    /// Defines a course's prerequisites and records the course's place in the graph.
    /// `permitted` is whether the access-control registry grants `admin` the right to
    /// update certificate metadata.
    pub fn define_prerequisites(
        c: &mut Certificate,
        admin: &Address,
        course_prerequisite: CoursePrerequisite,
        permitted: bool,
    ) -> (r: Result<(), CertificateError>)
        requires
            forall|k: Seq<char>| #[trigger] old(c).dependencies@.contains_key(k) ==> old(c).dependencies@[k].level < u32::MAX,
        ensures
            !permitted ==> r == Err::<(), CertificateError>(CertificateError::Unauthorized) && *final(c) == *old(c),
            permitted && !config_ok(course_prerequisite)
                ==> r == Err::<(), CertificateError>(CertificateError::InvalidPrerequisiteConfig) && *final(c) == *old(c),
            permitted && config_ok(course_prerequisite) && closes_cycle(old(c).prerequisites@, course_prerequisite)
                ==> r == Err::<(), CertificateError>(CertificateError::CircularDependency) && *final(c) == *old(c),
            permitted && config_ok(course_prerequisite) && !closes_cycle(old(c).prerequisites@, course_prerequisite) ==> {
                let id = course_prerequisite.course_id@;
                let m = final(c).prerequisites@;
                let node = final(c).dependencies@[id];
                &&& r == Ok::<(), CertificateError>(())
                &&& m == old(c).prerequisites@.insert(id, course_prerequisite)
                &&& final(c).dependencies@ == old(c).dependencies@.insert(id, node)
                &&& node.course_id == course_prerequisite.course_id
                &&& node.level == max_level(old(c).dependencies@, direct(m, id)) + 1
                &&& course_views(node.direct_prerequisites@) == direct(m, id)
                &&& distinct_courses(node.all_prerequisites@)
                &&& course_set(node.all_prerequisites@) == reach_set(m, id)
                &&& node.dependent_courses@.len() == 0
                &&& *final(c) == (Certificate {
                    prerequisites: final(c).prerequisites,
                    dependencies: final(c).dependencies,
                    ..*old(c)
                })
            },
    {
        if !permitted {
            return Err(CertificateError::Unauthorized);
        }
        if Self::validate_prerequisite_config(&course_prerequisite).is_err() {
            return Err(CertificateError::InvalidPrerequisiteConfig);
        }
        if Self::check_circular_dependencies(c, &course_prerequisite) {
            return Err(CertificateError::CircularDependency);
        }
        let id = course_prerequisite.course_id.clone();
        let direct_list = Self::direct_ids(&course_prerequisite);
        c.prerequisites.set(id, course_prerequisite);
        Self::update_dependency_graph(c, direct_list);
        Ok(())
    }

    /// The ids of the courses a definition requires, in order.
    fn direct_ids(cp: &CoursePrerequisite) -> (r: (String, Vec<String>))
        ensures
            r.0 == cp.course_id,
            course_views(r.1@) == cp.prerequisite_courses@.map_values(|pc: PrerequisiteCourse| pc.course_id@),
    {
        let mut out: Vec<String> = Vec::new();
        let mut i: usize = 0;
        while i < cp.prerequisite_courses.len()
            invariant
                0 <= i <= cp.prerequisite_courses@.len(),
                course_views(out@) == cp.prerequisite_courses@.take(i as int).map_values(|pc: PrerequisiteCourse| pc.course_id@),
            decreases cp.prerequisite_courses@.len() - i,
        {
            let ghost before = out@;
            out.push(cp.prerequisite_courses[i].course_id.clone());
            proof {
                let pcs = cp.prerequisite_courses@;
                assert(course_views(out@) =~= course_views(before).push(pcs[i as int].course_id@));
                assert(pcs.take(i + 1).map_values(|pc: PrerequisiteCourse| pc.course_id@)
                    =~= pcs.take(i as int).map_values(|pc: PrerequisiteCourse| pc.course_id@).push(pcs[i as int].course_id@));
            }
            i = i + 1;
        }
        proof {
            assert(cp.prerequisite_courses@.take(i as int) =~= cp.prerequisite_courses@);
        }
        (cp.course_id.clone(), out)
    }

    /// Records the node of a just defined course: its level, its direct and all its
    /// prerequisites.
    fn update_dependency_graph(c: &mut Certificate, direct_list: (String, Vec<String>))
        requires
            old(c).prerequisites@.contains_key(direct_list.0@),
            course_views(direct_list.1@) == direct(old(c).prerequisites@, direct_list.0@),
            forall|k: Seq<char>| #[trigger] old(c).dependencies@.contains_key(k) ==> old(c).dependencies@[k].level < u32::MAX,
        ensures
            ({
                let id = direct_list.0@;
                let m = old(c).prerequisites@;
                let node = final(c).dependencies@[id];
                &&& final(c).dependencies@ == old(c).dependencies@.insert(id, node)
                &&& node.course_id == direct_list.0
                &&& node.level == max_level(old(c).dependencies@, direct(m, id)) + 1
                &&& course_views(node.direct_prerequisites@) == direct(m, id)
                &&& distinct_courses(node.all_prerequisites@)
                &&& course_set(node.all_prerequisites@) == reach_set(m, id)
                &&& node.dependent_courses@.len() == 0
                &&& *final(c) == (Certificate { dependencies: final(c).dependencies, ..*old(c) })
            }),
    {
        let (id, direct_prerequisites) = direct_list;
        let level = Self::calculate_dependency_level(c, &direct_prerequisites);
        let all_prerequisites = match Self::get_all_prerequisites(c, &id) {
            Ok(v) => v,
            Err(_) => Vec::new(),
        };
        let node = CourseDependencyNode {
            course_id: id.clone(),
            level,
            direct_prerequisites,
            all_prerequisites,
            dependent_courses: Vec::new(),
        };
        let ghost gid = id@;
        c.dependencies.set(id, node);
        proof {
            assert(c.dependencies@ =~= old(c).dependencies@.insert(gid, c.dependencies@[gid]));
        }
    }

    /// One more than the highest level among the recorded prerequisites.
    fn calculate_dependency_level(c: &Certificate, prerequisites: &Vec<String>) -> (r: u32)
        requires
            forall|k: Seq<char>| #[trigger] c.dependencies@.contains_key(k) ==> c.dependencies@[k].level < u32::MAX,
        ensures
            r == max_level(c.dependencies@, course_views(prerequisites@)) + 1,
    {
        let mut max_level_seen: u32 = 0;
        let mut i: usize = 0;
        while i < prerequisites.len()
            invariant
                0 <= i <= prerequisites@.len(),
                forall|k: Seq<char>| #[trigger] c.dependencies@.contains_key(k) ==> c.dependencies@[k].level < u32::MAX,
                max_level_seen == max_level(c.dependencies@, course_views(prerequisites@.take(i as int))),
                max_level_seen < u32::MAX,
            decreases prerequisites@.len() - i,
        {
            proof {
                assert(course_views(prerequisites@.take(i + 1)).drop_last() =~= course_views(prerequisites@.take(i as int)));
                assert(course_views(prerequisites@.take(i + 1)).last() == prerequisites@[i as int]@);
            }
            match c.dependencies.get(&prerequisites[i]) {
                Some(node) => {
                    if node.level > max_level_seen {
                        max_level_seen = node.level;
                    }
                },
                None => {},
            }
            i = i + 1;
        }
        proof {
            assert(prerequisites@.take(prerequisites@.len() as int) =~= prerequisites@);
        }
        max_level_seen + 1
    }

    /// Checks a definition: at least one prerequisite, percentages of at most 100 and
    /// weights from 1 to 10.
    pub fn validate_prerequisite_config(config: &CoursePrerequisite) -> (r: Result<(), CertificateError>)
        ensures
            config_ok(*config) ==> r == Ok::<(), CertificateError>(()),
            !config_ok(*config) ==> r == Err::<(), CertificateError>(CertificateError::InvalidPrerequisiteConfig),
    {
        if config.prerequisite_courses.len() == 0 {
            return Err(CertificateError::InvalidPrerequisiteConfig);
        }
        if config.minimum_completion_percentage > 100 {
            return Err(CertificateError::InvalidPrerequisiteConfig);
        }
        let mut i: usize = 0;
        while i < config.prerequisite_courses.len()
            invariant
                0 <= i <= config.prerequisite_courses@.len(),
                config.prerequisite_courses@.len() > 0,
                config.minimum_completion_percentage <= 100,
                forall|k: int| 0 <= k < i ==> {
                    let pc = #[trigger] config.prerequisite_courses@[k];
                    pc.minimum_percentage <= 100 && 1 <= pc.weight <= 10
                },
            decreases config.prerequisite_courses@.len() - i,
        {
            let pc = &config.prerequisite_courses[i];
            if pc.minimum_percentage > 100 {
                return Err(CertificateError::InvalidPrerequisiteConfig);
            }
            if pc.weight == 0 || pc.weight > 10 {
                return Err(CertificateError::InvalidPrerequisiteConfig);
            }
            i = i + 1;
        }
        Ok(())
    }

    /// Whether some course the definition requires is already defined as requiring the
    /// defined course.
    fn check_circular_dependencies(c: &Certificate, new_prerequisite: &CoursePrerequisite) -> (r: bool)
        ensures
            r == closes_cycle(c.prerequisites@, *new_prerequisite),
    {
        let list = &new_prerequisite.prerequisite_courses;
        let mut i: usize = 0;
        while i < list.len()
            invariant
                0 <= i <= list@.len(),
                list@ == new_prerequisite.prerequisite_courses@,
                forall|k: int| 0 <= k < i ==> !#[trigger] direct(c.prerequisites@, list@[k].course_id@).contains(new_prerequisite.course_id@),
            decreases list@.len() - i,
        {
            match c.prerequisites.get(&list[i].course_id) {
                Some(existing) => {
                    let inner = &existing.prerequisite_courses;
                    let ghost d = direct(c.prerequisites@, list@[i as int].course_id@);
                    let mut j: usize = 0;
                    while j < inner.len()
                        invariant
                            0 <= j <= inner@.len(),
                            0 <= i < list@.len(),
                            list@ == new_prerequisite.prerequisite_courses@,
                            d == direct(c.prerequisites@, list@[i as int].course_id@),
                            d.len() == inner@.len(),
                            forall|t: int| 0 <= t < inner@.len() ==> #[trigger] d[t] == inner@[t].course_id@,
                            forall|t: int| 0 <= t < j ==> d[t] != new_prerequisite.course_id@,
                        decreases inner@.len() - j,
                    {
                        if inner[j].course_id == new_prerequisite.course_id {
                            proof {
                                assert(d[j as int] == new_prerequisite.course_id@);
                                assert(d.contains(d[j as int]));
                                assert(direct(c.prerequisites@, new_prerequisite.prerequisite_courses@[i as int].course_id@)
                                    .contains(new_prerequisite.course_id@));
                            }
                            return true;
                        }
                        j = j + 1;
                    }
                    proof {
                        if d.contains(new_prerequisite.course_id@) {
                            let t = choose|t: int| 0 <= t < d.len() && d[t] == new_prerequisite.course_id@;
                        }
                    }
                },
                None => {
                    proof {
                        assert(direct(c.prerequisites@, list@[i as int].course_id@) =~= Seq::<Seq<char>>::empty());
                    }
                },
            }
            i = i + 1;
        }
        false
    }

    /// Exempts a student from a course's prerequisites. `permitted` is whether the
    /// access-control registry grants `admin` the right to update certificate metadata.
    pub fn grant_prerequisite_override(
        c: &mut Certificate,
        admin: &Address,
        override_data: PrerequisiteOverride,
        permitted: bool,
    ) -> (r: Result<(), CertificateError>)
        ensures
            !permitted ==> r == Err::<(), CertificateError>(CertificateError::Unauthorized) && *final(c) == *old(c),
            permitted && (override_data.override_reason@.len() == 0 || override_data.overridden_prerequisites@.len() == 0)
                ==> r == Err::<(), CertificateError>(CertificateError::InvalidInput) && *final(c) == *old(c),
            permitted && override_data.override_reason@.len() > 0 && override_data.overridden_prerequisites@.len() > 0
                ==> r == Ok::<(), CertificateError>(())
                && final(c).overrides@ == old(c).overrides@.insert(
                    (override_data.student.id, override_data.course_id@),
                    override_data,
                )
                && *final(c) == (Certificate { overrides: final(c).overrides, ..*old(c) }),
    {
        if !permitted {
            return Err(CertificateError::Unauthorized);
        }
        if override_data.override_reason.as_str().is_empty() {
            return Err(CertificateError::InvalidInput);
        }
        if override_data.overridden_prerequisites.len() == 0 {
            return Err(CertificateError::InvalidInput);
        }
        let key = (override_data.student, override_data.course_id.clone());
        c.overrides.set(key, override_data);
        Ok(())
    }

    /// Withdraws a student's exemption. `permitted` is whether the access-control registry
    /// grants `admin` the right to update certificate metadata.
    pub fn revoke_prerequisite_override(
        c: &mut Certificate,
        admin: &Address,
        student: &Address,
        course_id: &String,
        reason: String,
        permitted: bool,
    ) -> (r: Result<(), CertificateError>)
        ensures
            !permitted ==> r == Err::<(), CertificateError>(CertificateError::Unauthorized) && *final(c) == *old(c),
            permitted && !old(c).overrides@.contains_key((student.id, course_id@))
                ==> r == Err::<(), CertificateError>(CertificateError::PrerequisiteOverrideNotFound) && *final(c) == *old(c),
            permitted && old(c).overrides@.contains_key((student.id, course_id@))
                ==> r == Ok::<(), CertificateError>(())
                && final(c).overrides@ == old(c).overrides@.remove((student.id, course_id@))
                && *final(c) == (Certificate { overrides: final(c).overrides, ..*old(c) }),
    {
        if !permitted {
            return Err(CertificateError::Unauthorized);
        }
        let key = (*student, course_id.clone());
        if !c.overrides.contains_key(&key) {
            return Err(CertificateError::PrerequisiteOverrideNotFound);
        }
        let _ = c.overrides.remove(&key);
        Ok(())
    }

    /// The recorded place of a course in the prerequisite graph.
    pub fn get_dependency_graph<'a>(c: &'a Certificate, course_id: &String) -> (r: Option<&'a CourseDependencyNode>)
        ensures
            match r {
                Some(n) => c.dependencies@.contains_key(course_id@) && *n == c.dependencies@[course_id@],
                None => !c.dependencies@.contains_key(course_id@),
            },
    {
        c.dependencies.get(course_id)
    }

    /// Refuses the enrolment of a student who does not meet a course's prerequisites, and
    /// records the attempt.
    pub fn validate_enrollment(
        c: &mut Certificate,
        student: &Address,
        course_id: &String,
        enrolled_by: &Address,
        progress_contract: &Address,
        now: u64,
    ) -> (r: Result<(), CertificateError>)
        requires
            check_clock_ok(old(c), *student, course_id@, now),
        ensures
            !old(c).prerequisites@.contains_key(course_id@)
                ==> r == Err::<(), CertificateError>(CertificateError::PrerequisiteNotFound) && *final(c) == *old(c),
            old(c).prerequisites@.contains_key(course_id@) && eligible_for(old(c), *student, course_id@, now)
                ==> r == Ok::<(), CertificateError>(()) && final(c).violations == old(c).violations,
            old(c).prerequisites@.contains_key(course_id@) && !eligible_for(old(c), *student, course_id@, now) ==> {
                let missing = missing_list(old(c).prerequisites@[course_id@].prerequisite_courses@);
                let l = list_at(final(c).violations@, student.id);
                let v = l.last();
                &&& r == Err::<(), CertificateError>(CertificateError::PrerequisiteNotMet)
                &&& final(c).violations@.dom() == old(c).violations@.dom().insert(student.id)
                &&& l.len() == list_at(old(c).violations@, student.id).len() + 1
                &&& l.drop_last() == list_at(old(c).violations@, student.id)
                &&& v.student == *student
                &&& v.attempted_course == *course_id
                &&& v.missing_prerequisites@ == missing.map_values(|mp: MissingPrerequisite| mp.course_id)
                &&& v.violation_timestamp == now
                &&& v.attempted_by == *enrolled_by
                &&& forall|u: u64| u != student.id && #[trigger] old(c).violations@.contains_key(u)
                    ==> final(c).violations@[u] == old(c).violations@[u]
            },
            final(c).prerequisites == old(c).prerequisites,
            final(c).overrides == old(c).overrides,
            final(c).certificates == old(c).certificates,
    {
        let check = match Self::check_prerequisites(c, student, course_id, progress_contract, now) {
            Err(e) => return Err(e),
            Ok(r) => r,
        };
        if !check.eligible {
            let mut ids: Vec<String> = Vec::new();
            let mut i: usize = 0;
            while i < check.missing_prerequisites.len()
                invariant
                    0 <= i <= check.missing_prerequisites@.len(),
                    ids@ == check.missing_prerequisites@.take(i as int).map_values(|mp: MissingPrerequisite| mp.course_id),
                decreases check.missing_prerequisites@.len() - i,
            {
                ids.push(check.missing_prerequisites[i].course_id.clone());
                proof {
                    assert(ids@ =~= check.missing_prerequisites@.take(i + 1).map_values(|mp: MissingPrerequisite| mp.course_id));
                }
                i = i + 1;
            }
            proof {
                assert(check.missing_prerequisites@.take(i as int) =~= check.missing_prerequisites@);
            }
            let violation = PrerequisiteViolation {
                student: *student,
                attempted_course: course_id.clone(),
                missing_prerequisites: ids,
                violation_timestamp: now,
                attempted_by: *enrolled_by,
            };
            Self::log_violation(c, violation);
            return Err(CertificateError::PrerequisiteNotMet);
        }
        Ok(())
    }

    fn log_violation(c: &mut Certificate, violation: PrerequisiteViolation)
        ensures
            list_pushed(old(c).violations@, final(c).violations@, violation.student.id, violation),
            *final(c) == (Certificate { violations: final(c).violations, ..*old(c) }),
    {
        let s = violation.student;
        push_to_list(&mut c.violations, s, violation);
    }

    /// The time a learning path of `n` courses is expected to take.
    fn estimate_learning_time(courses: &Vec<String>) -> (r: u64)
        requires
            courses@.len() * COURSE_DURATION <= u64::MAX,
        ensures
            r == courses@.len() * COURSE_DURATION,
    {
        courses.len() as u64 * COURSE_DURATION
    }

    /// Plans the courses a student still lacks on the way to a target course, each after
    /// the courses it requires, and keeps the plan.
    pub fn generate_learning_path(
        c: &mut Certificate,
        student: &Address,
        target_course: &String,
        progress_contract: &Address,
        now: u64,
    ) -> (r: Result<LearningPath, CertificateError>)
        requires
            forall|x: Seq<char>| #[trigger] reach_set(old(c).prerequisites@, target_course@).contains(x)
                ==> check_clock_ok(old(c), *student, x, now),
            reach_set(old(c).prerequisites@, target_course@).len() * COURSE_DURATION <= u64::MAX,
        ensures
            r is Err <==> stuck_within(old(c).prerequisites@, lacking(old(c), *student, target_course@, now)),
            r is Err ==> r->Err_0 == CertificateError::CircularDependency,
            r is Ok ==> {
                let p = r->Ok_0;
                &&& p.student == *student
                &&& p.target_course == *target_course
                &&& distinct_courses(p.recommended_sequence@)
                &&& course_set(p.recommended_sequence@) == lacking(old(c), *student, target_course@, now)
                &&& valid_order(old(c).prerequisites@, course_views(p.recommended_sequence@))
                &&& p.estimated_total_time == p.recommended_sequence@.len() * COURSE_DURATION
                &&& p.current_position == 0
                &&& p.generated_at == now
                &&& p.last_updated == now
                &&& final(c).learning_paths@.dom() == old(c).learning_paths@.dom().insert((student.id, target_course@))
                &&& same_path(final(c).learning_paths@[(student.id, target_course@)], p)
            },
            final(c).prerequisites == old(c).prerequisites,
            final(c).overrides == old(c).overrides,
            final(c).certificates == old(c).certificates,
            final(c).dependencies == old(c).dependencies,
            final(c).violations == old(c).violations,
    {
        let ghost m = c.prerequisites@;
        let ghost reach = reach_set(m, target_course@);
        let all = match Self::get_all_prerequisites(c, target_course) {
            Ok(v) => v,
            Err(e) => return Err(e),
        };
        let mut missing: Vec<String> = Vec::new();
        let mut i: usize = 0;
        proof {
            lemma_distinct_len(all@);
            assert(course_views(missing@) =~= Seq::<Seq<char>>::empty());
        }
        while i < all.len()
            invariant
                0 <= i <= all@.len(),
                m == old(c).prerequisites@,
                reach == reach_set(m, target_course@),
                course_set(all@) == reach,
                distinct_courses(all@),
                forall|x: Seq<char>| #[trigger] reach.contains(x) ==> check_clock_ok(old(c), *student, x, now),
                *c == (Certificate { check_cache: c.check_cache, ..*old(c) }),
                distinct_courses(missing@),
                forall|x: Seq<char>| #[trigger] course_views(missing@).contains(x)
                    <==> (exists|k: int| 0 <= k < i && all@[k]@ == x && !ready_for(old(c), *student, x, now)),
            decreases all@.len() - i,
        {
            proof {
                assert(course_views(all@)[i as int] == all@[i as int]@);
                assert(reach.contains(all@[i as int]@));
                assert(check_clock_ok(c, *student, all@[i as int]@, now));
            }
            let ghost cbefore = *c;
            let ghost missing0 = missing@;
            let ready = match Self::check_prerequisites(c, student, &all[i], progress_contract, now) {
                Err(_) => false,
                Ok(check) => check.eligible,
            };
            if ready {
                assert(missing@ == missing0);
            } else {
                let ghost before = missing@;
                missing.push(all[i].clone());
                proof {
                    assert(course_views(missing@) =~= course_views(before).push(all@[i as int]@));
                    assert forall|a: int, b: int| 0 <= a < b < missing@.len() implies missing@[a]@ != missing@[b]@ by {
                        if b == missing@.len() - 1 {
                            assert(course_views(before).contains(before[a]@)) by {
                                assert(course_views(before)[a] == before[a]@);
                            }
                            let k = choose|k: int| 0 <= k < i && all@[k]@ == before[a]@ && !ready_for(old(c), *student, before[a]@, now);
                            assert(all@[k]@ != all@[i as int]@);
                        }
                    }
                }
            }
            proof {
                assert(ready == ready_for(&cbefore, *student, all@[i as int]@, now));
                assert(ready_for(&cbefore, *student, all@[i as int]@, now) == ready_for(old(c), *student, all@[i as int]@, now));
                assert forall|x: Seq<char>| #[trigger] course_views(missing@).contains(x)
                    <==> (exists|k: int| 0 <= k < i + 1 && all@[k]@ == x && !ready_for(old(c), *student, x, now)) by {
                    if course_views(missing@).contains(x) {
                        if course_views(missing0).contains(x) {
                            let k = choose|k: int| 0 <= k < i && all@[k]@ == x && !ready_for(old(c), *student, x, now);
                            assert(0 <= k < i + 1 && all@[k]@ == x && !ready_for(old(c), *student, x, now));
                        } else {
                            let w = choose|w: int| 0 <= w < missing@.len() && course_views(missing@)[w] == x;
                            if w < missing0.len() {
                                assert(course_views(missing0)[w] == x);
                            }
                            assert(missing@.len() == missing0.len() + 1);
                            assert(x == all@[i as int]@);
                            assert(!ready);
                            assert(0 <= i < i + 1 && all@[i as int]@ == x && !ready_for(old(c), *student, x, now));
                        }
                    }
                    if exists|k: int| 0 <= k < i + 1 && all@[k]@ == x && !ready_for(old(c), *student, x, now) {
                        let k = choose|k: int| 0 <= k < i + 1 && all@[k]@ == x && !ready_for(old(c), *student, x, now);
                        if k < i {
                            assert(course_views(missing0).contains(x));
                            let w = choose|w: int| 0 <= w < missing0.len() && course_views(missing0)[w] == x;
                            assert(missing@.len() >= missing0.len());
                            assert(missing@[w] == missing0[w]);
                            assert(course_views(missing@)[w] == x);
                        } else {
                            assert(!ready);
                            assert(course_views(missing@)[missing@.len() - 1] == x);
                        }
                    }
                }
            }
            i = i + 1;
        }
        proof {
            assert forall|x: Seq<char>| course_set(missing@).contains(x) <==> lacking(old(c), *student, target_course@, now).contains(x) by {
                if course_set(all@).contains(x) {
                    let w = choose|w: int| 0 <= w < all@.len() && course_views(all@)[w] == x;
                    assert(all@[w]@ == x);
                }
                if exists|k: int| 0 <= k < i && all@[k]@ == x && !ready_for(old(c), *student, x, now) {
                    let k = choose|k: int| 0 <= k < i && all@[k]@ == x && !ready_for(old(c), *student, x, now);
                    assert(course_views(all@)[k] == x);
                }
            }
            assert(course_set(missing@) =~= lacking(old(c), *student, target_course@, now));
        }
        let recommended_sequence = match Self::optimize_learning_sequence(c, &missing) {
            Ok(s) => s,
            Err(e) => {
                proof {
                    let (placed, rem) = choose|placed: Seq<Seq<char>>, rem: Seq<Seq<char>>|
                        rem.len() > 0
                        && #[trigger] placed.to_multiset().add(rem.to_multiset()) == course_views(missing@).to_multiset()
                        && ordered_within(m, placed, course_views(missing@))
                        && all_blocked(m, placed, course_views(missing@), rem);
                    lemma_blocked_is_stuck(m, placed, rem, course_views(missing@));
                }
                return Err(e);
            },
        };
        proof {
            lemma_same_multiset(recommended_sequence@, missing@);
            let q = course_views(recommended_sequence@);
            let t = lacking(old(c), *student, target_course@, now);
            assert(q.to_set() == t);
            if stuck_within(m, t) {
                let st = choose|st: Set<Seq<char>>| #![trigger st.subset_of(t)]
                    st.subset_of(t) && st.len() > 0 && st.finite()
                    && forall|y: Seq<char>| st.contains(y) ==> #[trigger] requires_one_of(m, st, y);
                let y0 = st.choose();
                assert(st.contains(y0)) by {
                    if !st.contains(y0) {
                        st.lemma_len0_is_empty();
                    }
                }
                assert(q.to_set().contains(y0));
                let i0 = choose|i0: int| 0 <= i0 < q.len() && q[i0] == y0;
                lemma_ordered_not_stuck(m, q, st, i0);
            }
            lemma_distinct_len(recommended_sequence@);
            lemma_distinct_len(missing@);
            vstd::set_lib::lemma_len_subset(course_set(missing@), reach);
            assert(recommended_sequence@.len() * COURSE_DURATION <= reach.len() * COURSE_DURATION) by (nonlinear_arith)
                requires
                    recommended_sequence@.len() <= reach.len();
        }
        let estimated_total_time = Self::estimate_learning_time(&recommended_sequence);
        let stored = LearningPath {
            student: *student,
            target_course: target_course.clone(),
            recommended_sequence: copy_strings(&recommended_sequence),
            estimated_total_time,
            current_position: 0,
            generated_at: now,
            last_updated: now,
        };
        c.learning_paths.set((*student, target_course.clone()), stored);
        Ok(LearningPath {
            student: *student,
            target_course: target_course.clone(),
            recommended_sequence,
            estimated_total_time,
            current_position: 0,
            generated_at: now,
            last_updated: now,
        })
    }
}

} // verus!
