use vstd::prelude::*;
use crate::common::ids::Address;
use crate::analytics::storage::{Analytics, CompactEvent, PackedMetrics};

verus! {

/// What a batch of events came to.
#[derive(Clone, Copy, Debug, PartialEq, Eq, Structural)]
pub struct BatchResult {
    pub processed: u32,
    pub skipped: u32,
}

impl BatchResult {
    /// Nothing processed, nothing skipped.
    pub fn new() -> (r: BatchResult)
        ensures
            r == (BatchResult { processed: 0, skipped: 0 }),
    {
        BatchResult { processed: 0, skipped: 0 }
    }
}

/// Counters before anything was recorded.
pub open spec fn zero_metrics() -> PackedMetrics {
    PackedMetrics { total_views: 0, total_completions: 0, total_time_secs: 0, learners_and_score: 0 }
}

/// The counters in force: the stored ones, or zero.
pub open spec fn metrics_of(a: &Analytics) -> PackedMetrics {
    match a.metrics {
        Some(m) => m,
        None => zero_metrics(),
    }
}

/// The learners and their average score after one more score `value`: the first score is
/// taken as it is, later ones are averaged in.
pub open spec fn after_score(learners: u32, prev_avg: u32, value: u64) -> (u32, u32) {
    (
        if learners == u32::MAX { u32::MAX } else { (learners + 1) as u32 },
        if learners == 0 { value as u32 } else { ((prev_avg * learners + value) / (learners + 1)) as u32 },
    )
}

/// The average can be taken without overflow.
pub open spec fn score_fits(learners: u32, prev_avg: u32, value: u64) -> bool {
    learners > 0 ==> prev_avg * learners + value <= u64::MAX
}

/// The counters after an event of a known kind: a view, or a completion with its time.
pub open spec fn counted(m: PackedMetrics, event_type: u32, value: u64) -> PackedMetrics {
    if event_type == 0 {
        PackedMetrics { total_views: (m.total_views + 1) as u64, ..m }
    } else if event_type == 1 {
        PackedMetrics {
            total_completions: (m.total_completions + 1) as u64,
            total_time_secs: if m.total_time_secs + value > u64::MAX { u64::MAX } else { (m.total_time_secs + value) as u64 },
            ..m
        }
    } else {
        m
    }
}

/// The counters can take the event without overflow.
pub open spec fn countable(m: PackedMetrics, event_type: u32) -> bool {
    &&& event_type == 0 ==> m.total_views < u64::MAX
    &&& event_type == 1 ==> m.total_completions < u64::MAX
}

/// The learners and their average after a score event.
pub fn score_event(learners: u32, prev_avg: u32, value: u64) -> (r: (u32, u32))
    requires
        score_fits(learners, prev_avg, value),
    ensures
        r == after_score(learners, prev_avg, value),
{
    let new_avg = if learners == 0 {
        value as u32
    } else {
        (((prev_avg as u64) * (learners as u64) + value) / (learners as u64 + 1)) as u32
    };
    (learners.saturating_add(1), new_avg)
}

/// Applies an event to the counters: kind 0 counts a view, kind 1 a completion and its
/// time, kind 2 a score. A score does not touch the counters: the new learners and
/// average, computed from `unpacked` (the learners and average held in the packed word),
/// are returned for packing. Other kinds change nothing.
pub fn apply_event(m: &mut PackedMetrics, event_type: u32, value: u64, unpacked: (u32, u32)) -> (r: Option<(u32, u32)>)
    requires
        countable(*old(m), event_type),
        event_type == 2 ==> score_fits(unpacked.0, unpacked.1, value),
    ensures
        *final(m) == counted(*old(m), event_type, value),
        event_type == 2 ==> r == Some(after_score(unpacked.0, unpacked.1, value)),
        event_type != 2 ==> r is None,
{
    if event_type == 0 {
        m.total_views = m.total_views + 1;
        None
    } else if event_type == 1 {
        m.total_completions = m.total_completions + 1;
        m.total_time_secs = m.total_time_secs.saturating_add(value);
        None
    } else if event_type == 2 {
        Some(score_event(unpacked.0, unpacked.1, value))
    } else {
        None
    }
}

/// Records one event: the counters take it, and it is logged under the running event
/// number, which then rises by one unless at its limit. A score's new learners and
/// average are returned for packing.
pub fn record_event_optimized(
    a: &mut Analytics,
    learner: &Address,
    event_type: u32,
    value: u64,
    unpacked: (u32, u32),
    ledger_seq: u32,
) -> (r: Option<(u32, u32)>)
    requires
        countable(metrics_of(old(a)), event_type),
        event_type == 2 ==> score_fits(unpacked.0, unpacked.1, value),
    ensures
        final(a).metrics == Some(counted(metrics_of(old(a)), event_type, value)),
        event_type == 2 ==> r == Some(after_score(unpacked.0, unpacked.1, value)),
        event_type != 2 ==> r is None,
        ({
            let n: u32 = match old(a).event_count { Some(x) => x, None => 0 };
            &&& final(a).compact_events@ == old(a).compact_events@.insert(n as u64, CompactEvent {
                learner: *learner,
                event_type,
                value,
                ledger_seq,
            })
            &&& final(a).event_count == Some(if n == u32::MAX { u32::MAX } else { (n + 1) as u32 })
        }),
        *final(a) == (Analytics {
            metrics: final(a).metrics,
            event_count: final(a).event_count,
            compact_events: final(a).compact_events,
            ..*old(a)
        }),
{
    let mut metrics = match a.metrics {
        Some(m) => m,
        None => PackedMetrics { total_views: 0, total_completions: 0, total_time_secs: 0, learners_and_score: 0 },
    };
    let r = apply_event(&mut metrics, event_type, value, unpacked);
    a.metrics = Some(metrics);
    let ev_count: u32 = match a.event_count {
        Some(x) => x,
        None => 0,
    };
    a.compact_events.set(ev_count as u64, CompactEvent { learner: *learner, event_type, value, ledger_seq });
    a.event_count = Some(ev_count.saturating_add(1));
    r
}

/// The counters after a batch of events, with the learners and average carried along;
/// also how many events were of a known kind.
pub open spec fn batch_fold(m: PackedMetrics, pair: (u32, u32), events: Seq<(u32, u64)>) -> (PackedMetrics, (u32, u32), u32, u32)
    decreases events.len(),
{
    if events.len() == 0 {
        (m, pair, 0, 0)
    } else {
        let prev = batch_fold(m, pair, events.drop_last());
        let (t, v) = events.last();
        if t == 2 {
            (prev.0, after_score(prev.1.0, prev.1.1, v), (prev.2 + 1) as u32, prev.3)
        } else if t == 0 || t == 1 {
            (counted(prev.0, t, v), prev.1, (prev.2 + 1) as u32, prev.3)
        } else {
            (prev.0, prev.1, prev.2, (prev.3 + 1) as u32)
        }
    }
}

/// No event of the batch overflows a counter or the average.
pub open spec fn batch_fits(m: PackedMetrics, pair: (u32, u32), events: Seq<(u32, u64)>) -> bool {
    forall|i: int| 0 <= i < events.len() ==> {
        let before = #[trigger] batch_fold(m, pair, events.take(i));
        &&& countable(before.0, events[i].0)
        &&& events[i].0 == 2 ==> score_fits(before.1.0, before.1.1, events[i].1)
    }
}

/// Applies a batch of events in order and stores the counters; counts the events of a
/// known kind and the others. The learners and average start from `unpacked` and the
/// final pair is returned for packing.
pub fn batch_record_events(
    a: &mut Analytics,
    learner: &Address,
    events: &Vec<(u32, u64)>,
    unpacked: (u32, u32),
) -> (r: (BatchResult, (u32, u32)))
    requires
        events@.len() <= u32::MAX,
        batch_fits(metrics_of(old(a)), unpacked, events@),
    ensures
        ({
            let out = batch_fold(metrics_of(old(a)), unpacked, events@);
            &&& final(a).metrics == Some(out.0)
            &&& r.1 == out.1
            &&& r.0 == (BatchResult { processed: out.2, skipped: out.3 })
        }),
        *final(a) == (Analytics { metrics: final(a).metrics, ..*old(a) }),
{
    let mut result = BatchResult::new();
    let mut metrics = match a.metrics {
        Some(m) => m,
        None => PackedMetrics { total_views: 0, total_completions: 0, total_time_secs: 0, learners_and_score: 0 },
    };
    let ghost m0 = metrics;
    let mut pair = unpacked;
    let mut i: usize = 0;
    while i < events.len()
        invariant
            0 <= i <= events@.len(),
            events@.len() <= u32::MAX,
            m0 == metrics_of(old(a)),
            batch_fits(m0, unpacked, events@),
            batch_fold(m0, unpacked, events@.take(i as int)) == (metrics, pair, result.processed, result.skipped),
            result.processed + result.skipped == i,
        decreases events@.len() - i,
    {
        let (event_type, value) = events[i];
        proof {
            assert(events@.take(i + 1).drop_last() =~= events@.take(i as int));
            assert(events@.take(i + 1).last() == events@[i as int]);
        }
        if event_type == 2 {
            pair = score_event(pair.0, pair.1, value);
            result.processed = result.processed + 1;
        } else if event_type == 0 || event_type == 1 {
            let _ = apply_event(&mut metrics, event_type, value, pair);
            result.processed = result.processed + 1;
        } else {
            result.skipped = result.skipped + 1;
        }
        i = i + 1;
    }
    proof {
        assert(events@.take(events@.len() as int) =~= events@);
    }
    a.metrics = Some(metrics);
    (result, pair)
}

/// The counters in force, zero before anything was recorded.
pub fn get_metrics(a: &Analytics) -> (r: PackedMetrics)
    ensures
        r == metrics_of(a),
{
    match a.metrics {
        Some(m) => m,
        None => PackedMetrics { total_views: 0, total_completions: 0, total_time_secs: 0, learners_and_score: 0 },
    }
}

} // verus!
