use vstd::prelude::*;
use crate::common::ids::Address;
use crate::community::state::{keeps, stats_of, Community, CommunityStorage};
use crate::community::types::{CommunityMetrics, UserCommunityStats};

verus! {

/// Reputation of a member: 10 per post, 5 per reply, 50 per solution, 100 per approved
/// contribution, 25 per attended event, 75 per mentorship session, 15 per helpful vote.
pub open spec fn reputation_of(s: UserCommunityStats) -> int {
    s.posts_created * 10 + s.replies_given * 5 + s.solutions_provided * 50 + s.contributions_made * 100
        + s.events_attended * 25 + s.mentorship_sessions * 75 + s.helpful_votes_received * 15
}

/// The metrics of a community that has recorded none yet.
pub open spec fn empty_metrics(now: u64) -> CommunityMetrics {
    CommunityMetrics {
        total_posts: 0,
        total_replies: 0,
        total_contributions: 0,
        total_events: 0,
        active_mentorships: 0,
        total_members: 0,
        daily_active_users: 0,
        weekly_active_users: 0,
        avg_response_time: 0,
        resolution_rate: 0,
        last_updated: now,
    }
}

/// The metrics kept, or those of a community with nothing recorded.
pub open spec fn metrics_of(c: &Community, now: u64) -> CommunityMetrics {
    match c.metrics {
        Some(m) => m,
        None => empty_metrics(now),
    }
}

/// Community-wide metrics and per-member statistics.
pub struct AnalyticsManager;

impl AnalyticsManager {
    /// The stored metrics, or empty metrics stamped now.
    pub fn get_community_metrics(c: &Community, now: u64) -> (r: CommunityMetrics)
        ensures
            r == metrics_of(c, now),
    {
        match c.metrics {
            Some(m) => m,
            None => CommunityMetrics {
                total_posts: 0,
                total_replies: 0,
                total_contributions: 0,
                total_events: 0,
                active_mentorships: 0,
                total_members: 0,
                daily_active_users: 0,
                weekly_active_users: 0,
                avg_response_time: 0,
                resolution_rate: 0,
                last_updated: now,
            },
        }
    }

    /// Refreshes the totals from the post, reply, contribution and event counters.
    pub fn update_metrics(c: &mut Community, now: u64)
        requires
            old(c).counters.post <= u32::MAX,
            old(c).counters.reply <= u32::MAX,
            old(c).counters.contribution <= u32::MAX,
            old(c).counters.event <= u32::MAX,
        ensures
            final(c).metrics == Some(CommunityMetrics {
                total_posts: old(c).counters.post as u32,
                total_replies: old(c).counters.reply as u32,
                total_contributions: old(c).counters.contribution as u32,
                total_events: old(c).counters.event as u32,
                last_updated: now,
                ..metrics_of(old(c), now)
            }),
            final(c).admin == old(c).admin,
            final(c).config == old(c).config,
            final(c).counters == old(c).counters,
            final(c).forum == old(c).forum,
            final(c).mentorship == old(c).mentorship,
            final(c).knowledge == old(c).knowledge,
            final(c).events == old(c).events,
            final(c).moderation == old(c).moderation,
            final(c).governance == old(c).governance,
            final(c).user_stats == old(c).user_stats,
    {
        let mut metrics = Self::get_community_metrics(c, now);
        metrics.total_posts = c.counters.post as u32;
        metrics.total_replies = c.counters.reply as u32;
        metrics.total_contributions = c.counters.contribution as u32;
        metrics.total_events = c.counters.event as u32;
        metrics.last_updated = now;
        c.metrics = Some(metrics);
    }

    /// A member's statistics, or those of a new member joining now.
    pub fn get_user_stats(c: &Community, user: &Address, now: u64) -> (r: UserCommunityStats)
        ensures
            r == stats_of(c.user_stats@, *user, now),
    {
        CommunityStorage::stats_or_new(c, *user, now)
    }

    /// Computes a member's reputation from the weighted activity counts and stores it.
    pub fn calculate_reputation(c: &mut Community, user: &Address, now: u64) -> (r: u32)
        requires
            old(c).wf(),
            reputation_of(stats_of(old(c).user_stats@, *user, now)) <= u32::MAX,
        ensures
            final(c).wf(),
            r == reputation_of(stats_of(old(c).user_stats@, *user, now)),
            final(c).user_stats@ == old(c).user_stats@.insert(
                user.id,
                UserCommunityStats { reputation_score: r, ..stats_of(old(c).user_stats@, *user, now) },
            ),
            keeps(old(c), final(c), false, false, false, false, false, false, true, false),
    {
        let stats = CommunityStorage::stats_or_new(c, *user, now);
        proof {
            assert(stats.posts_created * 10 <= u32::MAX);
        }
        let reputation = stats.posts_created * 10 + stats.replies_given * 5 + stats.solutions_provided * 50
            + stats.contributions_made * 100 + stats.events_attended * 25 + stats.mentorship_sessions * 75
            + stats.helpful_votes_received * 15;
        let mut updated = stats;
        updated.reputation_score = reputation;
        c.user_stats.set(*user, updated);
        reputation
    }
}

} // verus!
