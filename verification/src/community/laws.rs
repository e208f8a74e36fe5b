use vstd::prelude::*;
use crate::community::analytics::reputation_of;
use crate::community::governance::{ballot_check, final_status, vote_weight};
use crate::community::state::Community;
use crate::common::ids::Address;
use crate::community::types::{ProposalStatus, UserCommunityStats};

verus! {

/// In a well-formed community the next id of each counter names no record yet.
pub proof fn law_next_ids_are_fresh(c: &Community)
    requires
        c.wf(),
    ensures
        c.counters.post < u64::MAX ==> !c.forum.posts@.contains_key((c.counters.post + 1) as u64),
        c.counters.reply < u64::MAX ==> !c.forum.replies@.contains_key((c.counters.reply + 1) as u64),
        c.counters.mentorship < u64::MAX ==> !c.mentorship.requests@.contains_key((c.counters.mentorship + 1) as u64),
        c.counters.session < u64::MAX ==> !c.mentorship.sessions@.contains_key((c.counters.session + 1) as u64),
        c.counters.contribution < u64::MAX
            ==> !c.knowledge.contributions@.contains_key((c.counters.contribution + 1) as u64),
        c.counters.event < u64::MAX ==> !c.events.events@.contains_key((c.counters.event + 1) as u64),
        c.counters.report < u64::MAX ==> !c.moderation.reports@.contains_key((c.counters.report + 1) as u64),
        c.counters.proposal < u64::MAX ==> !c.governance.proposals@.contains_key((c.counters.proposal + 1) as u64),
        forall|id: u64| #[trigger] c.events.events@.contains_key(id)
            ==> c.events.events@[id].current_participants <= c.events.events@[id].max_participants,
{
}

/// More activity of every kind never lowers a member's reputation.
pub proof fn law_reputation_monotone(a: UserCommunityStats, b: UserCommunityStats)
    requires
        a.posts_created <= b.posts_created,
        a.replies_given <= b.replies_given,
        a.solutions_provided <= b.solutions_provided,
        a.contributions_made <= b.contributions_made,
        a.events_attended <= b.events_attended,
        a.mentorship_sessions <= b.mentorship_sessions,
        a.helpful_votes_received <= b.helpful_votes_received,
    ensures
        0 <= reputation_of(a) <= reputation_of(b),
{
}

/// A proposal passes exactly when enough votes came in and more were for than against.
pub proof fn law_proposal_passes_iff(votes_for: u32, votes_against: u32, min_votes_required: u32)
    ensures
        (final_status(votes_for, votes_against, min_votes_required) == ProposalStatus::Passed)
            <==> (votes_for + votes_against >= min_votes_required && votes_for > votes_against),
{
}

/// Every vote counts at least once; a reputation of a hundred or more weighs a hundredth of it.
pub proof fn law_vote_weight(reputation: u32)
    ensures
        vote_weight(reputation) >= 1,
        reputation >= 200 ==> vote_weight(reputation) == reputation / 100,
        vote_weight(reputation) <= if reputation < 100 { 1 } else { reputation / 100 },
{
}

/// Once a voter's ballot on a proposal is recorded, every later ballot of theirs on it is
/// refused, so each voter is counted at most once per proposal.
pub proof fn law_voter_counted_once(c: &Community, voter: Address, proposal_id: u64, now: u64)
    requires
        c.governance.proposal_votes@.contains_key((voter.id, proposal_id)),
    ensures
        ballot_check(c, voter, proposal_id, now) is Err,
{
}

/// A member with no recorded activity has no reputation.
pub proof fn law_no_activity_no_reputation(s: UserCommunityStats)
    requires
        s.posts_created == 0,
        s.replies_given == 0,
        s.solutions_provided == 0,
        s.contributions_made == 0,
        s.events_attended == 0,
        s.mentorship_sessions == 0,
        s.helpful_votes_received == 0,
    ensures
        reputation_of(s) == 0,
{
}

/// All else equal, one more of each kind of activity raises a member's reputation by a
/// fixed amount: 10 for a post, 5 for a reply, 50 for a solution, 100 for an approved
/// contribution, 25 for an attended event, 75 for a mentorship session and 15 for a
/// helpful vote received.
pub proof fn law_reputation_per_activity(a: UserCommunityStats, b: UserCommunityStats)
    ensures
        b == (UserCommunityStats { posts_created: (a.posts_created + 1) as u32, ..a }) && a.posts_created < u32::MAX
            ==> reputation_of(b) == reputation_of(a) + 10,
        b == (UserCommunityStats { replies_given: (a.replies_given + 1) as u32, ..a }) && a.replies_given < u32::MAX
            ==> reputation_of(b) == reputation_of(a) + 5,
        b == (UserCommunityStats { solutions_provided: (a.solutions_provided + 1) as u32, ..a })
            && a.solutions_provided < u32::MAX ==> reputation_of(b) == reputation_of(a) + 50,
        b == (UserCommunityStats { contributions_made: (a.contributions_made + 1) as u32, ..a })
            && a.contributions_made < u32::MAX ==> reputation_of(b) == reputation_of(a) + 100,
        b == (UserCommunityStats { events_attended: (a.events_attended + 1) as u32, ..a })
            && a.events_attended < u32::MAX ==> reputation_of(b) == reputation_of(a) + 25,
        b == (UserCommunityStats { mentorship_sessions: (a.mentorship_sessions + 1) as u32, ..a })
            && a.mentorship_sessions < u32::MAX ==> reputation_of(b) == reputation_of(a) + 75,
        b == (UserCommunityStats { helpful_votes_received: (a.helpful_votes_received + 1) as u32, ..a })
            && a.helpful_votes_received < u32::MAX ==> reputation_of(b) == reputation_of(a) + 15,
{
}

} // verus!
