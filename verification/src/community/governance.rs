use vstd::prelude::*;
use crate::common::ids::Address;
use crate::common::lists::{collect_existing, existing_records, without_id};
use crate::community::errors::Error;
use crate::community::state::{counters_with, keeps, stats_of, Community, CommunityStorage, CounterKind};
use crate::community::types::{CommunityProposal, ProposalStatus, ProposalType};

verus! {

/// Votes a member of this reputation casts: one per hundred points, and at least one.
pub open spec fn vote_weight(reputation: u32) -> u32 {
    if reputation / 100 > 1 { reputation / 100 } else { 1 }
}

/// The status a closed vote ends in: passed when enough votes came in and more were for than against.
pub open spec fn final_status(votes_for: u32, votes_against: u32, min_votes_required: u32) -> ProposalStatus {
    if votes_for + votes_against < min_votes_required {
        ProposalStatus::Rejected
    } else if votes_for > votes_against {
        ProposalStatus::Passed
    } else {
        ProposalStatus::Rejected
    }
}

/// What `create_proposal` answers before it stores anything.
pub open spec fn proposal_check(c: &Community, proposer: Address) -> Result<(), Error> {
    if !c.user_stats@.contains_key(proposer.id) {
        Err(Error::InsufficientReputation)
    } else if c.user_stats@[proposer.id].reputation_score < c.config_spec().vote_weight_threshold {
        Err(Error::InsufficientVotingPower)
    } else {
        Ok(())
    }
}

/// What `vote_on_proposal` answers before it stores anything.
pub open spec fn ballot_check(c: &Community, voter: Address, proposal_id: u64, now: u64) -> Result<(), Error> {
    if !c.governance.proposals@.contains_key(proposal_id) {
        Err(Error::ProposalNotFound)
    } else if now > c.governance.proposals@[proposal_id].voting_ends_at {
        Err(Error::VotingClosed)
    } else if c.governance.proposals@[proposal_id].status != ProposalStatus::Active {
        Err(Error::VotingClosed)
    } else if c.governance.proposal_votes@.contains_key((voter.id, proposal_id)) {
        Err(Error::AlreadyVotedOnProposal)
    } else if stats_of(c.user_stats@, voter, now).reputation_score < c.config_spec().vote_weight_threshold {
        Err(Error::InsufficientVotingPower)
    } else {
        Ok(())
    }
}

/// What `finalize_proposal` answers before it stores anything.
pub open spec fn finalize_check(c: &Community, proposal_id: u64, now: u64) -> Result<(), Error> {
    if !c.governance.proposals@.contains_key(proposal_id) {
        Err(Error::ProposalNotFound)
    } else if now <= c.governance.proposals@[proposal_id].voting_ends_at {
        Err(Error::InvalidInput)
    } else if c.governance.proposals@[proposal_id].status != ProposalStatus::Active {
        Err(Error::InvalidInput)
    } else {
        Ok(())
    }
}

/// Community proposals and reputation-weighted votes.
pub struct GovernanceManager;

impl GovernanceManager {
    /// A member with enough reputation opens a proposal; voting runs for `voting_duration` seconds.
    pub fn create_proposal(
        c: &mut Community,
        proposer: &Address,
        proposal_type: ProposalType,
        title: String,
        description: String,
        voting_duration: u64,
        min_votes_required: u32,
        now: u64,
    ) -> (r: Result<u64, Error>)
        requires
            old(c).wf(),
            old(c).counters.proposal < u64::MAX,
            now + voting_duration <= u64::MAX,
        ensures
            final(c).wf(),
            keeps(old(c), final(c), false, false, false, false, false, true, false, true),
            proposal_check(old(c), *proposer) is Err ==> {
                &&& r == Err::<u64, Error>(proposal_check(old(c), *proposer)->Err_0)
                &&& final(c).governance == old(c).governance
                &&& final(c).counters == old(c).counters
            },
            proposal_check(old(c), *proposer) is Ok ==> {
                let id = (old(c).counters.proposal + 1) as u64;
                &&& r == Ok::<u64, Error>(id)
                &&& !old(c).governance.proposals@.contains_key(id)
                &&& final(c).counters == counters_with(old(c).counters, CounterKind::Proposal, id)
                &&& final(c).governance.proposals@ == old(c).governance.proposals@.insert(
                    id,
                    CommunityProposal {
                        id,
                        proposer: *proposer,
                        proposal_type,
                        title,
                        description,
                        status: ProposalStatus::Active,
                        votes_for: 0,
                        votes_against: 0,
                        created_at: now,
                        voting_ends_at: (now + voting_duration) as u64,
                        min_votes_required,
                    },
                )
                &&& final(c).governance.active_proposals@ == old(c).governance.active_proposals@.push(id)
                &&& final(c).governance.proposal_votes == old(c).governance.proposal_votes
            },
    {
        let reputation = match c.user_stats.get(proposer) {
            None => return Err(Error::InsufficientReputation),
            Some(s) => s.reputation_score,
        };
        let config = CommunityStorage::get_config(c);
        if reputation < config.vote_weight_threshold {
            return Err(Error::InsufficientVotingPower);
        }
        let proposal_id = CommunityStorage::increment_counter(c, CounterKind::Proposal);
        let proposal = CommunityProposal {
            id: proposal_id,
            proposer: *proposer,
            proposal_type,
            title,
            description,
            status: ProposalStatus::Active,
            votes_for: 0,
            votes_against: 0,
            created_at: now,
            voting_ends_at: now + voting_duration,
            min_votes_required,
        };
        c.governance.proposals.set(proposal_id, proposal);
        c.governance.active_proposals.push(proposal_id);
        Ok(proposal_id)
    }

    /// A member with enough reputation votes once on an open proposal, with a weight of one
    /// vote per hundred reputation points and at least one.
    pub fn vote_on_proposal(c: &mut Community, voter: &Address, proposal_id: u64, vote_for: bool, now: u64) -> (r: Result<(), Error>)
        requires
            old(c).wf(),
            ballot_check(old(c), *voter, proposal_id, now) is Ok ==> {
                let p = old(c).governance.proposals@[proposal_id];
                let w = vote_weight(stats_of(old(c).user_stats@, *voter, now).reputation_score);
                if vote_for { p.votes_for + w <= u32::MAX } else { p.votes_against + w <= u32::MAX }
            },
        ensures
            final(c).wf(),
            keeps(old(c), final(c), false, false, false, false, false, true, false, false),
            r == ballot_check(old(c), *voter, proposal_id, now),
            r is Err ==> final(c).governance == old(c).governance,
            r is Ok ==> {
                let p = old(c).governance.proposals@[proposal_id];
                let w = vote_weight(stats_of(old(c).user_stats@, *voter, now).reputation_score);
                &&& final(c).governance.proposals@ == old(c).governance.proposals@.insert(
                    proposal_id,
                    if vote_for {
                        CommunityProposal { votes_for: (p.votes_for + w) as u32, ..p }
                    } else {
                        CommunityProposal { votes_against: (p.votes_against + w) as u32, ..p }
                    },
                )
                &&& final(c).governance.proposal_votes@ == old(c).governance.proposal_votes@.insert((voter.id, proposal_id), vote_for)
                &&& final(c).governance.active_proposals == old(c).governance.active_proposals
            },
    {
        match c.governance.proposals.get(&proposal_id) {
            None => return Err(Error::ProposalNotFound),
            Some(p) => {
                if now > p.voting_ends_at {
                    return Err(Error::VotingClosed);
                }
                if p.status != ProposalStatus::Active {
                    return Err(Error::VotingClosed);
                }
            },
        }
        let vote_key = (*voter, proposal_id);
        if c.governance.proposal_votes.contains_key(&vote_key) {
            return Err(Error::AlreadyVotedOnProposal);
        }
        let stats = CommunityStorage::stats_or_new(c, *voter, now);
        let config = CommunityStorage::get_config(c);
        if stats.reputation_score < config.vote_weight_threshold {
            return Err(Error::InsufficientVotingPower);
        }
        let weight = if stats.reputation_score / 100 > 1 { stats.reputation_score / 100 } else { 1 };
        let mut proposal = c.governance.proposals.remove(&proposal_id).unwrap();
        if vote_for {
            proposal.votes_for = proposal.votes_for + weight;
        } else {
            proposal.votes_against = proposal.votes_against + weight;
        }
        c.governance.proposals.set(proposal_id, proposal);
        proof {
            let p = old(c).governance.proposals@[proposal_id];
            let w = vote_weight(stats_of(old(c).user_stats@, *voter, now).reputation_score);
            assert(c.governance.proposals@ =~= old(c).governance.proposals@.insert(
                proposal_id,
                if vote_for {
                    CommunityProposal { votes_for: (p.votes_for + w) as u32, ..p }
                } else {
                    CommunityProposal { votes_against: (p.votes_against + w) as u32, ..p }
                },
            ));
        }
        c.governance.proposal_votes.set(vote_key, vote_for);
        Ok(())
    }

    /// Closes a proposal whose voting period is over and answers its final status.
    pub fn finalize_proposal(c: &mut Community, proposal_id: u64, now: u64) -> (r: Result<ProposalStatus, Error>)
        requires
            old(c).wf(),
            old(c).governance.proposals@.contains_key(proposal_id) ==> old(c).governance.proposals@[proposal_id].votes_for
                + old(c).governance.proposals@[proposal_id].votes_against <= u32::MAX,
        ensures
            final(c).wf(),
            keeps(old(c), final(c), false, false, false, false, false, true, false, false),
            finalize_check(old(c), proposal_id, now) is Err ==> {
                &&& r == Err::<ProposalStatus, Error>(finalize_check(old(c), proposal_id, now)->Err_0)
                &&& final(c).governance == old(c).governance
            },
            finalize_check(old(c), proposal_id, now) is Ok ==> {
                let p = old(c).governance.proposals@[proposal_id];
                let st = final_status(p.votes_for, p.votes_against, p.min_votes_required);
                &&& r == Ok::<ProposalStatus, Error>(st)
                &&& final(c).governance.proposals@ == old(c).governance.proposals@.insert(
                    proposal_id,
                    CommunityProposal { status: st, ..p },
                )
                &&& final(c).governance.active_proposals@ == old(c).governance.active_proposals@.filter(|y: u64| y != proposal_id)
                &&& final(c).governance.proposal_votes == old(c).governance.proposal_votes
            },
    {
        match c.governance.proposals.get(&proposal_id) {
            None => return Err(Error::ProposalNotFound),
            Some(p) => {
                if now <= p.voting_ends_at {
                    return Err(Error::InvalidInput);
                }
                if p.status != ProposalStatus::Active {
                    return Err(Error::InvalidInput);
                }
            },
        }
        let mut proposal = c.governance.proposals.remove(&proposal_id).unwrap();
        let total_votes = proposal.votes_for + proposal.votes_against;
        let status = if total_votes < proposal.min_votes_required {
            ProposalStatus::Rejected
        } else if proposal.votes_for > proposal.votes_against {
            ProposalStatus::Passed
        } else {
            ProposalStatus::Rejected
        };
        proposal.status = status;
        c.governance.proposals.set(proposal_id, proposal);
        proof {
            let p = old(c).governance.proposals@[proposal_id];
            assert(c.governance.proposals@ =~= old(c).governance.proposals@.insert(
                proposal_id,
                CommunityProposal { status: final_status(p.votes_for, p.votes_against, p.min_votes_required), ..p },
            ));
        }
        let remaining = without_id(&c.governance.active_proposals, proposal_id);
        c.governance.active_proposals = remaining;
        Ok(status)
    }

    /// A proposal.
    pub fn get_proposal(c: &Community, proposal_id: u64) -> (r: Option<&CommunityProposal>)
        ensures
            match r {
                Some(p) => c.governance.proposals@.contains_key(proposal_id) && *p == c.governance.proposals@[proposal_id],
                None => !c.governance.proposals@.contains_key(proposal_id),
            },
    {
        c.governance.proposals.get(&proposal_id)
    }

    /// The proposals still open, oldest first.
    pub fn get_active_proposals(c: &Community) -> (r: Vec<&CommunityProposal>)
        ensures
            r@.map_values(|x: &CommunityProposal| *x) == existing_records(c.governance.active_proposals@, c.governance.proposals@),
    {
        let r = collect_existing(&c.governance.active_proposals, &c.governance.proposals, c.governance.active_proposals.len());
        proof {
            assert(c.governance.active_proposals@.take(c.governance.active_proposals@.len() as int) =~= c.governance.active_proposals@);
        }
        r
    }
}

} // verus!
