use vstd::prelude::*;
use crate::common::ids::Address;
use crate::common::lists::{collect_existing, existing_records, list_at, list_pushed, push_to_list};
use crate::community::errors::Error;
use crate::community::state::{counters_with, keeps, stats_of, Community, CommunityStorage, CounterKind};
use crate::community::types::{
    CommunityConfig, ContributionStatus, ContributionType, ForumCategory, KnowledgeContribution,
    UserCommunityStats,
};

verus! {

/// How many times the base reward a contribution of this type earns.
pub open spec fn reward_multiplier(t: ContributionType) -> u32 {
    match t {
        ContributionType::Article => 3,
        ContributionType::Tutorial => 4,
        ContributionType::CodeSnippet => 2,
        ContributionType::Resource => 2,
        ContributionType::FAQ => 1,
    }
}

/// The rewards of a contribution of type `t` fit their types.
pub open spec fn reward_fits(config: CommunityConfig, t: ContributionType) -> bool {
    &&& config.contribution_base_xp * reward_multiplier(t) <= u32::MAX
    &&& i128::MIN <= config.contribution_base_tokens * reward_multiplier(t) <= i128::MAX
}

/// What `review_contribution` answers before it stores anything.
pub open spec fn review_check(c: &Community, moderator: Address, contribution_id: u64) -> Result<(), Error> {
    if c.moderator_check(moderator) is Err {
        c.moderator_check(moderator)
    } else if !c.knowledge.contributions@.contains_key(contribution_id) {
        Err(Error::ContributionNotFound)
    } else if c.knowledge.contributions@[contribution_id].status != ContributionStatus::Submitted
        && c.knowledge.contributions@[contribution_id].status != ContributionStatus::UnderReview {
        Err(Error::InvalidContributionStatus)
    } else {
        Ok(())
    }
}

/// What `vote_contribution` answers before it stores anything.
pub open spec fn vote_check(contributions: Map<u64, KnowledgeContribution>, contribution_id: u64) -> Result<(), Error> {
    if !contributions.contains_key(contribution_id) {
        Err(Error::ContributionNotFound)
    } else if contributions[contribution_id].status != ContributionStatus::Approved
        && contributions[contribution_id].status != ContributionStatus::Published {
        Err(Error::InvalidContributionStatus)
    } else {
        Ok(())
    }
}

/// Knowledge-base contributions, their review and votes.
pub struct KnowledgeManager;

impl KnowledgeManager {
    /// Files a contribution for review.
    pub fn submit_contribution(
        c: &mut Community,
        contributor: &Address,
        contribution_type: ContributionType,
        title: String,
        content: String,
        category: ForumCategory,
        tags: Vec<String>,
        now: u64,
    ) -> (r: Result<u64, Error>)
        requires
            old(c).wf(),
            old(c).counters.contribution < u64::MAX,
        ensures
            final(c).wf(),
            keeps(old(c), final(c), false, false, true, false, false, false, false, true),
            ({
                let id = (old(c).counters.contribution + 1) as u64;
                &&& r == Ok::<u64, Error>(id)
                &&& !old(c).knowledge.contributions@.contains_key(id)
                &&& final(c).counters == counters_with(old(c).counters, CounterKind::Contribution, id)
                &&& final(c).knowledge.contributions@ == old(c).knowledge.contributions@.insert(
                    id,
                    KnowledgeContribution {
                        id,
                        contributor: *contributor,
                        contribution_type,
                        title,
                        content,
                        status: ContributionStatus::Submitted,
                        category,
                        tags,
                        upvotes: 0,
                        views: 0,
                        created_at: now,
                        published_at: 0,
                        xp_reward: 0,
                        token_reward: 0,
                    },
                )
                &&& list_pushed(old(c).knowledge.user_contributions@, final(c).knowledge.user_contributions@, contributor.id, id)
                &&& final(c).knowledge.category_contributions == old(c).knowledge.category_contributions
            }),
    {
        let contribution_id = CommunityStorage::increment_counter(c, CounterKind::Contribution);
        let contribution = KnowledgeContribution {
            id: contribution_id,
            contributor: *contributor,
            contribution_type,
            title,
            content,
            status: ContributionStatus::Submitted,
            category,
            tags,
            upvotes: 0,
            views: 0,
            created_at: now,
            published_at: 0,
            xp_reward: 0,
            token_reward: 0,
        };
        c.knowledge.contributions.set(contribution_id, contribution);
        push_to_list(&mut c.knowledge.user_contributions, *contributor, contribution_id);
        Ok(contribution_id)
    }

    /// A moderator approves or rejects a submitted contribution. Approval publishes it,
    /// sets its rewards by type, files it under its category and counts it for the contributor.
    pub fn review_contribution(c: &mut Community, moderator: &Address, contribution_id: u64, approve: bool, now: u64) -> (r: Result<(), Error>)
        requires
            old(c).wf(),
            approve && review_check(old(c), *moderator, contribution_id) is Ok ==> {
                let k = old(c).knowledge.contributions@[contribution_id];
                &&& reward_fits(old(c).config_spec(), k.contribution_type)
                &&& stats_of(old(c).user_stats@, k.contributor, now).contributions_made < u32::MAX
            },
        ensures
            final(c).wf(),
            keeps(old(c), final(c), false, false, true, false, false, false, true, false),
            r == review_check(old(c), *moderator, contribution_id),
            r is Err ==> final(c).knowledge == old(c).knowledge && final(c).user_stats == old(c).user_stats,
            r is Ok && !approve ==> {
                &&& final(c).knowledge.contributions@ == old(c).knowledge.contributions@.insert(
                    contribution_id,
                    KnowledgeContribution { status: ContributionStatus::Rejected, ..old(c).knowledge.contributions@[contribution_id] },
                )
                &&& final(c).knowledge.category_contributions == old(c).knowledge.category_contributions
                &&& final(c).knowledge.user_contributions == old(c).knowledge.user_contributions
                &&& final(c).user_stats == old(c).user_stats
            },
            r is Ok && approve ==> {
                let k = old(c).knowledge.contributions@[contribution_id];
                let s = stats_of(old(c).user_stats@, k.contributor, now);
                let m = reward_multiplier(k.contribution_type);
                &&& final(c).knowledge.contributions@ == old(c).knowledge.contributions@.insert(
                    contribution_id,
                    KnowledgeContribution {
                        status: ContributionStatus::Approved,
                        published_at: now,
                        xp_reward: (old(c).config_spec().contribution_base_xp * m) as u32,
                        token_reward: (old(c).config_spec().contribution_base_tokens * m) as i128,
                        ..k
                    },
                )
                &&& list_pushed(old(c).knowledge.category_contributions@, final(c).knowledge.category_contributions@, k.category, contribution_id)
                &&& final(c).knowledge.user_contributions == old(c).knowledge.user_contributions
                &&& final(c).user_stats@ == old(c).user_stats@.insert(
                    k.contributor.id,
                    UserCommunityStats { contributions_made: (s.contributions_made + 1) as u32, ..s },
                )
            },
    {
        let checked = CommunityStorage::require_moderator(c, moderator);
        if checked.is_err() {
            return checked;
        }
        match c.knowledge.contributions.get(&contribution_id) {
            None => return Err(Error::ContributionNotFound),
            Some(k) => {
                if k.status != ContributionStatus::Submitted && k.status != ContributionStatus::UnderReview {
                    return Err(Error::InvalidContributionStatus);
                }
            },
        }
        let config = CommunityStorage::get_config(c);
        let mut contribution = c.knowledge.contributions.remove(&contribution_id).unwrap();
        if approve {
            contribution.status = ContributionStatus::Approved;
            contribution.published_at = now;
            let (xp, tokens) = Self::calculate_rewards(&contribution.contribution_type, &config);
            contribution.xp_reward = xp;
            contribution.token_reward = tokens;
            let category = contribution.category;
            let contributor = contribution.contributor;
            c.knowledge.contributions.set(contribution_id, contribution);
            push_to_list(&mut c.knowledge.category_contributions, category, contribution_id);
            Self::update_contributor_stats(c, &contributor, now);
        } else {
            contribution.status = ContributionStatus::Rejected;
            c.knowledge.contributions.set(contribution_id, contribution);
        }
        proof {
            let k = old(c).knowledge.contributions@[contribution_id];
            let m = reward_multiplier(k.contribution_type);
            if approve {
                assert(c.knowledge.contributions@ =~= old(c).knowledge.contributions@.insert(
                    contribution_id,
                    KnowledgeContribution {
                        status: ContributionStatus::Approved,
                        published_at: now,
                        xp_reward: (old(c).config_spec().contribution_base_xp * m) as u32,
                        token_reward: (old(c).config_spec().contribution_base_tokens * m) as i128,
                        ..k
                    },
                ));
            } else {
                assert(c.knowledge.contributions@ =~= old(c).knowledge.contributions@.insert(
                    contribution_id,
                    KnowledgeContribution { status: ContributionStatus::Rejected, ..k },
                ));
            }
        }
        Ok(())
    }

    /// An upvote on an approved or published contribution counts for its contributor.
    pub fn vote_contribution(c: &mut Community, voter: &Address, contribution_id: u64, upvote: bool) -> (r: Result<(), Error>)
        requires
            old(c).wf(),
            old(c).knowledge.contributions@.contains_key(contribution_id) ==> {
                let k = old(c).knowledge.contributions@[contribution_id];
                &&& k.upvotes < u32::MAX
                &&& old(c).user_stats@.contains_key(k.contributor.id)
                    ==> old(c).user_stats@[k.contributor.id].helpful_votes_received < u32::MAX
            },
        ensures
            final(c).wf(),
            keeps(old(c), final(c), false, false, true, false, false, false, true, false),
            r == vote_check(old(c).knowledge.contributions@, contribution_id),
            r is Err ==> final(c).knowledge == old(c).knowledge && final(c).user_stats == old(c).user_stats,
            r is Ok ==> {
                let k = old(c).knowledge.contributions@[contribution_id];
                let s = old(c).user_stats@[k.contributor.id];
                &&& final(c).knowledge.contributions@ == if upvote {
                    old(c).knowledge.contributions@.insert(contribution_id, KnowledgeContribution { upvotes: (k.upvotes + 1) as u32, ..k })
                } else {
                    old(c).knowledge.contributions@
                }
                &&& final(c).user_stats@ == if upvote {
                    old(c).user_stats@.insert(
                        k.contributor.id,
                        UserCommunityStats { helpful_votes_received: (s.helpful_votes_received + 1) as u32, ..s },
                    )
                } else {
                    old(c).user_stats@
                }
                &&& final(c).knowledge.category_contributions == old(c).knowledge.category_contributions
                &&& final(c).knowledge.user_contributions == old(c).knowledge.user_contributions
            },
    {
        match c.knowledge.contributions.get(&contribution_id) {
            None => return Err(Error::ContributionNotFound),
            Some(k) => {
                if k.status != ContributionStatus::Approved && k.status != ContributionStatus::Published {
                    return Err(Error::InvalidContributionStatus);
                }
            },
        }
        let mut contribution = c.knowledge.contributions.remove(&contribution_id).unwrap();
        if upvote {
            contribution.upvotes = contribution.upvotes + 1;
            let contributor = contribution.contributor;
            let mut stats = *c.user_stats.get(&contributor).unwrap();
            stats.helpful_votes_received = stats.helpful_votes_received + 1;
            c.user_stats.set(contributor, stats);
        }
        c.knowledge.contributions.set(contribution_id, contribution);
        proof {
            let k = old(c).knowledge.contributions@[contribution_id];
            if upvote {
                assert(c.knowledge.contributions@ =~= old(c).knowledge.contributions@.insert(
                    contribution_id,
                    KnowledgeContribution { upvotes: (k.upvotes + 1) as u32, ..k },
                ));
            } else {
                assert(c.knowledge.contributions@ =~= old(c).knowledge.contributions@);
            }
        }
        Ok(())
    }

    /// Reads a contribution and counts the view.
    pub fn get_contribution(c: &mut Community, contribution_id: u64) -> (r: Option<&KnowledgeContribution>)
        requires
            old(c).wf(),
            old(c).knowledge.contributions@.contains_key(contribution_id)
                ==> old(c).knowledge.contributions@[contribution_id].views < u32::MAX,
        ensures
            final(c).wf(),
            keeps(old(c), final(c), false, false, true, false, false, false, false, false),
            final(c).knowledge.category_contributions == old(c).knowledge.category_contributions,
            final(c).knowledge.user_contributions == old(c).knowledge.user_contributions,
            match r {
                Some(k) => {
                    let old_k = old(c).knowledge.contributions@[contribution_id];
                    &&& old(c).knowledge.contributions@.contains_key(contribution_id)
                    &&& *k == KnowledgeContribution { views: (old_k.views + 1) as u32, ..old_k }
                    &&& final(c).knowledge.contributions@ == old(c).knowledge.contributions@.insert(contribution_id, *k)
                },
                None => !old(c).knowledge.contributions@.contains_key(contribution_id)
                    && final(c).knowledge.contributions@ == old(c).knowledge.contributions@,
            },
    {
        match c.knowledge.contributions.remove(&contribution_id) {
            None => None,
            Some(mut k) => {
                k.views = k.views + 1;
                c.knowledge.contributions.set(contribution_id, k);
                proof {
                    let old_k = old(c).knowledge.contributions@[contribution_id];
                    assert(c.knowledge.contributions@ =~= old(c).knowledge.contributions@.insert(
                        contribution_id,
                        KnowledgeContribution { views: (old_k.views + 1) as u32, ..old_k },
                    ));
                }
                c.knowledge.contributions.get(&contribution_id)
            },
        }
    }

    /// The first `limit` approved contributions of a category, in approval order.
    pub fn get_category_contributions(c: &Community, category: ForumCategory, limit: u32) -> (r: Vec<&KnowledgeContribution>)
        ensures
            r@.map_values(|x: &KnowledgeContribution| *x) == existing_records(
                list_at(c.knowledge.category_contributions@, category).take(
                    if (limit as int) < list_at(c.knowledge.category_contributions@, category).len() { limit as int }
                    else { list_at(c.knowledge.category_contributions@, category).len() as int },
                ),
                c.knowledge.contributions@,
            ),
    {
        match c.knowledge.category_contributions.get(&category) {
            Some(ids) => collect_existing(ids, &c.knowledge.contributions, limit as usize),
            None => {
                let r: Vec<&KnowledgeContribution> = Vec::new();
                proof {
                    assert(r@.map_values(|x: &KnowledgeContribution| *x) =~= Seq::<KnowledgeContribution>::empty());
                    assert(list_at(c.knowledge.category_contributions@, category).take(0) =~= Seq::<u64>::empty());
                }
                r
            },
        }
    }

    /// Every contribution a member submitted, oldest first.
    pub fn get_user_contributions<'a>(c: &'a Community, user: &Address) -> (r: Vec<&'a KnowledgeContribution>)
        ensures
            r@.map_values(|x: &KnowledgeContribution| *x) == existing_records(
                list_at(c.knowledge.user_contributions@, user.id),
                c.knowledge.contributions@,
            ),
    {
        match c.knowledge.user_contributions.get(user) {
            Some(ids) => {
                let r = collect_existing(ids, &c.knowledge.contributions, ids.len());
                proof {
                    assert(ids@.take(ids@.len() as int) =~= ids@);
                }
                r
            },
            None => {
                let r: Vec<&KnowledgeContribution> = Vec::new();
                proof {
                    assert(r@.map_values(|x: &KnowledgeContribution| *x) =~= Seq::<KnowledgeContribution>::empty());
                }
                r
            },
        }
    }

    /// The XP and token rewards of a contribution: the configured base amounts times
    /// 3 for an article, 4 for a tutorial, 2 for a code snippet or a resource, 1 for a FAQ.
    pub fn calculate_rewards(contribution_type: &ContributionType, config: &CommunityConfig) -> (r: (u32, i128))
        requires
            reward_fits(*config, *contribution_type),
        ensures
            r.0 == config.contribution_base_xp * reward_multiplier(*contribution_type),
            r.1 == config.contribution_base_tokens * reward_multiplier(*contribution_type),
    {
        let multiplier: u32 = match contribution_type {
            ContributionType::Article => 3,
            ContributionType::Tutorial => 4,
            ContributionType::CodeSnippet => 2,
            ContributionType::Resource => 2,
            ContributionType::FAQ => 1,
        };
        assert(multiplier == reward_multiplier(*contribution_type));
        (config.contribution_base_xp * multiplier, config.contribution_base_tokens * (multiplier as i128))
    }

    fn update_contributor_stats(c: &mut Community, contributor: &Address, now: u64)
        requires
            stats_of(old(c).user_stats@, *contributor, now).contributions_made < u32::MAX,
        ensures
            final(c).user_stats@ == old(c).user_stats@.insert(
                contributor.id,
                UserCommunityStats {
                    contributions_made: (stats_of(old(c).user_stats@, *contributor, now).contributions_made + 1) as u32,
                    ..stats_of(old(c).user_stats@, *contributor, now)
                },
            ),
            keeps(old(c), final(c), false, false, false, false, false, false, true, false),
    {
        let mut stats = CommunityStorage::stats_or_new(c, *contributor, now);
        stats.contributions_made = stats.contributions_made + 1;
        c.user_stats.set(*contributor, stats);
    }
}

} // verus!
