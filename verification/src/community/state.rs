use vstd::prelude::*;
use crate::common::ids::Address;
use crate::common::table::Table;
use crate::community::errors::Error;
use crate::community::types::{
    default_config, default_config_spec, fresh_stats, new_stats, CommunityConfig, CommunityEvent,
    CommunityMetrics, CommunityProposal, ContentReport, EventParticipant, ForumCategory, ForumPost,
    ForumReply, KnowledgeContribution, MentorProfile, MentorshipRequest, MentorshipSession,
    ModeratorAction, ModeratorRole, UserCommunityStats, ContributionStatus,
};

verus! {

/// The counters from which record ids are drawn; each id is the counter after its increment.
#[derive(Clone, Copy, Debug, PartialEq, Eq, Structural)]
pub struct Counters {
    pub post: u64,
    pub reply: u64,
    pub contribution: u64,
    pub event: u64,
    pub report: u64,
    pub proposal: u64,
    pub mentorship: u64,
    pub session: u64,
}

/// Which counter to draw the next id from.
#[derive(Clone, Copy, Debug, PartialEq, Eq, Structural)]
pub enum CounterKind {
    Post,
    Reply,
    Contribution,
    Event,
    Report,
    Proposal,
    Mentorship,
    Session,
}

pub open spec fn counter_value(c: Counters, k: CounterKind) -> u64 {
    match k {
        CounterKind::Post => c.post,
        CounterKind::Reply => c.reply,
        CounterKind::Contribution => c.contribution,
        CounterKind::Event => c.event,
        CounterKind::Report => c.report,
        CounterKind::Proposal => c.proposal,
        CounterKind::Mentorship => c.mentorship,
        CounterKind::Session => c.session,
    }
}

/// `c` with counter `k` set to `v`.
pub open spec fn counters_with(c: Counters, k: CounterKind, v: u64) -> Counters {
    match k {
        CounterKind::Post => Counters { post: v, ..c },
        CounterKind::Reply => Counters { reply: v, ..c },
        CounterKind::Contribution => Counters { contribution: v, ..c },
        CounterKind::Event => Counters { event: v, ..c },
        CounterKind::Report => Counters { report: v, ..c },
        CounterKind::Proposal => Counters { proposal: v, ..c },
        CounterKind::Mentorship => Counters { mentorship: v, ..c },
        CounterKind::Session => Counters { session: v, ..c },
    }
}

pub struct ForumState {
    pub posts: Table<u64, ForumPost>,
    pub replies: Table<u64, ForumReply>,
    /// Reply ids of each post, in creation order.
    pub post_replies: Table<u64, Vec<u64>>,
    pub category_posts: Table<ForumCategory, Vec<u64>>,
    pub user_posts: Table<Address, Vec<u64>>,
    /// The vote each member cast on a post (true for an upvote).
    pub post_votes: Table<(Address, u64), bool>,
}

pub struct MentorshipState {
    pub profiles: Table<Address, MentorProfile>,
    pub requests: Table<u64, MentorshipRequest>,
    pub user_mentorships: Table<Address, Vec<u64>>,
    pub sessions: Table<u64, MentorshipSession>,
}

pub struct KnowledgeState {
    pub contributions: Table<u64, KnowledgeContribution>,
    pub user_contributions: Table<Address, Vec<u64>>,
    pub category_contributions: Table<ForumCategory, Vec<u64>>,
}

pub struct EventState {
    pub events: Table<u64, CommunityEvent>,
    pub participants: Table<u64, Vec<Address>>,
    pub user_events: Table<Address, Vec<u64>>,
    pub registrations: Table<(Address, u64), EventParticipant>,
}

pub struct ModerationState {
    pub moderators: Table<Address, ModeratorRole>,
    pub reports: Table<u64, ContentReport>,
    pub pending_reports: Vec<u64>,
    pub actions: Table<u64, ModeratorAction>,
    pub user_actions: Table<Address, Vec<u64>>,
}

pub struct GovernanceState {
    pub proposals: Table<u64, CommunityProposal>,
    pub active_proposals: Vec<u64>,
    pub proposal_votes: Table<(Address, u64), bool>,
}

/// The whole state of the community contract.
pub struct Community {
    pub admin: Option<Address>,
    pub config: Option<CommunityConfig>,
    pub counters: Counters,
    pub forum: ForumState,
    pub mentorship: MentorshipState,
    pub knowledge: KnowledgeState,
    pub events: EventState,
    pub moderation: ModerationState,
    pub governance: GovernanceState,
    pub user_stats: Table<Address, UserCommunityStats>,
    pub metrics: Option<CommunityMetrics>,
}

/// Every key of `m` is an id already drawn from a counter whose value is `n`.
pub open spec fn ids_drawn<V>(m: Map<u64, V>, n: u64) -> bool {
    forall|k: u64| #[trigger] m.contains_key(k) ==> 1 <= k <= n
}

/// The statistics kept for a member, or those of a new member.
pub open spec fn stats_of(m: Map<u64, UserCommunityStats>, user: Address, now: u64) -> UserCommunityStats {
    if m.contains_key(user.id) {
        m[user.id]
    } else {
        fresh_stats(user, now)
    }
}

impl Community {
    /// Ids of every kind of record come from their own counter, so a fresh id is never in use.
    pub open spec fn wf(&self) -> bool {
        &&& ids_drawn(self.forum.posts@, self.counters.post)
        &&& ids_drawn(self.forum.replies@, self.counters.reply)
        &&& ids_drawn(self.mentorship.requests@, self.counters.mentorship)
        &&& ids_drawn(self.mentorship.sessions@, self.counters.session)
        &&& ids_drawn(self.knowledge.contributions@, self.counters.contribution)
        &&& ids_drawn(self.events.events@, self.counters.event)
        &&& ids_drawn(self.moderation.reports@, self.counters.report)
        &&& ids_drawn(self.moderation.actions@, self.counters.report)
        &&& ids_drawn(self.governance.proposals@, self.counters.proposal)
        &&& forall|id: u64| #[trigger] self.mentorship.requests@.contains_key(id)
            ==> self.mentorship.profiles@.contains_key(self.mentorship.requests@[id].mentor.id)
        &&& forall|id: u64| #[trigger] self.mentorship.sessions@.contains_key(id)
            ==> self.mentorship.profiles@.contains_key(self.mentorship.sessions@[id].mentor.id)
        &&& forall|id: u64| #[trigger] self.knowledge.contributions@.contains_key(id)
            && (self.knowledge.contributions@[id].status == ContributionStatus::Approved
                || self.knowledge.contributions@[id].status == ContributionStatus::Published)
            ==> self.user_stats@.contains_key(self.knowledge.contributions@[id].contributor.id)
        &&& forall|id: u64| #[trigger] self.events.events@.contains_key(id)
            ==> self.events.events@[id].current_participants <= self.events.events@[id].max_participants
    }

    /// The state of a contract that has just been deployed.
    pub fn new() -> (r: Community)
        ensures
            r.wf(),
            r.admin.is_none(),
            r.config.is_none(),
            r.counters == (Counters { post: 0, reply: 0, contribution: 0, event: 0, report: 0, proposal: 0, mentorship: 0, session: 0 }),
            r.forum.posts@ == Map::<u64, ForumPost>::empty(),
            r.forum.replies@ == Map::<u64, ForumReply>::empty(),
            r.forum.post_replies@ == Map::<u64, Vec<u64>>::empty(),
            r.forum.category_posts@ == Map::<ForumCategory, Vec<u64>>::empty(),
            r.forum.user_posts@ == Map::<u64, Vec<u64>>::empty(),
            r.forum.post_votes@ == Map::<(u64, u64), bool>::empty(),
            r.mentorship.user_mentorships@ == Map::<u64, Vec<u64>>::empty(),
            r.knowledge.user_contributions@ == Map::<u64, Vec<u64>>::empty(),
            r.knowledge.category_contributions@ == Map::<ForumCategory, Vec<u64>>::empty(),
            r.events.participants@ == Map::<u64, Vec<Address>>::empty(),
            r.events.user_events@ == Map::<u64, Vec<u64>>::empty(),
            r.events.registrations@ == Map::<(u64, u64), EventParticipant>::empty(),
            r.moderation.user_actions@ == Map::<u64, Vec<u64>>::empty(),
            r.governance.proposal_votes@ == Map::<(u64, u64), bool>::empty(),
            r.mentorship.profiles@ == Map::<u64, MentorProfile>::empty(),
            r.mentorship.requests@ == Map::<u64, MentorshipRequest>::empty(),
            r.mentorship.sessions@ == Map::<u64, MentorshipSession>::empty(),
            r.knowledge.contributions@ == Map::<u64, KnowledgeContribution>::empty(),
            r.events.events@ == Map::<u64, CommunityEvent>::empty(),
            r.moderation.reports@ == Map::<u64, ContentReport>::empty(),
            r.moderation.actions@ == Map::<u64, ModeratorAction>::empty(),
            r.moderation.moderators@ == Map::<u64, ModeratorRole>::empty(),
            r.moderation.pending_reports@ == Seq::<u64>::empty(),
            r.governance.proposals@ == Map::<u64, CommunityProposal>::empty(),
            r.governance.active_proposals@ == Seq::<u64>::empty(),
            r.user_stats@ == Map::<u64, UserCommunityStats>::empty(),
            r.metrics.is_none(),
    {
        Community {
            admin: None,
            config: None,
            counters: Counters { post: 0, reply: 0, contribution: 0, event: 0, report: 0, proposal: 0, mentorship: 0, session: 0 },
            forum: ForumState {
                posts: Table::new(),
                replies: Table::new(),
                post_replies: Table::new(),
                category_posts: Table::new(),
                user_posts: Table::new(),
                post_votes: Table::new(),
            },
            mentorship: MentorshipState {
                profiles: Table::new(),
                requests: Table::new(),
                user_mentorships: Table::new(),
                sessions: Table::new(),
            },
            knowledge: KnowledgeState {
                contributions: Table::new(),
                user_contributions: Table::new(),
                category_contributions: Table::new(),
            },
            events: EventState {
                events: Table::new(),
                participants: Table::new(),
                user_events: Table::new(),
                registrations: Table::new(),
            },
            moderation: ModerationState {
                moderators: Table::new(),
                reports: Table::new(),
                pending_reports: Vec::new(),
                actions: Table::new(),
                user_actions: Table::new(),
            },
            governance: GovernanceState {
                proposals: Table::new(),
                active_proposals: Vec::new(),
                proposal_votes: Table::new(),
            },
            user_stats: Table::new(),
            metrics: None,
        }
    }

    /// The configuration in force.
    pub open spec fn config_spec(&self) -> CommunityConfig {
        match self.config {
            Some(c) => c,
            None => default_config_spec(),
        }
    }

    /// Whether `addr` passes the admin check, and which error it fails with otherwise.
    pub open spec fn admin_check(&self, addr: Address) -> Result<(), Error> {
        match self.admin {
            None => Err(Error::NotInitialized),
            Some(a) => if a == addr { Ok(()) } else { Err(Error::Unauthorized) },
        }
    }

    /// Moderators pass; anyone else must pass the admin check.
    pub open spec fn moderator_check(&self, addr: Address) -> Result<(), Error> {
        if self.moderation.moderators@.contains_key(addr.id) {
            Ok(())
        } else {
            self.admin_check(addr)
        }
    }
}

/// Which parts of the state an operation may change; every other part is left as it was.
pub open spec fn keeps(
    old: &Community,
    new: &Community,
    forum: bool,
    mentorship: bool,
    knowledge: bool,
    events: bool,
    moderation: bool,
    governance: bool,
    stats: bool,
    counters: bool,
) -> bool {
    &&& new.admin == old.admin
    &&& new.config == old.config
    &&& new.metrics == old.metrics
    &&& (!forum ==> new.forum == old.forum)
    &&& (!mentorship ==> new.mentorship == old.mentorship)
    &&& (!knowledge ==> new.knowledge == old.knowledge)
    &&& (!events ==> new.events == old.events)
    &&& (!moderation ==> new.moderation == old.moderation)
    &&& (!governance ==> new.governance == old.governance)
    &&& (!stats ==> new.user_stats == old.user_stats)
    &&& (!counters ==> new.counters == old.counters)
}

/// Storage helpers of the community contract.
pub struct CommunityStorage;

impl CommunityStorage {
    pub fn is_initialized(c: &Community) -> (r: bool)
        ensures
            r == c.admin.is_some(),
    {
        c.admin.is_some()
    }

    pub fn require_admin(c: &Community, addr: &Address) -> (r: Result<(), Error>)
        ensures
            r == c.admin_check(*addr),
    {
        match c.admin {
            None => Err(Error::NotInitialized),
            Some(a) => {
                if a == *addr {
                    Ok(())
                } else {
                    Err(Error::Unauthorized)
                }
            },
        }
    }

    pub fn require_moderator(c: &Community, addr: &Address) -> (r: Result<(), Error>)
        ensures
            r == c.moderator_check(*addr),
    {
        if c.moderation.moderators.contains_key(addr) {
            Ok(())
        } else {
            Self::require_admin(c, addr)
        }
    }

    pub fn get_config(c: &Community) -> (r: CommunityConfig)
        ensures
            r == c.config_spec(),
    {
        match c.config {
            Some(cfg) => cfg,
            None => default_config(),
        }
    }

    pub fn set_config(c: &mut Community, config: CommunityConfig)
        ensures
            final(c).config == Some(config),
            final(c).admin == old(c).admin,
            final(c).counters == old(c).counters,
            final(c).forum == old(c).forum,
            final(c).mentorship == old(c).mentorship,
            final(c).knowledge == old(c).knowledge,
            final(c).events == old(c).events,
            final(c).moderation == old(c).moderation,
            final(c).governance == old(c).governance,
            final(c).user_stats == old(c).user_stats,
            final(c).metrics == old(c).metrics,
    {
        c.config = Some(config);
    }

    /// Draws the next id from a counter.
    pub fn increment_counter(c: &mut Community, which: CounterKind) -> (r: u64)
        requires
            counter_value(old(c).counters, which) < u64::MAX,
        ensures
            r == counter_value(old(c).counters, which) + 1,
            final(c).counters == counters_with(old(c).counters, which, r),
            final(c).admin == old(c).admin,
            final(c).config == old(c).config,
            final(c).forum == old(c).forum,
            final(c).mentorship == old(c).mentorship,
            final(c).knowledge == old(c).knowledge,
            final(c).events == old(c).events,
            final(c).moderation == old(c).moderation,
            final(c).governance == old(c).governance,
            final(c).user_stats == old(c).user_stats,
            final(c).metrics == old(c).metrics,
    {
        let next: u64;
        match which {
            CounterKind::Post => {
                next = c.counters.post + 1;
                c.counters.post = next;
            },
            CounterKind::Reply => {
                next = c.counters.reply + 1;
                c.counters.reply = next;
            },
            CounterKind::Contribution => {
                next = c.counters.contribution + 1;
                c.counters.contribution = next;
            },
            CounterKind::Event => {
                next = c.counters.event + 1;
                c.counters.event = next;
            },
            CounterKind::Report => {
                next = c.counters.report + 1;
                c.counters.report = next;
            },
            CounterKind::Proposal => {
                next = c.counters.proposal + 1;
                c.counters.proposal = next;
            },
            CounterKind::Mentorship => {
                next = c.counters.mentorship + 1;
                c.counters.mentorship = next;
            },
            CounterKind::Session => {
                next = c.counters.session + 1;
                c.counters.session = next;
            },
        }
        next
    }

    /// The statistics of a member, or those of a new member joining now.
    pub fn stats_or_new(c: &Community, user: Address, now: u64) -> (r: UserCommunityStats)
        ensures
            r == stats_of(c.user_stats@, user, now),
    {
        match c.user_stats.get(&user) {
            Some(s) => *s,
            None => new_stats(user, now),
        }
    }
}

} // verus!
