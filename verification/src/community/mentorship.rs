use vstd::prelude::*;
use crate::common::ids::Address;
use crate::common::lists::{list_pushed, push_to_list};
use crate::community::errors::Error;
use crate::community::state::{counters_with, keeps, stats_of, Community, CommunityStorage, CounterKind};
use crate::community::types::{
    MentorExpertise, MentorProfile, MentorshipRequest, MentorshipSession, MentorshipStatus,
    UserCommunityStats,
};

verus! {

/// The profile that `register_mentor` stores.
pub open spec fn new_profile(
    mentor: Address,
    expertise_areas: Vec<String>,
    expertise_level: MentorExpertise,
    max_mentees: u32,
    bio: String,
    now: u64,
) -> MentorProfile {
    MentorProfile {
        mentor,
        expertise_areas,
        expertise_level,
        max_mentees,
        current_mentees: 0,
        total_sessions: 0,
        rating: 100,
        is_available: true,
        bio,
        joined_at: now,
    }
}

/// What `request_mentorship` answers before it stores anything.
pub open spec fn request_check(profiles: Map<u64, MentorProfile>, mentor: Address) -> Result<(), Error> {
    if !profiles.contains_key(mentor.id) || !profiles[mentor.id].is_available {
        Err(Error::MentorNotAvailable)
    } else if profiles[mentor.id].current_mentees >= profiles[mentor.id].max_mentees {
        Err(Error::MaxMenteesReached)
    } else {
        Ok(())
    }
}

/// What `accept_mentorship` and `complete_session` answer before they store anything.
pub open spec fn mentor_request_check(
    requests: Map<u64, MentorshipRequest>,
    mentor: Address,
    request_id: u64,
    expected: MentorshipStatus,
) -> Result<(), Error> {
    if !requests.contains_key(request_id) {
        Err(Error::MentorshipNotFound)
    } else if requests[request_id].mentor != mentor {
        Err(Error::Unauthorized)
    } else if requests[request_id].status != expected {
        Err(Error::InvalidMentorshipStatus)
    } else {
        Ok(())
    }
}

/// What `rate_session` answers before it stores anything.
pub open spec fn rate_check(sessions: Map<u64, MentorshipSession>, mentee: Address, session_id: u64, rating: u32) -> Result<(), Error> {
    if !sessions.contains_key(session_id) {
        Err(Error::NotFound)
    } else if sessions[session_id].mentee != mentee {
        Err(Error::Unauthorized)
    } else if rating > 100 {
        Err(Error::InvalidInput)
    } else {
        Ok(())
    }
}

/// Mentor profiles, mentorship requests and sessions.
pub struct MentorshipManager;

impl MentorshipManager {
    /// Registers a member as an available mentor with a perfect starting rating.
    pub fn register_mentor(
        c: &mut Community,
        mentor: &Address,
        expertise_areas: Vec<String>,
        expertise_level: MentorExpertise,
        max_mentees: u32,
        bio: String,
        now: u64,
    ) -> (r: Result<(), Error>)
        requires
            old(c).wf(),
        ensures
            final(c).wf(),
            keeps(old(c), final(c), false, true, false, false, false, false, false, false),
            old(c).mentorship.profiles@.contains_key(mentor.id) ==> r == Err::<(), Error>(Error::AlreadyMentor)
                && final(c).mentorship == old(c).mentorship,
            !old(c).mentorship.profiles@.contains_key(mentor.id) ==> r == Ok::<(), Error>(())
                && final(c).mentorship.profiles@ == old(c).mentorship.profiles@.insert(
                    mentor.id,
                    new_profile(*mentor, expertise_areas, expertise_level, max_mentees, bio, now),
                )
                && final(c).mentorship.requests == old(c).mentorship.requests
                && final(c).mentorship.user_mentorships == old(c).mentorship.user_mentorships
                && final(c).mentorship.sessions == old(c).mentorship.sessions,
    {
        if c.mentorship.profiles.contains_key(mentor) {
            return Err(Error::AlreadyMentor);
        }
        let profile = MentorProfile {
            mentor: *mentor,
            expertise_areas,
            expertise_level,
            max_mentees,
            current_mentees: 0,
            total_sessions: 0,
            rating: 100,
            is_available: true,
            bio,
            joined_at: now,
        };
        c.mentorship.profiles.set(*mentor, profile);
        Ok(())
    }

    /// Asks an available mentor with room for another mentee; the request starts pending.
    pub fn request_mentorship(
        c: &mut Community,
        mentee: &Address,
        mentor: &Address,
        topic: String,
        message: String,
        now: u64,
    ) -> (r: Result<u64, Error>)
        requires
            old(c).wf(),
            old(c).counters.mentorship < u64::MAX,
        ensures
            final(c).wf(),
            keeps(old(c), final(c), false, true, false, false, false, false, false, true),
            request_check(old(c).mentorship.profiles@, *mentor) is Err ==> {
                &&& r == Err::<u64, Error>(request_check(old(c).mentorship.profiles@, *mentor)->Err_0)
                &&& final(c).mentorship == old(c).mentorship
                &&& final(c).counters == old(c).counters
            },
            request_check(old(c).mentorship.profiles@, *mentor) is Ok ==> {
                let id = (old(c).counters.mentorship + 1) as u64;
                &&& r == Ok::<u64, Error>(id)
                &&& !old(c).mentorship.requests@.contains_key(id)
                &&& final(c).counters == counters_with(old(c).counters, CounterKind::Mentorship, id)
                &&& final(c).mentorship.requests@ == old(c).mentorship.requests@.insert(
                    id,
                    MentorshipRequest {
                        id,
                        mentee: *mentee,
                        mentor: *mentor,
                        topic,
                        message,
                        status: MentorshipStatus::Pending,
                        created_at: now,
                        started_at: 0,
                        completed_at: 0,
                    },
                )
                &&& list_pushed(old(c).mentorship.user_mentorships@, final(c).mentorship.user_mentorships@, mentee.id, id)
                &&& final(c).mentorship.profiles == old(c).mentorship.profiles
                &&& final(c).mentorship.sessions == old(c).mentorship.sessions
            },
    {
        match c.mentorship.profiles.get(mentor) {
            None => return Err(Error::MentorNotAvailable),
            Some(profile) => {
                if !profile.is_available {
                    return Err(Error::MentorNotAvailable);
                }
                if profile.current_mentees >= profile.max_mentees {
                    return Err(Error::MaxMenteesReached);
                }
            },
        }
        let request_id = CommunityStorage::increment_counter(c, CounterKind::Mentorship);
        let request = MentorshipRequest {
            id: request_id,
            mentee: *mentee,
            mentor: *mentor,
            topic,
            message,
            status: MentorshipStatus::Pending,
            created_at: now,
            started_at: 0,
            completed_at: 0,
        };
        c.mentorship.requests.set(request_id, request);
        push_to_list(&mut c.mentorship.user_mentorships, *mentee, request_id);
        Ok(request_id)
    }

    /// The mentor takes a pending request; it becomes active and the mentor gains a mentee.
    pub fn accept_mentorship(c: &mut Community, mentor: &Address, request_id: u64, now: u64) -> (r: Result<(), Error>)
        requires
            old(c).wf(),
            old(c).mentorship.profiles@.contains_key(mentor.id)
                ==> old(c).mentorship.profiles@[mentor.id].current_mentees < u32::MAX,
        ensures
            final(c).wf(),
            keeps(old(c), final(c), false, true, false, false, false, false, false, false),
            r == mentor_request_check(old(c).mentorship.requests@, *mentor, request_id, MentorshipStatus::Pending),
            r is Err ==> final(c).mentorship == old(c).mentorship,
            r is Ok ==> {
                let q = old(c).mentorship.requests@[request_id];
                let p = old(c).mentorship.profiles@[mentor.id];
                &&& final(c).mentorship.requests@ == old(c).mentorship.requests@.insert(
                    request_id,
                    MentorshipRequest { status: MentorshipStatus::Active, started_at: now, ..q },
                )
                &&& final(c).mentorship.profiles@ == old(c).mentorship.profiles@.insert(
                    mentor.id,
                    MentorProfile { current_mentees: (p.current_mentees + 1) as u32, ..p },
                )
                &&& final(c).mentorship.user_mentorships == old(c).mentorship.user_mentorships
                &&& final(c).mentorship.sessions == old(c).mentorship.sessions
            },
    {
        match c.mentorship.requests.get(&request_id) {
            None => return Err(Error::MentorshipNotFound),
            Some(q) => {
                if q.mentor != *mentor {
                    return Err(Error::Unauthorized);
                }
                if q.status != MentorshipStatus::Pending {
                    return Err(Error::InvalidMentorshipStatus);
                }
            },
        }
        let mut request = c.mentorship.requests.remove(&request_id).unwrap();
        request.status = MentorshipStatus::Active;
        request.started_at = now;
        c.mentorship.requests.set(request_id, request);
        proof {
            let q = old(c).mentorship.requests@[request_id];
            assert(c.mentorship.requests@ =~= old(c).mentorship.requests@.insert(
                request_id,
                MentorshipRequest { status: MentorshipStatus::Active, started_at: now, ..q },
            ));
        }
        let mut profile = c.mentorship.profiles.remove(mentor).unwrap();
        profile.current_mentees = profile.current_mentees + 1;
        c.mentorship.profiles.set(*mentor, profile);
        proof {
            let p = old(c).mentorship.profiles@[mentor.id];
            assert(c.mentorship.profiles@ =~= old(c).mentorship.profiles@.insert(
                mentor.id,
                MentorProfile { current_mentees: (p.current_mentees + 1) as u32, ..p },
            ));
        }
        Ok(())
    }

    /// Records a session of an active mentorship; the mentor's session count and the
    /// mentee's statistics rise by one.
    pub fn complete_session(
        c: &mut Community,
        mentor: &Address,
        request_id: u64,
        duration: u64,
        notes: String,
        now: u64,
    ) -> (r: Result<u64, Error>)
        requires
            old(c).wf(),
            old(c).counters.session < u64::MAX,
            old(c).mentorship.profiles@.contains_key(mentor.id)
                ==> old(c).mentorship.profiles@[mentor.id].total_sessions < u32::MAX,
            old(c).mentorship.requests@.contains_key(request_id) ==> stats_of(
                old(c).user_stats@,
                old(c).mentorship.requests@[request_id].mentee,
                now,
            ).mentorship_sessions < u32::MAX,
        ensures
            final(c).wf(),
            keeps(old(c), final(c), false, true, false, false, false, false, true, true),
            mentor_request_check(old(c).mentorship.requests@, *mentor, request_id, MentorshipStatus::Active) is Err ==> {
                &&& r == Err::<u64, Error>(
                    mentor_request_check(old(c).mentorship.requests@, *mentor, request_id, MentorshipStatus::Active)->Err_0,
                )
                &&& final(c).mentorship == old(c).mentorship
                &&& final(c).counters == old(c).counters
                &&& final(c).user_stats == old(c).user_stats
            },
            mentor_request_check(old(c).mentorship.requests@, *mentor, request_id, MentorshipStatus::Active) is Ok ==> {
                let q = old(c).mentorship.requests@[request_id];
                let p = old(c).mentorship.profiles@[mentor.id];
                let id = (old(c).counters.session + 1) as u64;
                let s = stats_of(old(c).user_stats@, q.mentee, now);
                &&& r == Ok::<u64, Error>(id)
                &&& !old(c).mentorship.sessions@.contains_key(id)
                &&& final(c).counters == counters_with(old(c).counters, CounterKind::Session, id)
                &&& final(c).mentorship.sessions@ == old(c).mentorship.sessions@.insert(
                    id,
                    MentorshipSession {
                        id,
                        request_id,
                        mentor: *mentor,
                        mentee: q.mentee,
                        topic: q.topic,
                        duration,
                        notes,
                        rating: 0,
                        completed_at: now,
                    },
                )
                &&& final(c).mentorship.profiles@ == old(c).mentorship.profiles@.insert(
                    mentor.id,
                    MentorProfile { total_sessions: (p.total_sessions + 1) as u32, ..p },
                )
                &&& final(c).user_stats@ == old(c).user_stats@.insert(
                    q.mentee.id,
                    UserCommunityStats { mentorship_sessions: (s.mentorship_sessions + 1) as u32, ..s },
                )
                &&& final(c).mentorship.requests == old(c).mentorship.requests
                &&& final(c).mentorship.user_mentorships == old(c).mentorship.user_mentorships
            },
    {
        let (mentee, topic) = match c.mentorship.requests.get(&request_id) {
            None => return Err(Error::MentorshipNotFound),
            Some(q) => {
                if q.mentor != *mentor {
                    return Err(Error::Unauthorized);
                }
                if q.status != MentorshipStatus::Active {
                    return Err(Error::InvalidMentorshipStatus);
                }
                (q.mentee, q.topic.clone())
            },
        };
        let session_id = CommunityStorage::increment_counter(c, CounterKind::Session);
        let session = MentorshipSession {
            id: session_id,
            request_id,
            mentor: *mentor,
            mentee,
            topic,
            duration,
            notes,
            rating: 0,
            completed_at: now,
        };
        c.mentorship.sessions.set(session_id, session);
        let mut profile = c.mentorship.profiles.remove(mentor).unwrap();
        profile.total_sessions = profile.total_sessions + 1;
        c.mentorship.profiles.set(*mentor, profile);
        proof {
            let p = old(c).mentorship.profiles@[mentor.id];
            assert(c.mentorship.profiles@ =~= old(c).mentorship.profiles@.insert(
                mentor.id,
                MentorProfile { total_sessions: (p.total_sessions + 1) as u32, ..p },
            ));
        }
        Self::update_mentee_stats(c, &mentee, now);
        Ok(session_id)
    }

    /// The mentee rates a session from 0 to 100.
    pub fn rate_session(c: &mut Community, mentee: &Address, session_id: u64, rating: u32) -> (r: Result<(), Error>)
        requires
            old(c).wf(),
        ensures
            final(c).wf(),
            keeps(old(c), final(c), false, true, false, false, false, false, false, false),
            r == rate_check(old(c).mentorship.sessions@, *mentee, session_id, rating),
            r is Err ==> final(c).mentorship == old(c).mentorship,
            r is Ok ==> {
                &&& final(c).mentorship.sessions@ == old(c).mentorship.sessions@.insert(
                    session_id,
                    MentorshipSession { rating, ..old(c).mentorship.sessions@[session_id] },
                )
                &&& final(c).mentorship.profiles@ == old(c).mentorship.profiles@
                &&& final(c).mentorship.requests == old(c).mentorship.requests
                &&& final(c).mentorship.user_mentorships == old(c).mentorship.user_mentorships
            },
    {
        let mentor = match c.mentorship.sessions.get(&session_id) {
            None => return Err(Error::NotFound),
            Some(s) => {
                if s.mentee != *mentee {
                    return Err(Error::Unauthorized);
                }
                s.mentor
            },
        };
        if rating > 100 {
            return Err(Error::InvalidInput);
        }
        let mut session = c.mentorship.sessions.remove(&session_id).unwrap();
        session.rating = rating;
        c.mentorship.sessions.set(session_id, session);
        proof {
            assert(c.mentorship.sessions@ =~= old(c).mentorship.sessions@.insert(
                session_id,
                MentorshipSession { rating, ..old(c).mentorship.sessions@[session_id] },
            ));
        }
        Self::update_mentor_rating(c, &mentor);
        Ok(())
    }

    /// A mentor's profile.
    pub fn get_mentor_profile<'a>(c: &'a Community, mentor: &Address) -> (r: Option<&'a MentorProfile>)
        ensures
            match r {
                Some(p) => c.mentorship.profiles@.contains_key(mentor.id) && *p == c.mentorship.profiles@[mentor.id],
                None => !c.mentorship.profiles@.contains_key(mentor.id),
            },
    {
        c.mentorship.profiles.get(mentor)
    }

    /// The mentors open to new mentees; no index of them is kept, so the list is empty.
    pub fn get_available_mentors(c: &Community) -> (r: Vec<MentorProfile>)
        ensures
            r@.len() == 0,
    {
        Vec::new()
    }

    /// Recomputes a mentor's rating; the rating is kept as it is.
    fn update_mentor_rating(c: &mut Community, mentor: &Address)
        requires
            old(c).mentorship.profiles@.contains_key(mentor.id),
        ensures
            final(c).mentorship.profiles@ == old(c).mentorship.profiles@,
            final(c).mentorship.sessions == old(c).mentorship.sessions,
            final(c).mentorship.requests == old(c).mentorship.requests,
            final(c).mentorship.user_mentorships == old(c).mentorship.user_mentorships,
            keeps(old(c), final(c), false, true, false, false, false, false, false, false),
    {
        let profile = c.mentorship.profiles.remove(mentor).unwrap();
        c.mentorship.profiles.set(*mentor, profile);
        proof {
            assert(c.mentorship.profiles@ =~= old(c).mentorship.profiles@);
        }
    }

    fn update_mentee_stats(c: &mut Community, mentee: &Address, now: u64)
        requires
            stats_of(old(c).user_stats@, *mentee, now).mentorship_sessions < u32::MAX,
        ensures
            final(c).user_stats@ == old(c).user_stats@.insert(
                mentee.id,
                UserCommunityStats {
                    mentorship_sessions: (stats_of(old(c).user_stats@, *mentee, now).mentorship_sessions + 1) as u32,
                    ..stats_of(old(c).user_stats@, *mentee, now)
                },
            ),
            keeps(old(c), final(c), false, false, false, false, false, false, true, false),
    {
        let mut stats = CommunityStorage::stats_or_new(c, *mentee, now);
        stats.mentorship_sessions = stats.mentorship_sessions + 1;
        c.user_stats.set(*mentee, stats);
    }
}

} // verus!
