use vstd::prelude::*;
use crate::common::ids::Address;
use crate::common::lists::{list_at, list_pushed, push_to_list};
use crate::community::errors::Error;
use crate::community::state::{counters_with, keeps, stats_of, Community, CommunityStorage, CounterKind};
use crate::community::types::{
    CommunityEvent, EventParticipant, EventStatus, EventType, UserCommunityStats,
};

verus! {

/// What `register_for_event` answers before it stores anything.
pub open spec fn register_check(c: &Community, user: Address, event_id: u64) -> Result<(), Error> {
    if !c.events.events@.contains_key(event_id) {
        Err(Error::EventNotFound)
    } else if c.events.events@[event_id].current_participants >= c.events.events@[event_id].max_participants {
        Err(Error::EventFull)
    } else if c.events.registrations@.contains_key((user.id, event_id)) {
        Err(Error::AlreadyRegistered)
    } else {
        Ok(())
    }
}

/// What `mark_attendance` answers before it stores anything.
pub open spec fn attendance_check(c: &Community, organizer: Address, event_id: u64, user: Address) -> Result<(), Error> {
    if !c.events.events@.contains_key(event_id) {
        Err(Error::EventNotFound)
    } else if c.events.events@[event_id].organizer != organizer && c.moderator_check(organizer) is Err {
        c.moderator_check(organizer)
    } else if !c.events.registrations@.contains_key((user.id, event_id)) {
        Err(Error::NotFound)
    } else {
        Ok(())
    }
}

/// What `submit_feedback` answers before it stores anything.
pub open spec fn feedback_check(c: &Community, user: Address, event_id: u64, rating: u32) -> Result<(), Error> {
    if rating > 100 {
        Err(Error::InvalidInput)
    } else if !c.events.registrations@.contains_key((user.id, event_id)) {
        Err(Error::NotFound)
    } else if !c.events.registrations@[(user.id, event_id)].attended {
        Err(Error::Unauthorized)
    } else {
        Ok(())
    }
}

/// The participation records of the listed members for one event, skipping members with none.
pub open spec fn participant_records(users: Seq<Address>, regs: Map<(u64, u64), EventParticipant>, event_id: u64) -> Seq<EventParticipant>
    decreases users.len(),
{
    if users.len() == 0 {
        Seq::empty()
    } else {
        let rest = participant_records(users.drop_last(), regs, event_id);
        if regs.contains_key((users.last().id, event_id)) {
            rest.push(regs[(users.last().id, event_id)])
        } else {
            rest
        }
    }
}

/// Community events: creation, registration, attendance and feedback.
pub struct EventManager;

impl EventManager {
    /// Schedules an event.
    pub fn create_event(
        c: &mut Community,
        organizer: &Address,
        event_type: EventType,
        title: String,
        description: String,
        start_time: u64,
        end_time: u64,
        max_participants: u32,
        is_public: bool,
        xp_reward: u32,
        now: u64,
    ) -> (r: Result<u64, Error>)
        requires
            old(c).wf(),
            old(c).counters.event < u64::MAX,
        ensures
            final(c).wf(),
            keeps(old(c), final(c), false, false, false, true, false, false, false, true),
            ({
                let id = (old(c).counters.event + 1) as u64;
                &&& r == Ok::<u64, Error>(id)
                &&& !old(c).events.events@.contains_key(id)
                &&& final(c).counters == counters_with(old(c).counters, CounterKind::Event, id)
                &&& final(c).events.events@ == old(c).events.events@.insert(
                    id,
                    CommunityEvent {
                        id,
                        organizer: *organizer,
                        event_type,
                        title,
                        description,
                        start_time,
                        end_time,
                        max_participants,
                        current_participants: 0,
                        status: EventStatus::Scheduled,
                        is_public,
                        xp_reward,
                        created_at: now,
                    },
                )
                &&& final(c).events.participants == old(c).events.participants
                &&& final(c).events.user_events == old(c).events.user_events
                &&& final(c).events.registrations == old(c).events.registrations
            }),
    {
        let event_id = CommunityStorage::increment_counter(c, CounterKind::Event);
        let event = CommunityEvent {
            id: event_id,
            organizer: *organizer,
            event_type,
            title,
            description,
            start_time,
            end_time,
            max_participants,
            current_participants: 0,
            status: EventStatus::Scheduled,
            is_public,
            xp_reward,
            created_at: now,
        };
        c.events.events.set(event_id, event);
        Ok(event_id)
    }

    /// Registers a member for an event that still has room; each member registers once.
    pub fn register_for_event(c: &mut Community, user: &Address, event_id: u64, now: u64) -> (r: Result<(), Error>)
        requires
            old(c).wf(),
        ensures
            final(c).wf(),
            keeps(old(c), final(c), false, false, false, true, false, false, false, false),
            r == register_check(old(c), *user, event_id),
            r is Err ==> final(c).events == old(c).events,
            r is Ok ==> {
                let e = old(c).events.events@[event_id];
                &&& final(c).events.registrations@ == old(c).events.registrations@.insert(
                    (user.id, event_id),
                    EventParticipant { user: *user, event_id, registered_at: now, attended: false, feedback_rating: 0 },
                )
                &&& list_pushed(old(c).events.participants@, final(c).events.participants@, event_id, *user)
                &&& list_pushed(old(c).events.user_events@, final(c).events.user_events@, user.id, event_id)
                &&& final(c).events.events@ == old(c).events.events@.insert(
                    event_id,
                    CommunityEvent { current_participants: (e.current_participants + 1) as u32, ..e },
                )
            },
    {
        match c.events.events.get(&event_id) {
            None => return Err(Error::EventNotFound),
            Some(e) => {
                if e.current_participants >= e.max_participants {
                    return Err(Error::EventFull);
                }
            },
        }
        let key = (*user, event_id);
        if c.events.registrations.contains_key(&key) {
            return Err(Error::AlreadyRegistered);
        }
        let participant = EventParticipant { user: *user, event_id, registered_at: now, attended: false, feedback_rating: 0 };
        c.events.registrations.set(key, participant);
        push_to_list(&mut c.events.participants, event_id, *user);
        push_to_list(&mut c.events.user_events, *user, event_id);
        let mut event = c.events.events.remove(&event_id).unwrap();
        event.current_participants = event.current_participants + 1;
        c.events.events.set(event_id, event);
        proof {
            let e = old(c).events.events@[event_id];
            assert(c.events.events@ =~= old(c).events.events@.insert(
                event_id,
                CommunityEvent { current_participants: (e.current_participants + 1) as u32, ..e },
            ));
        }
        Ok(())
    }

    /// The organizer, or a moderator, marks a registered member as attending.
    pub fn mark_attendance(c: &mut Community, organizer: &Address, event_id: u64, user: &Address, now: u64) -> (r: Result<(), Error>)
        requires
            old(c).wf(),
            stats_of(old(c).user_stats@, *user, now).events_attended < u32::MAX,
        ensures
            final(c).wf(),
            keeps(old(c), final(c), false, false, false, true, false, false, true, false),
            r == attendance_check(old(c), *organizer, event_id, *user),
            r is Err ==> final(c).events == old(c).events && final(c).user_stats == old(c).user_stats,
            r is Ok ==> {
                let s = stats_of(old(c).user_stats@, *user, now);
                &&& final(c).events.registrations@ == old(c).events.registrations@.insert(
                    (user.id, event_id),
                    EventParticipant { attended: true, ..old(c).events.registrations@[(user.id, event_id)] },
                )
                &&& final(c).user_stats@ == old(c).user_stats@.insert(
                    user.id,
                    UserCommunityStats { events_attended: (s.events_attended + 1) as u32, ..s },
                )
                &&& final(c).events.events == old(c).events.events
                &&& final(c).events.participants == old(c).events.participants
                &&& final(c).events.user_events == old(c).events.user_events
            },
    {
        let is_organizer = match c.events.events.get(&event_id) {
            None => return Err(Error::EventNotFound),
            Some(e) => e.organizer == *organizer,
        };
        if !is_organizer {
            let checked = CommunityStorage::require_moderator(c, organizer);
            if checked.is_err() {
                return checked;
            }
        }
        let key = (*user, event_id);
        let mut participant = match c.events.registrations.get(&key) {
            None => return Err(Error::NotFound),
            Some(p) => *p,
        };
        participant.attended = true;
        c.events.registrations.set(key, participant);
        Self::update_user_stats(c, user, now);
        Ok(())
    }

    /// The organizer closes the event.
    pub fn complete_event(c: &mut Community, organizer: &Address, event_id: u64) -> (r: Result<(), Error>)
        requires
            old(c).wf(),
        ensures
            final(c).wf(),
            keeps(old(c), final(c), false, false, false, true, false, false, false, false),
            !old(c).events.events@.contains_key(event_id) ==> r == Err::<(), Error>(Error::EventNotFound),
            old(c).events.events@.contains_key(event_id) && old(c).events.events@[event_id].organizer != *organizer
                ==> r == Err::<(), Error>(Error::Unauthorized),
            r is Err ==> final(c).events == old(c).events,
            r is Ok ==> {
                &&& old(c).events.events@.contains_key(event_id)
                &&& old(c).events.events@[event_id].organizer == *organizer
                &&& final(c).events.events@ == old(c).events.events@.insert(
                    event_id,
                    CommunityEvent { status: EventStatus::Completed, ..old(c).events.events@[event_id] },
                )
                &&& final(c).events.participants == old(c).events.participants
                &&& final(c).events.user_events == old(c).events.user_events
                &&& final(c).events.registrations == old(c).events.registrations
            },
    {
        match c.events.events.get(&event_id) {
            None => return Err(Error::EventNotFound),
            Some(e) => {
                if e.organizer != *organizer {
                    return Err(Error::Unauthorized);
                }
            },
        }
        let mut event = c.events.events.remove(&event_id).unwrap();
        event.status = EventStatus::Completed;
        c.events.events.set(event_id, event);
        proof {
            assert(c.events.events@ =~= old(c).events.events@.insert(
                event_id,
                CommunityEvent { status: EventStatus::Completed, ..old(c).events.events@[event_id] },
            ));
        }
        Ok(())
    }

    /// A member who attended rates the event from 0 to 100.
    pub fn submit_feedback(c: &mut Community, user: &Address, event_id: u64, rating: u32) -> (r: Result<(), Error>)
        requires
            old(c).wf(),
        ensures
            final(c).wf(),
            keeps(old(c), final(c), false, false, false, true, false, false, false, false),
            r == feedback_check(old(c), *user, event_id, rating),
            r is Err ==> final(c).events == old(c).events,
            r is Ok ==> {
                &&& final(c).events.registrations@ == old(c).events.registrations@.insert(
                    (user.id, event_id),
                    EventParticipant { feedback_rating: rating, ..old(c).events.registrations@[(user.id, event_id)] },
                )
                &&& final(c).events.events == old(c).events.events
                &&& final(c).events.participants == old(c).events.participants
                &&& final(c).events.user_events == old(c).events.user_events
            },
    {
        if rating > 100 {
            return Err(Error::InvalidInput);
        }
        let key = (*user, event_id);
        let mut participant = match c.events.registrations.get(&key) {
            None => return Err(Error::NotFound),
            Some(p) => *p,
        };
        if !participant.attended {
            return Err(Error::Unauthorized);
        }
        participant.feedback_rating = rating;
        c.events.registrations.set(key, participant);
        Ok(())
    }

    /// An event.
    pub fn get_event(c: &Community, event_id: u64) -> (r: Option<&CommunityEvent>)
        ensures
            match r {
                Some(e) => c.events.events@.contains_key(event_id) && *e == c.events.events@[event_id],
                None => !c.events.events@.contains_key(event_id),
            },
    {
        c.events.events.get(&event_id)
    }

    /// The participation records of an event, in registration order.
    pub fn get_event_participants(c: &Community, event_id: u64) -> (r: Vec<EventParticipant>)
        ensures
            r@ == participant_records(list_at(c.events.participants@, event_id), c.events.registrations@, event_id),
    {
        let mut out: Vec<EventParticipant> = Vec::new();
        match c.events.participants.get(&event_id) {
            None => {
                proof {
                    assert(out@ =~= Seq::<EventParticipant>::empty());
                }
                out
            },
            Some(users) => {
                let mut i: usize = 0;
                while i < users.len()
                    invariant
                        0 <= i <= users@.len(),
                        out@ == participant_records(users@.take(i as int), c.events.registrations@, event_id),
                    decreases users@.len() - i,
                {
                    proof {
                        assert(users@.take(i + 1).drop_last() =~= users@.take(i as int));
                    }
                    match c.events.registrations.get(&(users[i], event_id)) {
                        Some(p) => out.push(*p),
                        None => {},
                    }
                    i = i + 1;
                }
                proof {
                    assert(users@.take(users@.len() as int) =~= users@);
                }
                out
            },
        }
    }

    fn update_user_stats(c: &mut Community, user: &Address, now: u64)
        requires
            stats_of(old(c).user_stats@, *user, now).events_attended < u32::MAX,
        ensures
            final(c).user_stats@ == old(c).user_stats@.insert(
                user.id,
                UserCommunityStats {
                    events_attended: (stats_of(old(c).user_stats@, *user, now).events_attended + 1) as u32,
                    ..stats_of(old(c).user_stats@, *user, now)
                },
            ),
            keeps(old(c), final(c), false, false, false, false, false, false, true, false),
    {
        let mut stats = CommunityStorage::stats_or_new(c, *user, now);
        stats.events_attended = stats.events_attended + 1;
        c.user_stats.set(*user, stats);
    }
}

} // verus!
