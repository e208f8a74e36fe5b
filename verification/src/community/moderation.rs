use vstd::prelude::*;
use crate::common::ids::Address;
use crate::common::lists::{collect_existing, existing_records, list_at, list_pushed, push_to_list, without_id};
use crate::community::errors::Error;
use crate::community::state::{counters_with, keeps, Community, CommunityStorage, CounterKind};
use crate::community::types::{ContentReport, ModeratorAction, ModeratorRole, ReportReason, ReportStatus};

verus! {

/// What `resolve_report` answers before it stores anything.
pub open spec fn resolve_check(c: &Community, moderator: Address, report_id: u64) -> Result<(), Error> {
    if c.moderator_check(moderator) is Err {
        c.moderator_check(moderator)
    } else if !c.moderation.reports@.contains_key(report_id) {
        Err(Error::ReportNotFound)
    } else if c.moderation.reports@[report_id].status != ReportStatus::Pending
        && c.moderation.reports@[report_id].status != ReportStatus::UnderReview {
        Err(Error::InvalidInput)
    } else {
        Ok(())
    }
}

/// Moderators, content reports and moderator actions.
pub struct ModerationManager;

impl ModerationManager {
    /// The admin appoints a moderator.
    pub fn add_moderator(c: &mut Community, admin: &Address, moderator: &Address, role: ModeratorRole) -> (r: Result<(), Error>)
        requires
            old(c).wf(),
        ensures
            final(c).wf(),
            keeps(old(c), final(c), false, false, false, false, true, false, false, false),
            r == old(c).admin_check(*admin),
            r is Err ==> final(c).moderation == old(c).moderation,
            r is Ok ==> {
                &&& final(c).moderation.moderators@ == old(c).moderation.moderators@.insert(moderator.id, role)
                &&& final(c).moderation.reports == old(c).moderation.reports
                &&& final(c).moderation.pending_reports == old(c).moderation.pending_reports
                &&& final(c).moderation.actions == old(c).moderation.actions
                &&& final(c).moderation.user_actions == old(c).moderation.user_actions
            },
    {
        let checked = CommunityStorage::require_admin(c, admin);
        if checked.is_err() {
            return checked;
        }
        c.moderation.moderators.set(*moderator, role);
        Ok(())
    }

    /// Files a report against a piece of content; it waits in the pending list.
    pub fn report_content(
        c: &mut Community,
        reporter: &Address,
        content_type: String,
        content_id: u64,
        reason: ReportReason,
        description: String,
        now: u64,
    ) -> (r: Result<u64, Error>)
        requires
            old(c).wf(),
            old(c).counters.report < u64::MAX,
        ensures
            final(c).wf(),
            keeps(old(c), final(c), false, false, false, false, true, false, false, true),
            ({
                let id = (old(c).counters.report + 1) as u64;
                &&& r == Ok::<u64, Error>(id)
                &&& !old(c).moderation.reports@.contains_key(id)
                &&& final(c).counters == counters_with(old(c).counters, CounterKind::Report, id)
                &&& final(c).moderation.reports@ == old(c).moderation.reports@.insert(
                    id,
                    ContentReport {
                        id,
                        reporter: *reporter,
                        content_type,
                        content_id,
                        reason,
                        description,
                        status: ReportStatus::Pending,
                        created_at: now,
                        resolved_at: 0,
                        resolved_by: None,
                    },
                )
                &&& final(c).moderation.pending_reports@ == old(c).moderation.pending_reports@.push(id)
                &&& final(c).moderation.moderators == old(c).moderation.moderators
                &&& final(c).moderation.actions == old(c).moderation.actions
                &&& final(c).moderation.user_actions == old(c).moderation.user_actions
            }),
    {
        let report_id = CommunityStorage::increment_counter(c, CounterKind::Report);
        let report = ContentReport {
            id: report_id,
            reporter: *reporter,
            content_type,
            content_id,
            reason,
            description,
            status: ReportStatus::Pending,
            created_at: now,
            resolved_at: 0,
            resolved_by: None,
        };
        c.moderation.reports.set(report_id, report);
        c.moderation.pending_reports.push(report_id);
        Ok(report_id)
    }

    /// A moderator resolves an open report; it leaves the pending list.
    pub fn resolve_report(c: &mut Community, moderator: &Address, report_id: u64, action: String, now: u64) -> (r: Result<(), Error>)
        requires
            old(c).wf(),
        ensures
            final(c).wf(),
            keeps(old(c), final(c), false, false, false, false, true, false, false, false),
            r == resolve_check(old(c), *moderator, report_id),
            r is Err ==> final(c).moderation == old(c).moderation,
            r is Ok ==> {
                &&& final(c).moderation.reports@ == old(c).moderation.reports@.insert(
                    report_id,
                    ContentReport {
                        status: ReportStatus::Resolved,
                        resolved_at: now,
                        resolved_by: Some(*moderator),
                        ..old(c).moderation.reports@[report_id]
                    },
                )
                &&& final(c).moderation.pending_reports@ == old(c).moderation.pending_reports@.filter(|y: u64| y != report_id)
                &&& final(c).moderation.moderators == old(c).moderation.moderators
                &&& final(c).moderation.actions == old(c).moderation.actions
                &&& final(c).moderation.user_actions == old(c).moderation.user_actions
            },
    {
        let checked = CommunityStorage::require_moderator(c, moderator);
        if checked.is_err() {
            return checked;
        }
        match c.moderation.reports.get(&report_id) {
            None => return Err(Error::ReportNotFound),
            Some(rep) => {
                if rep.status != ReportStatus::Pending && rep.status != ReportStatus::UnderReview {
                    return Err(Error::InvalidInput);
                }
            },
        }
        let mut report = c.moderation.reports.remove(&report_id).unwrap();
        report.status = ReportStatus::Resolved;
        report.resolved_at = now;
        report.resolved_by = Some(*moderator);
        c.moderation.reports.set(report_id, report);
        proof {
            assert(c.moderation.reports@ =~= old(c).moderation.reports@.insert(
                report_id,
                ContentReport {
                    status: ReportStatus::Resolved,
                    resolved_at: now,
                    resolved_by: Some(*moderator),
                    ..old(c).moderation.reports@[report_id]
                },
            ));
        }
        let remaining = without_id(&c.moderation.pending_reports, report_id);
        c.moderation.pending_reports = remaining;
        Ok(())
    }

    /// A moderator records an action against a member. The action's id is drawn from the
    /// report counter, which reports and actions share.
    pub fn take_action(
        c: &mut Community,
        moderator: &Address,
        target_user: &Address,
        action_type: String,
        reason: String,
        duration: u64,
        now: u64,
    ) -> (r: Result<u64, Error>)
        requires
            old(c).wf(),
            old(c).counters.report < u64::MAX,
        ensures
            final(c).wf(),
            keeps(old(c), final(c), false, false, false, false, true, false, false, true),
            old(c).moderator_check(*moderator) is Err ==> {
                &&& r == Err::<u64, Error>(old(c).moderator_check(*moderator)->Err_0)
                &&& final(c).moderation == old(c).moderation
                &&& final(c).counters == old(c).counters
            },
            old(c).moderator_check(*moderator) is Ok ==> {
                let id = (old(c).counters.report + 1) as u64;
                &&& r == Ok::<u64, Error>(id)
                &&& !old(c).moderation.actions@.contains_key(id)
                &&& final(c).counters == counters_with(old(c).counters, CounterKind::Report, id)
                &&& final(c).moderation.actions@ == old(c).moderation.actions@.insert(
                    id,
                    ModeratorAction {
                        id,
                        moderator: *moderator,
                        action_type,
                        target_user: *target_user,
                        reason,
                        duration,
                        created_at: now,
                    },
                )
                &&& list_pushed(old(c).moderation.user_actions@, final(c).moderation.user_actions@, target_user.id, id)
                &&& final(c).moderation.moderators == old(c).moderation.moderators
                &&& final(c).moderation.reports == old(c).moderation.reports
                &&& final(c).moderation.pending_reports == old(c).moderation.pending_reports
            },
    {
        let checked = CommunityStorage::require_moderator(c, moderator);
        if checked.is_err() {
            return match checked {
                Err(e) => Err(e),
                Ok(()) => Ok(0),
            };
        }
        let action_id = CommunityStorage::increment_counter(c, CounterKind::Report);
        let action = ModeratorAction {
            id: action_id,
            moderator: *moderator,
            action_type,
            target_user: *target_user,
            reason,
            duration,
            created_at: now,
        };
        c.moderation.actions.set(action_id, action);
        push_to_list(&mut c.moderation.user_actions, *target_user, action_id);
        Ok(action_id)
    }

    /// The reports still waiting, oldest first.
    pub fn get_pending_reports(c: &Community) -> (r: Vec<&ContentReport>)
        ensures
            r@.map_values(|x: &ContentReport| *x) == existing_records(c.moderation.pending_reports@, c.moderation.reports@),
    {
        let r = collect_existing(&c.moderation.pending_reports, &c.moderation.reports, c.moderation.pending_reports.len());
        proof {
            assert(c.moderation.pending_reports@.take(c.moderation.pending_reports@.len() as int) =~= c.moderation.pending_reports@);
        }
        r
    }

    /// The actions taken against a member, oldest first.
    pub fn get_user_actions<'a>(c: &'a Community, user: &Address) -> (r: Vec<&'a ModeratorAction>)
        ensures
            r@.map_values(|x: &ModeratorAction| *x) == existing_records(list_at(c.moderation.user_actions@, user.id), c.moderation.actions@),
    {
        match c.moderation.user_actions.get(user) {
            Some(ids) => {
                let r = collect_existing(ids, &c.moderation.actions, ids.len());
                proof {
                    assert(ids@.take(ids@.len() as int) =~= ids@);
                }
                r
            },
            None => {
                let r: Vec<&ModeratorAction> = Vec::new();
                proof {
                    assert(r@.map_values(|x: &ModeratorAction| *x) =~= Seq::<ModeratorAction>::empty());
                }
                r
            },
        }
    }
}

} // verus!
