use vstd::prelude::*;
use crate::common::ids::Address;
use crate::community::errors::Error;
use crate::community::state::{Community, CommunityStorage, Counters};
use crate::community::types::{default_config, default_config_spec, CommunityConfig};

verus! {

/// Every counter at zero.
pub open spec fn zero_counters() -> Counters {
    Counters { post: 0, reply: 0, contribution: 0, event: 0, report: 0, proposal: 0, mentorship: 0, session: 0 }
}

impl Community {
    /// Sets the admin, the default configuration and every counter to zero, once.
    pub fn initialize(&mut self, admin: Address) -> (r: Result<(), Error>)
        ensures
            old(self).admin.is_some() ==> r == Err::<(), Error>(Error::AlreadyInitialized)
                && final(self).admin == old(self).admin
                && final(self).config == old(self).config
                && final(self).counters == old(self).counters,
            old(self).admin.is_none() ==> r == Ok::<(), Error>(())
                && final(self).admin == Some(admin)
                && final(self).config == Some(default_config_spec())
                && final(self).counters == zero_counters(),
            old(self).admin.is_none() && old(self).wf() && old(self).counters == zero_counters()
                ==> final(self).wf(),
            old(self).admin.is_some() && old(self).wf() ==> final(self).wf(),
            final(self).forum == old(self).forum,
            final(self).mentorship == old(self).mentorship,
            final(self).knowledge == old(self).knowledge,
            final(self).events == old(self).events,
            final(self).moderation == old(self).moderation,
            final(self).governance == old(self).governance,
            final(self).user_stats == old(self).user_stats,
            final(self).metrics == old(self).metrics,
    {
        if CommunityStorage::is_initialized(self) {
            return Err(Error::AlreadyInitialized);
        }
        self.admin = Some(admin);
        let config = default_config();
        CommunityStorage::set_config(self, config);
        self.counters = Counters {
            post: 0,
            reply: 0,
            contribution: 0,
            event: 0,
            report: 0,
            proposal: 0,
            mentorship: 0,
            session: 0,
        };
        Ok(())
    }

    /// Replaces the configuration; only the admin may.
    pub fn update_config(&mut self, admin: &Address, config: CommunityConfig) -> (r: Result<(), Error>)
        ensures
            r == old(self).admin_check(*admin),
            r is Ok ==> final(self).config == Some(config),
            r is Err ==> final(self).config == old(self).config,
            final(self).admin == old(self).admin,
            final(self).counters == old(self).counters,
            final(self).forum == old(self).forum,
            final(self).mentorship == old(self).mentorship,
            final(self).knowledge == old(self).knowledge,
            final(self).events == old(self).events,
            final(self).moderation == old(self).moderation,
            final(self).governance == old(self).governance,
            final(self).user_stats == old(self).user_stats,
            final(self).metrics == old(self).metrics,
    {
        match CommunityStorage::require_admin(self, admin) {
            Err(e) => Err(e),
            Ok(()) => {
                CommunityStorage::set_config(self, config);
                Ok(())
            },
        }
    }

    /// The configuration in force, the default one before any is stored.
    pub fn get_config(&self) -> (r: CommunityConfig)
        ensures
            r == self.config_spec(),
    {
        CommunityStorage::get_config(self)
    }
}

} // verus!
