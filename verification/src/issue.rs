//! Issuing a warning: the record of it, and the record of the enforcement that goes with it.

use crate::actions::{EnforcementAction, NotificationMethod};
use crate::clock::{plus_seconds, representable, rfc3339, rfc3339_text, utc_now, Moment};
use crate::clock::{FIRST_SECOND, LAST_SECOND};
use crate::names::{is_random_uuid, random_uuid};
use crate::records::{PendingEnforcement, PendingView, Warning, WarningView};
use crate::store::{insert_pending, insert_warning, Data, DataView};
use vstd::prelude::*;

verus! {

/// What chance and the clock contribute to a warning.
#[derive(Debug)]
pub struct Stamps {
    /// The identifier of the warning.
    pub warning_id: String,
    /// The identifier of the enforcement.
    pub enforcement_id: String,
    /// The moment at which the warning is recorded.
    pub issued: Moment,
    /// The moment from which the enforcement's delay counts.
    pub scheduled: Moment,
}

/// What chance and the clock contribute to a warning.
pub struct StampsView {
    pub warning_id: Seq<char>,
    pub enforcement_id: Seq<char>,
    pub issued: Moment,
    pub scheduled: Moment,
}

impl View for Stamps {
    type V = StampsView;

    open spec fn view(&self) -> StampsView {
        StampsView {
            warning_id: self.warning_id@,
            enforcement_id: self.enforcement_id@,
            issued: self.issued,
            scheduled: self.scheduled,
        }
    }
}

impl StampsView {
    /// Whether both moments can be written out.
    pub open spec fn valid(self) -> bool {
        &&& self.issued.valid()
        &&& self.scheduled.valid()
    }

    /// Whether the stamps can have come from chance and the clock.
    pub open spec fn drawn(self) -> bool {
        &&& self.valid()
        &&& self.issued.secs >= 0
        &&& self.scheduled.secs >= 0
        &&& is_random_uuid(self.warning_id)
        &&& is_random_uuid(self.enforcement_id)
    }
}

/// Whether an action can fall due: the moment after its delay can be held.
pub open spec fn schedulable(action: EnforcementAction, scheduled: Moment) -> bool {
    representable(scheduled.secs + action.delay())
}

/// The text of the moment at which an action falls due.
pub open spec fn due_text(action: EnforcementAction, scheduled: Moment) -> Seq<char> {
    rfc3339_text((scheduled.secs + action.delay()) as i64, scheduled.nanos)
}

/// A warning about to be issued.
#[derive(Debug)]
pub struct Issue {
    pub guild_id: u64,
    pub user_id: u64,
    pub issuer_id: u64,
    pub reason: String,
    pub notification_method: NotificationMethod,
    pub enforcement: Option<EnforcementAction>,
    pub stamps: Stamps,
}

/// A warning about to be issued.
pub struct IssueView {
    pub guild_id: u64,
    pub user_id: u64,
    pub issuer_id: u64,
    pub reason: Seq<char>,
    pub notification_method: NotificationMethod,
    pub enforcement: Option<EnforcementAction>,
    pub stamps: StampsView,
}

impl View for Issue {
    type V = IssueView;

    open spec fn view(&self) -> IssueView {
        IssueView {
            guild_id: self.guild_id,
            user_id: self.user_id,
            issuer_id: self.issuer_id,
            reason: self.reason@,
            notification_method: self.notification_method,
            enforcement: self.enforcement,
            stamps: self.stamps@,
        }
    }
}

impl IssueView {
    /// Whether the moments of the issue can be held and written out.
    pub open spec fn valid(self) -> bool {
        &&& self.stamps.valid()
        &&& self.enforcement matches Some(action) ==> schedulable(action, self.stamps.scheduled)
    }

    /// The record of the warning.
    pub open spec fn warning(self) -> WarningView {
        WarningView {
            id: self.stamps.warning_id,
            user_id: self.user_id,
            issuer_id: self.issuer_id,
            guild_id: self.guild_id,
            reason: self.reason,
            timestamp: rfc3339_text(self.stamps.issued.secs, self.stamps.issued.nanos),
            notification_method: self.notification_method,
            enforcement: self.enforcement,
        }
    }

    /// The record of an enforcement that goes with the warning.
    pub open spec fn pending(self, action: EnforcementAction) -> PendingView {
        PendingView {
            id: self.stamps.enforcement_id,
            warning_id: self.stamps.warning_id,
            user_id: self.user_id,
            guild_id: self.guild_id,
            action,
            execute_at: due_text(action, self.stamps.scheduled),
            executed: false,
        }
    }

    /// What the daemon remembers once the warning is issued.
    pub open spec fn issued(self, before: DataView) -> DataView {
        DataView {
            warnings: before.warnings.insert(self.stamps.warning_id, self.warning()),
            pending_enforcements: match self.enforcement {
                Some(action) => before.pending_enforcements.insert(
                    self.stamps.enforcement_id,
                    self.pending(action),
                ),
                None => before.pending_enforcements,
            },
            ..before
        }
    }
}

/// Draws the stamps of a warning: two identifiers and two readings of the clock.
pub(crate) fn draw_stamps() -> (stamps: Stamps)
    ensures
        stamps@.drawn(),
{
    Stamps {
        warning_id: random_uuid(),
        enforcement_id: random_uuid(),
        issued: utc_now(),
        scheduled: utc_now(),
    }
}

/// Tells whether an action can fall due.
pub fn can_schedule(action: &EnforcementAction, scheduled: &Moment) -> (yes: bool)
    requires
        scheduled.valid(),
    ensures
        yes == schedulable(*action, *scheduled),
{
    let seconds: i64 = action.delay_seconds();
    if seconds >= 0 {
        seconds <= LAST_SECOND - scheduled.secs
    } else {
        seconds >= FIRST_SECOND - scheduled.secs
    }
}

impl Issue {
    /// Records the warning, and the enforcement that goes with it.
    pub fn record(self, data: &mut Data)
        requires
            self@.valid(),
        ensures
            final(data)@ == self@.issued(old(data)@),
    {
        let warning = Warning {
            id: self.stamps.warning_id.clone(),
            user_id: self.user_id,
            issuer_id: self.issuer_id,
            guild_id: self.guild_id,
            reason: self.reason,
            timestamp: rfc3339(self.stamps.issued),
            notification_method: self.notification_method,
            enforcement: self.enforcement,
        };
        insert_warning(&mut data.warnings, self.stamps.warning_id.clone(), warning);
        if let Some(action) = self.enforcement {
            let due: Moment = plus_seconds(self.stamps.scheduled, action.delay_seconds());
            let pending = PendingEnforcement {
                id: self.stamps.enforcement_id.clone(),
                warning_id: self.stamps.warning_id,
                user_id: self.user_id,
                guild_id: self.guild_id,
                action,
                execute_at: rfc3339(due),
                executed: false,
            };
            insert_pending(&mut data.pending_enforcements, self.stamps.enforcement_id, pending);
        }
    }
}

} // verus!
