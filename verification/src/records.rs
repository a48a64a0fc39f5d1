//! What the daemon remembers: guild settings, warnings, pending enforcements and the standing of
//! warned users.

use crate::actions::{EnforcementAction, NotificationMethod};
use crate::levels::ChaosFactor;
use vstd::prelude::*;

verus! {

/// The settings of a guild.
#[derive(Clone, Copy, Debug, PartialEq, Eq, Structural)]
pub struct GuildConfig {
    pub guild_id: u64,
    pub default_notification_method: NotificationMethod,
    pub default_enforcement: Option<EnforcementAction>,
    pub chaos_factor: ChaosFactor,
    pub enforcement_log_channel_id: Option<u64>,
}

/// A warning that was issued.
#[derive(Debug)]
pub struct Warning {
    pub id: String,
    pub user_id: u64,
    pub issuer_id: u64,
    pub guild_id: u64,
    pub reason: String,
    pub timestamp: String,
    pub notification_method: NotificationMethod,
    pub enforcement: Option<EnforcementAction>,
}

/// What a warning says.
pub struct WarningView {
    pub id: Seq<char>,
    pub user_id: u64,
    pub issuer_id: u64,
    pub guild_id: u64,
    pub reason: Seq<char>,
    pub timestamp: Seq<char>,
    pub notification_method: NotificationMethod,
    pub enforcement: Option<EnforcementAction>,
}

impl View for Warning {
    type V = WarningView;

    open spec fn view(&self) -> WarningView {
        WarningView {
            id: self.id@,
            user_id: self.user_id,
            issuer_id: self.issuer_id,
            guild_id: self.guild_id,
            reason: self.reason@,
            timestamp: self.timestamp@,
            notification_method: self.notification_method,
            enforcement: self.enforcement,
        }
    }
}

/// An enforcement that waits for its moment, or that is over.
#[derive(Debug)]
pub struct PendingEnforcement {
    pub id: String,
    pub warning_id: String,
    pub user_id: u64,
    pub guild_id: u64,
    pub action: EnforcementAction,
    pub execute_at: String,
    pub executed: bool,
}

/// What a pending enforcement says.
pub struct PendingView {
    pub id: Seq<char>,
    pub warning_id: Seq<char>,
    pub user_id: u64,
    pub guild_id: u64,
    pub action: EnforcementAction,
    pub execute_at: Seq<char>,
    pub executed: bool,
}

impl View for PendingEnforcement {
    type V = PendingView;

    open spec fn view(&self) -> PendingView {
        PendingView {
            id: self.id@,
            warning_id: self.warning_id@,
            user_id: self.user_id,
            guild_id: self.guild_id,
            action: self.action,
            execute_at: self.execute_at@,
            executed: self.executed,
        }
    }
}

impl Clone for PendingEnforcement {
    fn clone(&self) -> (copy: Self)
        ensures
            copy == *self,
    {
        PendingEnforcement {
            id: self.id.clone(),
            warning_id: self.warning_id.clone(),
            user_id: self.user_id,
            guild_id: self.guild_id,
            action: self.action,
            execute_at: self.execute_at.clone(),
            executed: self.executed,
        }
    }
}

/// How a user stands in a guild: the warnings so far, and the enforcement that more of them will
/// bring.
#[derive(Debug)]
pub struct UserWarningState {
    pub warning_timestamps: Vec<String>,
    pub pending_enforcement: Option<EnforcementAction>,
}

/// What a user's standing says.
pub struct UserWarningStateView {
    pub warning_timestamps: Seq<Seq<char>>,
    pub pending_enforcement: Option<EnforcementAction>,
}

impl View for UserWarningState {
    type V = UserWarningStateView;

    open spec fn view(&self) -> UserWarningStateView {
        UserWarningStateView {
            warning_timestamps: self.warning_timestamps@.map_values(|t: String| t@),
            pending_enforcement: self.pending_enforcement,
        }
    }
}

impl Clone for UserWarningState {
    fn clone(&self) -> (copy: Self)
        ensures
            copy@ == self@,
    {
        let copy = UserWarningState {
            warning_timestamps: self.warning_timestamps.clone(),
            pending_enforcement: self.pending_enforcement,
        };
        assert(copy@.warning_timestamps =~= self@.warning_timestamps);
        copy
    }
}

} // verus!
