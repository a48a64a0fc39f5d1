//! How the commands present themselves and whom they obey; and `ping`, which does nothing else.

use crate::script::{say, Script, Step};
use vstd::prelude::*;
use vstd::string::*;

verus! {

/// The commands.
#[derive(Clone, Copy, Debug, PartialEq, Eq, Structural)]
pub enum Command {
    Ping,
    SummonDaemon,
    Warn,
    DaemonAltar,
    ChaosRitual,
    Appease,
}

/// A permission in a guild.
#[derive(Clone, Copy, Debug, PartialEq, Eq, Structural)]
pub enum Permission {
    KickMembers,
    BanMembers,
    MuteMembers,
    DeafenMembers,
    ModerateMembers,
    Administrator,
}

/// How a command is registered.
#[derive(Debug)]
pub struct Definition {
    pub name: String,
    pub description: Option<String>,
    /// Whether it is called by a slash.
    pub slash_command: bool,
    /// Whether it can be called in guilds only.
    pub guild_only: bool,
    /// Whether only the caller sees the answers.
    pub ephemeral: bool,
    /// What the caller must be permitted.
    pub required_permissions: Vec<Permission>,
    /// What the daemon itself must be permitted.
    pub required_bot_permissions: Vec<Permission>,
    /// What a member must be permitted to see the command, before a guild decides otherwise.
    pub default_member_permissions: Vec<Permission>,
}

impl Command {
    /// The name by which the command is called.
    pub open spec fn name(self) -> Seq<char> {
        match self {
            Command::Ping => "ping"@,
            Command::SummonDaemon => "summon_daemon"@,
            Command::Warn => "warn"@,
            Command::DaemonAltar => "daemon_altar"@,
            Command::ChaosRitual => "chaos_ritual"@,
            Command::Appease => "appease"@,
        }
    }

    /// What the command does, in words.
    pub open spec fn description(self) -> Seq<char> {
        match self {
            Command::Ping =>
                "Basic ping command This command is used to check if the bot is responsive."@,
            Command::SummonDaemon => "Summon the daemon to judge a user's voice behavior"@,
            Command::Warn => "Warn a user for inappropriate behavior"@,
            Command::DaemonAltar => "Set the altar where the daemon will send its messages"@,
            Command::ChaosRitual => "Perform a ritual to adjust the daemon's chaos level"@,
            Command::Appease => "Appease the daemon to cancel a pending punishment"@,
        }
    }

    /// Whether the command moderates users.
    pub open spec fn moderates(self) -> bool {
        self is SummonDaemon || self is Warn
    }

    /// What the caller must be permitted.
    pub open spec fn permissions(self) -> Seq<Permission> {
        if self.moderates() {
            moderator()
        } else if self is Ping {
            Seq::empty()
        } else {
            seq![Permission::Administrator]
        }
    }

    /// What the daemon must be permitted, and a member to see the command.
    pub open spec fn moderator_permissions(self) -> Seq<Permission> {
        if self.moderates() {
            moderator()
        } else {
            Seq::empty()
        }
    }

    /// Defines the command.
    pub fn definition(&self) -> (definition: Definition)
        ensures
            definition.name@ == self.name(),
            definition.description matches Some(text) && text@ == self.description(),
            definition.slash_command,
            definition.guild_only,
            definition.ephemeral,
            definition.required_permissions@ == self.permissions(),
            definition.required_bot_permissions@ == self.moderator_permissions(),
            definition.default_member_permissions@ == self.moderator_permissions(),
    {
        let (name, description) = match self {
            Command::Ping => (
                "ping",
                "Basic ping command This command is used to check if the bot is responsive.",
            ),
            Command::SummonDaemon => (
                "summon_daemon",
                "Summon the daemon to judge a user's voice behavior",
            ),
            Command::Warn => ("warn", "Warn a user for inappropriate behavior"),
            Command::DaemonAltar => (
                "daemon_altar",
                "Set the altar where the daemon will send its messages",
            ),
            Command::ChaosRitual => (
                "chaos_ritual",
                "Perform a ritual to adjust the daemon's chaos level",
            ),
            Command::Appease => ("appease", "Appease the daemon to cancel a pending punishment"),
        };
        let (required, shared) = match self {
            Command::Ping => (Vec::new(), Vec::new()),
            Command::SummonDaemon => (moderator_list(), moderator_list()),
            Command::Warn => (moderator_list(), moderator_list()),
            _ => (vec![Permission::Administrator], Vec::new()),
        };
        let visible = match self {
            Command::SummonDaemon => moderator_list(),
            Command::Warn => moderator_list(),
            _ => Vec::new(),
        };
        assert(required@ =~= self.permissions());
        assert(shared@ =~= self.moderator_permissions());
        assert(visible@ =~= self.moderator_permissions());
        Definition {
            name: name.to_owned(),
            description: Some(description.to_owned()),
            slash_command: true,
            guild_only: true,
            ephemeral: true,
            required_permissions: required,
            required_bot_permissions: shared,
            default_member_permissions: visible,
        }
    }
}

/// What moderating users takes.
pub open spec fn moderator() -> Seq<Permission> {
    seq![
        Permission::KickMembers,
        Permission::BanMembers,
        Permission::MuteMembers,
        Permission::DeafenMembers,
        Permission::ModerateMembers,
    ]
}

/// Lists what moderating users takes.
fn moderator_list() -> (permissions: Vec<Permission>)
    ensures
        permissions@ == moderator(),
{
    vec![
        Permission::KickMembers,
        Permission::BanMembers,
        Permission::MuteMembers,
        Permission::DeafenMembers,
        Permission::ModerateMembers,
    ]
}

/// Shows that the daemon is responsive.
pub fn ping() -> (script: Script)
    ensures
        script@ == seq![say("Pong!"@)],
{
    let mut script = Script::new();
    script.add(Step::say("Pong!".to_owned()));
    assert(script@ =~= seq![say("Pong!"@)]);
    script
}

} // verus!
