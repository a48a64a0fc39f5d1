//! The commands, and what they share: the call, the user it names and the one error of their own.

use crate::script::{Script, StepView};
use crate::store::DataView;
use vstd::prelude::*;
use vstd::string::*;

pub mod altar;
pub mod appeasement;
pub mod chaos;
pub mod definition;
pub mod summon;
pub mod warning;

pub use self::altar::daemon_altar;
pub use self::appeasement::appease;
pub use self::chaos::chaos_ritual;
pub use self::definition::ping;
pub use self::summon::summon_daemon;
pub use self::warning::warn;

verus! {

/// Where a command was called, and by whom.
#[derive(Clone, Copy, Debug, PartialEq, Eq, Structural)]
pub struct Invocation {
    /// The guild of the call, if it came from one.
    pub guild_id: Option<u64>,
    /// The user who called.
    pub author_id: u64,
}

/// A user whom a command names.
#[derive(Debug)]
pub struct User {
    pub id: u64,
    pub name: String,
}

/// Why a command was refused.
#[derive(Clone, Copy, Debug, PartialEq, Eq, Structural)]
pub enum CommandError {
    /// It was not called in a guild.
    NotInGuild,
}

impl CommandError {
    /// The refusal in words.
    pub fn message(&self) -> (text: String)
        ensures
            text@ == "This command must be used in a guild"@,
    {
        "This command must be used in a guild".to_owned()
    }
}

/// Finds the guild of a call.
pub fn require_guild(guild_id: Option<u64>) -> (guild: Result<u64, CommandError>)
    ensures
        guild == (match guild_id {
            Some(id) => Ok::<u64, CommandError>(id),
            None => Err(CommandError::NotInGuild),
        }),
{
    match guild_id {
        Some(id) => Ok(id),
        None => Err(CommandError::NotInGuild),
    }
}

/// What a command leaves behind: what the daemon remembers, and the steps still to take. There
/// are no steps where the command could not be carried out; then nothing has changed.
#[verifier::ext_equal]
pub struct Outcome {
    pub data: DataView,
    pub script: Option<Seq<StepView>>,
}

/// The view of the steps of a command, where there are any.
pub open spec fn script_view(script: Option<Script>) -> Option<Seq<StepView>> {
    match script {
        Some(script) => Some(script@),
        None => None,
    }
}

} // verus!
