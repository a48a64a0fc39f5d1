//! `chaos_ritual`: an administrator sets how unpredictable enforcement is in a guild.

use crate::commands::altar::{unsaved, unsaved_text};
use crate::commands::{require_guild, CommandError};
use crate::levels::{outlook_text, ChaosFactor};
use crate::messages::{Effect, EffectView};
use crate::records::GuildConfig;
use crate::script::{say, saying_instead, Script, Step, StepView};
use crate::store::{insert_config, Data, DataView};
use vstd::prelude::*;
use vstd::string::*;

verus! {

/// What the daemon remembers once a chaos factor is set; one out of range is not.
pub open spec fn chaos_data(before: DataView, guild_id: u64, factor: ChaosFactor) -> DataView {
    if factor.is_unit() {
        DataView {
            guild_configs: before.guild_configs.insert(
                guild_id,
                GuildConfig { chaos_factor: factor, ..before.config(guild_id) },
            ),
            ..before
        }
    } else {
        before
    }
}

/// The steps of the command. `shown` is the factor as it is shown to the administrator.
pub open spec fn chaos_script(factor: ChaosFactor, shown: Seq<char>) -> Seq<StepView> {
    if factor.is_unit() {
        seq![
            saying_instead(EffectView::Save, unsaved_text()),
            say("Chaos factor set to "@ + shown + ". "@ + outlook_text(factor.value())),
        ]
    } else {
        seq![say("Chaos factor must be between 0.0 and 1.0"@)]
    }
}

/// Sets how unpredictable enforcement is in a guild, from zero to one. `shown` is the factor as it
/// is shown to the administrator.
pub fn chaos_ritual(
    data: &mut Data,
    guild_id: Option<u64>,
    factor: ChaosFactor,
    shown: &str,
) -> (result: Result<Script, CommandError>)
    ensures
        match guild_id {
            None => result == Err::<Script, CommandError>(CommandError::NotInGuild) && final(data)@
                == old(data)@,
            Some(guild_id) => {
                &&& result is Ok
                &&& result->Ok_0@ == chaos_script(factor, shown@)
                &&& final(data)@ == chaos_data(old(data)@, guild_id, factor)
            },
        },
{
    match require_guild(guild_id) {
        Ok(guild_id) => {
            let mut script = Script::new();
            if !factor.unit() {
                script.add(Step::say("Chaos factor must be between 0.0 and 1.0".to_owned()));
                assert(script@ =~= chaos_script(factor, shown@));
                return Ok(script);
            }
            let config = GuildConfig { chaos_factor: factor, ..data.config(guild_id) };
            insert_config(&mut data.guild_configs, guild_id, config);

            script.add(Step::saying_instead(Effect::Save, unsaved()));
            let mut text = "Chaos factor set to ".to_owned();
            text.append(shown);
            text.append(". ");
            text.append(factor.outlook());
            script.add(Step::say(text));
            assert(script@ =~= chaos_script(factor, shown@));
            Ok(script)
        },
        Err(error) => Err(error),
    }
}

} // verus!
