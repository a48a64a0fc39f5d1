//! `daemon_altar`: an administrator sets the channel of a guild's enforcement log.

use crate::commands::{require_guild, CommandError};
use crate::messages::{Colour, Effect, EffectView, Embed, EmbedView};
use crate::names::{channel_mention, channel_mention_text};
use crate::records::GuildConfig;
use crate::script::{say, saying_instead, Script, Step, StepView};
use crate::store::{insert_config, Data, DataView};
use vstd::prelude::*;
use vstd::string::*;

verus! {

/// What an administrator is told when new settings could not be saved.
pub open spec fn unsaved_text() -> Seq<char> {
    "Failed to save configuration. Check logs for details."@
}

/// Composes what an administrator is told when new settings could not be saved.
pub(crate) fn unsaved() -> (text: String)
    ensures
        text@ == unsaved_text(),
{
    "Failed to save configuration. Check logs for details.".to_owned()
}

/// What the daemon remembers once a guild's log goes to a channel.
pub open spec fn altar_data(before: DataView, guild_id: u64, channel_id: u64) -> DataView {
    DataView {
        guild_configs: before.guild_configs.insert(
            guild_id,
            GuildConfig {
                enforcement_log_channel_id: Some(channel_id),
                ..before.chaotic_config(guild_id)
            },
        ),
        ..before
    }
}

/// The message that tries the new log channel.
pub open spec fn trial_view() -> EmbedView {
    EmbedView {
        title: "✅ Enforcement Log Channel Set"@,
        description: "This channel will now receive all enforcement notifications."@,
        colour: Colour::DarkGreen,
        fields: Seq::empty(),
    }
}

/// What an administrator is told when the new log channel could not be written to.
pub open spec fn untried_text(channel_id: u64) -> Seq<char> {
    "⚠️ Set "@ + channel_mention_text(channel_id)
        + " as the enforcement log channel, but couldn't send a test message. Please check bot permissions in that channel."@
}

/// What an administrator is told when the new log channel is set and works.
pub open spec fn set_text(channel_id: u64) -> Seq<char> {
    "Successfully set "@ + channel_mention_text(channel_id) + " as the enforcement log channel!"@
}

/// The steps of the command: save, try the channel, and tell the administrator how that went.
pub open spec fn altar_script(channel_id: u64) -> Seq<StepView> {
    seq![
        saying_instead(EffectView::Save, unsaved_text()),
        saying_instead(
            EffectView::SendToChannel { channel_id, embed: trial_view() },
            untried_text(channel_id),
        ),
        say(set_text(channel_id)),
    ]
}

/// Sets the channel of a guild's enforcement log.
pub fn daemon_altar(data: &mut Data, guild_id: Option<u64>, channel_id: u64) -> (result: Result<
    Script,
    CommandError,
>)
    requires
        channel_id != 0,
    ensures
        match guild_id {
            None => result == Err::<Script, CommandError>(CommandError::NotInGuild) && final(data)@
                == old(data)@,
            Some(guild_id) => {
                &&& result is Ok
                &&& result->Ok_0@ == altar_script(channel_id)
                &&& final(data)@ == altar_data(old(data)@, guild_id, channel_id)
            },
        },
{
    match require_guild(guild_id) {
        Ok(guild_id) => {
            let config = GuildConfig {
                enforcement_log_channel_id: Some(channel_id),
                ..data.chaotic_config(guild_id)
            };
            insert_config(&mut data.guild_configs, guild_id, config);

            let mut script = Script::new();
            script.add(Step::saying_instead(Effect::Save, unsaved()));
            let trial = Embed::new(
                "✅ Enforcement Log Channel Set",
                "This channel will now receive all enforcement notifications.".to_owned(),
                Colour::DarkGreen,
            );
            let mut untried = "⚠️ Set ".to_owned();
            untried.append(channel_mention(channel_id).as_str());
            untried.append(
                " as the enforcement log channel, but couldn't send a test message. Please check bot permissions in that channel.",
            );
            script.add(
                Step::saying_instead(Effect::SendToChannel { channel_id, embed: trial }, untried),
            );
            let mut done = "Successfully set ".to_owned();
            done.append(channel_mention(channel_id).as_str());
            done.append(" as the enforcement log channel!");
            script.add(Step::say(done));
            assert(script@ =~= altar_script(channel_id));
            Ok(script)
        },
        Err(error) => Err(error),
    }
}

} // verus!
