//! What the commands read of a guild's settings, and what they make of them.

use crate::commands::altar::{altar_data, altar_script};
use crate::commands::chaos::{chaos_data, chaos_script};
use crate::laws::patterns::factors_are_accepted_by_range;
use crate::levels::{lemma_marks, ChaosFactor};
use crate::messages::{Colour, EffectView};
use crate::records::GuildConfig;
use crate::script::OnFailureView;
use crate::store::DataView;
use crate::text::decimal_text;
use vstd::prelude::*;

verus! {

/// What is stored for a guild, else what holds for guilds that nothing is stored for.
pub open spec fn settings(before: DataView, guild_id: u64) -> GuildConfig {
    if before.guild_configs.contains_key(guild_id) {
        before.guild_configs[guild_id]
    } else {
        before.guild_defaults
    }
}

/// The settings of a guild are those that are stored for it, to the last field. Where none are,
/// they are the defaults under the guild's own number; but the daemon's own decisions go by a chaos
/// factor of 0.3 there.
pub proof fn settings_are_stored_or_default(before: DataView, guild_id: u64)
    ensures
        before.guild_configs.contains_key(guild_id) ==> {
            &&& before.config(guild_id) == before.guild_configs[guild_id]
            &&& before.chaotic_config(guild_id) == before.guild_configs[guild_id]
        },
        !before.guild_configs.contains_key(guild_id) ==> {
            &&& before.config(guild_id).guild_id == guild_id
            &&& before.chaotic_config(guild_id).guild_id == guild_id
            &&& before.config(guild_id).chaos_factor == before.guild_defaults.chaos_factor
            &&& before.chaotic_config(guild_id).chaos_factor.bits == 0x3e99_999a
        },
        before.config(guild_id).default_notification_method == settings(
            before,
            guild_id,
        ).default_notification_method,
        before.config(guild_id).default_enforcement == settings(
            before,
            guild_id,
        ).default_enforcement,
        before.config(guild_id).enforcement_log_channel_id == settings(
            before,
            guild_id,
        ).enforcement_log_channel_id,
        before.chaotic_config(guild_id).default_notification_method == settings(
            before,
            guild_id,
        ).default_notification_method,
        before.chaotic_config(guild_id).default_enforcement == settings(
            before,
            guild_id,
        ).default_enforcement,
        before.chaotic_config(guild_id).enforcement_log_channel_id == settings(
            before,
            guild_id,
        ).enforcement_log_channel_id,
{
}

/// Setting the log channel stores it for the guild, with all else that held there; a guild that
/// nothing was stored for gets a chaos factor of 0.3. Nothing else changes.
pub proof fn altar_stores_the_channel(
    before: DataView,
    guild_id: u64,
    channel_id: u64,
    other: u64,
)
    ensures
        ({
            let after = altar_data(before, guild_id, channel_id);
            let stored = after.guild_configs[guild_id];
            &&& after.guild_configs.contains_key(guild_id)
            &&& stored.enforcement_log_channel_id == Some(channel_id)
            &&& stored.default_enforcement == settings(before, guild_id).default_enforcement
            &&& stored.default_notification_method == settings(
                before,
                guild_id,
            ).default_notification_method
            &&& if before.guild_configs.contains_key(guild_id) {
                stored.guild_id == before.guild_configs[guild_id].guild_id && stored.chaos_factor
                    == before.guild_configs[guild_id].chaos_factor
            } else {
                stored.guild_id == guild_id && stored.chaos_factor.bits == 0x3e99_999a
            }
            &&& other != guild_id ==> {
                &&& after.guild_configs.contains_key(other) == before.guild_configs.contains_key(
                    other,
                )
                &&& after.guild_configs[other] == before.guild_configs[other]
            }
            &&& after.guild_defaults == before.guild_defaults
            &&& after.user_warning_states == before.user_warning_states
            &&& after.warnings == before.warnings
            &&& after.pending_enforcements == before.pending_enforcements
        }),
{
}

/// The steps of setting the log channel: the settings are saved, the channel is written to, and the
/// administrator is told which channel it is, each with what is said where it fails.
pub proof fn altar_tries_the_channel(channel_id: u64)
    ensures
        ({
            let script = altar_script(channel_id);
            let mention = "<#"@ + decimal_text(channel_id as nat) + ">"@;
            &&& script.len() == 3
            &&& script[0].effect is Save
            &&& script[0].on_failure == (OnFailureView::SayInstead {
                text: "Failed to save configuration. Check logs for details."@,
            })
            &&& script[1].effect matches EffectView::SendToChannel { channel_id: to, embed } && {
                &&& to == channel_id
                &&& embed.title == "✅ Enforcement Log Channel Set"@
                &&& embed.description
                    == "This channel will now receive all enforcement notifications."@
                &&& embed.colour == Colour::DarkGreen
                &&& embed.fields.len() == 0
            }
            &&& script[1].on_failure == (OnFailureView::SayInstead {
                text: "⚠️ Set "@ + mention
                    + " as the enforcement log channel, but couldn't send a test message. Please check bot permissions in that channel."@,
            })
            &&& script[2].effect == (EffectView::Say {
                text: "Successfully set "@ + mention + " as the enforcement log channel!"@,
            })
            &&& script[2].on_failure is Propagate
        }),
{
}

/// Setting a chaos factor from zero to one stores it for the guild, with all else that held there.
/// Nothing else changes, and any other factor changes nothing at all.
pub proof fn chaos_stores_the_factor(
    before: DataView,
    guild_id: u64,
    factor: ChaosFactor,
    other: u64,
)
    ensures
        ({
            let accepted = factor.bits <= 0x3f80_0000 || factor.bits == 0x8000_0000;
            let after = chaos_data(before, guild_id, factor);
            let stored = after.guild_configs[guild_id];
            &&& !accepted ==> after == before
            &&& accepted ==> {
                &&& after.guild_configs.contains_key(guild_id)
                &&& stored.chaos_factor == factor
                &&& stored.default_enforcement == settings(before, guild_id).default_enforcement
                &&& stored.default_notification_method == settings(
                    before,
                    guild_id,
                ).default_notification_method
                &&& stored.enforcement_log_channel_id == settings(
                    before,
                    guild_id,
                ).enforcement_log_channel_id
                &&& stored.guild_id == (if before.guild_configs.contains_key(guild_id) {
                    before.guild_configs[guild_id].guild_id
                } else {
                    guild_id
                })
            }
            &&& other != guild_id ==> {
                &&& after.guild_configs.contains_key(other) == before.guild_configs.contains_key(
                    other,
                )
                &&& after.guild_configs[other] == before.guild_configs[other]
            }
            &&& after.guild_defaults == before.guild_defaults
            &&& after.user_warning_states == before.user_warning_states
            &&& after.warnings == before.warnings
            &&& after.pending_enforcements == before.pending_enforcements
        }),
{
    factors_are_accepted_by_range(factor);
}

/// The steps of setting a chaos factor: one out of range is refused, any other is saved and
/// confirmed, with what to expect of it by where it lies between 0.2, 0.5 and 0.8.
pub proof fn chaos_tells_what_to_expect(factor: ChaosFactor, shown: Seq<char>)
    ensures
        ({
            let accepted = factor.bits <= 0x3f80_0000 || factor.bits == 0x8000_0000;
            let script = chaos_script(factor, shown);
            let confirmed = "Chaos factor set to "@ + shown + ". "@;
            &&& script.last().on_failure is Propagate
            &&& !accepted ==> script.len() == 1 && script[0].effect == (EffectView::Say {
                text: "Chaos factor must be between 0.0 and 1.0"@,
            })
            &&& accepted ==> {
                &&& script.len() == 2
                &&& script[0].effect is Save
                &&& script[0].on_failure == (OnFailureView::SayInstead {
                    text: "Failed to save configuration. Check logs for details."@,
                })
                &&& script[1].effect == (EffectView::Say {
                    text: confirmed + (if factor.bits < 0x3e4c_cccd || factor.bits == 0x8000_0000 {
                        "Enforcement will be mostly predictable."@
                    } else if factor.bits < 0x3f00_0000 {
                        "Enforcement will have some randomness."@
                    } else if factor.bits < 0x3f4c_cccd {
                        "Enforcement will be quite unpredictable."@
                    } else {
                        "Enforcement will be highly chaotic!"@
                    }),
                })
            }
        }),
{
    factors_are_accepted_by_range(factor);
    factor.lemma_zeros();
    lemma_marks();
    if !factor.negative() {
        factor.lemma_orders(ChaosFactor { bits: 0x3e4c_cccd });
        factor.lemma_orders(ChaosFactor { bits: 0x3f00_0000 });
        factor.lemma_orders(ChaosFactor { bits: 0x3f4c_cccd });
    }
}

} // verus!
