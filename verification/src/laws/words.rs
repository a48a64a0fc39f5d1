//! What the daemon's words and texts are, letter for letter.

use crate::actions::{action_named, method_named, word_view, EnforcementAction, NotificationMethod};
use crate::commands::definition::{Command, Permission};
use crate::commands::warning::{in_seconds, private_notice_view, public_notice_view};
use crate::messages::Colour;
use crate::names::{channel_mention_text, is_random_uuid, user_mention_text};
use crate::store::state_key_text;
use crate::text::decimal_text;
use vstd::prelude::*;

verus! {

/// A number below ten is written by its one digit, and the digits of a larger one are those of its
/// tenth part followed by its last digit.
pub proof fn decimals_are_written_digit_by_digit(n: nat)
    ensures
        n < 10 ==> decimal_text(n).len() == 1 && decimal_text(n)[0] as int == '0' as int + n,
        n >= 10 ==> decimal_text(n) == decimal_text(n / 10) + decimal_text(n % 10),
{
    if n >= 10 {
        assert(decimal_text(n) =~= decimal_text(n / 10) + decimal_text(n % 10));
    }
}

/// Users and channels are mentioned by their numbers in angle brackets, behind an at sign or a
/// number sign; a standing is kept under the user's number and the guild's, with a colon between.
pub proof fn numbers_name_users_channels_and_guilds(id: u64, guild_id: u64)
    ensures
        user_mention_text(id) == "<@"@ + decimal_text(id as nat) + ">"@,
        channel_mention_text(id) == "<#"@ + decimal_text(id as nat) + ">"@,
        state_key_text(id, guild_id) == decimal_text(id as nat) + ":"@ + decimal_text(
            guild_id as nat,
        ),
{
}

/// A random identifier has thirty-six characters in five groups, with the marks of a random one.
pub proof fn random_identifiers_have_their_shape(text: Seq<char>, i: int)
    requires
        is_random_uuid(text),
        0 <= i < 36,
    ensures
        text.len() == 36,
        text[8] == '-' && text[13] == '-' && text[18] == '-' && text[23] == '-',
        text[14] == '4',
        i != 8 && i != 13 && i != 18 && i != 23 ==> '0' <= text[i] <= '9' || 'a' <= text[i]
            <= 'f',
{
    assert(text[8] == '-' && text[13] == '-' && text[18] == '-' && text[23] == '-');
}

/// The two spellings of each notification method stand for it, whatever the guild's default.
pub proof fn each_word_names_its_method(default: NotificationMethod)
    ensures
        method_named(Some("public"@), default) is PublicWithMention,
        method_named(Some("Public"@), default) is PublicWithMention,
        method_named(Some("dm"@), default) is DirectMessage,
        method_named(Some("DM"@), default) is DirectMessage,
{
    reveal_strlit("public");
    reveal_strlit("Public");
    reveal_strlit("dm");
    reveal_strlit("DM");
    assert("dm"@.len() == 2 && "DM"@.len() == 2);
}

/// No other word stands for a notification method: the guild's default is used.
pub proof fn other_words_name_no_method(word: Option<String>, default: NotificationMethod)
    requires
        word matches Some(text) ==> text@ != "public"@ && text@ != "Public"@ && text@ != "dm"@
            && text@ != "DM"@,
    ensures
        method_named(word_view(word), default) == default,
{
}

/// The two spellings of each of six actions stand for it, with the time that was given, whether or
/// not one was given and whatever the guild's default.
pub proof fn each_word_names_its_action(
    timing: Option<u64>,
    default: Option<EnforcementAction>,
)
    ensures
        action_named(Some("mute"@), timing, default) == Some(
            EnforcementAction::Mute { duration: timing },
        ),
        action_named(Some("Mute"@), timing, default) == Some(
            EnforcementAction::Mute { duration: timing },
        ),
        action_named(Some("ban"@), timing, default) == Some(
            EnforcementAction::Ban { duration: timing },
        ),
        action_named(Some("Ban"@), timing, default) == Some(
            EnforcementAction::Ban { duration: timing },
        ),
        action_named(Some("kick"@), timing, default) == Some(
            EnforcementAction::Kick { delay: timing },
        ),
        action_named(Some("Kick"@), timing, default) == Some(
            EnforcementAction::Kick { delay: timing },
        ),
        action_named(Some("voicemute"@), timing, default) == Some(
            EnforcementAction::VoiceMute { duration: timing },
        ),
        action_named(Some("VoiceMute"@), timing, default) == Some(
            EnforcementAction::VoiceMute { duration: timing },
        ),
        action_named(Some("voicedeafen"@), timing, default) == Some(
            EnforcementAction::VoiceDeafen { duration: timing },
        ),
        action_named(Some("VoiceDeafen"@), timing, default) == Some(
            EnforcementAction::VoiceDeafen { duration: timing },
        ),
        action_named(Some("voicedisconnect"@), timing, default) == Some(
            EnforcementAction::VoiceDisconnect { delay: timing },
        ),
        action_named(Some("VoiceDisconnect"@), timing, default) == Some(
            EnforcementAction::VoiceDisconnect { delay: timing },
        ),
{
    reveal_strlit("mute");
    reveal_strlit("Mute");
    reveal_strlit("ban");
    reveal_strlit("Ban");
    reveal_strlit("kick");
    reveal_strlit("Kick");
    reveal_strlit("voicemute");
    reveal_strlit("VoiceMute");
    reveal_strlit("voicedeafen");
    reveal_strlit("VoiceDeafen");
    reveal_strlit("voicedisconnect");
    reveal_strlit("VoiceDisconnect");
    assert("mute"@[0] == 'm' && "Mute"@[0] == 'M');
    assert("ban"@.len() == 3 && "Ban"@.len() == 3);
    assert("kick"@[0] == 'k' && "Kick"@[0] == 'K');
    assert("voicemute"@.len() == 9 && "VoiceMute"@.len() == 9);
    assert("voicedeafen"@.len() == 11 && "VoiceDeafen"@.len() == 11);
    assert("voicedisconnect"@.len() == 15 && "VoiceDisconnect"@.len() == 15);
}

/// No other word stands for an action: the guild's default is used, with its own time.
pub proof fn other_words_name_no_action(
    word: Option<String>,
    timing: Option<u64>,
    default: Option<EnforcementAction>,
)
    requires
        word matches Some(text) ==> {
            &&& text@ != "mute"@ && text@ != "Mute"@
            &&& text@ != "ban"@ && text@ != "Ban"@
            &&& text@ != "kick"@ && text@ != "Kick"@
            &&& text@ != "voicemute"@ && text@ != "VoiceMute"@
            &&& text@ != "voicedeafen"@ && text@ != "VoiceDeafen"@
            &&& text@ != "voicedisconnect"@ && text@ != "VoiceDisconnect"@
        },
    ensures
        action_named(word_view(word), timing, default) == default,
{
}

/// A word that was given is taken as it is spelt.
pub proof fn words_are_taken_as_spelt(text: String)
    ensures
        word_view(Some(text)) == Some(text@),
        word_view(None) is None,
{
}

/// Sixty seconds make a minute.
pub proof fn minutes_have_sixty_seconds(minutes: u64)
    requires
        minutes * 60 <= u64::MAX,
    ensures
        in_seconds(Some(minutes)) matches Some(seconds) && seconds == 60 * minutes,
        in_seconds(None) is None,
{
}

/// What each action is called when it is announced: with its own number of seconds where it has
/// one, else with what stands for it.
pub proof fn actions_are_announced_in_words(
    seconds: u64,
    delay: Option<u64>,
    count: Option<u64>,
    interval: Option<u64>,
    back: Option<bool>,
)
    ensures
        ({
            let number = decimal_text(seconds as nat);
            &&& (EnforcementAction::Mute { duration: Some(seconds) }).description()
                == "Server mute for "@ + (number + " seconds"@)
            &&& (EnforcementAction::VoiceMute { duration: Some(seconds) }).description()
                == "Voice mute for "@ + (number + " seconds"@)
            &&& (EnforcementAction::VoiceDeafen { duration: Some(seconds) }).description()
                == "Voice deafen for "@ + (number + " seconds"@)
            &&& (EnforcementAction::Ban { duration: Some(seconds) }).description() == "Ban for "@
                + (number + " seconds"@)
        }),
        (EnforcementAction::Mute { duration: None }).description() == (EnforcementAction::Mute {
            duration: Some(300),
        }).description(),
        (EnforcementAction::VoiceMute { duration: None }).description() == (
        EnforcementAction::VoiceMute { duration: Some(300) }).description(),
        (EnforcementAction::VoiceDeafen { duration: None }).description() == (
        EnforcementAction::VoiceDeafen { duration: Some(300) }).description(),
        (EnforcementAction::Ban { duration: None }).description() == (EnforcementAction::Ban {
            duration: Some(86400),
        }).description(),
        (EnforcementAction::Kick { delay }).description() == "Kick"@,
        (EnforcementAction::VoiceDisconnect { delay }).description() == "Voice disconnect"@,
        EnforcementAction::NoAction.description() == "No action"@,
        (EnforcementAction::VoiceChannelHaunt {
            teleport_count: count,
            interval,
            return_to_origin: back,
        }).description() == "Voice channel haunting: "@ + decimal_text(
            (if count is Some {
                count.unwrap()
            } else {
                3
            }) as nat,
        ) + " teleports over "@ + (decimal_text(
            (if interval is Some {
                interval.unwrap()
            } else {
                10
            }) as nat,
        ) + " seconds"@) + (if back is Some && !back.unwrap() {
            " (no return)"@
        } else {
            " (with return)"@
        }),
{
}

/// The private notice of a warning names the guild and the reason, and the public one the user and
/// the reason.
pub proof fn notices_say_why(
    guild_name: Seq<char>,
    reason: Seq<char>,
    user_id: u64,
)
    ensures
        private_notice_view(guild_name, reason).title == "Warning Received"@,
        private_notice_view(guild_name, reason).description == "You have been warned in "@
            + guild_name + " for: "@ + reason,
        private_notice_view(guild_name, reason).colour == Colour::Red,
        private_notice_view(guild_name, reason).fields.len() == 0,
        public_notice_view(user_id, reason).title == "Warning Issued"@,
        public_notice_view(user_id, reason).description == "<@"@ + decimal_text(user_id as nat)
            + ">"@ + " You have been warned for: "@ + reason,
        public_notice_view(user_id, reason).colour == Colour::Red,
        public_notice_view(user_id, reason).fields.len() == 0,
{
}

/// How each command is called and what it says of itself.
pub proof fn commands_are_called_by_their_names()
    ensures
        Command::Ping.name() == "ping"@,
        Command::SummonDaemon.name() == "summon_daemon"@,
        Command::Warn.name() == "warn"@,
        Command::DaemonAltar.name() == "daemon_altar"@,
        Command::ChaosRitual.name() == "chaos_ritual"@,
        Command::Appease.name() == "appease"@,
        Command::Ping.description()
            == "Basic ping command This command is used to check if the bot is responsive."@,
        Command::SummonDaemon.description()
            == "Summon the daemon to judge a user's voice behavior"@,
        Command::Warn.description() == "Warn a user for inappropriate behavior"@,
        Command::DaemonAltar.description()
            == "Set the altar where the daemon will send its messages"@,
        Command::ChaosRitual.description()
            == "Perform a ritual to adjust the daemon's chaos level"@,
        Command::Appease.description() == "Appease the daemon to cancel a pending punishment"@,
{
}

/// Only moderators are obeyed by the two commands that punish, of the daemon and of whoever sees
/// them the same is asked, and only administrators are obeyed by the others, `ping` aside.
pub proof fn commands_obey_those_permitted(command: Command, permission: Permission)
    ensures
        command is SummonDaemon || command is Warn ==> {
            &&& command.permissions().contains(permission) <==> permission !is Administrator
            &&& command.moderator_permissions() == command.permissions()
            &&& command.permissions().len() == 5
        },
        command is DaemonAltar || command is ChaosRitual || command is Appease ==> {
            &&& command.permissions().contains(permission) <==> permission is Administrator
            &&& command.permissions().len() == 1
        },
        command is Ping ==> command.permissions().len() == 0,
        !(command is SummonDaemon || command is Warn) ==> command.moderator_permissions().len()
            == 0,
{
    if command is SummonDaemon || command is Warn {
        let all = command.permissions();
        assert(all[0] is KickMembers && all[1] is BanMembers && all[2] is MuteMembers
            && all[3] is DeafenMembers && all[4] is ModerateMembers);
        if all.contains(permission) {
            let i = choose|i: int| 0 <= i < all.len() && all[i] == permission;
            assert(i == 0 || i == 1 || i == 2 || i == 3 || i == 4);
        }
    } else if command !is Ping {
        assert(command.permissions()[0] is Administrator);
    }
}

} // verus!
