//! What the daemon can do to a user, how a moderator asks for it, and when it falls due.

use crate::text::{decimal, decimal_text, same_text};
use vstd::prelude::*;
use vstd::string::*;

verus! {

/// An enforcement. Its durations, delays and intervals are in seconds.
#[derive(Clone, Copy, Debug, PartialEq, Eq, Structural)]
pub enum EnforcementAction {
    Mute { duration: Option<u64> },
    Ban { duration: Option<u64> },
    Kick { delay: Option<u64> },
    VoiceMute { duration: Option<u64> },
    VoiceDeafen { duration: Option<u64> },
    VoiceDisconnect { delay: Option<u64> },
    VoiceChannelHaunt {
        teleport_count: Option<u64>,
        interval: Option<u64>,
        return_to_origin: Option<bool>,
    },
    NoAction,
}

/// How a warned user hears of the warning.
#[derive(Clone, Copy, Debug, PartialEq, Eq, Structural)]
pub enum NotificationMethod {
    DirectMessage,
    PublicWithMention,
}

/// The action taken on a user's repeated warnings where the guild names none.
pub open spec fn default_action() -> EnforcementAction {
    EnforcementAction::VoiceMute { duration: Some(300) }
}

impl EnforcementAction {
    /// The time given with the action: a duration, a delay or an interval.
    pub open spec fn timing(self) -> Option<u64> {
        match self {
            EnforcementAction::Mute { duration } => duration,
            EnforcementAction::Ban { duration } => duration,
            EnforcementAction::Kick { delay } => delay,
            EnforcementAction::VoiceMute { duration } => duration,
            EnforcementAction::VoiceDeafen { duration } => duration,
            EnforcementAction::VoiceDisconnect { delay } => delay,
            EnforcementAction::VoiceChannelHaunt { interval, .. } => interval,
            EnforcementAction::NoAction => None,
        }
    }

    /// The seconds from the decision to the moment the action falls due: the time given with it,
    /// zero where none is given, taken as a signed 64-bit number.
    pub open spec fn delay(self) -> int {
        match self.timing() {
            Some(seconds) => if seconds <= i64::MAX {
                seconds as int
            } else {
                seconds - 0x1_0000_0000_0000_0000
            },
            None => 0,
        }
    }

    /// Whether the action is to be carried out at once.
    pub open spec fn immediate(self) -> bool {
        &&& self !is NoAction
        &&& self.timing() is None || self.timing() == Some(0u64)
    }

    /// The action in words.
    pub open spec fn description(self) -> Seq<char> {
        match self {
            EnforcementAction::VoiceMute { duration } => {
                "Voice mute for "@ + seconds_text(duration, 300)
            },
            EnforcementAction::VoiceDeafen { duration } => {
                "Voice deafen for "@ + seconds_text(duration, 300)
            },
            EnforcementAction::VoiceDisconnect { .. } => "Voice disconnect"@,
            EnforcementAction::Mute { duration } => {
                "Server mute for "@ + seconds_text(duration, 300)
            },
            EnforcementAction::Ban { duration } => "Ban for "@ + seconds_text(duration, 86400),
            EnforcementAction::Kick { .. } => "Kick"@,
            EnforcementAction::NoAction => "No action"@,
            EnforcementAction::VoiceChannelHaunt { teleport_count, interval, return_to_origin } => {
                "Voice channel haunting: "@ + decimal_text(or_else(teleport_count, 3) as nat)
                    + " teleports over "@ + seconds_text(interval, 10) + (
                if return_to_origin == Some(false) {
                    " (no return)"@
                } else {
                    " (with return)"@
                })
            },
        }
    }

    /// The seconds from the decision to the moment the action falls due.
    pub fn delay_seconds(&self) -> (seconds: i64)
        ensures
            seconds == self.delay(),
    {
        let timing: Option<u64> = match self {
            EnforcementAction::Mute { duration } => *duration,
            EnforcementAction::Ban { duration } => *duration,
            EnforcementAction::Kick { delay } => *delay,
            EnforcementAction::VoiceMute { duration } => *duration,
            EnforcementAction::VoiceDeafen { duration } => *duration,
            EnforcementAction::VoiceDisconnect { delay } => *delay,
            EnforcementAction::VoiceChannelHaunt { interval, .. } => *interval,
            EnforcementAction::NoAction => None,
        };
        let seconds: u64 = timing.unwrap_or(0);
        assert(seconds > 0x7fff_ffff_ffff_ffff ==> (seconds as i64) as int == seconds
            - 0x1_0000_0000_0000_0000) by (bit_vector);
        #[verifier::truncate]
        (seconds as i64)
    }

    /// Tells whether the action is to be carried out at once.
    pub fn is_immediate(&self) -> (yes: bool)
        ensures
            yes == self.immediate(),
    {
        match self {
            EnforcementAction::Kick { delay } => is_zero(delay),
            EnforcementAction::VoiceDisconnect { delay } => is_zero(delay),
            EnforcementAction::Mute { duration } => is_zero(duration),
            EnforcementAction::VoiceMute { duration } => is_zero(duration),
            EnforcementAction::VoiceDeafen { duration } => is_zero(duration),
            EnforcementAction::Ban { duration } => is_zero(duration),
            EnforcementAction::VoiceChannelHaunt { interval, .. } => is_zero(interval),
            EnforcementAction::NoAction => false,
        }
    }

    /// Puts the action in words.
    pub fn describe(&self) -> (text: String)
        ensures
            text@ == self.description(),
    {
        match self {
            EnforcementAction::VoiceMute { duration } => seconds("Voice mute for ", duration, 300),
            EnforcementAction::VoiceDeafen { duration } => seconds(
                "Voice deafen for ",
                duration,
                300,
            ),
            EnforcementAction::VoiceDisconnect { .. } => "Voice disconnect".to_owned(),
            EnforcementAction::Mute { duration } => seconds("Server mute for ", duration, 300),
            EnforcementAction::Ban { duration } => seconds("Ban for ", duration, 86400),
            EnforcementAction::Kick { .. } => "Kick".to_owned(),
            EnforcementAction::NoAction => "No action".to_owned(),
            EnforcementAction::VoiceChannelHaunt { teleport_count, interval, return_to_origin } => {
                let mut text = "Voice channel haunting: ".to_owned();
                text.append(decimal(teleport_count.unwrap_or(3)).as_str());
                text.append(seconds(" teleports over ", interval, 10).as_str());
                text.append(
                    if return_to_origin.unwrap_or(true) {
                        " (with return)"
                    } else {
                        " (no return)"
                    },
                );
                assert(text@ =~= self.description());
                text
            },
        }
    }
}

/// A number, or another one where it is missing.
pub open spec fn or_else(number: Option<u64>, default: u64) -> u64 {
    match number {
        Some(n) => n,
        None => default,
    }
}

/// A number of seconds in words.
pub open spec fn seconds_text(number: Option<u64>, default: u64) -> Seq<char> {
    decimal_text(or_else(number, default) as nat) + " seconds"@
}

/// Tells whether a time is missing or zero.
fn is_zero(timing: &Option<u64>) -> (yes: bool)
    ensures
        yes == (*timing is None || *timing == Some(0u64)),
{
    match timing {
        Some(seconds) => *seconds == 0,
        None => true,
    }
}

/// Appends a number of seconds in words to a text.
fn seconds(text: &str, number: &Option<u64>, default: u64) -> (whole: String)
    ensures
        whole@ == text@ + seconds_text(*number, default),
{
    let mut whole = text.to_owned();
    whole.append(decimal(number.unwrap_or(default)).as_str());
    whole.append(" seconds");
    assert(whole@ =~= text@ + seconds_text(*number, default));
    whole
}

/// The notification method that a moderator's word stands for: the two methods by their names,
/// all else by the guild's default.
pub open spec fn method_named(word: Option<Seq<char>>, default: NotificationMethod)
    -> NotificationMethod {
    if word == Some("public"@) || word == Some("Public"@) {
        NotificationMethod::PublicWithMention
    } else if word == Some("dm"@) || word == Some("DM"@) {
        NotificationMethod::DirectMessage
    } else {
        default
    }
}

/// The action that a moderator's word stands for, with the given time: six actions by their
/// names, all else by the guild's default.
pub open spec fn action_named(
    word: Option<Seq<char>>,
    timing: Option<u64>,
    default: Option<EnforcementAction>,
) -> Option<EnforcementAction> {
    if word == Some("mute"@) || word == Some("Mute"@) {
        Some(EnforcementAction::Mute { duration: timing })
    } else if word == Some("ban"@) || word == Some("Ban"@) {
        Some(EnforcementAction::Ban { duration: timing })
    } else if word == Some("kick"@) || word == Some("Kick"@) {
        Some(EnforcementAction::Kick { delay: timing })
    } else if word == Some("voicemute"@) || word == Some("VoiceMute"@) {
        Some(EnforcementAction::VoiceMute { duration: timing })
    } else if word == Some("voicedeafen"@) || word == Some("VoiceDeafen"@) {
        Some(EnforcementAction::VoiceDeafen { duration: timing })
    } else if word == Some("voicedisconnect"@) || word == Some("VoiceDisconnect"@) {
        Some(EnforcementAction::VoiceDisconnect { delay: timing })
    } else {
        default
    }
}

/// The view of a word that may be missing.
pub open spec fn word_view(word: Option<String>) -> Option<Seq<char>> {
    match word {
        Some(text) => Some(text@),
        None => None,
    }
}

/// Tells whether a word is one of two spellings.
fn spells(word: &String, lower: &str, mixed: &str) -> (yes: bool)
    ensures
        yes == (word@ == lower@ || word@ == mixed@),
{
    same_text(word, lower) || same_text(word, mixed)
}

/// Chooses the notification method for a moderator's word.
pub fn choose_method(word: &Option<String>, default: NotificationMethod) -> (method:
    NotificationMethod)
    ensures
        method == method_named(word_view(*word), default),
{
    match word {
        Some(word) => {
            if spells(word, "public", "Public") {
                NotificationMethod::PublicWithMention
            } else if spells(word, "dm", "DM") {
                NotificationMethod::DirectMessage
            } else {
                default
            }
        },
        None => default,
    }
}

/// Chooses the action for a moderator's word and time.
pub fn choose_action(
    word: &Option<String>,
    timing: Option<u64>,
    default: Option<EnforcementAction>,
) -> (action: Option<EnforcementAction>)
    ensures
        action == action_named(word_view(*word), timing, default),
{
    match word {
        Some(word) => {
            if spells(word, "mute", "Mute") {
                Some(EnforcementAction::Mute { duration: timing })
            } else if spells(word, "ban", "Ban") {
                Some(EnforcementAction::Ban { duration: timing })
            } else if spells(word, "kick", "Kick") {
                Some(EnforcementAction::Kick { delay: timing })
            } else if spells(word, "voicemute", "VoiceMute") {
                Some(EnforcementAction::VoiceMute { duration: timing })
            } else if spells(word, "voicedeafen", "VoiceDeafen") {
                Some(EnforcementAction::VoiceDeafen { duration: timing })
            } else if spells(word, "voicedisconnect", "VoiceDisconnect") {
                Some(EnforcementAction::VoiceDisconnect { delay: timing })
            } else {
                default
            }
        },
        None => default,
    }
}

} // verus!
