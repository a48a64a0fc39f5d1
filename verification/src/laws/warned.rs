//! What a warning comes to: the records, the steps, and the calls that it is refused.

use crate::actions::{action_named, method_named, word_view, EnforcementAction};
use crate::clock::rfc3339_text;
use crate::commands::appeasement::{appease_view, is_walk, Walk};
use crate::commands::warning::{idles, in_seconds, warn_view};
use crate::commands::User;
use crate::issue::StampsView;
use crate::laws::memory::issued_can_be_appeased;
use crate::laws::settings::settings;
use crate::messages::{CheckView, Colour, EffectView};
use crate::script::{OnFailureView, StepView};
use crate::store::DataView;
use crate::text::decimal_text;
use vstd::prelude::*;

verus! {

/// Whether an enforcement that goes with a warning falls due at a second that can be held: from the
/// start of the year -262143 to the end of the year 262142.
pub open spec fn falls_due(enforcement: Option<EnforcementAction>, stamps: StampsView) -> bool {
    enforcement matches Some(action) ==> -8_334_601_228_800 <= stamps.scheduled.secs
        + action.delay() <= 8_210_266_876_799
}

/// The enforcement that goes with a warning does nothing where the guild's default does nothing and
/// no word was given that stands for another one, and only there.
pub proof fn only_an_idle_default_idles(before: DataView, guild_id: u64, action: Option<String>)
    ensures
        idles(before, guild_id, word_view(action)) <==> {
            &&& settings(before, guild_id).default_enforcement == Some(EnforcementAction::NoAction)
            &&& action matches Some(text) ==> {
                &&& text@ != "mute"@ && text@ != "Mute"@
                &&& text@ != "ban"@ && text@ != "Ban"@
                &&& text@ != "kick"@ && text@ != "Kick"@
                &&& text@ != "voicemute"@ && text@ != "VoiceMute"@
                &&& text@ != "voicedeafen"@ && text@ != "VoiceDeafen"@
                &&& text@ != "voicedisconnect"@ && text@ != "VoiceDisconnect"@
            }
        },
{
}

/// A warning is stored under the identifier drawn for it, against the user who was named, in the
/// guild and in the name of the moderator who called, with the reason as given. An enforcement that
/// goes with it is stored as open under its own identifier, against the same user in the same
/// guild, bound to that warning and due its delay after it was scheduled. Without one no
/// enforcement is stored. No other record changes.
pub proof fn warning_is_stored(
    guild_id: u64,
    author_id: u64,
    user: User,
    reason: String,
    notification: Option<String>,
    action: Option<String>,
    minutes: Option<u64>,
    before: DataView,
    stamps: StampsView,
    other: Seq<char>,
)
    requires
        falls_due(
            action_named(
                word_view(action),
                in_seconds(minutes),
                settings(before, guild_id).default_enforcement,
            ),
            stamps,
        ),
    ensures
        ({
            let enforcement = action_named(
                word_view(action),
                in_seconds(minutes),
                settings(before, guild_id).default_enforcement,
            );
            let after = warn_view(
                guild_id,
                author_id,
                user,
                reason,
                notification,
                action,
                minutes,
            ).outcome(before, stamps).data;
            let warning = after.warnings[stamps.warning_id];
            let pending = after.pending_enforcements[stamps.enforcement_id];
            &&& after.warnings.contains_key(stamps.warning_id)
            &&& warning.id == stamps.warning_id
            &&& warning.user_id == user.id
            &&& warning.issuer_id == author_id
            &&& warning.guild_id == guild_id
            &&& warning.reason == reason@
            &&& warning.timestamp == rfc3339_text(stamps.issued.secs, stamps.issued.nanos)
            &&& warning.notification_method == method_named(
                word_view(notification),
                settings(before, guild_id).default_notification_method,
            )
            &&& warning.enforcement == enforcement
            &&& enforcement matches Some(chosen) ==> {
                &&& after.pending_enforcements.contains_key(stamps.enforcement_id)
                &&& pending.id == stamps.enforcement_id
                &&& pending.warning_id == stamps.warning_id
                &&& pending.user_id == user.id
                &&& pending.guild_id == guild_id
                &&& pending.action == chosen
                &&& pending.execute_at == rfc3339_text(
                    (stamps.scheduled.secs + chosen.delay()) as i64,
                    stamps.scheduled.nanos,
                )
                &&& !pending.executed
            }
            &&& enforcement is None ==> after.pending_enforcements == before.pending_enforcements
            &&& other != stamps.warning_id ==> {
                &&& after.warnings.contains_key(other) == before.warnings.contains_key(other)
                &&& after.warnings[other] == before.warnings[other]
            }
            &&& other != stamps.enforcement_id ==> {
                &&& after.pending_enforcements.contains_key(other)
                    == before.pending_enforcements.contains_key(other)
                &&& after.pending_enforcements[other] == before.pending_enforcements[other]
            }
            &&& after.guild_defaults == before.guild_defaults
            &&& after.guild_configs == before.guild_configs
            &&& after.user_warning_states == before.user_warning_states
        }),
{
}

/// A warning whose enforcement falls due at no second that can be held is refused, and only such a
/// one is: there are no steps and nothing changes.
pub proof fn warning_is_refused_beyond_the_calendar(
    guild_id: u64,
    author_id: u64,
    user: User,
    reason: String,
    notification: Option<String>,
    action: Option<String>,
    minutes: Option<u64>,
    before: DataView,
    stamps: StampsView,
)
    ensures
        ({
            let enforcement = action_named(
                word_view(action),
                in_seconds(minutes),
                settings(before, guild_id).default_enforcement,
            );
            let left = warn_view(
                guild_id,
                author_id,
                user,
                reason,
                notification,
                action,
                minutes,
            ).outcome(before, stamps);
            &&& left.script is None <==> !falls_due(enforcement, stamps)
            &&& left.script is None ==> left.data == before
        }),
{
}

/// The steps of a warning. The user is told: in private, where a failure is ignored, or in public
/// with a mention, where a failure ends the command. Then all is saved, the enforcement task is
/// asked to look at the user where an enforcement bears no time or no seconds, and the moderator is
/// told whom they warned and why.
pub proof fn warning_is_told_saved_and_answered(
    guild_id: u64,
    author_id: u64,
    user: User,
    reason: String,
    notification: Option<String>,
    action: Option<String>,
    minutes: Option<u64>,
    before: DataView,
    stamps: StampsView,
)
    requires
        falls_due(
            action_named(
                word_view(action),
                in_seconds(minutes),
                settings(before, guild_id).default_enforcement,
            ),
            stamps,
        ),
    ensures
        ({
            let enforcement = action_named(
                word_view(action),
                in_seconds(minutes),
                settings(before, guild_id).default_enforcement,
            );
            let method = method_named(
                word_view(notification),
                settings(before, guild_id).default_notification_method,
            );
            let script = warn_view(
                guild_id,
                author_id,
                user,
                reason,
                notification,
                action,
                minutes,
            ).outcome(before, stamps).script.unwrap();
            let at_once = enforcement is Some && enforcement.unwrap() !is NoAction
                && enforcement.unwrap().delay() == 0;
            &&& script.len() == (if at_once {
                4int
            } else {
                3
            })
            &&& method is DirectMessage ==> script[0] == (StepView {
                effect: EffectView::DirectMessage { user_id: user.id, reason: reason@ },
                on_failure: OnFailureView::Ignore,
            })
            &&& method is PublicWithMention ==> {
                &&& script[0].on_failure is Propagate
                &&& script[0].effect matches EffectView::Reply { embed } && {
                    &&& embed.title == "Warning Issued"@
                    &&& embed.description == "<@"@ + decimal_text(user.id as nat) + ">"@
                        + " You have been warned for: "@ + reason@
                    &&& embed.colour == Colour::Red
                    &&& embed.fields.len() == 0
                }
            }
            &&& script[1] == (StepView {
                effect: EffectView::Save,
                on_failure: OnFailureView::Ignore,
            })
            &&& at_once ==> script[2] == (StepView {
                effect: EffectView::RequestCheck {
                    request: CheckView::CheckUser { user_id: user.id, guild_id },
                },
                on_failure: OnFailureView::Ignore,
            })
            &&& script.last() == (StepView {
                effect: EffectView::Say { text: "Warned "@ + user.name@ + " for: "@ + reason@ },
                on_failure: OnFailureView::Propagate,
            })
        }),
{
}

/// Whoever was warned with an enforcement can be appeased by their own number in that guild: the
/// call cancels the enforcement.
pub proof fn warned_users_can_be_appeased(
    guild_id: u64,
    author_id: u64,
    user: User,
    reason: String,
    notification: Option<String>,
    action: Option<String>,
    minutes: Option<u64>,
    before: DataView,
    stamps: StampsView,
    named: User,
    walk: Walk,
)
    requires
        ({
            let enforcement = action_named(
                word_view(action),
                in_seconds(minutes),
                settings(before, guild_id).default_enforcement,
            );
            enforcement is Some && falls_due(enforcement, stamps)
        }),
        named.id == user.id,
        is_walk(
            walk,
            warn_view(
                guild_id,
                author_id,
                user,
                reason,
                notification,
                action,
                minutes,
            ).outcome(before, stamps).data.pending_enforcements,
        ),
    ensures
        ({
            let warned = warn_view(
                guild_id,
                author_id,
                user,
                reason,
                notification,
                action,
                minutes,
            ).outcome(before, stamps).data;
            let after = appease_view(guild_id, named, None).data(warned, walk);
            &&& !warned.pending_enforcements[stamps.enforcement_id].executed
            &&& after.pending_enforcements[stamps.enforcement_id].executed
        }),
{
    let call = warn_view(guild_id, author_id, user, reason, notification, action, minutes);
    issued_can_be_appeased(
        call.issue(before, stamps),
        before,
        appease_view(guild_id, named, None),
        walk,
    );
}

} // verus!
