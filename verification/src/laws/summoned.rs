//! What a summons comes to: the threat, the records, the steps, and the calls that it is refused.

use crate::actions::EnforcementAction;
use crate::clock::rfc3339_text;
use crate::commands::appeasement::{appease_view, is_walk, Walk};
use crate::commands::summon::summon_view;
use crate::commands::User;
use crate::issue::StampsView;
use crate::laws::memory::issued_can_be_appeased;
use crate::laws::settings::settings;
use crate::laws::warned::falls_due;
use crate::levels::Score;
use crate::messages::{CheckView, Colour, EffectView};
use crate::records::UserWarningState;
use crate::script::{OnFailureView, StepView};
use crate::store::DataView;
use crate::text::decimal_text;
use vstd::prelude::*;

verus! {

/// Whether an enforcement hangs over a user: the one of their standing, or, at their first warning
/// without one, the default of the guild, or a voice mute of three hundred seconds where the guild
/// has none.
pub open spec fn hangs_over(
    action: EnforcementAction,
    state: UserWarningState,
    default: Option<EnforcementAction>,
) -> bool {
    ||| state.pending_enforcement == Some(action)
    ||| {
        &&& state.pending_enforcement is None
        &&& state.warning_timestamps@.len() == 1
        &&& default == Some(action) || default is None && action == (EnforcementAction::VoiceMute {
            duration: Some(300),
        })
    }
}

/// Whether nothing hangs over a user.
pub open spec fn nothing_hangs_over(state: UserWarningState) -> bool {
    state.pending_enforcement is None && state.warning_timestamps@.len() != 1
}

/// At a user's first warning, with nothing chosen before, the standing that is stored for them
/// threatens the guild's default, whatever it is, and a voice mute of three hundred seconds only
/// where the guild has none. The warnings of the standing stay. No other standing changes, and at
/// any other warning none does.
pub proof fn first_summons_stores_the_threat(
    guild_id: u64,
    author_id: u64,
    user: User,
    reason: String,
    state: UserWarningState,
    score: Score,
    before: DataView,
    stamps: StampsView,
    other: Seq<char>,
)
    requires
        summon_view(guild_id, author_id, user, reason, state, score).outcome(
            before,
            stamps,
        ).script is Some,
    ensures
        ({
            let after = summon_view(guild_id, author_id, user, reason, state, score).outcome(
                before,
                stamps,
            ).data;
            let key = decimal_text(user.id as nat) + ":"@ + decimal_text(guild_id as nat);
            let stored = after.user_warning_states[key];
            if state.pending_enforcement is None && state.warning_timestamps@.len() == 1 {
                &&& after.user_warning_states.contains_key(key)
                &&& settings(before, guild_id).default_enforcement matches Some(action)
                    ==> stored.pending_enforcement == Some(action)
                &&& settings(before, guild_id).default_enforcement is None
                    ==> stored.pending_enforcement == Some(
                    EnforcementAction::VoiceMute { duration: Some(300) },
                )
                &&& stored.warning_timestamps.len() == 1
                &&& stored.warning_timestamps[0] == state.warning_timestamps@[0]@
                &&& other != key ==> {
                    &&& after.user_warning_states.contains_key(other)
                        == before.user_warning_states.contains_key(other)
                    &&& after.user_warning_states[other] == before.user_warning_states[other]
                }
            } else {
                after.user_warning_states == before.user_warning_states
            }
        }),
{
}

/// With a score above the threshold, the enforcement that hangs over the user is stored as open,
/// against the user who was named, in the guild, bound to a warning that is stored against the same
/// user in the name of the moderator who called, and due its delay after it was scheduled. No other
/// record changes.
pub proof fn verdict_is_stored(
    guild_id: u64,
    author_id: u64,
    user: User,
    reason: String,
    state: UserWarningState,
    score: Score,
    before: DataView,
    stamps: StampsView,
    action: EnforcementAction,
    other: Seq<char>,
)
    requires
        score.exceeds(),
        hangs_over(action, state, settings(before, guild_id).default_enforcement),
        falls_due(Some(action), stamps),
    ensures
        ({
            let after = summon_view(guild_id, author_id, user, reason, state, score).outcome(
                before,
                stamps,
            ).data;
            let warning = after.warnings[stamps.warning_id];
            let pending = after.pending_enforcements[stamps.enforcement_id];
            &&& after.warnings.contains_key(stamps.warning_id)
            &&& warning.id == stamps.warning_id
            &&& warning.user_id == user.id
            &&& warning.issuer_id == author_id
            &&& warning.guild_id == guild_id
            &&& warning.reason == "Automatic enforcement after multiple voice warnings: "@ + reason@
            &&& warning.timestamp == rfc3339_text(stamps.issued.secs, stamps.issued.nanos)
            &&& warning.notification_method is PublicWithMention
            &&& warning.enforcement == Some(action)
            &&& after.pending_enforcements.contains_key(stamps.enforcement_id)
            &&& pending.id == stamps.enforcement_id
            &&& pending.warning_id == stamps.warning_id
            &&& pending.user_id == user.id
            &&& pending.guild_id == guild_id
            &&& pending.action == action
            &&& pending.execute_at == rfc3339_text(
                (stamps.scheduled.secs + action.delay()) as i64,
                stamps.scheduled.nanos,
            )
            &&& !pending.executed
            &&& other != stamps.warning_id ==> {
                &&& after.warnings.contains_key(other) == before.warnings.contains_key(other)
                &&& after.warnings[other] == before.warnings[other]
            }
            &&& other != stamps.enforcement_id ==> {
                &&& after.pending_enforcements.contains_key(other)
                    == before.pending_enforcements.contains_key(other)
                &&& after.pending_enforcements[other] == before.pending_enforcements[other]
            }
            &&& after.guild_defaults == before.guild_defaults
            &&& after.guild_configs == before.guild_configs
        }),
{
}

/// Without a score above the threshold, or with nothing that hangs over the user, no warning and no
/// enforcement is stored, whatever the moment.
pub proof fn no_verdict_is_stored(
    guild_id: u64,
    author_id: u64,
    user: User,
    reason: String,
    state: UserWarningState,
    score: Score,
    before: DataView,
    stamps: StampsView,
)
    requires
        !score.exceeds() || nothing_hangs_over(state),
    ensures
        ({
            let left = summon_view(guild_id, author_id, user, reason, state, score).outcome(
                before,
                stamps,
            );
            &&& left.script is Some
            &&& left.data.warnings == before.warnings
            &&& left.data.pending_enforcements == before.pending_enforcements
            &&& left.data.guild_defaults == before.guild_defaults
            &&& left.data.guild_configs == before.guild_configs
        }),
{
}

/// A summons is refused where an enforcement is called for that falls due at no second that can be
/// held, and only there: there are no steps and nothing changes.
pub proof fn summons_is_refused_beyond_the_calendar(
    guild_id: u64,
    author_id: u64,
    user: User,
    reason: String,
    state: UserWarningState,
    score: Score,
    before: DataView,
    stamps: StampsView,
    action: EnforcementAction,
)
    requires
        hangs_over(action, state, settings(before, guild_id).default_enforcement),
    ensures
        ({
            let left = summon_view(guild_id, author_id, user, reason, state, score).outcome(
                before,
                stamps,
            );
            &&& left.script is None <==> score.exceeds() && !falls_due(Some(action), stamps)
            &&& left.script is None ==> left.data == before
        }),
{
}

/// Whom a summons punishes can be appeased by their own number in that guild: the call cancels the
/// enforcement.
pub proof fn summoned_users_can_be_appeased(
    guild_id: u64,
    author_id: u64,
    user: User,
    reason: String,
    state: UserWarningState,
    score: Score,
    before: DataView,
    stamps: StampsView,
    action: EnforcementAction,
    named: User,
    walk: Walk,
)
    requires
        score.exceeds(),
        hangs_over(action, state, settings(before, guild_id).default_enforcement),
        falls_due(Some(action), stamps),
        named.id == user.id,
        is_walk(
            walk,
            summon_view(guild_id, author_id, user, reason, state, score).outcome(
                before,
                stamps,
            ).data.pending_enforcements,
        ),
    ensures
        ({
            let summoned = summon_view(guild_id, author_id, user, reason, state, score).outcome(
                before,
                stamps,
            ).data;
            let after = appease_view(guild_id, named, None).data(summoned, walk);
            &&& !summoned.pending_enforcements[stamps.enforcement_id].executed
            &&& after.pending_enforcements[stamps.enforcement_id].executed
        }),
{
    let call = summon_view(guild_id, author_id, user, reason, state, score);
    issued_can_be_appeased(
        call.issue(before, stamps),
        call.chosen(before),
        appease_view(guild_id, named, None),
        walk,
    );
}

/// The last two steps of a summons that is carried out: all is saved, and the moderator is told
/// that an enforcement was applied, that this was the first warning, or how many there are.
pub proof fn summons_is_saved_and_answered(
    guild_id: u64,
    author_id: u64,
    user: User,
    reason: String,
    state: UserWarningState,
    score: Score,
    before: DataView,
    stamps: StampsView,
)
    requires
        summon_view(guild_id, author_id, user, reason, state, score).outcome(
            before,
            stamps,
        ).script is Some,
    ensures
        ({
            let script = summon_view(guild_id, author_id, user, reason, state, score).outcome(
                before,
                stamps,
            ).script.unwrap();
            let count = state.warning_timestamps@.len();
            let whom = user.name@ + " with reason: "@ + reason@;
            let text = script.last().effect->Say_text;
            &&& script.len() >= 2
            &&& script[script.len() - 2] == (StepView {
                effect: EffectView::Save,
                on_failure: OnFailureView::Ignore,
            })
            &&& script.last().effect is Say
            &&& script.last().on_failure is Propagate
            &&& score.exceeds() ==> text == "Thumbs down recorded for "@ + whom
                + ". Enforcement action applied due to multiple warnings."@
            &&& !score.exceeds() && count == 1 ==> text == "First thumbs down recorded for "@
                + whom + ". Further warnings may trigger enforcement."@
            &&& !score.exceeds() && count != 1 ==> text == "Thumbs down recorded for "@ + whom
                + ". Current warning count: "@ + decimal_text(count)
        }),
{
    let call = summon_view(guild_id, author_id, user, reason, state, score);
    let count = state.warning_timestamps@.len();
    let whom = user.name@ + " with reason: "@ + reason@;
    assert(call.count() == count);
    if score.exceeds() {
        assert(call.response() =~= "Thumbs down recorded for "@ + whom
            + ". Enforcement action applied due to multiple warnings."@);
    } else if count == 1 {
        assert(call.response() =~= "First thumbs down recorded for "@ + whom
            + ". Further warnings may trigger enforcement."@);
    } else {
        assert(call.response() =~= "Thumbs down recorded for "@ + whom
            + ". Current warning count: "@ + decimal_text(count));
    }
}

/// The steps of a summons before the last two: the log entry, where the guild has a log channel,
/// and a request to the enforcement task to look at the user, where an enforcement is applied. Both
/// may fail.
pub proof fn summons_is_logged_and_started(
    guild_id: u64,
    author_id: u64,
    user: User,
    reason: String,
    state: UserWarningState,
    score: Score,
    before: DataView,
    stamps: StampsView,
)
    requires
        summon_view(guild_id, author_id, user, reason, state, score).outcome(
            before,
            stamps,
        ).script is Some,
    ensures
        ({
            let script = summon_view(guild_id, author_id, user, reason, state, score).outcome(
                before,
                stamps,
            ).script.unwrap();
            let applied = score.exceeds() && !nothing_hangs_over(state);
            let channel = settings(before, guild_id).enforcement_log_channel_id;
            let asked = StepView {
                effect: EffectView::RequestCheck {
                    request: CheckView::CheckUser { user_id: user.id, guild_id },
                },
                on_failure: OnFailureView::Ignore,
            };
            let logged: int = if channel is Some {
                1
            } else {
                0
            };
            let started: int = if applied {
                1
            } else {
                0
            };
            &&& script.len() == logged + started + 2
            &&& channel is Some ==> {
                &&& script[0].effect is SendToChannel
                &&& script[0].effect->SendToChannel_channel_id == channel.unwrap()
                &&& script[0].on_failure is Ignore
            }
            &&& applied ==> script[logged] == asked
        }),
{
    let call = summon_view(guild_id, author_id, user, reason, state, score);
    assert(call.count() == state.warning_timestamps@.len());
}

/// The log entry of a summons. It mentions the user, gives the reason, mentions the moderator and
/// counts the warnings. At the first warning it announces the enforcement that hangs over the user;
/// later it turns red where that enforcement is applied; else it says no more.
pub proof fn log_entry_says_what_happens(
    guild_id: u64,
    author_id: u64,
    user: User,
    reason: String,
    state: UserWarningState,
    score: Score,
    before: DataView,
    stamps: StampsView,
    action: EnforcementAction,
)
    requires
        summon_view(guild_id, author_id, user, reason, state, score).outcome(
            before,
            stamps,
        ).script is Some,
        settings(before, guild_id).enforcement_log_channel_id is Some,
        nothing_hangs_over(state) || hangs_over(
            action,
            state,
            settings(before, guild_id).default_enforcement,
        ),
    ensures
        ({
            let script = summon_view(guild_id, author_id, user, reason, state, score).outcome(
                before,
                stamps,
            ).script.unwrap();
            let entry = script[0].effect->SendToChannel_embed;
            let count = state.warning_timestamps@.len();
            let announced = !nothing_hangs_over(state) && count == 1;
            let applied = !nothing_hangs_over(state) && count != 1 && score.exceeds();
            &&& script[0].effect is SendToChannel
            &&& entry.description == "<@"@ + decimal_text(user.id as nat) + ">"@
                + " has received a voice channel warning"@
            &&& entry.title == (if applied {
                "🚫 Voice Channel Enforcement"@
            } else {
                "⚠️ Voice Channel Warning"@
            })
            &&& entry.colour == (if applied {
                Colour::Red
            } else {
                Colour::Gold
            })
            &&& entry.fields.len() == (if announced || applied {
                4int
            } else {
                3
            })
            &&& entry.fields[0].name == "Reason"@
            &&& entry.fields[0].value == reason@
            &&& !entry.fields[0].inline
            &&& entry.fields[1].name == "Issued By"@
            &&& entry.fields[1].value == "<@"@ + decimal_text(author_id as nat) + ">"@
            &&& entry.fields[1].inline
            &&& entry.fields[2].name == "Total Warnings"@
            &&& entry.fields[2].value == decimal_text(count)
            &&& entry.fields[2].inline
            &&& announced ==> {
                &&& entry.fields[3].name == "🚨 If behavior continues:"@
                &&& entry.fields[3].value == "After ~"@ + decimal_text(2)
                    + " more warnings, the user will receive: **"@ + action.description() + "**"@
                &&& !entry.fields[3].inline
            }
            &&& applied ==> {
                &&& entry.fields[3].name == "⚠️ Threshold Reached"@
                &&& entry.fields[3].value == "Enforcement action is being applied"@
                &&& !entry.fields[3].inline
            }
        }),
{
    let call = summon_view(guild_id, author_id, user, reason, state, score);
    assert(call.count() == state.warning_timestamps@.len());
}

} // verus!
