//! What records, messages and steps say, field by field.

use crate::commands::appeasement::{ids_view, walk_view};
use crate::commands::script_view;
use crate::issue::{Issue, Stamps};
use crate::messages::{
    CheckView, Effect, EffectView, Embed, EmbedField, EmbedView, EnforcementCheckRequest,
};
use crate::records::{PendingEnforcement, UserWarningState, Warning};
use crate::script::{
    after, course, fails_at, ignoring, propagating, say, saying_instead, OnFailure, OnFailureView,
    Script, Step, StepView,
};
use crate::store::{configs_in, pending_in, states_in, warnings_in, Data};
use vstd::prelude::*;

verus! {

/// A warning says what its fields hold.
pub proof fn warnings_say_what_they_hold(warning: Warning)
    ensures
        warning@.id == warning.id@,
        warning@.user_id == warning.user_id,
        warning@.issuer_id == warning.issuer_id,
        warning@.guild_id == warning.guild_id,
        warning@.reason == warning.reason@,
        warning@.timestamp == warning.timestamp@,
        warning@.notification_method == warning.notification_method,
        warning@.enforcement == warning.enforcement,
{
}

/// A pending enforcement says what its fields hold.
pub proof fn enforcements_say_what_they_hold(pending: PendingEnforcement)
    ensures
        pending@.id == pending.id@,
        pending@.warning_id == pending.warning_id@,
        pending@.user_id == pending.user_id,
        pending@.guild_id == pending.guild_id,
        pending@.action == pending.action,
        pending@.execute_at == pending.execute_at@,
        pending@.executed == pending.executed,
{
}

/// A standing says what its fields hold.
pub proof fn standings_say_what_they_hold(state: UserWarningState)
    ensures
        state@.pending_enforcement == state.pending_enforcement,
        state@.warning_timestamps.len() == state.warning_timestamps@.len(),
        forall|i: int|
            0 <= i < state.warning_timestamps@.len() ==> #[trigger] state@.warning_timestamps[i]
                == state.warning_timestamps@[i]@,
{
}

/// What the daemon remembers is what its maps hold.
pub proof fn memory_is_what_the_maps_hold(data: Data)
    ensures
        data@.guild_defaults == data.guild_defaults,
        data@.guild_configs == configs_in(data.guild_configs),
        data@.user_warning_states == states_in(data.user_warning_states),
        data@.warnings == warnings_in(data.warnings),
        data@.pending_enforcements == pending_in(data.pending_enforcements),
{
}

/// Stamps, and a warning about to be issued, say what their fields hold.
pub proof fn issues_say_what_they_hold(stamps: Stamps, issue: Issue)
    ensures
        stamps@.warning_id == stamps.warning_id@,
        stamps@.enforcement_id == stamps.enforcement_id@,
        stamps@.issued == stamps.issued,
        stamps@.scheduled == stamps.scheduled,
        issue@.guild_id == issue.guild_id,
        issue@.user_id == issue.user_id,
        issue@.issuer_id == issue.issuer_id,
        issue@.reason == issue.reason@,
        issue@.notification_method == issue.notification_method,
        issue@.enforcement == issue.enforcement,
        issue@.stamps == issue.stamps@,
{
}

/// A rich message shows its title, its description, its colour and its fields, in their order.
pub proof fn embeds_show_what_they_hold(
    embed: Embed,
    field: EmbedField,
    shown: EmbedView,
    name: Seq<char>,
    value: Seq<char>,
    inline: bool,
)
    ensures
        embed@.title == embed.title@,
        embed@.description == embed.description@,
        embed@.colour == embed.colour,
        embed@.fields.len() == embed.fields@.len(),
        forall|i: int|
            0 <= i < embed.fields@.len() ==> #[trigger] embed@.fields[i] == embed.fields@[i]@,
        field@.name == field.name@,
        field@.value == field.value@,
        field@.inline == field.inline,
        ({
            let more = shown.with_field(name, value, inline);
            &&& more.title == shown.title
            &&& more.description == shown.description
            &&& more.colour == shown.colour
            &&& more.fields.drop_last() == shown.fields
            &&& more.fields.last().name == name
            &&& more.fields.last().value == value
            &&& more.fields.last().inline == inline
        }),
{
    let more = shown.with_field(name, value, inline);
    assert(more.fields.drop_last() =~= shown.fields);
}

/// An effect amounts to what its fields hold, and so does a request to the enforcement task.
pub proof fn effects_amount_to_what_they_hold(
    effect: Effect,
    channel: u64,
    embed: Embed,
    user: u64,
    guild: u64,
    text: String,
)
    ensures
        (Effect::SendToChannel { channel_id: channel, embed })@ == (EffectView::SendToChannel {
            channel_id: channel,
            embed: embed@,
        }),
        (Effect::DirectMessage { user_id: user, reason: text })@ == (EffectView::DirectMessage {
            user_id: user,
            reason: text@,
        }),
        (Effect::Reply { embed })@ == (EffectView::Reply { embed: embed@ }),
        Effect::Save@ == EffectView::Save,
        (Effect::Say { text })@ == (EffectView::Say { text: text@ }),
        effect matches Effect::RequestCheck { request } ==> effect@ == (EffectView::RequestCheck {
            request: request@,
        }),
        (EnforcementCheckRequest::CheckUser { user_id: user, guild_id: guild })@
            == (CheckView::CheckUser { user_id: user, guild_id: guild }),
        (EnforcementCheckRequest::CheckEnforcement { enforcement_id: text })@
            == (CheckView::CheckEnforcement { enforcement_id: text@ }),
{
}

/// A step, and a script of steps, say what they hold.
pub proof fn steps_say_what_they_hold(step: Step, script: Script, text: String)
    ensures
        step@.effect == step.effect@,
        step@.on_failure == step.on_failure@,
        OnFailure::Ignore@ is Ignore,
        OnFailure::Propagate@ is Propagate,
        (OnFailure::SayInstead { text })@ == (OnFailureView::SayInstead { text: text@ }),
        script@.len() == script.steps@.len(),
        forall|i: int| 0 <= i < script.steps@.len() ==> #[trigger] script@[i] == script.steps@[i]@,
        script_view(Some(script)) == Some(script@),
        script_view(None) is None,
{
}

/// A step bears its effect and says what happens where it fails: nothing, the end of the command,
/// or something to be said instead. Saying something must not fail.
pub proof fn steps_bear_their_effects(effect: EffectView, text: Seq<char>)
    ensures
        ignoring(effect).effect == effect,
        ignoring(effect).on_failure is Ignore,
        propagating(effect).effect == effect,
        propagating(effect).on_failure is Propagate,
        saying_instead(effect, text).effect == effect,
        saying_instead(effect, text).on_failure == (OnFailureView::SayInstead { text }),
        say(text).effect == (EffectView::Say { text }),
        say(text).on_failure is Propagate,
{
}

/// Texts and entries that a vector holds come in its order.
pub proof fn lists_keep_their_order(
    ids: Seq<String>,
    entries: Seq<(String, PendingEnforcement)>,
)
    ensures
        ids_view(ids).len() == ids.len(),
        forall|i: int| 0 <= i < ids.len() ==> #[trigger] ids_view(ids)[i] == ids[i]@,
        walk_view(entries).len() == entries.len(),
        forall|i: int|
            0 <= i < entries.len() ==> (#[trigger] walk_view(entries)[i]).0 == entries[i].0@
                && walk_view(entries)[i].1 == entries[i].1@,
{
}

/// After a step that succeeded, or whose failure is ignored, the other steps are left; after one
/// that must not fail, none is, and the command has failed; and after one that has something said
/// instead, only that is left to be said.
pub proof fn failures_decide_what_is_left(step: StepView, rest: Seq<StepView>)
    ensures
        ({
            let script = seq![step] + rest;
            &&& after(script, true) == rest
            &&& !fails_at(script, true)
            &&& step.on_failure is Ignore ==> after(script, false) == rest
            &&& step.on_failure is Propagate ==> after(script, false).len() == 0
            &&& step.on_failure matches OnFailureView::SayInstead { text } ==> after(script, false)
                == seq![
                StepView {
                    effect: EffectView::Say { text },
                    on_failure: OnFailureView::Propagate,
                },
            ]
            &&& fails_at(script, false) <==> step.on_failure is Propagate
        }),
{
    assert((seq![step] + rest).drop_first() =~= rest);
}

/// A command without steps attempts nothing and does not fail.
pub proof fn nothing_to_do_is_nothing_done(succeeds: spec_fn(EffectView) -> bool)
    ensures
        course(Seq::empty(), succeeds).attempted.len() == 0,
        !course(Seq::empty(), succeeds).failed,
{
}

} // verus!
