//! `warn`: a moderator warns a user.

use crate::actions::{
    action_named, choose_action, choose_method, method_named, word_view, EnforcementAction,
    NotificationMethod,
};
use crate::commands::{require_guild, script_view, CommandError, Invocation, Outcome, User};
use crate::issue::{can_schedule, draw_stamps, schedulable, Issue, IssueView, Stamps, StampsView};
use crate::messages::{
    CheckView, Colour, Effect, EffectView, Embed, EmbedView, EnforcementCheckRequest,
};
use crate::names::{user_mention, user_mention_text};
use crate::script::{ignoring, propagating, say, Script, Step, StepView};
use crate::store::{Data, DataView};
use vstd::prelude::*;
use vstd::string::*;

verus! {

/// A time in minutes, in seconds.
pub open spec fn in_seconds(minutes: Option<u64>) -> Option<u64> {
    match minutes {
        Some(minutes) => Some((minutes * 60) as u64),
        None => None,
    }
}

/// Whether the enforcement that goes with a warning is the one that does nothing: no word asks for
/// it, but a guild can have it as its default.
pub open spec fn idles(before: DataView, guild_id: u64, action: Option<Seq<char>>) -> bool {
    action_named(action, None, before.config(guild_id).default_enforcement) == Some(
        EnforcementAction::NoAction,
    )
}

/// A call of `warn` from a guild.
pub struct WarnView {
    pub guild_id: u64,
    pub author_id: u64,
    pub user_id: u64,
    pub user_name: Seq<char>,
    pub reason: Seq<char>,
    pub notification: Option<Seq<char>>,
    pub action: Option<Seq<char>>,
    pub duration_minutes: Option<u64>,
}

impl WarnView {
    /// The notification method that is used.
    pub open spec fn method(self, before: DataView) -> NotificationMethod {
        method_named(self.notification, before.config(self.guild_id).default_notification_method)
    }

    /// The enforcement that goes with the warning.
    pub open spec fn enforcement(self, before: DataView) -> Option<EnforcementAction> {
        action_named(
            self.action,
            in_seconds(self.duration_minutes),
            before.config(self.guild_id).default_enforcement,
        )
    }

    /// The warning that is issued.
    pub open spec fn issue(self, before: DataView, stamps: StampsView) -> IssueView {
        IssueView {
            guild_id: self.guild_id,
            user_id: self.user_id,
            issuer_id: self.author_id,
            reason: self.reason,
            notification_method: self.method(before),
            enforcement: self.enforcement(before),
            stamps,
        }
    }

    /// Whether the warning can be issued: an enforcement that goes with it can fall due.
    pub open spec fn feasible(self, before: DataView, stamps: StampsView) -> bool {
        self.enforcement(before) matches Some(action) ==> schedulable(action, stamps.scheduled)
    }

    /// The step that tells the user.
    pub open spec fn notice(self, before: DataView) -> StepView {
        match self.method(before) {
            NotificationMethod::DirectMessage => ignoring(
                EffectView::DirectMessage { user_id: self.user_id, reason: self.reason },
            ),
            NotificationMethod::PublicWithMention => propagating(
                EffectView::Reply { embed: public_notice_view(self.user_id, self.reason) },
            ),
        }
    }

    /// The step that wakes the enforcement task, for an enforcement to be carried out at once.
    pub open spec fn wake(self, before: DataView) -> Seq<StepView> {
        match self.enforcement(before) {
            Some(action) => if action.immediate() {
                seq![
                    ignoring(
                        EffectView::RequestCheck {
                            request: CheckView::CheckUser {
                                user_id: self.user_id,
                                guild_id: self.guild_id,
                            },
                        },
                    ),
                ]
            } else {
                Seq::empty()
            },
            None => Seq::empty(),
        }
    }

    /// The steps of the command.
    pub open spec fn script(self, before: DataView) -> Seq<StepView> {
        seq![self.notice(before), ignoring(EffectView::Save)] + self.wake(before) + seq![
            say("Warned "@ + self.user_name + " for: "@ + self.reason),
        ]
    }

    /// What the command leaves behind.
    pub open spec fn outcome(self, before: DataView, stamps: StampsView) -> Outcome {
        if self.feasible(before, stamps) {
            Outcome {
                data: self.issue(before, stamps).issued(before),
                script: Some(self.script(before)),
            }
        } else {
            Outcome { data: before, script: None }
        }
    }
}

/// The call of `warn` with the given arguments from a guild.
pub open spec fn warn_view(
    guild_id: u64,
    author_id: u64,
    user: User,
    reason: String,
    notification: Option<String>,
    action: Option<String>,
    duration_minutes: Option<u64>,
) -> WarnView {
    WarnView {
        guild_id,
        author_id,
        user_id: user.id,
        user_name: user.name@,
        reason: reason@,
        notification: word_view(notification),
        action: word_view(action),
        duration_minutes,
    }
}

/// The public notice of a warning.
pub open spec fn public_notice_view(user_id: u64, reason: Seq<char>) -> EmbedView {
    EmbedView {
        title: "Warning Issued"@,
        description: user_mention_text(user_id) + " You have been warned for: "@ + reason,
        colour: Colour::Red,
        fields: Seq::empty(),
    }
}

/// The private notice of a warning.
pub open spec fn private_notice_view(guild_name: Seq<char>, reason: Seq<char>) -> EmbedView {
    EmbedView {
        title: "Warning Received"@,
        description: "You have been warned in "@ + guild_name + " for: "@ + reason,
        colour: Colour::Red,
        fields: Seq::empty(),
    }
}

/// Composes the public notice of a warning.
pub fn public_notice(user_id: u64, reason: &String) -> (embed: Embed)
    requires
        user_id != 0,
    ensures
        embed@ == public_notice_view(user_id, reason@),
{
    let mut description = user_mention(user_id);
    description.append(" You have been warned for: ");
    description.append(reason.as_str());
    Embed::new("Warning Issued", description, Colour::Red)
}

/// Composes the private notice of a warning, which names the guild.
pub fn private_notice(guild_name: &str, reason: &String) -> (embed: Embed)
    ensures
        embed@ == private_notice_view(guild_name@, reason@),
{
    let mut description = "You have been warned in ".to_owned();
    description.append(guild_name);
    description.append(" for: ");
    description.append(reason.as_str());
    Embed::new("Warning Received", description, Colour::Red)
}

/// Composes the steps of `warn` once the warning is issued.
fn warn_script(
    guild_id: u64,
    user: &User,
    reason: &String,
    method: NotificationMethod,
    enforcement: Option<EnforcementAction>,
    Ghost(call): Ghost<WarnView>,
    Ghost(before): Ghost<DataView>,
) -> (script: Script)
    requires
        user.id != 0,
        call.guild_id == guild_id,
        call.user_id == user.id,
        call.user_name == user.name@,
        call.reason == reason@,
        call.method(before) == method,
        call.enforcement(before) == enforcement,
    ensures
        script@ == call.script(before),
{
    let mut script = Script::new();
    match method {
        NotificationMethod::DirectMessage => {
            script.add(
                Step::ignoring(Effect::DirectMessage { user_id: user.id, reason: reason.clone() }),
            );
        },
        NotificationMethod::PublicWithMention => {
            script.add(
                Step::propagating(Effect::Reply { embed: public_notice(user.id, reason) }),
            );
        },
    }
    script.add(Step::ignoring(Effect::Save));
    if let Some(action) = enforcement {
        if action.is_immediate() {
            let request = EnforcementCheckRequest::CheckUser { user_id: user.id, guild_id };
            script.add(Step::ignoring(Effect::RequestCheck { request }));
        }
    }
    let mut text = "Warned ".to_owned();
    text.append(user.name.as_str());
    text.append(" for: ");
    text.append(reason.as_str());
    script.add(Step::say(text));
    assert(script@ =~= call.script(before));
    script
}

/// Settles how the user hears of a warning and which enforcement goes with it.
pub fn settle(
    data: &mut Data,
    guild_id: u64,
    notification: &Option<String>,
    action: &Option<String>,
    duration_minutes: Option<u64>,
) -> (settled: (NotificationMethod, Option<EnforcementAction>))
    requires
        duration_minutes matches Some(minutes) ==> minutes * 60 <= u64::MAX,
    ensures
        *final(data) == *old(data),
        settled.0 == method_named(
            word_view(*notification),
            old(data)@.config(guild_id).default_notification_method,
        ),
        settled.1 == action_named(
            word_view(*action),
            in_seconds(duration_minutes),
            old(data)@.config(guild_id).default_enforcement,
        ),
{
    let config = data.config(guild_id);
    let method = choose_method(notification, config.default_notification_method);
    let timing: Option<u64> = match duration_minutes {
        Some(minutes) => Some(minutes * 60),
        None => None,
    };
    (method, choose_action(action, timing, config.default_enforcement))
}

/// Warns a user, with given stamps. The enforcement that goes with the warning must not be the one
/// that does nothing. There are no steps, and nothing changes, where it cannot fall due.
pub fn warn_at(
    data: &mut Data,
    guild_id: u64,
    author_id: u64,
    user: &User,
    reason: String,
    notification: Option<String>,
    action: Option<String>,
    duration_minutes: Option<u64>,
    stamps: Stamps,
) -> (script: Option<Script>)
    requires
        user.id != 0,
        duration_minutes matches Some(minutes) ==> minutes * 60 <= u64::MAX,
        !idles(old(data)@, guild_id, word_view(action)),
        stamps@.valid(),
    ensures
        warn_view(
            guild_id,
            author_id,
            *user,
            reason,
            notification,
            action,
            duration_minutes,
        ).outcome(old(data)@, stamps@) == (Outcome {
            data: final(data)@,
            script: script_view(script),
        }),
{
    let ghost call = warn_view(
        guild_id,
        author_id,
        *user,
        reason,
        notification,
        action,
        duration_minutes,
    );
    let ghost before = data@;
    let (method, enforcement) = settle(data, guild_id, &notification, &action, duration_minutes);
    let due = match enforcement {
        Some(action) => can_schedule(&action, &stamps.scheduled),
        None => true,
    };
    if !due {
        return None;
    }
    let script = warn_script(
        guild_id,
        user,
        &reason,
        method,
        enforcement,
        Ghost(call),
        Ghost(before),
    );
    let issue = Issue {
        guild_id,
        user_id: user.id,
        issuer_id: author_id,
        reason,
        notification_method: method,
        enforcement,
        stamps,
    };
    issue.record(data);
    Some(script)
}

/// Warns a user. The identifiers of the records are random, and the moments in them are those of
/// the call. In a guild, the enforcement that goes with the warning must not be the one that does
/// nothing; `settle` tells which it is. There are no steps, and nothing changes, where it cannot
/// fall due.
pub fn warn(
    data: &mut Data,
    call: &Invocation,
    user: &User,
    reason: String,
    notification: Option<String>,
    action: Option<String>,
    duration_minutes: Option<u64>,
) -> (result: Result<Option<Script>, CommandError>)
    requires
        user.id != 0,
        call.guild_id is Some ==> (duration_minutes matches Some(minutes) ==> minutes * 60
            <= u64::MAX),
        call.guild_id matches Some(guild_id) ==> !idles(old(data)@, guild_id, word_view(action)),
    ensures
        match call.guild_id {
            None => result == Err::<Option<Script>, CommandError>(CommandError::NotInGuild)
                && final(data)@ == old(data)@,
            Some(guild_id) => {
                let call = warn_view(
                    guild_id,
                    call.author_id,
                    *user,
                    reason,
                    notification,
                    action,
                    duration_minutes,
                );
                &&& result is Ok
                &&& exists|stamps: StampsView| #[trigger]
                    stamps.drawn() && call.outcome(old(data)@, stamps) == (Outcome {
                        data: final(data)@,
                        script: script_view(result->Ok_0),
                    })
            },
        },
{
    match require_guild(call.guild_id) {
        Ok(guild_id) => {
            let stamps = draw_stamps();
            assert(stamps@.drawn());
            Ok(
                warn_at(
                    data,
                    guild_id,
                    call.author_id,
                    user,
                    reason,
                    notification,
                    action,
                    duration_minutes,
                    stamps,
                ),
            )
        },
        Err(error) => Err(error),
    }
}

} // verus!
