//! `summon_daemon`: a moderator gives a user a thumbs down for their behaviour in voice, and the
//! daemon judges whether that makes enough of them.

use crate::actions::{default_action, EnforcementAction, NotificationMethod};
use crate::commands::{require_guild, script_view, CommandError, Invocation, Outcome, User};
use crate::issue::{can_schedule, draw_stamps, schedulable, Issue, IssueView, Stamps, StampsView};
use crate::levels::{Score, THRESHOLD_WARNINGS};
use crate::messages::{
    CheckView, Colour, Effect, EffectView, Embed, EmbedFieldView, EmbedView,
    EnforcementCheckRequest,
};
use crate::names::{user_mention, user_mention_text};
use crate::records::{UserWarningState, UserWarningStateView};
use crate::script::{ignoring, say, Script, Step, StepView};
use crate::store::{insert_state, state_key, state_key_text, Data, DataView};
use crate::text::{decimal, decimal_text};
use vstd::prelude::*;
use vstd::string::*;

verus! {

/// A call of `summon_daemon` from a guild, with how the user stands once the warning counts and
/// with the daemon's verdict.
pub struct SummonView {
    pub guild_id: u64,
    pub author_id: u64,
    pub user_id: u64,
    pub user_name: Seq<char>,
    pub reason: Seq<char>,
    pub state: UserWarningStateView,
    pub enforce: bool,
}

impl SummonView {
    /// How many warnings the user has.
    pub open spec fn count(self) -> nat {
        self.state.warning_timestamps.len()
    }

    /// Whether this is the user's first warning.
    pub open spec fn first(self) -> bool {
        self.count() == 1
    }

    /// The enforcement that hangs over the user: the one chosen at an earlier warning, else, at
    /// the first warning, the guild's or a voice mute of five minutes.
    pub open spec fn enforcement(self, before: DataView) -> Option<EnforcementAction> {
        match self.state.pending_enforcement {
            Some(action) => Some(action),
            None => if self.first() {
                match before.chaotic_config(self.guild_id).default_enforcement {
                    Some(action) => Some(action),
                    None => Some(default_action()),
                }
            } else {
                None
            },
        }
    }

    /// Whether an enforcement is chosen now.
    pub open spec fn chooses(self) -> bool {
        self.state.pending_enforcement is None && self.first()
    }

    /// Whether an enforcement is applied.
    pub open spec fn applies(self, before: DataView) -> bool {
        self.enforce && self.enforcement(before) is Some
    }

    /// What the daemon remembers once an enforcement is chosen, if one is chosen now.
    pub open spec fn chosen(self, before: DataView) -> DataView {
        if self.chooses() {
            DataView {
                user_warning_states: before.user_warning_states.insert(
                    state_key_text(self.user_id, self.guild_id),
                    UserWarningStateView {
                        pending_enforcement: self.enforcement(before),
                        ..self.state
                    },
                ),
                ..before
            }
        } else {
            before
        }
    }

    /// The warning that is issued for an enforcement that is applied.
    pub open spec fn issue(self, before: DataView, stamps: StampsView) -> IssueView {
        IssueView {
            guild_id: self.guild_id,
            user_id: self.user_id,
            issuer_id: self.author_id,
            reason: "Automatic enforcement after multiple voice warnings: "@ + self.reason,
            notification_method: NotificationMethod::PublicWithMention,
            enforcement: self.enforcement(before),
            stamps,
        }
    }

    /// Whether the command can be carried out: an enforcement that is applied can fall due.
    pub open spec fn feasible(self, before: DataView, stamps: StampsView) -> bool {
        self.applies(before) ==> schedulable(self.enforcement(before).unwrap(), stamps.scheduled)
    }

    /// What the daemon remembers afterwards.
    pub open spec fn data(self, before: DataView, stamps: StampsView) -> DataView {
        if self.applies(before) {
            self.issue(before, stamps).issued(self.chosen(before))
        } else {
            self.chosen(before)
        }
    }

    /// The log entry of a warning, before it says what will come of it.
    pub open spec fn plain_entry(self) -> EmbedView {
        EmbedView {
            title: "⚠️ Voice Channel Warning"@,
            description: user_mention_text(self.user_id)
                + " has received a voice channel warning"@,
            colour: Colour::Gold,
            fields: seq![
                EmbedFieldView { name: "Reason"@, value: self.reason, inline: false },
                EmbedFieldView {
                    name: "Issued By"@,
                    value: user_mention_text(self.author_id),
                    inline: true,
                },
                EmbedFieldView {
                    name: "Total Warnings"@,
                    value: decimal_text(self.count()),
                    inline: true,
                },
            ],
        }
    }

    /// The log entry of a warning: the first one announces what more of them will bring, and one
    /// that brings it says so.
    pub open spec fn entry(self, before: DataView) -> EmbedView {
        match self.enforcement(before) {
            Some(action) => if self.first() {
                self.plain_entry().with_field(
                    "🚨 If behavior continues:"@,
                    "After ~"@ + decimal_text((THRESHOLD_WARNINGS - 1) as nat)
                        + " more warnings, the user will receive: **"@ + action.description()
                        + "**"@,
                    false,
                )
            } else if self.enforce {
                EmbedView {
                    title: "🚫 Voice Channel Enforcement"@,
                    colour: Colour::Red,
                    ..self.plain_entry()
                }.with_field(
                    "⚠️ Threshold Reached"@,
                    "Enforcement action is being applied"@,
                    false,
                )
            } else {
                self.plain_entry()
            },
            None => self.plain_entry(),
        }
    }

    /// The step that logs the warning, in a guild that keeps a log.
    pub open spec fn log(self, before: DataView) -> Seq<StepView> {
        match before.chaotic_config(self.guild_id).enforcement_log_channel_id {
            Some(channel_id) => seq![
                ignoring(
                    EffectView::SendToChannel { channel_id, embed: self.entry(before) },
                ),
            ],
            None => Seq::empty(),
        }
    }

    /// The step that wakes the enforcement task, where an enforcement is applied.
    pub open spec fn wake(self, before: DataView) -> Seq<StepView> {
        if self.applies(before) {
            seq![
                ignoring(
                    EffectView::RequestCheck {
                        request: CheckView::CheckUser {
                            user_id: self.user_id,
                            guild_id: self.guild_id,
                        },
                    },
                ),
            ]
        } else {
            Seq::empty()
        }
    }

    /// What the moderator is told.
    pub open spec fn response(self) -> Seq<char> {
        if self.enforce {
            "Thumbs down recorded for "@ + self.user_name + " with reason: "@ + self.reason
                + ". Enforcement action applied due to multiple warnings."@
        } else if self.first() {
            "First thumbs down recorded for "@ + self.user_name + " with reason: "@ + self.reason
                + ". Further warnings may trigger enforcement."@
        } else {
            "Thumbs down recorded for "@ + self.user_name + " with reason: "@ + self.reason
                + ". Current warning count: "@ + decimal_text(self.count())
        }
    }

    /// The steps of the command.
    pub open spec fn script(self, before: DataView) -> Seq<StepView> {
        self.log(before) + self.wake(before) + seq![
            ignoring(EffectView::Save),
            say(self.response()),
        ]
    }

    /// What the command leaves behind.
    pub open spec fn outcome(self, before: DataView, stamps: StampsView) -> Outcome {
        if self.feasible(before, stamps) {
            Outcome { data: self.data(before, stamps), script: Some(self.script(before)) }
        } else {
            Outcome { data: before, script: None }
        }
    }
}

/// The call of `summon_daemon` with the given arguments from a guild.
pub open spec fn summon_view(
    guild_id: u64,
    author_id: u64,
    user: User,
    reason: String,
    state: UserWarningState,
    score: Score,
) -> SummonView {
    SummonView {
        guild_id,
        author_id,
        user_id: user.id,
        user_name: user.name@,
        reason: reason@,
        state: state@,
        enforce: score.exceeds(),
    }
}

/// Finds the enforcement that hangs over the user.
fn hanging_enforcement(
    state: &UserWarningState,
    default: Option<EnforcementAction>,
    Ghost(call): Ghost<SummonView>,
    Ghost(before): Ghost<DataView>,
) -> (enforcement: Option<EnforcementAction>)
    requires
        call.state == state@,
        before.chaotic_config(call.guild_id).default_enforcement == default,
    ensures
        enforcement == call.enforcement(before),
{
    if state.pending_enforcement.is_some() {
        state.pending_enforcement
    } else if state.warning_timestamps.len() == 1 {
        Some(default.unwrap_or(EnforcementAction::VoiceMute { duration: Some(300) }))
    } else {
        None
    }
}

/// Composes the log entry of a warning.
fn log_entry(
    author_id: u64,
    user: &User,
    reason: &String,
    count: usize,
    enforcement: Option<EnforcementAction>,
    enforce: bool,
    Ghost(call): Ghost<SummonView>,
    Ghost(before): Ghost<DataView>,
) -> (embed: Embed)
    requires
        author_id != 0,
        user.id != 0,
        call.author_id == author_id,
        call.user_id == user.id,
        call.reason == reason@,
        call.count() == count,
        call.enforce == enforce,
        call.enforcement(before) == enforcement,
    ensures
        embed@ == call.entry(before),
{
    let mut description = user_mention(user.id);
    description.append(" has received a voice channel warning");
    let mut embed = Embed::new("⚠️ Voice Channel Warning", description, Colour::Gold);
    embed.add_field("Reason", reason.clone(), false);
    embed.add_field("Issued By", user_mention(author_id), true);
    embed.add_field("Total Warnings", decimal(count as u64), true);
    assert(embed@.fields =~= call.plain_entry().fields);
    if let Some(action) = enforcement {
        if count == 1 {
            let mut outlook = "After ~".to_owned();
            outlook.append(decimal(THRESHOLD_WARNINGS - 1).as_str());
            outlook.append(" more warnings, the user will receive: **");
            outlook.append(action.describe().as_str());
            outlook.append("**");
            embed.add_field("🚨 If behavior continues:", outlook, false);
        } else if enforce {
            embed.title = "🚫 Voice Channel Enforcement".to_owned();
            embed.colour = Colour::Red;
            embed.add_field(
                "⚠️ Threshold Reached",
                "Enforcement action is being applied".to_owned(),
                false,
            );
        }
    }
    embed
}

/// Composes what the moderator is told.
fn response(
    user: &User,
    reason: &String,
    count: usize,
    enforce: bool,
    Ghost(call): Ghost<SummonView>,
) -> (text: String)
    requires
        call.user_name == user.name@,
        call.reason == reason@,
        call.count() == count,
        call.enforce == enforce,
    ensures
        text@ == call.response(),
{
    let mut text = if !enforce && count == 1 {
        "First thumbs down recorded for ".to_owned()
    } else {
        "Thumbs down recorded for ".to_owned()
    };
    text.append(user.name.as_str());
    text.append(" with reason: ");
    text.append(reason.as_str());
    if enforce {
        text.append(". Enforcement action applied due to multiple warnings.");
    } else if count == 1 {
        text.append(". Further warnings may trigger enforcement.");
    } else {
        text.append(". Current warning count: ");
        text.append(decimal(count as u64).as_str());
    }
    text
}

/// Judges a user, with given stamps. There are no steps, and nothing changes, where an enforcement
/// is to be applied that cannot fall due.
pub fn summon_daemon_at(
    data: &mut Data,
    guild_id: u64,
    author_id: u64,
    user: &User,
    reason: &String,
    state: &UserWarningState,
    score: Score,
    stamps: Stamps,
) -> (script: Option<Script>)
    requires
        author_id != 0,
        user.id != 0,
        stamps@.valid(),
    ensures
        summon_view(guild_id, author_id, *user, *reason, *state, score).outcome(
            old(data)@,
            stamps@,
        ) == (Outcome { data: final(data)@, script: script_view(script) }),
{
    let ghost call = summon_view(guild_id, author_id, *user, *reason, *state, score);
    let ghost before = data@;
    let config = data.chaotic_config(guild_id);
    let count: usize = state.warning_timestamps.len();
    let enforce = score.exceeds_threshold();
    let enforcement = hanging_enforcement(
        state,
        config.default_enforcement,
        Ghost(call),
        Ghost(before),
    );
    let due = match enforcement {
        Some(action) => !enforce || can_schedule(&action, &stamps.scheduled),
        None => true,
    };
    if !due {
        return None;
    }

    if state.pending_enforcement.is_none() && count == 1 {
        let mut updated = state.clone();
        updated.pending_enforcement = enforcement;
        insert_state(&mut data.user_warning_states, state_key(user.id, guild_id), updated);
    }
    assert(data@ =~= call.chosen(before));

    let mut script = Script::new();
    if let Some(channel_id) = config.enforcement_log_channel_id {
        let embed = log_entry(
            author_id,
            user,
            reason,
            count,
            enforcement,
            enforce,
            Ghost(call),
            Ghost(before),
        );
        script.add(Step::ignoring(Effect::SendToChannel { channel_id, embed }));
    }
    assert(script@ =~= call.log(before));

    if enforce && enforcement.is_some() {
        let mut full_reason = "Automatic enforcement after multiple voice warnings: ".to_owned();
        full_reason.append(reason.as_str());
        let issue = Issue {
            guild_id,
            user_id: user.id,
            issuer_id: author_id,
            reason: full_reason,
            notification_method: NotificationMethod::PublicWithMention,
            enforcement,
            stamps,
        };
        issue.record(data);
        let request = EnforcementCheckRequest::CheckUser { user_id: user.id, guild_id };
        script.add(Step::ignoring(Effect::RequestCheck { request }));
    }
    assert(script@ =~= call.log(before) + call.wake(before));

    script.add(Step::ignoring(Effect::Save));
    script.add(Step::say(response(user, reason, count, enforce, Ghost(call))));
    assert(script@ =~= call.script(before));
    Some(script)
}

/// Judges a user: records the enforcement that hangs over them, and applies it where the score
/// calls for it. `state` is how the user stands with this warning counted, and `score` the score
/// with the guild's randomness added. The identifiers of the records are random, and the moments
/// in them are those of the call. There are no steps, and nothing changes, where an enforcement
/// is to be applied that cannot fall due.
pub fn summon_daemon(
    data: &mut Data,
    call: &Invocation,
    user: &User,
    reason: &String,
    state: &UserWarningState,
    score: Score,
) -> (result: Result<Option<Script>, CommandError>)
    requires
        call.author_id != 0,
        user.id != 0,
    ensures
        match call.guild_id {
            None => result == Err::<Option<Script>, CommandError>(CommandError::NotInGuild)
                && final(data)@ == old(data)@,
            Some(guild_id) => {
                let call = summon_view(guild_id, call.author_id, *user, *reason, *state, score);
                &&& result is Ok
                &&& exists|stamps: StampsView| #[trigger]
                    stamps.drawn() && call.outcome(old(data)@, stamps) == (Outcome {
                        data: final(data)@,
                        script: script_view(result->Ok_0),
                    })
            },
        },
{
    match require_guild(call.guild_id) {
        Ok(guild_id) => {
            let stamps = draw_stamps();
            assert(stamps@.drawn());
            Ok(
                summon_daemon_at(
                    data,
                    guild_id,
                    call.author_id,
                    user,
                    reason,
                    state,
                    score,
                    stamps,
                ),
            )
        },
        Err(error) => Err(error),
    }
}

} // verus!
