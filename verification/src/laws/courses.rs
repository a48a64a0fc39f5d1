//! How the commands go on when something outside of the daemon fails.

use crate::commands::altar::{altar_script, set_text, trial_view, unsaved_text, untried_text};
use crate::commands::appeasement::{report, AppeaseView};
use crate::commands::chaos::chaos_script;
use crate::commands::summon::SummonView;
use crate::commands::warning::{public_notice_view, WarnView};
use crate::levels::{outlook_text, ChaosFactor};
use crate::messages::EffectView;
use crate::script::{course, ignoring, say, StepView};
use crate::store::DataView;
use vstd::prelude::*;

verus! {

/// The effects of a script.
pub open spec fn effects(script: Seq<StepView>) -> Seq<EffectView> {
    script.map_values(|step: StepView| step.effect)
}

/// Whether a script ignores every failure but that of its last step, which says something.
pub open spec fn only_the_answer_can_fail(script: Seq<StepView>) -> bool {
    &&& script.len() > 0
    &&& forall|i: int| 0 <= i < script.len() - 1 ==> (#[trigger] script[i]).on_failure is Ignore
    &&& script.last().on_failure is Propagate
    &&& script.last().effect is Say
}

/// Such a script is carried out to its end, and fails where its answer does.
proof fn lemma_carried_out(script: Seq<StepView>, succeeds: spec_fn(EffectView) -> bool)
    requires
        only_the_answer_can_fail(script),
    ensures
        course(script, succeeds).attempted == effects(script),
        course(script, succeeds).failed == !succeeds(script.last().effect),
    decreases script.len(),
{
    let rest = script.drop_first();
    if rest.len() > 0 {
        assert(rest.last() == script.last());
        assert forall|i: int| 0 <= i < rest.len() - 1 implies (
        #[trigger] rest[i]).on_failure is Ignore by {
            assert(rest[i] == script[i + 1]);
        }
        lemma_carried_out(rest, succeeds);
        assert(script[0].on_failure is Ignore);
    } else {
        assert(course(rest, succeeds).attempted =~= Seq::empty());
    }
    assert(course(script, succeeds).attempted =~= effects(script));
}

/// A warning that is told in private is carried out to its end, whether or not the user could be
/// reached: it is saved, an immediate enforcement is asked for, and the moderator is answered.
pub proof fn private_warning_is_carried_out(
    call: WarnView,
    before: DataView,
    succeeds: spec_fn(EffectView) -> bool,
)
    requires
        call.method(before) is DirectMessage,
    ensures
        course(call.script(before), succeeds).attempted == effects(call.script(before)),
        course(call.script(before), succeeds).failed == !succeeds(
            call.script(before).last().effect,
        ),
{
    lemma_carried_out(call.script(before), succeeds);
}

/// Where the public notice of a warning fails, the command fails at once: nothing is saved, no
/// check is asked for and nothing is answered.
pub proof fn failed_public_notice_ends_the_warning(
    call: WarnView,
    before: DataView,
    succeeds: spec_fn(EffectView) -> bool,
)
    requires
        call.method(before) is PublicWithMention,
        !succeeds(EffectView::Reply { embed: public_notice_view(call.user_id, call.reason) }),
    ensures
        course(call.script(before), succeeds).attempted == seq![
            EffectView::Reply { embed: public_notice_view(call.user_id, call.reason) },
        ],
        course(call.script(before), succeeds).failed,
{
    assert(call.script(before)[0] == call.notice(before));
}

/// Where the public notice of a warning succeeds, the command is carried out to its end.
pub proof fn public_warning_is_carried_out(
    call: WarnView,
    before: DataView,
    succeeds: spec_fn(EffectView) -> bool,
)
    requires
        call.method(before) is PublicWithMention,
        succeeds(EffectView::Reply { embed: public_notice_view(call.user_id, call.reason) }),
    ensures
        course(call.script(before), succeeds).attempted == effects(call.script(before)),
        course(call.script(before), succeeds).failed == !succeeds(
            call.script(before).last().effect,
        ),
{
    let script = call.script(before);
    let rest = script.drop_first();
    assert(script[0] == call.notice(before));
    assert(rest.last() == script.last());
    assert forall|i: int| 0 <= i < rest.len() - 1 implies (
        #[trigger] rest[i]).on_failure is Ignore by {
        assert(rest[i] == script[i + 1]);
    }
    lemma_carried_out(rest, succeeds);
    assert(course(script, succeeds).attempted =~= effects(script));
}

/// A summons is carried out to its end, whatever fails on the way.
pub proof fn summons_is_carried_out(
    call: SummonView,
    before: DataView,
    succeeds: spec_fn(EffectView) -> bool,
)
    ensures
        course(call.script(before), succeeds).attempted == effects(call.script(before)),
        course(call.script(before), succeeds).failed == !succeeds(
            EffectView::Say { text: call.response() },
        ),
{
    lemma_carried_out(call.script(before), succeeds);
}

/// Appeasing is carried out to its end, whatever fails on the way; it ends with the answer.
pub proof fn appeasement_is_carried_out(
    call: AppeaseView,
    ids: Seq<Seq<char>>,
    succeeds: spec_fn(EffectView) -> bool,
)
    ensures
        course(call.script(ids), succeeds).attempted == effects(call.script(ids)),
        course(call.script(ids), succeeds).failed == !succeeds(call.script(ids).last().effect),
        call.script(ids).last() == say(
            if ids.len() == 0 {
                "No pending enforcements found for "@ + call.user_name
            } else {
                report(ids, call.user_name)
            },
        ),
        call.script(ids).contains(ignoring(EffectView::Save)) <==> ids.len() > 0,
{
    let script = call.script(ids);
    lemma_carried_out(script, succeeds);
    if ids.len() > 0 {
        assert(script[ids.len() as int] == ignoring(EffectView::Save));
    } else {
        assert(script[0] == say("No pending enforcements found for "@ + call.user_name));
    }
}

/// Setting the log channel: settings that cannot be saved are reported and the channel is left
/// alone; a channel that cannot be written to is reported; only else is success. The command fails
/// where what it says cannot be said.
pub proof fn altar_reports_how_it_went(channel_id: u64, succeeds: spec_fn(EffectView) -> bool)
    ensures
        ({
            let trial = EffectView::SendToChannel { channel_id, embed: trial_view() };
            let attempted = course(altar_script(channel_id), succeeds).attempted;
            &&& course(altar_script(channel_id), succeeds).failed == !succeeds(attempted.last())
            &&& if !succeeds(EffectView::Save) {
                attempted == seq![EffectView::Save, EffectView::Say { text: unsaved_text() }]
            } else if !succeeds(trial) {
                attempted == seq![
                    EffectView::Save,
                    trial,
                    EffectView::Say { text: untried_text(channel_id) },
                ]
            } else {
                attempted == seq![
                    EffectView::Save,
                    trial,
                    EffectView::Say { text: set_text(channel_id) },
                ]
            }
        }),
{
    let script = altar_script(channel_id);
    let second = script.drop_first();
    let third = second.drop_first();
    assert(second[0] == script[1]);
    assert(third[0] == script[2]);
    reveal_with_fuel(course, 4);
    assert(third.drop_first() =~= Seq::empty());
    assert(course(third, succeeds).attempted =~= seq![script[2].effect]);
    let attempted = course(script, succeeds).attempted;
    if !succeeds(script[0].effect) {
    } else if !succeeds(script[1].effect) {
        assert(attempted =~= seq![script[0].effect] + course(second, succeeds).attempted);
        assert(attempted.len() == 3);
    } else {
        assert(attempted =~= seq![script[0].effect, script[1].effect, script[2].effect]);
    }
}

/// Setting the chaos factor: settings that cannot be saved are reported, else the factor is
/// confirmed; a factor out of range is refused before anything is saved. The command fails where
/// what it says cannot be said.
pub proof fn chaos_reports_how_it_went(
    factor: ChaosFactor,
    shown: Seq<char>,
    succeeds: spec_fn(EffectView) -> bool,
)
    ensures
        ({
            let attempted = course(chaos_script(factor, shown), succeeds).attempted;
            &&& course(chaos_script(factor, shown), succeeds).failed == !succeeds(attempted.last())
            &&& if !factor.is_unit() {
                attempted == seq![
                    EffectView::Say { text: "Chaos factor must be between 0.0 and 1.0"@ },
                ]
            } else if !succeeds(EffectView::Save) {
                attempted == seq![EffectView::Save, EffectView::Say { text: unsaved_text() }]
            } else {
                attempted == seq![
                    EffectView::Save,
                    EffectView::Say {
                        text: "Chaos factor set to "@ + shown + ". "@ + outlook_text(
                            factor.value(),
                        ),
                    },
                ]
            }
        }),
{
    let script = chaos_script(factor, shown);
    let second = script.drop_first();
    reveal_with_fuel(course, 3);
    let attempted = course(script, succeeds).attempted;
    if !factor.is_unit() {
        assert(second =~= Seq::empty());
        assert(attempted =~= seq![script[0].effect]);
    } else if succeeds(EffectView::Save) {
        assert(second[0] == script[1]);
        assert(second.drop_first() =~= Seq::empty());
        assert(course(second, succeeds).attempted =~= seq![script[1].effect]);
        assert(attempted =~= seq![script[0].effect, script[1].effect]);
    }
}

} // verus!
