//! What the daemon remembers from command to command.

use crate::commands::altar::altar_data;
use crate::commands::appeasement::{
    cancellation, is_walk, lemma_wanted_step, over, AppeaseView, Walk,
};
use crate::commands::chaos::chaos_data;
use crate::commands::summon::SummonView;
use crate::commands::warning::{idles, WarnView};
use crate::issue::{IssueView, StampsView};
use crate::laws::keys::state_keys_are_unambiguous;
use crate::levels::{lemma_marks, ChaosFactor};
use crate::messages::EffectView;
use crate::records::PendingView;
use crate::script::{ignoring, say, StepView};
use crate::store::{state_key_text, DataView};
use crate::text::decimal_text;
use vstd::prelude::*;

verus! {

/// Whether stamps name records that do not exist yet.
pub open spec fn fresh(stamps: StampsView, before: DataView) -> bool {
    &&& !before.warnings.contains_key(stamps.warning_id)
    &&& !before.pending_enforcements.contains_key(stamps.enforcement_id)
}

/// Whether nothing is forgotten from one state to another: every key stays, warnings and the
/// defaults stay as they are, and the only thing that can happen to an enforcement is that it is
/// over.
pub open spec fn remembers(before: DataView, after: DataView) -> bool {
    &&& after.guild_defaults == before.guild_defaults
    &&& forall|guild_id: u64| #[trigger]
        before.guild_configs.contains_key(guild_id) ==> after.guild_configs.contains_key(guild_id)
    &&& forall|key: Seq<char>| #[trigger]
        before.user_warning_states.contains_key(key) ==> after.user_warning_states.contains_key(key)
    &&& forall|id: Seq<char>| #[trigger]
        before.warnings.contains_key(id) ==> after.warnings.contains_key(id) && after.warnings[id]
            == before.warnings[id]
    &&& forall|id: Seq<char>| #[trigger]
        before.pending_enforcements.contains_key(id) ==> {
            &&& after.pending_enforcements.contains_key(id)
            &&& after.pending_enforcements[id] == before.pending_enforcements[id]
                || after.pending_enforcements[id] == over(before.pending_enforcements[id])
        }
}

/// Over two commands as over one, nothing is forgotten.
pub proof fn remembering_is_transitive(first: DataView, second: DataView, third: DataView)
    requires
        remembers(first, second),
        remembers(second, third),
    ensures
        remembers(first, third),
{
}

/// A warning with fresh identifiers makes nothing forgotten.
pub proof fn warn_remembers(call: WarnView, before: DataView, stamps: StampsView)
    requires
        fresh(stamps, before),
    ensures
        remembers(before, call.outcome(before, stamps).data),
{
}

/// A summons with fresh identifiers makes nothing forgotten.
pub proof fn summon_remembers(call: SummonView, before: DataView, stamps: StampsView)
    requires
        fresh(stamps, before),
    ensures
        remembers(before, call.outcome(before, stamps).data),
{
}

/// Setting the log channel makes nothing forgotten.
pub proof fn altar_remembers(before: DataView, guild_id: u64, channel_id: u64)
    ensures
        remembers(before, altar_data(before, guild_id, channel_id)),
{
}

/// Setting the chaos factor makes nothing forgotten.
pub proof fn chaos_remembers(before: DataView, guild_id: u64, factor: ChaosFactor)
    ensures
        remembers(before, chaos_data(before, guild_id, factor)),
{
}

/// Appeasing makes nothing forgotten: cancelled enforcements stay on record.
pub proof fn appease_remembers(call: AppeaseView, before: DataView, walk: Walk)
    ensures
        remembers(before, call.data(before, walk)),
{
}

/// A warning with a fresh identifier keeps the records in order.
pub proof fn warn_keeps_order(call: WarnView, before: DataView, stamps: StampsView)
    requires
        before.well_formed(),
        !before.warnings.contains_key(stamps.warning_id),
    ensures
        call.outcome(before, stamps).data.well_formed(),
{
}

/// A summons with a fresh identifier keeps the records in order.
pub proof fn summon_keeps_order(call: SummonView, before: DataView, stamps: StampsView)
    requires
        before.well_formed(),
        !before.warnings.contains_key(stamps.warning_id),
    ensures
        call.outcome(before, stamps).data.well_formed(),
{
}

/// Setting the log channel keeps the records in order.
pub proof fn altar_keeps_order(before: DataView, guild_id: u64, channel_id: u64)
    requires
        before.well_formed(),
    ensures
        altar_data(before, guild_id, channel_id).well_formed(),
{
}

/// Setting the chaos factor keeps the records in order.
pub proof fn chaos_keeps_order(before: DataView, guild_id: u64, factor: ChaosFactor)
    requires
        before.well_formed(),
    ensures
        chaos_data(before, guild_id, factor).well_formed(),
{
}

/// Appeasing keeps the records in order.
pub proof fn appease_keeps_order(call: AppeaseView, before: DataView, walk: Walk)
    requires
        before.well_formed(),
    ensures
        call.data(before, walk).well_formed(),
{
    let after = call.data(before, walk);
    assert forall|id: Seq<char>| #[trigger]
        after.pending_enforcements.contains_key(id) implies after.pending_enforcements[id].id == id
        && after.backed(after.pending_enforcements[id]) by {
        assert(before.pending_enforcements.contains_key(id));
        assert(before.backed(before.pending_enforcements[id]));
    }
}

/// An identifier is wanted where an entry on the walk is wanted that bears it.
proof fn lemma_wanted(call: AppeaseView, walk: Walk, id: Seq<char>)
    ensures
        call.wanted(walk).contains(id) <==> exists|i: int|
            0 <= i < walk.len() && call.wants((#[trigger] walk[i]).1) && walk[i].1.id == id,
{
    let keep = |entry: (Seq<char>, PendingView)| call.wants(entry.1);
    let kept = walk.filter(keep);
    if call.wanted(walk).contains(id) {
        let k = choose|k: int| 0 <= k < call.wanted(walk).len() && call.wanted(walk)[k] == id;
        assert(kept.contains(kept[k]));
        walk.lemma_filter_pred(keep, k);
        walk.lemma_filter_contains_rev(keep, kept[k]);
        let i = choose|i: int| 0 <= i < walk.len() && walk[i] == kept[k];
        assert(call.wants(walk[i].1) && walk[i].1.id == id);
    }
    if exists|i: int|
        0 <= i < walk.len() && call.wants((#[trigger] walk[i]).1) && walk[i].1.id == id {
        let i = choose|i: int|
            0 <= i < walk.len() && call.wants((#[trigger] walk[i]).1) && walk[i].1.id == id;
        walk.lemma_filter_contains(keep, i);
        let k = choose|k: int| 0 <= k < kept.len() && kept[k] == walk[i];
        assert(call.wanted(walk)[k] == id);
    }
}

/// A chosen identifier is a wanted one, and all wanted ones are chosen: where an enforcement is
/// named, they are all the same.
proof fn lemma_chosen(call: AppeaseView, walk: Walk, id: Seq<char>)
    ensures
        call.chosen(walk).contains(id) <==> call.wanted(walk).contains(id),
{
    let wanted = call.wanted(walk);
    if call.enforcement_id is Some && wanted.len() > 1 {
        assert(wanted.contains(wanted[0]));
        lemma_wanted(call, walk, wanted[0]);
        assert(wanted.take(1)[0] == wanted[0]);
        if wanted.contains(id) {
            lemma_wanted(call, walk, id);
        }
        if wanted.take(1).contains(id) {
            assert(id == wanted[0]);
        }
    }
}

/// With the enforcements kept under their own identifiers, what is cancelled is what was asked
/// for, whatever the walk.
proof fn lemma_found(call: AppeaseView, before: DataView, walk: Walk, id: Seq<char>)
    requires
        before.filed(),
        is_walk(walk, before.pending_enforcements),
    ensures
        call.found(before, walk).contains(id) <==> before.pending_enforcements.contains_key(id)
            && call.wants(before.pending_enforcements[id]),
{
    let present = |id: Seq<char>| before.pending_enforcements.contains_key(id);
    let chosen = call.chosen(walk);
    let found = call.found(before, walk);
    lemma_chosen(call, walk, id);
    lemma_wanted(call, walk, id);
    if found.contains(id) {
        let k = choose|k: int| 0 <= k < found.len() && found[k] == id;
        chosen.lemma_filter_pred(present, k);
        chosen.lemma_filter_contains_rev(present, id);
        let i = choose|i: int|
            0 <= i < walk.len() && call.wants((#[trigger] walk[i]).1) && walk[i].1.id == id;
        assert(before.pending_enforcements.contains_key(walk[i].0));
    }
    if before.pending_enforcements.contains_key(id) && call.wants(
        before.pending_enforcements[id],
    ) {
        let i = choose|i: int| 0 <= i < walk.len() && (#[trigger] walk[i]).0 == id;
        assert(call.wants(walk[i].1) && walk[i].1.id == id);
        let k = choose|k: int| 0 <= k < chosen.len() && chosen[k] == id;
        chosen.lemma_filter_contains(present, k);
    }
}

/// With the enforcements kept under their own identifiers, no identifier is wanted twice on the
/// first stretch of a walk.
proof fn lemma_wanted_once(call: AppeaseView, before: DataView, walk: Walk, i: int)
    requires
        before.filed(),
        is_walk(walk, before.pending_enforcements),
        0 <= i <= walk.len(),
    ensures
        call.wanted(walk.take(i)).no_duplicates(),
    decreases i,
{
    if i == 0 {
        reveal(Seq::filter);
        assert(call.wanted(walk.take(0)).len() == 0);
    } else {
        let shorter = walk.take(i - 1);
        let id = walk[i - 1].1.id;
        lemma_wanted_once(call, before, walk, i - 1);
        lemma_wanted_step(call, walk, i - 1);
        lemma_wanted(call, shorter, id);
        if call.wanted(shorter).contains(id) {
            let j = choose|j: int|
                0 <= j < shorter.len() && call.wants((#[trigger] shorter[j]).1) && shorter[j].1.id
                    == id;
            assert(shorter[j] == walk[j]);
            assert(before.pending_enforcements.contains_key(walk[j].0));
            assert(before.pending_enforcements.contains_key(walk[i - 1].0));
            assert(walk[j].0 == walk[i - 1].0);
        }
    }
}

/// What is kept of distinct texts is distinct.
proof fn lemma_filter_keeps_distinct(texts: Seq<Seq<char>>, keep: spec_fn(Seq<char>) -> bool)
    requires
        texts.no_duplicates(),
    ensures
        texts.filter(keep).no_duplicates(),
    decreases texts.len(),
{
    reveal(Seq::filter);
    if texts.len() > 0 {
        let rest = texts.drop_last();
        lemma_filter_keeps_distinct(rest, keep);
        if rest.filter(keep).contains(texts.last()) {
            rest.lemma_filter_contains_rev(keep, texts.last());
            let j = choose|j: int| 0 <= j < rest.len() && rest[j] == texts.last();
            assert(texts[j] == texts[texts.len() - 1]);
        }
    }
}

/// With the enforcements kept under their own identifiers, appeasing reports each one that it
/// cancels once.
pub proof fn appease_reports_once(call: AppeaseView, before: DataView, walk: Walk)
    requires
        before.filed(),
        is_walk(walk, before.pending_enforcements),
    ensures
        call.found(before, walk).no_duplicates(),
{
    lemma_wanted_once(call, before, walk, walk.len() as int);
    assert(walk.take(walk.len() as int) =~= walk);
    assert(call.chosen(walk).no_duplicates());
    lemma_filter_keeps_distinct(
        call.chosen(walk),
        |id: Seq<char>| before.pending_enforcements.contains_key(id),
    );
}

/// With the enforcements kept under their own identifiers, appeasing cancels exactly what it is
/// asked to: every enforcement open against the user in the guild, or the one of them that is
/// named. All others stay as they are. The order in which the enforcements are looked through does
/// not matter.
pub proof fn appease_is_exact(call: AppeaseView, before: DataView, walk: Walk)
    requires
        before.filed(),
        is_walk(walk, before.pending_enforcements),
    ensures
        call.data(before, walk) == (DataView {
            pending_enforcements: before.pending_enforcements.map_values(
                |pending: PendingView|
                    if call.wants(pending) {
                        over(pending)
                    } else {
                        pending
                    },
            ),
            ..before
        }),
        forall|id: Seq<char>| #[trigger]
            call.found(before, walk).contains(id) <==> before.pending_enforcements.contains_key(id)
                && call.wants(before.pending_enforcements[id]),
{
    assert forall|id: Seq<char>| #[trigger] call.found(before, walk).contains(id) <==> (
    before.pending_enforcements.contains_key(id) && call.wants(
        before.pending_enforcements[id],
    )) by {
        lemma_found(call, before, walk, id);
    }
    assert(call.data(before, walk).pending_enforcements
        =~= before.pending_enforcements.map_values(
        |pending: PendingView|
            if call.wants(pending) {
                over(pending)
            } else {
                pending
            },
    ));
}

/// With the enforcements kept under their own identifiers, appeasing a second time finds nothing,
/// changes nothing and says so.
pub proof fn appease_twice(call: AppeaseView, before: DataView, walk: Walk, second_walk: Walk)
    requires
        before.filed(),
        is_walk(walk, before.pending_enforcements),
        is_walk(second_walk, call.data(before, walk).pending_enforcements),
    ensures
        call.found(call.data(before, walk), second_walk) == Seq::<Seq<char>>::empty(),
        call.data(call.data(before, walk), second_walk) == call.data(before, walk),
        call.script(call.found(call.data(before, walk), second_walk)) == seq![
            say("No pending enforcements found for "@ + call.user_name),
        ],
{
    let after = call.data(before, walk);
    let found = call.found(after, second_walk);
    appease_is_exact(call, before, walk);
    appease_is_exact(call, after, second_walk);
    if found.len() > 0 {
        assert(found.contains(found[0]));
        assert(before.pending_enforcements.contains_key(found[0]));
        assert(false);
    }
    assert(found =~= Seq::empty());
    assert(call.data(after, second_walk) =~= after);
}

/// Whoever was warned or summoned with an enforcement can be appeased: the enforcement is stored
/// as open, and a call that names the user, and names that enforcement or none, cancels it and
/// tells the enforcement task so. The warnings stay as they are.
pub proof fn issued_can_be_appeased(
    issue: IssueView,
    before: DataView,
    call: AppeaseView,
    walk: Walk,
)
    requires
        issue.enforcement is Some,
        is_walk(walk, issue.issued(before).pending_enforcements),
        call.user_id == issue.user_id,
        call.guild_id == issue.guild_id,
        call.enforcement_id is None || call.enforcement_id == Some(issue.stamps.enforcement_id),
    ensures
        ({
            let issued = issue.issued(before);
            let id = issue.stamps.enforcement_id;
            &&& issued.pending_enforcements.contains_key(id)
            &&& !issued.pending_enforcements[id].executed
            &&& call.data(issued, walk).pending_enforcements[id] == over(
                issue.pending(issue.enforcement.unwrap()),
            )
            &&& call.data(issued, walk).warnings == issued.warnings
            &&& call.found(issued, walk).contains(id)
            &&& AppeaseView::notes(call.found(issued, walk)).contains(cancellation(id))
            &&& call.script(call.found(issued, walk)).contains(cancellation(id))
        }),
{
    let issued = issue.issued(before);
    let id = issue.stamps.enforcement_id;
    let present = |id: Seq<char>| issued.pending_enforcements.contains_key(id);
    let chosen = call.chosen(walk);
    assert(issued.pending_enforcements.contains_key(id));
    let i = choose|i: int| 0 <= i < walk.len() && (#[trigger] walk[i]).0 == id;
    assert(call.wants(walk[i].1) && walk[i].1.id == id);
    lemma_wanted(call, walk, id);
    lemma_chosen(call, walk, id);
    let k = choose|k: int| 0 <= k < chosen.len() && chosen[k] == id;
    chosen.lemma_filter_contains(present, k);
    let found = call.found(issued, walk);
    let n = choose|n: int| 0 <= n < found.len() && found[n] == id;
    assert(AppeaseView::notes(found)[n] == cancellation(id));
    assert(call.script(found)[n] == cancellation(id));
}

/// With the enforcements kept under their own identifiers, appeasing is no business of other
/// users, nor of other guilds: their enforcements stay as they are.
pub proof fn appease_spares_others(call: AppeaseView, before: DataView, walk: Walk, id: Seq<char>)
    requires
        before.filed(),
        is_walk(walk, before.pending_enforcements),
        before.pending_enforcements.contains_key(id),
        before.pending_enforcements[id].user_id != call.user_id
            || before.pending_enforcements[id].guild_id != call.guild_id,
    ensures
        call.data(before, walk).pending_enforcements[id] == before.pending_enforcements[id],
{
    appease_is_exact(call, before, walk);
}

/// What a summons threatens at a user's first warning is what later ones bring, whatever has
/// become of the guild's settings: the standing that is stored carries it.
pub proof fn threat_is_kept(
    first: SummonView,
    before: DataView,
    later: SummonView,
    later_before: DataView,
    stamps: StampsView,
)
    requires
        first.chooses(),
        ({
            let key = state_key_text(first.user_id, first.guild_id);
            let stored = first.data(before, stamps).user_warning_states[key];
            later.state.pending_enforcement == stored.pending_enforcement
        }),
    ensures
        first.enforcement(before) is Some,
        later.enforcement(later_before) == first.enforcement(before),
        later.issue(later_before, stamps).enforcement == first.enforcement(before),
{
}

/// Without a score above the threshold a summons issues no warning and no enforcement.
pub proof fn no_verdict_no_enforcement(call: SummonView, before: DataView, stamps: StampsView)
    requires
        !call.enforce,
    ensures
        call.outcome(before, stamps).script is Some,
        call.outcome(before, stamps).data.warnings == before.warnings,
        call.outcome(before, stamps).data.pending_enforcements == before.pending_enforcements,
{
}

/// A warning is recorded as it was given, and so is the enforcement that goes with it; without one
/// the enforcements stay as they are.
pub proof fn warning_is_recorded(call: WarnView, before: DataView, stamps: StampsView)
    requires
        !idles(before, call.guild_id, call.action),
        call.feasible(before, stamps),
    ensures
        ({
            let after = call.outcome(before, stamps).data;
            let issue = call.issue(before, stamps);
            &&& after.warnings[stamps.warning_id] == issue.warning()
            &&& match call.enforcement(before) {
                Some(action) => {
                    &&& after.pending_enforcements[stamps.enforcement_id] == issue.pending(action)
                    &&& after.backed(after.pending_enforcements[stamps.enforcement_id])
                },
                None => after.pending_enforcements == before.pending_enforcements,
            }
        }),
{
}

/// A summons leaves the standing of every other user as it is, and that of the same user in every
/// other guild.
pub proof fn summons_spares_others(
    call: SummonView,
    before: DataView,
    stamps: StampsView,
    user_id: u64,
    guild_id: u64,
)
    requires
        user_id != call.user_id || guild_id != call.guild_id,
    ensures
        ({
            let after = call.outcome(before, stamps).data;
            let key = state_key_text(user_id, guild_id);
            &&& after.user_warning_states.contains_key(key)
                == before.user_warning_states.contains_key(key)
            &&& after.user_warning_states[key] == before.user_warning_states[key]
        }),
{
    if state_key_text(user_id, guild_id) == state_key_text(call.user_id, call.guild_id) {
        state_keys_are_unambiguous(user_id, guild_id, call.user_id, call.guild_id);
    }
}

/// An enforcement that is applied is recorded: as the warning that says why, and as an open
/// enforcement for the enforcement task.
pub proof fn verdict_is_recorded(call: SummonView, before: DataView, stamps: StampsView)
    requires
        call.applies(before),
        call.feasible(before, stamps),
    ensures
        ({
            let after = call.outcome(before, stamps).data;
            let action = call.enforcement(before).unwrap();
            let issue = call.issue(before, stamps);
            &&& after.warnings[stamps.warning_id] == issue.warning()
            &&& after.pending_enforcements[stamps.enforcement_id] == issue.pending(action)
            &&& after.backed(after.pending_enforcements[stamps.enforcement_id])
        }),
{
}

/// Once the log channel is set, it is where the guild's log goes; other guilds' logs stay where
/// they were.
pub proof fn altar_directs_the_log(before: DataView, guild_id: u64, channel_id: u64, other: u64)
    requires
        other != guild_id,
    ensures
        ({
            let after = altar_data(before, guild_id, channel_id);
            &&& after.chaotic_config(guild_id).enforcement_log_channel_id == Some(channel_id)
            &&& after.chaotic_config(other) == before.chaotic_config(other)
        }),
{
}

/// Of two log channels set after each other, the last one wins, as if it alone had been set.
pub proof fn last_altar_wins(before: DataView, guild_id: u64, channel_id: u64, last: u64)
    ensures
        altar_data(altar_data(before, guild_id, channel_id), guild_id, last) == altar_data(
            before,
            guild_id,
            last,
        ),
{
    assert(altar_data(altar_data(before, guild_id, channel_id), guild_id, last) =~= altar_data(
        before,
        guild_id,
        last,
    ));
}

/// Whether every chaos factor that is stored lies between zero and one.
pub open spec fn factors_in_range(data: DataView) -> bool {
    forall|guild_id: u64| #[trigger]
        data.guild_configs.contains_key(guild_id)
            ==> data.guild_configs[guild_id].chaos_factor.is_unit()
}

/// The two commands that change settings keep the stored chaos factors between zero and one; the
/// others leave settings alone.
pub proof fn factors_stay_in_range(
    before: DataView,
    guild_id: u64,
    channel_id: u64,
    factor: ChaosFactor,
)
    requires
        factors_in_range(before),
    ensures
        factors_in_range(altar_data(before, guild_id, channel_id)),
        factors_in_range(chaos_data(before, guild_id, factor)),
{
    lemma_marks();
}

/// Warnings, summonses and appeasements leave the settings of every guild as they are.
pub proof fn settings_stay(
    before: DataView,
    guild_id: u64,
    warning: WarnView,
    summons: SummonView,
    stamps: StampsView,
    appeasement: AppeaseView,
    walk: Walk,
)
    ensures
        warning.outcome(before, stamps).data.config(guild_id) == before.config(guild_id),
        warning.outcome(before, stamps).data.chaotic_config(guild_id) == before.chaotic_config(
            guild_id,
        ),
        summons.outcome(before, stamps).data.config(guild_id) == before.config(guild_id),
        summons.outcome(before, stamps).data.chaotic_config(guild_id) == before.chaotic_config(
            guild_id,
        ),
        appeasement.data(before, walk).config(guild_id) == before.config(guild_id),
        appeasement.data(before, walk).chaotic_config(guild_id) == before.chaotic_config(guild_id),
{
}

/// Whether a step writes to a channel.
pub open spec fn writes_to_a_channel(step: StepView) -> bool {
    step.effect is SendToChannel
}

/// In a guild with a log channel, a summons that is carried out writes one message to a channel:
/// the log entry, to the log channel, with the reason and the number of warnings. Its title tells
/// of an enforcement where one is called for, hangs over the user, and this is not their first
/// warning; else it tells of a warning.
pub proof fn summons_is_logged(
    call: SummonView,
    before: DataView,
    stamps: StampsView,
    channel_id: u64,
)
    requires
        before.chaotic_config(call.guild_id).enforcement_log_channel_id == Some(channel_id),
        call.feasible(before, stamps),
    ensures
        ({
            let script = call.outcome(before, stamps).script.unwrap();
            let entry = call.entry(before);
            &&& call.outcome(before, stamps).script is Some
            &&& script[0] == ignoring(EffectView::SendToChannel { channel_id, embed: entry })
            &&& forall|i: int| 0 < i < script.len() ==> !writes_to_a_channel(#[trigger] script[i])
            &&& entry.fields[0].name == "Reason"@ && entry.fields[0].value == call.reason
            &&& entry.fields[2].name == "Total Warnings"@ && entry.fields[2].value
                == decimal_text(call.count())
            &&& entry.title == "🚫 Voice Channel Enforcement"@ <==> call.enforce
                && call.count() != 1 && call.enforcement(before) is Some
            &&& entry.title == "⚠️ Voice Channel Warning"@ <==> !(call.enforce
                && call.count() != 1 && call.enforcement(before) is Some)
        }),
{
    reveal_strlit("🚫 Voice Channel Enforcement");
    reveal_strlit("⚠️ Voice Channel Warning");
    assert("🚫 Voice Channel Enforcement"@.len() != "⚠️ Voice Channel Warning"@.len());
    let script = call.script(before);
    assert(script[0] == call.log(before)[0]);
    assert forall|i: int| 0 < i < script.len() implies !writes_to_a_channel(
        #[trigger] script[i],
    ) by {
        let k = call.wake(before).len();
        if i <= k {
            assert(script[i] == call.wake(before)[i - 1]);
        }
    }
}

/// In a guild without a log channel, a summons writes to no channel.
pub proof fn summons_without_a_log_writes_none(
    call: SummonView,
    before: DataView,
    stamps: StampsView,
)
    requires
        before.chaotic_config(call.guild_id).enforcement_log_channel_id is None,
    ensures
        call.outcome(before, stamps).script matches Some(script) ==> forall|i: int|
            0 <= i < script.len() ==> !writes_to_a_channel(#[trigger] script[i]),
{
    let script = call.script(before);
    assert forall|i: int| 0 <= i < script.len() implies !writes_to_a_channel(
        #[trigger] script[i],
    ) by {
        if i < call.wake(before).len() {
            assert(script[i] == call.wake(before)[i]);
        }
    }
}

/// A warning without an enforcement, or with one to be carried out at once, is issued whatever the
/// clock says.
pub proof fn prompt_warning_is_issued(call: WarnView, before: DataView, stamps: StampsView)
    requires
        stamps.valid(),
        call.enforcement(before) matches Some(action) ==> action.immediate(),
    ensures
        call.outcome(before, stamps).script == Some(call.script(before)),
{
}

/// A summons that applies no enforcement, or one without a delay, is carried out whatever the
/// clock says.
pub proof fn prompt_summons_is_carried_out(call: SummonView, before: DataView, stamps: StampsView)
    requires
        stamps.valid(),
        call.applies(before) ==> call.enforcement(before).unwrap().delay() == 0,
    ensures
        call.outcome(before, stamps).script == Some(call.script(before)),
{
}

/// A chaos factor from zero to one is what the guild has from then on; its other settings stay,
/// and so do those of other guilds. Any other factor changes nothing.
pub proof fn chaos_is_read_back(
    before: DataView,
    guild_id: u64,
    factor: ChaosFactor,
    other: u64,
)
    requires
        other != guild_id,
    ensures
        ({
            let after = chaos_data(before, guild_id, factor);
            &&& factor.is_unit() ==> after.chaotic_config(guild_id).chaos_factor == factor
            &&& after.chaotic_config(guild_id).enforcement_log_channel_id == before.chaotic_config(
                guild_id,
            ).enforcement_log_channel_id
            &&& after.config(guild_id).default_enforcement == before.config(
                guild_id,
            ).default_enforcement
            &&& after.config(guild_id).default_notification_method == before.config(
                guild_id,
            ).default_notification_method
            &&& after.config(other) == before.config(other)
            &&& after.chaotic_config(other) == before.chaotic_config(other)
            &&& !factor.is_unit() ==> after == before
        }),
{
}

/// The log channel and an accepted chaos factor can be set in either order.
pub proof fn settings_commute(
    before: DataView,
    guild_id: u64,
    channel_id: u64,
    factor: ChaosFactor,
)
    requires
        factor.is_unit(),
    ensures
        chaos_data(altar_data(before, guild_id, channel_id), guild_id, factor) == altar_data(
            chaos_data(before, guild_id, factor),
            guild_id,
            channel_id,
        ),
{
    assert(chaos_data(altar_data(before, guild_id, channel_id), guild_id, factor) =~= altar_data(
        chaos_data(before, guild_id, factor),
        guild_id,
        channel_id,
    ));
}

} // verus!
