//! What appeasing comes to: which enforcements are cancelled, and how that is told.

use crate::commands::appeasement::{
    appease_view, is_walk, lemma_wanted_step, report, AppeaseView, Walk,
};
use crate::commands::User;
use crate::laws::memory::appease_is_exact;
use crate::messages::{CheckView, EffectView};
use crate::records::PendingView;
use crate::script::{OnFailureView, StepView};
use crate::store::DataView;
use vstd::prelude::*;

verus! {

/// Without a name, the enforcements are gone through in the order of the walk: each entry that is
/// against the user, in the guild and not over adds its identifier to those to cancel, and any
/// other entry adds nothing. Of these, one is cancelled where an enforcement is kept under its
/// identifier.
pub proof fn each_open_entry_is_cancelled(
    guild_id: u64,
    user: User,
    before: DataView,
    walk: Walk,
    entry: (Seq<char>, PendingView),
)
    ensures
        ({
            let call = appease_view(guild_id, user, None);
            let open = entry.1.user_id == user.id && entry.1.guild_id == guild_id
                && !entry.1.executed;
            let kept = before.pending_enforcements.contains_key(entry.1.id);
            &&& call.chosen(Seq::empty()).len() == 0
            &&& call.found(before, Seq::empty()).len() == 0
            &&& open ==> call.chosen(walk.push(entry)) == call.chosen(walk).push(entry.1.id)
            &&& !open ==> call.chosen(walk.push(entry)) == call.chosen(walk)
            &&& open && kept ==> call.found(before, walk.push(entry)) == call.found(
                before,
                walk,
            ).push(entry.1.id)
            &&& !(open && kept) ==> call.found(before, walk.push(entry)) == call.found(before, walk)
        }),
{
    let call = appease_view(guild_id, user, None);
    let longer = walk.push(entry);
    let n = walk.len() as int;
    lemma_wanted_step(call, longer, n);
    assert(longer.take(n) =~= walk);
    assert(longer.take(n + 1) =~= longer);
    reveal(Seq::filter);
    let chosen = call.chosen(walk);
    assert(chosen.push(entry.1.id).drop_last() =~= chosen);
}

/// With a name, one enforcement is to be cancelled where the walk passes one that bears the name,
/// is against the user, in the guild and not over; and it is cancelled where one is kept under the
/// name. Else none is.
pub proof fn only_the_named_entry_is_cancelled(
    guild_id: u64,
    user: User,
    name: String,
    before: DataView,
    walk: Walk,
)
    ensures
        ({
            let call = appease_view(guild_id, user, Some(name));
            let passed = exists|i: int|
                0 <= i < walk.len() && (#[trigger] walk[i]).1.user_id == user.id
                    && walk[i].1.guild_id == guild_id && !walk[i].1.executed && walk[i].1.id
                    == name@;
            &&& passed ==> call.chosen(walk) == seq![name@]
            &&& !passed ==> call.chosen(walk).len() == 0
            &&& passed && before.pending_enforcements.contains_key(name@) ==> call.found(
                before,
                walk,
            ) == seq![name@]
            &&& !(passed && before.pending_enforcements.contains_key(name@)) ==> call.found(
                before,
                walk,
            ).len() == 0
        }),
    decreases walk.len(),
{
    let call = appease_view(guild_id, user, Some(name));
    let n = walk.len() as int;
    let present = |id: Seq<char>| before.pending_enforcements.contains_key(id);
    reveal(Seq::filter);
    if n > 0 {
        let shorter = walk.drop_last();
        only_the_named_entry_is_cancelled(guild_id, user, name, before, shorter);
        lemma_wanted_step(call, walk, n - 1);
        assert(walk.take(n - 1) =~= shorter);
        assert(walk.take(n) =~= walk);
        assert forall|i: int| 0 <= i < n - 1 implies #[trigger] shorter[i] == walk[i] by {}
        assert(call.wants(walk[n - 1].1) <==> walk[n - 1].1.user_id == user.id && walk[n
            - 1].1.guild_id == guild_id && !walk[n - 1].1.executed && walk[n - 1].1.id == name@);
        if exists|i: int|
            0 <= i < shorter.len() && (#[trigger] shorter[i]).1.user_id == user.id
                && shorter[i].1.guild_id == guild_id && !shorter[i].1.executed && shorter[i].1.id
                == name@ {
            let i = choose|i: int|
                0 <= i < shorter.len() && (#[trigger] shorter[i]).1.user_id == user.id
                    && shorter[i].1.guild_id == guild_id && !shorter[i].1.executed
                    && shorter[i].1.id == name@;
            assert(walk[i] == shorter[i]);
            assert(call.chosen(shorter) == seq![name@]);
            assert(call.wanted(shorter)[0] == name@) by {
                assert(call.chosen(shorter)[0] == call.wanted(shorter)[0]);
            }
            assert(call.chosen(walk) =~= seq![name@]);
        } else {
            assert(call.wanted(shorter).len() == 0);
            if call.wants(walk[n - 1].1) {
                assert(call.chosen(walk) =~= seq![name@]);
            } else {
                assert(call.chosen(walk).len() == 0);
                if exists|i: int|
                    0 <= i < walk.len() && (#[trigger] walk[i]).1.user_id == user.id
                        && walk[i].1.guild_id == guild_id && !walk[i].1.executed && walk[i].1.id
                        == name@ {
                    let i = choose|i: int|
                        0 <= i < walk.len() && (#[trigger] walk[i]).1.user_id == user.id
                            && walk[i].1.guild_id == guild_id && !walk[i].1.executed
                            && walk[i].1.id == name@;
                    assert(i < n - 1);
                    assert(shorter[i] == walk[i]);
                }
            }
        }
    }
    let chosen = call.chosen(walk);
    if chosen == seq![name@] {
        assert(chosen.drop_last() =~= Seq::empty());
        assert(chosen.drop_last().filter(present) =~= Seq::empty());
        assert(chosen.last() == name@);
        assert(chosen.filter(present) =~= (if present(name@) {
            seq![name@]
        } else {
            Seq::empty()
        }));
    }
}

/// What is kept under a cancelled identifier is over from then on, and says the same in all else.
/// Whatever is kept under another identifier stays as it is, and so does everything else.
pub proof fn cancelled_is_over_and_nothing_else_changes(
    guild_id: u64,
    user: User,
    enforcement_id: Option<String>,
    before: DataView,
    walk: Walk,
    key: Seq<char>,
)
    ensures
        ({
            let call = appease_view(guild_id, user, enforcement_id);
            let after = call.data(before, walk);
            let (was, is) = (before.pending_enforcements[key], after.pending_enforcements[key]);
            &&& after == AppeaseView::cancelled(before, call.found(before, walk))
            &&& after.pending_enforcements.contains_key(key)
                == before.pending_enforcements.contains_key(key)
            &&& before.pending_enforcements.contains_key(key) ==> {
                &&& is.executed == (was.executed || call.found(before, walk).contains(key))
                &&& is.id == was.id
                &&& is.warning_id == was.warning_id
                &&& is.user_id == was.user_id
                &&& is.guild_id == was.guild_id
                &&& is.action == was.action
                &&& is.execute_at == was.execute_at
            }
            &&& after.guild_defaults == before.guild_defaults
            &&& after.guild_configs == before.guild_configs
            &&& after.user_warning_states == before.user_warning_states
            &&& after.warnings == before.warnings
        }),
{
}

/// With the enforcements kept under their own identifiers, appeasing makes over exactly what was
/// open against the user in the guild, or of that only what bears the name that was given.
pub proof fn appeased_is_what_was_open(
    guild_id: u64,
    user: User,
    enforcement_id: Option<String>,
    before: DataView,
    walk: Walk,
    key: Seq<char>,
)
    requires
        forall|id: Seq<char>| #[trigger]
            before.pending_enforcements.contains_key(id) ==> before.pending_enforcements[id].id
                == id,
        is_walk(walk, before.pending_enforcements),
        before.pending_enforcements.contains_key(key),
    ensures
        ({
            let was = before.pending_enforcements[key];
            let is = appease_view(guild_id, user, enforcement_id).data(
                before,
                walk,
            ).pending_enforcements[key];
            is.executed <==> was.executed || {
                &&& was.user_id == user.id
                &&& was.guild_id == guild_id
                &&& enforcement_id matches Some(name) ==> name@ == key
            }
        }),
{
    appease_is_exact(appease_view(guild_id, user, enforcement_id), before, walk);
}

/// A walk passes what a map holds, each entry once.
pub proof fn walks_pass_what_is_kept(
    walk: Walk,
    map: Map<Seq<char>, PendingView>,
    i: int,
    j: int,
    key: Seq<char>,
)
    requires
        is_walk(walk, map),
    ensures
        0 <= i < walk.len() ==> map.contains_key(walk[i].0) && map[walk[i].0] == walk[i].1,
        0 <= i < walk.len() && 0 <= j < walk.len() && i != j ==> walk[i].0 != walk[j].0,
        map.contains_key(key) ==> exists|k: int|
            0 <= k < walk.len() && (#[trigger] walk[k]).0 == key,
{
}

/// A call that cancels nothing says so and does nothing else. A call that cancels something asks
/// the enforcement task to look at each cancelled enforcement, in their order, then saves, and then
/// reports. All but what it says may fail.
pub proof fn appeasing_is_noted_saved_and_answered(
    guild_id: u64,
    user: User,
    enforcement_id: Option<String>,
    ids: Seq<Seq<char>>,
)
    ensures
        ({
            let script = appease_view(guild_id, user, enforcement_id).script(ids);
            let n = ids.len() as int;
            &&& n == 0 ==> script == seq![
                StepView {
                    effect: EffectView::Say {
                        text: "No pending enforcements found for "@ + user.name@,
                    },
                    on_failure: OnFailureView::Propagate,
                },
            ]
            &&& n > 0 ==> {
                &&& script.len() == n + 2
                &&& forall|i: int|
                    0 <= i < n ==> #[trigger] script[i] == (StepView {
                        effect: EffectView::RequestCheck {
                            request: CheckView::CheckEnforcement { enforcement_id: ids[i] },
                        },
                        on_failure: OnFailureView::Ignore,
                    })
                &&& script[n] == (StepView {
                    effect: EffectView::Save,
                    on_failure: OnFailureView::Ignore,
                })
                &&& script[n + 1].effect is Say
                &&& script[n + 1].on_failure is Propagate
            }
        }),
{
}

/// The reply to a call that cancels something grows by one line with each cancelled enforcement:
/// the line that says which one was cancelled, and for whom.
pub proof fn reply_has_a_line_for_each(
    guild_id: u64,
    user: User,
    enforcement_id: Option<String>,
    ids: Seq<Seq<char>>,
    id: Seq<char>,
)
    ensures
        ({
            let call = appease_view(guild_id, user, enforcement_id);
            let line = "Canceled enforcement ID "@ + id + " for "@ + user.name@ + "\n"@;
            let reply = call.script(ids.push(id)).last().effect->Say_text;
            &&& ids.len() == 0 ==> reply == line
            &&& ids.len() > 0 ==> reply == call.script(ids).last().effect->Say_text + line
        }),
{
    let call = appease_view(guild_id, user, enforcement_id);
    let line = "Canceled enforcement ID "@ + id + " for "@ + user.name@ + "\n"@;
    assert(ids.push(id).drop_last() =~= ids);
    assert(report(ids.push(id), user.name@) == report(ids, user.name@) + line);
    if ids.len() == 0 {
        assert(report(ids.push(id), user.name@) =~= line);
    }
}

/// The reply to a call that cancels something names each cancelled enforcement, in a line of its
/// own, and never begins as the reply to a call that finds nothing.
pub proof fn reply_names_what_was_cancelled(
    guild_id: u64,
    user: User,
    enforcement_id: Option<String>,
    ids: Seq<Seq<char>>,
    i: int,
)
    requires
        0 <= i < ids.len(),
    ensures
        ({
            let reply = appease_view(guild_id, user, enforcement_id).script(
                ids,
            ).last().effect->Say_text;
            let line = "Canceled enforcement ID "@ + ids[i] + " for "@ + user.name@ + "\n"@;
            &&& exists|start: int|
                0 <= start <= reply.len() - line.len() && #[trigger] reply.subrange(
                    start,
                    start + line.len(),
                ) == line
            &&& reply[0] == 'C'
            &&& "No pending enforcements found for "@[0] == 'N'
        }),
    decreases ids.len(),
{
    let call = appease_view(guild_id, user, enforcement_id);
    let rest = ids.drop_last();
    let id = ids.last();
    let reply = call.script(ids).last().effect->Say_text;
    let last = "Canceled enforcement ID "@ + id + " for "@ + user.name@ + "\n"@;
    let line = "Canceled enforcement ID "@ + ids[i] + " for "@ + user.name@ + "\n"@;
    reveal_strlit("Canceled enforcement ID ");
    reveal_strlit("No pending enforcements found for ");
    assert(last[0] == 'C');
    assert(rest.push(id) =~= ids);
    reply_has_a_line_for_each(guild_id, user, enforcement_id, rest, id);
    if rest.len() == 0 {
        let start: int = 0;
        assert(reply.subrange(start, start + line.len()) =~= line);
    } else {
        let earlier = call.script(rest).last().effect->Say_text;
        if i == ids.len() - 1 {
            reply_names_what_was_cancelled(guild_id, user, enforcement_id, rest, 0);
            let start = earlier.len() as int;
            assert(reply.subrange(start, start + line.len()) =~= line);
        } else {
            reply_names_what_was_cancelled(guild_id, user, enforcement_id, rest, i);
            let start = choose|start: int|
                0 <= start <= earlier.len() - line.len() && #[trigger] earlier.subrange(
                    start,
                    start + line.len(),
                ) == line;
            assert(reply.subrange(start, start + line.len()) =~= earlier.subrange(
                start,
                start + line.len(),
            ));
        }
        assert(earlier.len() > 0);
        assert(reply[0] == earlier[0]);
    }
}

} // verus!
