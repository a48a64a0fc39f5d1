//! Cancelling everything at once and cancelling one enforcement after the other.

use crate::commands::appeasement::{
    cancellation, is_walk, report, report_line, AppeaseView, Walk,
};
use crate::laws::memory::{appease_is_exact, appease_reports_once};
use crate::messages::EffectView;
use crate::script::{ignoring, say, StepView};
use crate::store::DataView;
use vstd::prelude::*;

verus! {

/// A call that names one enforcement.
pub open spec fn naming(call: AppeaseView, id: Seq<char>) -> AppeaseView {
    AppeaseView { enforcement_id: Some(id), ..call }
}

/// What the daemon remembers after one call for each identifier, in their order, with the walk of
/// each call.
pub open spec fn data_in_turn(
    call: AppeaseView,
    before: DataView,
    ids: Seq<Seq<char>>,
    walks: Seq<Walk>,
) -> DataView
    decreases ids.len(),
{
    if ids.len() == 0 {
        before
    } else {
        naming(call, ids.last()).data(
            data_in_turn(call, before, ids.drop_last(), walks.drop_last()),
            walks.last(),
        )
    }
}

/// Whether each walk is one through the enforcements as its call finds them.
pub open spec fn walks_in_turn(
    call: AppeaseView,
    before: DataView,
    ids: Seq<Seq<char>>,
    walks: Seq<Walk>,
) -> bool
    decreases ids.len(),
{
    if ids.len() == 0 {
        walks.len() == 0
    } else {
        &&& walks.len() == ids.len()
        &&& walks_in_turn(call, before, ids.drop_last(), walks.drop_last())
        &&& is_walk(
            walks.last(),
            data_in_turn(
                call,
                before,
                ids.drop_last(),
                walks.drop_last(),
            ).pending_enforcements,
        )
    }
}

/// The steps of all those calls, one call after the other.
pub open spec fn script_in_turn(
    call: AppeaseView,
    before: DataView,
    ids: Seq<Seq<char>>,
    walks: Seq<Walk>,
) -> Seq<StepView>
    decreases ids.len(),
{
    if ids.len() == 0 {
        Seq::empty()
    } else {
        let earlier = data_in_turn(call, before, ids.drop_last(), walks.drop_last());
        let last = naming(call, ids.last());
        script_in_turn(call, before, ids.drop_last(), walks.drop_last()) + last.script(
            last.found(earlier, walks.last()),
        )
    }
}

/// The steps that reach the enforcement task.
pub open spec fn requests(script: Seq<StepView>) -> Seq<StepView> {
    script.filter(|step: StepView| step.effect is RequestCheck)
}

/// All that a script says, put together.
pub open spec fn said(script: Seq<StepView>) -> Seq<char>
    decreases script.len(),
{
    if script.len() == 0 {
        Seq::empty()
    } else {
        said(script.drop_last()) + match script.last().effect {
            EffectView::Say { text } => text,
            _ => Seq::empty(),
        }
    }
}

/// The lines of a report.
pub open spec fn report_lines(ids: Seq<Seq<char>>, user_name: Seq<char>) -> Seq<Seq<char>> {
    ids.map_values(|id: Seq<char>| report_line(id, user_name))
}

/// A report is its lines, one after the other.
proof fn lemma_report_is_lines(ids: Seq<Seq<char>>, user_name: Seq<char>)
    ensures
        report(ids, user_name) == report_lines(ids, user_name).flatten(),
    decreases ids.len(),
{
    let lines = report_lines(ids, user_name);
    if ids.len() > 0 {
        lemma_report_is_lines(ids.drop_last(), user_name);
        assert(lines.drop_last() =~= report_lines(ids.drop_last(), user_name));
        lines.lemma_flatten_and_flatten_alt_are_equivalent();
        lines.drop_last().lemma_flatten_and_flatten_alt_are_equivalent();
        assert(lines.flatten_alt() == lines.drop_last().flatten_alt() + lines.last());
    } else {
        assert(lines.flatten() =~= Seq::empty());
    }
}

/// Two scripts after each other say what they say, after each other.
proof fn lemma_said_of_both(first: Seq<StepView>, second: Seq<StepView>)
    ensures
        said(first + second) == said(first) + said(second),
    decreases second.len(),
{
    if second.len() > 0 {
        lemma_said_of_both(first, second.drop_last());
        assert((first + second).drop_last() =~= first + second.drop_last());
        assert(said(first + second) =~= said(first) + said(second));
    } else {
        assert(first + second =~= first);
        assert(said(first + second) =~= said(first) + said(second));
    }
}

/// Telling the enforcement task is all requests and says nothing.
proof fn lemma_notes(ids: Seq<Seq<char>>)
    ensures
        requests(AppeaseView::notes(ids)) == AppeaseView::notes(ids),
        said(AppeaseView::notes(ids)) == Seq::<char>::empty(),
    decreases ids.len(),
{
    let notes = AppeaseView::notes(ids);
    reveal(Seq::filter);
    if ids.len() > 0 {
        lemma_notes(ids.drop_last());
        assert(notes.drop_last() =~= AppeaseView::notes(ids.drop_last()));
        assert(notes.last() == cancellation(ids.last()));
        assert(requests(notes) =~= notes);
        assert(said(notes) =~= Seq::empty());
    } else {
        assert(requests(notes) =~= notes);
    }
}

/// What the steps of a call ask of the enforcement task and say, where it cancels something.
proof fn lemma_script(call: AppeaseView, ids: Seq<Seq<char>>)
    requires
        ids.len() > 0,
    ensures
        requests(call.script(ids)) == AppeaseView::notes(ids),
        said(call.script(ids)) == report(ids, call.user_name),
{
    let text = report(ids, call.user_name);
    let end = seq![ignoring(EffectView::Save), say(text)];
    let asks = |step: StepView| step.effect is RequestCheck;
    lemma_notes(ids);
    Seq::filter_distributes_over_add(AppeaseView::notes(ids), end, asks);
    lemma_said_of_both(AppeaseView::notes(ids), end);
    reveal(Seq::filter);
    assert(end.drop_last() =~= seq![ignoring(EffectView::Save)]);
    assert(end.drop_last().drop_last() =~= Seq::empty());
    assert(end.drop_last().drop_last().filter(asks) =~= Seq::empty());
    assert(end.drop_last().filter(asks) =~= Seq::empty());
    assert(end.filter(asks) =~= Seq::empty());
    assert(said(end.drop_last().drop_last()) =~= Seq::empty());
    assert(said(end.drop_last()) =~= Seq::empty());
    assert(said(end) =~= text);
    assert(requests(call.script(ids)) =~= AppeaseView::notes(ids));
    assert(said(call.script(ids)) =~= text);
}

/// The state after some enforcements were cancelled: an enforcement that is not among them is as
/// open as it was, and a call that names it cancels it and no other.
proof fn lemma_turn(
    call: AppeaseView,
    before: DataView,
    ids: Seq<Seq<char>>,
    id: Seq<char>,
    walk: Walk,
)
    requires
        before.filed(),
        before.pending_enforcements.contains_key(id),
        call.open_against(before.pending_enforcements[id]),
        !ids.contains(id),
        is_walk(walk, AppeaseView::cancelled(before, ids).pending_enforcements),
    ensures
        naming(call, id).found(AppeaseView::cancelled(before, ids), walk) == seq![id],
        naming(call, id).data(AppeaseView::cancelled(before, ids), walk)
            == AppeaseView::cancelled(before, ids.push(id)),
{
    let earlier = AppeaseView::cancelled(before, ids);
    let named = naming(call, id);
    let found = named.found(earlier, walk);
    assert(earlier.filed());
    appease_is_exact(named, earlier, walk);
    appease_reports_once(named, earlier, walk);
    assert(found.contains(id));
    assert forall|i: int| 0 <= i < found.len() implies found[i] == id by {
        assert(found.contains(found[i]));
    }
    if found.len() > 1 {
        assert(found[0] == found[1]);
    }
    assert(found =~= seq![id]);
    let more = ids.push(id);
    assert forall|key: Seq<char>| #[trigger] more.contains(key) <==> ids.contains(key) || key
        == id by {
        assert(more[ids.len() as int] == id);
        if ids.contains(key) {
            let k = choose|k: int| 0 <= k < ids.len() && ids[k] == key;
            assert(more[k] == key);
        }
    }
    assert(seq![id].contains(id)) by {
        assert(seq![id][0] == id);
    }
    assert(named.data(earlier, walk).pending_enforcements =~= AppeaseView::cancelled(
        before,
        more,
    ).pending_enforcements);
}

/// Cancelling distinct open enforcements in turn cancels all of them, asks the enforcement task for
/// each and reports each, in their order.
proof fn lemma_in_turn(
    call: AppeaseView,
    before: DataView,
    ids: Seq<Seq<char>>,
    walks: Seq<Walk>,
)
    requires
        before.filed(),
        ids.no_duplicates(),
        forall|i: int|
            0 <= i < ids.len() ==> before.pending_enforcements.contains_key(#[trigger] ids[i])
                && call.open_against(before.pending_enforcements[ids[i]]),
        walks_in_turn(call, before, ids, walks),
    ensures
        data_in_turn(call, before, ids, walks) == AppeaseView::cancelled(before, ids),
        requests(script_in_turn(call, before, ids, walks)) == AppeaseView::notes(ids),
        said(script_in_turn(call, before, ids, walks)) == report(ids, call.user_name),
    decreases ids.len(),
{
    let script = script_in_turn(call, before, ids, walks);
    if ids.len() == 0 {
        reveal(Seq::filter);
        assert(requests(script) =~= AppeaseView::notes(ids));
        assert(AppeaseView::cancelled(before, ids).pending_enforcements
            =~= before.pending_enforcements);
    } else {
        let rest = ids.drop_last();
        let id = ids.last();
        lemma_in_turn(call, before, rest, walks.drop_last());
        if rest.contains(id) {
            let k = choose|k: int| 0 <= k < rest.len() && rest[k] == id;
            assert(ids[k] == ids[ids.len() - 1]);
        }
        assert(ids[ids.len() - 1] == id);
        lemma_turn(call, before, rest, id, walks.last());
        assert(rest.push(id) =~= ids);
        let earlier = script_in_turn(call, before, rest, walks.drop_last());
        let last = naming(call, id).script(seq![id]);
        lemma_script(naming(call, id), seq![id]);
        lemma_said_of_both(earlier, last);
        Seq::filter_distributes_over_add(
            earlier,
            last,
            |step: StepView| step.effect is RequestCheck,
        );
        assert(requests(script) =~= AppeaseView::notes(ids));
        assert(seq![id].drop_last() =~= Seq::empty());
        reveal_with_fuel(report, 2);
        assert(report(seq![id], call.user_name) =~= report_line(id, call.user_name));
    }
}

/// Sequences of the same elements are still so once each element is mapped.
proof fn lemma_map_permutes<A, B>(first: Seq<A>, second: Seq<A>, f: spec_fn(A) -> B)
    requires
        first.to_multiset() == second.to_multiset(),
    ensures
        first.map_values(f).to_multiset() == second.map_values(f).to_multiset(),
    decreases first.len(),
{
    first.to_multiset_ensures();
    second.to_multiset_ensures();
    if first.len() == 0 {
        assert(second.len() == 0);
        assert(first.map_values(f) =~= second.map_values(f));
    } else {
        let rest = first.drop_last();
        let last = first.last();
        assert(rest.push(last) =~= first);
        rest.to_multiset_ensures();
        rest.map_values(f).to_multiset_ensures();
        second.map_values(f).to_multiset_ensures();
        assert(first.to_multiset().count(last) > 0);
        assert(second.contains(last));
        let k = choose|k: int| 0 <= k < second.len() && second[k] == last;
        let other = second.remove(k);
        assert(rest.to_multiset() =~= first.to_multiset().remove(last));
        lemma_map_permutes(rest, other, f);
        assert(first.map_values(f) =~= rest.map_values(f).push(f(last)));
        assert(second.map_values(f).remove(k) =~= other.map_values(f));
        assert(second.map_values(f)[k] == f(last));
        assert(second.map_values(f).contains(f(last)));
        assert(second.map_values(f).to_multiset() =~= other.map_values(f).to_multiset().insert(
            f(last),
        ));
    }
}

/// Distinct sequences of the same elements are permutations of each other.
proof fn lemma_distinct_permute(first: Seq<Seq<char>>, second: Seq<Seq<char>>)
    requires
        first.no_duplicates(),
        second.no_duplicates(),
        forall|id: Seq<char>| #[trigger] first.contains(id) <==> second.contains(id),
    ensures
        first.to_multiset() == second.to_multiset(),
{
    broadcast use vstd::seq_lib::group_to_multiset_ensures;

    first.lemma_multiset_has_no_duplicates();
    second.lemma_multiset_has_no_duplicates();
    assert forall|id: Seq<char>|
        first.to_multiset().count(id) == second.to_multiset().count(id) by {
        assert(first.contains(id) <==> second.contains(id));
    }
    assert(first.to_multiset() =~= second.to_multiset());
}

/// With the enforcements kept under their own identifiers, cancelling all that is open against a
/// user at once, and cancelling each of them by its name, in any order, come to the same. The
/// daemon remembers the same, and the requests to the enforcement task are the same up to their
/// order. Where anything was open, the reply of the one call and the replies of the others, put
/// together, consist of the same lines up to their order.
pub proof fn all_at_once_is_one_by_one(
    call: AppeaseView,
    before: DataView,
    walk: Walk,
    ids: Seq<Seq<char>>,
    walks: Seq<Walk>,
)
    requires
        before.filed(),
        call.enforcement_id is None,
        is_walk(walk, before.pending_enforcements),
        ids.no_duplicates(),
        forall|id: Seq<char>| #[trigger]
            ids.contains(id) <==> before.pending_enforcements.contains_key(id)
                && call.open_against(before.pending_enforcements[id]),
        walks_in_turn(call, before, ids, walks),
    ensures
        ({
            let at_once = call.script(call.found(before, walk));
            let in_turn = script_in_turn(call, before, ids, walks);
            let lines = report_lines(call.found(before, walk), call.user_name);
            &&& data_in_turn(call, before, ids, walks) == call.data(before, walk)
            &&& requests(in_turn).to_multiset() == requests(at_once).to_multiset()
            &&& ids.len() > 0 ==> said(at_once) == lines.flatten()
            &&& said(in_turn) == report_lines(ids, call.user_name).flatten()
            &&& report_lines(ids, call.user_name).to_multiset() == lines.to_multiset()
        }),
{
    let found = call.found(before, walk);
    appease_is_exact(call, before, walk);
    appease_reports_once(call, before, walk);
    assert forall|id: Seq<char>| #[trigger] ids.contains(id) <==> found.contains(id) by {}
    lemma_distinct_permute(ids, found);
    assert forall|i: int| 0 <= i < ids.len() implies before.pending_enforcements.contains_key(
        #[trigger] ids[i],
    ) && call.open_against(before.pending_enforcements[ids[i]]) by {
        assert(ids.contains(ids[i]));
    }
    lemma_in_turn(call, before, ids, walks);
    lemma_report_is_lines(ids, call.user_name);
    lemma_report_is_lines(found, call.user_name);
    lemma_map_permutes(ids, found, |id: Seq<char>| report_line(id, call.user_name));
    lemma_map_permutes(ids, found, |id: Seq<char>| cancellation(id));
    assert(AppeaseView::cancelled(before, ids).pending_enforcements
        =~= call.data(before, walk).pending_enforcements);
    if found.len() > 0 {
        assert(found.contains(found[0]));
        assert(ids.contains(found[0]));
        lemma_script(call, found);
    } else {
        if ids.len() > 0 {
            assert(ids.contains(ids[0]));
        }
        reveal(Seq::filter);
        let at_once = call.script(found);
        assert(at_once.drop_last() =~= Seq::empty());
        assert(at_once.drop_last().filter(|step: StepView| step.effect is RequestCheck)
            =~= Seq::empty());
        assert(requests(at_once) =~= Seq::empty());
        assert(AppeaseView::notes(ids) =~= Seq::empty());
    }
}

} // verus!
