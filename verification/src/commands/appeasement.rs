//! `appease`: an administrator cancels what is pending against a user.

use crate::actions::word_view;
use crate::commands::{require_guild, CommandError, User};
use crate::messages::{CheckView, Effect, EffectView, EnforcementCheckRequest};
use crate::records::{PendingEnforcement, PendingView};
use crate::script::{ignoring, say, Script, Step, StepView};
use crate::store::{get_pending, insert_pending, walk_pending, Data, DataView};
use vstd::prelude::*;
use vstd::string::*;

verus! {

/// A call of `appease` from a guild.
pub struct AppeaseView {
    pub guild_id: u64,
    pub user_id: u64,
    pub user_name: Seq<char>,
    pub enforcement_id: Option<Seq<char>>,
}

/// The pending enforcements in the order in which they are looked through, with their keys.
pub type Walk = Seq<(Seq<char>, PendingView)>;

/// Whether a walk passes every entry of a map once.
pub open spec fn is_walk(walk: Walk, map: Map<Seq<char>, PendingView>) -> bool {
    &&& forall|i: int|
        0 <= i < walk.len() ==> map.contains_key((#[trigger] walk[i]).0) && map[walk[i].0]
            == walk[i].1
    &&& forall|i: int, j: int|
        0 <= i < j < walk.len() ==> (#[trigger] walk[i]).0 != (#[trigger] walk[j]).0
    &&& forall|key: Seq<char>| #[trigger]
        map.contains_key(key) ==> exists|i: int|
            0 <= i < walk.len() && (#[trigger] walk[i]).0 == key
}

/// An enforcement that is over.
pub open spec fn over(pending: PendingView) -> PendingView {
    PendingView { executed: true, ..pending }
}

/// The step that tells the enforcement task of a cancelled enforcement.
pub open spec fn cancellation(id: Seq<char>) -> StepView {
    ignoring(
        EffectView::RequestCheck { request: CheckView::CheckEnforcement { enforcement_id: id } },
    )
}

/// The line that reports a cancelled enforcement.
pub open spec fn report_line(id: Seq<char>, user_name: Seq<char>) -> Seq<char> {
    "Canceled enforcement ID "@ + id + " for "@ + user_name + "\n"@
}

/// The lines that report cancelled enforcements.
pub open spec fn report(ids: Seq<Seq<char>>, user_name: Seq<char>) -> Seq<char>
    decreases ids.len(),
{
    if ids.len() == 0 {
        Seq::empty()
    } else {
        report(ids.drop_last(), user_name) + report_line(ids.last(), user_name)
    }
}

impl AppeaseView {
    /// Whether an enforcement is open against the user in the guild.
    pub open spec fn open_against(self, pending: PendingView) -> bool {
        &&& pending.user_id == self.user_id
        &&& pending.guild_id == self.guild_id
        &&& !pending.executed
    }

    /// Whether the call asks for an enforcement to be cancelled.
    pub open spec fn wants(self, pending: PendingView) -> bool {
        &&& self.open_against(pending)
        &&& self.enforcement_id matches Some(id) ==> pending.id == id
    }

    /// The identifiers of the enforcements that the call asks for, in the order of the walk.
    pub open spec fn wanted(self, walk: Walk) -> Seq<Seq<char>> {
        walk.filter(|entry: (Seq<char>, PendingView)| self.wants(entry.1)).map_values(
            |entry: (Seq<char>, PendingView)| entry.1.id,
        )
    }

    /// The identifiers of the enforcements to cancel: of all that are open against the user, or,
    /// where one is named, of the first that bears the name.
    pub open spec fn chosen(self, walk: Walk) -> Seq<Seq<char>> {
        if self.enforcement_id is Some && self.wanted(walk).len() > 1 {
            self.wanted(walk).take(1)
        } else {
            self.wanted(walk)
        }
    }

    /// The chosen identifiers under which an enforcement is kept.
    pub open spec fn found(self, before: DataView, walk: Walk) -> Seq<Seq<char>> {
        self.chosen(walk).filter(|id: Seq<char>| before.pending_enforcements.contains_key(id))
    }

    /// What the daemon remembers once the enforcements under the given identifiers are cancelled.
    pub open spec fn cancelled(before: DataView, ids: Seq<Seq<char>>) -> DataView {
        DataView {
            pending_enforcements: before.pending_enforcements.map_entries(
                |id: Seq<char>, pending: PendingView|
                    if ids.contains(id) {
                        over(pending)
                    } else {
                        pending
                    },
            ),
            ..before
        }
    }

    /// What the daemon remembers afterwards.
    pub open spec fn data(self, before: DataView, walk: Walk) -> DataView {
        AppeaseView::cancelled(before, self.found(before, walk))
    }

    /// The steps that tell the enforcement task of cancelled enforcements.
    pub open spec fn notes(ids: Seq<Seq<char>>) -> Seq<StepView> {
        ids.map_values(|id: Seq<char>| cancellation(id))
    }

    /// The steps of the command for the enforcements that were cancelled.
    pub open spec fn script(self, ids: Seq<Seq<char>>) -> Seq<StepView> {
        if ids.len() == 0 {
            seq![say("No pending enforcements found for "@ + self.user_name)]
        } else {
            AppeaseView::notes(ids) + seq![
                ignoring(EffectView::Save),
                say(report(ids, self.user_name)),
            ]
        }
    }
}

/// The call of `appease` with the given arguments from a guild.
pub open spec fn appease_view(guild_id: u64, user: User, enforcement_id: Option<String>)
    -> AppeaseView {
    AppeaseView {
        guild_id,
        user_id: user.id,
        user_name: user.name@,
        enforcement_id: word_view(enforcement_id),
    }
}

/// The walk that a vector of entries spells out.
pub open spec fn walk_view(entries: Seq<(String, PendingEnforcement)>) -> Walk {
    entries.map_values(|entry: (String, PendingEnforcement)| (entry.0@, entry.1@))
}

/// The identifiers that a vector of texts spells out.
pub open spec fn ids_view(ids: Seq<String>) -> Seq<Seq<char>> {
    ids.map_values(|id: String| id@)
}

/// One entry more on a walk is one identifier more that is wanted, or none.
pub proof fn lemma_wanted_step(call: AppeaseView, walk: Walk, i: int)
    requires
        0 <= i < walk.len(),
    ensures
        call.wanted(walk.take(i + 1)) == (if call.wants(walk[i].1) {
            call.wanted(walk.take(i)).push(walk[i].1.id)
        } else {
            call.wanted(walk.take(i))
        }),
{
    let keep = |entry: (Seq<char>, PendingView)| call.wants(entry.1);
    assert(walk.take(i + 1).drop_last() =~= walk.take(i));
    reveal(Seq::filter);
    assert(walk.take(i + 1).filter(keep) == (if keep(walk[i]) {
        walk.take(i).filter(keep).push(walk[i])
    } else {
        walk.take(i).filter(keep)
    }));
    assert(call.wanted(walk.take(i + 1)) =~= (if call.wants(walk[i].1) {
        call.wanted(walk.take(i)).push(walk[i].1.id)
    } else {
        call.wanted(walk.take(i))
    }));
}

/// Chooses the enforcements to cancel.
pub fn choose_pending(
    guild_id: u64,
    user: &User,
    enforcement_id: &Option<String>,
    entries: &Vec<(String, PendingEnforcement)>,
) -> (ids: Vec<String>)
    ensures
        ids_view(ids@) == appease_view(guild_id, *user, *enforcement_id).chosen(
            walk_view(entries@),
        ),
{
    let ghost call = appease_view(guild_id, *user, *enforcement_id);
    let ghost walk = walk_view(entries@);
    let mut ids: Vec<String> = Vec::new();
    proof {
        reveal(Seq::filter);
        assert(ids_view(ids@) =~= call.chosen(walk.take(0)));
    }
    let mut i: usize = 0;
    while i < entries.len()
        invariant
            i <= entries@.len(),
            walk == walk_view(entries@),
            call == appease_view(guild_id, *user, *enforcement_id),
            ids_view(ids@) == call.chosen(walk.take(i as int)),
        decreases entries.len() - i,
    {
        let pending = &entries[i].1;
        let ghost before = ids@;
        proof {
            assert(walk[i as int].1 == pending@);
            lemma_wanted_step(call, walk, i as int);
        }
        if pending.user_id == user.id && pending.guild_id == guild_id && !pending.executed {
            let wanted = match enforcement_id {
                Some(id) => pending.id == *id && ids.len() == 0,
                None => true,
            };
            if wanted {
                ids.push(pending.id.clone());
                assert(ids_view(ids@) =~= ids_view(before).push(pending.id@));
            }
        }
        assert(ids_view(ids@) =~= call.chosen(walk.take(i + 1)));
        i += 1;
    }
    assert(walk.take(walk.len() as int) =~= walk);
    ids
}

/// Cancelling one enforcement more marks one entry more as over.
proof fn lemma_cancelled_step(before: DataView, ids: Seq<Seq<char>>, id: Seq<char>)
    requires
        before.pending_enforcements.contains_key(id),
    ensures
        AppeaseView::cancelled(before, ids.push(id)).pending_enforcements
            == AppeaseView::cancelled(before, ids).pending_enforcements.insert(
            id,
            over(AppeaseView::cancelled(before, ids).pending_enforcements[id]),
        ),
{
    let fewer = AppeaseView::cancelled(before, ids).pending_enforcements;
    let more = AppeaseView::cancelled(before, ids.push(id)).pending_enforcements;
    assert forall|key: Seq<char>| before.pending_enforcements.contains_key(key) implies
        #[trigger] more[key] == fewer.insert(id, over(fewer[id]))[key] by {
        assert(ids.push(id)[ids.len() as int] == id);
        if ids.contains(key) {
            let k = choose|k: int| 0 <= k < ids.len() && ids[k] == key;
            assert(ids.push(id)[k] == key);
        } else if key != id {
            assert(!ids.push(id).contains(key));
        }
    }
    assert(more =~= fewer.insert(id, over(fewer[id])));
}

/// Cancels what is pending against a user, with the pending enforcements given in the order in
/// which they are looked through.
pub fn appease_walked(
    data: &mut Data,
    guild_id: u64,
    user: &User,
    enforcement_id: &Option<String>,
    entries: &Vec<(String, PendingEnforcement)>,
) -> (script: Script)
    ensures
        ({
            let call = appease_view(guild_id, *user, *enforcement_id);
            let found = call.found(old(data)@, walk_view(entries@));
            &&& final(data)@ == AppeaseView::cancelled(old(data)@, found)
            &&& script@ == call.script(found)
        }),
{
    let ghost call = appease_view(guild_id, *user, *enforcement_id);
    let ghost before = data@;
    let ghost present = |id: Seq<char>| before.pending_enforcements.contains_key(id);
    let ids = choose_pending(guild_id, user, enforcement_id, entries);
    let ghost chosen = ids_view(ids@);
    let ghost mut found: Seq<Seq<char>> = Seq::empty();
    let mut script = Script::new();
    let mut response = String::new();
    let mut canceled = false;
    proof {
        reveal(Seq::filter);
        assert(chosen.take(0).filter(present) =~= found);
        assert(data@ =~= AppeaseView::cancelled(before, found));
        assert(script@ =~= AppeaseView::notes(found));
    }
    let mut i: usize = 0;
    while i < ids.len()
        invariant
            i <= ids@.len(),
            call == appease_view(guild_id, *user, *enforcement_id),
            chosen == ids_view(ids@),
            present == (|id: Seq<char>| before.pending_enforcements.contains_key(id)),
            found == chosen.take(i as int).filter(present),
            canceled == (found.len() > 0),
            data@ == AppeaseView::cancelled(before, found),
            script@ == AppeaseView::notes(found),
            response@ == report(found, call.user_name),
        decreases ids.len() - i,
    {
        let id = &ids[i];
        proof {
            assert(chosen[i as int] == id@);
            assert(chosen.take(i + 1).drop_last() =~= chosen.take(i as int));
            reveal(Seq::filter);
            assert(chosen.take(i + 1).filter(present) == (if present(id@) {
                found.push(id@)
            } else {
                found
            }));
        }
        if let Some(mut pending) = get_pending(&data.pending_enforcements, id) {
            pending.executed = true;
            insert_pending(&mut data.pending_enforcements, id.clone(), pending);
            canceled = true;
            response.append("Canceled enforcement ID ");
            response.append(id.as_str());
            response.append(" for ");
            response.append(user.name.as_str());
            response.append("\n");
            let request = EnforcementCheckRequest::CheckEnforcement { enforcement_id: id.clone() };
            script.add(Step::ignoring(Effect::RequestCheck { request }));
            proof {
                lemma_cancelled_step(before, found, id@);
                assert(found.push(id@).drop_last() =~= found);
                assert(response@ =~= report(found, call.user_name) + report_line(
                    id@,
                    call.user_name,
                ));
                assert(script@ =~= AppeaseView::notes(found.push(id@)));
                found = found.push(id@);
                assert(data@ =~= AppeaseView::cancelled(before, found));
            }
        }
        i += 1;
    }
    assert(chosen.take(chosen.len() as int) =~= chosen);
    if canceled {
        script.add(Step::ignoring(Effect::Save));
        script.add(Step::say(response));
    } else {
        let mut text = "No pending enforcements found for ".to_owned();
        text.append(user.name.as_str());
        script.add(Step::say(text));
    }
    assert(script@ =~= call.script(found));
    script
}

/// Cancels what is pending against a user in a guild: everything, or the one enforcement that is
/// named.
pub fn appease(
    data: &mut Data,
    guild_id: Option<u64>,
    user: &User,
    enforcement_id: Option<String>,
) -> (result: Result<Script, CommandError>)
    ensures
        match guild_id {
            None => result == Err::<Script, CommandError>(CommandError::NotInGuild) && final(data)@
                == old(data)@,
            Some(guild_id) => {
                let call = appease_view(guild_id, *user, enforcement_id);
                &&& result is Ok
                &&& exists|walk: Walk| #[trigger]
                    is_walk(walk, old(data)@.pending_enforcements) && final(data)@ == call.data(
                        old(data)@,
                        walk,
                    ) && result->Ok_0@ == call.script(call.found(old(data)@, walk))
            },
        },
{
    match require_guild(guild_id) {
        Ok(guild_id) => {
            let entries = walk_pending(&data.pending_enforcements);
            let ghost walk = walk_view(entries@);
            proof {
                let map = data@.pending_enforcements;
                assert forall|key: Seq<char>| #[trigger] map.contains_key(key) implies exists|
                    i: int,
                |
                    0 <= i < walk.len() && (#[trigger] walk[i]).0 == key by {
                    let i = choose|i: int|
                        0 <= i < entries@.len() && #[trigger] entries@[i].0@ == key;
                    assert(walk[i].0 == key);
                }
                assert(is_walk(walk, map));
            }
            Ok(appease_walked(data, guild_id, user, &enforcement_id, &entries))
        },
        Err(error) => Err(error),
    }
}

} // verus!
