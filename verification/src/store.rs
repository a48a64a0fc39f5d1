//! Where the records are kept: concurrent hash maps of the `dashmap` crate.
//!
//! A `DashMap` blocks a caller that still holds a guard into it. The functions here that only read
//! a map are reached from functions that borrow the whole of [`Data`] exclusively, so that no such
//! guard can be alive.

use crate::levels::{ChaosFactor, DEFAULT_CHAOS};
use crate::records::{
    GuildConfig, PendingEnforcement, PendingView, UserWarningState, UserWarningStateView, Warning,
    WarningView,
};
use crate::text::{decimal, decimal_text};
use dashmap::DashMap;
use vstd::prelude::*;
use vstd::string::*;

verus! {

/// The concurrent hash map of the `dashmap` crate.
#[verifier::external_type_specification]
#[verifier::external_body]
#[verifier::reject_recursive_types(K)]
#[verifier::reject_recursive_types(V)]
#[verifier::reject_recursive_types(S)]
pub struct ExDashMap<K, V, S>(dashmap::DashMap<K, V, S>);

/// The settings that a map of guild settings holds, by guild.
pub uninterp spec fn configs_in(map: DashMap<u64, GuildConfig>) -> Map<u64, GuildConfig>;

/// The standings that a map of user standings holds, by key.
pub uninterp spec fn states_in(map: DashMap<String, UserWarningState>) -> Map<
    Seq<char>,
    UserWarningStateView,
>;

/// The warnings that a map of warnings holds, by identifier.
pub uninterp spec fn warnings_in(map: DashMap<String, Warning>) -> Map<Seq<char>, WarningView>;

/// The enforcements that a map of pending enforcements holds, by identifier.
pub uninterp spec fn pending_in(map: DashMap<String, PendingEnforcement>) -> Map<
    Seq<char>,
    PendingView,
>;

/// Looks up a guild's settings: `DashMap::get`, with the entry copied out.
#[verifier::external_body]
pub(crate) fn get_config(map: &DashMap<u64, GuildConfig>, guild_id: u64) -> (found: Option<
    GuildConfig,
>)
    ensures
        found == (if configs_in(*map).contains_key(guild_id) {
            Some(configs_in(*map)[guild_id])
        } else {
            None
        }),
{
    map.get(&guild_id).map(|entry| *entry.value())
}

/// Stores a guild's settings: `DashMap::insert`, which replaces what the key held before.
#[verifier::external_body]
pub(crate) fn insert_config(map: &mut DashMap<u64, GuildConfig>, guild_id: u64, config: GuildConfig)
    ensures
        configs_in(*final(map)) == configs_in(*old(map)).insert(guild_id, config),
{
    map.insert(guild_id, config);
}

/// Stores a user's standing: `DashMap::insert`, which replaces what the key held before.
#[verifier::external_body]
pub(crate) fn insert_state(
    map: &mut DashMap<String, UserWarningState>,
    key: String,
    state: UserWarningState,
)
    ensures
        states_in(*final(map)) == states_in(*old(map)).insert(key@, state@),
{
    map.insert(key, state);
}

/// Stores a warning: `DashMap::insert`, which replaces what the key held before.
#[verifier::external_body]
pub(crate) fn insert_warning(map: &mut DashMap<String, Warning>, id: String, warning: Warning)
    ensures
        warnings_in(*final(map)) == warnings_in(*old(map)).insert(id@, warning@),
{
    map.insert(id, warning);
}

/// Stores a pending enforcement: `DashMap::insert`, which replaces what the key held before.
#[verifier::external_body]
pub(crate) fn insert_pending(
    map: &mut DashMap<String, PendingEnforcement>,
    id: String,
    pending: PendingEnforcement,
)
    ensures
        pending_in(*final(map)) == pending_in(*old(map)).insert(id@, pending@),
{
    map.insert(id, pending);
}

/// Looks up a pending enforcement: `DashMap::get`, with the entry copied out.
#[verifier::external_body]
pub(crate) fn get_pending(map: &DashMap<String, PendingEnforcement>, id: &String) -> (found:
    Option<PendingEnforcement>)
    ensures
        found is Some <==> pending_in(*map).contains_key(id@),
        found matches Some(pending) ==> pending@ == pending_in(*map)[id@],
{
    map.get(id).map(|entry| entry.value().clone())
}

/// Hands out the pending enforcements with their keys: iteration over a `DashMap`, with each
/// entry copied out. Every entry comes once; the order is the map's own.
#[verifier::external_body]
pub(crate) fn walk_pending(map: &DashMap<String, PendingEnforcement>) -> (entries: Vec<
    (String, PendingEnforcement),
>)
    ensures
        forall|i: int| #![trigger entries@[i]]
            0 <= i < entries@.len() ==> pending_in(*map).contains_key(entries@[i].0@)
                && pending_in(*map)[entries@[i].0@] == entries@[i].1@,
        forall|i: int, j: int| #![trigger entries@[i], entries@[j]]
            0 <= i < j < entries@.len() ==> entries@[i].0@ != entries@[j].0@,
        forall|key: Seq<char>| #![trigger pending_in(*map).contains_key(key)]
            pending_in(*map).contains_key(key) ==> exists|i: int|
                0 <= i < entries@.len() && #[trigger] entries@[i].0@ == key,
{
    map.iter().map(|entry| (entry.key().clone(), entry.value().clone())).collect()
}

/// All that the daemon remembers.
pub struct Data {
    /// What holds in a guild whose settings nobody has touched; its `guild_id` stands for no guild.
    pub guild_defaults: GuildConfig,
    pub guild_configs: DashMap<u64, GuildConfig>,
    pub user_warning_states: DashMap<String, UserWarningState>,
    pub warnings: DashMap<String, Warning>,
    pub pending_enforcements: DashMap<String, PendingEnforcement>,
}

/// What the daemon remembers, without how.
#[verifier::ext_equal]
pub struct DataView {
    pub guild_defaults: GuildConfig,
    pub guild_configs: Map<u64, GuildConfig>,
    pub user_warning_states: Map<Seq<char>, UserWarningStateView>,
    pub warnings: Map<Seq<char>, WarningView>,
    pub pending_enforcements: Map<Seq<char>, PendingView>,
}

impl View for Data {
    type V = DataView;

    open spec fn view(&self) -> DataView {
        DataView {
            guild_defaults: self.guild_defaults,
            guild_configs: configs_in(self.guild_configs),
            user_warning_states: states_in(self.user_warning_states),
            warnings: warnings_in(self.warnings),
            pending_enforcements: pending_in(self.pending_enforcements),
        }
    }
}

/// The key under which a user's standing in a guild is kept.
pub open spec fn state_key_text(user_id: u64, guild_id: u64) -> Seq<char> {
    decimal_text(user_id as nat) + ":"@ + decimal_text(guild_id as nat)
}

/// Makes the key under which a user's standing in a guild is kept.
pub fn state_key(user_id: u64, guild_id: u64) -> (key: String)
    ensures
        key@ == state_key_text(user_id, guild_id),
{
    let mut key = decimal(user_id);
    key.append(":");
    key.append(decimal(guild_id).as_str());
    key
}

impl DataView {
    /// The settings of a guild: those stored for it, else the defaults.
    pub open spec fn config(self, guild_id: u64) -> GuildConfig {
        if self.guild_configs.contains_key(guild_id) {
            self.guild_configs[guild_id]
        } else {
            GuildConfig { guild_id, ..self.guild_defaults }
        }
    }

    /// The settings of a guild as the daemon's own decisions see them: where none are stored, the
    /// chaos factor is 0.3 and not the default one.
    pub open spec fn chaotic_config(self, guild_id: u64) -> GuildConfig {
        if self.guild_configs.contains_key(guild_id) {
            self.guild_configs[guild_id]
        } else {
            GuildConfig {
                guild_id,
                chaos_factor: ChaosFactor { bits: DEFAULT_CHAOS },
                ..self.guild_defaults
            }
        }
    }

    /// Whether a pending enforcement carries out a stored warning.
    pub open spec fn backed(self, pending: PendingView) -> bool {
        &&& self.warnings.contains_key(pending.warning_id)
        &&& self.warnings[pending.warning_id].user_id == pending.user_id
        &&& self.warnings[pending.warning_id].guild_id == pending.guild_id
        &&& self.warnings[pending.warning_id].enforcement == Some(pending.action)
    }

    /// Whether every pending enforcement is kept under its own identifier.
    pub open spec fn filed(self) -> bool {
        forall|id: Seq<char>| #[trigger]
            self.pending_enforcements.contains_key(id) ==> self.pending_enforcements[id].id == id
    }

    /// Whether every record is kept under its own identifier, and every pending enforcement
    /// carries out a stored warning.
    pub open spec fn well_formed(self) -> bool {
        &&& forall|guild_id: u64| #[trigger]
            self.guild_configs.contains_key(guild_id) ==> self.guild_configs[guild_id].guild_id
                == guild_id
        &&& forall|id: Seq<char>| #[trigger]
            self.warnings.contains_key(id) ==> self.warnings[id].id == id
        &&& self.filed()
        &&& forall|id: Seq<char>| #[trigger]
            self.pending_enforcements.contains_key(id) ==> self.backed(
                self.pending_enforcements[id],
            )
    }
}

impl Data {
    /// The settings of a guild.
    pub fn config(&mut self, guild_id: u64) -> (config: GuildConfig)
        ensures
            config == old(self)@.config(guild_id),
            *final(self) == *old(self),
    {
        match get_config(&self.guild_configs, guild_id) {
            Some(config) => config,
            None => GuildConfig { guild_id, ..self.guild_defaults },
        }
    }

    /// The settings of a guild as the daemon's own decisions see them.
    pub fn chaotic_config(&mut self, guild_id: u64) -> (config: GuildConfig)
        ensures
            config == old(self)@.chaotic_config(guild_id),
            *final(self) == *old(self),
    {
        match get_config(&self.guild_configs, guild_id) {
            Some(config) => config,
            None => GuildConfig {
                guild_id,
                chaos_factor: ChaosFactor { bits: DEFAULT_CHAOS },
                ..self.guild_defaults
            },
        }
    }
}

} // verus!
