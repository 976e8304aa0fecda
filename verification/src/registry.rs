use vstd::prelude::*;
use std::collections::HashMap;
use crate::player::{cleared_model, initial_model, Player};
use crate::settings::PlayerSettings;

verus! {

/// The process-wide mapping from guild id to that guild's player. An entry
/// is created once, on first use, and never removed: clearing resets the
/// player in place, keeping its identity.
///
/// Concurrent front-ends share the registry behind a lock held only long
/// enough to look an entry up or create it; taking a player out and putting
/// it back brackets one coordinated operation on it.
pub struct PlayerRegistry {
    pub players: HashMap<u64, Player>,
}

impl PlayerRegistry {
    pub open spec fn spec_contains(self, guild_id: u64) -> bool {
        self.players@.contains_key(guild_id)
    }

    /// An empty registry.
    pub fn new() -> (r: Self)
        ensures
            r.players@ == Map::<u64, Player>::empty(),
    {
        PlayerRegistry { players: HashMap::new() }
    }

    pub fn contains_player(&self, guild_id: u64) -> (r: bool)
        ensures
            r == self.spec_contains(guild_id),
    {
        self.players.contains_key(&guild_id)
    }

    pub fn len(&self) -> (r: usize)
        ensures
            r == self.players@.dom().len(),
    {
        self.players.len()
    }

    /// Get-or-create, idempotently: a guild already known keeps its player
    /// untouched; an unknown one gets a fresh player under the given
    /// settings. Safe to call again under the same lock that guards the
    /// lookup, which is what makes double-checked creation sound.
    pub fn init_player(&mut self, guild_id: u64, settings: PlayerSettings)
        ensures
            old(self).spec_contains(guild_id) ==> final(self).players@ == old(self).players@,
            !old(self).spec_contains(guild_id) ==> {
                &&& final(self).players@.dom() =~= old(self).players@.dom().insert(guild_id)
                &&& final(self).players@[guild_id].model() == initial_model(guild_id, settings)
                &&& forall|g: u64|
                    g != guild_id && old(self).players@.contains_key(g)
                        ==> final(self).players@[g] == old(self).players@[g]
            },
    {
        if !self.players.contains_key(&guild_id) {
            let player = Player::new(guild_id, settings);
            self.players.insert(guild_id, player);
        }
    }

    /// Takes the guild's player out for one coordinated operation;
    /// [`PlayerRegistry::put_player`] returns it.
    pub fn take_player(&mut self, guild_id: u64) -> (r: Option<Player>)
        ensures
            match r {
                Some(p) => {
                    &&& old(self).spec_contains(guild_id)
                    &&& p == old(self).players@[guild_id]
                    &&& final(self).players@ == old(self).players@.remove(guild_id)
                },
                None => {
                    &&& !old(self).spec_contains(guild_id)
                    &&& final(self).players@ == old(self).players@
                },
            },
    {
        self.players.remove(&guild_id)
    }

    /// Puts a player back under its guild id.
    pub fn put_player(&mut self, guild_id: u64, player: Player)
        ensures
            final(self).players@ == old(self).players@.insert(guild_id, player),
    {
        self.players.insert(guild_id, player);
    }

    /// Resets the guild's player in place — same entry, fields back to the
    /// initial ended state — creating it first when the guild is new.
    /// Returns whether an active transport track was held, which the caller
    /// must stop.
    pub fn clear_player(&mut self, guild_id: u64, settings: PlayerSettings) -> (stop_needed: bool)
        ensures
            final(self).players@.dom() =~= old(self).players@.dom().insert(guild_id),
            forall|g: u64|
                g != guild_id && old(self).players@.contains_key(g) ==> final(self).players@[g]
                    == old(self).players@[g],
            old(self).spec_contains(guild_id) ==> {
                &&& final(self).players@[guild_id].model() == cleared_model(
                    old(self).players@[guild_id].model(),
                )
                &&& stop_needed == (old(self).players@[guild_id].track_handle is Some)
            },
            !old(self).spec_contains(guild_id) ==> {
                &&& final(self).players@[guild_id].model() == initial_model(guild_id, settings)
                &&& !stop_needed
            },
    {
        match self.players.remove(&guild_id) {
            Some(mut player) => {
                let stop_needed = player.clear();
                self.players.insert(guild_id, player);
                stop_needed
            },
            None => {
                self.players.insert(guild_id, Player::new(guild_id, settings));
                false
            },
        }
    }
}

} // verus!
