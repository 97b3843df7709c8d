//! The battle engine: roster lookup, order decision, conduct execution
//! and the per-turn auto-triggers, exposed as methods of `Battle`.

use vstd::prelude::*;
use crate::types::battle::{Battle, BattleEnemy, BattlePlayer};

pub mod decide_enemy_conduct;
pub mod decide_order;
pub mod execute_conduct;
pub mod recover_break;
pub mod recover_stamina;
pub mod update_status_effect_for_turn;

pub use decide_enemy_conduct::DecideEnemyConductRequest;
pub use decide_order::BattleDecideOrderRequest;
pub use execute_conduct::BattleExecuteConductRequest;
pub use recover_break::RecoverBreakRequest;
pub use recover_stamina::RecoverStaminaRequest;
pub use update_status_effect_for_turn::UpdateStatusEffectRequest;

use crate::types::battle::incident::{BattleIncident, BattleIncidentAutoTrigger};
use crate::types::battle::BattleConduct;

verus! {

/// A programmer error surfaced by the engine instead of a process
/// abort: a character id that no roster member carries.
#[derive(Clone, Copy, Debug, PartialEq, Eq, Structural)]
pub enum BattleError {
    ActorNotFound,
    TargetNotFound,
    CharacterNotFound,
}

/// The position of the first player with `id`, or `-1` when no player
/// carries it.
pub open spec fn first_player_index(s: Seq<BattlePlayer>, id: u32) -> int
    decreases s.len(),
{
    if s.len() == 0 {
        -1
    } else if s[0].character_id == id {
        0
    } else {
        let r = first_player_index(s.drop_first(), id);
        if r == -1 {
            -1
        } else {
            r + 1
        }
    }
}

/// The position of the first enemy with `id`, or `-1` when no enemy
/// carries it.
pub open spec fn first_enemy_index(s: Seq<BattleEnemy>, id: u32) -> int
    decreases s.len(),
{
    if s.len() == 0 {
        -1
    } else if s[0].character_id == id {
        0
    } else {
        let r = first_enemy_index(s.drop_first(), id);
        if r == -1 {
            -1
        } else {
            r + 1
        }
    }
}

/// Whether some roster member carries `id`.
pub open spec fn battle_has_character(b: Battle, id: u32) -> bool {
    first_player_index(b.players@, id) != -1 || first_enemy_index(b.enemies@, id) != -1
}

/// The agility of the combatant with `id`; players are searched first,
/// as everywhere in the engine.  Zero when no roster member carries `id`.
pub open spec fn spec_agility_of(b: Battle, id: u32) -> u32 {
    let pi = first_player_index(b.players@, id);
    let ei = first_enemy_index(b.enemies@, id);
    if pi != -1 {
        b.players@[pi].base.current_ability.agility
    } else if ei != -1 {
        b.enemies@[ei].base.current_ability.agility
    } else {
        0u32
    }
}

/// `first_player_index` finds the first match and nothing else.
pub proof fn lemma_first_player_index(s: Seq<BattlePlayer>, id: u32)
    ensures
        first_player_index(s, id) == -1 ==> forall|k: int|
            0 <= k < s.len() ==> s[k].character_id != id,
        first_player_index(s, id) != -1 ==> {
            let r = first_player_index(s, id);
            &&& 0 <= r < s.len()
            &&& s[r].character_id == id
            &&& forall|k: int| 0 <= k < r ==> s[k].character_id != id
        },
    decreases s.len(),
{
    if s.len() != 0 && s[0].character_id != id {
        lemma_first_player_index(s.drop_first(), id);
        if first_player_index(s.drop_first(), id) != -1 {
            let r = first_player_index(s.drop_first(), id);
            assert(s[r + 1] == s.drop_first()[r]);
            assert forall|k: int| 0 <= k < r + 1 implies s[k].character_id != id by {
                if k > 0 {
                    assert(s[k] == s.drop_first()[k - 1]);
                }
            }
        } else {
            assert forall|k: int| 0 <= k < s.len() implies s[k].character_id != id by {
                if k > 0 {
                    assert(s[k] == s.drop_first()[k - 1]);
                }
            }
        }
    }
}

/// `first_enemy_index` finds the first match and nothing else.
pub proof fn lemma_first_enemy_index(s: Seq<BattleEnemy>, id: u32)
    ensures
        first_enemy_index(s, id) == -1 ==> forall|k: int|
            0 <= k < s.len() ==> s[k].character_id != id,
        first_enemy_index(s, id) != -1 ==> {
            let r = first_enemy_index(s, id);
            &&& 0 <= r < s.len()
            &&& s[r].character_id == id
            &&& forall|k: int| 0 <= k < r ==> s[k].character_id != id
        },
    decreases s.len(),
{
    if s.len() != 0 && s[0].character_id != id {
        lemma_first_enemy_index(s.drop_first(), id);
        if first_enemy_index(s.drop_first(), id) != -1 {
            let r = first_enemy_index(s.drop_first(), id);
            assert(s[r + 1] == s.drop_first()[r]);
            assert forall|k: int| 0 <= k < r + 1 implies s[k].character_id != id by {
                if k > 0 {
                    assert(s[k] == s.drop_first()[k - 1]);
                }
            }
        } else {
            assert forall|k: int| 0 <= k < s.len() implies s[k].character_id != id by {
                if k > 0 {
                    assert(s[k] == s.drop_first()[k - 1]);
                }
            }
        }
    }
}

/// Finds the position of the first player with `id`.
pub fn find_player_position(players: &Vec<BattlePlayer>, id: u32) -> (r: Option<usize>)
    ensures
        r matches Some(i) ==> i == first_player_index(players@, id),
        r is None ==> first_player_index(players@, id) == -1,
{
    proof {
        lemma_first_player_index(players@, id);
    }
    let n = players.len();
    let mut i: usize = 0;
    while i < n
        invariant
            i <= n,
            n == players@.len(),
            forall|k: int| 0 <= k < i ==> players@[k].character_id != id,
            first_player_index(players@, id) == -1 ==> forall|k: int|
                0 <= k < n ==> players@[k].character_id != id,
            first_player_index(players@, id) != -1 ==> {
                let r = first_player_index(players@, id);
                &&& 0 <= r < n
                &&& players@[r].character_id == id
                &&& forall|k: int| 0 <= k < r ==> players@[k].character_id != id
            },
        decreases n - i,
    {
        if players[i].character_id == id {
            return Some(i);
        }
        i += 1;
    }
    None
}

/// Finds the position of the first enemy with `id`.
pub fn find_enemy_position(enemies: &Vec<BattleEnemy>, id: u32) -> (r: Option<usize>)
    ensures
        r matches Some(i) ==> i == first_enemy_index(enemies@, id),
        r is None ==> first_enemy_index(enemies@, id) == -1,
{
    proof {
        lemma_first_enemy_index(enemies@, id);
    }
    let n = enemies.len();
    let mut i: usize = 0;
    while i < n
        invariant
            i <= n,
            n == enemies@.len(),
            forall|k: int| 0 <= k < i ==> enemies@[k].character_id != id,
            first_enemy_index(enemies@, id) == -1 ==> forall|k: int|
                0 <= k < n ==> enemies@[k].character_id != id,
            first_enemy_index(enemies@, id) != -1 ==> {
                let r = first_enemy_index(enemies@, id);
                &&& 0 <= r < n
                &&& enemies@[r].character_id == id
                &&& forall|k: int| 0 <= k < r ==> enemies@[k].character_id != id
            },
        decreases n - i,
    {
        if enemies[i].character_id == id {
            return Some(i);
        }
        i += 1;
    }
    None
}

impl Battle {
    /// Ranks the requested ids by current agility, highest first; ids
    /// nobody carries are dropped.
    pub fn decide_order(&self, request: BattleDecideOrderRequest) -> (r: Vec<u32>)
        ensures
            r@.to_multiset() == decide_order::spec_found_ids(
                *self,
                request.character_ids@,
            ).to_multiset(),
            forall|i: int, j: int|
                0 <= i < j < r@.len() ==> spec_agility_of(*self, #[trigger] r@[i])
                    >= spec_agility_of(*self, #[trigger] r@[j]),
    {
        decide_order::decide_order(self, request)
    }

    /// Executes one conduct request against this battle.
    pub fn execute_conduct(&mut self, request: BattleExecuteConductRequest) -> (r: Result<
        BattleIncident,
        BattleError,
    >)
        requires
            old(self).wf(),
        ensures
            final(self).wf(),
            execute_conduct::execute_rel(request.conduct, *old(self), *final(self), r),
    {
        execute_conduct::execute_conduct(self, request)
    }

    /// Picks the conduct an enemy performs; `None` without players.
    pub fn decide_enemy_conduct(&self, request: DecideEnemyConductRequest) -> (r: Option<
        BattleConduct,
    >)
        ensures
            r is Some <==> self.players@.len() > 0,
            r matches Some(c) ==> c.actor_character_id == request.enemy_character_id
                && c.target_character_id == self.players@[0].character_id,
    {
        decide_enemy_conduct::decide_enemy_conduct(self, request)
    }

    /// Advances break recovery for one combatant.
    pub fn recover_break(&mut self, request: RecoverBreakRequest) -> (r: Result<
        BattleIncidentAutoTrigger,
        BattleError,
    >)
        requires
            old(self).wf(),
        ensures
            final(self).wf(),
            recover_break::recover_break_rel(*old(self), *final(self), request.character_id, r),
    {
        recover_break::recover_break(self, request)
    }

    /// Regenerates stamina for one combatant.
    pub fn recover_stamina(&mut self, request: RecoverStaminaRequest) -> (r: Result<
        BattleIncidentAutoTrigger,
        BattleError,
    >)
        requires
            old(self).wf(),
        ensures
            final(self).wf(),
            recover_stamina::recover_stamina_rel(*old(self), *final(self), request.character_id, r),
    {
        recover_stamina::recover_stamina(self, request)
    }

    /// Advances the turn-limited status effects of one combatant.
    pub fn update_status_effect_for_turn(&mut self, request: UpdateStatusEffectRequest) -> (r:
        Result<BattleIncidentAutoTrigger, BattleError>)
        requires
            old(self).wf(),
        ensures
            final(self).wf(),
            update_status_effect_for_turn::update_status_effect_rel(
                *old(self),
                *final(self),
                request.character_id,
                r,
            ),
    {
        update_status_effect_for_turn::update_status_effect_for_turn(self, request)
    }
}

} // verus!
