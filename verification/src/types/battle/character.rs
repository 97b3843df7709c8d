//! Battle combatants: the mutable state of one player or enemy, and the
//! owned sum of the two sides that the effect-resolution code works on.

use vstd::prelude::*;
use crate::types::battle::{BattleAbility, BattleEnemyOnlyStats, BattleStats, BattleStatusEffect};
use crate::types::character::{Enemy, Player};
use crate::types::common::DefensePower;

verus! {

pub type BattleCharacterId = u32;

/// A combatant of either side, owned.  The conduct-effect rules work on
/// this sum so that one code path serves players and enemies.
pub enum BattleCharacter {
    Player(BattlePlayer),
    Enemy(BattleEnemy),
}

/// The mutable state every combatant carries.
pub struct BattleCharacterBase {
    pub current_ability: BattleAbility,
    pub current_stats: BattleStats,
    pub defense_power: DefensePower,
    pub status_effects: Vec<BattleStatusEffect>,
}

impl BattleCharacterBase {
    pub open spec fn wf(self) -> bool {
        &&& self.current_stats.wf()
        &&& self.defense_power.wf()
    }
}

/// A player during battle: id, template and mutable state.
pub struct BattlePlayer {
    pub character_id: BattleCharacterId,
    pub original: Player,
    pub base: BattleCharacterBase,
}

impl BattlePlayer {
    pub open spec fn wf(self) -> bool {
        self.base.wf()
    }

    /// Id, template, ability and defense agree: only stats and status
    /// effects may differ.
    pub open spec fn same_identity(pre: BattlePlayer, post: BattlePlayer) -> bool {
        &&& post.character_id == pre.character_id
        &&& post.original == pre.original
        &&& post.base.current_ability == pre.base.current_ability
        &&& post.base.defense_power == pre.base.defense_power
    }
}

/// An enemy during battle: id, template, mutable state and the break
/// gauge.
pub struct BattleEnemy {
    pub character_id: BattleCharacterId,
    pub original: Enemy,
    pub base: BattleCharacterBase,
    pub current_enemy_only_stats: BattleEnemyOnlyStats,
}

impl BattleEnemy {
    pub open spec fn wf(self) -> bool {
        &&& self.base.wf()
        &&& self.current_enemy_only_stats.wf()
    }

    /// Id, template, ability and defense agree: only stats, status
    /// effects and the break gauge may differ.
    pub open spec fn same_identity(pre: BattleEnemy, post: BattleEnemy) -> bool {
        &&& post.character_id == pre.character_id
        &&& post.original == pre.original
        &&& post.base.current_ability == pre.base.current_ability
        &&& post.base.defense_power == pre.base.defense_power
    }
}

impl BattleCharacter {
    pub open spec fn wf(self) -> bool {
        match self {
            BattleCharacter::Player(p) => p.wf(),
            BattleCharacter::Enemy(e) => e.wf(),
        }
    }

    pub open spec fn is_player(self) -> bool {
        self is Player
    }

    pub open spec fn spec_character_id(self) -> u32 {
        match self {
            BattleCharacter::Player(p) => p.character_id,
            BattleCharacter::Enemy(e) => e.character_id,
        }
    }

    pub open spec fn spec_base(self) -> BattleCharacterBase {
        match self {
            BattleCharacter::Player(p) => p.base,
            BattleCharacter::Enemy(e) => e.base,
        }
    }

    pub open spec fn spec_stats(self) -> BattleStats {
        self.spec_base().current_stats
    }

    pub open spec fn spec_ability(self) -> BattleAbility {
        self.spec_base().current_ability
    }

    pub open spec fn spec_defense(self) -> DefensePower {
        self.spec_base().defense_power
    }

    pub open spec fn spec_effects(self) -> Seq<BattleStatusEffect> {
        self.spec_base().status_effects@
    }

    /// The break gauge; meaningful for enemies only.
    pub open spec fn spec_enemy_only_stats(self) -> BattleEnemyOnlyStats
        recommends
            self is Enemy,
    {
        self->Enemy_0.current_enemy_only_stats
    }

    /// The sides, ids, templates, abilities and defenses of `pre` and
    /// `post` agree: only stats, status effects or the break gauge may
    /// differ.
    pub open spec fn same_identity(pre: BattleCharacter, post: BattleCharacter) -> bool {
        match (pre, post) {
            (BattleCharacter::Player(p0), BattleCharacter::Player(p1)) => {
                &&& p1.character_id == p0.character_id
                &&& p1.original == p0.original
                &&& p1.base.current_ability == p0.base.current_ability
                &&& p1.base.defense_power == p0.base.defense_power
            },
            (BattleCharacter::Enemy(e0), BattleCharacter::Enemy(e1)) => {
                &&& e1.character_id == e0.character_id
                &&& e1.original == e0.original
                &&& e1.base.current_ability == e0.base.current_ability
                &&& e1.base.defense_power == e0.base.defense_power
            },
            _ => false,
        }
    }

    pub fn character_id(&self) -> (r: u32)
        ensures
            r == self.spec_character_id(),
    {
        match self {
            BattleCharacter::Player(c) => c.character_id,
            BattleCharacter::Enemy(c) => c.character_id,
        }
    }

    pub fn current_ability(&self) -> (r: &BattleAbility)
        ensures
            *r == self.spec_ability(),
    {
        match self {
            BattleCharacter::Player(c) => &c.base.current_ability,
            BattleCharacter::Enemy(c) => &c.base.current_ability,
        }
    }

    pub fn current_stats(&self) -> (r: &BattleStats)
        ensures
            *r == self.spec_stats(),
    {
        match self {
            BattleCharacter::Player(c) => &c.base.current_stats,
            BattleCharacter::Enemy(c) => &c.base.current_stats,
        }
    }

    pub fn status_effects(&self) -> (r: &Vec<BattleStatusEffect>)
        ensures
            r@ == self.spec_effects(),
    {
        match self {
            BattleCharacter::Player(c) => &c.base.status_effects,
            BattleCharacter::Enemy(c) => &c.base.status_effects,
        }
    }

    pub fn defense_power(&self) -> (r: &DefensePower)
        ensures
            *r == self.spec_defense(),
    {
        match self {
            BattleCharacter::Player(c) => &c.base.defense_power,
            BattleCharacter::Enemy(c) => &c.base.defense_power,
        }
    }

    /// Mutable access to the stats; everything else stays as it is.
    pub fn current_stats_mut(&mut self) -> (r: &mut BattleStats)
        ensures
            *r == old(self).spec_stats(),
            final(self).spec_stats() == *final(r),
            BattleCharacter::same_identity(*old(self), *final(self)),
            final(self).spec_effects() == old(self).spec_effects(),
            *final(self) is Player <==> *old(self) is Player,
            *final(self) is Enemy ==> final(self).spec_enemy_only_stats() == old(
                self,
            ).spec_enemy_only_stats(),
    {
        match self {
            BattleCharacter::Player(c) => &mut c.base.current_stats,
            BattleCharacter::Enemy(c) => &mut c.base.current_stats,
        }
    }

    /// Mutable access to the status-effect list; everything else stays as
    /// it is.
    pub fn status_effects_mut(&mut self) -> (r: &mut Vec<BattleStatusEffect>)
        ensures
            *r == match *old(self) {
                BattleCharacter::Player(c) => c.base.status_effects,
                BattleCharacter::Enemy(c) => c.base.status_effects,
            },
            final(self).spec_effects() == final(r)@,
            BattleCharacter::same_identity(*old(self), *final(self)),
            final(self).spec_stats() == old(self).spec_stats(),
            *final(self) is Player <==> *old(self) is Player,
            *final(self) is Enemy ==> final(self).spec_enemy_only_stats() == old(
                self,
            ).spec_enemy_only_stats(),
    {
        match self {
            BattleCharacter::Player(c) => &mut c.base.status_effects,
            BattleCharacter::Enemy(c) => &mut c.base.status_effects,
        }
    }
}

} // verus!
