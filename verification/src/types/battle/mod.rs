//! Battle state: the mutable combatant data of one encounter, the status
//! effects that live on it, and the request payload of an action.

use vstd::prelude::*;
use crate::types::common::AttackPower;
use crate::types::conduct::Conduct;
use crate::types::equipment::Weapon;
use crate::types::status_ailment::StatusEffectPotency;

pub mod character;
pub mod incident;

pub use character::BattleCharacter;
pub use character::BattleCharacterBase;
pub use character::BattleCharacterId;
pub use character::BattleEnemy;
pub use character::BattlePlayer;

verus! {

/// A combatant's ability scores during battle.
#[derive(Clone, Copy)]
pub struct BattleAbility {
    pub agility: u32,
    pub strength: u32,
    pub dexterity: u32,
    pub intelligence: u32,
    pub faith: u32,
    pub arcane: u32,
}

/// Capacities and accumulated damage.  The current value of a resource is
/// its capacity minus the damage taken.
#[derive(Clone, Copy)]
pub struct BattleStats {
    pub max_hp: u32,
    pub max_sp: u32,
    pub max_stamina: u32,
    pub hp_damage: u32,
    pub sp_damage: u32,
    pub stamina_damage: u32,
}

impl BattleStats {
    /// Accumulated damage never exceeds the matching capacity.
    pub open spec fn wf(self) -> bool {
        &&& self.hp_damage <= self.max_hp
        &&& self.sp_damage <= self.max_sp
        &&& self.stamina_damage <= self.max_stamina
    }
}

/// The break gauge and its timers; enemies only.
#[derive(Clone, Copy)]
pub struct BattleEnemyOnlyStats {
    pub max_break: u32,
    pub break_recovery: u32,
    pub break_max_turn: u32,
    pub break_damage: u32,
    pub break_turns: u32,
    pub break_not_damaged_turns: u32,
}

impl BattleEnemyOnlyStats {
    /// Accumulated break damage never exceeds the gauge's capacity.
    pub open spec fn wf(self) -> bool {
        self.break_damage <= self.max_break
    }
}

/// A status effect living on a combatant, with its elapsed counters.
#[derive(Clone, Copy, Debug, PartialEq, Eq, Structural)]
pub struct BattleStatusEffect {
    pub potency: StatusEffectPotency,
    pub duration: BattleStatusEffectDuration,
}

#[derive(Clone, Copy, Debug, PartialEq, Eq, Structural)]
pub enum BattleStatusEffectDuration {
    Permanent,
    Turn(BattleStatusEffectDurationTurn),
    Count(BattleStatusEffectDurationCount),
    UntilNextAction,
}

#[derive(Clone, Copy, Debug, PartialEq, Eq, Structural)]
pub struct BattleStatusEffectDurationTurn {
    pub turns: u32,
    pub elapsed_turns: u32,
}

#[derive(Clone, Copy, Debug, PartialEq, Eq, Structural)]
pub struct BattleStatusEffectDurationCount {
    pub count: u32,
    pub elapsed_count: u32,
}

/// Whether a status effect is the break stagger state.
pub open spec fn is_break_effect(e: BattleStatusEffect) -> bool {
    e.potency is Break
}

/// Whether the combatant carrying `effects` is currently broken.
pub open spec fn has_break(effects: Seq<BattleStatusEffect>) -> bool {
    exists|i: int| 0 <= i < effects.len() && is_break_effect(effects[i])
}

/// Whether a status effect is a damage-reducing resistance.
pub open spec fn is_resistance_effect(e: BattleStatusEffect) -> bool {
    e.potency is Resistance
}

/// Whether the combatant carrying `effects` reduces incoming attacks.
pub open spec fn has_resistance(effects: Seq<BattleStatusEffect>) -> bool {
    exists|i: int| 0 <= i < effects.len() && is_resistance_effect(effects[i])
}

/// The status effect that the break threshold applies: a permanent break
/// stagger.
pub open spec fn break_status_effect() -> BattleStatusEffect {
    BattleStatusEffect {
        potency: StatusEffectPotency::Break(
            crate::types::status_ailment::StatusEffectBreak {  },
        ),
        duration: BattleStatusEffectDuration::Permanent,
    }
}

/// Accumulated damage plus incoming damage, clamped to the capacity.
pub open spec fn add_capped(damage: u32, incoming: u32, max: u32) -> u32 {
    if damage + incoming > max {
        max
    } else {
        (damage + incoming) as u32
    }
}

/// Accumulated damage minus a recovery, floored at zero.
pub open spec fn sub_floored(damage: u32, recovery: u32) -> u32 {
    if recovery > damage {
        0u32
    } else {
        (damage - recovery) as u32
    }
}

/// A counter plus one, saturating at `u32::MAX`.
pub open spec fn sat_inc(counter: u32) -> u32 {
    if counter == u32::MAX {
        counter
    } else {
        (counter + 1) as u32
    }
}

/// Adds `incoming` to `damage`, clamping so the sum never exceeds `max`.
pub fn add_damage_capped(damage: u32, incoming: u32, max: u32) -> (r: u32)
    requires
        damage <= max,
    ensures
        r == add_capped(damage, incoming, max),
        r <= max,
{
    let sum: u64 = (damage as u64) + (incoming as u64);
    if sum > max as u64 {
        max
    } else {
        sum as u32
    }
}

/// Subtracts `recovery` from `damage`, flooring at zero.
pub fn sub_damage_floored(damage: u32, recovery: u32) -> (r: u32)
    ensures
        r == sub_floored(damage, recovery),
        r <= damage,
{
    if recovery > damage {
        0
    } else {
        damage - recovery
    }
}

/// Increments a turn counter, saturating at `u32::MAX`.
pub fn increment_counter(counter: u32) -> (r: u32)
    ensures
        r == sat_inc(counter),
{
    if counter == u32::MAX {
        counter
    } else {
        counter + 1
    }
}

/// One encounter's roster.  Lives from battle start to battle end and is
/// mutated in place by every engine call.
pub struct Battle {
    pub players: Vec<BattlePlayer>,
    pub enemies: Vec<BattleEnemy>,
}

impl Battle {
    /// Every roster member is well formed.
    pub open spec fn wf(self) -> bool {
        &&& forall|i: int| 0 <= i < self.players@.len() ==> #[trigger] self.players@[i].wf()
        &&& forall|i: int| 0 <= i < self.enemies@.len() ==> #[trigger] self.enemies@[i].wf()
    }
}

/// A weapon snapshot carried by an action request.  The sorcery power is
/// a multiplier in hundredths.
#[derive(Clone, Copy)]
pub struct BattleWeapon {
    pub original: Weapon,
    pub attack_power: AttackPower,
    pub sorcery_power: u32,
    pub break_power: u32,
}

/// One action request: who acts, whom it targets, which conduct, and the
/// weapon snapshot the scaling rules read.
pub struct BattleConduct {
    pub actor_character_id: u32,
    pub target_character_id: u32,
    pub conduct: Conduct,
    pub weapon: Option<BattleWeapon>,
}

} // verus!
