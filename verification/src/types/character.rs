//! Character templates: the immutable data a battle combatant is built
//! from.

use vstd::prelude::*;
use crate::types::common::DefensePower;
use crate::types::equipment::Equipment;

verus! {

/// An enemy template.
pub struct Enemy {
    pub ability: EnemyAbility,
    pub stats: EnemyStats,
    pub equipment: Equipment,
}

#[derive(Clone, Copy)]
pub struct EnemyAbility {
    pub agility: u32,
    pub strength: u32,
    pub dexterity: u32,
    pub intelligence: u32,
    pub faith: u32,
    pub arcane: u32,
}

#[derive(Clone, Copy)]
pub struct EnemyStats {
    pub hp: u32,
    pub sp: u32,
    pub break_max: u32,
    pub break_recovery: u32,
    pub break_turn: u32,
}

/// A player template.
pub struct Player {
    pub ability: PlayerAbility,
    pub stats: PlayerStats,
    pub base_defense_power: DefensePower,
    pub equipment: Equipment,
}

#[derive(Clone, Copy)]
pub struct PlayerAbility {
    pub vitality: u32,
    pub spirit: u32,
    pub endurance: u32,
    pub agility: u32,
    pub strength: u32,
    pub dexterity: u32,
    pub intelligence: u32,
    pub faith: u32,
    pub arcane: u32,
}

#[derive(Clone, Copy)]
pub struct PlayerStats {
    pub hp: u32,
    pub sp: u32,
    pub stamina: u32,
    pub stamina_recovery: u32,
    pub equip_load: u32,
}

} // verus!
