//! Equipment templates: weapons, armor and their guard values.
//!
//! Cut rates are held in hundredths: `0` cuts the whole attack away,
//! `100` lets it through untouched.

use vstd::prelude::*;
use crate::types::common::{AbilityScaling, AttackPower};

verus! {

/// A combatant's equipped gear: two hands and eight armor pieces.
pub struct Equipment {
    pub weapon1: Option<Weapon>,
    pub weapon2: Option<Weapon>,
    pub armor1: Option<Armor>,
    pub armor2: Option<Armor>,
    pub armor3: Option<Armor>,
    pub armor4: Option<Armor>,
    pub armor5: Option<Armor>,
    pub armor6: Option<Armor>,
    pub armor7: Option<Armor>,
    pub armor8: Option<Armor>,
}

/// A weapon template.
#[derive(Clone, Copy)]
pub struct Weapon {
    pub kind: WeaponKind,
    pub weight: u32,
    pub ability_requirement: WeaponAbilityRequirement,
    pub attack_power: WeaponAttackPower,
    pub sorcery_power: WeaponSorceryPower,
    pub break_power: WeaponBreakPower,
    pub guard: WeaponGuard,
}

#[derive(Clone, Copy, Debug, PartialEq, Eq, Structural)]
pub enum WeaponKind {
    StraightSword,
    Greatsword,
    Spear,
    Axe,
    Hammer,
    Bow,
    Crossbow,
    Staff,
    Shield,
}

/// The minimum ability scores a weapon asks of its wielder.
#[derive(Clone, Copy)]
pub struct WeaponAbilityRequirement {
    pub strength: u32,
    pub dexterity: u32,
    pub intelligence: u32,
    pub faith: u32,
    pub arcane: u32,
    pub agility: u32,
}

#[derive(Clone, Copy)]
pub struct WeaponAttackPower {
    pub base: AttackPower,
    pub ability_scaling: WeaponAttackPowerAbilityScaling,
}

/// Per-attribute ability scalings of a weapon's attack power.
#[derive(Clone, Copy)]
pub struct WeaponAttackPowerAbilityScaling {
    pub slash: AbilityScaling,
    pub strike: AbilityScaling,
    pub thrust: AbilityScaling,
    pub impact: AbilityScaling,
    pub magic: AbilityScaling,
    pub fire: AbilityScaling,
    pub lightning: AbilityScaling,
    pub chaos: AbilityScaling,
}

/// A weapon's sorcery power: base value plus ability scaling.
#[derive(Clone, Copy)]
pub struct WeaponSorceryPower {
    pub base: u32,
    pub scaling: AbilityScaling,
}

/// A weapon's break power: base value plus ability scaling.
#[derive(Clone, Copy)]
pub struct WeaponBreakPower {
    pub base_power: u32,
    pub scaling: AbilityScaling,
}

/// A weapon's guard performance.
#[derive(Clone, Copy)]
pub struct WeaponGuard {
    pub cut_rate: GuardCutRate,
    pub guard_strength: u32,
}

/// Per-attribute cut rates in hundredths: `0` is a full cut, `100` lets
/// the attack through unreduced.
#[derive(Clone, Copy, Debug, PartialEq, Eq, Structural)]
pub struct GuardCutRate {
    pub slash: u32,
    pub strike: u32,
    pub thrust: u32,
    pub impact: u32,
    pub magic: u32,
    pub fire: u32,
    pub lightning: u32,
    pub chaos: u32,
}

/// An armor template.
pub struct Armor {
    pub kind: ArmorKind,
    pub weight: u32,
    pub defense: ArmorDefense,
    pub resistance: ArmorResistance,
    pub slots: Vec<ArmorSlot>,
}

#[derive(Clone, Copy)]
pub enum ArmorKind {
    Helmet,
    ChestArmor,
    Gauntlets,
    LegArmor,
}

#[derive(Clone, Copy)]
pub struct ArmorDefense {
    pub slash: u32,
    pub strike: u32,
    pub thrust: u32,
    pub impact: u32,
    pub magic: u32,
    pub fire: u32,
    pub lightning: u32,
    pub chaos: u32,
}

/// Resistance scores against status ailments.
#[derive(Clone, Copy)]
pub struct ArmorResistance {
    pub immunity: u32,
    pub robustness: u32,
    pub sanity: u32,
}

/// A body location an armor piece occupies.
#[derive(Clone, Copy, Debug, PartialEq, Eq, Structural)]
pub enum ArmorSlot {
    Head,
    Chest,
    Arms,
    Legs,
}

} // verus!
