//! Conduct definitions: the immutable action templates a combatant can
//! perform, with their costs, requirements and payloads.

use vstd::prelude::*;
use crate::types::common::{AttackPower, AttackPowerScaling};
use crate::types::equipment::WeaponKind;
use crate::types::status_ailment::StatusEffect;

verus! {

/// A named action template with costs and requirements.
pub struct Conduct {
    pub name: String,
    pub sp_cost: u32,
    pub stamina_cost: u32,
    pub perks: Vec<ConductPerk>,
    pub requirement: ConductRequirement,
    pub conduct_type: ConductType,
}

/// A trait of a conduct that the evasion rules read.
#[derive(Clone, Copy, Debug, PartialEq, Eq, Structural)]
pub enum ConductPerk {
    Melee,
    Ranged,
    AtFeet,
}

/// Whom a conduct can target.
#[derive(Clone, Copy)]
pub enum ConductTarget {
    Single,
    All,
    SelfTarget,
}

/// The minimum ability scores a conduct asks of its actor.
#[derive(Clone, Copy)]
pub struct ConductRequirement {
    pub strength: u32,
    pub dexterity: u32,
    pub intelligence: u32,
    pub faith: u32,
    pub arcane: u32,
    pub agility: u32,
}

/// The three conduct families.
pub enum ConductType {
    Basic(ConductTypeBasic),
    Skill(ConductTypeSkill),
    Sorcery(ConductTypeSorcery),
}

pub enum ConductTypeBasic {
    Attack(ConductTypeBasicAttack),
    Support(ConductTypeBasicSupport),
}

/// A basic attack: fixed attack power and break power.
#[derive(Clone, Copy)]
pub struct ConductTypeBasicAttack {
    pub attack_power: AttackPower,
    pub break_power: u32,
}

pub enum ConductTypeBasicSupport {
    StatusEffect(SuportStatusEffect),
    Recover(SupportRecover),
}

/// A support payload that applies status effects to the target.
pub struct SuportStatusEffect {
    pub status_effects: Vec<StatusEffect>,
}

/// A support payload that restores resources of the target.
pub struct SupportRecover {
    pub potencies: Vec<SupportRecoverPotency>,
}

#[derive(Clone, Copy)]
pub enum SupportRecoverPotency {
    Hp(SupportRecoverPotencyHp),
    Sp(SupportRecoverPotencySp),
    Stamina(SupportRecoverPotencyStamina),
}

#[derive(Clone, Copy)]
pub struct SupportRecoverPotencyHp {
    pub hp_recover: u32,
}

#[derive(Clone, Copy)]
pub struct SupportRecoverPotencySp {
    pub sp_recover: u32,
}

#[derive(Clone, Copy)]
pub struct SupportRecoverPotencyStamina {
    pub stamina_recover: u32,
}

/// A skill conduct: usable only with certain weapon kinds.
pub struct ConductTypeSkill {
    pub usable_weapon_kinds: Vec<WeaponKind>,
    pub potency: ConductTypeSkillPotency,
}

pub enum ConductTypeSkillPotency {
    Attack(ConductTypeSkillPotencyAttack),
    Support(ConductTypeSkillPotencySupport),
}

/// A skill attack: base values scaled per attribute, added on top of the
/// weapon's flat attack power.  Scalings are in hundredths.
#[derive(Clone, Copy)]
pub struct ConductTypeSkillPotencyAttack {
    pub attack_power: AttackPower,
    pub attack_power_scaling: AttackPowerScaling,
    pub break_power: u32,
    pub break_power_scaling: u32,
}

pub enum ConductTypeSkillPotencySupport {
    StatusEffect(SuportStatusEffect),
}

pub enum ConductTypeSorcery {
    Attack(ConductTypeSorceryAttack),
    Support(ConductTypeSorcerySupport),
}

/// A sorcery attack: fixed attack power, multiplied by the weapon's
/// sorcery power.
#[derive(Clone, Copy)]
pub struct ConductTypeSorceryAttack {
    pub attack_power: AttackPower,
    pub break_power: u32,
}

pub enum ConductTypeSorcerySupport {
    StatusEffect(SuportStatusEffect),
}

} // verus!
