//! Incident records: the engine's sole output.  Immutable event values
//! for the presentation layer; the engine never reads them back.

use vstd::prelude::*;
use crate::types::battle::{BattleCharacterId, BattleConduct, BattleStatusEffect};

verus! {

/// The outcome of one engine operation.
pub enum BattleIncident {
    Conduct(BattleIncidentConduct),
    AutoTrigger(BattleIncidentAutoTrigger),
}

/// The outcome of one executed action.
pub struct BattleIncidentConduct {
    pub attacker_id: BattleCharacterId,
    pub defender_id: BattleCharacterId,
    pub conduct: BattleConduct,
    pub outcome: BattleIncidentConductOutcome,
}

pub enum BattleIncidentConductOutcome {
    Success(BattleIncidentConductOutcomeSuccess),
    Failure(BattleIncidentConductOutcomeFailure),
}

/// A resolved action: what happened to the actor and to each defender.
pub struct BattleIncidentConductOutcomeSuccess {
    pub attacker: BattleIncidentConductOutcomeSuccessAttacker,
    pub defenders: Vec<BattleIncidentConductOutcomeSuccessDefender>,
}

pub struct BattleIncidentConductOutcomeSuccessAttacker {
    pub character_id: BattleCharacterId,
    pub stats_changes: Vec<BattleIncidentStats>,
}

pub struct BattleIncidentConductOutcomeSuccessDefender {
    pub character_id: BattleCharacterId,
    pub stats_changes: Vec<BattleIncidentStats>,
    pub status_effects: Vec<BattleIncidentStatusEffect>,
    pub is_evaded: bool,
    pub is_defended: bool,
}

/// One change of a combatant's resources.
///
/// Damage and recovery of HP and of the break gauge report the
/// accumulated-damage values before and after; the SP and stamina costs
/// of an action report the current values before and after.
#[derive(Clone, Copy, Debug, PartialEq, Eq, Structural)]
pub enum BattleIncidentStats {
    DamageHp(BattleIncidentDamageHp),
    DamageSp(BattleIncidentDamageSp),
    DamageStamina(BattleIncidentDamageStamina),
    DamageBreak(BattleIncidentDamageBreak),
    RecoverHp(BattleIncidentRecoverHp),
    RecoverSp(BattleIncidentRecoverSp),
    RecoverStamina(BattleIncidentRecoverStamina),
    RecoverBreak(BattleIncidentRecoverBreak),
}

/// HP damage: `before` and `after` are accumulated HP damage.
#[derive(Clone, Copy, Debug, PartialEq, Eq, Structural)]
pub struct BattleIncidentDamageHp {
    pub damage: u32,
    pub before: u32,
    pub after: u32,
}

/// SP cost: `before` and `after` are current SP.
#[derive(Clone, Copy, Debug, PartialEq, Eq, Structural)]
pub struct BattleIncidentDamageSp {
    pub damage: u32,
    pub before: u32,
    pub after: u32,
}

/// Stamina cost: `before` and `after` are current stamina.
#[derive(Clone, Copy, Debug, PartialEq, Eq, Structural)]
pub struct BattleIncidentDamageStamina {
    pub damage: u32,
    pub before: u32,
    pub after: u32,
}

/// Break damage: `before` and `after` are accumulated break damage.
#[derive(Clone, Copy, Debug, PartialEq, Eq, Structural)]
pub struct BattleIncidentDamageBreak {
    pub damage: u32,
    pub before: u32,
    pub after: u32,
}

/// HP recovery: `before` and `after` are accumulated HP damage.
#[derive(Clone, Copy, Debug, PartialEq, Eq, Structural)]
pub struct BattleIncidentRecoverHp {
    pub recover: u32,
    pub before: u32,
    pub after: u32,
}

/// SP recovery: `before` and `after` are accumulated SP damage.
#[derive(Clone, Copy, Debug, PartialEq, Eq, Structural)]
pub struct BattleIncidentRecoverSp {
    pub recover: u32,
    pub before: u32,
    pub after: u32,
}

/// Stamina recovery: `before` and `after` are accumulated stamina damage.
#[derive(Clone, Copy, Debug, PartialEq, Eq, Structural)]
pub struct BattleIncidentRecoverStamina {
    pub recover: u32,
    pub before: u32,
    pub after: u32,
}

/// Break recovery: `before` and `after` are accumulated break damage.
#[derive(Clone, Copy, Debug, PartialEq, Eq, Structural)]
pub struct BattleIncidentRecoverBreak {
    pub recover: u32,
    pub before: u32,
    pub after: u32,
}

/// A status effect applied to or removed from a combatant.
#[derive(Clone, Copy, Debug, PartialEq, Eq, Structural)]
pub struct BattleIncidentStatusEffect {
    pub status_effect: BattleStatusEffect,
    pub status_effect_handling: BattleIncidentStatusEffectHandling,
}

#[derive(Clone, Copy, Debug, PartialEq, Eq, Structural)]
pub enum BattleIncidentStatusEffectHandling {
    Applied(BattleIncidentStatusEffectApplied),
    Removed(BattleIncidentStatusEffectRemoved),
}

#[derive(Clone, Copy, Debug, PartialEq, Eq, Structural)]
pub struct BattleIncidentStatusEffectApplied {
}

#[derive(Clone, Copy, Debug, PartialEq, Eq, Structural)]
pub struct BattleIncidentStatusEffectRemoved {
}

/// A rejected action and why it was rejected.
pub struct BattleIncidentConductOutcomeFailure {
    pub reason: BattleIncidentConductOutcomeFailureReason,
}

/// Exactly one of the four flags is set.
#[derive(Clone, Copy, Debug, PartialEq, Eq, Structural)]
pub struct BattleIncidentConductOutcomeFailureReason {
    pub insufficient_stamina: bool,
    pub insufficient_ability: bool,
    pub insufficient_sp: bool,
    pub is_break: bool,
}

/// The outcome of one scheduled per-turn effect.
pub struct BattleIncidentAutoTrigger {
    pub character_id: BattleCharacterId,
    pub stats_changes: Vec<BattleIncidentStats>,
    pub status_effects: Vec<BattleIncidentStatusEffect>,
}

} // verus!
