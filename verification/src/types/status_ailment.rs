//! Status-effect templates: what a support action or a break trigger
//! applies to a combatant.

use vstd::prelude::*;
use crate::types::equipment::GuardCutRate;

verus! {

/// A status ailment.  Placeholder of the data model; the engine does not
/// read it yet.
pub struct StatusAilment {
}

/// A status condition.  Placeholder of the data model; the engine does not
/// read it yet.
pub struct StatusCondition {
}

/// A status-effect template: what it does and how long it lasts.
#[derive(Clone, Copy)]
pub struct StatusEffect {
    pub potency: StatusEffectPotency,
    pub duration: StatusEffectDuration,
}

/// How long a status effect lasts, counted from its application.
#[derive(Clone, Copy, Debug, PartialEq, Eq, Structural)]
pub enum StatusEffectDuration {
    Permanent,
    Turn(StatusEffectDurationTurn),
    Count(StatusEffectDurationCount),
    UntilNextAction,
}

#[derive(Clone, Copy, Debug, PartialEq, Eq, Structural)]
pub struct StatusEffectDurationTurn {
    pub turns: u32,
}

#[derive(Clone, Copy, Debug, PartialEq, Eq, Structural)]
pub struct StatusEffectDurationCount {
    pub count: u32,
}

/// The semantic kind of a status effect.
#[derive(Clone, Copy, Debug, PartialEq, Eq, Structural)]
pub enum StatusEffectPotency {
    Resistance(StatusEffectResistance),
    Break(StatusEffectBreak),
    Evasion,
    Airborne,
    Floating,
    Melee,
    Ranged,
}

/// A damage-reducing stance: incoming attack power is multiplied by the
/// cut rate.
#[derive(Clone, Copy, Debug, PartialEq, Eq, Structural)]
pub struct StatusEffectResistance {
    pub cut_rate: GuardCutRate,
}

/// The break stagger state: a broken combatant cannot act.
#[derive(Clone, Copy, Debug, PartialEq, Eq, Structural)]
pub struct StatusEffectBreak {
}

} // verus!
