//! Derivation of a player's battle stats and base defense from the raw
//! ability scores.
//!
//! The fractional coefficients of the original design are held as exact
//! rationals: halves are written as `value * n / 2`, the defense
//! coefficients are in tenths.  Every formula saturates at `u32::MAX`.

use vstd::prelude::*;
use crate::types::character::{PlayerAbility, PlayerStats};
use crate::types::common::{sat32, DefensePower};

verus! {

/// The stats a player starts with, derived from the ability scores.
pub open spec fn spec_player_stats(ability: PlayerAbility) -> PlayerStats {
    PlayerStats {
        hp: sat32(50 + ability.vitality * 2),
        sp: sat32(10 + (ability.spirit * 3) / 2),
        stamina: sat32(50 + (ability.endurance * 3) / 2),
        stamina_recovery: sat32(5 + (ability.endurance + ability.vitality) / 2),
        equip_load: sat32(30 + ability.endurance),
    }
}

/// Derives a player's starting stats from the ability scores: HP grows
/// with vitality, SP with spirit, stamina and carrying capacity with
/// endurance, stamina recovery with endurance and vitality together.
pub fn create_player_stats(ability: &PlayerAbility) -> (r: PlayerStats)
    ensures
        r == spec_player_stats(*ability),
{
    let hp: u64 = 50 + (ability.vitality as u64) * 2;
    let sp: u64 = 10 + ((ability.spirit as u64) * 3) / 2;
    let stamina: u64 = 50 + ((ability.endurance as u64) * 3) / 2;
    let recovery: u64 = 5 + ((ability.endurance as u64) + (ability.vitality as u64)) / 2;
    let load: u64 = 30 + (ability.endurance as u64);
    PlayerStats {
        hp: clamp_u32(hp),
        sp: clamp_u32(sp),
        stamina: clamp_u32(stamina),
        stamina_recovery: clamp_u32(recovery),
        equip_load: clamp_u32(load),
    }
}

/// Clamps a 64-bit value into the `u32` range.
fn clamp_u32(v: u64) -> (r: u32)
    ensures
        r == sat32(v as int),
{
    if v > u32::MAX as u64 {
        u32::MAX
    } else {
        v as u32
    }
}

/// The weighted ability sum of one defense component, coefficients in
/// tenths.
pub open spec fn spec_weighted_ability(ability: PlayerAbility, coef: [u32; 9]) -> int {
    ability.vitality * coef[0] + ability.spirit * coef[1] + ability.endurance * coef[2]
        + ability.agility * coef[3] + ability.strength * coef[4] + ability.dexterity * coef[5]
        + ability.intelligence * coef[6] + ability.faith * coef[7] + ability.arcane * coef[8]
}

/// One defense component: the weighted sum in tenths, rounded down and
/// raised to at least one so that the damage division stays defined.
pub open spec fn spec_def_from_ability(ability: PlayerAbility, coef: [u32; 9]) -> u32 {
    let w = spec_weighted_ability(ability, coef) / 10;
    if w < 1 {
        1u32
    } else {
        sat32(w)
    }
}

/// The base defense power a player starts with.
pub open spec fn spec_player_defense_power(ability: PlayerAbility) -> DefensePower {
    DefensePower {
        slash: spec_def_from_ability(ability, [12, 5, 10, 10, 15, 10, 5, 5, 5]),
        strike: spec_def_from_ability(ability, [12, 5, 10, 10, 10, 15, 5, 5, 5]),
        thrust: spec_def_from_ability(ability, [12, 5, 10, 10, 10, 15, 5, 5, 5]),
        impact: spec_def_from_ability(ability, [12, 5, 10, 10, 15, 10, 5, 5, 5]),
        magic: spec_def_from_ability(ability, [12, 10, 5, 10, 5, 5, 14, 10, 10]),
        fire: spec_def_from_ability(ability, [12, 10, 5, 10, 5, 5, 14, 10, 15]),
        lightning: spec_def_from_ability(ability, [12, 10, 5, 10, 5, 5, 14, 15, 10]),
        chaos: spec_def_from_ability(ability, [12, 10, 5, 10, 5, 5, 5, 15, 15]),
    }
}

/// Derives a player's base defense power from the ability scores.  Every
/// component comes out at least one, so the result is well formed.
pub fn create_player_defense_power(ability: &PlayerAbility) -> (r: DefensePower)
    ensures
        r == spec_player_defense_power(*ability),
        r.wf(),
{
    DefensePower {
        slash: calc_def_from_ability(ability, [12, 5, 10, 10, 15, 10, 5, 5, 5]),
        strike: calc_def_from_ability(ability, [12, 5, 10, 10, 10, 15, 5, 5, 5]),
        thrust: calc_def_from_ability(ability, [12, 5, 10, 10, 10, 15, 5, 5, 5]),
        impact: calc_def_from_ability(ability, [12, 5, 10, 10, 15, 10, 5, 5, 5]),
        magic: calc_def_from_ability(ability, [12, 10, 5, 10, 5, 5, 14, 10, 10]),
        fire: calc_def_from_ability(ability, [12, 10, 5, 10, 5, 5, 14, 10, 15]),
        lightning: calc_def_from_ability(ability, [12, 10, 5, 10, 5, 5, 14, 15, 10]),
        chaos: calc_def_from_ability(ability, [12, 10, 5, 10, 5, 5, 5, 15, 15]),
    }
}

/// Computes one defense component from the ability scores and the
/// component's coefficients in tenths.
fn calc_def_from_ability(ability: &PlayerAbility, coef: [u32; 9]) -> (r: u32)
    requires
        forall|i: int| 0 <= i < 9 ==> coef[i] <= 100,
    ensures
        r == spec_def_from_ability(*ability, coef),
        r >= 1,
{
    proof {
        lemma_small_product(ability.vitality, coef[0]);
        lemma_small_product(ability.spirit, coef[1]);
        lemma_small_product(ability.endurance, coef[2]);
        lemma_small_product(ability.agility, coef[3]);
        lemma_small_product(ability.strength, coef[4]);
        lemma_small_product(ability.dexterity, coef[5]);
        lemma_small_product(ability.intelligence, coef[6]);
        lemma_small_product(ability.faith, coef[7]);
        lemma_small_product(ability.arcane, coef[8]);
    }
    let sum: u64 = (ability.vitality as u64) * (coef[0] as u64) + (ability.spirit as u64) * (
    coef[1] as u64) + (ability.endurance as u64) * (coef[2] as u64) + (ability.agility as u64) * (
    coef[3] as u64) + (ability.strength as u64) * (coef[4] as u64) + (ability.dexterity as u64) * (
    coef[5] as u64) + (ability.intelligence as u64) * (coef[6] as u64) + (ability.faith as u64) * (
    coef[7] as u64) + (ability.arcane as u64) * (coef[8] as u64);
    let w: u64 = sum / 10;
    if w < 1 {
        1
    } else if w > u32::MAX as u64 {
        u32::MAX
    } else {
        w as u32
    }
}

/// An ability score times a coefficient of at most 100 stays far below
/// the 64-bit range.
proof fn lemma_small_product(v: u32, c: u32)
    requires
        c <= 100,
    ensures
        (v as int) * (c as int) <= 100 * (u32::MAX as int),
{
    assert((v as int) * (c as int) <= 100 * (u32::MAX as int)) by (nonlinear_arith)
        requires
            v <= u32::MAX,
            c <= 100,
    ;
}

} // verus!
