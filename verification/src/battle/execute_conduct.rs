//! Conduct execution: the eligibility rules, cost application, effect
//! dispatch across the three conduct families, the per-attribute damage
//! formula and the break-gauge updates.

use vstd::prelude::*;
use crate::types::battle::{
    add_capped, add_damage_capped, break_status_effect, has_break, has_resistance,
    is_resistance_effect, sub_damage_floored, sub_floored, Battle, BattleCharacter, BattleConduct,
    BattleStats, BattleStatusEffect, BattleStatusEffectDuration, BattleStatusEffectDurationCount,
    BattleStatusEffectDurationTurn,
};
use crate::types::common::{
    flat_plus_scaled, sat32, scale_per_cent, add_scaled, mul_per_cent, AttackPower,
    AttackPowerScaling, DefensePower,
};
use crate::types::conduct::{
    Conduct, ConductPerk, ConductRequirement, ConductType, ConductTypeBasic,
    ConductTypeBasicSupport, ConductTypeSkillPotency, ConductTypeSkillPotencySupport,
    ConductTypeSorcery, ConductTypeSorcerySupport, SupportRecoverPotency,
};
use crate::types::equipment::GuardCutRate;
use crate::types::status_ailment::{StatusEffect, StatusEffectDuration, StatusEffectPotency};
use crate::types::battle::incident::{
    BattleIncident, BattleIncidentConduct, BattleIncidentConductOutcome,
    BattleIncidentConductOutcomeFailure, BattleIncidentConductOutcomeFailureReason,
    BattleIncidentConductOutcomeSuccess, BattleIncidentConductOutcomeSuccessAttacker,
    BattleIncidentConductOutcomeSuccessDefender, BattleIncidentDamageBreak, BattleIncidentDamageHp,
    BattleIncidentRecoverHp, BattleIncidentRecoverSp, BattleIncidentRecoverStamina,
    BattleIncidentStats, BattleIncidentStatusEffect, BattleIncidentStatusEffectApplied,
    BattleIncidentStatusEffectHandling,
};
use crate::battle::{find_enemy_position, find_player_position};

verus! {

/// The zero attack power.
pub open spec fn zero_attack_power() -> AttackPower {
    AttackPower {
        slash: 0u32,
        strike: 0u32,
        thrust: 0u32,
        impact: 0u32,
        magic: 0u32,
        fire: 0u32,
        lightning: 0u32,
        chaos: 0u32,
    }
}

/// A flat conduct value plus a base value scaled in hundredths; the
/// scalar form of the modifier formula.
pub open spec fn spec_conduct_attack_modifier(
    base_attack_power: u32,
    conduct_attack_power: u32,
    conduct_attack_power_scaling: u32,
) -> u32 {
    flat_plus_scaled(conduct_attack_power, base_attack_power, conduct_attack_power_scaling)
}

/// Scales `base_attack_power` by the conduct's scaling in hundredths and
/// adds the conduct's flat value on top.
pub fn calc_conduct_attack_modifier(
    base_attack_power: u32,
    conduct_attack_power: u32,
    conduct_attack_power_scaling: u32,
) -> (r: u32)
    ensures
        r == spec_conduct_attack_modifier(
            base_attack_power,
            conduct_attack_power,
            conduct_attack_power_scaling,
        ),
{
    add_scaled(conduct_attack_power, base_attack_power, conduct_attack_power_scaling)
}

/// Per attribute: the flat modifier value plus the base value scaled in
/// hundredths.
pub open spec fn spec_attack_power_modifier(
    base: AttackPower,
    modify: AttackPower,
    scaling: AttackPowerScaling,
) -> AttackPower {
    AttackPower {
        slash: flat_plus_scaled(modify.slash, base.slash, scaling.slash),
        strike: flat_plus_scaled(modify.strike, base.strike, scaling.strike),
        thrust: flat_plus_scaled(modify.thrust, base.thrust, scaling.thrust),
        impact: flat_plus_scaled(modify.impact, base.impact, scaling.impact),
        magic: flat_plus_scaled(modify.magic, base.magic, scaling.magic),
        fire: flat_plus_scaled(modify.fire, base.fire, scaling.fire),
        lightning: flat_plus_scaled(modify.lightning, base.lightning, scaling.lightning),
        chaos: flat_plus_scaled(modify.chaos, base.chaos, scaling.chaos),
    }
}

/// Combines a base attack power, a flat modifier and a per-attribute
/// scaling: `modify + base * scaling` on every attribute.
pub fn calc_attack_power_modifier(
    base_attack_power: &AttackPower,
    modify_attack_power: &AttackPower,
    modify_attack_power_scaling: &AttackPowerScaling,
) -> (r: AttackPower)
    ensures
        r == spec_attack_power_modifier(
            *base_attack_power,
            *modify_attack_power,
            *modify_attack_power_scaling,
        ),
{
    AttackPower {
        slash: add_scaled(
            modify_attack_power.slash,
            base_attack_power.slash,
            modify_attack_power_scaling.slash,
        ),
        strike: add_scaled(
            modify_attack_power.strike,
            base_attack_power.strike,
            modify_attack_power_scaling.strike,
        ),
        thrust: add_scaled(
            modify_attack_power.thrust,
            base_attack_power.thrust,
            modify_attack_power_scaling.thrust,
        ),
        impact: add_scaled(
            modify_attack_power.impact,
            base_attack_power.impact,
            modify_attack_power_scaling.impact,
        ),
        magic: add_scaled(
            modify_attack_power.magic,
            base_attack_power.magic,
            modify_attack_power_scaling.magic,
        ),
        fire: add_scaled(
            modify_attack_power.fire,
            base_attack_power.fire,
            modify_attack_power_scaling.fire,
        ),
        lightning: add_scaled(
            modify_attack_power.lightning,
            base_attack_power.lightning,
            modify_attack_power_scaling.lightning,
        ),
        chaos: add_scaled(
            modify_attack_power.chaos,
            base_attack_power.chaos,
            modify_attack_power_scaling.chaos,
        ),
    }
}

/// Per attribute: the attack power multiplied by the cut rate in
/// hundredths.
pub open spec fn spec_attack_power_cut(attack_power: AttackPower, cut: GuardCutRate) -> AttackPower {
    AttackPower {
        slash: scale_per_cent(attack_power.slash, cut.slash),
        strike: scale_per_cent(attack_power.strike, cut.strike),
        thrust: scale_per_cent(attack_power.thrust, cut.thrust),
        impact: scale_per_cent(attack_power.impact, cut.impact),
        magic: scale_per_cent(attack_power.magic, cut.magic),
        fire: scale_per_cent(attack_power.fire, cut.fire),
        lightning: scale_per_cent(attack_power.lightning, cut.lightning),
        chaos: scale_per_cent(attack_power.chaos, cut.chaos),
    }
}

/// Applies a guard cut rate to every attribute of an attack power.
pub fn calc_attack_power_cut_rate(attack_power: &AttackPower, guard_cut_rate: &GuardCutRate) -> (r:
    AttackPower)
    ensures
        r == spec_attack_power_cut(*attack_power, *guard_cut_rate),
{
    AttackPower {
        slash: mul_per_cent(attack_power.slash, guard_cut_rate.slash),
        strike: mul_per_cent(attack_power.strike, guard_cut_rate.strike),
        thrust: mul_per_cent(attack_power.thrust, guard_cut_rate.thrust),
        impact: mul_per_cent(attack_power.impact, guard_cut_rate.impact),
        magic: mul_per_cent(attack_power.magic, guard_cut_rate.magic),
        fire: mul_per_cent(attack_power.fire, guard_cut_rate.fire),
        lightning: mul_per_cent(attack_power.lightning, guard_cut_rate.lightning),
        chaos: mul_per_cent(attack_power.chaos, guard_cut_rate.chaos),
    }
}

/// The damage of an attack: each attribute's power divided by the
/// matching defense component, rounded down, then summed.  Not a ratio
/// of totals.
pub open spec fn spec_damage(attack_power: AttackPower, defense: DefensePower) -> u32
    recommends
        defense.wf(),
{
    sat32(
        attack_power.slash / defense.slash + attack_power.strike / defense.strike
            + attack_power.thrust / defense.thrust + attack_power.impact / defense.impact
            + attack_power.magic / defense.magic + attack_power.fire / defense.fire
            + attack_power.lightning / defense.lightning + attack_power.chaos / defense.chaos,
    )
}

/// Computes the damage of `attack_power` against `defender`: floor
/// division per attribute, then the sum over the eight attributes.
pub fn calc_damage(attack_power: &AttackPower, defender: &DefensePower) -> (r: u32)
    requires
        defender.wf(),
    ensures
        r == spec_damage(*attack_power, *defender),
{
    let sum: u64 = ((attack_power.slash / defender.slash) as u64) + ((attack_power.strike
        / defender.strike) as u64) + ((attack_power.thrust / defender.thrust) as u64) + ((
    attack_power.impact / defender.impact) as u64) + ((attack_power.magic / defender.magic) as u64)
        + ((attack_power.fire / defender.fire) as u64) + ((attack_power.lightning
        / defender.lightning) as u64) + ((attack_power.chaos / defender.chaos) as u64);
    if sum > u32::MAX as u64 {
        u32::MAX
    } else {
        sum as u32
    }
}

/// One step of the resistance pass: a resistance effect multiplies the
/// running attack power by its cut rate; any other effect leaves it.
pub open spec fn resist_step(attack_power: AttackPower, e: BattleStatusEffect) -> AttackPower {
    match e.potency {
        StatusEffectPotency::Resistance(r) => spec_attack_power_cut(attack_power, r.cut_rate),
        _ => attack_power,
    }
}

/// The attack power after every resistance on the target has been
/// applied, in list order.
pub open spec fn spec_apply_resistances(
    attack_power: AttackPower,
    effects: Seq<BattleStatusEffect>,
) -> AttackPower
    decreases effects.len(),
{
    if effects.len() == 0 {
        attack_power
    } else {
        resist_step(spec_apply_resistances(attack_power, effects.drop_last()), effects.last())
    }
}

/// Applies every resistance among `effects` to `attack_power`, in list
/// order; also reports whether any resistance was seen.
fn apply_resistances(attack_power: AttackPower, effects: &Vec<BattleStatusEffect>) -> (r: (
    AttackPower,
    bool,
))
    ensures
        r.0 == spec_apply_resistances(attack_power, effects@),
        r.1 == has_resistance(effects@),
{
    let n = effects.len();
    let mut current = attack_power;
    let mut defended = false;
    let mut i: usize = 0;
    while i < n
        invariant
            i <= n,
            n == effects@.len(),
            current == spec_apply_resistances(attack_power, effects@.subrange(0, i as int)),
            defended == has_resistance(effects@.subrange(0, i as int)),
        decreases n - i,
    {
        proof {
            let sub0 = effects@.subrange(0, i as int);
            let sub1 = effects@.subrange(0, i + 1);
            assert(sub1.drop_last() =~= sub0);
            assert(sub1.last() == effects@[i as int]);
            if is_resistance_effect(effects@[i as int]) {
                assert(is_resistance_effect(sub1[i as int]));
                assert(has_resistance(sub1));
            } else if has_resistance(sub1) {
                let k = choose|k: int| 0 <= k < sub1.len() && is_resistance_effect(sub1[k]);
                assert(sub1[k] == effects@[k]);
                if k < i {
                    assert(is_resistance_effect(sub0[k]));
                    assert(has_resistance(sub0));
                }
            }
        }
        match &effects[i].potency {
            StatusEffectPotency::Resistance(resistance) => {
                current = calc_attack_power_cut_rate(&current, &resistance.cut_rate);
                defended = true;
            },
            _ => {},
        }
        i += 1;
    }
    proof {
        assert(effects@.subrange(0, n as int) =~= effects@);
    }
    (current, defended)
}

/// Whether a potency makes the carrier evade the given conduct.
pub open spec fn spec_evade_rule(p: StatusEffectPotency, ranged: bool, at_feet: bool) -> bool {
    match p {
        StatusEffectPotency::Evasion => true,
        StatusEffectPotency::Airborne => !ranged,
        StatusEffectPotency::Floating => at_feet,
        StatusEffectPotency::Ranged => !ranged,
        _ => false,
    }
}

/// Whether the target evades: some status effect's evasion rule fires
/// against a conduct with the given perks.
pub open spec fn spec_evades(effects: Seq<BattleStatusEffect>, ranged: bool, at_feet: bool) -> bool {
    exists|i: int|
        0 <= i < effects.len() && spec_evade_rule(#[trigger] effects[i].potency, ranged, at_feet)
}

/// Scans the target's status effects for one whose evasion rule fires.
fn scan_evasion(effects: &Vec<BattleStatusEffect>, ranged: bool, at_feet: bool) -> (r: bool)
    ensures
        r == spec_evades(effects@, ranged, at_feet),
{
    let n = effects.len();
    let mut i: usize = 0;
    while i < n
        invariant
            i <= n,
            n == effects@.len(),
            forall|k: int| 0 <= k < i ==> !spec_evade_rule(#[trigger] effects@[k].potency, ranged, at_feet),
        decreases n - i,
    {
        let fires = match &effects[i].potency {
            StatusEffectPotency::Evasion => true,
            StatusEffectPotency::Airborne => !ranged,
            StatusEffectPotency::Floating => at_feet,
            StatusEffectPotency::Ranged => !ranged,
            _ => false,
        };
        if fires {
            return true;
        }
        i += 1;
    }
    false
}

/// Whether `perks` carries `perk`.
fn contains_perk(perks: &Vec<ConductPerk>, perk: ConductPerk) -> (r: bool)
    ensures
        r == perks@.contains(perk),
{
    let n = perks.len();
    let mut i: usize = 0;
    while i < n
        invariant
            i <= n,
            n == perks@.len(),
            forall|k: int| 0 <= k < i ==> perks@[k] != perk,
        decreases n - i,
    {
        if perks[i] == perk {
            return true;
        }
        i += 1;
    }
    false
}

/// Scans for the break stagger state.
fn scan_break(effects: &Vec<BattleStatusEffect>) -> (r: bool)
    ensures
        r == has_break(effects@),
{
    let n = effects.len();
    let mut i: usize = 0;
    while i < n
        invariant
            i <= n,
            n == effects@.len(),
            forall|k: int| 0 <= k < i ==> !(#[trigger] effects@[k].potency is Break),
        decreases n - i,
    {
        if let StatusEffectPotency::Break(_) = &effects[i].potency {
            return true;
        }
        i += 1;
    }
    false
}

/// A status-effect template turned into a live battle status effect:
/// the elapsed counters start at zero.
pub open spec fn spec_battle_status_effect(e: StatusEffect) -> BattleStatusEffect {
    BattleStatusEffect {
        potency: e.potency,
        duration: match e.duration {
            StatusEffectDuration::Permanent => BattleStatusEffectDuration::Permanent,
            StatusEffectDuration::Turn(t) => BattleStatusEffectDuration::Turn(
                BattleStatusEffectDurationTurn { turns: t.turns, elapsed_turns: 0u32 },
            ),
            StatusEffectDuration::Count(c) => BattleStatusEffectDuration::Count(
                BattleStatusEffectDurationCount { count: c.count, elapsed_count: 0u32 },
            ),
            StatusEffectDuration::UntilNextAction => BattleStatusEffectDuration::UntilNextAction,
        },
    }
}

/// Converts a status-effect template into a live battle status effect,
/// resetting the elapsed counters.
pub fn create_battle_status_effect(status_effect: &StatusEffect) -> (r: BattleStatusEffect)
    ensures
        r == spec_battle_status_effect(*status_effect),
{
    let duration = match &status_effect.duration {
        StatusEffectDuration::Permanent => BattleStatusEffectDuration::Permanent,
        StatusEffectDuration::Turn(t) => BattleStatusEffectDuration::Turn(
            BattleStatusEffectDurationTurn { turns: t.turns, elapsed_turns: 0 },
        ),
        StatusEffectDuration::Count(c) => BattleStatusEffectDuration::Count(
            BattleStatusEffectDurationCount { count: c.count, elapsed_count: 0 },
        ),
        StatusEffectDuration::UntilNextAction => BattleStatusEffectDuration::UntilNextAction,
    };
    BattleStatusEffect { potency: status_effect.potency, duration }
}

/// The live status effects a support payload applies, in payload order.
pub open spec fn spec_converted_effects(templates: Seq<StatusEffect>) -> Seq<BattleStatusEffect> {
    templates.map_values(|e: StatusEffect| spec_battle_status_effect(e))
}

/// One `Applied` incident per template, in payload order.
pub open spec fn spec_applied_incidents(templates: Seq<StatusEffect>) -> Seq<
    BattleIncidentStatusEffect,
> {
    templates.map_values(
        |e: StatusEffect|
            BattleIncidentStatusEffect {
                status_effect: spec_battle_status_effect(e),
                status_effect_handling: BattleIncidentStatusEffectHandling::Applied(
                    BattleIncidentStatusEffectApplied {  },
                ),
            },
    )
}

/// Applies every status effect of a support payload to the target:
/// each template is converted (elapsed counters reset) and appended to
/// the target's list, without deduplication.  Returns one `Applied`
/// incident per effect, in payload order.
pub fn support_status_effect(
    status_effects: &Vec<StatusEffect>,
    target: &mut BattleCharacter,
) -> (r: Vec<BattleIncidentStatusEffect>)
    ensures
        BattleCharacter::same_identity(*old(target), *final(target)),
        final(target).spec_stats() == old(target).spec_stats(),
        *final(target) is Enemy ==> final(target).spec_enemy_only_stats() == old(
            target,
        ).spec_enemy_only_stats(),
        final(target).spec_effects() == old(target).spec_effects() + spec_converted_effects(
            status_effects@,
        ),
        r@ == spec_applied_incidents(status_effects@),
{
    let ghost initial = target.spec_effects();
    let mut incidents: Vec<BattleIncidentStatusEffect> = Vec::new();
    let list = target.status_effects_mut();
    let n = status_effects.len();
    let mut i: usize = 0;
    while i < n
        invariant
            i <= n,
            n == status_effects@.len(),
            list@ == initial + spec_converted_effects(status_effects@.subrange(0, i as int)),
            incidents@ == spec_applied_incidents(status_effects@.subrange(0, i as int)),
        decreases n - i,
    {
        proof {
            assert(status_effects@.subrange(0, i + 1) =~= status_effects@.subrange(0, i as int).push(
                status_effects@[i as int],
            ));
            assert(spec_converted_effects(status_effects@.subrange(0, i + 1))
                =~= spec_converted_effects(status_effects@.subrange(0, i as int)).push(
                spec_battle_status_effect(status_effects@[i as int]),
            ));
            assert(spec_applied_incidents(status_effects@.subrange(0, i + 1))
                =~= spec_applied_incidents(status_effects@.subrange(0, i as int)).push(
                BattleIncidentStatusEffect {
                    status_effect: spec_battle_status_effect(status_effects@[i as int]),
                    status_effect_handling: BattleIncidentStatusEffectHandling::Applied(
                        BattleIncidentStatusEffectApplied {  },
                    ),
                },
            ));
        }
        let battle_status_effect = create_battle_status_effect(&status_effects[i]);
        list.push(battle_status_effect);
        incidents.push(
            BattleIncidentStatusEffect {
                status_effect: battle_status_effect,
                status_effect_handling: BattleIncidentStatusEffectHandling::Applied(
                    BattleIncidentStatusEffectApplied {  },
                ),
            },
        );
        i += 1;
    }
    proof {
        assert(status_effects@.subrange(0, n as int) =~= status_effects@);
    }
    incidents
}

/// What an attack with raw power `raw` and break power `break_power`
/// does to `pre`, yielding `post` and the defender record `out`:
/// resistances cut the power in list order, the per-attribute damage sum
/// raises the accumulated HP damage (clamped to capacity), and an
/// unbroken enemy additionally takes break damage, entering the break
/// stagger when the gauge would overflow.
pub open spec fn attack_rel(
    pre: BattleCharacter,
    post: BattleCharacter,
    out: BattleIncidentConductOutcomeSuccessDefender,
    raw: AttackPower,
    break_power: u32,
) -> bool {
    let effects0 = pre.spec_effects();
    let cut_power = spec_apply_resistances(raw, effects0);
    let damage = spec_damage(cut_power, pre.spec_defense());
    let stats0 = pre.spec_stats();
    let hp1 = add_capped(stats0.hp_damage, damage, stats0.max_hp);
    let hp_inc = BattleIncidentStats::DamageHp(
        BattleIncidentDamageHp { damage, before: stats0.hp_damage, after: hp1 },
    );
    &&& BattleCharacter::same_identity(pre, post)
    &&& post.spec_stats() == (BattleStats { hp_damage: hp1, ..stats0 })
    &&& out.character_id == pre.spec_character_id()
    &&& !out.is_evaded
    &&& out.is_defended == has_resistance(effects0)
    &&& match (pre, post) {
        (BattleCharacter::Player(_), BattleCharacter::Player(_)) => {
            &&& post.spec_effects() == effects0
            &&& out.stats_changes@ == seq![hp_inc]
            &&& out.status_effects@.len() == 0
        },
        (BattleCharacter::Enemy(e0), BattleCharacter::Enemy(e1)) => {
            let only0 = e0.current_enemy_only_stats;
            if has_break(effects0) {
                &&& e1.current_enemy_only_stats == only0
                &&& post.spec_effects() == effects0
                &&& out.stats_changes@ == seq![hp_inc]
                &&& out.status_effects@.len() == 0
            } else {
                let bd1 = add_capped(only0.break_damage, break_power, only0.max_break);
                let crossed = only0.break_damage + break_power > only0.max_break;
                let break_inc = BattleIncidentStats::DamageBreak(
                    BattleIncidentDamageBreak {
                        damage: break_power,
                        before: only0.break_damage,
                        after: bd1,
                    },
                );
                &&& e1.current_enemy_only_stats == (crate::types::battle::BattleEnemyOnlyStats {
                    break_damage: bd1,
                    break_not_damaged_turns: 0u32,
                    ..only0
                })
                &&& out.stats_changes@ == seq![hp_inc, break_inc]
                &&& if crossed {
                    &&& post.spec_effects() == effects0.push(break_status_effect())
                    &&& out.status_effects@ == seq![
                        BattleIncidentStatusEffect {
                            status_effect: break_status_effect(),
                            status_effect_handling: BattleIncidentStatusEffectHandling::Applied(
                                BattleIncidentStatusEffectApplied {  },
                            ),
                        },
                    ]
                } else {
                    &&& post.spec_effects() == effects0
                    &&& out.status_effects@.len() == 0
                }
            }
        },
        _ => false,
    }
}

/// Resolves an attack with raw power `raw` and break power
/// `break_power` against the target.
fn apply_attack(target: &mut BattleCharacter, raw: AttackPower, break_power: u32) -> (r:
    BattleIncidentConductOutcomeSuccessDefender)
    requires
        old(target).wf(),
    ensures
        final(target).wf(),
        attack_rel(*old(target), *final(target), r, raw, break_power),
{
    let (cut_power, defended) = apply_resistances(raw, target.status_effects());
    let damage = calc_damage(&cut_power, target.defense_power());
    match target {
        BattleCharacter::Player(p) => {
            let before = p.base.current_stats.hp_damage;
            let next = add_damage_capped(before, damage, p.base.current_stats.max_hp);
            p.base.current_stats.hp_damage = next;
            let mut stats_changes: Vec<BattleIncidentStats> = Vec::new();
            stats_changes.push(
                BattleIncidentStats::DamageHp(
                    BattleIncidentDamageHp { damage, before, after: next },
                ),
            );
            let out = BattleIncidentConductOutcomeSuccessDefender {
                character_id: p.character_id,
                stats_changes,
                status_effects: Vec::new(),
                is_evaded: false,
                is_defended: defended,
            };
            proof {
                assert(out.stats_changes@ =~= seq![
                    BattleIncidentStats::DamageHp(
                        BattleIncidentDamageHp { damage, before, after: next },
                    ),
                ]);
            }
            out
        },
        BattleCharacter::Enemy(e) => {
            let before = e.base.current_stats.hp_damage;
            let next = add_damage_capped(before, damage, e.base.current_stats.max_hp);
            e.base.current_stats.hp_damage = next;
            let hp_inc = BattleIncidentStats::DamageHp(
                BattleIncidentDamageHp { damage, before, after: next },
            );
            let mut stats_changes: Vec<BattleIncidentStats> = Vec::new();
            stats_changes.push(hp_inc);
            let mut status_effect_incidents: Vec<BattleIncidentStatusEffect> = Vec::new();
            let broken = scan_break(&e.base.status_effects);
            if !broken {
                let bd0 = e.current_enemy_only_stats.break_damage;
                let max_break = e.current_enemy_only_stats.max_break;
                let crossed = (bd0 as u64) + (break_power as u64) > (max_break as u64);
                let bd1 = add_damage_capped(bd0, break_power, max_break);
                e.current_enemy_only_stats.break_damage = bd1;
                e.current_enemy_only_stats.break_not_damaged_turns = 0;
                if crossed {
                    let staggered = BattleStatusEffect {
                        potency: StatusEffectPotency::Break(
                            crate::types::status_ailment::StatusEffectBreak {  },
                        ),
                        duration: BattleStatusEffectDuration::Permanent,
                    };
                    e.base.status_effects.push(staggered);
                    status_effect_incidents.push(
                        BattleIncidentStatusEffect {
                            status_effect: staggered,
                            status_effect_handling: BattleIncidentStatusEffectHandling::Applied(
                                BattleIncidentStatusEffectApplied {  },
                            ),
                        },
                    );
                }
                let break_inc = BattleIncidentStats::DamageBreak(
                    BattleIncidentDamageBreak { damage: break_power, before: bd0, after: bd1 },
                );
                stats_changes.push(break_inc);
                proof {
                    assert(stats_changes@ =~= seq![hp_inc, break_inc]);
                    if crossed {
                        assert(status_effect_incidents@ =~= seq![
                            BattleIncidentStatusEffect {
                                status_effect: break_status_effect(),
                                status_effect_handling: BattleIncidentStatusEffectHandling::Applied(
                                    BattleIncidentStatusEffectApplied {  },
                                ),
                            },
                        ]);
                    }
                }
            } else {
                proof {
                    assert(stats_changes@ =~= seq![hp_inc]);
                }
            }
            BattleIncidentConductOutcomeSuccessDefender {
                character_id: e.character_id,
                stats_changes,
                status_effects: status_effect_incidents,
                is_evaded: false,
                is_defended: defended,
            }
        },
    }
}

/// One recovery potency applied to `stats`: the matching accumulated
/// damage drops by the recovery amount, floored at zero, and one
/// incident reports the damage values before and after.  Stamina
/// recovery is for players only; on an enemy it does nothing and leaves
/// no incident.
pub open spec fn spec_recover_step(
    stats: BattleStats,
    is_player: bool,
    p: SupportRecoverPotency,
) -> (BattleStats, Seq<BattleIncidentStats>) {
    match p {
        SupportRecoverPotency::Hp(h) => {
            let after = sub_floored(stats.hp_damage, h.hp_recover);
            (
                BattleStats { hp_damage: after, ..stats },
                seq![
                    BattleIncidentStats::RecoverHp(
                        BattleIncidentRecoverHp {
                            recover: h.hp_recover,
                            before: stats.hp_damage,
                            after,
                        },
                    ),
                ],
            )
        },
        SupportRecoverPotency::Sp(s) => {
            let after = sub_floored(stats.sp_damage, s.sp_recover);
            (
                BattleStats { sp_damage: after, ..stats },
                seq![
                    BattleIncidentStats::RecoverSp(
                        BattleIncidentRecoverSp {
                            recover: s.sp_recover,
                            before: stats.sp_damage,
                            after,
                        },
                    ),
                ],
            )
        },
        SupportRecoverPotency::Stamina(st) => {
            if is_player {
                let after = sub_floored(stats.stamina_damage, st.stamina_recover);
                (
                    BattleStats { stamina_damage: after, ..stats },
                    seq![
                        BattleIncidentStats::RecoverStamina(
                            BattleIncidentRecoverStamina {
                                recover: st.stamina_recover,
                                before: stats.stamina_damage,
                                after,
                            },
                        ),
                    ],
                )
            } else {
                (stats, Seq::empty())
            }
        },
    }
}

/// The stats and incidents after every recovery potency has been
/// applied, in payload order.
pub open spec fn spec_recover(
    stats: BattleStats,
    is_player: bool,
    potencies: Seq<SupportRecoverPotency>,
) -> (BattleStats, Seq<BattleIncidentStats>)
    decreases potencies.len(),
{
    if potencies.len() == 0 {
        (stats, Seq::empty())
    } else {
        let front = spec_recover(stats, is_player, potencies.drop_last());
        let step = spec_recover_step(front.0, is_player, potencies.last());
        (step.0, front.1 + step.1)
    }
}

/// Applies a recovery payload to the target, potency by potency.
fn apply_recover(potencies: &Vec<SupportRecoverPotency>, target: &mut BattleCharacter) -> (r: Vec<
    BattleIncidentStats,
>)
    requires
        old(target).wf(),
    ensures
        final(target).wf(),
        BattleCharacter::same_identity(*old(target), *final(target)),
        final(target).spec_stats() == spec_recover(
            old(target).spec_stats(),
            old(target).is_player(),
            potencies@,
        ).0,
        r@ == spec_recover(old(target).spec_stats(), old(target).is_player(), potencies@).1,
        final(target).spec_effects() == old(target).spec_effects(),
        *final(target) is Enemy ==> final(target).spec_enemy_only_stats() == old(
            target,
        ).spec_enemy_only_stats(),
{
    let is_player = match target {
        BattleCharacter::Player(_) => true,
        BattleCharacter::Enemy(_) => false,
    };
    let ghost initial = target.spec_stats();
    let mut incidents: Vec<BattleIncidentStats> = Vec::new();
    let stats = target.current_stats_mut();
    let n = potencies.len();
    let mut i: usize = 0;
    while i < n
        invariant
            i <= n,
            n == potencies@.len(),
            stats.max_hp == initial.max_hp,
            stats.max_sp == initial.max_sp,
            stats.max_stamina == initial.max_stamina,
            initial.wf() ==> stats.wf(),
            *stats == spec_recover(initial, is_player, potencies@.subrange(0, i as int)).0,
            incidents@ == spec_recover(initial, is_player, potencies@.subrange(0, i as int)).1,
        decreases n - i,
    {
        proof {
            assert(potencies@.subrange(0, i + 1).drop_last() =~= potencies@.subrange(0, i as int));
            assert(potencies@.subrange(0, i + 1).last() == potencies@[i as int]);
        }
        match &potencies[i] {
            SupportRecoverPotency::Hp(h) => {
                let before = stats.hp_damage;
                let after = sub_damage_floored(before, h.hp_recover);
                stats.hp_damage = after;
                incidents.push(
                    BattleIncidentStats::RecoverHp(
                        BattleIncidentRecoverHp { recover: h.hp_recover, before, after },
                    ),
                );
            },
            SupportRecoverPotency::Sp(s) => {
                let before = stats.sp_damage;
                let after = sub_damage_floored(before, s.sp_recover);
                stats.sp_damage = after;
                incidents.push(
                    BattleIncidentStats::RecoverSp(
                        BattleIncidentRecoverSp { recover: s.sp_recover, before, after },
                    ),
                );
            },
            SupportRecoverPotency::Stamina(st) => {
                if is_player {
                    let before = stats.stamina_damage;
                    let after = sub_damage_floored(before, st.stamina_recover);
                    stats.stamina_damage = after;
                    incidents.push(
                        BattleIncidentStats::RecoverStamina(
                            BattleIncidentRecoverStamina {
                                recover: st.stamina_recover,
                                before,
                                after,
                            },
                        ),
                    );
                }
            },
        }
        i += 1;
    }
    proof {
        assert(potencies@.subrange(0, n as int) =~= potencies@);
    }
    incidents
}

/// What a status-effect support payload does: each template is applied
/// to the target in payload order, stats stay untouched.
pub open spec fn support_effect_rel(
    pre: BattleCharacter,
    post: BattleCharacter,
    out: BattleIncidentConductOutcomeSuccessDefender,
    templates: Seq<StatusEffect>,
) -> bool {
    &&& BattleCharacter::same_identity(pre, post)
    &&& post.spec_stats() == pre.spec_stats()
    &&& (post is Enemy ==> post.spec_enemy_only_stats() == pre.spec_enemy_only_stats())
    &&& post.spec_effects() == pre.spec_effects() + spec_converted_effects(templates)
    &&& out.character_id == pre.spec_character_id()
    &&& out.stats_changes@.len() == 0
    &&& out.status_effects@ == spec_applied_incidents(templates)
    &&& !out.is_defended
    &&& !out.is_evaded
}

/// What a recovery support payload does: the potencies run in order,
/// status effects stay untouched.
pub open spec fn recover_rel(
    pre: BattleCharacter,
    post: BattleCharacter,
    out: BattleIncidentConductOutcomeSuccessDefender,
    potencies: Seq<SupportRecoverPotency>,
) -> bool {
    &&& BattleCharacter::same_identity(pre, post)
    &&& post.spec_stats() == spec_recover(pre.spec_stats(), pre.is_player(), potencies).0
    &&& (post is Enemy ==> post.spec_enemy_only_stats() == pre.spec_enemy_only_stats())
    &&& post.spec_effects() == pre.spec_effects()
    &&& out.character_id == pre.spec_character_id()
    &&& out.stats_changes@ == spec_recover(pre.spec_stats(), pre.is_player(), potencies).1
    &&& out.status_effects@.len() == 0
    &&& !out.is_defended
    &&& !out.is_evaded
}

/// The attack power a weapon contributes to a skill: the snapshot's flat
/// attack power, or zero without a weapon.
pub open spec fn spec_weapon_attack_power(c: BattleConduct) -> AttackPower {
    match c.weapon {
        Some(w) => w.attack_power,
        None => zero_attack_power(),
    }
}

/// The sorcery multiplier in hundredths: the weapon's, or one hundred
/// (a factor of one) without a weapon.
pub open spec fn spec_weapon_sorcery_power(c: BattleConduct) -> u32 {
    match c.weapon {
        Some(w) => w.sorcery_power,
        None => 100u32,
    }
}

/// What resolving `c` against one target does.  The first matching
/// evasion rule short-circuits with an evaded record and no change;
/// otherwise the conduct family decides: attacks follow `attack_rel`
/// with the family's raw attack power and break power, support payloads
/// follow `support_effect_rel` or `recover_rel`.
pub open spec fn effect_rel(
    c: BattleConduct,
    pre: BattleCharacter,
    post: BattleCharacter,
    out: BattleIncidentConductOutcomeSuccessDefender,
) -> bool {
    let ranged = c.conduct.perks@.contains(ConductPerk::Ranged);
    let at_feet = c.conduct.perks@.contains(ConductPerk::AtFeet);
    if spec_evades(pre.spec_effects(), ranged, at_feet) {
        &&& post == pre
        &&& out.character_id == pre.spec_character_id()
        &&& out.stats_changes@.len() == 0
        &&& out.status_effects@.len() == 0
        &&& !out.is_defended
        &&& out.is_evaded
    } else {
        match c.conduct.conduct_type {
            ConductType::Basic(ConductTypeBasic::Attack(a)) => attack_rel(
                pre,
                post,
                out,
                a.attack_power,
                a.break_power,
            ),
            ConductType::Basic(ConductTypeBasic::Support(ConductTypeBasicSupport::StatusEffect(se))) => support_effect_rel(
                pre,
                post,
                out,
                se.status_effects@,
            ),
            ConductType::Basic(ConductTypeBasic::Support(ConductTypeBasicSupport::Recover(rec))) => recover_rel(
                pre,
                post,
                out,
                rec.potencies@,
            ),
            ConductType::Skill(sk) => match sk.potency {
                ConductTypeSkillPotency::Attack(a) => attack_rel(
                    pre,
                    post,
                    out,
                    spec_attack_power_modifier(
                        a.attack_power,
                        spec_weapon_attack_power(c),
                        a.attack_power_scaling,
                    ),
                    spec_conduct_attack_modifier(0u32, a.break_power, a.break_power_scaling),
                ),
                ConductTypeSkillPotency::Support(
                    ConductTypeSkillPotencySupport::StatusEffect(se),
                ) => support_effect_rel(pre, post, out, se.status_effects@),
            },
            ConductType::Sorcery(ConductTypeSorcery::Attack(a)) => attack_rel(
                pre,
                post,
                out,
                a.attack_power.spec_multiplied(spec_weapon_sorcery_power(c)),
                a.break_power,
            ),
            ConductType::Sorcery(ConductTypeSorcery::Support(
                ConductTypeSorcerySupport::StatusEffect(se),
            )) => support_effect_rel(pre, post, out, se.status_effects@),
        }
    }
}

/// Resolves the conduct of `conduct` against the single target: the
/// evasion gate first, then the family's attack or support effect.
pub fn conduct_effect(conduct: &BattleConduct, target: &mut BattleCharacter) -> (r:
    BattleIncidentConductOutcomeSuccessDefender)
    requires
        old(target).wf(),
    ensures
        final(target).wf(),
        effect_rel(*conduct, *old(target), *final(target), r),
{
    let ranged = contains_perk(&conduct.conduct.perks, ConductPerk::Ranged);
    let at_feet = contains_perk(&conduct.conduct.perks, ConductPerk::AtFeet);
    if scan_evasion(target.status_effects(), ranged, at_feet) {
        return BattleIncidentConductOutcomeSuccessDefender {
            character_id: target.character_id(),
            stats_changes: Vec::new(),
            status_effects: Vec::new(),
            is_evaded: true,
            is_defended: false,
        };
    }
    match &conduct.conduct.conduct_type {
        ConductType::Basic(basic) => match basic {
            ConductTypeBasic::Attack(conduct_attack) => apply_attack(
                target,
                conduct_attack.attack_power,
                conduct_attack.break_power,
            ),
            ConductTypeBasic::Support(support) => match support {
                ConductTypeBasicSupport::StatusEffect(status_effect) => {
                    let incidents = support_status_effect(&status_effect.status_effects, target);
                    BattleIncidentConductOutcomeSuccessDefender {
                        character_id: target.character_id(),
                        stats_changes: Vec::new(),
                        status_effects: incidents,
                        is_evaded: false,
                        is_defended: false,
                    }
                },
                ConductTypeBasicSupport::Recover(recover) => {
                    let incidents = apply_recover(&recover.potencies, target);
                    BattleIncidentConductOutcomeSuccessDefender {
                        character_id: target.character_id(),
                        stats_changes: incidents,
                        status_effects: Vec::new(),
                        is_evaded: false,
                        is_defended: false,
                    }
                },
            },
        },
        ConductType::Skill(skill) => match &skill.potency {
            ConductTypeSkillPotency::Attack(skill_attack) => {
                let weapon_attack_power = match &conduct.weapon {
                    Some(w) => w.attack_power,
                    None => AttackPower::default(),
                };
                let raw = calc_attack_power_modifier(
                    &skill_attack.attack_power,
                    &weapon_attack_power,
                    &skill_attack.attack_power_scaling,
                );
                let break_power = calc_conduct_attack_modifier(
                    0,
                    skill_attack.break_power,
                    skill_attack.break_power_scaling,
                );
                apply_attack(target, raw, break_power)
            },
            ConductTypeSkillPotency::Support(support) => match support {
                ConductTypeSkillPotencySupport::StatusEffect(status_effect) => {
                    let incidents = support_status_effect(&status_effect.status_effects, target);
                    BattleIncidentConductOutcomeSuccessDefender {
                        character_id: target.character_id(),
                        stats_changes: Vec::new(),
                        status_effects: incidents,
                        is_evaded: false,
                        is_defended: false,
                    }
                },
            },
        },
        ConductType::Sorcery(sorcery) => match sorcery {
            ConductTypeSorcery::Attack(sorcery_attack) => {
                let sorcery_power = match &conduct.weapon {
                    Some(w) => w.sorcery_power,
                    None => 100,
                };
                let mut raw = sorcery_attack.attack_power;
                raw.multiply(sorcery_power);
                apply_attack(target, raw, sorcery_attack.break_power)
            },
            ConductTypeSorcery::Support(support) => match support {
                ConductTypeSorcerySupport::StatusEffect(status_effect) => {
                    let incidents = support_status_effect(&status_effect.status_effects, target);
                    BattleIncidentConductOutcomeSuccessDefender {
                        character_id: target.character_id(),
                        stats_changes: Vec::new(),
                        status_effects: incidents,
                        is_evaded: false,
                        is_defended: false,
                    }
                },
            },
        },
    }
}

/// Whether some ability score stays below the conduct's requirement.
pub open spec fn spec_ability_insufficient(
    ability: crate::types::battle::BattleAbility,
    req: ConductRequirement,
) -> bool {
    ||| ability.strength < req.strength
    ||| ability.dexterity < req.dexterity
    ||| ability.intelligence < req.intelligence
    ||| ability.faith < req.faith
    ||| ability.arcane < req.arcane
    ||| ability.agility < req.agility
}

/// Why a conduct is rejected, evaluated in fixed priority order: a
/// player without the stamina for the cost fails first; a broken actor
/// fails next; then missing ability scores; then missing SP.  `None`
/// when the conduct may run.
pub open spec fn spec_failure_reason(c: BattleConduct, attacker: BattleCharacter) -> Option<
    BattleIncidentConductOutcomeFailureReason,
> {
    let stats = attacker.spec_stats();
    if attacker.is_player() && stats.max_stamina - stats.stamina_damage < c.conduct.stamina_cost {
        Some(
            BattleIncidentConductOutcomeFailureReason {
                insufficient_stamina: true,
                insufficient_ability: false,
                insufficient_sp: false,
                is_break: false,
            },
        )
    } else if has_break(attacker.spec_effects()) {
        Some(
            BattleIncidentConductOutcomeFailureReason {
                insufficient_stamina: false,
                insufficient_ability: false,
                insufficient_sp: false,
                is_break: true,
            },
        )
    } else if spec_ability_insufficient(attacker.spec_ability(), c.conduct.requirement) {
        Some(
            BattleIncidentConductOutcomeFailureReason {
                insufficient_stamina: false,
                insufficient_ability: true,
                insufficient_sp: false,
                is_break: false,
            },
        )
    } else if stats.max_sp - stats.sp_damage < c.conduct.sp_cost {
        Some(
            BattleIncidentConductOutcomeFailureReason {
                insufficient_stamina: false,
                insufficient_ability: false,
                insufficient_sp: true,
                is_break: false,
            },
        )
    } else {
        None
    }
}

/// Decides whether the conduct may run.  Returns the failure reason of
/// highest priority, or `None` when the actor is eligible.
pub fn determine_action_outcome_failure(
    conduct: &BattleConduct,
    attacker: &BattleCharacter,
) -> (r: Option<BattleIncidentConductOutcomeFailureReason>)
    requires
        attacker.wf(),
    ensures
        r == spec_failure_reason(*conduct, *attacker),
{
    if let BattleCharacter::Player(player) = attacker {
        let stats = &player.base.current_stats;
        if stats.max_stamina - stats.stamina_damage < conduct.conduct.stamina_cost {
            return Some(
                BattleIncidentConductOutcomeFailureReason {
                    insufficient_stamina: true,
                    insufficient_ability: false,
                    insufficient_sp: false,
                    is_break: false,
                },
            );
        }
    }
    if scan_break(attacker.status_effects()) {
        return Some(
            BattleIncidentConductOutcomeFailureReason {
                insufficient_stamina: false,
                insufficient_ability: false,
                insufficient_sp: false,
                is_break: true,
            },
        );
    }
    let req = &conduct.conduct.requirement;
    let ability = attacker.current_ability();
    if ability.strength < req.strength || ability.dexterity < req.dexterity
        || ability.intelligence < req.intelligence || ability.faith < req.faith || ability.arcane
        < req.arcane || ability.agility < req.agility {
        return Some(
            BattleIncidentConductOutcomeFailureReason {
                insufficient_stamina: false,
                insufficient_ability: true,
                insufficient_sp: false,
                is_break: false,
            },
        );
    }
    let stats = attacker.current_stats();
    if stats.max_sp - stats.sp_damage < conduct.conduct.sp_cost {
        return Some(
            BattleIncidentConductOutcomeFailureReason {
                insufficient_stamina: false,
                insufficient_ability: false,
                insufficient_sp: true,
                is_break: false,
            },
        );
    }
    None
}

/// The actor's stats after the costs: the SP cost raises the SP damage;
/// a player additionally pays the stamina cost.  Meaningful when the
/// eligibility check has passed, which bounds both sums.
pub open spec fn spec_charged_stats(stats: BattleStats, c: Conduct, is_player: bool) -> BattleStats {
    BattleStats {
        sp_damage: (stats.sp_damage + c.sp_cost) as u32,
        stamina_damage: if is_player {
            (stats.stamina_damage + c.stamina_cost) as u32
        } else {
            stats.stamina_damage
        },
        ..stats
    }
}

/// The cost incidents of the actor: the SP cost with current SP before
/// and after, then, for a player, the stamina cost likewise.
pub open spec fn spec_attacker_changes(stats: BattleStats, c: Conduct, is_player: bool) -> Seq<
    BattleIncidentStats,
> {
    let sp_inc = BattleIncidentStats::DamageSp(
        crate::types::battle::incident::BattleIncidentDamageSp {
            damage: c.sp_cost,
            before: (stats.max_sp - stats.sp_damage) as u32,
            after: (stats.max_sp - stats.sp_damage - c.sp_cost) as u32,
        },
    );
    if is_player {
        let stamina_inc = BattleIncidentStats::DamageStamina(
            crate::types::battle::incident::BattleIncidentDamageStamina {
                damage: c.stamina_cost,
                before: (stats.max_stamina - stats.stamina_damage) as u32,
                after: (stats.max_stamina - stats.stamina_damage - c.stamina_cost) as u32,
            },
        );
        seq![sp_inc, stamina_inc]
    } else {
        seq![sp_inc]
    }
}

/// The combatant after the costs were applied.
pub open spec fn spec_charged_character(actor: BattleCharacter, c: Conduct) -> BattleCharacter {
    match actor {
        BattleCharacter::Player(p) => BattleCharacter::Player(
            crate::types::battle::BattlePlayer {
                base: crate::types::battle::BattleCharacterBase {
                    current_stats: spec_charged_stats(p.base.current_stats, c, true),
                    ..p.base
                },
                ..p
            },
        ),
        BattleCharacter::Enemy(e) => BattleCharacter::Enemy(
            crate::types::battle::BattleEnemy {
                base: crate::types::battle::BattleCharacterBase {
                    current_stats: spec_charged_stats(e.base.current_stats, c, false),
                    ..e.base
                },
                ..e
            },
        ),
    }
}

/// The actor or target with `id`: the first player carrying it, else
/// the first enemy.
pub open spec fn spec_actor_char(b: Battle, id: u32) -> BattleCharacter
    recommends
        crate::battle::battle_has_character(b, id),
{
    let pi = crate::battle::first_player_index(b.players@, id);
    if pi != -1 {
        BattleCharacter::Player(b.players@[pi])
    } else {
        BattleCharacter::Enemy(b.enemies@[crate::battle::first_enemy_index(b.enemies@, id)])
    }
}

/// What executing one conduct request does to the battle.
///
/// A missing actor or target id is a typed error and changes nothing.
/// A failed eligibility check changes nothing and reports the reason.
/// Otherwise the actor pays the costs, the effect resolves against the
/// target (which may be the actor itself), and everyone else stays as
/// they were.
pub open spec fn execute_rel(
    request_conduct: BattleConduct,
    pre: Battle,
    post: Battle,
    r: Result<BattleIncident, crate::battle::BattleError>,
) -> bool {
    let aid = request_conduct.actor_character_id;
    let tid = request_conduct.target_character_id;
    if !crate::battle::battle_has_character(pre, aid) {
        &&& post.players@ == pre.players@
        &&& post.enemies@ == pre.enemies@
        &&& r matches Err(crate::battle::BattleError::ActorNotFound)
    } else if !crate::battle::battle_has_character(pre, tid) {
        &&& post.players@ == pre.players@
        &&& post.enemies@ == pre.enemies@
        &&& r matches Err(crate::battle::BattleError::TargetNotFound)
    } else {
        let actor = spec_actor_char(pre, aid);
        match spec_failure_reason(request_conduct, actor) {
            Some(reason) => {
                &&& post.players@ == pre.players@
                &&& post.enemies@ == pre.enemies@
                &&& r matches Ok(BattleIncident::Conduct(ic))
                &&& ic.attacker_id == aid
                &&& ic.defender_id == tid
                &&& ic.conduct == request_conduct
                &&& ic.outcome matches BattleIncidentConductOutcome::Failure(f)
                &&& f.reason == reason
            },
            None => {
                let api = crate::battle::first_player_index(pre.players@, aid);
                let aei = crate::battle::first_enemy_index(pre.enemies@, aid);
                let tpi = crate::battle::first_player_index(pre.players@, tid);
                let tei = crate::battle::first_enemy_index(pre.enemies@, tid);
                let actor_is_p = api != -1;
                let target_is_p = tpi != -1;
                let same_entry = actor_is_p == target_is_p && (if actor_is_p {
                    api == tpi
                } else {
                    aei == tei
                });
                let charged = spec_charged_character(actor, request_conduct.conduct);
                let target_pre = if same_entry {
                    charged
                } else if target_is_p {
                    BattleCharacter::Player(pre.players@[tpi])
                } else {
                    BattleCharacter::Enemy(pre.enemies@[tei])
                };
                let target_post = if target_is_p {
                    BattleCharacter::Player(post.players@[tpi])
                } else {
                    BattleCharacter::Enemy(post.enemies@[tei])
                };
                &&& post.players@.len() == pre.players@.len()
                &&& post.enemies@.len() == pre.enemies@.len()
                &&& forall|i: int|
                    0 <= i < pre.players@.len() && (actor_is_p ==> i != api) && (target_is_p ==> i
                        != tpi) ==> post.players@[i] == pre.players@[i]
                &&& forall|i: int|
                    0 <= i < pre.enemies@.len() && (!actor_is_p ==> i != aei) && (!target_is_p
                        ==> i != tei) ==> post.enemies@[i] == pre.enemies@[i]
                &&& (!same_entry && actor_is_p ==> BattleCharacter::Player(post.players@[api])
                    == charged)
                &&& (!same_entry && !actor_is_p ==> BattleCharacter::Enemy(post.enemies@[aei])
                    == charged)
                &&& r matches Ok(BattleIncident::Conduct(ic))
                &&& ic.attacker_id == aid
                &&& ic.defender_id == tid
                &&& ic.conduct == request_conduct
                &&& ic.outcome matches BattleIncidentConductOutcome::Success(s)
                &&& s.attacker.character_id == aid
                &&& s.attacker.stats_changes@ == spec_attacker_changes(
                    actor.spec_stats(),
                    request_conduct.conduct,
                    actor.is_player(),
                )
                &&& s.defenders@.len() == 1
                &&& effect_rel(request_conduct, target_pre, target_post, s.defenders@[0])
            },
        }
    }
}

/// One conduct to execute.
pub struct BattleExecuteConductRequest {
    pub conduct: BattleConduct,
}

/// Executes one conduct: resolves actor and target by id (players are
/// searched before enemies), checks eligibility, applies the SP and
/// stamina costs, resolves the effect against the target and reports
/// everything as one incident.
pub fn execute_conduct(battle: &mut Battle, request: BattleExecuteConductRequest) -> (r: Result<
    BattleIncident,
    crate::battle::BattleError,
>)
    requires
        old(battle).wf(),
    ensures
        final(battle).wf(),
        execute_rel(request.conduct, *old(battle), *final(battle), r),
{
    let conduct = request.conduct;
    let ghost pre_players = battle.players@;
    let ghost pre_enemies = battle.enemies@;

    // Resolve both ids before mutating anything.
    let a_p = find_player_position(&battle.players, conduct.actor_character_id);
    let a_e = find_enemy_position(&battle.enemies, conduct.actor_character_id);
    let actor_is_p: bool;
    let a_idx: usize;
    if let Some(i) = a_p {
        actor_is_p = true;
        a_idx = i;
    } else if let Some(i) = a_e {
        actor_is_p = false;
        a_idx = i;
    } else {
        return Err(crate::battle::BattleError::ActorNotFound);
    }
    let t_p = find_player_position(&battle.players, conduct.target_character_id);
    let t_e = find_enemy_position(&battle.enemies, conduct.target_character_id);
    let target_is_p: bool;
    let t_idx: usize;
    if let Some(i) = t_p {
        target_is_p = true;
        t_idx = i;
    } else if let Some(i) = t_e {
        target_is_p = false;
        t_idx = i;
    } else {
        return Err(crate::battle::BattleError::TargetNotFound);
    }

    proof {
        crate::battle::lemma_first_player_index(pre_players, conduct.actor_character_id);
        crate::battle::lemma_first_enemy_index(pre_enemies, conduct.actor_character_id);
        crate::battle::lemma_first_player_index(pre_players, conduct.target_character_id);
        crate::battle::lemma_first_enemy_index(pre_enemies, conduct.target_character_id);
        if actor_is_p {
            assert(old(battle).players@[a_idx as int].wf());
        } else {
            assert(old(battle).enemies@[a_idx as int].wf());
        }
        if target_is_p {
            assert(old(battle).players@[t_idx as int].wf());
        } else {
            assert(old(battle).enemies@[t_idx as int].wf());
        }
    }

    // Take the actor out of the roster.
    let mut actor: BattleCharacter = if actor_is_p {
        BattleCharacter::Player(battle.players.remove(a_idx))
    } else {
        BattleCharacter::Enemy(battle.enemies.remove(a_idx))
    };
    proof {
        assert(actor.wf());
        assert(actor == spec_actor_char(*old(battle), conduct.actor_character_id));
    }

    // Eligibility: on failure, put the actor back untouched and report.
    if let Some(failure_reason) = determine_action_outcome_failure(&conduct, &actor) {
        match actor {
            BattleCharacter::Player(p) => battle.players.insert(a_idx, p),
            BattleCharacter::Enemy(e) => battle.enemies.insert(a_idx, e),
        }
        proof {
            assert(battle.players@ =~= pre_players);
            assert(battle.enemies@ =~= pre_enemies);
        }
        let attacker_id = conduct.actor_character_id;
        let defender_id = conduct.target_character_id;
        return Ok(
            BattleIncident::Conduct(
                BattleIncidentConduct {
                    attacker_id,
                    defender_id,
                    conduct,
                    outcome: BattleIncidentConductOutcome::Failure(
                        BattleIncidentConductOutcomeFailure { reason: failure_reason },
                    ),
                },
            ),
        );
    }

    // Costs: SP always, stamina for players only.
    let mut attacker_changes: Vec<BattleIncidentStats> = Vec::new();
    let ghost actor_pre = actor;
    match &mut actor {
        BattleCharacter::Player(p) => {
            let before_sp = p.base.current_stats.max_sp - p.base.current_stats.sp_damage;
            p.base.current_stats.sp_damage = p.base.current_stats.sp_damage
                + conduct.conduct.sp_cost;
            let after_sp = p.base.current_stats.max_sp - p.base.current_stats.sp_damage;
            attacker_changes.push(
                BattleIncidentStats::DamageSp(
                    crate::types::battle::incident::BattleIncidentDamageSp {
                        damage: conduct.conduct.sp_cost,
                        before: before_sp,
                        after: after_sp,
                    },
                ),
            );
            let before_stamina = p.base.current_stats.max_stamina
                - p.base.current_stats.stamina_damage;
            p.base.current_stats.stamina_damage = p.base.current_stats.stamina_damage
                + conduct.conduct.stamina_cost;
            let after_stamina = p.base.current_stats.max_stamina
                - p.base.current_stats.stamina_damage;
            attacker_changes.push(
                BattleIncidentStats::DamageStamina(
                    crate::types::battle::incident::BattleIncidentDamageStamina {
                        damage: conduct.conduct.stamina_cost,
                        before: before_stamina,
                        after: after_stamina,
                    },
                ),
            );
        },
        BattleCharacter::Enemy(e) => {
            let before_sp = e.base.current_stats.max_sp - e.base.current_stats.sp_damage;
            e.base.current_stats.sp_damage = e.base.current_stats.sp_damage
                + conduct.conduct.sp_cost;
            let after_sp = e.base.current_stats.max_sp - e.base.current_stats.sp_damage;
            attacker_changes.push(
                BattleIncidentStats::DamageSp(
                    crate::types::battle::incident::BattleIncidentDamageSp {
                        damage: conduct.conduct.sp_cost,
                        before: before_sp,
                        after: after_sp,
                    },
                ),
            );
        },
    }
    proof {
        assert(actor == spec_charged_character(actor_pre, conduct.conduct));
        assert(attacker_changes@ =~= spec_attacker_changes(
            actor_pre.spec_stats(),
            conduct.conduct,
            actor_pre.is_player(),
        ));
        assert(actor.wf());
    }

    // Put the charged actor back, restoring every position.
    match actor {
        BattleCharacter::Player(p) => battle.players.insert(a_idx, p),
        BattleCharacter::Enemy(e) => battle.enemies.insert(a_idx, e),
    }
    let ghost charged = spec_charged_character(actor_pre, conduct.conduct);
    proof {
        if actor_is_p {
            assert(battle.players@ =~= pre_players.update(
                a_idx as int,
                charged->Player_0,
            ));
            assert(battle.enemies@ == pre_enemies);
        } else {
            assert(battle.enemies@ =~= pre_enemies.update(a_idx as int, charged->Enemy_0));
            assert(battle.players@ == pre_players);
        }
    }

    // Take the target out, resolve the effect, put it back.
    let ghost mid_players = battle.players@;
    let ghost mid_enemies = battle.enemies@;
    let mut target: BattleCharacter = if target_is_p {
        BattleCharacter::Player(battle.players.remove(t_idx))
    } else {
        BattleCharacter::Enemy(battle.enemies.remove(t_idx))
    };
    let ghost target_pre_char = target;
    proof {
        assert(target.wf());
    }
    let defender_incident = conduct_effect(&conduct, &mut target);
    let ghost target_post_char = target;
    match target {
        BattleCharacter::Player(p) => battle.players.insert(t_idx, p),
        BattleCharacter::Enemy(e) => battle.enemies.insert(t_idx, e),
    }
    proof {
        if target_is_p {
            assert(battle.players@ =~= mid_players.update(
                t_idx as int,
                target_post_char->Player_0,
            ));
            assert(battle.enemies@ == mid_enemies);
        } else {
            assert(battle.enemies@ =~= mid_enemies.update(
                t_idx as int,
                target_post_char->Enemy_0,
            ));
            assert(battle.players@ == mid_players);
        }
    }

    let attacker_id = conduct.actor_character_id;
    let defender_id = conduct.target_character_id;
    let mut defenders: Vec<BattleIncidentConductOutcomeSuccessDefender> = Vec::new();
    defenders.push(defender_incident);
    let success = BattleIncidentConductOutcomeSuccess {
        attacker: BattleIncidentConductOutcomeSuccessAttacker {
            character_id: attacker_id,
            stats_changes: attacker_changes,
        },
        defenders,
    };
    Ok(
        BattleIncident::Conduct(
            BattleIncidentConduct {
                attacker_id,
                defender_id,
                conduct,
                outcome: BattleIncidentConductOutcome::Success(success),
            },
        ),
    )
}

/// An actor short of both stamina and SP fails for the stamina reason:
/// the stamina check outranks the SP check.
pub proof fn lemma_eligibility_prefers_stamina(c: BattleConduct, attacker: BattleCharacter)
    requires
        attacker is Player,
        attacker.spec_stats().max_stamina - attacker.spec_stats().stamina_damage
            < c.conduct.stamina_cost,
        attacker.spec_stats().max_sp - attacker.spec_stats().sp_damage < c.conduct.sp_cost,
    ensures
        spec_failure_reason(c, attacker) matches Some(f) && f.insufficient_stamina
            && !f.insufficient_sp && !f.insufficient_ability && !f.is_break,
{
}

/// The break threshold: when an attack would push an unbroken enemy's
/// gauge past its capacity, the gauge clamps to the capacity and
/// exactly one break stagger is appended.
pub proof fn lemma_break_threshold(
    pre: BattleCharacter,
    post: BattleCharacter,
    out: BattleIncidentConductOutcomeSuccessDefender,
    raw: AttackPower,
    break_power: u32,
)
    requires
        attack_rel(pre, post, out, raw, break_power),
        pre is Enemy,
        !has_break(pre.spec_effects()),
        pre.spec_enemy_only_stats().break_damage + break_power
            > pre.spec_enemy_only_stats().max_break,
    ensures
        post.spec_enemy_only_stats().break_damage == pre.spec_enemy_only_stats().max_break,
        post.spec_effects() == pre.spec_effects().push(break_status_effect()),
        out.status_effects@.len() == 1,
{
}

/// Breaking is idempotent: an attack on an already broken enemy leaves
/// the break gauge untouched and applies no further stagger.
pub proof fn lemma_break_idempotent(
    pre: BattleCharacter,
    post: BattleCharacter,
    out: BattleIncidentConductOutcomeSuccessDefender,
    raw: AttackPower,
    break_power: u32,
)
    requires
        attack_rel(pre, post, out, raw, break_power),
        pre is Enemy,
        has_break(pre.spec_effects()),
    ensures
        post.spec_enemy_only_stats() == pre.spec_enemy_only_stats(),
        post.spec_effects() == pre.spec_effects(),
        out.status_effects@.len() == 0,
{
}

/// Recovery potencies never touch an enemy's stamina: applied with
/// `is_player` false, the stamina damage comes out as it went in.
pub proof fn lemma_recover_keeps_enemy_stamina(
    stats: BattleStats,
    potencies: Seq<SupportRecoverPotency>,
)
    ensures
        spec_recover(stats, false, potencies).0.stamina_damage == stats.stamina_damage,
        spec_recover(stats, false, potencies).0.max_stamina == stats.max_stamina,
    decreases potencies.len(),
{
    if potencies.len() != 0 {
        lemma_recover_keeps_enemy_stamina(stats, potencies.drop_last());
    }
}

/// Enemies never pay stamina: whatever conduct runs, with whatever
/// stamina cost, every enemy's accumulated stamina damage is the same
/// after `execute_conduct` as before.
pub proof fn lemma_enemy_stamina_never_charged(
    request_conduct: BattleConduct,
    pre: Battle,
    post: Battle,
    r: Result<BattleIncident, crate::battle::BattleError>,
)
    requires
        execute_rel(request_conduct, pre, post, r),
    ensures
        post.enemies@.len() == pre.enemies@.len(),
        forall|i: int|
            0 <= i < pre.enemies@.len()
                ==> #[trigger] post.enemies@[i].base.current_stats.stamina_damage
                == pre.enemies@[i].base.current_stats.stamina_damage,
{
    let aid = request_conduct.actor_character_id;
    let tid = request_conduct.target_character_id;
    if crate::battle::battle_has_character(pre, aid) && crate::battle::battle_has_character(
        pre,
        tid,
    ) {
        let actor = spec_actor_char(pre, aid);
        if spec_failure_reason(request_conduct, actor) is None {
            let aei = crate::battle::first_enemy_index(pre.enemies@, aid);
            let tei = crate::battle::first_enemy_index(pre.enemies@, tid);
            let tpi = crate::battle::first_player_index(pre.players@, tid);
            assert forall|i: int| 0 <= i < pre.enemies@.len() implies #[trigger] post.enemies@[i]
                .base.current_stats.stamina_damage
                == pre.enemies@[i].base.current_stats.stamina_damage by {
                if tpi == -1 && i == tei {
                    let s = (match r {
                        Ok(BattleIncident::Conduct(ic)) => match ic.outcome {
                            BattleIncidentConductOutcome::Success(s) => s,
                            _ => arbitrary(),
                        },
                        _ => arbitrary(),
                    });
                    let target_pre = (if crate::battle::first_player_index(pre.players@, aid) == -1
                        && aei == tei {
                        spec_charged_character(actor, request_conduct.conduct)
                    } else if crate::battle::first_player_index(pre.players@, aid) != -1 && aei
                        == tei {
                        BattleCharacter::Enemy(pre.enemies@[tei])
                    } else {
                        BattleCharacter::Enemy(pre.enemies@[tei])
                    });
                    assert(effect_rel(
                        request_conduct,
                        target_pre,
                        BattleCharacter::Enemy(post.enemies@[tei]),
                        s.defenders@[0],
                    ));
                    match request_conduct.conduct.conduct_type {
                        ConductType::Basic(ConductTypeBasic::Support(
                            ConductTypeBasicSupport::Recover(rec),
                        )) => {
                            lemma_recover_keeps_enemy_stamina(
                                target_pre.spec_stats(),
                                rec.potencies@,
                            );
                        },
                        _ => {},
                    }
                }
            }
        }
    }
}

} // verus!
