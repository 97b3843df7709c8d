//! Per-turn break-gauge bookkeeping for enemies: a broken enemy counts
//! its stagger turns and eventually recovers; an unbroken enemy slowly
//! regains its gauge after turns without break damage.

use vstd::prelude::*;
use crate::battle::{
    battle_has_character, find_enemy_position, find_player_position, first_enemy_index,
    first_player_index, BattleError,
};
use crate::types::battle::incident::{
    BattleIncidentAutoTrigger, BattleIncidentRecoverBreak, BattleIncidentStats,
    BattleIncidentStatusEffect, BattleIncidentStatusEffectHandling,
    BattleIncidentStatusEffectRemoved,
};
use crate::types::battle::{
    has_break, is_break_effect, sat_inc, sub_floored, Battle, BattleCharacterId, BattleEnemy,
    BattleEnemyOnlyStats, BattleStatusEffect,
};

verus! {

/// Whose break gauge to advance.
pub struct RecoverBreakRequest {
    pub character_id: BattleCharacterId,
}

/// The position of the last break stagger among `effects`, or `-1`
/// when none is there.
pub open spec fn last_break_index(effects: Seq<BattleStatusEffect>) -> int
    decreases effects.len(),
{
    if effects.len() == 0 {
        -1
    } else if is_break_effect(effects.last()) {
        effects.len() - 1
    } else {
        last_break_index(effects.drop_last())
    }
}

/// What one break-recovery tick does to an enemy's state.
///
/// Broken, with `break_turns` at the limit: the last break stagger is
/// removed, the gauge resets to full (no damage accumulated) and the
/// stagger-turn counter to zero.  Broken below the limit: only the
/// counter advances.  Not broken: after two turns without break damage
/// the gauge recovers by `break_recovery`, and the no-damage counter
/// always advances.
pub open spec fn recover_break_enemy_rel(
    e0: BattleEnemy,
    e1: BattleEnemy,
    stats_incs: Seq<BattleIncidentStats>,
    status_incs: Seq<BattleIncidentStatusEffect>,
) -> bool {
    let only0 = e0.current_enemy_only_stats;
    let effects0 = e0.base.status_effects@;
    &&& BattleEnemy::same_identity(e0, e1)
    &&& e1.base.current_stats == e0.base.current_stats
    &&& if has_break(effects0) {
        if only0.break_turns >= only0.break_max_turn {
            let lbi = last_break_index(effects0);
            &&& e1.current_enemy_only_stats == (BattleEnemyOnlyStats {
                break_turns: 0u32,
                break_damage: 0u32,
                ..only0
            })
            &&& e1.base.status_effects@ == effects0.remove(lbi)
            &&& stats_incs.len() == 0
            &&& status_incs == seq![
                BattleIncidentStatusEffect {
                    status_effect: effects0[lbi],
                    status_effect_handling: BattleIncidentStatusEffectHandling::Removed(
                        BattleIncidentStatusEffectRemoved {  },
                    ),
                },
            ]
        } else {
            &&& e1.current_enemy_only_stats == (BattleEnemyOnlyStats {
                break_turns: (only0.break_turns + 1) as u32,
                ..only0
            })
            &&& e1.base.status_effects@ == effects0
            &&& stats_incs.len() == 0
            &&& status_incs.len() == 0
        }
    } else {
        let recovered = only0.break_not_damaged_turns >= 2;
        let bd1 = if recovered {
            sub_floored(only0.break_damage, only0.break_recovery)
        } else {
            only0.break_damage
        };
        &&& e1.current_enemy_only_stats == (BattleEnemyOnlyStats {
            break_damage: bd1,
            break_not_damaged_turns: sat_inc(only0.break_not_damaged_turns),
            ..only0
        })
        &&& e1.base.status_effects@ == effects0
        &&& if recovered {
            stats_incs == seq![
                BattleIncidentStats::RecoverBreak(
                    BattleIncidentRecoverBreak {
                        recover: only0.break_recovery,
                        before: only0.break_damage,
                        after: bd1,
                    },
                ),
            ]
        } else {
            stats_incs.len() == 0
        }
        &&& status_incs.len() == 0
    }
}

/// What one break-recovery tick does to the battle: players are always
/// left untouched with an empty trigger, the found enemy follows
/// `recover_break_enemy_rel`, and an id nobody carries is a typed
/// error.
pub open spec fn recover_break_rel(
    pre: Battle,
    post: Battle,
    id: u32,
    r: Result<BattleIncidentAutoTrigger, BattleError>,
) -> bool {
    if !battle_has_character(pre, id) {
        &&& post.players@ == pre.players@
        &&& post.enemies@ == pre.enemies@
        &&& r matches Err(BattleError::CharacterNotFound)
    } else if first_player_index(pre.players@, id) != -1 {
        &&& post.players@ == pre.players@
        &&& post.enemies@ == pre.enemies@
        &&& r matches Ok(t)
        &&& t.character_id == id
        &&& t.stats_changes@.len() == 0
        &&& t.status_effects@.len() == 0
    } else {
        let ei = first_enemy_index(pre.enemies@, id);
        &&& post.players@ == pre.players@
        &&& post.enemies@.len() == pre.enemies@.len()
        &&& forall|k: int|
            0 <= k < pre.enemies@.len() && k != ei ==> post.enemies@[k] == pre.enemies@[k]
        &&& r matches Ok(t)
        &&& t.character_id == id
        &&& recover_break_enemy_rel(
            pre.enemies@[ei],
            post.enemies@[ei],
            t.stats_changes@,
            t.status_effects@,
        )
    }
}

/// Finds the position of the last break stagger in `effects`.
fn scan_last_break(effects: &Vec<BattleStatusEffect>) -> (r: Option<usize>)
    ensures
        r matches Some(i) ==> i == last_break_index(effects@) && i < effects@.len()
            && is_break_effect(effects@[i as int]) && has_break(effects@),
        r is None ==> last_break_index(effects@) == -1 && !has_break(effects@),
{
    let n = effects.len();
    let mut found: Option<usize> = None;
    let mut i: usize = 0;
    while i < n
        invariant
            i <= n,
            n == effects@.len(),
            found matches Some(j) ==> j == last_break_index(effects@.subrange(0, i as int)) && j
                < i && is_break_effect(effects@[j as int]),
            found is None ==> last_break_index(effects@.subrange(0, i as int)) == -1,
            found is None ==> forall|k: int| 0 <= k < i ==> !is_break_effect(effects@[k]),
        decreases n - i,
    {
        proof {
            assert(effects@.subrange(0, i + 1).drop_last() =~= effects@.subrange(0, i as int));
            assert(effects@.subrange(0, i + 1).last() == effects@[i as int]);
        }
        if let crate::types::status_ailment::StatusEffectPotency::Break(_) = &effects[i].potency {
            found = Some(i);
        }
        i += 1;
    }
    proof {
        assert(effects@.subrange(0, n as int) =~= effects@);
    }
    found
}

/// Advances break recovery for the requested combatant.  Players are
/// left untouched; an enemy follows the break state machine: staggered
/// enemies count down to recovery, unbroken enemies regain their gauge
/// after quiet turns.
pub fn recover_break(battle: &mut Battle, request: RecoverBreakRequest) -> (r: Result<
    BattleIncidentAutoTrigger,
    BattleError,
>)
    requires
        old(battle).wf(),
    ensures
        final(battle).wf(),
        recover_break_rel(*old(battle), *final(battle), request.character_id, r),
{
    let id = request.character_id;
    if find_player_position(&battle.players, id).is_some() {
        return Ok(
            BattleIncidentAutoTrigger {
                character_id: id,
                stats_changes: Vec::new(),
                status_effects: Vec::new(),
            },
        );
    }
    if let Some(i) = find_enemy_position(&battle.enemies, id) {
        proof {
            crate::battle::lemma_first_enemy_index(battle.enemies@, id);
            assert(old(battle).enemies@[i as int].wf());
        }
        let enemy = &mut battle.enemies[i];
        let mut stats_changes: Vec<BattleIncidentStats> = Vec::new();
        let mut status_effect_incidents: Vec<BattleIncidentStatusEffect> = Vec::new();
        if let Some(break_at) = scan_last_break(&enemy.base.status_effects) {
            if enemy.current_enemy_only_stats.break_turns
                >= enemy.current_enemy_only_stats.break_max_turn {
                // The stagger has run its course: back to full gauge.
                enemy.current_enemy_only_stats.break_turns = 0;
                enemy.current_enemy_only_stats.break_damage = 0;
                let removed = enemy.base.status_effects.remove(break_at);
                status_effect_incidents.push(
                    BattleIncidentStatusEffect {
                        status_effect: removed,
                        status_effect_handling: BattleIncidentStatusEffectHandling::Removed(
                            BattleIncidentStatusEffectRemoved {  },
                        ),
                    },
                );
                proof {
                    assert(status_effect_incidents@ =~= seq![
                        BattleIncidentStatusEffect {
                            status_effect: removed,
                            status_effect_handling: BattleIncidentStatusEffectHandling::Removed(
                                BattleIncidentStatusEffectRemoved {  },
                            ),
                        },
                    ]);
                }
            } else {
                enemy.current_enemy_only_stats.break_turns =
                    enemy.current_enemy_only_stats.break_turns + 1;
            }
        } else {
            // Two quiet turns let the gauge recover.
            if enemy.current_enemy_only_stats.break_not_damaged_turns >= 2 {
                let recovery = enemy.current_enemy_only_stats.break_recovery;
                let before = enemy.current_enemy_only_stats.break_damage;
                let after = crate::types::battle::sub_damage_floored(before, recovery);
                enemy.current_enemy_only_stats.break_damage = after;
                stats_changes.push(
                    BattleIncidentStats::RecoverBreak(
                        BattleIncidentRecoverBreak { recover: recovery, before, after },
                    ),
                );
                proof {
                    assert(stats_changes@ =~= seq![
                        BattleIncidentStats::RecoverBreak(
                            BattleIncidentRecoverBreak { recover: recovery, before, after },
                        ),
                    ]);
                }
            }
            enemy.current_enemy_only_stats.break_not_damaged_turns =
                crate::types::battle::increment_counter(
                    enemy.current_enemy_only_stats.break_not_damaged_turns,
                );
        }
        return Ok(
            BattleIncidentAutoTrigger {
                character_id: id,
                stats_changes,
                status_effects: status_effect_incidents,
            },
        );
    }
    Err(BattleError::CharacterNotFound)
}

/// Break recovery fires exactly on time: a broken enemy loses the
/// stagger and has its gauge reset on the tick where `break_turns` has
/// reached `break_max_turn`, and not before — below the limit the
/// stagger stays and only the counter advances.
pub proof fn lemma_break_recovery_timing(
    e0: BattleEnemy,
    e1: BattleEnemy,
    stats_incs: Seq<BattleIncidentStats>,
    status_incs: Seq<BattleIncidentStatusEffect>,
)
    requires
        recover_break_enemy_rel(e0, e1, stats_incs, status_incs),
        has_break(e0.base.status_effects@),
    ensures
        e0.current_enemy_only_stats.break_turns >= e0.current_enemy_only_stats.break_max_turn ==> {
            &&& e1.base.status_effects@ == e0.base.status_effects@.remove(
                last_break_index(e0.base.status_effects@),
            )
            &&& e1.current_enemy_only_stats.break_damage == 0
            &&& e1.current_enemy_only_stats.break_turns == 0
            &&& status_incs.len() == 1
        },
        e0.current_enemy_only_stats.break_turns < e0.current_enemy_only_stats.break_max_turn ==> {
            &&& e1.base.status_effects@ == e0.base.status_effects@
            &&& has_break(e1.base.status_effects@)
            &&& e1.current_enemy_only_stats.break_damage
                == e0.current_enemy_only_stats.break_damage
            &&& e1.current_enemy_only_stats.break_turns == e0.current_enemy_only_stats.break_turns
                + 1
            &&& status_incs.len() == 0
        },
{
}

} // verus!
