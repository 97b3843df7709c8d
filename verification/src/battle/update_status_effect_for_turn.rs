//! Per-turn status-effect advancement: turn-limited effects age by one
//! turn and expire once their span is reached.  Count-limited and
//! until-next-action effects are not advanced here.

use vstd::prelude::*;
use crate::battle::{
    battle_has_character, find_enemy_position, find_player_position, first_enemy_index,
    first_player_index, BattleError,
};
use crate::types::battle::incident::{
    BattleIncidentAutoTrigger, BattleIncidentStatusEffect, BattleIncidentStatusEffectHandling,
    BattleIncidentStatusEffectRemoved,
};
use crate::types::battle::{
    sat_inc, Battle, BattleCharacterId, BattleEnemy, BattlePlayer, BattleStatusEffect,
    BattleStatusEffectDuration, BattleStatusEffectDurationTurn,
};

verus! {

/// The effect with one more elapsed turn; durations other than `Turn`
/// stay as they are.
pub open spec fn spec_advanced_effect(e: BattleStatusEffect) -> BattleStatusEffect {
    match e.duration {
        BattleStatusEffectDuration::Turn(t) => BattleStatusEffect {
            duration: BattleStatusEffectDuration::Turn(
                BattleStatusEffectDurationTurn { turns: t.turns, elapsed_turns: sat_inc(t.elapsed_turns) },
            ),
            ..e
        },
        _ => e,
    }
}

/// Whether the effect's span is reached once this turn has elapsed.
pub open spec fn spec_turn_expired(e: BattleStatusEffect) -> bool {
    e.duration matches BattleStatusEffectDuration::Turn(t) && sat_inc(t.elapsed_turns) >= t.turns
}

/// The list after the turn: every turn-limited effect aged by one, the
/// expired ones dropped, order kept.
pub open spec fn spec_turn_kept(effects: Seq<BattleStatusEffect>) -> Seq<BattleStatusEffect>
    decreases effects.len(),
{
    if effects.len() == 0 {
        Seq::empty()
    } else {
        let front = spec_turn_kept(effects.drop_last());
        if spec_turn_expired(effects.last()) {
            front
        } else {
            front.push(spec_advanced_effect(effects.last()))
        }
    }
}

/// One `Removed` incident per expired effect, in list order, carrying
/// the aged effect value.
pub open spec fn spec_turn_removed_incidents(effects: Seq<BattleStatusEffect>) -> Seq<
    BattleIncidentStatusEffect,
>
    decreases effects.len(),
{
    if effects.len() == 0 {
        Seq::empty()
    } else {
        let front = spec_turn_removed_incidents(effects.drop_last());
        if spec_turn_expired(effects.last()) {
            front.push(
                BattleIncidentStatusEffect {
                    status_effect: spec_advanced_effect(effects.last()),
                    status_effect_handling: BattleIncidentStatusEffectHandling::Removed(
                        BattleIncidentStatusEffectRemoved {  },
                    ),
                },
            )
        } else {
            front
        }
    }
}

/// Ages every turn-limited effect by one turn, removes the expired
/// ones and reports them.
fn advance_effects_for_turn(effects: &mut Vec<BattleStatusEffect>) -> (r: Vec<
    BattleIncidentStatusEffect,
>)
    ensures
        final(effects)@ == spec_turn_kept(old(effects)@),
        r@ == spec_turn_removed_incidents(old(effects)@),
{
    let ghost initial = effects@;
    let n = effects.len();
    let mut kept: Vec<BattleStatusEffect> = Vec::new();
    let mut incidents: Vec<BattleIncidentStatusEffect> = Vec::new();
    let mut i: usize = 0;
    while i < n
        invariant
            i <= n,
            n == initial.len(),
            effects@ == initial,
            kept@ == spec_turn_kept(initial.subrange(0, i as int)),
            incidents@ == spec_turn_removed_incidents(initial.subrange(0, i as int)),
        decreases n - i,
    {
        proof {
            assert(initial.subrange(0, i + 1).drop_last() =~= initial.subrange(0, i as int));
            assert(initial.subrange(0, i + 1).last() == initial[i as int]);
        }
        let e = effects[i];
        let advanced = match e.duration {
            BattleStatusEffectDuration::Turn(t) => BattleStatusEffect {
                duration: BattleStatusEffectDuration::Turn(
                    BattleStatusEffectDurationTurn {
                        turns: t.turns,
                        elapsed_turns: crate::types::battle::increment_counter(t.elapsed_turns),
                    },
                ),
                ..e
            },
            _ => e,
        };
        let expired = match advanced.duration {
            BattleStatusEffectDuration::Turn(t) => t.elapsed_turns >= t.turns,
            _ => false,
        };
        if expired {
            incidents.push(
                BattleIncidentStatusEffect {
                    status_effect: advanced,
                    status_effect_handling: BattleIncidentStatusEffectHandling::Removed(
                        BattleIncidentStatusEffectRemoved {  },
                    ),
                },
            );
        } else {
            kept.push(advanced);
        }
        i += 1;
    }
    proof {
        assert(initial.subrange(0, n as int) =~= initial);
    }
    *effects = kept;
    incidents
}

/// What one status-advancement tick does to the found combatant: the
/// status list follows `spec_turn_kept`, everything else stays; an id
/// nobody carries is a typed error.
pub open spec fn update_status_effect_rel(
    pre: Battle,
    post: Battle,
    id: u32,
    r: Result<BattleIncidentAutoTrigger, BattleError>,
) -> bool {
    if !battle_has_character(pre, id) {
        &&& post.players@ == pre.players@
        &&& post.enemies@ == pre.enemies@
        &&& r matches Err(BattleError::CharacterNotFound)
    } else {
        let pi = first_player_index(pre.players@, id);
        let trigger_ok = {
            &&& r matches Ok(t)
            &&& t.character_id == id
            &&& t.stats_changes@.len() == 0
        };
        if pi != -1 {
            let p0 = pre.players@[pi];
            let p1 = post.players@[pi];
            &&& post.players@.len() == pre.players@.len()
            &&& forall|k: int|
                0 <= k < pre.players@.len() && k != pi ==> post.players@[k] == pre.players@[k]
            &&& post.enemies@ == pre.enemies@
            &&& BattlePlayer::same_identity(p0, p1)
            &&& p1.base.current_stats == p0.base.current_stats
            &&& p1.base.status_effects@ == spec_turn_kept(p0.base.status_effects@)
            &&& trigger_ok
            &&& (r matches Ok(t) ==> t.status_effects@ == spec_turn_removed_incidents(
                p0.base.status_effects@,
            ))
        } else {
            let ei = first_enemy_index(pre.enemies@, id);
            let e0 = pre.enemies@[ei];
            let e1 = post.enemies@[ei];
            &&& post.players@ == pre.players@
            &&& post.enemies@.len() == pre.enemies@.len()
            &&& forall|k: int|
                0 <= k < pre.enemies@.len() && k != ei ==> post.enemies@[k] == pre.enemies@[k]
            &&& BattleEnemy::same_identity(e0, e1)
            &&& e1.base.current_stats == e0.base.current_stats
            &&& e1.current_enemy_only_stats == e0.current_enemy_only_stats
            &&& e1.base.status_effects@ == spec_turn_kept(e0.base.status_effects@)
            &&& trigger_ok
            &&& (r matches Ok(t) ==> t.status_effects@ == spec_turn_removed_incidents(
                e0.base.status_effects@,
            ))
        }
    }
}

/// Which combatant's status effects to advance.
pub struct UpdateStatusEffectRequest {
    pub character_id: BattleCharacterId,
}

/// Advances the turn-limited status effects of the requested combatant
/// by one turn, removing and reporting the expired ones.
pub fn update_status_effect_for_turn(
    battle: &mut Battle,
    request: UpdateStatusEffectRequest,
) -> (r: Result<BattleIncidentAutoTrigger, BattleError>)
    requires
        old(battle).wf(),
    ensures
        final(battle).wf(),
        update_status_effect_rel(*old(battle), *final(battle), request.character_id, r),
{
    let id = request.character_id;
    if let Some(i) = find_player_position(&battle.players, id) {
        proof {
            crate::battle::lemma_first_player_index(battle.players@, id);
            assert(old(battle).players@[i as int].wf());
        }
        let player = &mut battle.players[i];
        let incidents = advance_effects_for_turn(&mut player.base.status_effects);
        Ok(
            BattleIncidentAutoTrigger {
                character_id: id,
                stats_changes: Vec::new(),
                status_effects: incidents,
            },
        )
    } else if let Some(i) = find_enemy_position(&battle.enemies, id) {
        proof {
            crate::battle::lemma_first_enemy_index(battle.enemies@, id);
            assert(old(battle).enemies@[i as int].wf());
        }
        let enemy = &mut battle.enemies[i];
        let incidents = advance_effects_for_turn(&mut enemy.base.status_effects);
        Ok(
            BattleIncidentAutoTrigger {
                character_id: id,
                stats_changes: Vec::new(),
                status_effects: incidents,
            },
        )
    } else {
        Err(BattleError::CharacterNotFound)
    }
}

} // verus!
