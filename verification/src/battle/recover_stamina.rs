//! Per-turn stamina regeneration: players recover their template's
//! stamina recovery each turn; enemies do not use stamina.

use vstd::prelude::*;
use crate::battle::{
    battle_has_character, find_enemy_position, find_player_position, first_enemy_index,
    first_player_index, BattleError,
};
use crate::types::battle::incident::{
    BattleIncidentAutoTrigger, BattleIncidentRecoverStamina, BattleIncidentStats,
};
use crate::types::battle::{sub_floored, Battle, BattleCharacterId};

verus! {

/// Whose stamina to regenerate.
pub struct RecoverStaminaRequest {
    pub character_id: BattleCharacterId,
}

/// What one stamina-recovery tick does.  A player's accumulated stamina
/// damage drops by the template's recovery amount, floored at zero, and
/// the trigger reports it; an enemy is left untouched with an empty
/// trigger; an id nobody carries is a typed error.
pub open spec fn recover_stamina_rel(
    pre: Battle,
    post: Battle,
    id: u32,
    r: Result<BattleIncidentAutoTrigger, BattleError>,
) -> bool {
    if !battle_has_character(pre, id) {
        &&& post.players@ == pre.players@
        &&& post.enemies@ == pre.enemies@
        &&& r matches Err(BattleError::CharacterNotFound)
    } else {
        let pi = first_player_index(pre.players@, id);
        if pi != -1 {
            let p0 = pre.players@[pi];
            let recovery = p0.original.stats.stamina_recovery;
            let before = p0.base.current_stats.stamina_damage;
            let after = sub_floored(before, recovery);
            &&& post.players@ == pre.players@.update(
                pi,
                (crate::types::battle::BattlePlayer {
                    base: crate::types::battle::BattleCharacterBase {
                        current_stats: (crate::types::battle::BattleStats {
                            stamina_damage: after,
                            ..p0.base.current_stats
                        }),
                        ..p0.base
                    },
                    ..p0
                }),
            )
            &&& post.enemies@ == pre.enemies@
            &&& r matches Ok(t)
            &&& t.character_id == id
            &&& t.stats_changes@ == seq![
                BattleIncidentStats::RecoverStamina(
                    BattleIncidentRecoverStamina { recover: recovery, before, after },
                ),
            ]
            &&& t.status_effects@.len() == 0
        } else {
            &&& post.players@ == pre.players@
            &&& post.enemies@ == pre.enemies@
            &&& r matches Ok(t)
            &&& t.character_id == id
            &&& t.stats_changes@.len() == 0
            &&& t.status_effects@.len() == 0
        }
    }
}

/// Regenerates stamina for the requested combatant: players recover
/// their template's `stamina_recovery`, enemies are left untouched.
pub fn recover_stamina(battle: &mut Battle, request: RecoverStaminaRequest) -> (r: Result<
    BattleIncidentAutoTrigger,
    BattleError,
>)
    requires
        old(battle).wf(),
    ensures
        final(battle).wf(),
        recover_stamina_rel(*old(battle), *final(battle), request.character_id, r),
{
    let id = request.character_id;
    if let Some(i) = find_player_position(&battle.players, id) {
        proof {
            crate::battle::lemma_first_player_index(battle.players@, id);
            assert(old(battle).players@[i as int].wf());
        }
        let player = &mut battle.players[i];
        let recovery = player.original.stats.stamina_recovery;
        let before = player.base.current_stats.stamina_damage;
        let after = crate::types::battle::sub_damage_floored(before, recovery);
        player.base.current_stats.stamina_damage = after;
        let mut stats_changes: Vec<BattleIncidentStats> = Vec::new();
        stats_changes.push(
            BattleIncidentStats::RecoverStamina(
                BattleIncidentRecoverStamina { recover: recovery, before, after },
            ),
        );
        proof {
            assert(stats_changes@ =~= seq![
                BattleIncidentStats::RecoverStamina(
                    BattleIncidentRecoverStamina { recover: recovery, before, after },
                ),
            ]);
        }
        Ok(
            BattleIncidentAutoTrigger {
                character_id: id,
                stats_changes,
                status_effects: Vec::new(),
            },
        )
    } else if find_enemy_position(&battle.enemies, id).is_some() {
        Ok(
            BattleIncidentAutoTrigger {
                character_id: id,
                stats_changes: Vec::new(),
                status_effects: Vec::new(),
            },
        )
    } else {
        Err(BattleError::CharacterNotFound)
    }
}

} // verus!
