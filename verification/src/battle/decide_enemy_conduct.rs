//! The enemy action policy: a pluggable collaborator.  This reference
//! policy always aims a fixed basic attack at the first player.

use vstd::prelude::*;
use crate::types::battle::{Battle, BattleCharacterId, BattleConduct};
use crate::types::common::AttackPower;
use crate::types::conduct::{
    Conduct, ConductRequirement, ConductType, ConductTypeBasic, ConductTypeBasicAttack,
};

verus! {

/// Which enemy acts.
pub struct DecideEnemyConductRequest {
    pub enemy_character_id: BattleCharacterId,
}

/// Picks the conduct an enemy performs: a fixed slashing attack on the
/// first player of the roster, free of costs and requirements.  `None`
/// when no player is left to target.
pub fn decide_enemy_conduct(battle: &Battle, request: DecideEnemyConductRequest) -> (r: Option<
    BattleConduct,
>)
    ensures
        r is Some <==> battle.players@.len() > 0,
        r matches Some(c) ==> {
            &&& c.actor_character_id == request.enemy_character_id
            &&& c.target_character_id == battle.players@[0].character_id
            &&& c.weapon is None
            &&& c.conduct.name@ == "Enemy Attack"@
            &&& c.conduct.sp_cost == 0
            &&& c.conduct.stamina_cost == 0
            &&& c.conduct.perks@.len() == 0
            &&& c.conduct.requirement == (ConductRequirement {
                strength: 0u32,
                dexterity: 0u32,
                intelligence: 0u32,
                faith: 0u32,
                arcane: 0u32,
                agility: 0u32,
            })
            &&& c.conduct.conduct_type matches ConductType::Basic(
                ConductTypeBasic::Attack(a),
            ) && a == (ConductTypeBasicAttack {
                attack_power: (AttackPower {
                    slash: 10u32,
                    strike: 0u32,
                    thrust: 0u32,
                    impact: 0u32,
                    magic: 0u32,
                    fire: 0u32,
                    lightning: 0u32,
                    chaos: 0u32,
                }),
                break_power: 5u32,
            })
        },
{
    if battle.players.len() == 0 {
        return None;
    }
    let target = &battle.players[0];
    let name = "Enemy Attack".to_string();
    proof {
        broadcast use vstd::string::to_string_from_display_ensures_for_str;

    }
    Some(
        BattleConduct {
            actor_character_id: request.enemy_character_id,
            target_character_id: target.character_id,
            conduct: Conduct {
                name,
                sp_cost: 0,
                stamina_cost: 0,
                perks: Vec::new(),
                requirement: ConductRequirement {
                    strength: 0,
                    dexterity: 0,
                    intelligence: 0,
                    faith: 0,
                    arcane: 0,
                    agility: 0,
                },
                conduct_type: ConductType::Basic(
                    ConductTypeBasic::Attack(
                        ConductTypeBasicAttack {
                            attack_power: AttackPower {
                                slash: 10,
                                strike: 0,
                                thrust: 0,
                                impact: 0,
                                magic: 0,
                                fire: 0,
                                lightning: 0,
                                chaos: 0,
                            },
                            break_power: 5,
                        },
                    ),
                ),
            },
            weapon: None,
        },
    )
}

} // verus!
