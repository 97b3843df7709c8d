//! Effect-resolution behavior of `conduct_effect`: the evasion gate and
//! the damage formulas of the three attack families.

use battle_engine::battle::execute_conduct::conduct_effect;
use battle_engine::types::battle::{
    BattleAbility, BattleCharacter, BattleCharacterBase, BattleConduct, BattlePlayer, BattleStats,
    BattleStatusEffect, BattleStatusEffectDuration, BattleWeapon,
};
use battle_engine::types::battle::incident::BattleIncidentStats;
use battle_engine::types::character::{Player, PlayerAbility, PlayerStats};
use battle_engine::types::common::{AbilityScaling, AttackPower, AttackPowerScaling, DefensePower};
use battle_engine::types::conduct::{
    Conduct, ConductPerk, ConductRequirement, ConductType, ConductTypeBasic,
    ConductTypeBasicAttack, ConductTypeSkill, ConductTypeSkillPotency,
    ConductTypeSkillPotencyAttack, ConductTypeSorcery, ConductTypeSorceryAttack,
};
use battle_engine::types::equipment::{
    Equipment, GuardCutRate, Weapon, WeaponAbilityRequirement, WeaponAttackPower,
    WeaponAttackPowerAbilityScaling, WeaponBreakPower, WeaponGuard, WeaponKind, WeaponSorceryPower,
};
use battle_engine::types::status_ailment::StatusEffectPotency;

fn dummy_player() -> Player {
    Player {
        ability: PlayerAbility {
            vitality: 0,
            spirit: 0,
            endurance: 0,
            agility: 0,
            strength: 0,
            dexterity: 0,
            intelligence: 0,
            faith: 0,
            arcane: 0,
        },
        stats: PlayerStats { hp: 100, sp: 10, stamina: 10, stamina_recovery: 0, equip_load: 0 },
        base_defense_power: min_defense(),
        equipment: Equipment {
            weapon1: None,
            weapon2: None,
            armor1: None,
            armor2: None,
            armor3: None,
            armor4: None,
            armor5: None,
            armor6: None,
            armor7: None,
            armor8: None,
        },
    }
}

fn min_defense() -> DefensePower {
    DefensePower {
        slash: 1,
        strike: 1,
        thrust: 1,
        impact: 1,
        magic: 1,
        fire: 1,
        lightning: 1,
        chaos: 1,
    }
}

fn zero_attack() -> AttackPower {
    AttackPower {
        slash: 0,
        strike: 0,
        thrust: 0,
        impact: 0,
        magic: 0,
        fire: 0,
        lightning: 0,
        chaos: 0,
    }
}

fn zero_ability_scaling() -> AbilityScaling {
    AbilityScaling {
        strength: 0,
        dexterity: 0,
        intelligence: 0,
        faith: 0,
        arcane: 0,
        agility: 0,
    }
}

fn dummy_weapon() -> Weapon {
    Weapon {
        kind: WeaponKind::StraightSword,
        weight: 1,
        ability_requirement: WeaponAbilityRequirement {
            strength: 0,
            dexterity: 0,
            intelligence: 0,
            faith: 0,
            arcane: 0,
            agility: 0,
        },
        attack_power: WeaponAttackPower {
            base: zero_attack(),
            ability_scaling: WeaponAttackPowerAbilityScaling {
                slash: zero_ability_scaling(),
                strike: zero_ability_scaling(),
                thrust: zero_ability_scaling(),
                impact: zero_ability_scaling(),
                magic: zero_ability_scaling(),
                fire: zero_ability_scaling(),
                lightning: zero_ability_scaling(),
                chaos: zero_ability_scaling(),
            },
        },
        sorcery_power: WeaponSorceryPower { base: 1, scaling: zero_ability_scaling() },
        break_power: WeaponBreakPower { base_power: 0, scaling: zero_ability_scaling() },
        guard: WeaponGuard {
            cut_rate: GuardCutRate {
                slash: 100,
                strike: 100,
                thrust: 100,
                impact: 100,
                magic: 100,
                fire: 100,
                lightning: 100,
                chaos: 100,
            },
            guard_strength: 0,
        },
    }
}

fn player_target(character_id: u32, status_effects: Vec<BattleStatusEffect>) -> BattleCharacter {
    BattleCharacter::Player(BattlePlayer {
        character_id,
        original: dummy_player(),
        base: BattleCharacterBase {
            current_ability: BattleAbility {
                agility: 0,
                strength: 0,
                dexterity: 0,
                intelligence: 0,
                faith: 0,
                arcane: 0,
            },
            current_stats: BattleStats {
                max_hp: 100,
                max_sp: 10,
                max_stamina: 10,
                hp_damage: 0,
                sp_damage: 0,
                stamina_damage: 0,
            },
            defense_power: min_defense(),
            status_effects,
        },
    })
}

fn zero_requirement() -> ConductRequirement {
    ConductRequirement {
        strength: 0,
        dexterity: 0,
        intelligence: 0,
        faith: 0,
        arcane: 0,
        agility: 0,
    }
}

#[test]
fn test_conduct_effect_evades_with_evasion() {
    let mut target = player_target(
        1,
        vec![BattleStatusEffect {
            potency: StatusEffectPotency::Evasion,
            duration: BattleStatusEffectDuration::Permanent,
        }],
    );

    let conduct = BattleConduct {
        actor_character_id: 100,
        target_character_id: 1,
        conduct: Conduct {
            name: "Basic Attack".to_string(),
            sp_cost: 0,
            stamina_cost: 0,
            perks: vec![ConductPerk::Melee],
            requirement: zero_requirement(),
            conduct_type: ConductType::Basic(ConductTypeBasic::Attack(ConductTypeBasicAttack {
                attack_power: zero_attack(),
                break_power: 0,
            })),
        },
        weapon: None,
    };

    let result = conduct_effect(&conduct, &mut target);

    assert!(result.is_evaded);
    assert!(!result.is_defended);
    assert!(result.stats_changes.is_empty());
    assert!(result.status_effects.is_empty());
}

#[test]
fn test_conduct_effect_basic_attack_zero_damage() {
    let mut target = player_target(2, vec![]);

    let conduct = BattleConduct {
        actor_character_id: 100,
        target_character_id: 2,
        conduct: Conduct {
            name: "Basic Attack".to_string(),
            sp_cost: 0,
            stamina_cost: 0,
            perks: vec![ConductPerk::Melee],
            requirement: zero_requirement(),
            conduct_type: ConductType::Basic(ConductTypeBasic::Attack(ConductTypeBasicAttack {
                attack_power: zero_attack(),
                break_power: 0,
            })),
        },
        weapon: None,
    };

    let result = conduct_effect(&conduct, &mut target);

    assert!(!result.is_evaded);
    assert!(!result.is_defended);
    assert!(result.status_effects.is_empty());
    assert_eq!(result.stats_changes.len(), 1);
    match &result.stats_changes[0] {
        BattleIncidentStats::DamageHp(d) => {
            assert_eq!(d.damage, 0);
            assert_eq!(d.before, 0);
            assert_eq!(d.after, 0);
        }
        _ => panic!("expected DamageHp incident"),
    }
    assert_eq!(target.current_stats().hp_damage, 0);
}

#[test]
fn test_conduct_effect_basic_attack_applies_damage() {
    let mut target = player_target(100, vec![]);

    let mut atk = zero_attack();
    atk.slash = 10;

    let conduct = BattleConduct {
        actor_character_id: 100,
        target_character_id: 10,
        conduct: Conduct {
            name: "Basic Attack".to_string(),
            sp_cost: 0,
            stamina_cost: 0,
            perks: vec![ConductPerk::Melee],
            requirement: zero_requirement(),
            conduct_type: ConductType::Basic(ConductTypeBasic::Attack(ConductTypeBasicAttack {
                attack_power: atk,
                break_power: 0,
            })),
        },
        weapon: None,
    };

    let result = conduct_effect(&conduct, &mut target);

    assert!(!result.is_evaded);
    assert!(!result.is_defended);
    assert!(matches!(
        result.stats_changes.get(0),
        Some(BattleIncidentStats::DamageHp(_))
    ));
    if let BattleIncidentStats::DamageHp(d) = &result.stats_changes[0] {
        assert_eq!(d.damage, 10);
        assert_eq!(d.before, 0);
        assert_eq!(d.after, 10);
    } else {
        panic!("expected DamageHp incident");
    }
    assert_eq!(target.current_stats().hp_damage, 10);
}

#[test]
fn test_conduct_effect_skill_attack_applies_damage() {
    let mut target = player_target(100, vec![]);

    let mut skill_ap = zero_attack();
    skill_ap.slash = 12;

    let mut scaling = AttackPowerScaling::default();
    scaling.slash = 100;

    let mut weapon_ap = zero_attack();
    weapon_ap.slash = 5;
    let weapon = BattleWeapon {
        original: dummy_weapon(),
        attack_power: weapon_ap,
        sorcery_power: 100,
        break_power: 0,
    };

    let conduct = BattleConduct {
        actor_character_id: 100,
        target_character_id: 11,
        conduct: Conduct {
            name: "Skill Attack".to_string(),
            sp_cost: 0,
            stamina_cost: 0,
            perks: vec![ConductPerk::Melee],
            requirement: zero_requirement(),
            conduct_type: ConductType::Skill(ConductTypeSkill {
                usable_weapon_kinds: vec![],
                potency: ConductTypeSkillPotency::Attack(ConductTypeSkillPotencyAttack {
                    attack_power: skill_ap,
                    attack_power_scaling: scaling,
                    break_power: 0,
                    break_power_scaling: 0,
                }),
            }),
        },
        weapon: Some(weapon),
    };

    let result = conduct_effect(&conduct, &mut target);

    assert!(!result.is_evaded);
    assert!(!result.is_defended);
    if let BattleIncidentStats::DamageHp(d) = &result.stats_changes[0] {
        assert_eq!(d.damage, 17);
        assert_eq!(d.before, 0);
        assert_eq!(d.after, 17);
    } else {
        panic!("expected DamageHp incident");
    }
    assert_eq!(target.current_stats().hp_damage, 17);
}

#[test]
fn test_conduct_effect_sorcery_attack_applies_damage() {
    let mut target = player_target(100, vec![]);

    let mut sorc_ap = zero_attack();
    sorc_ap.slash = 8;

    let conduct = BattleConduct {
        actor_character_id: 100,
        target_character_id: 12,
        conduct: Conduct {
            name: "Sorcery Attack".to_string(),
            sp_cost: 0,
            stamina_cost: 0,
            perks: vec![ConductPerk::Melee],
            requirement: zero_requirement(),
            conduct_type: ConductType::Sorcery(ConductTypeSorcery::Attack(
                ConductTypeSorceryAttack { attack_power: sorc_ap, break_power: 0 },
            )),
        },
        weapon: None,
    };

    let result = conduct_effect(&conduct, &mut target);

    assert!(!result.is_evaded);
    assert!(!result.is_defended);
    if let BattleIncidentStats::DamageHp(d) = &result.stats_changes[0] {
        assert_eq!(d.damage, 8);
        assert_eq!(d.before, 0);
        assert_eq!(d.after, 8);
    } else {
        panic!("expected DamageHp incident");
    }
    assert_eq!(target.current_stats().hp_damage, 8);
}

#[test]
fn test_conduct_effect_skill_attack_with_weapon_zero_scaling() {
    let mut target = player_target(100, vec![]);

    let mut skill_ap = zero_attack();
    skill_ap.slash = 20;

    let scaling = AttackPowerScaling::default();

    let mut weapon_ap = zero_attack();
    weapon_ap.slash = 7;
    let weapon = BattleWeapon {
        original: dummy_weapon(),
        attack_power: weapon_ap,
        sorcery_power: 100,
        break_power: 0,
    };

    let conduct = BattleConduct {
        actor_character_id: 100,
        target_character_id: 13,
        conduct: Conduct {
            name: "Skill Attack Zero Scaling".to_string(),
            sp_cost: 0,
            stamina_cost: 0,
            perks: vec![ConductPerk::Melee],
            requirement: zero_requirement(),
            conduct_type: ConductType::Skill(ConductTypeSkill {
                usable_weapon_kinds: vec![],
                potency: ConductTypeSkillPotency::Attack(ConductTypeSkillPotencyAttack {
                    attack_power: skill_ap,
                    attack_power_scaling: scaling,
                    break_power: 0,
                    break_power_scaling: 0,
                }),
            }),
        },
        weapon: Some(weapon),
    };

    let result = conduct_effect(&conduct, &mut target);
    if let BattleIncidentStats::DamageHp(d) = &result.stats_changes[0] {
        assert_eq!(d.damage, 7);
        assert_eq!(d.before, 0);
        assert_eq!(d.after, 7);
    } else {
        panic!("expected DamageHp incident");
    }
    assert_eq!(target.current_stats().hp_damage, 7);
}

#[test]
fn test_conduct_effect_skill_attack_multi_attribute_sum() {
    let mut target = player_target(100, vec![]);

    let mut skill_ap = zero_attack();
    skill_ap.slash = 10;
    skill_ap.strike = 6;

    let mut scaling = AttackPowerScaling::default();
    scaling.slash = 100;
    scaling.strike = 100;

    let mut weapon_ap = zero_attack();
    weapon_ap.slash = 5;
    weapon_ap.strike = 4;
    let weapon = BattleWeapon {
        original: dummy_weapon(),
        attack_power: weapon_ap,
        sorcery_power: 100,
        break_power: 0,
    };

    let conduct = BattleConduct {
        actor_character_id: 100,
        target_character_id: 14,
        conduct: Conduct {
            name: "Skill Attack Multi Attribute".to_string(),
            sp_cost: 0,
            stamina_cost: 0,
            perks: vec![ConductPerk::Melee],
            requirement: zero_requirement(),
            conduct_type: ConductType::Skill(ConductTypeSkill {
                usable_weapon_kinds: vec![],
                potency: ConductTypeSkillPotency::Attack(ConductTypeSkillPotencyAttack {
                    attack_power: skill_ap,
                    attack_power_scaling: scaling,
                    break_power: 0,
                    break_power_scaling: 0,
                }),
            }),
        },
        weapon: Some(weapon),
    };

    let result = conduct_effect(&conduct, &mut target);
    if let BattleIncidentStats::DamageHp(d) = &result.stats_changes[0] {
        assert_eq!(d.damage, 25);
        assert_eq!(d.before, 0);
        assert_eq!(d.after, 25);
    } else {
        panic!("expected DamageHp incident");
    }
    assert_eq!(target.current_stats().hp_damage, 25);
}
