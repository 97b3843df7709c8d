//! Equipment rules: whether an armor piece can be put on beside the gear
//! already worn, and whether a weapon's requirements are met.

use vstd::prelude::*;
use crate::types::character::PlayerAbility;
use crate::types::equipment::{Armor, ArmorSlot, Equipment, Weapon};

verus! {

/// Whether any armor piece already equipped occupies `slot`.
pub open spec fn slot_taken(equipment: Equipment, slot: ArmorSlot) -> bool {
    ||| (equipment.armor1 matches Some(a) && a.slots@.contains(slot))
    ||| (equipment.armor2 matches Some(a) && a.slots@.contains(slot))
    ||| (equipment.armor3 matches Some(a) && a.slots@.contains(slot))
    ||| (equipment.armor4 matches Some(a) && a.slots@.contains(slot))
    ||| (equipment.armor5 matches Some(a) && a.slots@.contains(slot))
    ||| (equipment.armor6 matches Some(a) && a.slots@.contains(slot))
    ||| (equipment.armor7 matches Some(a) && a.slots@.contains(slot))
    ||| (equipment.armor8 matches Some(a) && a.slots@.contains(slot))
}

/// Whether `slots` holds `slot`.
fn slots_contain(slots: &Vec<ArmorSlot>, slot: ArmorSlot) -> (r: bool)
    ensures
        r == slots@.contains(slot),
{
    let n = slots.len();
    let mut i: usize = 0;
    while i < n
        invariant
            i <= n,
            n == slots@.len(),
            forall|k: int| 0 <= k < i ==> slots@[k] != slot,
        decreases n - i,
    {
        if slots[i] == slot {
            return true;
        }
        i += 1;
    }
    false
}

/// Whether `slot` is occupied by a piece of `equipment`.
fn equipment_slot_taken(equipment: &Equipment, slot: ArmorSlot) -> (r: bool)
    ensures
        r == slot_taken(*equipment, slot),
{
    if let Some(a) = &equipment.armor1 {
        if slots_contain(&a.slots, slot) {
            return true;
        }
    }
    if let Some(a) = &equipment.armor2 {
        if slots_contain(&a.slots, slot) {
            return true;
        }
    }
    if let Some(a) = &equipment.armor3 {
        if slots_contain(&a.slots, slot) {
            return true;
        }
    }
    if let Some(a) = &equipment.armor4 {
        if slots_contain(&a.slots, slot) {
            return true;
        }
    }
    if let Some(a) = &equipment.armor5 {
        if slots_contain(&a.slots, slot) {
            return true;
        }
    }
    if let Some(a) = &equipment.armor6 {
        if slots_contain(&a.slots, slot) {
            return true;
        }
    }
    if let Some(a) = &equipment.armor7 {
        if slots_contain(&a.slots, slot) {
            return true;
        }
    }
    if let Some(a) = &equipment.armor8 {
        if slots_contain(&a.slots, slot) {
            return true;
        }
    }
    false
}

/// An armor piece fits beside the gear already worn exactly when none of
/// the slots it occupies is taken.
pub open spec fn spec_armor_equippable(armor: Armor, equipment: Equipment) -> bool {
    forall|i: int|
        0 <= i < armor.slots@.len() ==> !slot_taken(equipment, #[trigger] armor.slots@[i])
}

/// Whether `armor` can be equipped beside the pieces `equipment` already
/// holds: every slot it occupies must still be free.
pub fn is_armor_equippable(armor: &Armor, equipment: Equipment) -> (r: bool)
    ensures
        r == spec_armor_equippable(*armor, equipment),
{
    let n = armor.slots.len();
    let mut i: usize = 0;
    while i < n
        invariant
            i <= n,
            n == armor.slots@.len(),
            forall|k: int| 0 <= k < i ==> !slot_taken(equipment, #[trigger] armor.slots@[k]),
        decreases n - i,
    {
        if equipment_slot_taken(&equipment, armor.slots[i]) {
            return false;
        }
        i += 1;
    }
    true
}

/// A weapon is usable exactly when every ability score reaches the
/// weapon's requirement.
pub open spec fn spec_weapon_usable(weapon: Weapon, player_ability: PlayerAbility) -> bool {
    &&& player_ability.strength >= weapon.ability_requirement.strength
    &&& player_ability.dexterity >= weapon.ability_requirement.dexterity
    &&& player_ability.intelligence >= weapon.ability_requirement.intelligence
    &&& player_ability.faith >= weapon.ability_requirement.faith
    &&& player_ability.arcane >= weapon.ability_requirement.arcane
    &&& player_ability.agility >= weapon.ability_requirement.agility
}

/// Whether the wielder's ability scores meet the weapon's requirements.
pub fn is_weapon_usable(weapon: &Weapon, player_ability: &PlayerAbility) -> (r: bool)
    ensures
        r == spec_weapon_usable(*weapon, *player_ability),
{
    if player_ability.strength < weapon.ability_requirement.strength {
        return false;
    }
    if player_ability.dexterity < weapon.ability_requirement.dexterity {
        return false;
    }
    if player_ability.intelligence < weapon.ability_requirement.intelligence {
        return false;
    }
    if player_ability.faith < weapon.ability_requirement.faith {
        return false;
    }
    if player_ability.arcane < weapon.ability_requirement.arcane {
        return false;
    }
    if player_ability.agility < weapon.ability_requirement.agility {
        return false;
    }
    true
}

} // verus!
