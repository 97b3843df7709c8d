//! Data model of the battle engine: attribute vectors, combatants,
//! equipment, status effects, conducts and incident records.

pub mod battle;
pub mod character;
pub mod common;
pub mod conduct;
pub mod equipment;
pub mod status_ailment;
