//! Turn-resolution engine for a tactical RPG battle.
//!
//! Given a roster of player and enemy combatants, the engine decides action
//! order, validates and executes a chosen conduct (attack, skill, sorcery or
//! support action), computes per-attribute damage, and advances the
//! time-based mechanics: stamina regeneration, the break stagger state and
//! duration-limited status effects.
//!
//! Every fractional multiplier of the game rules (attack-power scalings, cut
//! rates, sorcery power) is held in hundredths, so that `100` stands for a
//! factor of one; the defense formulas use coefficients in tenths.  All
//! arithmetic saturates instead of wrapping, and every mutation keeps the
//! roster invariants (accumulated damage never exceeds the matching
//! capacity).

pub mod equipment;
pub mod player;
pub mod types;
pub mod battle;
