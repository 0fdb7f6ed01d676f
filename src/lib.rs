//! Rules of a top-down survival game: collision events between the player,
//! enemies, charmed allies and the player's charming area; the player's health
//! and invulnerability window; the charm that turns enemies into allies for a
//! while; enemy waves; and the sprite-sheet layouts of every character.
//!
//! Time is counted in whole nanoseconds and entities by the bits of their
//! engine identifiers, so that every rule here is exact integer logic.
pub mod charm;
mod chance;
pub mod collision;
pub mod health;
pub mod sprites;
pub mod timer;
pub mod waves;
