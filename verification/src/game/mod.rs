//! Game Systems
//!
//! Inventory, equipment, dialogue, and the rules of combat and of the player.

pub mod combat;
pub mod dialogue;
pub mod inventory;
pub mod player;
