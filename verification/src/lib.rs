//! Game logic of Shipwrecked, a top-down island survival game: the item and
//! inventory model, crafting recipes, the object registry, the island grid
//! with its tides, animal and player rules, and the save snapshot of the
//! world. Rendering, input, timing and file access live in the application.

pub mod atlas;
pub mod inventory;
pub mod recipes;
pub mod behavior;
pub mod text;
pub mod objects;
pub mod world;
pub mod player;
pub mod npc;
pub mod actions;
pub mod save;
pub mod map;
pub mod game;
pub mod input;
