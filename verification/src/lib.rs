//! # Critters Core
//!
//! The rules of *Critter Stack*, a physics stacking game: the shape and
//! critter tables, the altitude tiers, the tray's weighted shape offering,
//! the game flow (intro, play, game over), the scoring records, the
//! persisted settings format, the pseudo-random source and the texture
//! edge bleeding used by the sprite cache.

pub mod config;
pub mod text;
pub mod settings;
pub mod rng;
pub mod tray;
pub mod sprites;
pub mod game;
pub mod input;
pub mod piece;
pub mod debug;
