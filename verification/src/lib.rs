//! Loot oracle for a farming-simulation game: predicts the contents of a
//! companion creature's treasure chest from the pseudo-random seed the game
//! will use at the moment of opening.
//!
//! The crate has two layers. `rng` reproduces, draw for draw, the subtractive
//! pseudo-random generator that the game's runtime provides (the classic
//! .NET `System.Random` algorithm). `loot` walks the game's fixed probability
//! tree on top of it: rarity-tier item selection, rejection sampling of a
//! disabled item, weapon picks and innate-enchantment sub-rolls, and the
//! luck-gated combinator that decides between the common and the rare chest.
//! `text` renders resolved items as display strings and icon keys.

pub mod loot;
pub mod rng;
pub mod text;
