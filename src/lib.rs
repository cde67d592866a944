//! Unit composition and spawning for an arena strategy game.
//!
//! Each unit type supplies its stats, its animation clips and its weighted
//! behavior repertoire through a factory; spawning assembles those pieces,
//! plus the caller's team and position, into one entity plan that the game's
//! entity store then instantiates.
pub mod descriptors;
pub mod factories;
pub mod registry;
pub mod spawn;
