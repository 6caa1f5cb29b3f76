//! Rules of a top-down sword-spinning arena game, verified: which bodies may
//! collide, how the arena is laid out, how held keys become a heading, and how
//! touches become taps, double taps and drags. The engine glue that applies
//! these decisions lives outside this crate.

pub mod arena;
pub mod controls;
pub mod layers;
pub mod touch;
