//! The screens: what the keys do to them, without drawing.

pub mod keys;
pub mod setup;
pub mod states;
