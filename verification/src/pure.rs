//! Computations that depend on nothing but their arguments.

pub mod edit_distance;
pub mod resample;
pub mod text;
pub mod typer;
pub mod typing_state;
