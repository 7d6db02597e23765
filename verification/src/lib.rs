//! Core engine of a grid-based "snake" simulation: a growing chain of
//! segments moves on a small toroidal board, eats randomly placed food,
//! grows on eating, speeds up as it grows, and dies on self-collision.
//!
//! The engine is pure state-transition logic: a host loop feeds it direction
//! events and elapsed time, and reads back positions to draw.

pub mod chain;
pub mod food;
pub mod geom;
pub mod speed;
pub mod session;
pub mod timer;
