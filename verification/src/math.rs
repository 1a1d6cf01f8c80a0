//! Fixed-point math primitives for the physics core.
//!
//! Positions and vertices are plain `i64` coordinates; cached unit
//! directions carry components scaled by [`vector::UNIT`], so that a unit
//! vector has magnitude close to `UNIT`. Quotients round toward zero.

pub mod geometry;
pub mod matrix;
pub mod polyhedron;
pub mod vector;
