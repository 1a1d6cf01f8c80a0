//! Simulation-side bookkeeping: the pairwise collision table and the
//! bounding-cage record. The floating-point body dynamics that fill
//! these structures run in the host driver.

pub mod bounding_box;
pub mod collision_table;
