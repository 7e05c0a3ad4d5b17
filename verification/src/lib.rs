//! Decision core of a polarized-target frequency search: decimal fixed-point
//! arithmetic, the simulation clock, three-point rate estimators and the
//! hill-climbing controllers built on them.

pub mod controller;
pub mod fixed;
pub mod pdp;
pub mod simulation;
