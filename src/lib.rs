//! Control logic for a siege battlefield: trebuchet launch cycles, rig assembly,
//! projectile lifetimes, radar target registration and turret engagement.
pub mod defense;
pub mod fortress;
pub mod geom;
pub mod projectile;
pub mod radar;
pub mod random;
pub mod rig;
pub mod timer;
pub mod trebuchet;
pub mod turret;
