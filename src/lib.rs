//! A simplified solar system: ten bodies on fixed Keplerian orbits, driven by
//! a clock that only moves forward, with every state derived from absolute time.

pub mod body;
pub mod catalog;
pub mod orbit;
pub mod frame;
pub mod solar_system;
pub mod simulation;
