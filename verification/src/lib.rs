//! Decision logic of a Screeps: World bot: creep body composition, role
//! bookkeeping, room-name classification, request selection and the per-tick
//! decisions of creep tasks and power-creep actions.
//!
//! The game itself (reading objects, moving, calling intents) stays with the
//! caller; every function here works on plain values that describe what the
//! caller observed, and says exactly what it decides.

pub mod geometry;
pub mod rooms;
pub mod body;
pub mod resources;
pub mod tasks;
pub mod units;
pub mod roles;
pub mod requests;
pub mod shelter;
pub mod constants;
pub mod objects;
pub mod orders;
pub mod commons;
pub mod creeps;
pub mod names;
pub mod power;
