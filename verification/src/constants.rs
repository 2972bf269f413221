use vstd::prelude::*;

verus! {

pub const MIN_STORAGE_FREE_CAPACITY: i32 = 5_000;
pub const MIN_ENERGY_CAPACITY: u32 = 10_000;
pub const MAX_POWER_CAPACITY: u32 = 150_000;
pub const MIN_CARRY_REQUEST_AMOUNT: u32 = 1_000;
pub const MAX_CARRY_REQUEST_AMOUNT: u32 = 5_000;
pub const MY_ROOMS_PICKUP_RESOURCE_THRESHOLD: u32 = 1000;
pub const FARM_ROOMS_PICKUP_RESOURCE_THRESHOLD: u32 = 1600;
pub const DEPOSIT_REQUEST_THRESHOLD: u32 = 35;
pub const MIN_PERIMETR_HITS: u32 = 100_000;
pub const MAX_RAMPART_HITS: u32 = 299_000_000;
pub const MAX_WALL_HITS: u32 = 100_000;
/// CPU bucket below which creeps do not search fresh paths.
pub const LOW_BUCKET_THRESHOLD: i32 = 500;
/// Ticks after which a creep that has not moved is given a new path.
pub const STUCK_REPATH_THRESHOLD: u8 = 3;
/// Limit of path-finder operations.
pub const MAX_OPS: u32 = 10_000;
/// Limit of rooms a path may cross.
pub const MAX_ROOMS: u8 = 16;
/// Idle ticks when no task is found.
pub const NO_TASK_IDLE_TICKS: u32 = 1;
/// Range of a creep's ranged actions.
pub const CREEP_RANGED_ACTION_RANGE: u32 = 3;
/// Just out of range of ranged actions.
pub const RANGED_OUT_OF_RANGE: u32 = 4;
/// Just out of range of melee actions.
pub const MELEE_OUT_OF_RANGE: u32 = 2;
/// Distance from the room border that an escaping creep runs to.
pub const ESCAPE_FROM_EDGE_RANGE: u32 = 5;
/// Idle ticks after escaping from a hostile.
pub const ESCAPE_IDLE_TICKS: u32 = 5;
/// Ticks a creep hides in another room.
pub const HIDE_TIMEOUT: u32 = 10;
/// Dropped energy a handyman picks up from this amount on.
pub const HANDYMAN_ENERGY_PICKUP_THRESHOLD: u32 = 600;
/// Energy in a structure a handyman takes from this amount on.
pub const HANDYMAN_ENERGY_WITHDRAW_THRESHOLD: u32 = 500;
/// Ticks a hostile room is avoided.
pub const AVOID_HOSTILE_ROOM_TIMEOUT: u32 = 100_000;
pub const LONG_RANGE_ACTION: u32 = 3;
pub const CLOSE_RANGE_ACTION: u32 = 1;

} // verus!
