//! Tunable numbers for the scheduling core, in one place for convenience.

use vstd::prelude::*;

verus! {

/// Movement is skipped for the tick when instantaneous compute usage
/// (in whole compute units) is above this number.
pub const HIGH_CPU_THRESHOLD: u32 = 250;

/// Movement is skipped for the tick when the banked compute reserve is
/// below this number.
pub const LOW_BUCKET_THRESHOLD: u32 = 1_000;

/// An agent whose position is unchanged across this many consecutive
/// attempted-move ticks is considered stuck and gets a fresh path.
pub const STUCK_REPATH_THRESHOLD: u8 = 10;

/// Limit on pathfinder operations per path request.
pub const MAX_OPS: u32 = 100_000;

/// Limit on rooms considered per path request.
pub const MAX_ROOMS: u8 = 64;

/// When task finding fails, idle this long before proposing again.
pub const NO_TASK_IDLE_TICKS: u32 = 5;

/// Fixed facilities are rescanned every this many ticks (and on the
/// first tick after a cold start).
pub const STRUCTURE_RESCAN_INTERVAL: u32 = 100;

/// Builder role considers dropped energy above this amount.
pub const BUILDER_ENERGY_PICKUP_THRESHOLD: u32 = 100;

/// Builder role considers structure withdrawals above this amount.
pub const BUILDER_ENERGY_WITHDRAW_THRESHOLD: u32 = 1_000;

/// Hauler role considers dropped energy above this amount.
pub const HAULER_ENERGY_PICKUP_THRESHOLD: u32 = 35;

/// Hauler role considers structure withdrawals above this amount.
pub const HAULER_ENERGY_WITHDRAW_THRESHOLD: u32 = 500;

/// Upgrader role considers dropped energy above this amount.
pub const UPGRADER_ENERGY_PICKUP_THRESHOLD: u32 = 100;

/// Upgrader role considers structure withdrawals above this amount.
pub const UPGRADER_ENERGY_WITHDRAW_THRESHOLD: u32 = 1_000;

/// Fill terminals to this much energy.
pub const TERMINAL_ENERGY_TARGET: u32 = 50_000;

/// Startup role repairs structures below this hit watermark.
pub const STARTUP_REPAIR_WATERMARK: u32 = 10_000;

/// Energy cost of one hauler body tier (two carry parts and a move part).
pub const HAULER_COST_PER_MULTIPLIER: u32 = 150;

/// Largest number of hauler body tiers.
pub const HAULER_MAX_MULTIPLIER: u32 = 5;

/// Hits restored per unit of energy spent repairing.
pub const REPAIR_POWER: u32 = 100;

/// Build progress per unit of energy spent building.
pub const BUILD_POWER: u32 = 5;

/// Interaction range for harvesting a source.
pub const RANGE_HARVEST: u32 = 1;

/// Interaction range for building a construction site.
pub const RANGE_BUILD: u32 = 3;

/// Interaction range for repairing a structure.
pub const RANGE_REPAIR: u32 = 3;

/// Interaction range for upgrading a controller.
pub const RANGE_UPGRADE: u32 = 3;

/// Interaction range for picking up, withdrawing or delivering resources.
pub const RANGE_TRANSFER: u32 = 1;

} // verus!
