//! Agent roles: plain per-role configuration data plus the small
//! role-derived attributes (body composition, movement profile, mobility).
//! The role-specific task proposal logic lives in `proposal`.

use vstd::prelude::*;

use crate::constants::{HAULER_COST_PER_MULTIPLIER, HAULER_MAX_MULTIPLIER};
use crate::movement::MovementProfile;
use crate::pos::Position;

verus! {

/// Stable identity of an operating area (a room of the world grid).
pub type RoomName = u32;

/// Repairs and builds around its home room.
#[derive(Copy, Clone, PartialEq, Eq, Structural, Hash, Debug)]
pub struct Builder {
    pub home_room: RoomName,
    pub repair_watermark: u32,
}

/// Moves energy from piles and stores to consumers in its home room.
#[derive(Copy, Clone, PartialEq, Eq, Structural, Hash, Debug)]
pub struct Hauler {
    pub home_room: RoomName,
    pub id: u8,
}

/// Sits on one energy source and harvests it indefinitely.
#[derive(Copy, Clone, PartialEq, Eq, Structural, Hash, Debug)]
pub struct SourceHarvester {
    pub source_position: Position,
}

/// General-purpose bootstrap worker used before the colony specialises.
#[derive(Copy, Clone, PartialEq, Eq, Structural, Hash, Debug)]
pub struct Startup {
    pub home_room: RoomName,
    pub id: u8,
}

/// A fixed defensive facility; schedulable but immobile.
#[derive(Copy, Clone, PartialEq, Eq, Structural, Hash, Debug)]
pub struct Tower {
    pub room: RoomName,
}

/// Spends energy upgrading its home room's controller.
#[derive(Copy, Clone, PartialEq, Eq, Structural, Hash, Debug)]
pub struct Upgrader {
    pub home_room: RoomName,
    pub id: u8,
}

/// Closed union of every schedulable role.
#[derive(Copy, Clone, PartialEq, Eq, Structural, Hash, Debug)]
pub enum WorkerRole {
    Builder(Builder),
    Hauler(Hauler),
    SourceHarvester(SourceHarvester),
    Startup(Startup),
    Tower(Tower),
    Upgrader(Upgrader),
}

/// One segment of a mobile agent's body.
#[derive(Copy, Clone, PartialEq, Eq, Structural, Hash, Debug)]
pub enum BodyPart {
    Move,
    Carry,
    Work,
}

/// The hauler body: `multiplier` repetitions of carry, carry, move.
pub open spec fn spec_hauler_body(multiplier: nat) -> Seq<BodyPart>
    decreases multiplier,
{
    if multiplier == 0 {
        Seq::empty()
    } else {
        spec_hauler_body((multiplier - 1) as nat) + seq![
            BodyPart::Carry,
            BodyPart::Carry,
            BodyPart::Move,
        ]
    }
}

/// How many body tiers a hauler gets for the energy available.
pub open spec fn spec_hauler_multiplier(max_energy_available: u32) -> u32 {
    let tiers = max_energy_available / HAULER_COST_PER_MULTIPLIER;
    if tiers <= HAULER_MAX_MULTIPLIER {
        tiers
    } else {
        HAULER_MAX_MULTIPLIER
    }
}

/// The body each role is spawned with, given the energy the spawning
/// facility could muster. Towers are never spawned and have no body.
pub open spec fn spec_body_for(role: WorkerRole, max_energy_available: u32) -> Seq<BodyPart> {
    match role {
        WorkerRole::Builder(_) => seq![BodyPart::Move, BodyPart::Carry, BodyPart::Work],
        WorkerRole::Hauler(_) => spec_hauler_body(
            spec_hauler_multiplier(max_energy_available) as nat,
        ),
        WorkerRole::SourceHarvester(_) => seq![
            BodyPart::Move,
            BodyPart::Move,
            BodyPart::Move,
            BodyPart::Work,
            BodyPart::Work,
            BodyPart::Work,
            BodyPart::Work,
            BodyPart::Work,
        ],
        WorkerRole::Startup(_) => seq![
            BodyPart::Move,
            BodyPart::Move,
            BodyPart::Carry,
            BodyPart::Work,
        ],
        WorkerRole::Tower(_) => Seq::empty(),
        WorkerRole::Upgrader(_) => seq![
            BodyPart::Move,
            BodyPart::Move,
            BodyPart::Carry,
            BodyPart::Work,
        ],
    }
}

/// Terrain-cost assumption each role moves under: the bootstrap role
/// treats all walkable terrain as uniform, every other role uses
/// realistic costs.
pub open spec fn spec_movement_profile(role: WorkerRole) -> MovementProfile {
    match role {
        WorkerRole::Startup(_) => MovementProfile::PlainsOneToOne,
        _ => MovementProfile::SwampFiveToOne,
    }
}

impl WorkerRole {
    /// Whether agents of this role can relocate at all.
    pub fn can_move(&self) -> (r: bool)
        ensures
            r == !(self matches WorkerRole::Tower(_)),
    {
        match self {
            WorkerRole::Tower(_) => false,
            _ => true,
        }
    }

    /// Whether this role is ever spawned as a mobile agent; only such a
    /// role has a creep body.
    pub fn is_spawnable(&self) -> (r: bool)
        ensures
            r == !(self matches WorkerRole::Tower(_)),
    {
        match self {
            WorkerRole::Tower(_) => false,
            _ => true,
        }
    }

    /// Terrain-cost assumption this role moves under.
    pub fn get_movement_profile(&self) -> (r: MovementProfile)
        ensures
            r == spec_movement_profile(*self),
    {
        match self {
            WorkerRole::Startup(_) => MovementProfile::PlainsOneToOne,
            _ => MovementProfile::SwampFiveToOne,
        }
    }

    /// The body an agent of this role is spawned with. Haulers scale with
    /// the energy the spawning facility has available; other roles are
    /// fixed.
    pub fn get_body_for_creep(&self, max_energy_available: u32) -> (body: Vec<BodyPart>)
        requires
            !(self matches WorkerRole::Tower(_)),
        ensures
            body@ == spec_body_for(*self, max_energy_available),
    {
        match self {
            WorkerRole::Builder(_) => vec![BodyPart::Move, BodyPart::Carry, BodyPart::Work],
            WorkerRole::Hauler(_) => hauler_body(max_energy_available),
            WorkerRole::SourceHarvester(_) => vec![
                BodyPart::Move,
                BodyPart::Move,
                BodyPart::Move,
                BodyPart::Work,
                BodyPart::Work,
                BodyPart::Work,
                BodyPart::Work,
                BodyPart::Work,
            ],
            WorkerRole::Startup(_) => vec![
                BodyPart::Move,
                BodyPart::Move,
                BodyPart::Carry,
                BodyPart::Work,
            ],
            WorkerRole::Tower(_) => Vec::new(),
            WorkerRole::Upgrader(_) => vec![
                BodyPart::Move,
                BodyPart::Move,
                BodyPart::Carry,
                BodyPart::Work,
            ],
        }
    }
}

/// Build the scaled hauler body.
fn hauler_body(max_energy_available: u32) -> (body: Vec<BodyPart>)
    ensures
        body@ == spec_hauler_body(spec_hauler_multiplier(max_energy_available) as nat),
{
    let tiers = max_energy_available / HAULER_COST_PER_MULTIPLIER;
    let multiplier = if tiers <= HAULER_MAX_MULTIPLIER {
        tiers
    } else {
        HAULER_MAX_MULTIPLIER
    };
    let mut body: Vec<BodyPart> = Vec::new();
    let mut m: u32 = 0;
    while m < multiplier
        invariant
            m <= multiplier,
            body@ == spec_hauler_body(m as nat),
        decreases multiplier - m,
    {
        body.push(BodyPart::Carry);
        body.push(BodyPart::Carry);
        body.push(BodyPart::Move);
        proof {
            assert(body@ =~= spec_hauler_body(m as nat) + seq![
                BodyPart::Carry,
                BodyPart::Carry,
                BodyPart::Move,
            ]);
        }
        m += 1;
    }
    body
}

} // verus!
