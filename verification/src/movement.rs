//! Deferred movement: goals buffered during the action phase, stuck
//! detection, and the compute-budget gate that decides whether any paths
//! are computed this tick.

use vstd::prelude::*;

use crate::constants::{HIGH_CPU_THRESHOLD, LOW_BUCKET_THRESHOLD, STUCK_REPATH_THRESHOLD};
use crate::pos::Position;

verus! {

/// Terrain-cost assumption set used to bias path-cost estimation.
#[derive(Copy, Clone, PartialEq, Eq, Structural, Hash, Debug)]
pub enum MovementProfile {
    /// Realistic costs: swamp five times as expensive as plains.
    SwampFiveToOne,
    /// Treat plains and swamp as uniform cost.
    PlainsOneToOne,
    /// Prefer roads at half the cost of plains.
    RoadsOneToTwo,
}

/// A deferred request to relocate an agent, produced during the action
/// phase and consumed by the movement phase of the same tick.
#[derive(Copy, Clone, PartialEq, Eq, Structural, Hash, Debug)]
pub struct MovementGoal {
    pub pos: Position,
    pub range: u32,
    pub profile: MovementProfile,
    pub avoid_creeps: bool,
}

/// Per-agent movement bookkeeping carried across ticks for stuck detection.
#[derive(Copy, Clone, PartialEq, Eq, Hash, Debug)]
pub struct MovementState {
    pub last_position: Option<Position>,
    pub stuck_count: u8,
}

impl MovementState {
    /// Fresh state for a newly registered agent.
    pub fn new() -> (s: MovementState)
        ensures
            s.last_position is None,
            s.stuck_count == 0,
    {
        MovementState { last_position: None, stuck_count: 0 }
    }

    /// Record the agent's position for one attempted-move tick: an
    /// unchanged position raises the stuck count, any other resets it.
    pub fn note_position(&mut self, current: Position)
        ensures
            final(self).last_position == Some(current),
            final(self).stuck_count == if old(self).last_position == Some(current) {
                old(self).stuck_count.saturating_add(1)
            } else {
                0u8
            },
    {
        let same = match self.last_position {
            Some(p) => p == current,
            None => false,
        };
        if same {
            self.stuck_count = self.stuck_count.saturating_add(1);
        } else {
            self.stuck_count = 0;
        }
        self.last_position = Some(current);
    }

    /// Whether the agent has sat still long enough to need a fresh path.
    pub fn is_stuck(&self) -> (r: bool)
        ensures
            r == (self.stuck_count >= STUCK_REPATH_THRESHOLD),
    {
        self.stuck_count >= STUCK_REPATH_THRESHOLD
    }
}

/// One buffered movement request, joined with what the movement phase
/// needs to know about the agent: its stuck bookkeeping and whether a
/// cached path is available for reuse.
#[derive(Copy, Clone, PartialEq, Eq, Debug)]
pub struct MoveRequest {
    pub worker: u128,
    pub goal: MovementGoal,
    pub stuck_count: u8,
    pub has_cached_path: bool,
}

/// A movement command the caller is to carry out: step the agent toward
/// the goal, computing a fresh path first when `fresh_path` is set.
#[derive(Copy, Clone, PartialEq, Eq, Debug)]
pub struct MoveCommand {
    pub worker: u128,
    pub goal: MovementGoal,
    pub fresh_path: bool,
}

/// Whether the compute budget leaves room for path computation this tick.
pub open spec fn spec_movement_allowed(cpu_used: u32, bucket: u32) -> bool {
    cpu_used <= HIGH_CPU_THRESHOLD && bucket >= LOW_BUCKET_THRESHOLD
}

/// The command a single buffered request turns into when movement runs.
pub open spec fn spec_command_for(req: MoveRequest) -> MoveCommand {
    MoveCommand {
        worker: req.worker,
        goal: req.goal,
        fresh_path: !req.has_cached_path || req.stuck_count >= STUCK_REPATH_THRESHOLD,
    }
}

/// Compute-budget gate: movement is skipped entirely when instantaneous
/// usage is above the high threshold or the banked reserve is below the
/// low threshold.
pub fn movement_allowed(cpu_used: u32, bucket: u32) -> (r: bool)
    ensures
        r == spec_movement_allowed(cpu_used, bucket),
{
    cpu_used <= HIGH_CPU_THRESHOLD && bucket >= LOW_BUCKET_THRESHOLD
}

/// Movement phase: turn every buffered request into a command, or — when
/// the compute budget is exhausted — into nothing at all. All-or-nothing
/// by design: a partially spent budget is never used for partial paths.
pub fn plan_movement(requests: &Vec<MoveRequest>, cpu_used: u32, bucket: u32) -> (cmds: Vec<
    MoveCommand,
>)
    ensures
        !spec_movement_allowed(cpu_used, bucket) ==> cmds@.len() == 0,
        spec_movement_allowed(cpu_used, bucket) ==> {
            &&& cmds@.len() == requests@.len()
            &&& forall|i: int|
                0 <= i < requests@.len() ==> cmds@[i] == spec_command_for(#[trigger] requests@[i])
        },
{
    let mut cmds: Vec<MoveCommand> = Vec::new();
    if !movement_allowed(cpu_used, bucket) {
        return cmds;
    }
    let mut i: usize = 0;
    while i < requests.len()
        invariant
            i <= requests@.len(),
            cmds@.len() == i,
            forall|j: int| 0 <= j < i ==> cmds@[j] == spec_command_for(#[trigger] requests@[j]),
        decreases requests@.len() - i,
    {
        let req = requests[i];
        let fresh_path = !req.has_cached_path || req.stuck_count >= STUCK_REPATH_THRESHOLD;
        cmds.push(MoveCommand { worker: req.worker, goal: req.goal, fresh_path });
        i += 1;
    }
    cmds
}

} // verus!
