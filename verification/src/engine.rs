//! The task execution engine: run an agent's front queue entry against a
//! plain-value snapshot of the current tick and produce a [`TaskResult`].
//!
//! Targets are re-resolved every tick; the snapshot records the outcome.
//! A target that no longer resolves completes the task (stale references
//! are expected, not exceptional). The engine never moves an agent or
//! touches the world itself: it asks for movement through
//! [`TaskResult::MoveMeTo`] and for world actions through
//! [`TaskQueueEntry::planned_action`], whose reply the caller records in
//! the snapshot before asking for the step's result.

use vstd::prelude::*;

use crate::constants::{RANGE_BUILD, RANGE_HARVEST, RANGE_REPAIR, RANGE_TRANSFER, RANGE_UPGRADE};
use crate::movement::{MovementGoal, MovementProfile};
use crate::pos::{spec_range_between, Position};
use crate::role::WorkerRole;
use crate::task::{ObjectId, ResourceKind, Task, TaskQueueEntry};

verus! {

/// What task execution asks its caller to do with the agent's queue,
/// its ledger claims, or the agent itself.
#[derive(Copy, Clone, PartialEq, Eq, Structural, Hash, Debug)]
pub enum TaskResult {
    Complete,
    StillWorking,
    MoveMeTo(MovementGoal),
    AddTaskToFront(TaskQueueEntry),
    CompleteAddTaskToFront(TaskQueueEntry),
    CompleteAddTaskToBack(TaskQueueEntry),
    DestroyWorker,
}

/// The acting agent, as plain values read from the current tick.
#[derive(Copy, Clone, PartialEq, Eq, Structural, Hash, Debug)]
pub struct WorkerSnapshot {
    pub position: Position,
    /// Energy currently held.
    pub energy_used: u32,
    /// Capacity left for more energy.
    pub energy_free: u32,
    /// Whether the agent is still being produced and cannot act yet.
    pub is_spawning: bool,
}

/// Current-tick attributes of a re-resolved target.
#[derive(Copy, Clone, PartialEq, Eq, Structural, Hash, Debug)]
pub struct TargetSnapshot {
    pub position: Position,
    /// Remaining durability, for repair decisions; zero when meaningless.
    pub hits: u32,
    /// Full durability; zero for indestructible or non-structure targets.
    pub hits_max: u32,
}

/// Outcome of re-resolving a task's target in the current tick.
#[derive(Copy, Clone, PartialEq, Eq, Structural, Hash, Debug)]
pub enum Resolution {
    /// The target identity no longer resolves to a live object.
    NotFound,
    Found(TargetSnapshot),
}

/// The world's reply to the action command this step issued, if any.
#[derive(Copy, Clone, PartialEq, Eq, Structural, Hash, Debug)]
pub enum ActionResponse {
    /// No action was issued before asking for the step's result.
    NotAttempted,
    /// The action was accepted.
    Succeeded,
    /// Soft condition: the target or the agent's cargo is now full or
    /// empty, so the action did nothing more.
    TargetSaturated,
    /// Hard failure: the world declined the action.
    Rejected,
    /// Failure severe enough that the agent should be dropped.
    Fatal,
}

/// A world action the engine wants issued for the agent this step.
#[derive(Copy, Clone, PartialEq, Eq, Structural, Hash, Debug)]
pub enum ActionCommand {
    Harvest(ObjectId),
    Build(ObjectId),
    Repair(ObjectId),
    Upgrade(ObjectId),
    Pickup(ObjectId),
    Withdraw(ObjectId, ResourceKind),
    Transfer(ObjectId, ResourceKind),
    SpawnNewCreep(WorkerRole),
}

/// Everything one execution step reads from the current tick.
#[derive(Copy, Clone, PartialEq, Eq, Structural, Hash, Debug)]
pub struct StepContext {
    pub tick: u32,
    pub worker: WorkerSnapshot,
    pub resolution: Resolution,
    pub response: ActionResponse,
}

/// The target identity a task must re-resolve each tick, if it has one.
pub open spec fn spec_task_target(task: Task) -> Option<ObjectId> {
    match task {
        Task::WaitToSpawn => None,
        Task::IdleUntil(_) => None,
        Task::MoveToPosition(_, _) => None,
        Task::HarvestEnergyUntilFull(id) => Some(id),
        Task::HarvestEnergyForever(id) => Some(id),
        Task::Upgrade(id) => Some(id),
        Task::SpawnCreep(_) => None,
        Task::Build(id) => Some(id),
        Task::Repair(id) => Some(id),
        Task::TakeFromResource(id) => Some(id),
        Task::TakeFromStructure(id, _) => Some(id),
        Task::DeliverToStructure(id, _) => Some(id),
    }
}

/// The interaction range a task's action requires.
pub open spec fn spec_required_range(task: Task) -> u32 {
    match task {
        Task::HarvestEnergyUntilFull(_) => RANGE_HARVEST,
        Task::HarvestEnergyForever(_) => RANGE_HARVEST,
        Task::Upgrade(_) => RANGE_UPGRADE,
        Task::Build(_) => RANGE_BUILD,
        Task::Repair(_) => RANGE_REPAIR,
        _ => RANGE_TRANSFER,
    }
}

/// A movement goal toward a task target.
pub open spec fn spec_goal_toward(pos: Position, range: u32, profile: MovementProfile)
    -> MovementGoal {
    MovementGoal { pos, range, profile, avoid_creeps: false }
}

/// Whether the step's precondition on cargo rules the task already done:
/// gathering tasks are done when no capacity is free, spending tasks when
/// no energy is held. Forever-harvest deliberately never finishes on
/// cargo, to keep a stationary harvester pinned to its source.
pub open spec fn spec_cargo_done(task: Task, worker: WorkerSnapshot) -> bool {
    match task {
        Task::HarvestEnergyUntilFull(_) => worker.energy_free == 0,
        Task::HarvestEnergyForever(_) => false,
        Task::Upgrade(_) => worker.energy_used == 0,
        Task::Build(_) => worker.energy_used == 0,
        Task::Repair(_) => worker.energy_used == 0,
        Task::TakeFromResource(_) => worker.energy_free == 0,
        Task::TakeFromStructure(_, _) => worker.energy_free == 0,
        Task::DeliverToStructure(_, _) => worker.energy_used == 0,
        _ => false,
    }
}

/// Whether a successful action finishes the task in one stroke (resource
/// transfers) or keeps it running across ticks (harvest, build, repair,
/// upgrade).
pub open spec fn spec_one_shot(task: Task) -> bool {
    match task {
        Task::TakeFromResource(_) => true,
        Task::TakeFromStructure(_, _) => true,
        Task::DeliverToStructure(_, _) => true,
        _ => false,
    }
}

/// Result of an in-range action attempt for a resolved-target task.
pub open spec fn spec_action_result(task: Task, response: ActionResponse) -> TaskResult {
    match response {
        ActionResponse::NotAttempted => TaskResult::StillWorking,
        ActionResponse::Succeeded => if spec_one_shot(task) {
            TaskResult::Complete
        } else {
            TaskResult::StillWorking
        },
        ActionResponse::TargetSaturated => if task matches Task::HarvestEnergyForever(_) {
            TaskResult::StillWorking
        } else {
            TaskResult::Complete
        },
        ActionResponse::Rejected => TaskResult::Complete,
        ActionResponse::Fatal => TaskResult::DestroyWorker,
    }
}

/// The full step semantics: what executing `task` against the snapshot
/// `ctx` yields, with movement biased by `profile`.
pub open spec fn spec_run_task(task: Task, ctx: StepContext, profile: MovementProfile)
    -> TaskResult {
    match task {
        Task::WaitToSpawn => if ctx.worker.is_spawning {
            TaskResult::StillWorking
        } else {
            TaskResult::Complete
        },
        Task::IdleUntil(tick) => if ctx.tick >= tick {
            TaskResult::Complete
        } else {
            TaskResult::StillWorking
        },
        Task::MoveToPosition(position, range) => if spec_range_between(
            ctx.worker.position,
            position,
        ) <= range {
            TaskResult::Complete
        } else {
            TaskResult::MoveMeTo(spec_goal_toward(position, range, profile))
        },
        Task::SpawnCreep(_) => match ctx.response {
            ActionResponse::NotAttempted => TaskResult::StillWorking,
            ActionResponse::Succeeded => TaskResult::Complete,
            ActionResponse::TargetSaturated => TaskResult::StillWorking,
            ActionResponse::Rejected => TaskResult::Complete,
            ActionResponse::Fatal => TaskResult::DestroyWorker,
        },
        _ => match ctx.resolution {
            Resolution::NotFound => TaskResult::Complete,
            Resolution::Found(target) => if spec_cargo_done(task, ctx.worker) {
                TaskResult::Complete
            } else if (task matches Task::Repair(_)) && target.hits >= target.hits_max {
                TaskResult::Complete
            } else if spec_range_between(ctx.worker.position, target.position)
                > spec_required_range(task) {
                TaskResult::MoveMeTo(
                    spec_goal_toward(target.position, spec_required_range(task), profile),
                )
            } else {
                spec_action_result(task, ctx.response)
            },
        },
    }
}

/// The world action a step wants issued, exactly in the situations where
/// [`spec_run_task`] consults the snapshot's action response.
pub open spec fn spec_planned_action(task: Task, ctx: StepContext) -> Option<ActionCommand> {
    match task {
        Task::SpawnCreep(role) => Some(ActionCommand::SpawnNewCreep(role)),
        Task::HarvestEnergyUntilFull(id) | Task::HarvestEnergyForever(id) | Task::Upgrade(id)
            | Task::Build(id) | Task::Repair(id) | Task::TakeFromResource(id)
            | Task::TakeFromStructure(id, _) | Task::DeliverToStructure(id, _) => match ctx
            .resolution {
            Resolution::NotFound => None,
            Resolution::Found(target) => if spec_cargo_done(task, ctx.worker) {
                None
            } else if (task matches Task::Repair(_)) && target.hits >= target.hits_max {
                None
            } else if spec_range_between(ctx.worker.position, target.position)
                > spec_required_range(task) {
                None
            } else {
                match task {
                    Task::HarvestEnergyUntilFull(_) => Some(ActionCommand::Harvest(id)),
                    Task::HarvestEnergyForever(_) => Some(ActionCommand::Harvest(id)),
                    Task::Upgrade(_) => Some(ActionCommand::Upgrade(id)),
                    Task::Build(_) => Some(ActionCommand::Build(id)),
                    Task::Repair(_) => Some(ActionCommand::Repair(id)),
                    Task::TakeFromResource(_) => Some(ActionCommand::Pickup(id)),
                    Task::TakeFromStructure(_, res) => Some(ActionCommand::Withdraw(id, res)),
                    Task::DeliverToStructure(_, res) => Some(ActionCommand::Transfer(id, res)),
                    _ => None,
                }
            },
        },
        _ => None,
    }
}

impl TaskQueueEntry {
    /// The world action this entry's step wants issued, if any. Callers
    /// issue it, record the reply in the snapshot's `response`, and then
    /// ask [`TaskQueueEntry::run_task`] for the step's result.
    pub fn planned_action(&self, ctx: &StepContext) -> (r: Option<ActionCommand>)
        ensures
            r == spec_planned_action(self.spec_task(), *ctx),
    {
        match self.task() {
            Task::SpawnCreep(role) => Some(ActionCommand::SpawnNewCreep(role)),
            Task::WaitToSpawn => None,
            Task::IdleUntil(_) => None,
            Task::MoveToPosition(_, _) => None,
            task => match ctx.resolution {
                Resolution::NotFound => None,
                Resolution::Found(target) => {
                    if cargo_done(task, &ctx.worker) {
                        None
                    } else if repair_done(task, target) {
                        None
                    } else if !ctx.worker.position.in_range_of(
                        target.position,
                        required_range(task),
                    ) {
                        None
                    } else {
                        match task {
                            Task::HarvestEnergyUntilFull(id) => Some(ActionCommand::Harvest(id)),
                            Task::HarvestEnergyForever(id) => Some(ActionCommand::Harvest(id)),
                            Task::Upgrade(id) => Some(ActionCommand::Upgrade(id)),
                            Task::Build(id) => Some(ActionCommand::Build(id)),
                            Task::Repair(id) => Some(ActionCommand::Repair(id)),
                            Task::TakeFromResource(id) => Some(ActionCommand::Pickup(id)),
                            Task::TakeFromStructure(id, res) => Some(
                                ActionCommand::Withdraw(id, res),
                            ),
                            Task::DeliverToStructure(id, res) => Some(
                                ActionCommand::Transfer(id, res),
                            ),
                            _ => None,
                        }
                    }
                },
            },
        }
    }

    /// Execute this entry's task for one step against the current tick's
    /// snapshot.
    pub fn run_task(&self, ctx: &StepContext, movement_profile: MovementProfile) -> (r: TaskResult)
        ensures
            r == spec_run_task(self.spec_task(), *ctx, movement_profile),
    {
        match self.task() {
            Task::WaitToSpawn => {
                if ctx.worker.is_spawning {
                    TaskResult::StillWorking
                } else {
                    TaskResult::Complete
                }
            },
            Task::IdleUntil(tick) => {
                if ctx.tick >= tick {
                    TaskResult::Complete
                } else {
                    TaskResult::StillWorking
                }
            },
            Task::MoveToPosition(position, range) => {
                if ctx.worker.position.in_range_of(position, range) {
                    TaskResult::Complete
                } else {
                    TaskResult::MoveMeTo(
                        MovementGoal {
                            pos: position,
                            range,
                            profile: movement_profile,
                            avoid_creeps: false,
                        },
                    )
                }
            },
            Task::SpawnCreep(_) => {
                match ctx.response {
                    ActionResponse::NotAttempted => TaskResult::StillWorking,
                    ActionResponse::Succeeded => TaskResult::Complete,
                    ActionResponse::TargetSaturated => TaskResult::StillWorking,
                    ActionResponse::Rejected => TaskResult::Complete,
                    ActionResponse::Fatal => TaskResult::DestroyWorker,
                }
            },
            task => {
                match ctx.resolution {
                    Resolution::NotFound => TaskResult::Complete,
                    Resolution::Found(target) => {
                        if cargo_done(task, &ctx.worker) {
                            TaskResult::Complete
                        } else if repair_done(task, target) {
                            TaskResult::Complete
                        } else if !ctx.worker.position.in_range_of(
                            target.position,
                            required_range(task),
                        ) {
                            TaskResult::MoveMeTo(
                                MovementGoal {
                                    pos: target.position,
                                    range: required_range(task),
                                    profile: movement_profile,
                                    avoid_creeps: false,
                                },
                            )
                        } else {
                            action_result(task, ctx.response)
                        }
                    },
                }
            },
        }
    }
}

/// Interaction range a task's action requires.
fn required_range(task: Task) -> (r: u32)
    ensures
        r == spec_required_range(task),
{
    match task {
        Task::HarvestEnergyUntilFull(_) => RANGE_HARVEST,
        Task::HarvestEnergyForever(_) => RANGE_HARVEST,
        Task::Upgrade(_) => RANGE_UPGRADE,
        Task::Build(_) => RANGE_BUILD,
        Task::Repair(_) => RANGE_REPAIR,
        _ => RANGE_TRANSFER,
    }
}

/// Whether the agent's cargo already settles the task.
fn cargo_done(task: Task, worker: &WorkerSnapshot) -> (r: bool)
    ensures
        r == spec_cargo_done(task, *worker),
{
    match task {
        Task::HarvestEnergyUntilFull(_) => worker.energy_free == 0,
        Task::HarvestEnergyForever(_) => false,
        Task::Upgrade(_) => worker.energy_used == 0,
        Task::Build(_) => worker.energy_used == 0,
        Task::Repair(_) => worker.energy_used == 0,
        Task::TakeFromResource(_) => worker.energy_free == 0,
        Task::TakeFromStructure(_, _) => worker.energy_free == 0,
        Task::DeliverToStructure(_, _) => worker.energy_used == 0,
        _ => false,
    }
}

/// Whether a repair target needs no more repairing.
fn repair_done(task: Task, target: TargetSnapshot) -> (r: bool)
    ensures
        r == ((task matches Task::Repair(_)) && target.hits >= target.hits_max),
{
    match task {
        Task::Repair(_) => target.hits >= target.hits_max,
        _ => false,
    }
}

/// Map an in-range action's reply to the step's result.
fn action_result(task: Task, response: ActionResponse) -> (r: TaskResult)
    ensures
        r == spec_action_result(task, response),
{
    match response {
        ActionResponse::NotAttempted => TaskResult::StillWorking,
        ActionResponse::Succeeded => {
            match task {
                Task::TakeFromResource(_) => TaskResult::Complete,
                Task::TakeFromStructure(_, _) => TaskResult::Complete,
                Task::DeliverToStructure(_, _) => TaskResult::Complete,
                _ => TaskResult::StillWorking,
            }
        },
        ActionResponse::TargetSaturated => {
            match task {
                Task::HarvestEnergyForever(_) => TaskResult::StillWorking,
                _ => TaskResult::Complete,
            }
        },
        ActionResponse::Rejected => TaskResult::Complete,
        ActionResponse::Fatal => TaskResult::DestroyWorker,
    }
}

/// Stale-target completion: executing any reference-bearing task whose
/// target resolution failed yields `Complete` — never `StillWorking`, a
/// movement request, or destruction — so the queue advances and the
/// entry's reservation is released by outcome handling.
pub proof fn lemma_stale_target_completes(task: Task, ctx: StepContext, profile: MovementProfile)
    requires
        spec_task_target(task) is Some,
        ctx.resolution is NotFound,
    ensures
        spec_run_task(task, ctx, profile) == TaskResult::Complete,
{
}

/// The action response is consulted only when a step plans an action:
/// when no action is planned, the step's result is the same whatever
/// reply the snapshot carries.
pub proof fn lemma_response_read_only_when_acting(
    task: Task,
    ctx1: StepContext,
    ctx2: StepContext,
    profile: MovementProfile,
)
    requires
        spec_planned_action(task, ctx1) is None,
        ctx2.tick == ctx1.tick,
        ctx2.worker == ctx1.worker,
        ctx2.resolution == ctx1.resolution,
    ensures
        spec_run_task(task, ctx2, profile) == spec_run_task(task, ctx1, profile),
{
}

} // verus!
