use screeps_tasks::engine::{
    ActionCommand, ActionResponse, Resolution, StepContext, TargetSnapshot, TaskResult,
    WorkerSnapshot,
};
use screeps_tasks::ledger::Ledger;
use screeps_tasks::movement::{MovementGoal, MovementProfile};
use screeps_tasks::pos::Position;
use screeps_tasks::task::{ResourceKind, Task, TaskQueueEntry};

fn worker_at(x: u32, y: u32, used: u32, free: u32) -> WorkerSnapshot {
    WorkerSnapshot { position: Position { x, y }, energy_used: used, energy_free: free, is_spawning: false }
}

fn ctx_with(worker: WorkerSnapshot, resolution: Resolution, response: ActionResponse) -> StepContext {
    StepContext { tick: 100, worker, resolution, response }
}

fn found_at(x: u32, y: u32) -> Resolution {
    Resolution::Found(TargetSnapshot { position: Position { x, y }, hits: 0, hits_max: 0 })
}

const PROFILE: MovementProfile = MovementProfile::SwampFiveToOne;

#[test]
fn range_is_chebyshev() {
    let a = Position { x: 10, y: 10 };
    assert_eq!(a.range_to(Position { x: 13, y: 11 }), 3);
    assert_eq!(a.range_to(Position { x: 7, y: 12 }), 3);
    assert_eq!(a.range_to(Position { x: 10, y: 10 }), 0);
    assert!(a.in_range_of(Position { x: 11, y: 9 }, 1));
    assert!(!a.in_range_of(Position { x: 12, y: 9 }, 1));
}

#[test]
fn idle_until_completes_at_tick() {
    let e = TaskQueueEntry::new_unreserved(Task::IdleUntil(100));
    let ctx = ctx_with(worker_at(0, 0, 0, 50), Resolution::NotFound, ActionResponse::NotAttempted);
    assert_eq!(e.run_task(&ctx, PROFILE), TaskResult::Complete);

    let later = TaskQueueEntry::new_unreserved(Task::IdleUntil(101));
    assert_eq!(later.run_task(&ctx, PROFILE), TaskResult::StillWorking);
}

#[test]
fn move_to_position_completes_in_range() {
    let goal_pos = Position { x: 20, y: 20 };
    let e = TaskQueueEntry::new_unreserved(Task::MoveToPosition(goal_pos, 2));
    let near = ctx_with(worker_at(19, 21, 0, 0), Resolution::NotFound, ActionResponse::NotAttempted);
    assert_eq!(e.run_task(&near, PROFILE), TaskResult::Complete);

    let far = ctx_with(worker_at(10, 10, 0, 0), Resolution::NotFound, ActionResponse::NotAttempted);
    assert_eq!(
        e.run_task(&far, PROFILE),
        TaskResult::MoveMeTo(MovementGoal { pos: goal_pos, range: 2, profile: PROFILE, avoid_creeps: false })
    );
}

#[test]
fn wait_to_spawn_tracks_spawning_flag() {
    let e = TaskQueueEntry::new_unreserved(Task::WaitToSpawn);
    let mut w = worker_at(0, 0, 0, 0);
    w.is_spawning = true;
    let ctx = ctx_with(w, Resolution::NotFound, ActionResponse::NotAttempted);
    assert_eq!(e.run_task(&ctx, PROFILE), TaskResult::StillWorking);

    let done = ctx_with(worker_at(0, 0, 0, 0), Resolution::NotFound, ActionResponse::NotAttempted);
    assert_eq!(e.run_task(&done, PROFILE), TaskResult::Complete);
}

#[test]
fn stale_target_always_completes() {
    // every reference-bearing task completes when its target fails to
    // resolve, whatever the rest of the snapshot says
    let tasks = vec![
        Task::HarvestEnergyUntilFull(1),
        Task::HarvestEnergyForever(2),
        Task::Upgrade(3),
        Task::Build(4),
        Task::Repair(5),
        Task::TakeFromResource(6),
        Task::TakeFromStructure(7, ResourceKind::Energy),
        Task::DeliverToStructure(8, ResourceKind::Energy),
    ];
    for task in tasks {
        let e = TaskQueueEntry::new_unreserved(task);
        let ctx = ctx_with(worker_at(5, 5, 10, 10), Resolution::NotFound, ActionResponse::Succeeded);
        assert_eq!(e.run_task(&ctx, PROFILE), TaskResult::Complete);
        assert_eq!(e.planned_action(&ctx), None);
    }
}

#[test]
fn disappearing_repair_target_releases_reservation() {
    // an agent holds a repair task; the target is gone next tick: the
    // result is Complete and the ledger entry is fully released
    let mut led = Ledger::new();
    let task = Task::Repair(77);
    let entry = TaskQueueEntry::new(task, 40, &mut led);
    assert_eq!(led.current(task), 40);

    let ctx = ctx_with(worker_at(5, 5, 10, 10), Resolution::NotFound, ActionResponse::NotAttempted);
    let result = entry.run_task(&ctx, PROFILE);
    assert_eq!(result, TaskResult::Complete);

    // outcome handling releases on completion
    entry.remove_reservation(&mut led);
    assert_eq!(led.current(task), 0);
    assert!(!led.contains(task));
}

#[test]
fn out_of_range_action_requests_move() {
    let e = TaskQueueEntry::new_unreserved(Task::Build(9));
    let ctx = ctx_with(worker_at(0, 0, 10, 10), found_at(10, 0), ActionResponse::NotAttempted);
    assert_eq!(
        e.run_task(&ctx, PROFILE),
        TaskResult::MoveMeTo(MovementGoal {
            pos: Position { x: 10, y: 0 },
            range: 3,
            profile: PROFILE,
            avoid_creeps: false,
        })
    );
    assert_eq!(e.planned_action(&ctx), None);
}

#[test]
fn in_range_build_plans_and_reacts() {
    let e = TaskQueueEntry::new_unreserved(Task::Build(9));
    let near = |resp| ctx_with(worker_at(8, 0, 10, 10), found_at(10, 0), resp);

    assert_eq!(e.planned_action(&near(ActionResponse::NotAttempted)), Some(ActionCommand::Build(9)));
    assert_eq!(e.run_task(&near(ActionResponse::Succeeded), PROFILE), TaskResult::StillWorking);
    assert_eq!(e.run_task(&near(ActionResponse::TargetSaturated), PROFILE), TaskResult::Complete);
    assert_eq!(e.run_task(&near(ActionResponse::Rejected), PROFILE), TaskResult::Complete);
    assert_eq!(e.run_task(&near(ActionResponse::Fatal), PROFILE), TaskResult::DestroyWorker);
}

#[test]
fn spent_cargo_completes_spending_tasks() {
    let build = TaskQueueEntry::new_unreserved(Task::Build(9));
    let broke = ctx_with(worker_at(8, 0, 0, 10), found_at(10, 0), ActionResponse::NotAttempted);
    assert_eq!(build.run_task(&broke, PROFILE), TaskResult::Complete);

    let deliver = TaskQueueEntry::new_unreserved(Task::DeliverToStructure(3, ResourceKind::Energy));
    assert_eq!(deliver.run_task(&broke, PROFILE), TaskResult::Complete);
}

#[test]
fn full_cargo_completes_gathering_tasks() {
    let full = ctx_with(worker_at(8, 0, 50, 0), found_at(9, 0), ActionResponse::NotAttempted);
    let harvest = TaskQueueEntry::new_unreserved(Task::HarvestEnergyUntilFull(5));
    assert_eq!(harvest.run_task(&full, PROFILE), TaskResult::Complete);

    let pickup = TaskQueueEntry::new_unreserved(Task::TakeFromResource(6));
    assert_eq!(pickup.run_task(&full, PROFILE), TaskResult::Complete);
}

#[test]
fn forever_harvest_ignores_full_cargo() {
    // cargo full and in range: the action is re-attempted, not skipped,
    // and the task keeps running until the source disappears or the
    // action is rejected
    let e = TaskQueueEntry::new_unreserved(Task::HarvestEnergyForever(5));
    let full = |resp| ctx_with(worker_at(8, 0, 50, 0), found_at(9, 0), resp);

    assert_eq!(e.planned_action(&full(ActionResponse::NotAttempted)), Some(ActionCommand::Harvest(5)));
    assert_eq!(e.run_task(&full(ActionResponse::Succeeded), PROFILE), TaskResult::StillWorking);
    assert_eq!(e.run_task(&full(ActionResponse::TargetSaturated), PROFILE), TaskResult::StillWorking);
    assert_eq!(e.run_task(&full(ActionResponse::Rejected), PROFILE), TaskResult::Complete);

    let gone = ctx_with(worker_at(8, 0, 50, 0), Resolution::NotFound, ActionResponse::NotAttempted);
    assert_eq!(e.run_task(&gone, PROFILE), TaskResult::Complete);
}

#[test]
fn repaired_target_completes_repair() {
    let e = TaskQueueEntry::new_unreserved(Task::Repair(5));
    let target = Resolution::Found(TargetSnapshot { position: Position { x: 9, y: 0 }, hits: 500, hits_max: 500 });
    let ctx = ctx_with(worker_at(8, 0, 50, 0), target, ActionResponse::NotAttempted);
    assert_eq!(e.run_task(&ctx, PROFILE), TaskResult::Complete);
    assert_eq!(e.planned_action(&ctx), None);

    let damaged = Resolution::Found(TargetSnapshot { position: Position { x: 9, y: 0 }, hits: 100, hits_max: 500 });
    let ctx2 = ctx_with(worker_at(8, 0, 50, 0), damaged, ActionResponse::Succeeded);
    assert_eq!(e.run_task(&ctx2, PROFILE), TaskResult::StillWorking);
    assert_eq!(e.planned_action(&ctx2), Some(ActionCommand::Repair(5)));
}

#[test]
fn transfers_complete_in_one_stroke() {
    let withdraw = TaskQueueEntry::new_unreserved(Task::TakeFromStructure(4, ResourceKind::Energy));
    let ctx = ctx_with(worker_at(8, 0, 0, 50), found_at(9, 0), ActionResponse::Succeeded);
    assert_eq!(withdraw.run_task(&ctx, PROFILE), TaskResult::Complete);
    assert_eq!(
        withdraw.planned_action(&ctx_with(worker_at(8, 0, 0, 50), found_at(9, 0), ActionResponse::NotAttempted)),
        Some(ActionCommand::Withdraw(4, ResourceKind::Energy))
    );

    let deliver = TaskQueueEntry::new_unreserved(Task::DeliverToStructure(4, ResourceKind::Energy));
    let ctx3 = ctx_with(worker_at(8, 0, 50, 0), found_at(9, 0), ActionResponse::Succeeded);
    assert_eq!(deliver.run_task(&ctx3, PROFILE), TaskResult::Complete);
}

#[test]
fn spawn_task_follows_subsystem_reply() {
    let role = screeps_tasks::role::WorkerRole::Upgrader(screeps_tasks::role::Upgrader { home_room: 1, id: 0 });
    let e = TaskQueueEntry::new_unreserved(Task::SpawnCreep(role));
    let with = |resp| ctx_with(worker_at(0, 0, 0, 0), Resolution::NotFound, resp);

    assert_eq!(e.planned_action(&with(ActionResponse::NotAttempted)), Some(ActionCommand::SpawnNewCreep(role)));
    assert_eq!(e.run_task(&with(ActionResponse::Succeeded), PROFILE), TaskResult::Complete);
    assert_eq!(e.run_task(&with(ActionResponse::TargetSaturated), PROFILE), TaskResult::StillWorking);
    assert_eq!(e.run_task(&with(ActionResponse::Rejected), PROFILE), TaskResult::Complete);
}
