use screeps_tasks::engine::{ActionResponse, Resolution, StepContext, TaskResult, WorkerSnapshot};
use screeps_tasks::ledger::Ledger;
use screeps_tasks::movement::{
    movement_allowed, plan_movement, MoveRequest, MovementGoal, MovementProfile, MovementState,
};
use screeps_tasks::pos::Position;
use screeps_tasks::proposal::{PileSnapshot, ProposalContext, RoomSnapshot};
use screeps_tasks::role::{BodyPart, Hauler, SourceHarvester, Upgrader, WorkerRole};
use screeps_tasks::task::{ResourceKind, Task, TaskQueueEntry};
use screeps_tasks::worker::{
    handle_result, proposal_pass, rebuild_ledger, reconcile_workers, run_worker_step,
    should_rescan_structures, ShardState, WorkerEntry, WorkerState,
};

fn worker_with_queue(id: u128, queue: Vec<TaskQueueEntry>) -> WorkerEntry {
    WorkerEntry {
        id,
        state: WorkerState {
            role: WorkerRole::Hauler(Hauler { home_room: 1, id: 0 }),
            queue,
            movement: MovementState::new(),
        },
    }
}

#[test]
fn handle_result_complete_releases_and_advances() {
    let mut led = Ledger::new();
    let task = Task::TakeFromResource(5);
    let front = TaskQueueEntry::new(task, 30, &mut led);
    let follow = TaskQueueEntry::new_unreserved(Task::IdleUntil(9));
    let mut state = worker_with_queue(1, vec![front, follow]).state;
    let mut goals: Vec<(u128, MovementGoal)> = Vec::new();

    let alive = handle_result(&mut state, TaskResult::Complete, 1, &mut led, &mut goals);
    assert!(alive);
    assert_eq!(state.queue, vec![follow]);
    assert!(!led.contains(task));
    assert!(goals.is_empty());
}

#[test]
fn handle_result_push_variants_shape_the_queue() {
    let mut led = Ledger::new();
    let front = TaskQueueEntry::new(Task::Build(2), 10, &mut led);
    let extra = TaskQueueEntry::new_unreserved(Task::IdleUntil(3));
    let mut goals: Vec<(u128, MovementGoal)> = Vec::new();

    let mut state = worker_with_queue(1, vec![front]).state;
    handle_result(&mut state, TaskResult::AddTaskToFront(extra), 1, &mut led, &mut goals);
    assert_eq!(state.queue, vec![extra, front]);
    assert_eq!(led.current(Task::Build(2)), 10);

    let mut state2 = worker_with_queue(1, vec![front, extra]).state;
    handle_result(&mut state2, TaskResult::CompleteAddTaskToFront(extra), 1, &mut led, &mut goals);
    assert_eq!(state2.queue, vec![extra, extra]);
    assert!(!led.contains(Task::Build(2)));

    let mut led3 = Ledger::new();
    let front3 = TaskQueueEntry::new(Task::Build(2), 10, &mut led3);
    let mut state3 = worker_with_queue(1, vec![front3, extra]).state;
    handle_result(&mut state3, TaskResult::CompleteAddTaskToBack(front3), 1, &mut led3, &mut goals);
    assert_eq!(state3.queue, vec![extra, front3]);
}

#[test]
fn handle_result_buffers_movement_goals() {
    let mut led = Ledger::new();
    let front = TaskQueueEntry::new_unreserved(Task::MoveToPosition(Position { x: 4, y: 4 }, 0));
    let mut state = worker_with_queue(7, vec![front]).state;
    let mut goals: Vec<(u128, MovementGoal)> = Vec::new();
    let goal = MovementGoal {
        pos: Position { x: 4, y: 4 },
        range: 0,
        profile: MovementProfile::SwampFiveToOne,
        avoid_creeps: false,
    };

    let alive = handle_result(&mut state, TaskResult::MoveMeTo(goal), 7, &mut led, &mut goals);
    assert!(alive);
    assert_eq!(state.queue, vec![front]);
    assert_eq!(goals, vec![(7, goal)]);
}

#[test]
fn destroyed_worker_releases_every_reservation() {
    let mut led = Ledger::new();
    let a = TaskQueueEntry::new(Task::Repair(1), 10, &mut led);
    let b = TaskQueueEntry::new(Task::Build(2), 5, &mut led);
    let mut state = worker_with_queue(1, vec![a, b]).state;
    let mut goals: Vec<(u128, MovementGoal)> = Vec::new();

    let alive = handle_result(&mut state, TaskResult::DestroyWorker, 1, &mut led, &mut goals);
    assert!(!alive);
    assert!(state.queue.is_empty());
    assert!(!led.contains(Task::Repair(1)));
    assert!(!led.contains(Task::Build(2)));
}

#[test]
fn run_worker_step_executes_the_front_entry() {
    let mut led = Ledger::new();
    let front = TaskQueueEntry::new_unreserved(Task::IdleUntil(50));
    let mut state = worker_with_queue(1, vec![front]).state;
    let mut goals: Vec<(u128, MovementGoal)> = Vec::new();
    let ctx = StepContext {
        tick: 60,
        worker: WorkerSnapshot {
            position: Position { x: 0, y: 0 },
            energy_used: 0,
            energy_free: 0,
            is_spawning: false,
        },
        resolution: Resolution::NotFound,
        response: ActionResponse::NotAttempted,
    };

    let alive = run_worker_step(&mut state, 1, &ctx, &mut led, &mut goals);
    assert!(alive);
    assert!(state.queue.is_empty());
}

#[test]
fn rebuild_ledger_replays_queue_claims() {
    let mut scratch = Ledger::new();
    let a = TaskQueueEntry::new(Task::Repair(1), 10, &mut scratch);
    let b = TaskQueueEntry::new(Task::Repair(1), 7, &mut scratch);
    let c = TaskQueueEntry::new(Task::Upgrade(2), 1, &mut scratch);
    let idle = TaskQueueEntry::new_unreserved(Task::IdleUntil(4));

    let workers = vec![
        worker_with_queue(1, vec![a, idle]),
        worker_with_queue(2, vec![b]),
        worker_with_queue(3, vec![c]),
    ];
    let led = rebuild_ledger(&workers);
    assert_eq!(led.current(Task::Repair(1)), 17);
    assert_eq!(led.current(Task::Upgrade(2)), 1);
    assert!(!led.contains(Task::IdleUntil(4)));
}

#[test]
fn proposal_pass_fills_only_empty_queues_in_order() {
    // the contested-pickup scenario run through the whole pass: two empty
    // agents split the pile, a third finds it saturated, and an agent
    // with work in hand is untouched
    let room = RoomSnapshot {
        piles: vec![PileSnapshot { id: 900, resource: ResourceKind::Energy, amount: 100 }],
        structures: Vec::new(),
        construction_sites: Vec::new(),
        active_sources: Vec::new(),
        controller: None,
    };
    let busy_entry = TaskQueueEntry::new_unreserved(Task::IdleUntil(2000));
    let mut workers = vec![
        worker_with_queue(1, Vec::new()),
        worker_with_queue(2, vec![busy_entry]),
        worker_with_queue(3, Vec::new()),
        worker_with_queue(4, Vec::new()),
    ];
    let contexts: Vec<ProposalContext> = (0..4)
        .map(|_| ProposalContext {
            tick: 1000,
            energy_used: 0,
            energy_free: 50,
            room: Some(room.clone()),
            source_at_position: None,
        })
        .collect();
    let mut led = Ledger::new();

    proposal_pass(&mut workers, &contexts, &mut led);

    assert_eq!(workers[0].state.queue[0].task(), Task::TakeFromResource(900));
    assert_eq!(workers[0].state.queue[0].reservation_amount(), 50);
    assert_eq!(workers[1].state.queue, vec![busy_entry]);
    assert_eq!(workers[2].state.queue[0].task(), Task::TakeFromResource(900));
    assert_eq!(workers[2].state.queue[0].reservation_amount(), 50);
    assert_eq!(workers[3].state.queue[0].task(), Task::IdleUntil(1005));
    assert_eq!(led.current(Task::TakeFromResource(900)), 100);
}

#[test]
fn reconcile_drops_the_vanished_and_registers_the_new() {
    let keep_role = WorkerRole::Upgrader(Upgrader { home_room: 1, id: 3 });
    let mut kept = worker_with_queue(1, vec![TaskQueueEntry::new_unreserved(Task::IdleUntil(7))]);
    kept.state.role = keep_role;
    let doomed = worker_with_queue(2, Vec::new());
    let mut workers = vec![kept.clone(), doomed];

    let new_role = WorkerRole::SourceHarvester(SourceHarvester {
        source_position: Position { x: 3, y: 9 },
    });
    let visible = vec![(1u128, keep_role), (5u128, new_role)];
    reconcile_workers(&mut workers, &visible);

    assert_eq!(workers.len(), 2);
    assert_eq!(workers[0].id, 1);
    assert_eq!(workers[0].state.queue, kept.state.queue);
    assert_eq!(workers[1].id, 5);
    assert_eq!(workers[1].state.role, new_role);
    assert_eq!(workers[1].state.queue, vec![TaskQueueEntry::new_unreserved(Task::WaitToSpawn)]);
    assert_eq!(workers[1].state.movement.stuck_count, 0);
}

#[test]
fn movement_gate_is_all_or_nothing() {
    let goal = MovementGoal {
        pos: Position { x: 1, y: 1 },
        range: 1,
        profile: MovementProfile::PlainsOneToOne,
        avoid_creeps: false,
    };
    let requests = vec![
        MoveRequest { worker: 1, goal, stuck_count: 0, has_cached_path: true },
        MoveRequest { worker: 2, goal, stuck_count: 10, has_cached_path: true },
        MoveRequest { worker: 3, goal, stuck_count: 0, has_cached_path: false },
    ];

    // usage above the high threshold: zero commands regardless of goals
    assert!(plan_movement(&requests, 251, 5_000).is_empty());
    // banked reserve below the low threshold: zero commands
    assert!(plan_movement(&requests, 10, 999).is_empty());
    assert!(!movement_allowed(251, 5_000));
    assert!(!movement_allowed(10, 999));

    // within budget: one command per request; stuck or pathless agents
    // get a fresh path
    assert!(movement_allowed(250, 1_000));
    let cmds = plan_movement(&requests, 250, 1_000);
    assert_eq!(cmds.len(), 3);
    assert!(!cmds[0].fresh_path);
    assert!(cmds[1].fresh_path);
    assert!(cmds[2].fresh_path);
    assert_eq!(cmds[0].worker, 1);
    assert_eq!(cmds[0].goal, goal);
}

#[test]
fn stuck_detection_counts_identical_positions() {
    let mut m = MovementState::new();
    let here = Position { x: 8, y: 8 };
    m.note_position(here);
    assert_eq!(m.stuck_count, 0);
    for _ in 0..10 {
        m.note_position(here);
    }
    assert_eq!(m.stuck_count, 10);
    assert!(m.is_stuck());
    m.note_position(Position { x: 9, y: 8 });
    assert_eq!(m.stuck_count, 0);
    assert!(!m.is_stuck());
}

#[test]
fn structure_rescan_period_and_cold_start() {
    assert!(should_rescan_structures(500, 123));
    assert!(should_rescan_structures(123, 123));
    assert!(!should_rescan_structures(124, 123));
}

#[test]
fn shard_state_starts_empty() {
    let s = ShardState::new(777);
    assert_eq!(s.global_init_time, 777);
    assert!(s.worker_state.is_empty());
    assert!(s.colony_state.is_empty());
}

#[test]
fn bodies_match_roles() {
    let hauler = WorkerRole::Hauler(Hauler { home_room: 1, id: 0 });
    // 800 energy buys five tiers of carry, carry, move
    let body = hauler.get_body_for_creep(800);
    assert_eq!(body.len(), 15);
    assert_eq!(body[0], BodyPart::Carry);
    assert_eq!(body[1], BodyPart::Carry);
    assert_eq!(body[2], BodyPart::Move);
    assert_eq!(body[14], BodyPart::Move);
    // 300 energy buys two tiers
    assert_eq!(hauler.get_body_for_creep(300).len(), 6);
    // scaling is capped at five tiers
    assert_eq!(hauler.get_body_for_creep(1_000_000).len(), 15);

    let upgrader = WorkerRole::Upgrader(Upgrader { home_room: 1, id: 0 });
    assert_eq!(
        upgrader.get_body_for_creep(300),
        vec![BodyPart::Move, BodyPart::Move, BodyPart::Carry, BodyPart::Work]
    );
    assert!(upgrader.can_move());
    let tower = WorkerRole::Tower(screeps_tasks::role::Tower { room: 1 });
    assert!(!tower.can_move());
    assert_eq!(
        WorkerRole::Startup(screeps_tasks::role::Startup { home_room: 1, id: 0 })
            .get_movement_profile(),
        MovementProfile::PlainsOneToOne
    );
    assert_eq!(hauler.get_movement_profile(), MovementProfile::SwampFiveToOne);
}
