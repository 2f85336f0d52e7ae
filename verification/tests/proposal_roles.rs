use screeps_tasks::ledger::Ledger;
use screeps_tasks::pos::Position;
use screeps_tasks::proposal::{
    count_harvest_positions, PileSnapshot, ProposalContext, RoomSnapshot, SiteSnapshot,
    SourceSnapshot, StructureKind, StructureSnapshot,
};
use screeps_tasks::role::{Builder, Hauler, SourceHarvester, Tower, Upgrader, WorkerRole};
use screeps_tasks::task::{ResourceKind, Task};

fn empty_room() -> RoomSnapshot {
    RoomSnapshot {
        piles: Vec::new(),
        structures: Vec::new(),
        construction_sites: Vec::new(),
        active_sources: Vec::new(),
        controller: None,
    }
}

fn ctx(room: Option<RoomSnapshot>, used: u32, free: u32) -> ProposalContext {
    ProposalContext { tick: 1000, energy_used: used, energy_free: free, room, source_at_position: None }
}

fn structure(id: u128, kind: StructureKind, stored: u32, free: u32) -> StructureSnapshot {
    StructureSnapshot { id, kind, energy_stored: stored, energy_free: free, hits: 0, hits_max: 0 }
}

#[test]
fn contested_pickup_respects_capacity() {
    // one pile of 100 units; A and B (50 free each) claim 50 apiece; a
    // third agent finds the pile fully claimed and falls back to idling
    let room = RoomSnapshot {
        piles: vec![PileSnapshot { id: 900, resource: ResourceKind::Energy, amount: 100 }],
        ..empty_room()
    };
    let mut led = Ledger::new();
    let hauler = Hauler { home_room: 1, id: 0 };

    let a = hauler.find_task(&ctx(Some(room.clone()), 0, 50), &mut led);
    assert_eq!(a.task(), Task::TakeFromResource(900));
    assert_eq!(a.reservation_amount(), 50);
    assert_eq!(led.current(Task::TakeFromResource(900)), 50);

    let b = hauler.find_task(&ctx(Some(room.clone()), 0, 50), &mut led);
    assert_eq!(b.task(), Task::TakeFromResource(900));
    assert_eq!(b.reservation_amount(), 50);
    assert_eq!(led.current(Task::TakeFromResource(900)), 100);

    let c = hauler.find_task(&ctx(Some(room.clone()), 0, 50), &mut led);
    assert_eq!(c.task(), Task::IdleUntil(1005));
    assert_eq!(c.reservation_amount(), 0);
    assert_eq!(led.current(Task::TakeFromResource(900)), 100);
}

#[test]
fn reproposal_over_unchanged_world_is_stable() {
    // two proposals from the same snapshot and the same ledger contents
    // yield the same entry
    let room = RoomSnapshot {
        piles: vec![PileSnapshot { id: 900, resource: ResourceKind::Energy, amount: 100 }],
        ..empty_room()
    };
    let hauler = Hauler { home_room: 1, id: 0 };

    let mut led1 = Ledger::new();
    led1.claim(Task::Upgrade(4), 2);
    let mut led2 = Ledger::new();
    led2.claim(Task::Upgrade(4), 2);

    let first = hauler.find_task(&ctx(Some(room.clone()), 0, 50), &mut led1);
    let second = hauler.find_task(&ctx(Some(room.clone()), 0, 50), &mut led2);
    assert_eq!(first, second);
}

#[test]
fn hauler_ignores_small_piles_and_draws_from_stores() {
    let room = RoomSnapshot {
        piles: vec![PileSnapshot { id: 900, resource: ResourceKind::Energy, amount: 34 }],
        structures: vec![
            structure(10, StructureKind::Spawn, 300, 0),
            structure(11, StructureKind::Container, 600, 1400),
        ],
        ..empty_room()
    };
    let mut led = Ledger::new();
    let hauler = Hauler { home_room: 1, id: 0 };

    // pile is under the pickup threshold of 35; the container holds 600,
    // over the withdraw threshold of 500; the spawn is never drawn from
    let e = hauler.find_task(&ctx(Some(room), 0, 50), &mut led);
    assert_eq!(e.task(), Task::TakeFromStructure(11, ResourceKind::Energy));
    assert_eq!(e.reservation_amount(), 50);
}

#[test]
fn hauler_delivery_priority_order() {
    // priority consumers come before terminal, terminal before storage
    let room = RoomSnapshot {
        structures: vec![
            structure(20, StructureKind::Storage, 0, 900_000),
            structure(21, StructureKind::Terminal, 10_000, 200_000),
            structure(22, StructureKind::Extension, 0, 50),
        ],
        ..empty_room()
    };
    let hauler = Hauler { home_room: 1, id: 0 };

    let mut led = Ledger::new();
    let e = hauler.find_task(&ctx(Some(room.clone()), 80, 0), &mut led);
    assert_eq!(e.task(), Task::DeliverToStructure(22, ResourceKind::Energy));
    assert_eq!(e.reservation_amount(), 50);

    // once the extension is fully claimed, the terminal is next while it
    // is short of its 50_000 energy target
    let e2 = hauler.find_task(&ctx(Some(room.clone()), 80, 0), &mut led);
    assert_eq!(e2.task(), Task::DeliverToStructure(21, ResourceKind::Energy));
    assert_eq!(e2.reservation_amount(), 80);

    // a terminal at its target is skipped for the storage
    let full_terminal = RoomSnapshot {
        structures: vec![
            structure(20, StructureKind::Storage, 0, 900_000),
            structure(21, StructureKind::Terminal, 50_000, 200_000),
        ],
        ..empty_room()
    };
    let mut led2 = Ledger::new();
    let e3 = hauler.find_task(&ctx(Some(full_terminal), 80, 0), &mut led2);
    assert_eq!(e3.task(), Task::DeliverToStructure(20, ResourceKind::Energy));
}

#[test]
fn builder_repairs_before_building() {
    let room = RoomSnapshot {
        structures: vec![
            StructureSnapshot { id: 30, kind: StructureKind::Other, energy_stored: 0, energy_free: 0, hits: 1_000, hits_max: 10_000 },
        ],
        construction_sites: vec![SiteSnapshot { id: 31, progress: 0, progress_total: 1_000 }],
        ..empty_room()
    };
    let builder = Builder { home_room: 1, repair_watermark: 5_000 };

    // repair need: (min(5_000, 10_000) - 1_000) / 100 = 40
    let mut led = Ledger::new();
    let e = builder.find_task(&ctx(Some(room.clone()), 30, 20), &mut led);
    assert_eq!(e.task(), Task::Repair(30));
    assert_eq!(e.reservation_amount(), 30);
    assert_eq!(led.current(Task::Repair(30)), 30);

    // with the repair nearly claimed out, the next builder turns to the
    // construction site: build need (1_000 - 0) / 5 = 200
    led.claim(Task::Repair(30), 10);
    let e2 = builder.find_task(&ctx(Some(room.clone()), 30, 20), &mut led);
    assert_eq!(e2.task(), Task::Build(31));
    assert_eq!(e2.reservation_amount(), 30);
}

#[test]
fn builder_skips_healthy_and_indestructible_structures() {
    let room = RoomSnapshot {
        structures: vec![
            // indestructible: hits_max == 0
            StructureSnapshot { id: 40, kind: StructureKind::Other, energy_stored: 0, energy_free: 0, hits: 0, hits_max: 0 },
            // above half its maximum
            StructureSnapshot { id: 41, kind: StructureKind::Other, energy_stored: 0, energy_free: 0, hits: 3_000, hits_max: 5_000 },
        ],
        ..empty_room()
    };
    let builder = Builder { home_room: 1, repair_watermark: 5_000 };
    let mut led = Ledger::new();
    let e = builder.find_task(&ctx(Some(room), 30, 20), &mut led);
    assert_eq!(e.task(), Task::IdleUntil(1005));
}

#[test]
fn builder_harvests_as_a_last_resort() {
    let room = RoomSnapshot {
        active_sources: vec![SourceSnapshot { id: 50, harvest_positions: 2 }],
        ..empty_room()
    };
    let builder = Builder { home_room: 1, repair_watermark: 5_000 };
    let mut led = Ledger::new();

    let e1 = builder.find_task(&ctx(Some(room.clone()), 0, 50), &mut led);
    assert_eq!(e1.task(), Task::HarvestEnergyUntilFull(50));
    assert_eq!(e1.reservation_amount(), 1);
    let e2 = builder.find_task(&ctx(Some(room.clone()), 0, 50), &mut led);
    assert_eq!(e2.task(), Task::HarvestEnergyUntilFull(50));

    // both spots claimed: the third builder idles
    let e3 = builder.find_task(&ctx(Some(room.clone()), 0, 50), &mut led);
    assert_eq!(e3.task(), Task::IdleUntil(1005));
}

#[test]
fn upgrader_claims_controller_or_gathers() {
    let room = RoomSnapshot { controller: Some(60), ..empty_room() };
    let upgrader = Upgrader { home_room: 1, id: 0 };
    let mut led = Ledger::new();

    let e = upgrader.find_task(&ctx(Some(room.clone()), 10, 40), &mut led);
    assert_eq!(e.task(), Task::Upgrade(60));
    assert_eq!(e.reservation_amount(), 1);
    // worker-count claims stack without a capacity bound
    let e2 = upgrader.find_task(&ctx(Some(room.clone()), 10, 40), &mut led);
    assert_eq!(e2.task(), Task::Upgrade(60));
    assert_eq!(led.current(Task::Upgrade(60)), 2);

    // empty-handed with nothing to gather: brief idle backoff
    let e3 = upgrader.find_task(&ctx(Some(empty_room()), 0, 50), &mut led);
    assert_eq!(e3.task(), Task::IdleUntil(1005));
}

#[test]
fn orphaned_roles_idle_indefinitely() {
    let mut led = Ledger::new();
    let hauler = Hauler { home_room: 1, id: 0 };
    let e = hauler.find_task(&ctx(None, 0, 50), &mut led);
    assert_eq!(e.task(), Task::IdleUntil(u32::MAX));
    assert_eq!(e.reservation_amount(), 0);

    let tower = Tower { room: 1 };
    let e2 = tower.find_task(&ctx(None, 0, 0), &mut led);
    assert_eq!(e2.task(), Task::IdleUntil(u32::MAX));
}

#[test]
fn startup_feeds_spawn_then_repairs_then_builds_then_upgrades() {
    let startup = screeps_tasks::role::Startup { home_room: 1, id: 0 };
    let mut room = RoomSnapshot {
        structures: vec![
            structure(70, StructureKind::Tower, 0, 500),
            structure(71, StructureKind::Spawn, 100, 200),
        ],
        construction_sites: vec![SiteSnapshot { id: 72, progress: 100, progress_total: 600 }],
        controller: Some(73),
        ..empty_room()
    };
    let mut led = Ledger::new();

    // the bootstrap role feeds spawns and extensions only, never towers
    let e = startup.find_task(&ctx(Some(room.clone()), 60, 0), &mut led);
    assert_eq!(e.task(), Task::DeliverToStructure(71, ResourceKind::Energy));
    assert_eq!(e.reservation_amount(), 60);

    room.structures = vec![structure(70, StructureKind::Tower, 0, 500)];
    let e2 = startup.find_task(&ctx(Some(room.clone()), 60, 0), &mut led);
    assert_eq!(e2.task(), Task::Build(72));
    assert_eq!(e2.reservation_amount(), 60);

    room.construction_sites = Vec::new();
    let e3 = startup.find_task(&ctx(Some(room.clone()), 60, 0), &mut led);
    assert_eq!(e3.task(), Task::Upgrade(73));
    assert_eq!(e3.reservation_amount(), 1);
}

#[test]
fn source_harvester_pins_or_walks() {
    let station = Position { x: 12, y: 34 };
    let harvester = SourceHarvester { source_position: station };
    let mut led = Ledger::new();

    let mut c = ctx(None, 0, 0);
    c.source_at_position = Some(80);
    let e = harvester.find_task(&c, &mut led);
    assert_eq!(e.task(), Task::HarvestEnergyForever(80));
    assert_eq!(e.reservation_amount(), 1);

    let e2 = harvester.find_task(&ctx(None, 0, 0), &mut led);
    assert_eq!(e2.task(), Task::MoveToPosition(station, 1));
    assert_eq!(e2.reservation_amount(), 0);
}

#[test]
fn dispatch_matches_role_methods() {
    let room = RoomSnapshot {
        piles: vec![PileSnapshot { id: 900, resource: ResourceKind::Energy, amount: 100 }],
        ..empty_room()
    };
    let mut led1 = Ledger::new();
    let mut led2 = Ledger::new();
    let hauler = Hauler { home_room: 1, id: 0 };
    let direct = hauler.find_task(&ctx(Some(room.clone()), 0, 50), &mut led1);
    let via_role = WorkerRole::Hauler(hauler).find_task(&ctx(Some(room.clone()), 0, 50), &mut led2);
    assert_eq!(direct, via_role);
}

#[test]
fn non_energy_piles_are_ignored() {
    let room = RoomSnapshot {
        piles: vec![PileSnapshot { id: 900, resource: ResourceKind::Other(2), amount: 5_000 }],
        ..empty_room()
    };
    let mut led = Ledger::new();
    let hauler = Hauler { home_room: 1, id: 0 };
    let e = hauler.find_task(&ctx(Some(room), 0, 50), &mut led);
    assert_eq!(e.task(), Task::IdleUntil(1005));
}

#[test]
fn harvest_positions_count_walkable_neighbours() {
    assert_eq!(count_harvest_positions(&vec![true, false, false, true, false, true, true, true]), 3);
    assert_eq!(count_harvest_positions(&Vec::new()), 0);
    assert_eq!(count_harvest_positions(&vec![true, true]), 0);
}
