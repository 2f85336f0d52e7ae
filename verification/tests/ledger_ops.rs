use screeps_tasks::ledger::Ledger;
use screeps_tasks::task::{Task, TaskQueueEntry};

#[test]
fn claim_accumulates_and_release_subtracts() {
    let mut led = Ledger::new();
    let t = Task::TakeFromResource(7);
    let u = Task::Repair(9);

    assert_eq!(led.current(t), 0);
    assert!(!led.contains(t));

    led.claim(t, 5);
    assert_eq!(led.current(t), 5);
    assert!(led.contains(t));

    led.claim(t, 7);
    assert_eq!(led.current(t), 12);
    assert_eq!(led.current(u), 0);

    led.release(t, 3);
    assert_eq!(led.current(t), 9);
    assert!(led.contains(t));

    led.release(t, 9);
    assert_eq!(led.current(t), 0);
    assert!(!led.contains(t));
}

#[test]
fn conservation_over_op_sequence() {
    // Replay a mixed sequence and check the ledger value always equals the
    // running sum of claims minus releases while that sum stays in range.
    let mut led = Ledger::new();
    let t = Task::HarvestEnergyUntilFull(3);
    let other = Task::HarvestEnergyUntilFull(4);
    let ops: Vec<(bool, u32)> = vec![
        (true, 10),
        (true, 25),
        (false, 5),
        (true, 1),
        (false, 31),
    ];
    let mut expected: u32 = 0;
    for (is_claim, amount) in ops {
        if is_claim {
            led.claim(t, amount);
            expected += amount;
        } else {
            led.release(t, amount);
            expected -= amount;
        }
        assert_eq!(led.current(t), expected);
        assert_eq!(led.contains(t), expected > 0);
        assert_eq!(led.current(other), 0);
    }
    assert_eq!(led.current(t), 0);
    assert!(!led.contains(t));
}

#[test]
fn claiming_zero_changes_nothing() {
    let mut led = Ledger::new();
    let t = Task::Upgrade(1);
    led.claim(t, 0);
    assert!(!led.contains(t));
    led.claim(t, 4);
    led.claim(t, 0);
    assert_eq!(led.current(t), 4);
}

#[test]
fn release_beyond_claim_saturates_to_absent() {
    let mut led = Ledger::new();
    let t = Task::Build(11);
    led.claim(t, 8);
    led.release(t, 100);
    assert_eq!(led.current(t), 0);
    assert!(!led.contains(t));
    // releasing an identity that was never claimed is harmless
    led.release(t, 5);
    assert_eq!(led.current(t), 0);
}

#[test]
fn claim_saturates_at_the_top() {
    let mut led = Ledger::new();
    let t = Task::TakeFromStructure(2, screeps_tasks::task::ResourceKind::Energy);
    led.claim(t, u32::MAX);
    led.claim(t, 5);
    assert_eq!(led.current(t), u32::MAX);
    led.release(t, 5);
    assert_eq!(led.current(t), u32::MAX - 5);
}

#[test]
fn entry_registration_and_removal_balance() {
    let mut led = Ledger::new();
    let t = Task::TakeFromResource(42);
    let a = TaskQueueEntry::new(t, 30, &mut led);
    let b = TaskQueueEntry::new(t, 20, &mut led);
    assert_eq!(a.task(), t);
    assert_eq!(a.reservation_amount(), 30);
    assert_eq!(led.current(t), 50);

    a.remove_reservation(&mut led);
    assert_eq!(led.current(t), 20);
    b.remove_reservation(&mut led);
    assert_eq!(led.current(t), 0);
    assert!(!led.contains(t));
}

#[test]
fn unreserved_entry_touches_no_ledger() {
    let mut led = Ledger::new();
    let t = Task::IdleUntil(100);
    let e = TaskQueueEntry::new_unreserved(t);
    assert_eq!(e.reservation_amount(), 0);
    e.remove_reservation(&mut led);
    assert!(!led.contains(t));
}
