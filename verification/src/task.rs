//! The task union and the queue entry that pairs a task with the
//! reservation it registered against the ledger.

use vstd::prelude::*;

use crate::ledger::Ledger;
use crate::pos::Position;
use crate::role::WorkerRole;

verus! {

/// Stable identity of a world object, valid across ticks. A reference
/// resolved from it is only good within the tick that resolved it.
pub type ObjectId = u128;

/// The kind of resource a logistics task moves.
#[derive(Copy, Clone, PartialEq, Eq, Structural, Hash, Debug)]
pub enum ResourceKind {
    Energy,
    Other(u16),
}

/// An objective an agent works toward, immutable once created. Targets
/// are carried as stable identities and re-resolved against the current
/// tick's world view before every use.
#[derive(Copy, Clone, PartialEq, Eq, Structural, Hash, Debug)]
pub enum Task {
    // no reservation
    WaitToSpawn,
    IdleUntil(u32),
    MoveToPosition(Position, u32),
    // simple reservation, keyed by worker-count contention
    HarvestEnergyUntilFull(ObjectId),
    HarvestEnergyForever(ObjectId),
    Upgrade(ObjectId),
    SpawnCreep(WorkerRole),
    // logistics reservation, keyed by resource-capacity contention
    Build(ObjectId),
    Repair(ObjectId),
    TakeFromResource(ObjectId),
    TakeFromStructure(ObjectId, ResourceKind),
    DeliverToStructure(ObjectId, ResourceKind),
}

/// A task and the amount it claimed against the ledger when created.
/// The claim must be released exactly once, when the entry leaves an
/// agent's queue.
#[derive(Copy, Clone, PartialEq, Eq, Structural, Hash, Debug)]
pub struct TaskQueueEntry {
    task: Task,
    reservation_amount: u32,
}

/// The entry pairing `task` with `reservation_amount`, as a spec value,
/// so contracts can pin a returned entry down completely.
pub closed spec fn spec_entry(task: Task, reservation_amount: u32) -> TaskQueueEntry {
    TaskQueueEntry { task, reservation_amount }
}

/// What [`spec_entry`] carries: its two components, recovered by the
/// entry's spec accessors.
pub broadcast proof fn lemma_spec_entry_fields(task: Task, reservation_amount: u32)
    ensures
        (#[trigger] spec_entry(task, reservation_amount)).spec_task() == task,
        spec_entry(task, reservation_amount).spec_reservation_amount() == reservation_amount,
{
}

impl TaskQueueEntry {
    /// The task this entry schedules.
    pub closed spec fn spec_task(&self) -> Task {
        self.task
    }

    /// The amount this entry claimed against the ledger.
    pub closed spec fn spec_reservation_amount(&self) -> u32 {
        self.reservation_amount
    }

    /// The task this entry schedules.
    #[verifier::when_used_as_spec(spec_task)]
    pub fn task(&self) -> (t: Task)
        ensures
            t == self.spec_task(),
    {
        self.task
    }

    /// The amount this entry claimed against the ledger.
    #[verifier::when_used_as_spec(spec_reservation_amount)]
    pub fn reservation_amount(&self) -> (r: u32)
        ensures
            r == self.spec_reservation_amount(),
    {
        self.reservation_amount
    }

    /// An entry that claims nothing: idles, moves, and other tasks that
    /// contend for no scarce target.
    pub fn new_unreserved(task: Task) -> (e: TaskQueueEntry)
        ensures
            e == spec_entry(task, 0),
            e.spec_task() == task,
            e.spec_reservation_amount() == 0,
    {
        TaskQueueEntry { task, reservation_amount: 0 }
    }

    /// An entry that registers `reservation_amount` against the task's
    /// ledger identity as it is created.
    pub fn new(task: Task, reservation_amount: u32, task_reservations: &mut Ledger) -> (e:
        TaskQueueEntry)
        ensures
            e == spec_entry(task, reservation_amount),
            e.spec_task() == task,
            e.spec_reservation_amount() == reservation_amount,
            final(task_reservations).current_of(task) == old(task_reservations).current_of(
                task,
            ).saturating_add(reservation_amount),
            forall|u: Task|
                u != task ==> final(task_reservations).current_of(u) == old(
                    task_reservations,
                ).current_of(u),
    {
        if reservation_amount > 0 {
            task_reservations.claim(task, reservation_amount);
        }
        TaskQueueEntry { task, reservation_amount }
    }

    /// Release this entry's claim, exactly once, as the entry leaves its
    /// queue. Saturating arithmetic absorbs bookkeeping drift: a release
    /// larger than the recorded claim clears the identity instead of
    /// corrupting the ledger.
    pub fn remove_reservation(&self, task_reservations: &mut Ledger)
        ensures
            final(task_reservations).current_of(self.spec_task()) == old(
                task_reservations,
            ).current_of(self.spec_task()).saturating_sub(self.spec_reservation_amount()),
            forall|u: Task|
                u != self.spec_task() ==> final(task_reservations).current_of(u) == old(
                    task_reservations,
                ).current_of(u),
    {
        if self.reservation_amount > 0 {
            task_reservations.release(self.task, self.reservation_amount);
        }
    }
}

} // verus!
