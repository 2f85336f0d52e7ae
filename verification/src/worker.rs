//! Agent state: the per-agent task queue, the outcome handling that keeps
//! queue and ledger consistent, the per-tick ledger rebuild, and the
//! cross-tick registry.

use vstd::prelude::*;

use crate::constants::STRUCTURE_RESCAN_INTERVAL;
use crate::engine::{spec_run_task, StepContext, TaskResult};
use crate::ledger::Ledger;
use crate::movement::{MovementGoal, MovementState};
use crate::proposal::{claimed_fn, spec_find_task, ProposalContext};
use crate::role::{spec_movement_profile, RoomName, WorkerRole};
use crate::task::{spec_entry, Task, TaskQueueEntry};

verus! {

broadcast use crate::task::lemma_spec_entry_fields;

/// Stable identity of a schedulable agent, valid across ticks.
pub type WorkerId = u128;

/// Cross-tick state of one agent: its role, its pending work, and its
/// movement bookkeeping.
#[derive(Clone, PartialEq, Eq, Debug)]
pub struct WorkerState {
    pub role: WorkerRole,
    /// Front-biased queue: only the front entry executes each tick.
    pub queue: Vec<TaskQueueEntry>,
    pub movement: MovementState,
}

/// One agent in the registry.
#[derive(Clone, PartialEq, Eq, Debug)]
pub struct WorkerEntry {
    pub id: WorkerId,
    pub state: WorkerState,
}

/// Per-colony state (spawn queues and remote tracking would live here).
#[derive(Clone, Copy, PartialEq, Eq, Structural, Debug)]
pub struct ColonyState {}

/// Everything this process keeps across ticks. Lost on a cold start and
/// rebuilt lazily; the reservation ledger is deliberately not part of it.
#[derive(Clone, PartialEq, Eq, Debug)]
pub struct ShardState {
    /// The tick this state was created on.
    pub global_init_time: u32,
    /// Owned operating areas.
    pub colony_state: Vec<(RoomName, ColonyState)>,
    /// All registered agents and their queues.
    pub worker_state: Vec<WorkerEntry>,
}

impl ShardState {
    /// Fresh process state, as created on the first tick after a cold
    /// start.
    pub fn new(current_tick: u32) -> (s: ShardState)
        ensures
            s.global_init_time == current_tick,
            s.colony_state@.len() == 0,
            s.worker_state@.len() == 0,
    {
        ShardState { global_init_time: current_tick, colony_state: Vec::new(), worker_state: Vec::new() }
    }
}

/// Whether this tick is one on which fixed facilities are rescanned: on a
/// fixed period, and on the first tick after a cold start.
pub fn should_rescan_structures(tick: u32, global_init_time: u32) -> (r: bool)
    ensures
        r == (tick % STRUCTURE_RESCAN_INTERVAL == 0 || tick == global_init_time),
{
    tick % STRUCTURE_RESCAN_INTERVAL == 0 || tick == global_init_time
}

/// The ledger value for `t` after releasing the reservation of one
/// departing entry.
pub open spec fn spec_release_one(entry: TaskQueueEntry, t: Task, start: u32) -> u32 {
    if entry.spec_task() == t {
        start.saturating_sub(entry.spec_reservation_amount())
    } else {
        start
    }
}

/// The ledger value for `t` after releasing every entry of a queue in
/// order.
pub open spec fn spec_release_all(queue: Seq<TaskQueueEntry>, t: Task, start: u32) -> u32
    decreases queue.len(),
{
    if queue.len() == 0 {
        start
    } else {
        spec_release_one(queue.last(), t, spec_release_all(queue.drop_last(), t, start))
    }
}

/// The ledger value for `t` after re-registering every claim of a queue
/// in order, as the per-tick rebuild does.
pub open spec fn spec_replay_claims(queue: Seq<TaskQueueEntry>, t: Task, start: u32) -> u32
    decreases queue.len(),
{
    if queue.len() == 0 {
        start
    } else {
        let prev = spec_replay_claims(queue.drop_last(), t, start);
        if queue.last().spec_task() == t {
            prev.saturating_add(queue.last().spec_reservation_amount())
        } else {
            prev
        }
    }
}

/// The ledger value for `t` after replaying the queues of a whole
/// registry in order.
pub open spec fn spec_replay_registry(workers: Seq<WorkerEntry>, t: Task, start: u32) -> u32
    decreases workers.len(),
{
    if workers.len() == 0 {
        start
    } else {
        spec_replay_claims(
            workers.last().state.queue@,
            t,
            spec_replay_registry(workers.drop_last(), t, start),
        )
    }
}

/// What outcome handling leaves of the queue.
pub open spec fn spec_queue_after(queue: Seq<TaskQueueEntry>, result: TaskResult) -> Seq<
    TaskQueueEntry,
> {
    match result {
        TaskResult::Complete => queue.skip(1),
        TaskResult::StillWorking => queue,
        TaskResult::MoveMeTo(_) => queue,
        TaskResult::AddTaskToFront(e) => seq![e] + queue,
        TaskResult::CompleteAddTaskToFront(e) => seq![e] + queue.skip(1),
        TaskResult::CompleteAddTaskToBack(e) => queue.skip(1).push(e),
        TaskResult::DestroyWorker => Seq::empty(),
    }
}

/// What outcome handling leaves in the ledger for `t`.
pub open spec fn spec_ledger_after(
    queue: Seq<TaskQueueEntry>,
    result: TaskResult,
    t: Task,
    start: u32,
) -> u32 {
    match result {
        TaskResult::Complete => spec_release_one(queue[0], t, start),
        TaskResult::CompleteAddTaskToFront(_) => spec_release_one(queue[0], t, start),
        TaskResult::CompleteAddTaskToBack(_) => spec_release_one(queue[0], t, start),
        TaskResult::DestroyWorker => spec_release_all(queue, t, start),
        _ => start,
    }
}

/// Consume a task result for the front queue entry, mutating queue and
/// ledger together: completions remove and release the front entry, push
/// variants insert the already-registered new entry, movement requests
/// are buffered for the movement phase, and destruction releases the
/// whole queue. Returns whether the agent is still alive.
pub fn handle_result(
    state: &mut WorkerState,
    result: TaskResult,
    worker_id: WorkerId,
    task_reservations: &mut Ledger,
    movement_goals: &mut Vec<(WorkerId, MovementGoal)>,
) -> (alive: bool)
    requires
        old(state).queue@.len() > 0,
    ensures
        alive == !(result is DestroyWorker),
        final(state).role == old(state).role,
        final(state).movement == old(state).movement,
        final(state).queue@ == spec_queue_after(old(state).queue@, result),
        final(movement_goals)@ == (match result {
            TaskResult::MoveMeTo(goal) => old(movement_goals)@.push((worker_id, goal)),
            _ => old(movement_goals)@,
        }),
        forall|t: Task|
            final(task_reservations).current_of(t) == spec_ledger_after(
                old(state).queue@,
                result,
                t,
                old(task_reservations).current_of(t),
            ),
{
    let ghost q0 = state.queue@;
    match result {
        TaskResult::Complete => {
            let front = state.queue.remove(0);
            front.remove_reservation(task_reservations);
            proof {
                assert(state.queue@ =~= q0.skip(1));
            }
            true
        },
        TaskResult::StillWorking => true,
        TaskResult::MoveMeTo(goal) => {
            movement_goals.push((worker_id, goal));
            true
        },
        TaskResult::AddTaskToFront(entry) => {
            state.queue.insert(0, entry);
            proof {
                assert(state.queue@ =~= seq![entry] + q0);
            }
            true
        },
        TaskResult::CompleteAddTaskToFront(entry) => {
            let front = state.queue.remove(0);
            front.remove_reservation(task_reservations);
            state.queue.insert(0, entry);
            proof {
                assert(state.queue@ =~= seq![entry] + q0.skip(1));
            }
            true
        },
        TaskResult::CompleteAddTaskToBack(entry) => {
            let front = state.queue.remove(0);
            front.remove_reservation(task_reservations);
            state.queue.push(entry);
            proof {
                assert(state.queue@ =~= q0.skip(1).push(entry));
            }
            true
        },
        TaskResult::DestroyWorker => {
            let mut i: usize = 0;
            while i < state.queue.len()
                invariant
                    i <= state.queue@.len(),
                    state.queue@ == q0,
                    state.role == old(state).role,
                    state.movement == old(state).movement,
                    movement_goals@ == old(movement_goals)@,
                    forall|t: Task|
                        task_reservations.current_of(t) == spec_release_all(
                            q0.take(i as int),
                            t,
                            old(task_reservations).current_of(t),
                        ),
                decreases q0.len() - i,
            {
                let ghost led_before = *task_reservations;
                let entry = state.queue[i];
                entry.remove_reservation(task_reservations);
                proof {
                    assert(q0.take(i + 1).drop_last() =~= q0.take(i as int));
                    assert(q0.take(i + 1).last() == q0[i as int]);
                    assert forall|t: Task|
                        task_reservations.current_of(t) == spec_release_all(
                            q0.take(i + 1),
                            t,
                            old(task_reservations).current_of(t),
                        ) by {
                        assert(spec_release_all(q0.take(i + 1), t, old(task_reservations).current_of(t))
                            == spec_release_one(
                            q0[i as int],
                            t,
                            spec_release_all(q0.take(i as int), t, old(task_reservations).current_of(t)),
                        ));
                    }
                }
                i += 1;
            }
            state.queue.clear();
            proof {
                assert(q0.take(q0.len() as int) =~= q0);
            }
            false
        },
    }
}

/// Execute an agent's front queue entry against the current tick's
/// snapshot and fold the result into queue and ledger. Returns whether
/// the agent is still alive.
pub fn run_worker_step(
    state: &mut WorkerState,
    worker_id: WorkerId,
    ctx: &StepContext,
    task_reservations: &mut Ledger,
    movement_goals: &mut Vec<(WorkerId, MovementGoal)>,
) -> (alive: bool)
    requires
        old(state).queue@.len() > 0,
    ensures
        ({
            let result = spec_run_task(
                old(state).queue@[0].spec_task(),
                *ctx,
                spec_movement_profile(old(state).role),
            );
            &&& alive == !(result is DestroyWorker)
            &&& final(state).role == old(state).role
            &&& final(state).movement == old(state).movement
            &&& final(state).queue@ == spec_queue_after(old(state).queue@, result)
            &&& final(movement_goals)@ == (match result {
                TaskResult::MoveMeTo(goal) => old(movement_goals)@.push((worker_id, goal)),
                _ => old(movement_goals)@,
            })
            &&& forall|t: Task|
                final(task_reservations).current_of(t) == spec_ledger_after(
                    old(state).queue@,
                    result,
                    t,
                    old(task_reservations).current_of(t),
                )
        }),
{
    let front = state.queue[0];
    let profile = state.role.get_movement_profile();
    let result = front.run_task(ctx, profile);
    handle_result(state, result, worker_id, task_reservations, movement_goals)
}

/// Rebuild the ledger from scratch by replaying the reservation amounts
/// of every agent's still-active queue entries, as done at the start of
/// each tick before any new proposals.
pub fn rebuild_ledger(workers: &Vec<WorkerEntry>) -> (led: Ledger)
    ensures
        forall|t: Task| led.current_of(t) == spec_replay_registry(workers@, t, 0),
{
    let mut led = Ledger::new();
    let mut wi: usize = 0;
    while wi < workers.len()
        invariant
            wi <= workers@.len(),
            forall|t: Task| led.current_of(t) == spec_replay_registry(workers@.take(wi as int), t, 0),
        decreases workers@.len() - wi,
    {
        let ghost registry_base = workers@.take(wi as int);
        let queue = &workers[wi].state.queue;
        let mut qi: usize = 0;
        while qi < queue.len()
            invariant
                qi <= queue@.len(),
                queue@ == workers@[wi as int].state.queue@,
                wi < workers@.len(),
                forall|t: Task|
                    led.current_of(t) == spec_replay_claims(
                        queue@.take(qi as int),
                        t,
                        spec_replay_registry(registry_base, t, 0),
                    ),
            decreases queue@.len() - qi,
        {
            let entry = queue[qi];
            led.claim(entry.task(), entry.reservation_amount());
            proof {
                assert(queue@.take(qi + 1).drop_last() =~= queue@.take(qi as int));
                assert(queue@.take(qi + 1).last() == queue@[qi as int]);
            }
            qi += 1;
        }
        proof {
            assert(workers@.take(wi + 1).drop_last() =~= workers@.take(wi as int));
            assert(workers@.take(wi + 1).last() == workers@[wi as int]);
            assert(queue@.take(queue@.len() as int) =~= queue@);
        }
        wi += 1;
    }
    proof {
        assert(workers@.take(workers@.len() as int) =~= workers@);
    }
    led
}

/// The exact total a queue has claimed against `t`: the sum of the
/// reservation amounts of its entries carrying that task identity.
pub open spec fn spec_queue_total(queue: Seq<TaskQueueEntry>, t: Task) -> int
    decreases queue.len(),
{
    if queue.len() == 0 {
        0
    } else {
        spec_queue_total(queue.drop_last(), t) + if queue.last().spec_task() == t {
            queue.last().spec_reservation_amount() as int
        } else {
            0
        }
    }
}

/// The exact total a whole registry has claimed against `t`.
pub open spec fn spec_registry_total(workers: Seq<WorkerEntry>, t: Task) -> int
    decreases workers.len(),
{
    if workers.len() == 0 {
        0
    } else {
        spec_registry_total(workers.drop_last(), t) + spec_queue_total(
            workers.last().state.queue@,
            t,
        )
    }
}

proof fn lemma_queue_total_nonneg(queue: Seq<TaskQueueEntry>, t: Task)
    ensures
        spec_queue_total(queue, t) >= 0,
    decreases queue.len(),
{
    if queue.len() > 0 {
        lemma_queue_total_nonneg(queue.drop_last(), t);
    }
}

proof fn lemma_registry_total_nonneg(workers: Seq<WorkerEntry>, t: Task)
    ensures
        spec_registry_total(workers, t) >= 0,
    decreases workers.len(),
{
    if workers.len() > 0 {
        lemma_registry_total_nonneg(workers.drop_last(), t);
        lemma_queue_total_nonneg(workers.last().state.queue@, t);
    }
}

proof fn lemma_replay_claims_exact(queue: Seq<TaskQueueEntry>, t: Task, start: u32)
    requires
        start + spec_queue_total(queue, t) <= u32::MAX,
    ensures
        spec_replay_claims(queue, t, start) == start + spec_queue_total(queue, t),
    decreases queue.len(),
{
    if queue.len() > 0 {
        lemma_queue_total_nonneg(queue.drop_last(), t);
        lemma_replay_claims_exact(queue.drop_last(), t, start);
    }
}

/// Ledger–queue conservation: as long as the population's total claim on
/// an identity fits in the counter, the per-tick rebuild records for that
/// identity exactly the sum of the reservation amounts of every queue
/// entry carrying it — the invariant that ties the ledger to the queues
/// between the proposal phase and the next tick's rebuild.
pub proof fn lemma_rebuild_conserves(workers: Seq<WorkerEntry>, t: Task)
    requires
        spec_registry_total(workers, t) <= u32::MAX,
    ensures
        spec_replay_registry(workers, t, 0) == spec_registry_total(workers, t),
    decreases workers.len(),
{
    if workers.len() > 0 {
        lemma_registry_total_nonneg(workers.drop_last(), t);
        lemma_queue_total_nonneg(workers.last().state.queue@, t);
        lemma_rebuild_conserves(workers.drop_last(), t);
        lemma_replay_claims_exact(
            workers.last().state.queue@,
            t,
            spec_replay_registry(workers.drop_last(), t, 0) as u32,
        );
    }
}

/// The claimed-amount function after registering one more claim.
pub open spec fn spec_claimed(cur: spec_fn(Task) -> u32, task: Task, amount: u32) -> spec_fn(
    Task,
) -> u32 {
    |t: Task| if t == task {
        cur(t).saturating_add(amount)
    } else {
        cur(t)
    }
}

/// The claimed-amount function after the first `i` agents of a proposal
/// pass have run: each agent with an empty queue registers the claim its
/// role's proposal found against the ledger state its predecessors left.
pub open spec fn spec_pass_cur(
    workers: Seq<WorkerEntry>,
    ctxs: Seq<ProposalContext>,
    cur0: spec_fn(Task) -> u32,
    i: int,
) -> spec_fn(Task) -> u32
    decreases i,
{
    if i <= 0 {
        cur0
    } else {
        let prev = spec_pass_cur(workers, ctxs, cur0, i - 1);
        let w = workers[i - 1];
        if w.state.queue@.len() == 0 {
            let found = spec_find_task(w.state.role, ctxs[i - 1], prev);
            spec_claimed(prev, found.0, found.1)
        } else {
            prev
        }
    }
}

/// The queue agent `i` is left with by a proposal pass: unchanged if it
/// had work, extended by the proposed entry if it was empty.
pub open spec fn spec_pass_queue(
    workers: Seq<WorkerEntry>,
    ctxs: Seq<ProposalContext>,
    cur0: spec_fn(Task) -> u32,
    i: int,
) -> Seq<TaskQueueEntry> {
    let w = workers[i];
    if w.state.queue@.len() == 0 {
        let found = spec_find_task(w.state.role, ctxs[i], spec_pass_cur(workers, ctxs, cur0, i));
        w.state.queue@.push(spec_entry(found.0, found.1))
    } else {
        w.state.queue@
    }
}

/// The proposal pass: in a stable order, every agent whose queue is empty
/// is given exactly one new entry by its role's proposal, which consults
/// the ledger as its predecessors in the same pass left it. Agents that
/// still have work are untouched. `contexts[i]` is agent `i`'s view of
/// its inventory and operating area for this tick.
pub fn proposal_pass(
    workers: &mut Vec<WorkerEntry>,
    contexts: &Vec<ProposalContext>,
    task_reservations: &mut Ledger,
)
    requires
        contexts@.len() == old(workers)@.len(),
    ensures
        final(workers)@.len() == old(workers)@.len(),
        forall|i: int|
            0 <= i < old(workers)@.len() ==> (#[trigger] final(workers)@[i]).id == old(
                workers,
            )@[i].id,
        forall|i: int|
            0 <= i < old(workers)@.len() ==> (#[trigger] final(workers)@[i]).state.role == old(
                workers,
            )@[i].state.role,
        forall|i: int|
            0 <= i < old(workers)@.len() ==> (#[trigger] final(workers)@[i]).state.movement == old(
                workers,
            )@[i].state.movement,
        forall|i: int|
            0 <= i < old(workers)@.len() ==> (#[trigger] final(workers)@[i]).state.queue@
                == spec_pass_queue(
                old(workers)@,
                contexts@,
                claimed_fn(*old(task_reservations)),
                i,
            ),
        forall|t: Task|
            final(task_reservations).current_of(t) == spec_pass_cur(
                old(workers)@,
                contexts@,
                claimed_fn(*old(task_reservations)),
                old(workers)@.len() as int,
            )(t),
{
    let ghost w0 = old(workers)@;
    let ghost cur0 = claimed_fn(*old(task_reservations));
    let mut source: Vec<WorkerEntry> = Vec::new();
    std::mem::swap(&mut source, workers);
    while source.len() > 0
        invariant
            contexts@.len() == w0.len(),
            workers@.len() + source@.len() == w0.len(),
            source@ == w0.skip(workers@.len() as int),
            forall|i: int| 0 <= i < workers@.len() ==> (#[trigger] workers@[i]).id == w0[i].id,
            forall|i: int|
                0 <= i < workers@.len() ==> (#[trigger] workers@[i]).state.role
                    == w0[i].state.role,
            forall|i: int|
                0 <= i < workers@.len() ==> (#[trigger] workers@[i]).state.movement
                    == w0[i].state.movement,
            forall|i: int|
                0 <= i < workers@.len() ==> (#[trigger] workers@[i]).state.queue@
                    == spec_pass_queue(w0, contexts@, cur0, i),
            claimed_fn(*task_reservations) == spec_pass_cur(
                w0,
                contexts@,
                cur0,
                workers@.len() as int,
            ),
        decreases source@.len(),
    {
        let ghost i = workers@.len() as int;
        let ghost cur_i = spec_pass_cur(w0, contexts@, cur0, i);
        proof {
            assert(source@[0] == w0.skip(i)[0]);
            assert(w0.skip(i)[0] == w0[i]);
        }
        let mut w = source.remove(0);
        proof {
            assert(source@ =~= w0.skip(i).skip(1));
            assert(w0.skip(i).skip(1) =~= w0.skip(i + 1));
        }
        if w.state.queue.len() == 0 {
            let ghost led_before = *task_reservations;
            let entry = w.state.role.find_task(&contexts[workers.len()], task_reservations);
            w.state.queue.push(entry);
            proof {
                let found = spec_find_task(w0[i].state.role, contexts@[i], cur_i);
                assert(claimed_fn(*task_reservations) =~= spec_claimed(cur_i, found.0, found.1));
                assert(spec_pass_cur(w0, contexts@, cur0, i + 1) == spec_claimed(
                    cur_i,
                    found.0,
                    found.1,
                ));
                assert(w.state.queue@ == spec_pass_queue(w0, contexts@, cur0, i));
            }
        } else {
            proof {
                assert(spec_pass_cur(w0, contexts@, cur0, i + 1) == cur_i);
                assert(w.state.queue@ == spec_pass_queue(w0, contexts@, cur0, i));
            }
        }
        workers.push(w);
    }
    proof {
        assert(workers@.len() == w0.len());
    }
}

/// Whether the registry holds an agent with this identity.
pub open spec fn spec_has_worker(workers: Seq<WorkerEntry>, id: WorkerId) -> bool {
    exists|j: int| 0 <= j < workers.len() && (#[trigger] workers[j]).id == id
}

/// Whether the world's enumeration lists this identity.
pub open spec fn spec_lists_id(visible: Seq<(WorkerId, WorkerRole)>, id: WorkerId) -> bool {
    exists|j: int| 0 <= j < visible.len() && (#[trigger] visible[j]).0 == id
}

/// The registry entries that survive reconciliation: those the world
/// still reports, in their existing order.
pub open spec fn spec_retained(
    workers: Seq<WorkerEntry>,
    visible: Seq<(WorkerId, WorkerRole)>,
) -> Seq<WorkerEntry>
    decreases workers.len(),
{
    if workers.len() == 0 {
        Seq::empty()
    } else {
        let rest = spec_retained(workers.drop_last(), visible);
        if spec_lists_id(visible, workers.last().id) {
            rest.push(workers.last())
        } else {
            rest
        }
    }
}

/// The visible agents not yet registered, in enumeration order.
pub open spec fn spec_newly_visible(
    workers: Seq<WorkerEntry>,
    visible: Seq<(WorkerId, WorkerRole)>,
) -> Seq<(WorkerId, WorkerRole)>
    decreases visible.len(),
{
    if visible.len() == 0 {
        Seq::empty()
    } else {
        let rest = spec_newly_visible(workers, visible.drop_last());
        if spec_has_worker(workers, visible.last().0) {
            rest
        } else {
            rest.push(visible.last())
        }
    }
}

/// What a just-registered agent looks like: the reported role, a queue
/// holding only the wait-to-spawn task, and fresh movement bookkeeping.
pub open spec fn spec_fresh_entry(w: WorkerEntry, id: WorkerId, role: WorkerRole) -> bool {
    &&& w.id == id
    &&& w.state.role == role
    &&& w.state.queue@ == seq![spec_entry(Task::WaitToSpawn, 0u32)]
    &&& w.state.movement.last_position is None
    &&& w.state.movement.stuck_count == 0
}

proof fn lemma_retained_elem(workers: Seq<WorkerEntry>, visible: Seq<(WorkerId, WorkerRole)>, j: int)
    requires
        0 <= j < spec_retained(workers, visible).len(),
    ensures
        exists|k: int|
            0 <= k < workers.len() && (#[trigger] workers[k]) == spec_retained(workers, visible)[j],
    decreases workers.len(),
{
    if workers.len() > 0 {
        let rest = spec_retained(workers.drop_last(), visible);
        if j < rest.len() {
            lemma_retained_elem(workers.drop_last(), visible, j);
            let k = choose|k: int|
                0 <= k < workers.drop_last().len() && (#[trigger] workers.drop_last()[k]) == rest[j];
            assert(workers[k] == rest[j]);
        } else {
            assert(workers[workers.len() - 1] == spec_retained(workers, visible)[j]);
        }
    }
}

proof fn lemma_retained_has(workers: Seq<WorkerEntry>, visible: Seq<(WorkerId, WorkerRole)>, k: int)
    requires
        0 <= k < workers.len(),
        spec_lists_id(visible, workers[k].id),
    ensures
        exists|j: int|
            0 <= j < spec_retained(workers, visible).len() && (#[trigger] spec_retained(
                workers,
                visible,
            )[j]) == workers[k],
    decreases workers.len(),
{
    let r = spec_retained(workers, visible);
    if k == workers.len() - 1 {
        assert(r[r.len() - 1] == workers[k]);
    } else {
        lemma_retained_has(workers.drop_last(), visible, k);
        let rest = spec_retained(workers.drop_last(), visible);
        let j = choose|j: int| 0 <= j < rest.len() && (#[trigger] rest[j]) == workers.drop_last()[k];
        assert(r[j] == workers[k]);
    }
}

proof fn lemma_born_elem(workers: Seq<WorkerEntry>, visible: Seq<(WorkerId, WorkerRole)>, i: int)
    requires
        0 <= i < spec_newly_visible(workers, visible).len(),
    ensures
        exists|k: int|
            0 <= k < visible.len() && (#[trigger] visible[k]) == spec_newly_visible(
                workers,
                visible,
            )[i] && !spec_has_worker(workers, visible[k].0),
    decreases visible.len(),
{
    if visible.len() > 0 {
        let rest = spec_newly_visible(workers, visible.drop_last());
        if i < rest.len() {
            lemma_born_elem(workers, visible.drop_last(), i);
            let k = choose|k: int|
                0 <= k < visible.drop_last().len() && (#[trigger] visible.drop_last()[k]) == rest[i]
                    && !spec_has_worker(workers, visible.drop_last()[k].0);
            assert(visible[k] == rest[i]);
        } else {
            assert(visible[visible.len() - 1] == spec_newly_visible(workers, visible)[i]);
        }
    }
}

/// Whether the registry currently holds an agent with this identity.
fn has_worker(workers: &Vec<WorkerEntry>, id: WorkerId) -> (r: bool)
    ensures
        r == spec_has_worker(workers@, id),
{
    let mut i: usize = 0;
    while i < workers.len()
        invariant
            i <= workers@.len(),
            forall|j: int| 0 <= j < i ==> (#[trigger] workers@[j]).id != id,
        decreases workers@.len() - i,
    {
        if workers[i].id == id {
            return true;
        }
        i += 1;
    }
    false
}

/// Whether the world's enumeration lists this identity.
fn lists_id(visible: &Vec<(WorkerId, WorkerRole)>, id: WorkerId) -> (r: bool)
    ensures
        r == spec_lists_id(visible@, id),
{
    let mut i: usize = 0;
    while i < visible.len()
        invariant
            i <= visible@.len(),
            forall|j: int| 0 <= j < i ==> (#[trigger] visible@[j]).0 != id,
        decreases visible@.len() - i,
    {
        if visible[i].0 == id {
            return true;
        }
        i += 1;
    }
    false
}

/// Reconcile the registry against the world's current enumeration: drop
/// agents no longer reported (their cross-tick state is lost), keep the
/// rest in order, and register each newly reported agent at the back with
/// a wait-to-spawn queue. The enumeration carries stable identities, so
/// no identity appears in it twice.
pub fn reconcile_workers(workers: &mut Vec<WorkerEntry>, visible: &Vec<(WorkerId, WorkerRole)>)
    requires
        forall|i: int, j: int|
            0 <= i < j < visible@.len() ==> (#[trigger] visible@[i]).0 != (#[trigger] visible@[j]).0,
    ensures
        ({
            let kept = spec_retained(old(workers)@, visible@);
            let born = spec_newly_visible(old(workers)@, visible@);
            &&& final(workers)@.len() == kept.len() + born.len()
            &&& (forall|i: int| 0 <= i < kept.len() ==> final(workers)@[i] == kept[i])
            &&& (forall|i: int|
                0 <= i < born.len() ==> spec_fresh_entry(
                    #[trigger] final(workers)@[kept.len() + i],
                    born[i].0,
                    born[i].1,
                ))
        }),
{
    let ghost w0 = old(workers)@;
    let mut source: Vec<WorkerEntry> = Vec::new();
    std::mem::swap(&mut source, workers);
    while source.len() > 0
        invariant
            source@.len() <= w0.len(),
            source@ == w0.skip(w0.len() - source@.len()),
            workers@ == spec_retained(w0.take(w0.len() - source@.len()), visible@),
        decreases source@.len(),
    {
        let ghost i = w0.len() - source@.len();
        proof {
            assert(source@[0] == w0.skip(i)[0]);
            assert(w0.skip(i)[0] == w0[i]);
        }
        let w = source.remove(0);
        proof {
            assert(source@ =~= w0.skip(i).skip(1));
            assert(w0.skip(i).skip(1) =~= w0.skip(i + 1));
            assert(w0.take(i + 1).drop_last() =~= w0.take(i));
            assert(w0.take(i + 1).last() == w0[i]);
        }
        if lists_id(visible, w.id) {
            workers.push(w);
        }
    }
    proof {
        assert(w0.take(w0.len() as int) =~= w0);
    }
    let ghost kept = spec_retained(w0, visible@);
    let mut vi: usize = 0;
    while vi < visible.len()
        invariant
            vi <= visible@.len(),
            forall|i: int, j: int|
                0 <= i < j < visible@.len() ==> (#[trigger] visible@[i]).0 != (
                #[trigger] visible@[j]).0,
            kept == spec_retained(w0, visible@),
            workers@.len() == kept.len() + spec_newly_visible(w0, visible@.take(vi as int)).len(),
            forall|i: int| 0 <= i < kept.len() ==> workers@[i] == kept[i],
            forall|i: int|
                0 <= i < spec_newly_visible(w0, visible@.take(vi as int)).len()
                    ==> spec_fresh_entry(
                    #[trigger] workers@[kept.len() + i],
                    spec_newly_visible(w0, visible@.take(vi as int))[i].0,
                    spec_newly_visible(w0, visible@.take(vi as int))[i].1,
                ),
        decreases visible@.len() - vi,
    {
        let ghost born_vi = spec_newly_visible(w0, visible@.take(vi as int));
        let pair = visible[vi];
        let id = pair.0;
        let role = pair.1;
        let present = has_worker(workers, id);
        proof {
            // present in the working registry exactly when present in the
            // registry as given: survivors keep their identities, and the
            // agents registered so far carry earlier identities from the
            // enumeration, all distinct from this one.
            if spec_has_worker(w0, id) {
                let k = choose|k: int| 0 <= k < w0.len() && (#[trigger] w0[k]).id == id;
                assert(0 <= vi < visible@.len() && (#[trigger] visible@[vi as int]).0 == id);
                lemma_retained_has(w0, visible@, k);
                let j = choose|j: int|
                    0 <= j < kept.len() && (#[trigger] kept[j]) == w0[k];
                assert(workers@[j].id == id);
            }
            if spec_has_worker(workers@, id) && !spec_has_worker(w0, id) {
                let j = choose|j: int| 0 <= j < workers@.len() && (#[trigger] workers@[j]).id == id;
                if j < kept.len() {
                    assert(workers@[j] == kept[j]);
                    lemma_retained_elem(w0, visible@, j);
                    let k = choose|k: int|
                        0 <= k < w0.len() && (#[trigger] w0[k]) == spec_retained(w0, visible@)[j];
                    assert(w0[k].id == id);
                    assert(false);
                } else {
                    let bi = j - kept.len();
                    assert(spec_fresh_entry(
                        workers@[kept.len() + bi],
                        born_vi[bi].0,
                        born_vi[bi].1,
                    ));
                    lemma_born_elem(w0, visible@.take(vi as int), bi);
                    let k = choose|k: int|
                        0 <= k < visible@.take(vi as int).len() && (#[trigger] visible@.take(
                            vi as int,
                        )[k]) == born_vi[bi] && !spec_has_worker(
                            w0,
                            visible@.take(vi as int)[k].0,
                        );
                    assert(visible@.take(vi as int)[k] == visible@[k]);
                    assert(visible@[k].0 != visible@[vi as int].0);
                    assert(false);
                }
            }
            assert(present == spec_has_worker(w0, id));
            assert(visible@.take(vi + 1).drop_last() =~= visible@.take(vi as int));
            assert(visible@.take(vi + 1).last() == visible@[vi as int]);
        }
        if !present {
            let mut queue: Vec<TaskQueueEntry> = Vec::new();
            queue.push(TaskQueueEntry::new_unreserved(Task::WaitToSpawn));
            let state = WorkerState { role, queue, movement: MovementState::new() };
            workers.push(WorkerEntry { id, state });
            proof {
                assert(spec_newly_visible(w0, visible@.take(vi + 1)) == born_vi.push(
                    visible@[vi as int],
                ));
                assert(workers@[kept.len() + born_vi.len() as int].state.queue@ =~= seq![
                    spec_entry(Task::WaitToSpawn, 0u32),
                ]);
            }
        }
        vi += 1;
    }
    proof {
        assert(visible@.take(visible@.len() as int) =~= visible@);
    }
}

} // verus!
