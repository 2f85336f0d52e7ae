//! Task proposal: given an agent's inventory, a plain-value snapshot of
//! its operating area, and the reservation ledger, produce exactly one
//! queue entry — possibly a zero-reservation idle or move fallback, never
//! nothing.
//!
//! Every role shares one acceptance rule: a candidate target is taken
//! only if the amount this agent would claim, added to what the ledger
//! already records for the candidate's task identity, stays within the
//! target's declared capacity or need. Candidates are scanned in a fixed
//! priority order, so a pass over the same snapshot and ledger always
//! proposes the same entry.

use vstd::prelude::*;

use crate::constants::{
    BUILDER_ENERGY_PICKUP_THRESHOLD, BUILDER_ENERGY_WITHDRAW_THRESHOLD, BUILD_POWER,
    HAULER_ENERGY_PICKUP_THRESHOLD, HAULER_ENERGY_WITHDRAW_THRESHOLD, NO_TASK_IDLE_TICKS,
    REPAIR_POWER, STARTUP_REPAIR_WATERMARK, TERMINAL_ENERGY_TARGET,
    UPGRADER_ENERGY_PICKUP_THRESHOLD, UPGRADER_ENERGY_WITHDRAW_THRESHOLD,
};
use crate::ledger::Ledger;
use crate::role::{Builder, Hauler, SourceHarvester, Startup, Tower, Upgrader, WorkerRole};
use crate::task::{spec_entry, ObjectId, ResourceKind, Task, TaskQueueEntry};

verus! {

broadcast use crate::task::lemma_spec_entry_fields;

/// A pile of dropped resources lying in the open.
#[derive(Copy, Clone, PartialEq, Eq, Structural, Debug)]
pub struct PileSnapshot {
    pub id: ObjectId,
    pub resource: ResourceKind,
    pub amount: u32,
}

/// What kind of structure a candidate is, as far as proposal cares.
#[derive(Copy, Clone, PartialEq, Eq, Structural, Debug)]
pub enum StructureKind {
    Spawn,
    Extension,
    Tower,
    Container,
    Storage,
    Terminal,
    Other,
}

/// A structure in the agent's operating area, with the store and
/// durability numbers proposal reads.
#[derive(Copy, Clone, PartialEq, Eq, Structural, Debug)]
pub struct StructureSnapshot {
    pub id: ObjectId,
    pub kind: StructureKind,
    /// Energy currently stored.
    pub energy_stored: u32,
    /// Capacity left for more energy.
    pub energy_free: u32,
    /// Remaining durability; `hits_max` zero means indestructible.
    pub hits: u32,
    pub hits_max: u32,
}

/// A construction site and its remaining work.
#[derive(Copy, Clone, PartialEq, Eq, Structural, Debug)]
pub struct SiteSnapshot {
    pub id: ObjectId,
    pub progress: u32,
    pub progress_total: u32,
}

/// An active energy source and how many agents can stand next to it.
#[derive(Copy, Clone, PartialEq, Eq, Structural, Debug)]
pub struct SourceSnapshot {
    pub id: ObjectId,
    /// Number of adjacent non-wall tiles: the worker-count capacity.
    pub harvest_positions: u32,
}

/// A read-only view of one operating area for one proposal pass, in the
/// order the world enumerated the objects (kept fixed within a tick).
#[derive(Clone, PartialEq, Eq, Debug)]
pub struct RoomSnapshot {
    pub piles: Vec<PileSnapshot>,
    pub structures: Vec<StructureSnapshot>,
    pub construction_sites: Vec<SiteSnapshot>,
    pub active_sources: Vec<SourceSnapshot>,
    pub controller: Option<ObjectId>,
}

/// Everything one proposal reads about its agent and the world.
#[derive(Clone, PartialEq, Eq, Debug)]
pub struct ProposalContext {
    pub tick: u32,
    /// Energy the agent currently holds.
    pub energy_used: u32,
    /// Capacity the agent has left for more energy.
    pub energy_free: u32,
    /// The agent's home area, if currently visible.
    pub room: Option<RoomSnapshot>,
    /// For stationary harvesters: the live source at their station, if
    /// one resolved this tick.
    pub source_at_position: Option<ObjectId>,
}

/// Number of walkable tiles among a source's neighbours.
pub open spec fn spec_count_free(s: Seq<bool>) -> int
    decreases s.len(),
{
    if s.len() == 0 {
        0
    } else {
        spec_count_free(s.drop_last()) + if s.last() {
            0int
        } else {
            1int
        }
    }
}

/// Count how many neighbouring tiles are not walls: the number of agents
/// that can harvest a source at once.
pub fn count_harvest_positions(neighbor_is_wall: &Vec<bool>) -> (n: u32)
    requires
        neighbor_is_wall@.len() <= 8,
    ensures
        n == spec_count_free(neighbor_is_wall@),
{
    let mut n: u32 = 0;
    let mut i: usize = 0;
    while i < neighbor_is_wall.len()
        invariant
            i <= neighbor_is_wall@.len() <= 8,
            n <= i,
            n == spec_count_free(neighbor_is_wall@.take(i as int)),
        decreases neighbor_is_wall@.len() - i,
    {
        proof {
            assert(neighbor_is_wall@.take(i + 1).drop_last() =~= neighbor_is_wall@.take(i as int));
        }
        if !neighbor_is_wall[i] {
            n = n + 1;
        }
        i += 1;
    }
    proof {
        assert(neighbor_is_wall@.take(neighbor_is_wall@.len() as int) =~= neighbor_is_wall@);
    }
    n
}

/// The amount an agent claims against a candidate: what it could carry or
/// do, bounded by the target's declared capacity or need.
pub open spec fn spec_claim_amount(agent_bound: u32, capacity: u32) -> u32 {
    if agent_bound <= capacity {
        agent_bound
    } else {
        capacity
    }
}

/// The shared acceptance rule: take a candidate only if the claim is
/// positive and, together with what is already claimed against the same
/// task identity, stays within the candidate's capacity.
pub open spec fn spec_accepts(
    cur: spec_fn(Task) -> u32,
    task: Task,
    agent_bound: u32,
    capacity: u32,
) -> bool {
    let claim = spec_claim_amount(agent_bound, capacity);
    claim > 0 && cur(task) + claim <= capacity
}

/// The ledger's claimed amounts, as a function of task identity.
pub open spec fn claimed_fn(led: Ledger) -> spec_fn(Task) -> u32 {
    |t: Task| led.current_of(t)
}

/// A candidate a scan settled on: the task, the claim to register, and
/// the capacity that bounded the acceptance.
pub type ScanHit = (Task, u32, u32);

/// Scan dropped piles from `i` on for the first energy pile that is large
/// enough to care about and not already fully claimed.
pub open spec fn spec_scan_piles(
    piles: Seq<PileSnapshot>,
    i: int,
    agent_bound: u32,
    threshold: u32,
    cur: spec_fn(Task) -> u32,
) -> Option<ScanHit>
    decreases piles.len() - i,
{
    if i >= piles.len() {
        None
    } else {
        let p = piles[i];
        let task = Task::TakeFromResource(p.id);
        if p.resource == ResourceKind::Energy && p.amount >= threshold && spec_accepts(
            cur,
            task,
            agent_bound,
            p.amount,
        ) {
            Some((task, spec_claim_amount(agent_bound, p.amount), p.amount))
        } else {
            spec_scan_piles(piles, i + 1, agent_bound, threshold, cur)
        }
    }
}

/// Whether a structure kind is one the population draws energy from
/// (never spawns or extensions, which are consumers).
pub open spec fn spec_withdrawable(kind: StructureKind) -> bool {
    kind == StructureKind::Container || kind == StructureKind::Storage || kind
        == StructureKind::Terminal
}

/// Scan structures from `i` on for the first store worth withdrawing from
/// that is not already fully claimed.
pub open spec fn spec_scan_withdraw(
    structures: Seq<StructureSnapshot>,
    i: int,
    agent_bound: u32,
    threshold: u32,
    cur: spec_fn(Task) -> u32,
) -> Option<ScanHit>
    decreases structures.len() - i,
{
    if i >= structures.len() {
        None
    } else {
        let s = structures[i];
        let task = Task::TakeFromStructure(s.id, ResourceKind::Energy);
        if spec_withdrawable(s.kind) && s.energy_stored >= threshold && spec_accepts(
            cur,
            task,
            agent_bound,
            s.energy_stored,
        ) {
            Some((task, spec_claim_amount(agent_bound, s.energy_stored), s.energy_stored))
        } else {
            spec_scan_withdraw(structures, i + 1, agent_bound, threshold, cur)
        }
    }
}

/// Scan active sources from `i` on for the first with a free harvesting
/// spot; each agent claims one worker slot.
pub open spec fn spec_scan_sources(
    sources: Seq<SourceSnapshot>,
    i: int,
    cur: spec_fn(Task) -> u32,
) -> Option<ScanHit>
    decreases sources.len() - i,
{
    if i >= sources.len() {
        None
    } else {
        let s = sources[i];
        let task = Task::HarvestEnergyUntilFull(s.id);
        if spec_accepts(cur, task, 1, s.harvest_positions) {
            Some((task, 1, s.harvest_positions))
        } else {
            spec_scan_sources(sources, i + 1, cur)
        }
    }
}

/// Scan dropped piles for the first acceptable energy pickup.
fn scan_piles(
    piles: &Vec<PileSnapshot>,
    agent_bound: u32,
    threshold: u32,
    ledger: &Ledger,
) -> (r: Option<ScanHit>)
    ensures
        r == spec_scan_piles(piles@, 0, agent_bound, threshold, claimed_fn(*ledger)),
{
    let ghost cur = claimed_fn(*ledger);
    let mut i: usize = 0;
    while i < piles.len()
        invariant
            i <= piles@.len(),
            spec_scan_piles(piles@, 0, agent_bound, threshold, cur) == spec_scan_piles(
                piles@,
                i as int,
                agent_bound,
                threshold,
                cur,
            ),
            cur == claimed_fn(*ledger),
        decreases piles@.len() - i,
    {
        let p = piles[i];
        let task = Task::TakeFromResource(p.id);
        if p.resource == ResourceKind::Energy && p.amount >= threshold {
            let claim = if agent_bound <= p.amount {
                agent_bound
            } else {
                p.amount
            };
            let current = ledger.current(task);
            if claim > 0 && (current as u64) + (claim as u64) <= (p.amount as u64) {
                return Some((task, claim, p.amount));
            }
        }
        i += 1;
    }
    None
}

/// Scan structures for the first acceptable energy withdrawal.
fn scan_withdraw(
    structures: &Vec<StructureSnapshot>,
    agent_bound: u32,
    threshold: u32,
    ledger: &Ledger,
) -> (r: Option<ScanHit>)
    ensures
        r == spec_scan_withdraw(structures@, 0, agent_bound, threshold, claimed_fn(*ledger)),
{
    let ghost cur = claimed_fn(*ledger);
    let mut i: usize = 0;
    while i < structures.len()
        invariant
            i <= structures@.len(),
            spec_scan_withdraw(structures@, 0, agent_bound, threshold, cur) == spec_scan_withdraw(
                structures@,
                i as int,
                agent_bound,
                threshold,
                cur,
            ),
            cur == claimed_fn(*ledger),
        decreases structures@.len() - i,
    {
        let s = structures[i];
        let withdrawable = match s.kind {
            StructureKind::Container => true,
            StructureKind::Storage => true,
            StructureKind::Terminal => true,
            _ => false,
        };
        let task = Task::TakeFromStructure(s.id, ResourceKind::Energy);
        if withdrawable && s.energy_stored >= threshold {
            let claim = if agent_bound <= s.energy_stored {
                agent_bound
            } else {
                s.energy_stored
            };
            let current = ledger.current(task);
            if claim > 0 && (current as u64) + (claim as u64) <= (s.energy_stored as u64) {
                return Some((task, claim, s.energy_stored));
            }
        }
        i += 1;
    }
    None
}

/// Scan active sources for the first with a free harvesting spot.
fn scan_sources(sources: &Vec<SourceSnapshot>, ledger: &Ledger) -> (r: Option<ScanHit>)
    ensures
        r == spec_scan_sources(sources@, 0, claimed_fn(*ledger)),
{
    let ghost cur = claimed_fn(*ledger);
    let mut i: usize = 0;
    while i < sources.len()
        invariant
            i <= sources@.len(),
            spec_scan_sources(sources@, 0, cur) == spec_scan_sources(sources@, i as int, cur),
            cur == claimed_fn(*ledger),
        decreases sources@.len() - i,
    {
        let s = sources[i];
        let task = Task::HarvestEnergyUntilFull(s.id);
        let claim: u32 = if 1 <= s.harvest_positions {
            1
        } else {
            s.harvest_positions
        };
        let current = ledger.current(task);
        if claim > 0 && (current as u64) + (claim as u64) <= (s.harvest_positions as u64) {
            return Some((task, 1, s.harvest_positions));
        }
        i += 1;
    }
    None
}

/// Whether a structure kind is urgent to keep filled with energy.
pub open spec fn spec_priority_consumer(kind: StructureKind, include_tower: bool) -> bool {
    kind == StructureKind::Spawn || kind == StructureKind::Extension || (include_tower && kind
        == StructureKind::Tower)
}

/// Scan structures from `i` on for the first priority consumer with room
/// for energy that is not already fully claimed.
pub open spec fn spec_scan_delivery(
    structures: Seq<StructureSnapshot>,
    i: int,
    agent_bound: u32,
    include_tower: bool,
    cur: spec_fn(Task) -> u32,
) -> Option<ScanHit>
    decreases structures.len() - i,
{
    if i >= structures.len() {
        None
    } else {
        let s = structures[i];
        let task = Task::DeliverToStructure(s.id, ResourceKind::Energy);
        if spec_priority_consumer(s.kind, include_tower) && spec_accepts(
            cur,
            task,
            agent_bound,
            s.energy_free,
        ) {
            Some((task, spec_claim_amount(agent_bound, s.energy_free), s.energy_free))
        } else {
            spec_scan_delivery(structures, i + 1, agent_bound, include_tower, cur)
        }
    }
}

/// The last structure of a kind in enumeration order, if any (rooms hold
/// at most one terminal and one storage, so this is simply "the one").
pub open spec fn spec_last_of_kind(structures: Seq<StructureSnapshot>, kind: StructureKind)
    -> Option<StructureSnapshot>
    decreases structures.len(),
{
    if structures.len() == 0 {
        None
    } else if structures.last().kind == kind {
        Some(structures.last())
    } else {
        spec_last_of_kind(structures.drop_last(), kind)
    }
}

/// Bulk delivery to the terminal, wanted only while it is short of its
/// energy target.
pub open spec fn spec_try_terminal(
    structures: Seq<StructureSnapshot>,
    agent_bound: u32,
    cur: spec_fn(Task) -> u32,
) -> Option<ScanHit> {
    match spec_last_of_kind(structures, StructureKind::Terminal) {
        Some(s) => {
            let task = Task::DeliverToStructure(s.id, ResourceKind::Energy);
            if s.energy_stored < TERMINAL_ENERGY_TARGET && spec_accepts(
                cur,
                task,
                agent_bound,
                s.energy_free,
            ) {
                Some((task, spec_claim_amount(agent_bound, s.energy_free), s.energy_free))
            } else {
                None
            }
        },
        None => None,
    }
}

/// Bulk delivery to the storage, the final sink for spare energy.
pub open spec fn spec_try_storage(
    structures: Seq<StructureSnapshot>,
    agent_bound: u32,
    cur: spec_fn(Task) -> u32,
) -> Option<ScanHit> {
    match spec_last_of_kind(structures, StructureKind::Storage) {
        Some(s) => {
            let task = Task::DeliverToStructure(s.id, ResourceKind::Energy);
            if spec_accepts(cur, task, agent_bound, s.energy_free) {
                Some((task, spec_claim_amount(agent_bound, s.energy_free), s.energy_free))
            } else {
                None
            }
        },
        None => None,
    }
}

/// Energy needed to finish repairing a structure up to the watermark.
pub open spec fn spec_repair_need(s: StructureSnapshot, watermark: u32) -> u32 {
    let target_max = if watermark <= s.hits_max {
        watermark
    } else {
        s.hits_max
    };
    (((target_max - s.hits) / (REPAIR_POWER as int)) as u32)
}

/// Whether a structure is worth repairing: destructible, under the
/// watermark, and under half its own maximum.
pub open spec fn spec_needs_repair(s: StructureSnapshot, watermark: u32) -> bool {
    s.hits_max != 0 && s.hits < watermark && 2 * s.hits < s.hits_max
}

/// Scan structures from `i` on for the first worthwhile repair job that
/// is not already fully claimed.
pub open spec fn spec_scan_repair(
    structures: Seq<StructureSnapshot>,
    i: int,
    watermark: u32,
    agent_bound: u32,
    cur: spec_fn(Task) -> u32,
) -> Option<ScanHit>
    decreases structures.len() - i,
{
    if i >= structures.len() {
        None
    } else {
        let s = structures[i];
        let task = Task::Repair(s.id);
        let need = spec_repair_need(s, watermark);
        if spec_needs_repair(s, watermark) && spec_accepts(cur, task, agent_bound, need) {
            Some((task, spec_claim_amount(agent_bound, need), need))
        } else {
            spec_scan_repair(structures, i + 1, watermark, agent_bound, cur)
        }
    }
}

/// Energy needed to finish a construction site.
pub open spec fn spec_build_need(s: SiteSnapshot) -> u32 {
    if s.progress_total >= s.progress {
        (((s.progress_total - s.progress) / (BUILD_POWER as int)) as u32)
    } else {
        0
    }
}

/// Scan construction sites from `i` on for the first with remaining work
/// that is not already fully claimed.
pub open spec fn spec_scan_build(
    sites: Seq<SiteSnapshot>,
    i: int,
    agent_bound: u32,
    cur: spec_fn(Task) -> u32,
) -> Option<ScanHit>
    decreases sites.len() - i,
{
    if i >= sites.len() {
        None
    } else {
        let s = sites[i];
        let task = Task::Build(s.id);
        let need = spec_build_need(s);
        if spec_accepts(cur, task, agent_bound, need) {
            Some((task, spec_claim_amount(agent_bound, need), need))
        } else {
            spec_scan_build(sites, i + 1, agent_bound, cur)
        }
    }
}

/// Scan structures for the first acceptable priority delivery.
fn scan_delivery(
    structures: &Vec<StructureSnapshot>,
    agent_bound: u32,
    include_tower: bool,
    ledger: &Ledger,
) -> (r: Option<ScanHit>)
    ensures
        r == spec_scan_delivery(structures@, 0, agent_bound, include_tower, claimed_fn(*ledger)),
{
    let ghost cur = claimed_fn(*ledger);
    let mut i: usize = 0;
    while i < structures.len()
        invariant
            i <= structures@.len(),
            spec_scan_delivery(structures@, 0, agent_bound, include_tower, cur)
                == spec_scan_delivery(structures@, i as int, agent_bound, include_tower, cur),
            cur == claimed_fn(*ledger),
        decreases structures@.len() - i,
    {
        let s = structures[i];
        let priority = match s.kind {
            StructureKind::Spawn => true,
            StructureKind::Extension => true,
            StructureKind::Tower => include_tower,
            _ => false,
        };
        let task = Task::DeliverToStructure(s.id, ResourceKind::Energy);
        if priority {
            let claim = if agent_bound <= s.energy_free {
                agent_bound
            } else {
                s.energy_free
            };
            let current = ledger.current(task);
            if claim > 0 && (current as u64) + (claim as u64) <= (s.energy_free as u64) {
                return Some((task, claim, s.energy_free));
            }
        }
        i += 1;
    }
    None
}

/// Find the last structure of a kind in enumeration order.
fn last_of_kind(structures: &Vec<StructureSnapshot>, kind: StructureKind) -> (r: Option<
    StructureSnapshot,
>)
    ensures
        r == spec_last_of_kind(structures@, kind),
{
    let mut r: Option<StructureSnapshot> = None;
    let mut i: usize = 0;
    while i < structures.len()
        invariant
            i <= structures@.len(),
            r == spec_last_of_kind(structures@.take(i as int), kind),
        decreases structures@.len() - i,
    {
        proof {
            assert(structures@.take(i + 1).drop_last() =~= structures@.take(i as int));
        }
        if structures[i].kind == kind {
            r = Some(structures[i]);
        }
        i += 1;
    }
    proof {
        assert(structures@.take(structures@.len() as int) =~= structures@);
    }
    r
}

/// Scan structures for the first acceptable repair job.
fn scan_repair(
    structures: &Vec<StructureSnapshot>,
    watermark: u32,
    agent_bound: u32,
    ledger: &Ledger,
) -> (r: Option<ScanHit>)
    ensures
        r == spec_scan_repair(structures@, 0, watermark, agent_bound, claimed_fn(*ledger)),
{
    let ghost cur = claimed_fn(*ledger);
    let mut i: usize = 0;
    while i < structures.len()
        invariant
            i <= structures@.len(),
            spec_scan_repair(structures@, 0, watermark, agent_bound, cur) == spec_scan_repair(
                structures@,
                i as int,
                watermark,
                agent_bound,
                cur,
            ),
            cur == claimed_fn(*ledger),
        decreases structures@.len() - i,
    {
        let s = structures[i];
        if s.hits_max != 0 && s.hits < watermark && (s.hits as u64) * 2 < (s.hits_max as u64) {
            let target_max = if watermark <= s.hits_max {
                watermark
            } else {
                s.hits_max
            };
            let need = (target_max - s.hits) / REPAIR_POWER;
            let task = Task::Repair(s.id);
            let claim = if agent_bound <= need {
                agent_bound
            } else {
                need
            };
            let current = ledger.current(task);
            if claim > 0 && (current as u64) + (claim as u64) <= (need as u64) {
                return Some((task, claim, need));
            }
        }
        i += 1;
    }
    None
}

/// Scan construction sites for the first acceptable build job.
fn scan_build(sites: &Vec<SiteSnapshot>, agent_bound: u32, ledger: &Ledger) -> (r: Option<ScanHit>)
    ensures
        r == spec_scan_build(sites@, 0, agent_bound, claimed_fn(*ledger)),
{
    let ghost cur = claimed_fn(*ledger);
    let mut i: usize = 0;
    while i < sites.len()
        invariant
            i <= sites@.len(),
            spec_scan_build(sites@, 0, agent_bound, cur) == spec_scan_build(
                sites@,
                i as int,
                agent_bound,
                cur,
            ),
            cur == claimed_fn(*ledger),
        decreases sites@.len() - i,
    {
        let s = sites[i];
        let need = if s.progress_total >= s.progress {
            (s.progress_total - s.progress) / BUILD_POWER
        } else {
            0
        };
        let task = Task::Build(s.id);
        let claim = if agent_bound <= need {
            agent_bound
        } else {
            need
        };
        let current = ledger.current(task);
        if claim > 0 && (current as u64) + (claim as u64) <= (need as u64) {
            return Some((task, claim, need));
        }
        i += 1;
    }
    None
}

/// The idle fallback: retry proposal after a bounded backoff instead of
/// spinning every tick.
pub open spec fn spec_idle_fallback(tick: u32) -> (Task, u32, Option<u32>) {
    (Task::IdleUntil(tick.saturating_add(NO_TASK_IDLE_TICKS)), 0u32, None::<u32>)
}

/// An accepted scan hit, as a proposal outcome.
pub open spec fn spec_hit_outcome(hit: ScanHit) -> (Task, u32, Option<u32>) {
    (hit.0, hit.1, Some(hit.2))
}

/// Energy gathering for roles that do not harvest: dropped piles first,
/// stores second, idle backoff otherwise.
pub open spec fn spec_find_energy(
    room: RoomSnapshot,
    energy_capacity: u32,
    pickup_threshold: u32,
    withdraw_threshold: u32,
    tick: u32,
    cur: spec_fn(Task) -> u32,
) -> (Task, u32, Option<u32>) {
    match spec_scan_piles(room.piles@, 0, energy_capacity, pickup_threshold, cur) {
        Some(hit) => spec_hit_outcome(hit),
        None => match spec_scan_withdraw(
            room.structures@,
            0,
            energy_capacity,
            withdraw_threshold,
            cur,
        ) {
            Some(hit) => spec_hit_outcome(hit),
            None => spec_idle_fallback(tick),
        },
    }
}

/// Energy gathering for roles that can harvest: piles, stores, and as a
/// last resort a source with a free spot.
pub open spec fn spec_find_energy_or_source(
    room: RoomSnapshot,
    energy_capacity: u32,
    pickup_threshold: u32,
    withdraw_threshold: u32,
    tick: u32,
    cur: spec_fn(Task) -> u32,
) -> (Task, u32, Option<u32>) {
    match spec_scan_piles(room.piles@, 0, energy_capacity, pickup_threshold, cur) {
        Some(hit) => spec_hit_outcome(hit),
        None => match spec_scan_withdraw(
            room.structures@,
            0,
            energy_capacity,
            withdraw_threshold,
            cur,
        ) {
            Some(hit) => spec_hit_outcome(hit),
            None => match spec_scan_sources(room.active_sources@, 0, cur) {
                Some(hit) => spec_hit_outcome(hit),
                None => spec_idle_fallback(tick),
            },
        },
    }
}

/// Energy delivery: priority consumers first, the terminal while short of
/// its target next, the storage last.
pub open spec fn spec_find_delivery(
    room: RoomSnapshot,
    energy_amount: u32,
    tick: u32,
    cur: spec_fn(Task) -> u32,
) -> (Task, u32, Option<u32>) {
    match spec_scan_delivery(room.structures@, 0, energy_amount, true, cur) {
        Some(hit) => spec_hit_outcome(hit),
        None => match spec_try_terminal(room.structures@, energy_amount, cur) {
            Some(hit) => spec_hit_outcome(hit),
            None => match spec_try_storage(room.structures@, energy_amount, cur) {
                Some(hit) => spec_hit_outcome(hit),
                None => spec_idle_fallback(tick),
            },
        },
    }
}

/// Energy spending for builders: urgent repairs before new construction.
pub open spec fn spec_find_build_or_repair(
    room: RoomSnapshot,
    repair_watermark: u32,
    energy_amount: u32,
    tick: u32,
    cur: spec_fn(Task) -> u32,
) -> (Task, u32, Option<u32>) {
    match spec_scan_repair(room.structures@, 0, repair_watermark, energy_amount, cur) {
        Some(hit) => spec_hit_outcome(hit),
        None => match spec_scan_build(room.construction_sites@, 0, energy_amount, cur) {
            Some(hit) => spec_hit_outcome(hit),
            None => spec_idle_fallback(tick),
        },
    }
}

/// Energy spending for the bootstrap role: feed spawning facilities,
/// patch up the base, build, and only as a last resort upgrade.
pub open spec fn spec_find_startup(
    room: RoomSnapshot,
    energy_amount: u32,
    tick: u32,
    cur: spec_fn(Task) -> u32,
) -> (Task, u32, Option<u32>) {
    match spec_scan_delivery(room.structures@, 0, energy_amount, false, cur) {
        Some(hit) => spec_hit_outcome(hit),
        None => match spec_scan_repair(
            room.structures@,
            0,
            STARTUP_REPAIR_WATERMARK,
            energy_amount,
            cur,
        ) {
            Some(hit) => spec_hit_outcome(hit),
            None => match spec_scan_build(room.construction_sites@, 0, energy_amount, cur) {
                Some(hit) => spec_hit_outcome(hit),
                None => match room.controller {
                    Some(id) => (Task::Upgrade(id), 1u32, None::<u32>),
                    None => spec_idle_fallback(tick),
                },
            },
        },
    }
}

/// Upgrading: claim one worker slot on the controller, if there is one.
pub open spec fn spec_find_upgrade(room: RoomSnapshot, tick: u32, cur: spec_fn(Task) -> u32) -> (
    Task,
    u32,
    Option<u32>,
) {
    match room.controller {
        Some(id) => (Task::Upgrade(id), 1u32, None::<u32>),
        None => spec_idle_fallback(tick),
    }
}

/// What one proposal pass yields for an agent: the task, the claim to
/// register, and — when a capacity-checked candidate was accepted — the
/// capacity that bounded it.
pub open spec fn spec_find_task(
    role: WorkerRole,
    ctx: ProposalContext,
    cur: spec_fn(Task) -> u32,
) -> (Task, u32, Option<u32>) {
    match role {
        WorkerRole::Builder(b) => match ctx.room {
            None => (Task::IdleUntil(u32::MAX), 0u32, None::<u32>),
            Some(room) => if ctx.energy_used > 0 {
                spec_find_build_or_repair(room, b.repair_watermark, ctx.energy_used, ctx.tick, cur)
            } else if ctx.energy_free > 0 {
                spec_find_energy_or_source(
                    room,
                    ctx.energy_free,
                    BUILDER_ENERGY_PICKUP_THRESHOLD,
                    BUILDER_ENERGY_WITHDRAW_THRESHOLD,
                    ctx.tick,
                    cur,
                )
            } else {
                spec_idle_fallback(ctx.tick)
            },
        },
        WorkerRole::Hauler(_) => match ctx.room {
            None => (Task::IdleUntil(u32::MAX), 0u32, None::<u32>),
            Some(room) => if ctx.energy_used > 0 {
                spec_find_delivery(room, ctx.energy_used, ctx.tick, cur)
            } else if ctx.energy_free > 0 {
                spec_find_energy(
                    room,
                    ctx.energy_free,
                    HAULER_ENERGY_PICKUP_THRESHOLD,
                    HAULER_ENERGY_WITHDRAW_THRESHOLD,
                    ctx.tick,
                    cur,
                )
            } else {
                spec_idle_fallback(ctx.tick)
            },
        },
        WorkerRole::SourceHarvester(h) => match ctx.source_at_position {
            Some(id) => (Task::HarvestEnergyForever(id), 1u32, None::<u32>),
            None => (Task::MoveToPosition(h.source_position, 1), 0u32, None::<u32>),
        },
        WorkerRole::Startup(_) => match ctx.room {
            None => (Task::IdleUntil(u32::MAX), 0u32, None::<u32>),
            Some(room) => if ctx.energy_used > 0 {
                spec_find_startup(room, ctx.energy_used, ctx.tick, cur)
            } else {
                spec_find_energy_or_source(
                    room,
                    ctx.energy_free,
                    BUILDER_ENERGY_PICKUP_THRESHOLD,
                    BUILDER_ENERGY_WITHDRAW_THRESHOLD,
                    ctx.tick,
                    cur,
                )
            },
        },
        WorkerRole::Tower(_) => (Task::IdleUntil(u32::MAX), 0u32, None::<u32>),
        WorkerRole::Upgrader(_) => match ctx.room {
            None => (Task::IdleUntil(u32::MAX), 0u32, None::<u32>),
            Some(room) => if ctx.energy_used > 0 {
                spec_find_upgrade(room, ctx.tick, cur)
            } else if ctx.energy_free > 0 {
                spec_find_energy_or_source(
                    room,
                    ctx.energy_free,
                    UPGRADER_ENERGY_PICKUP_THRESHOLD,
                    UPGRADER_ENERGY_WITHDRAW_THRESHOLD,
                    ctx.tick,
                    cur,
                )
            } else {
                (Task::IdleUntil(u32::MAX), 0u32, None::<u32>)
            },
        },
    }
}

/// Gather energy from piles or stores; idle briefly when nothing
/// qualifies.
pub fn find_energy(
    room: &RoomSnapshot,
    energy_capacity: u32,
    pickup_threshold: u32,
    withdraw_threshold: u32,
    tick: u32,
    task_reservations: &mut Ledger,
) -> (r: TaskQueueEntry)
    ensures
        ({
            let found = spec_find_energy(
                *room,
                energy_capacity,
                pickup_threshold,
                withdraw_threshold,
                tick,
                claimed_fn(*old(task_reservations)),
            );
            &&& r == spec_entry(found.0, found.1)
            &&& final(task_reservations).current_of(found.0) == old(
                task_reservations,
            ).current_of(found.0).saturating_add(found.1)
            &&& forall|u: Task|
                u != found.0 ==> final(task_reservations).current_of(u) == old(
                    task_reservations,
                ).current_of(u)
        }),
{
    match scan_piles(&room.piles, energy_capacity, pickup_threshold, task_reservations) {
        Some((task, claim, _)) => TaskQueueEntry::new(task, claim, task_reservations),
        None => match scan_withdraw(
            &room.structures,
            energy_capacity,
            withdraw_threshold,
            task_reservations,
        ) {
            Some((task, claim, _)) => TaskQueueEntry::new(task, claim, task_reservations),
            None => TaskQueueEntry::new_unreserved(
                Task::IdleUntil(tick.saturating_add(NO_TASK_IDLE_TICKS)),
            ),
        },
    }
}

/// Gather energy from piles, stores, or as a last resort a source with a
/// free spot.
pub fn find_energy_or_source(
    room: &RoomSnapshot,
    energy_capacity: u32,
    pickup_threshold: u32,
    withdraw_threshold: u32,
    tick: u32,
    task_reservations: &mut Ledger,
) -> (r: TaskQueueEntry)
    ensures
        ({
            let found = spec_find_energy_or_source(
                *room,
                energy_capacity,
                pickup_threshold,
                withdraw_threshold,
                tick,
                claimed_fn(*old(task_reservations)),
            );
            &&& r == spec_entry(found.0, found.1)
            &&& final(task_reservations).current_of(found.0) == old(
                task_reservations,
            ).current_of(found.0).saturating_add(found.1)
            &&& forall|u: Task|
                u != found.0 ==> final(task_reservations).current_of(u) == old(
                    task_reservations,
                ).current_of(u)
        }),
{
    match scan_piles(&room.piles, energy_capacity, pickup_threshold, task_reservations) {
        Some((task, claim, _)) => TaskQueueEntry::new(task, claim, task_reservations),
        None => match scan_withdraw(
            &room.structures,
            energy_capacity,
            withdraw_threshold,
            task_reservations,
        ) {
            Some((task, claim, _)) => TaskQueueEntry::new(task, claim, task_reservations),
            None => match scan_sources(&room.active_sources, task_reservations) {
                Some((task, claim, _)) => TaskQueueEntry::new(task, claim, task_reservations),
                None => TaskQueueEntry::new_unreserved(
                    Task::IdleUntil(tick.saturating_add(NO_TASK_IDLE_TICKS)),
                ),
            },
        },
    }
}

/// Deliver held energy: priority consumers, the terminal while short of
/// its target, the storage; idle briefly when nothing has room.
pub fn find_delivery_target(
    room: &RoomSnapshot,
    energy_amount: u32,
    tick: u32,
    task_reservations: &mut Ledger,
) -> (r: TaskQueueEntry)
    ensures
        ({
            let found = spec_find_delivery(
                *room,
                energy_amount,
                tick,
                claimed_fn(*old(task_reservations)),
            );
            &&& r == spec_entry(found.0, found.1)
            &&& final(task_reservations).current_of(found.0) == old(
                task_reservations,
            ).current_of(found.0).saturating_add(found.1)
            &&& forall|u: Task|
                u != found.0 ==> final(task_reservations).current_of(u) == old(
                    task_reservations,
                ).current_of(u)
        }),
{
    match scan_delivery(&room.structures, energy_amount, true, task_reservations) {
        Some((task, claim, _)) => {
            return TaskQueueEntry::new(task, claim, task_reservations);
        },
        None => {},
    }
    match last_of_kind(&room.structures, StructureKind::Terminal) {
        Some(s) => {
            let task = Task::DeliverToStructure(s.id, ResourceKind::Energy);
            let claim = if energy_amount <= s.energy_free {
                energy_amount
            } else {
                s.energy_free
            };
            let current = task_reservations.current(task);
            if s.energy_stored < TERMINAL_ENERGY_TARGET && claim > 0 && (current as u64) + (
            claim as u64) <= (s.energy_free as u64) {
                return TaskQueueEntry::new(task, claim, task_reservations);
            }
        },
        None => {},
    }
    match last_of_kind(&room.structures, StructureKind::Storage) {
        Some(s) => {
            let task = Task::DeliverToStructure(s.id, ResourceKind::Energy);
            let claim = if energy_amount <= s.energy_free {
                energy_amount
            } else {
                s.energy_free
            };
            let current = task_reservations.current(task);
            if claim > 0 && (current as u64) + (claim as u64) <= (s.energy_free as u64) {
                return TaskQueueEntry::new(task, claim, task_reservations);
            }
        },
        None => {},
    }
    TaskQueueEntry::new_unreserved(Task::IdleUntil(tick.saturating_add(NO_TASK_IDLE_TICKS)))
}

/// Spend held energy: urgent repairs before new construction; idle
/// briefly when neither is wanted.
pub fn find_build_or_repair_task(
    room: &RoomSnapshot,
    repair_watermark: u32,
    energy_amount: u32,
    tick: u32,
    task_reservations: &mut Ledger,
) -> (r: TaskQueueEntry)
    ensures
        ({
            let found = spec_find_build_or_repair(
                *room,
                repair_watermark,
                energy_amount,
                tick,
                claimed_fn(*old(task_reservations)),
            );
            &&& r == spec_entry(found.0, found.1)
            &&& final(task_reservations).current_of(found.0) == old(
                task_reservations,
            ).current_of(found.0).saturating_add(found.1)
            &&& forall|u: Task|
                u != found.0 ==> final(task_reservations).current_of(u) == old(
                    task_reservations,
                ).current_of(u)
        }),
{
    match scan_repair(&room.structures, repair_watermark, energy_amount, task_reservations) {
        Some((task, claim, _)) => TaskQueueEntry::new(task, claim, task_reservations),
        None => match scan_build(&room.construction_sites, energy_amount, task_reservations) {
            Some((task, claim, _)) => TaskQueueEntry::new(task, claim, task_reservations),
            None => TaskQueueEntry::new_unreserved(
                Task::IdleUntil(tick.saturating_add(NO_TASK_IDLE_TICKS)),
            ),
        },
    }
}

/// Spend held energy during bootstrap: feed spawning facilities, patch
/// the base, build, and only as a last resort upgrade.
pub fn find_startup_task(
    room: &RoomSnapshot,
    energy_amount: u32,
    tick: u32,
    task_reservations: &mut Ledger,
) -> (r: TaskQueueEntry)
    ensures
        ({
            let found = spec_find_startup(
                *room,
                energy_amount,
                tick,
                claimed_fn(*old(task_reservations)),
            );
            &&& r == spec_entry(found.0, found.1)
            &&& final(task_reservations).current_of(found.0) == old(
                task_reservations,
            ).current_of(found.0).saturating_add(found.1)
            &&& forall|u: Task|
                u != found.0 ==> final(task_reservations).current_of(u) == old(
                    task_reservations,
                ).current_of(u)
        }),
{
    match scan_delivery(&room.structures, energy_amount, false, task_reservations) {
        Some((task, claim, _)) => {
            return TaskQueueEntry::new(task, claim, task_reservations);
        },
        None => {},
    }
    match scan_repair(
        &room.structures,
        STARTUP_REPAIR_WATERMARK,
        energy_amount,
        task_reservations,
    ) {
        Some((task, claim, _)) => {
            return TaskQueueEntry::new(task, claim, task_reservations);
        },
        None => {},
    }
    match scan_build(&room.construction_sites, energy_amount, task_reservations) {
        Some((task, claim, _)) => {
            return TaskQueueEntry::new(task, claim, task_reservations);
        },
        None => {},
    }
    match room.controller {
        Some(id) => TaskQueueEntry::new(Task::Upgrade(id), 1, task_reservations),
        None => TaskQueueEntry::new_unreserved(
            Task::IdleUntil(tick.saturating_add(NO_TASK_IDLE_TICKS)),
        ),
    }
}

/// Upgrade the controller, claiming one worker slot; idle briefly when
/// the room has no controller.
pub fn find_upgrade_task(room: &RoomSnapshot, tick: u32, task_reservations: &mut Ledger) -> (r:
    TaskQueueEntry)
    ensures
        ({
            let found = spec_find_upgrade(*room, tick, claimed_fn(*old(task_reservations)));
            &&& r == spec_entry(found.0, found.1)
            &&& final(task_reservations).current_of(found.0) == old(
                task_reservations,
            ).current_of(found.0).saturating_add(found.1)
            &&& forall|u: Task|
                u != found.0 ==> final(task_reservations).current_of(u) == old(
                    task_reservations,
                ).current_of(u)
        }),
{
    match room.controller {
        Some(id) => TaskQueueEntry::new(Task::Upgrade(id), 1, task_reservations),
        None => TaskQueueEntry::new_unreserved(
            Task::IdleUntil(tick.saturating_add(NO_TASK_IDLE_TICKS)),
        ),
    }
}

impl Builder {
    /// Propose this builder's next task.
    pub fn find_task(&self, ctx: &ProposalContext, task_reservations: &mut Ledger) -> (r:
        TaskQueueEntry)
        ensures
            ({
                let found = spec_find_task(
                    WorkerRole::Builder(*self),
                    *ctx,
                    claimed_fn(*old(task_reservations)),
                );
                &&& r == spec_entry(found.0, found.1)
                &&& final(task_reservations).current_of(found.0) == old(
                    task_reservations,
                ).current_of(found.0).saturating_add(found.1)
                &&& forall|u: Task|
                    u != found.0 ==> final(task_reservations).current_of(u) == old(
                        task_reservations,
                    ).current_of(u)
            }),
    {
        match &ctx.room {
            Some(room) => {
                if ctx.energy_used > 0 {
                    find_build_or_repair_task(
                        room,
                        self.repair_watermark,
                        ctx.energy_used,
                        ctx.tick,
                        task_reservations,
                    )
                } else if ctx.energy_free > 0 {
                    find_energy_or_source(
                        room,
                        ctx.energy_free,
                        BUILDER_ENERGY_PICKUP_THRESHOLD,
                        BUILDER_ENERGY_WITHDRAW_THRESHOLD,
                        ctx.tick,
                        task_reservations,
                    )
                } else {
                    TaskQueueEntry::new_unreserved(
                        Task::IdleUntil(ctx.tick.saturating_add(NO_TASK_IDLE_TICKS)),
                    )
                }
            },
            None => TaskQueueEntry::new_unreserved(Task::IdleUntil(u32::MAX)),
        }
    }
}

impl Hauler {
    /// Propose this hauler's next task.
    pub fn find_task(&self, ctx: &ProposalContext, task_reservations: &mut Ledger) -> (r:
        TaskQueueEntry)
        ensures
            ({
                let found = spec_find_task(
                    WorkerRole::Hauler(*self),
                    *ctx,
                    claimed_fn(*old(task_reservations)),
                );
                &&& r == spec_entry(found.0, found.1)
                &&& final(task_reservations).current_of(found.0) == old(
                    task_reservations,
                ).current_of(found.0).saturating_add(found.1)
                &&& forall|u: Task|
                    u != found.0 ==> final(task_reservations).current_of(u) == old(
                        task_reservations,
                    ).current_of(u)
            }),
    {
        match &ctx.room {
            Some(room) => {
                if ctx.energy_used > 0 {
                    find_delivery_target(room, ctx.energy_used, ctx.tick, task_reservations)
                } else if ctx.energy_free > 0 {
                    find_energy(
                        room,
                        ctx.energy_free,
                        HAULER_ENERGY_PICKUP_THRESHOLD,
                        HAULER_ENERGY_WITHDRAW_THRESHOLD,
                        ctx.tick,
                        task_reservations,
                    )
                } else {
                    TaskQueueEntry::new_unreserved(
                        Task::IdleUntil(ctx.tick.saturating_add(NO_TASK_IDLE_TICKS)),
                    )
                }
            },
            None => TaskQueueEntry::new_unreserved(Task::IdleUntil(u32::MAX)),
        }
    }
}

impl SourceHarvester {
    /// Propose this harvester's next task: pin to the source at its
    /// station, or walk there if none resolved this tick.
    pub fn find_task(&self, ctx: &ProposalContext, task_reservations: &mut Ledger) -> (r:
        TaskQueueEntry)
        ensures
            ({
                let found = spec_find_task(
                    WorkerRole::SourceHarvester(*self),
                    *ctx,
                    claimed_fn(*old(task_reservations)),
                );
                &&& r == spec_entry(found.0, found.1)
                &&& final(task_reservations).current_of(found.0) == old(
                    task_reservations,
                ).current_of(found.0).saturating_add(found.1)
                &&& forall|u: Task|
                    u != found.0 ==> final(task_reservations).current_of(u) == old(
                        task_reservations,
                    ).current_of(u)
            }),
    {
        match ctx.source_at_position {
            Some(id) => TaskQueueEntry::new(Task::HarvestEnergyForever(id), 1, task_reservations),
            None => TaskQueueEntry::new_unreserved(
                Task::MoveToPosition(self.source_position, 1),
            ),
        }
    }
}

impl Startup {
    /// Propose this bootstrap worker's next task.
    pub fn find_task(&self, ctx: &ProposalContext, task_reservations: &mut Ledger) -> (r:
        TaskQueueEntry)
        ensures
            ({
                let found = spec_find_task(
                    WorkerRole::Startup(*self),
                    *ctx,
                    claimed_fn(*old(task_reservations)),
                );
                &&& r == spec_entry(found.0, found.1)
                &&& final(task_reservations).current_of(found.0) == old(
                    task_reservations,
                ).current_of(found.0).saturating_add(found.1)
                &&& forall|u: Task|
                    u != found.0 ==> final(task_reservations).current_of(u) == old(
                        task_reservations,
                    ).current_of(u)
            }),
    {
        match &ctx.room {
            Some(room) => {
                if ctx.energy_used > 0 {
                    find_startup_task(room, ctx.energy_used, ctx.tick, task_reservations)
                } else {
                    find_energy_or_source(
                        room,
                        ctx.energy_free,
                        BUILDER_ENERGY_PICKUP_THRESHOLD,
                        BUILDER_ENERGY_WITHDRAW_THRESHOLD,
                        ctx.tick,
                        task_reservations,
                    )
                }
            },
            None => TaskQueueEntry::new_unreserved(Task::IdleUntil(u32::MAX)),
        }
    }
}

impl Tower {
    /// Towers take no queue work yet: park them on an indefinite idle so
    /// a proposal pass still always yields an entry.
    pub fn find_task(&self, ctx: &ProposalContext, task_reservations: &mut Ledger) -> (r:
        TaskQueueEntry)
        ensures
            ({
                let found = spec_find_task(
                    WorkerRole::Tower(*self),
                    *ctx,
                    claimed_fn(*old(task_reservations)),
                );
                &&& r == spec_entry(found.0, found.1)
                &&& final(task_reservations).current_of(found.0) == old(
                    task_reservations,
                ).current_of(found.0).saturating_add(found.1)
                &&& forall|u: Task|
                    u != found.0 ==> final(task_reservations).current_of(u) == old(
                        task_reservations,
                    ).current_of(u)
            }),
    {
        TaskQueueEntry::new_unreserved(Task::IdleUntil(u32::MAX))
    }
}

impl Upgrader {
    /// Propose this upgrader's next task.
    pub fn find_task(&self, ctx: &ProposalContext, task_reservations: &mut Ledger) -> (r:
        TaskQueueEntry)
        ensures
            ({
                let found = spec_find_task(
                    WorkerRole::Upgrader(*self),
                    *ctx,
                    claimed_fn(*old(task_reservations)),
                );
                &&& r == spec_entry(found.0, found.1)
                &&& final(task_reservations).current_of(found.0) == old(
                    task_reservations,
                ).current_of(found.0).saturating_add(found.1)
                &&& forall|u: Task|
                    u != found.0 ==> final(task_reservations).current_of(u) == old(
                        task_reservations,
                    ).current_of(u)
            }),
    {
        match &ctx.room {
            Some(room) => {
                if ctx.energy_used > 0 {
                    find_upgrade_task(room, ctx.tick, task_reservations)
                } else if ctx.energy_free > 0 {
                    find_energy_or_source(
                        room,
                        ctx.energy_free,
                        UPGRADER_ENERGY_PICKUP_THRESHOLD,
                        UPGRADER_ENERGY_WITHDRAW_THRESHOLD,
                        ctx.tick,
                        task_reservations,
                    )
                } else {
                    TaskQueueEntry::new_unreserved(Task::IdleUntil(u32::MAX))
                }
            },
            None => TaskQueueEntry::new_unreserved(Task::IdleUntil(u32::MAX)),
        }
    }
}

impl WorkerRole {
    /// Propose the next task for an agent of this role. Always returns an
    /// entry; registers the entry's claim against the ledger as it does.
    pub fn find_task(&self, ctx: &ProposalContext, task_reservations: &mut Ledger) -> (r:
        TaskQueueEntry)
        ensures
            ({
                let found = spec_find_task(*self, *ctx, claimed_fn(*old(task_reservations)));
                &&& r == spec_entry(found.0, found.1)
                &&& final(task_reservations).current_of(found.0) == old(
                    task_reservations,
                ).current_of(found.0).saturating_add(found.1)
                &&& forall|u: Task|
                    u != found.0 ==> final(task_reservations).current_of(u) == old(
                        task_reservations,
                    ).current_of(u)
            }),
    {
        match self {
            WorkerRole::Builder(role) => role.find_task(ctx, task_reservations),
            WorkerRole::Hauler(role) => role.find_task(ctx, task_reservations),
            WorkerRole::SourceHarvester(role) => role.find_task(ctx, task_reservations),
            WorkerRole::Startup(role) => role.find_task(ctx, task_reservations),
            WorkerRole::Tower(role) => role.find_task(ctx, task_reservations),
            WorkerRole::Upgrader(role) => role.find_task(ctx, task_reservations),
        }
    }
}

proof fn lemma_scan_piles_bounded(
    piles: Seq<PileSnapshot>,
    i: int,
    agent_bound: u32,
    threshold: u32,
    cur: spec_fn(Task) -> u32,
)
    ensures
        spec_scan_piles(piles, i, agent_bound, threshold, cur) matches Some(hit) ==> cur(hit.0)
            + hit.1 <= hit.2,
    decreases piles.len() - i,
{
    if i < piles.len() {
        lemma_scan_piles_bounded(piles, i + 1, agent_bound, threshold, cur);
    }
}

proof fn lemma_scan_withdraw_bounded(
    structures: Seq<StructureSnapshot>,
    i: int,
    agent_bound: u32,
    threshold: u32,
    cur: spec_fn(Task) -> u32,
)
    ensures
        spec_scan_withdraw(structures, i, agent_bound, threshold, cur) matches Some(hit) ==> cur(
            hit.0,
        ) + hit.1 <= hit.2,
    decreases structures.len() - i,
{
    if i < structures.len() {
        lemma_scan_withdraw_bounded(structures, i + 1, agent_bound, threshold, cur);
    }
}

proof fn lemma_scan_sources_bounded(sources: Seq<SourceSnapshot>, i: int, cur: spec_fn(Task) -> u32)
    ensures
        spec_scan_sources(sources, i, cur) matches Some(hit) ==> cur(hit.0) + hit.1 <= hit.2,
    decreases sources.len() - i,
{
    if i < sources.len() {
        lemma_scan_sources_bounded(sources, i + 1, cur);
    }
}

proof fn lemma_scan_delivery_bounded(
    structures: Seq<StructureSnapshot>,
    i: int,
    agent_bound: u32,
    include_tower: bool,
    cur: spec_fn(Task) -> u32,
)
    ensures
        spec_scan_delivery(structures, i, agent_bound, include_tower, cur) matches Some(hit)
            ==> cur(hit.0) + hit.1 <= hit.2,
    decreases structures.len() - i,
{
    if i < structures.len() {
        lemma_scan_delivery_bounded(structures, i + 1, agent_bound, include_tower, cur);
    }
}

proof fn lemma_scan_repair_bounded(
    structures: Seq<StructureSnapshot>,
    i: int,
    watermark: u32,
    agent_bound: u32,
    cur: spec_fn(Task) -> u32,
)
    ensures
        spec_scan_repair(structures, i, watermark, agent_bound, cur) matches Some(hit) ==> cur(
            hit.0,
        ) + hit.1 <= hit.2,
    decreases structures.len() - i,
{
    if i < structures.len() {
        lemma_scan_repair_bounded(structures, i + 1, watermark, agent_bound, cur);
    }
}

proof fn lemma_scan_build_bounded(
    sites: Seq<SiteSnapshot>,
    i: int,
    agent_bound: u32,
    cur: spec_fn(Task) -> u32,
)
    ensures
        spec_scan_build(sites, i, agent_bound, cur) matches Some(hit) ==> cur(hit.0) + hit.1
            <= hit.2,
    decreases sites.len() - i,
{
    if i < sites.len() {
        lemma_scan_build_bounded(sites, i + 1, agent_bound, cur);
    }
}

/// At-most-capacity assignment: whenever a proposal accepts a
/// capacity-checked candidate, the claim it registers, added to what the
/// ledger already records for that task identity, stays within the
/// candidate's declared capacity or need. Together with `find_task`'s
/// contract this means the ledger's entry for the identity never exceeds
/// the capacity through any number of proposal passes over a fixed
/// snapshot.
pub proof fn lemma_at_most_capacity(role: WorkerRole, ctx: ProposalContext, led: Ledger)
    ensures
        ({
            let found = spec_find_task(role, ctx, claimed_fn(led));
            found.2 matches Some(cap) ==> led.current_of(found.0) + found.1 <= cap
        }),
{
    let cur = claimed_fn(led);
    match ctx.room {
        Some(room) => {
            lemma_scan_piles_bounded(
                room.piles@,
                0,
                ctx.energy_free,
                BUILDER_ENERGY_PICKUP_THRESHOLD,
                cur,
            );
            lemma_scan_piles_bounded(
                room.piles@,
                0,
                ctx.energy_free,
                HAULER_ENERGY_PICKUP_THRESHOLD,
                cur,
            );
            lemma_scan_piles_bounded(
                room.piles@,
                0,
                ctx.energy_free,
                UPGRADER_ENERGY_PICKUP_THRESHOLD,
                cur,
            );
            lemma_scan_withdraw_bounded(
                room.structures@,
                0,
                ctx.energy_free,
                BUILDER_ENERGY_WITHDRAW_THRESHOLD,
                cur,
            );
            lemma_scan_withdraw_bounded(
                room.structures@,
                0,
                ctx.energy_free,
                HAULER_ENERGY_WITHDRAW_THRESHOLD,
                cur,
            );
            lemma_scan_withdraw_bounded(
                room.structures@,
                0,
                ctx.energy_free,
                UPGRADER_ENERGY_WITHDRAW_THRESHOLD,
                cur,
            );
            lemma_scan_sources_bounded(room.active_sources@, 0, cur);
            lemma_scan_delivery_bounded(room.structures@, 0, ctx.energy_used, true, cur);
            lemma_scan_delivery_bounded(room.structures@, 0, ctx.energy_used, false, cur);
            lemma_scan_repair_bounded(
                room.structures@,
                0,
                STARTUP_REPAIR_WATERMARK,
                ctx.energy_used,
                cur,
            );
            match role {
                WorkerRole::Builder(b) => {
                    lemma_scan_repair_bounded(
                        room.structures@,
                        0,
                        b.repair_watermark,
                        ctx.energy_used,
                        cur,
                    );
                },
                _ => {},
            }
            lemma_scan_build_bounded(room.construction_sites@, 0, ctx.energy_used, cur);
        },
        None => {},
    }
}

/// Idempotent re-proposal: a proposal pass reads the world snapshot and
/// the ledger's claimed amounts and nothing else, so two passes for the
/// same agent over an unchanged snapshot and ledgers that record the same
/// claims yield the same task, the same claim, and the same capacity
/// bound.
pub proof fn lemma_reproposal_stable(
    role: WorkerRole,
    ctx: ProposalContext,
    led1: Ledger,
    led2: Ledger,
)
    requires
        forall|t: Task| led1.current_of(t) == led2.current_of(t),
    ensures
        spec_find_task(role, ctx, claimed_fn(led1)) == spec_find_task(role, ctx, claimed_fn(led2)),
{
    assert(claimed_fn(led1) =~= claimed_fn(led2));
}

} // verus!

