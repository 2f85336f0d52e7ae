//! The reservation ledger: a per-tick table from task identity to the
//! cumulative amount already claimed against that identity. Rebuilt from
//! the population's queues at the start of every tick and never persisted.
//!
//! An identity with a zero total claim is absent from the table, and all
//! arithmetic saturates, so bookkeeping drift (a release larger than the
//! matching claim) can flatten an entry but never corrupt the ledger.

use vstd::prelude::*;

use crate::task::Task;

verus! {

/// No two rows share a task identity.
spec fn keys_unique(s: Seq<(Task, u32)>) -> bool {
    forall|i: int, j: int| 0 <= i < j < s.len() ==> (#[trigger] s[i]).0 != (#[trigger] s[j]).0
}

/// Every row holds a positive claim: zero-value entries do not persist.
spec fn amounts_positive(s: Seq<(Task, u32)>) -> bool {
    forall|i: int| 0 <= i < s.len() ==> (#[trigger] s[i]).1 > 0
}

/// The claimed amount a row list records for `t`, zero when `t` is absent.
spec fn alist_get(s: Seq<(Task, u32)>, t: Task) -> u32
    decreases s.len(),
{
    if s.len() == 0 {
        0
    } else if s.last().0 == t {
        s.last().1
    } else {
        alist_get(s.drop_last(), t)
    }
}

proof fn lemma_unique_drop_last(s: Seq<(Task, u32)>)
    requires
        keys_unique(s),
        s.len() > 0,
    ensures
        keys_unique(s.drop_last()),
{
    assert forall|i: int, j: int|
        0 <= i < j < s.drop_last().len() implies (#[trigger] s.drop_last()[i]).0 != (
    #[trigger] s.drop_last()[j]).0 by {
        assert(s.drop_last()[i] == s[i]);
        assert(s.drop_last()[j] == s[j]);
    }
}

proof fn lemma_get_at_index(s: Seq<(Task, u32)>, i: int)
    requires
        keys_unique(s),
        0 <= i < s.len(),
    ensures
        alist_get(s, s[i].0) == s[i].1,
    decreases s.len(),
{
    if i == s.len() - 1 {
    } else {
        lemma_unique_drop_last(s);
        assert(s.drop_last()[i] == s[i]);
        lemma_get_at_index(s.drop_last(), i);
    }
}

proof fn lemma_get_absent(s: Seq<(Task, u32)>, t: Task)
    requires
        forall|i: int| 0 <= i < s.len() ==> (#[trigger] s[i]).0 != t,
    ensures
        alist_get(s, t) == 0,
    decreases s.len(),
{
    if s.len() > 0 {
        assert forall|i: int|
            0 <= i < s.drop_last().len() implies (#[trigger] s.drop_last()[i]).0 != t by {
            assert(s.drop_last()[i] == s[i]);
        }
        lemma_get_absent(s.drop_last(), t);
    }
}

proof fn lemma_get_push(s: Seq<(Task, u32)>, e: (Task, u32), u: Task)
    ensures
        alist_get(s.push(e), u) == if u == e.0 {
            e.1
        } else {
            alist_get(s, u)
        },
{
    assert(s.push(e).drop_last() =~= s);
    assert(s.push(e).last() == e);
}

proof fn lemma_get_update(s: Seq<(Task, u32)>, i: int, v: u32, u: Task)
    requires
        keys_unique(s),
        0 <= i < s.len(),
    ensures
        alist_get(s.update(i, (s[i].0, v)), u) == if u == s[i].0 {
            v
        } else {
            alist_get(s, u)
        },
    decreases s.len(),
{
    let s2 = s.update(i, (s[i].0, v));
    if i == s.len() - 1 {
        assert(s2.drop_last() =~= s.drop_last());
    } else {
        assert(s2.last() == s.last());
        assert(s2.drop_last() =~= s.drop_last().update(i, (s.drop_last()[i].0, v)));
        lemma_unique_drop_last(s);
        lemma_get_update(s.drop_last(), i, v, u);
    }
}

proof fn lemma_get_remove(s: Seq<(Task, u32)>, i: int, u: Task)
    requires
        keys_unique(s),
        0 <= i < s.len(),
    ensures
        alist_get(s.remove(i), u) == if u == s[i].0 {
            0
        } else {
            alist_get(s, u)
        },
    decreases s.len(),
{
    s.remove_ensures(i);
    lemma_unique_drop_last(s);
    if i == s.len() - 1 {
        assert(s.remove(i) =~= s.drop_last());
        if u == s[i].0 {
            lemma_get_absent(s.drop_last(), u);
        }
    } else {
        assert(s.remove(i).last() == s.last());
        assert(s.remove(i).drop_last() =~= s.drop_last().remove(i));
        lemma_get_remove(s.drop_last(), i, u);
    }
}

/// Find the row holding `t`, if any.
fn find_entry(entries: &Vec<(Task, u32)>, t: Task) -> (r: Option<usize>)
    ensures
        match r {
            Some(i) => i < entries@.len() && entries@[i as int].0 == t,
            None => forall|j: int| 0 <= j < entries@.len() ==> (#[trigger] entries@[j]).0 != t,
        },
{
    let mut i: usize = 0;
    while i < entries.len()
        invariant
            i <= entries@.len(),
            forall|j: int| 0 <= j < i ==> (#[trigger] entries@[j]).0 != t,
        decreases entries@.len() - i,
    {
        if entries[i].0 == t {
            return Some(i);
        }
        i += 1;
    }
    None
}

/// The per-tick reservation table.
pub struct Ledger {
    entries: Vec<(Task, u32)>,
}

impl Ledger {
    #[verifier::type_invariant]
    spec fn wf(&self) -> bool {
        keys_unique(self.entries@) && amounts_positive(self.entries@)
    }

    /// The amount currently claimed against `t`; zero when `t` is absent.
    pub closed spec fn current_of(&self, t: Task) -> u32 {
        alist_get(self.entries@, t)
    }

    /// An empty ledger, as rebuilt at the start of each tick.
    pub fn new() -> (l: Ledger)
        ensures
            forall|t: Task| l.current_of(t) == 0,
    {
        Ledger { entries: Vec::new() }
    }

    /// Saturating-add `amount` to the entry for `task`, inserting it if
    /// absent. Claiming zero changes nothing.
    pub fn claim(&mut self, task: Task, amount: u32)
        ensures
            final(self).current_of(task) == old(self).current_of(task).saturating_add(amount),
            forall|u: Task|
                u != task ==> final(self).current_of(u) == old(self).current_of(u),
    {
        proof {
            use_type_invariant(&*self);
        }
        if amount == 0 {
            return ;
        }
        let ghost s0 = self.entries@;
        let mut entries: Vec<(Task, u32)> = Vec::new();
        std::mem::swap(&mut entries, &mut self.entries);
        match find_entry(&entries, task) {
            Some(i) => {
                let cur = entries[i].1;
                entries[i] = (task, cur.saturating_add(amount));
                proof {
                    assert forall|u: Task| true implies alist_get(entries@, u) == (if u == task {
                        alist_get(s0, u).saturating_add(amount)
                    } else {
                        alist_get(s0, u)
                    }) by {
                        lemma_get_update(s0, i as int, cur.saturating_add(amount), u);
                        if u == task {
                            lemma_get_at_index(s0, i as int);
                        }
                    }
                    assert forall|p: int, q: int|
                        0 <= p < q < entries@.len() implies (#[trigger] entries@[p]).0 != (
                    #[trigger] entries@[q]).0 by {
                        assert(s0[p].0 == entries@[p].0 && s0[q].0 == entries@[q].0);
                    }
                }
            },
            None => {
                entries.push((task, amount));
                proof {
                    assert forall|u: Task| true implies alist_get(entries@, u) == (if u == task {
                        alist_get(s0, u).saturating_add(amount)
                    } else {
                        alist_get(s0, u)
                    }) by {
                        lemma_get_push(s0, (task, amount), u);
                        if u == task {
                            lemma_get_absent(s0, task);
                        }
                    }
                    assert forall|p: int, q: int|
                        0 <= p < q < entries@.len() implies (#[trigger] entries@[p]).0 != (
                    #[trigger] entries@[q]).0 by {
                        if q < entries@.len() - 1 {
                            assert(s0[p].0 == entries@[p].0 && s0[q].0 == entries@[q].0);
                        } else {
                            assert(entries@[p] == s0[p]);
                        }
                    }
                }
            },
        }
        self.entries = entries;
    }

    /// Saturating-subtract `amount` from the entry for `task`, removing
    /// the entry entirely when the result is zero. Releasing more than is
    /// recorded clears the entry rather than corrupting the table.
    pub fn release(&mut self, task: Task, amount: u32)
        ensures
            final(self).current_of(task) == old(self).current_of(task).saturating_sub(amount),
            forall|u: Task|
                u != task ==> final(self).current_of(u) == old(self).current_of(u),
    {
        proof {
            use_type_invariant(&*self);
        }
        if amount == 0 {
            return ;
        }
        let ghost s0 = self.entries@;
        let mut entries: Vec<(Task, u32)> = Vec::new();
        std::mem::swap(&mut entries, &mut self.entries);
        match find_entry(&entries, task) {
            Some(i) => {
                let cur = entries[i].1;
                proof {
                    lemma_get_at_index(s0, i as int);
                }
                let newv = cur.saturating_sub(amount);
                if newv == 0 {
                    entries.remove(i);
                    proof {
                        assert forall|u: Task| true implies alist_get(entries@, u) == (if u == task {
                            0u32
                        } else {
                            alist_get(s0, u)
                        }) by {
                            lemma_get_remove(s0, i as int, u);
                        }
                        s0.remove_ensures(i as int);
                        assert forall|p: int, q: int|
                            0 <= p < q < entries@.len() implies (#[trigger] entries@[p]).0 != (
                        #[trigger] entries@[q]).0 by {
                            let p0 = if p < i { p } else { p + 1 };
                            let q0 = if q < i { q } else { q + 1 };
                            assert(entries@[p] == s0[p0] && entries@[q] == s0[q0]);
                        }
                        assert forall|p: int|
                            0 <= p < entries@.len() implies (#[trigger] entries@[p]).1 > 0 by {
                            let p0 = if p < i { p } else { p + 1 };
                            assert(entries@[p] == s0[p0]);
                        }
                    }
                } else {
                    entries[i] = (task, newv);
                    proof {
                        assert forall|u: Task| true implies alist_get(entries@, u) == (if u == task {
                            newv
                        } else {
                            alist_get(s0, u)
                        }) by {
                            lemma_get_update(s0, i as int, newv, u);
                        }
                        assert forall|p: int, q: int|
                            0 <= p < q < entries@.len() implies (#[trigger] entries@[p]).0 != (
                        #[trigger] entries@[q]).0 by {
                            assert(s0[p].0 == entries@[p].0 && s0[q].0 == entries@[q].0);
                        }
                    }
                }
            },
            None => {
                proof {
                    lemma_get_absent(s0, task);
                }
            },
        }
        self.entries = entries;
    }

    /// The claimed amount for `task`, or zero if absent.
    pub fn current(&self, task: Task) -> (r: u32)
        ensures
            r == self.current_of(task),
    {
        proof {
            use_type_invariant(&*self);
        }
        match find_entry(&self.entries, task) {
            Some(i) => {
                proof {
                    lemma_get_at_index(self.entries@, i as int);
                }
                self.entries[i].1
            },
            None => {
                proof {
                    lemma_get_absent(self.entries@, task);
                }
                0
            },
        }
    }

    /// Whether `task` has a row at all. A task identity is present in the
    /// table exactly when its claimed amount is nonzero: zero-value rows
    /// never persist.
    pub fn contains(&self, task: Task) -> (r: bool)
        ensures
            r == (self.current_of(task) > 0),
    {
        proof {
            use_type_invariant(&*self);
        }
        match find_entry(&self.entries, task) {
            Some(i) => {
                proof {
                    lemma_get_at_index(self.entries@, i as int);
                }
                true
            },
            None => {
                proof {
                    lemma_get_absent(self.entries@, task);
                }
                false
            },
        }
    }

}

/// One ledger operation, for stating laws over operation sequences.
#[derive(Copy, Clone, PartialEq, Eq, Structural, Debug)]
pub enum LedgerOp {
    Claim(Task, u32),
    Release(Task, u32),
}

/// The signed contribution of one operation to the total for `t`.
pub open spec fn op_delta(op: LedgerOp, t: Task) -> int {
    match op {
        LedgerOp::Claim(u, a) => if u == t {
            a as int
        } else {
            0
        },
        LedgerOp::Release(u, a) => if u == t {
            -(a as int)
        } else {
            0
        },
    }
}

/// Sum of claims minus releases for `t` over a sequence of operations.
pub open spec fn signed_total(ops: Seq<LedgerOp>, t: Task) -> int
    decreases ops.len(),
{
    if ops.len() == 0 {
        0
    } else {
        signed_total(ops.drop_last(), t) + op_delta(ops.last(), t)
    }
}

/// The value for `t` after replaying `ops` with the ledger's saturating
/// semantics, starting from `start`. `claim` and `release` ensure exactly
/// one replay step each, so this is the ledger's value for `t` after the
/// corresponding calls on a fresh ledger.
pub open spec fn replay_value(start: u32, ops: Seq<LedgerOp>, t: Task) -> u32
    decreases ops.len(),
{
    if ops.len() == 0 {
        start
    } else {
        let prev = replay_value(start, ops.drop_last(), t);
        match ops.last() {
            LedgerOp::Claim(u, a) => if u == t {
                prev.saturating_add(a)
            } else {
                prev
            },
            LedgerOp::Release(u, a) => if u == t {
                prev.saturating_sub(a)
            } else {
                prev
            },
        }
    }
}

/// Ledger conservation: over any sequence of claims and releases whose
/// running total for `t` never leaves the representable range, the
/// ledger's value for `t` equals the sum of claims minus releases for
/// `t`. (Outside that range the saturating arithmetic clips, deliberately;
/// and `Ledger::contains` ensures an identity is present exactly when its
/// value is nonzero.)
pub proof fn lemma_ledger_conservation(ops: Seq<LedgerOp>, t: Task)
    requires
        forall|k: int| 0 <= k <= ops.len() ==> 0 <= signed_total(#[trigger] ops.take(k), t) <= u32::MAX,
    ensures
        replay_value(0, ops, t) == signed_total(ops, t),
    decreases ops.len(),
{
    if ops.len() > 0 {
        assert forall|k: int|
            0 <= k <= ops.drop_last().len() implies 0 <= signed_total(
            #[trigger] ops.drop_last().take(k),
            t,
        ) <= u32::MAX by {
            assert(ops.drop_last().take(k) =~= ops.take(k));
            assert(0 <= signed_total(ops.take(k), t) <= u32::MAX);
        }
        lemma_ledger_conservation(ops.drop_last(), t);
        assert(ops.take(ops.len() as int) =~= ops);
        assert(ops.take(ops.len() - 1) =~= ops.drop_last());
        assert(0 <= signed_total(ops, t) <= u32::MAX);
        assert(0 <= signed_total(ops.drop_last(), t) <= u32::MAX);
    }
}

} // verus!
