//! The in-memory join counter. An increment is committed only after the
//! store has recorded the new value, so the counter is never ahead of what
//! is durable.
use vstd::prelude::*;
use crate::store::write_value;

verus! {

/// The counter value after one increment attempt whose write to the store
/// succeeded (`persisted`) or failed. At the largest `i64` no increment is
/// attempted.
pub open spec fn step_value(current: int, persisted: bool) -> int {
    if persisted && current < i64::MAX {
        current + 1
    } else {
        current
    }
}

/// The counter value after a run of increment attempts, one per entry of
/// `outcomes`, starting from `start`.
pub open spec fn after_joins(start: int, outcomes: Seq<bool>) -> int
    decreases outcomes.len(),
{
    if outcomes.len() == 0 {
        start
    } else {
        step_value(after_joins(start, outcomes.drop_last()), outcomes.last())
    }
}

/// The process-wide counter of join events. Besides its value it keeps, as
/// ghost state, the value it started from and the outcome of every increment
/// attempt since: `true` for one whose write to the store succeeded.
pub struct CounterState {
    value: i64,
    start: Ghost<int>,
    attempts: Ghost<Seq<bool>>,
}

impl View for CounterState {
    type V = int;

    closed spec fn view(&self) -> int {
        self.value as int
    }
}

impl CounterState {
    /// The value the counter started from.
    pub closed spec fn start(&self) -> int {
        self.start@
    }

    /// The outcome of each increment attempt since the start, in order.
    pub closed spec fn attempts(&self) -> Seq<bool> {
        self.attempts@
    }

    /// A counter never holds a negative value, and its value is what its
    /// attempts made of its start.
    pub open spec fn wf(&self) -> bool {
        &&& self@ >= 0
        &&& self@ == after_joins(self.start(), self.attempts())
    }

    /// A counter starting at `initial`, the value read from the store.
    pub fn new(initial: i64) -> (r: Self)
        requires
            initial >= 0,
        ensures
            r@ == initial,
            r.start() == initial,
            r.attempts() == Seq::<bool>::empty(),
            r.wf(),
    {
        CounterState { value: initial, start: Ghost(initial as int), attempts: Ghost(Seq::empty()) }
    }

    /// The current value, unchanged.
    pub fn read(&self) -> (r: i64)
        ensures
            r == self@,
    {
        self.value
    }

    /// The value the next increment would commit, if there is one.
    pub fn next_value(&self) -> (r: Option<i64>)
        ensures
            r == (if self@ < i64::MAX { Some((self@ + 1) as i64) } else { None::<i64> }),
    {
        if self.value < i64::MAX {
            Some(self.value + 1)
        } else {
            None
        }
    }

    /// Commits an increment whose write to the store succeeded, or keeps the
    /// value when it failed; returns the resulting value.
    pub fn apply_write_outcome(&mut self, persisted: bool) -> (r: i64)
        requires
            old(self).wf(),
        ensures
            final(self)@ == step_value(old(self)@, persisted),
            final(self).start() == old(self).start(),
            final(self).attempts() == old(self).attempts().push(persisted),
            r == final(self)@,
            final(self).wf(),
    {
        if persisted && self.value < i64::MAX {
            self.value = self.value + 1;
        }
        let ghost prior = self.attempts@;
        self.attempts = Ghost(prior.push(persisted));
        proof {
            assert(self.attempts@.drop_last() =~= prior);
        }
        self.value
    }

    /// Writes the incremented value to the store and commits it only if the
    /// write succeeded; returns the resulting value. At the largest `i64` no
    /// write is made and the attempt counts as failed. The caller holds the
    /// lock that guards both the counter and the store across the call.
    pub fn increment_and_persist(&mut self, conn: &sqlite::ConnectionThreadSafe) -> (r: i64)
        requires
            old(self).wf(),
        ensures
            final(self).start() == old(self).start(),
            exists|persisted: bool| final(self).attempts() == #[trigger] old(self).attempts().push(persisted),
            final(self)@ == old(self)@ || (old(self)@ < i64::MAX && final(self)@ == old(self)@ + 1),
            r == final(self)@,
            final(self).wf(),
    {
        match self.next_value() {
            Some(next) => {
                let persisted = write_value(conn, next);
                self.apply_write_outcome(persisted)
            },
            None => self.apply_write_outcome(false),
        }
    }
}

/// The count a handler reports: the counter's value when its lock was taken,
/// or 0 when the lock could not be taken.
pub fn reported_count(locked: Option<i64>) -> (r: i64)
    ensures
        r == match locked {
            Some(v) => v,
            None => 0,
        },
{
    match locked {
        Some(v) => v,
        None => 0,
    }
}

/// Extending a run of attempts by ones that all succeeded, while below the
/// largest value, adds one per attempt.
proof fn lemma_extend_persisted(start: int, s: Seq<bool>, t: Seq<bool>)
    requires
        s.len() <= t.len(),
        t.subrange(0, s.len() as int) =~= s,
        forall|i: int| s.len() <= i < t.len() ==> #[trigger] t[i],
        after_joins(start, s) + (t.len() - s.len()) <= i64::MAX,
    ensures
        after_joins(start, t) == after_joins(start, s) + (t.len() - s.len()),
    decreases t.len(),
{
    if t.len() > s.len() {
        let p = t.drop_last();
        assert(p.subrange(0, s.len() as int) =~= s);
        lemma_extend_persisted(start, s, p);
        assert(t.last() == t[t.len() - 1]);
    } else {
        assert(t =~= s);
    }
}

/// Extending a run of attempts by ones that all failed keeps the value.
proof fn lemma_extend_failed(start: int, s: Seq<bool>, t: Seq<bool>)
    requires
        s.len() <= t.len(),
        t.subrange(0, s.len() as int) =~= s,
        forall|i: int| s.len() <= i < t.len() ==> !#[trigger] t[i],
    ensures
        after_joins(start, t) == after_joins(start, s),
    decreases t.len(),
{
    if t.len() > s.len() {
        let p = t.drop_last();
        assert(p.subrange(0, s.len() as int) =~= s);
        lemma_extend_failed(start, s, p);
        assert(t.last() == t[t.len() - 1]);
    } else {
        assert(t =~= s);
    }
}

/// Extending a run of attempts never lowers the value.
proof fn lemma_extend_never_decreases(start: int, s: Seq<bool>, t: Seq<bool>)
    requires
        s.len() <= t.len(),
        t.subrange(0, s.len() as int) =~= s,
    ensures
        after_joins(start, t) >= after_joins(start, s),
    decreases t.len(),
{
    if t.len() > s.len() {
        let p = t.drop_last();
        assert(p.subrange(0, s.len() as int) =~= s);
        lemma_extend_never_decreases(start, s, p);
    } else {
        assert(t =~= s);
    }
}

/// Successive reads never see a smaller count: when `later` is `earlier`
/// after any further increment attempts, its value is at least as large.
pub proof fn lemma_count_never_decreases(earlier: CounterState, later: CounterState)
    requires
        earlier.wf(),
        later.wf(),
        later.start() == earlier.start(),
        earlier.attempts().len() <= later.attempts().len(),
        later.attempts().subrange(0, earlier.attempts().len() as int) == earlier.attempts(),
    ensures
        later@ >= earlier@,
{
    lemma_extend_never_decreases(earlier.start(), earlier.attempts(), later.attempts());
}

/// From a fresh counter, N joins whose writes all succeeded leave the count
/// at exactly N.
pub proof fn lemma_joins_from_fresh(c: CounterState)
    requires
        c.wf(),
        c.start() == 0,
        c.attempts().len() <= i64::MAX,
        forall|i: int| 0 <= i < c.attempts().len() ==> #[trigger] c.attempts()[i],
    ensures
        c@ == c.attempts().len(),
{
    lemma_extend_persisted(0, Seq::empty(), c.attempts());
}

/// One join whose write succeeded, below the largest value, raises the count
/// by exactly one.
pub proof fn lemma_one_join(before: CounterState, after: CounterState)
    requires
        before.wf(),
        after.wf(),
        after.start() == before.start(),
        after.attempts() == before.attempts().push(true),
        before@ < i64::MAX,
    ensures
        after@ == before@ + 1,
{
    assert(after.attempts().drop_last() =~= before.attempts());
}

/// When every write to the store fails, joins leave the count where it was:
/// `later` is `earlier` after attempts that all failed.
pub proof fn lemma_failed_writes_keep_count(earlier: CounterState, later: CounterState)
    requires
        earlier.wf(),
        later.wf(),
        later.start() == earlier.start(),
        earlier.attempts().len() <= later.attempts().len(),
        later.attempts().subrange(0, earlier.attempts().len() as int) == earlier.attempts(),
        forall|i: int|
            earlier.attempts().len() <= i < later.attempts().len() ==> !#[trigger] later.attempts()[i],
    ensures
        later@ == earlier@,
{
    lemma_extend_failed(earlier.start(), earlier.attempts(), later.attempts());
}

} // verus!
