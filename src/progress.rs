//! Completion tracking for asynchronous load tasks.

use vstd::prelude::*;

verus! {

/// Aggregate status of the registered load tasks.
#[derive(Clone, Copy, Debug, PartialEq, Eq, Structural)]
pub enum Completion {
    Loading,
    Complete,
    Failed,
}

/// A fraction `num / den` with `den > 0`.
#[derive(Clone, Copy, Debug, PartialEq, Eq, Structural)]
pub struct Ratio {
    pub num: u64,
    pub den: u64,
}

/// The abstract state of a progress counter.
pub struct CounterModel {
    pub total: nat,
    pub completed: nat,
    pub failed: bool,
}

/// One call on a progress counter.
#[derive(Clone, Copy, Debug, PartialEq, Eq, Structural)]
pub enum CounterOp {
    Register(u64),
    Success,
    Failure,
}

impl CounterModel {
    pub open spec fn wf(self) -> bool {
        self.completed <= self.total
    }

    pub open spec fn status(self) -> Completion {
        if self.failed {
            Completion::Failed
        } else if self.completed == self.total {
            Completion::Complete
        } else {
            Completion::Loading
        }
    }

    /// `completed / total`, and `0 / 1` while nothing is registered.
    pub open spec fn fraction(self) -> (nat, nat) {
        if self.total == 0 {
            (0, 1)
        } else {
            (self.completed, self.total)
        }
    }

    /// Whether `op` may be applied: a registration must keep the total in
    /// range, and each signal belongs to a registered task that has not yet
    /// signalled.
    pub open spec fn allows(self, op: CounterOp) -> bool {
        match op {
            CounterOp::Register(n) => self.total + n <= u64::MAX,
            CounterOp::Success => self.completed < self.total,
            CounterOp::Failure => self.completed < self.total,
        }
    }

    pub open spec fn step(self, op: CounterOp) -> CounterModel {
        match op {
            CounterOp::Register(n) => CounterModel { total: self.total + n as nat, ..self },
            CounterOp::Success => CounterModel { completed: self.completed + 1, ..self },
            CounterOp::Failure => CounterModel {
                completed: self.completed + 1,
                failed: true,
                ..self
            },
        }
    }
}

/// The state reached from `c` by applying `ops` in order.
pub open spec fn run(c: CounterModel, ops: Seq<CounterOp>) -> CounterModel
    decreases ops.len(),
{
    if ops.len() == 0 {
        c
    } else {
        run(c, ops.drop_last()).step(ops.last())
    }
}

/// Every operation of `ops` is allowed in the state it is applied to.
pub open spec fn run_allowed(c: CounterModel, ops: Seq<CounterOp>) -> bool
    decreases ops.len(),
{
    if ops.len() == 0 {
        true
    } else {
        run_allowed(c, ops.drop_last()) && run(c, ops.drop_last()).allows(ops.last())
    }
}

/// `a <= b` as fractions with positive denominators.
pub open spec fn ratio_le(a: (nat, nat), b: (nat, nat)) -> bool {
    a.0 * b.1 <= b.0 * a.1
}

/// Whether applying `op` in state `c` can lower the completed fraction:
/// only adding tasks once some have completed does.
pub open spec fn lowers_fraction(c: CounterModel, op: CounterOp) -> bool {
    match op {
        CounterOp::Register(n) => n > 0 && c.completed > 0,
        _ => false,
    }
}

proof fn lemma_prefix(c: CounterModel, ops: Seq<CounterOp>, j: int)
    requires
        run_allowed(c, ops),
        0 <= j <= ops.len(),
    ensures
        run_allowed(c, ops.take(j)),
        j < ops.len() ==> run(c, ops.take(j)).allows(ops[j]),
        j < ops.len() ==> run(c, ops.take(j + 1)) == run(c, ops.take(j)).step(ops[j]),
    decreases ops.len(),
{
    if j == ops.len() {
        assert(ops.take(j) =~= ops);
    } else {
        assert(ops.take(j + 1).drop_last() =~= ops.take(j));
        assert(ops.take(j + 1).last() == ops[j]);
        if j + 1 == ops.len() {
            assert(ops.take(j + 1) =~= ops);
            assert(ops.drop_last() =~= ops.take(j));
        } else {
            lemma_prefix(c, ops.drop_last(), j);
            lemma_prefix(c, ops.drop_last(), j + 1);
            assert(ops.drop_last().take(j) =~= ops.take(j));
            assert(ops.drop_last().take(j + 1) =~= ops.take(j + 1));
        }
    }
}

/// Along every run of allowed operations, no more tasks are completed than
/// were registered.
pub proof fn lemma_run_stays_wf(c: CounterModel, ops: Seq<CounterOp>)
    requires
        c.wf(),
        run_allowed(c, ops),
    ensures
        run(c, ops).wf(),
    decreases ops.len(),
{
    if ops.len() > 0 {
        lemma_run_stays_wf(c, ops.drop_last());
    }
}

proof fn lemma_step_monotone(c: CounterModel, op: CounterOp)
    requires
        c.wf(),
        c.allows(op),
        !lowers_fraction(c, op),
    ensures
        ratio_le(c.fraction(), c.step(op).fraction()),
{
    let d = c.step(op);
    if c.total > 0 && d.total == c.total {
        assert(c.completed * c.total <= d.completed * c.total) by (nonlinear_arith)
            requires
                c.completed <= d.completed,
        ;
    }
}

proof fn lemma_ratio_le_trans(a: (nat, nat), b: (nat, nat), c: (nat, nat))
    requires
        a.1 > 0,
        b.1 > 0,
        c.1 > 0,
        ratio_le(a, b),
        ratio_le(b, c),
    ensures
        ratio_le(a, c),
{
    assert(a.0 * c.1 <= c.0 * a.1) by (nonlinear_arith)
        requires
            a.1 > 0,
            b.1 > 0,
            c.1 > 0,
            a.0 * b.1 <= b.0 * a.1,
            b.0 * c.1 <= c.0 * b.1,
    {
        assert(a.0 * b.1 * c.1 <= b.0 * a.1 * c.1);
        assert(b.0 * c.1 * a.1 <= c.0 * b.1 * a.1);
        assert(a.0 * c.1 * b.1 <= c.0 * a.1 * b.1);
    }
}

proof fn lemma_fraction_den_positive(c: CounterModel)
    ensures
        c.fraction().1 > 0,
{
}

/// Between two points of a run of allowed operations, the completed
/// fraction does not decrease unless tasks were added in between after some
/// had already completed.
pub proof fn lemma_fraction_monotone(c: CounterModel, ops: Seq<CounterOp>, i: int, j: int)
    requires
        c.wf(),
        run_allowed(c, ops),
        0 <= i <= j <= ops.len(),
        forall|k: int| i <= k < j ==> !lowers_fraction(run(c, ops.take(k)), #[trigger] ops[k]),
    ensures
        ratio_le(run(c, ops.take(i)).fraction(), run(c, ops.take(j)).fraction()),
    decreases j - i,
{
    let a = run(c, ops.take(i));
    if i == j {
        lemma_fraction_den_positive(a);
        assert(a.fraction().0 * a.fraction().1 <= a.fraction().0 * a.fraction().1);
    } else {
        lemma_fraction_monotone(c, ops, i, j - 1);
        lemma_prefix(c, ops, j - 1);
        lemma_prefix(c, ops, j);
        let m = run(c, ops.take(j - 1));
        lemma_run_stays_wf(c, ops.take(j - 1));
        assert(!lowers_fraction(m, ops[j - 1]));
        lemma_step_monotone(m, ops[j - 1]);
        lemma_fraction_den_positive(a);
        lemma_fraction_den_positive(m);
        lemma_fraction_den_positive(run(c, ops.take(j)));
        lemma_ratio_le_trans(a.fraction(), m.fraction(), run(c, ops.take(j)).fraction());
    }
}

/// Once a task has failed, the status is `Failed` whatever follows, until the
/// counter is reset.
pub proof fn lemma_failure_is_permanent(c: CounterModel, ops: Seq<CounterOp>, i: int)
    requires
        0 <= i < ops.len(),
        ops[i] == CounterOp::Failure,
    ensures
        run(c, ops).failed,
        run(c, ops).status() == Completion::Failed,
    decreases ops.len(),
{
    if i + 1 < ops.len() {
        lemma_failure_is_permanent(c, ops.drop_last(), i);
    }
}

/// The status is `Complete` exactly when every registered task has signalled
/// and none failed; a counter with nothing registered is complete at once.
pub proof fn lemma_complete_iff(c: CounterModel)
    ensures
        (c.status() == Completion::Complete) <==> (c.completed == c.total && !c.failed),
        (c.total == 0 && c.completed == 0 && !c.failed) ==> c.status() == Completion::Complete,
{
}

/// Counts registered load tasks and the terminal signals they have sent.
pub struct ProgressCounter {
    total_tasks: u64,
    completed_tasks: u64,
    failed: bool,
}

impl View for ProgressCounter {
    type V = CounterModel;

    closed spec fn view(&self) -> CounterModel {
        CounterModel {
            total: self.total_tasks as nat,
            completed: self.completed_tasks as nat,
            failed: self.failed,
        }
    }
}

impl ProgressCounter {
    /// No more completed than registered, and both counts fit in a `u64`.
    pub open spec fn wf(&self) -> bool {
        &&& self@.wf()
        &&& self@.total <= u64::MAX
    }

    /// A counter with no registered tasks.
    pub fn new() -> (r: ProgressCounter)
        ensures
            r.wf(),
            r@ == (CounterModel { total: 0, completed: 0, failed: false }),
    {
        ProgressCounter { total_tasks: 0, completed_tasks: 0, failed: false }
    }

    /// Forgets every task and any failure.
    pub fn reset(&mut self)
        ensures
            final(self).wf(),
            final(self)@ == (CounterModel { total: 0, completed: 0, failed: false }),
    {
        self.total_tasks = 0;
        self.completed_tasks = 0;
        self.failed = false;
    }

    /// Registers `n` more tasks.
    pub fn register(&mut self, n: u64)
        requires
            old(self).wf(),
            old(self)@.allows(CounterOp::Register(n)),
        ensures
            final(self).wf(),
            final(self)@ == old(self)@.step(CounterOp::Register(n)),
    {
        self.total_tasks = self.total_tasks + n;
    }

    /// Records that one registered task finished successfully.
    pub fn signal_success(&mut self)
        requires
            old(self).wf(),
            old(self)@.allows(CounterOp::Success),
        ensures
            final(self).wf(),
            final(self)@ == old(self)@.step(CounterOp::Success),
    {
        self.completed_tasks = self.completed_tasks + 1;
    }

    /// Records that one registered task failed.
    pub fn signal_failure(&mut self)
        requires
            old(self).wf(),
            old(self)@.allows(CounterOp::Failure),
        ensures
            final(self).wf(),
            final(self)@ == old(self)@.step(CounterOp::Failure),
    {
        self.completed_tasks = self.completed_tasks + 1;
        self.failed = true;
    }

    /// Applies one operation, as a task or the loader would.
    pub fn apply(&mut self, op: CounterOp)
        requires
            old(self).wf(),
            old(self)@.allows(op),
        ensures
            final(self).wf(),
            final(self)@ == old(self)@.step(op),
    {
        match op {
            CounterOp::Register(n) => self.register(n),
            CounterOp::Success => self.signal_success(),
            CounterOp::Failure => self.signal_failure(),
        }
    }

    pub fn status(&self) -> (r: Completion)
        ensures
            r == self@.status(),
    {
        if self.failed {
            Completion::Failed
        } else if self.completed_tasks == self.total_tasks {
            Completion::Complete
        } else {
            Completion::Loading
        }
    }

    pub fn fraction(&self) -> (r: Ratio)
        ensures
            (r.num as nat, r.den as nat) == self@.fraction(),
            r.den > 0,
    {
        if self.total_tasks == 0 {
            Ratio { num: 0, den: 1 }
        } else {
            Ratio { num: self.completed_tasks, den: self.total_tasks }
        }
    }

    /// Number of tasks that have sent their terminal signal.
    pub fn num_finished(&self) -> (r: u64)
        ensures
            r == self@.completed,
    {
        self.completed_tasks
    }

    /// Number of registered tasks.
    pub fn num_assets(&self) -> (r: u64)
        ensures
            r == self@.total,
    {
        self.total_tasks
    }

    pub fn is_failed(&self) -> (r: bool)
        ensures
            r == self@.failed,
    {
        self.failed
    }
}

} // verus!
