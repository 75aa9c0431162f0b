//! Rate-based cooperative task scheduler.  One hardware tick drives the
//! scheduler; each managed task declares a rate, and the scheduler converts
//! the base tick into per-task invocation decisions, preserving registration
//! order among the tasks that are due on the same tick.

use vstd::prelude::*;
use vstd::arithmetic::div_mod::{
    lemma_fundamental_div_mod, lemma_fundamental_div_mod_converse_div,
    lemma_fundamental_div_mod_converse_mod, lemma_mod_bound,
};
use vstd::arithmetic::mul::lemma_mul_is_commutative;

verus! {

/// Invocations per second, relative to the scheduler's base rate.
pub type Rate = usize;

/// The uniform interface of every periodic subsystem driven by the
/// scheduler.  `pre_schedule` of every due task runs before any of their
/// `schedule` calls, and `post_schedule` after all of them, so tasks can
/// snapshot shared inputs before any task publishes new outputs.
pub trait Schedulable {
    /// The task's own well-formedness condition; every callback keeps it.
    spec fn inv(&self) -> bool;

    /// The declared invocation rate.
    spec fn rate_spec(&self) -> Rate;

    /// Whether a `schedule` call made now would complete the task's cycle.
    spec fn done(&self) -> bool;

    /// Runs for every due task of a tick before any of their `schedule`
    /// calls; the completion verdict the task would report stays as it is.
    fn pre_schedule(&mut self)
        requires
            old(self).inv(),
        ensures
            final(self).inv(),
            final(self).done() == old(self).done(),
            final(self).rate_spec() == old(self).rate_spec(),
    ;

    /// The task's work for one invocation; reports whether a logical cycle
    /// completed, or whether the task wants to be retried on the next tick.
    fn schedule(&mut self) -> (r: bool)
        requires
            old(self).inv(),
        ensures
            final(self).inv(),
            r == old(self).done(),
            final(self).rate_spec() == old(self).rate_spec(),
    ;

    /// Cleanup after every due task of the same tick has run.
    fn post_schedule(&mut self)
        requires
            old(self).inv(),
        ensures
            final(self).inv(),
            final(self).rate_spec() == old(self).rate_spec(),
    ;

    fn rate(&self) -> (r: Rate)
        requires
            self.inv(),
        ensures
            r == self.rate_spec(),
    ;
}

/// Per-task bookkeeping owned by the scheduler: ticks accumulated since the
/// task last completed, and ticks between runs.
pub struct TaskInfo {
    pub counter: usize,
    pub interval: usize,
}

/// A tick counter advances by one each scheduler tick, saturating at the
/// top of `usize` so a task that never completes cannot overflow it.
pub open spec fn sat_inc(c: usize) -> usize {
    if c == usize::MAX {
        c
    } else {
        (c + 1) as usize
    }
}

/// Whether a task whose counter held `c` before the tick is due this tick.
pub open spec fn task_due(c: usize, interval: usize) -> bool {
    sat_inc(c) >= interval
}

/// Counter value after one tick: reset on a completed due run, otherwise
/// just the increment — an incomplete due task keeps its accumulated ticks
/// and is retried on the very next tick.
pub open spec fn tick_counter(c: usize, interval: usize, completed: bool) -> usize {
    if task_due(c, interval) && completed {
        0
    } else {
        sat_inc(c)
    }
}

/// Ticks between runs for a task of rate `task_rate` under base rate
/// `base`: integer division, clamped to at least one so that a task faster
/// than the base rate simply runs on every tick instead of starving.
pub open spec fn spec_interval(base: usize, task_rate: usize) -> usize {
    if base / task_rate == 0 {
        1
    } else {
        base / task_rate
    }
}

/// Counter of an always-completing task with interval `k` after `n` ticks.
pub open spec fn counter_after(n: nat, k: usize) -> usize
    decreases n,
{
    if n == 0 {
        0
    } else {
        tick_counter(counter_after((n - 1) as nat, k), k, true)
    }
}

/// How many of the first `n` ticks an always-completing task with interval
/// `k` was due on.
pub open spec fn runs_after(n: nat, k: usize) -> nat
    decreases n,
{
    if n == 0 {
        0
    } else {
        runs_after((n - 1) as nat, k) + if task_due(counter_after((n - 1) as nat, k), k) {
            1nat
        } else {
            0nat
        }
    }
}

/// The three callback phases of one scheduler tick.
pub enum Phase {
    Pre,
    Run,
    Post,
}

/// The indices below `upto` marked due, in ascending order.
pub open spec fn due_indices(due: Seq<bool>, upto: int) -> Seq<int>
    decreases upto,
{
    if upto <= 0 {
        Seq::empty()
    } else if due[upto - 1] {
        due_indices(due, upto - 1).push(upto - 1)
    } else {
        due_indices(due, upto - 1)
    }
}

/// Which tasks one tick makes due, given their bookkeeping before the tick.
pub open spec fn due_flags(infos: Seq<TaskInfo>) -> Seq<bool> {
    Seq::new(infos.len(), |j: int| task_due(infos[j].counter, infos[j].interval))
}

/// One phase's callbacks: the given phase on each listed task, in order.
pub open spec fn phase_calls(phase: Phase, due: Seq<int>) -> Seq<(Phase, int)> {
    due.map_values(|j: int| (phase, j))
}

/// The callbacks of one non-reentrant tick: `pre_schedule` of every due
/// task in registration order, then their `schedule` calls in the same
/// order, then their `post_schedule` calls — the phases never interleave,
/// and tasks not due receive no callback.
pub open spec fn tick_calls(infos: Seq<TaskInfo>) -> Seq<(Phase, int)> {
    let due = due_indices(due_flags(infos), infos.len() as int);
    phase_calls(Phase::Pre, due) + phase_calls(Phase::Run, due) + phase_calls(Phase::Post, due)
}

/// Appending one due task to a phase's callback record.
proof fn lemma_calls_step(base: Seq<(Phase, int)>, phase: Phase, due: Seq<bool>, i: int)
    requires
        0 <= i < due.len(),
        due[i],
    ensures
        base + phase_calls(phase, due_indices(due, i + 1)) == (base + phase_calls(
            phase,
            due_indices(due, i),
        )).push((phase, i)),
{
    assert(due_indices(due, i + 1) == due_indices(due, i).push(i));
    assert(base + phase_calls(phase, due_indices(due, i).push(i)) =~= (base + phase_calls(
        phase,
        due_indices(due, i),
    )).push((phase, i)));
}

/// Holds an ordered set of tasks, each with its bookkeeping; converts one
/// base tick into per-task invocation decisions.
pub struct Scheduler<T: Schedulable> {
    pub schedulables: Vec<T>,
    pub rate: Rate,
    pub task_infos: Vec<TaskInfo>,
    pub running: bool,
    /// Record of every callback this scheduler has issued, in order; an
    /// entry is appended beside each `pre_schedule`, `schedule` and
    /// `post_schedule` call the tick makes, so contracts can speak of which
    /// callbacks ran, and in what order.
    pub calls: Ghost<Seq<(Phase, int)>>,
}

impl<T: Schedulable> Scheduler<T> {
    pub open spec fn wf(&self) -> bool {
        &&& self.task_infos@.len() == self.schedulables@.len()
        &&& forall|i: int|
            0 <= i < self.task_infos@.len() ==> (#[trigger] self.task_infos@[i]).interval >= 1
        &&& forall|i: int|
            0 <= i < self.schedulables@.len() ==> (#[trigger] self.schedulables@[i]).inv()
    }

    /// Register `schedulables` in order under base rate `rate`.  Tasks whose
    /// rate exceeds the base rate are clamped to an interval of one tick.
    pub fn new(schedulables: Vec<T>, rate: Rate) -> (r: Self)
        requires
            forall|i: int|
                0 <= i < schedulables@.len() ==> (#[trigger] schedulables@[i]).inv(),
            forall|i: int|
                0 <= i < schedulables@.len() ==> (#[trigger] schedulables@[i]).rate_spec() > 0,
        ensures
            r.wf(),
            !r.running,
            r.rate == rate,
            r.schedulables == schedulables,
            forall|i: int|
                0 <= i < schedulables@.len() ==> (#[trigger] r.task_infos@[i]).counter == 0
                    && r.task_infos@[i].interval == spec_interval(
                    rate,
                    schedulables@[i].rate_spec(),
                ),
            r.calls@ == Seq::<(Phase, int)>::empty(),
    {
        let mut task_infos: Vec<TaskInfo> = Vec::new();
        let mut i: usize = 0;
        while i < schedulables.len()
            invariant
                i <= schedulables@.len(),
                task_infos@.len() == i,
                forall|j: int|
                    0 <= j < schedulables@.len() ==> (#[trigger] schedulables@[j]).inv(),
                forall|j: int|
                    0 <= j < schedulables@.len() ==> (#[trigger] schedulables@[j]).rate_spec() > 0,
                forall|j: int|
                    0 <= j < i ==> (#[trigger] task_infos@[j]).counter == 0
                        && task_infos@[j].interval == spec_interval(
                        rate,
                        schedulables@[j].rate_spec(),
                    ),
            decreases schedulables@.len() - i,
        {
            let task_rate = schedulables[i].rate();
            let quotient = rate / task_rate;
            let interval = if quotient == 0 {
                1
            } else {
                quotient
            };
            task_infos.push(TaskInfo { counter: 0, interval });
            i = i + 1;
        }
        Self { schedulables, rate, task_infos, running: false, calls: Ghost(Seq::empty()) }
    }

    /// One scheduler tick.  A re-entered call — the running guard is still
    /// set — reports success at once, leaving every task and counter
    /// untouched, so no task can be invoked twice for one tick.  Otherwise
    /// every counter takes the tick, the due tasks are selected, and the due
    /// set runs its three phases in registration order; a due task's counter
    /// resets only when its `schedule` reports completion.  The callbacks
    /// issued are exactly `tick_calls` of the bookkeeping at entry, appended
    /// to the call record.
    pub fn schedule(&mut self) -> (r: bool)
        requires
            old(self).wf(),
        ensures
            r,
            final(self).wf(),
            final(self).rate == old(self).rate,
            old(self).running ==> *final(self) == *old(self),
            !old(self).running ==> {
                &&& !final(self).running
                &&& final(self).schedulables@.len() == old(self).schedulables@.len()
                &&& final(self).task_infos@.len() == old(self).task_infos@.len()
                &&& final(self).calls@ == old(self).calls@ + tick_calls(old(self).task_infos@)
                &&& forall|i: int|
                    0 <= i < old(self).schedulables@.len() ==> (#[trigger] final(
                        self).schedulables@[i]).rate_spec() == old(
                        self).schedulables@[i].rate_spec()
                &&& forall|i: int|
                    0 <= i < old(self).task_infos@.len() ==> {
                        let c = old(self).task_infos@[i].counter;
                        let iv = old(self).task_infos@[i].interval;
                        &&& (#[trigger] final(self).task_infos@[i]).interval == iv
                        &&& final(self).task_infos@[i].counter == tick_counter(
                            c,
                            iv,
                            old(self).schedulables@[i].done(),
                        )
                        &&& (!task_due(c, iv) ==> final(self).schedulables@[i] == old(
                            self,
                        ).schedulables@[i])
                    }
            },
    {
        if self.running {
            return true;
        }
        self.running = true;
        let ghost g0 = *self;
        let n = self.schedulables.len();

        let mut due: Vec<bool> = Vec::new();
        let mut i: usize = 0;
        while i < n
            invariant
                g0.wf(),
                n == g0.schedulables@.len(),
                i <= n,
                due@.len() == i,
                self.running,
                self.rate == g0.rate,
                self.schedulables == g0.schedulables,
                self.calls == g0.calls,
                self.task_infos@.len() == n,
                forall|j: int|
                    0 <= j < i ==> (#[trigger] self.task_infos@[j]).counter == sat_inc(
                        g0.task_infos@[j].counter,
                    ) && self.task_infos@[j].interval == g0.task_infos@[j].interval,
                forall|j: int| i <= j < n ==> self.task_infos@[j] == g0.task_infos@[j],
                forall|j: int|
                    0 <= j < i ==> due@[j] == task_due(
                        g0.task_infos@[j].counter,
                        g0.task_infos@[j].interval,
                    ),
            decreases n - i,
        {
            let c = self.task_infos[i].counter;
            let c2 = c.saturating_add(1);
            self.task_infos[i].counter = c2;
            due.push(c2 >= self.task_infos[i].interval);
            i = i + 1;
        }
        let ghost g1 = *self;
        proof {
            assert(phase_calls(Phase::Pre, due_indices(due@, 0)) =~= Seq::<(Phase, int)>::empty());
            assert(g0.calls@ + Seq::<(Phase, int)>::empty() =~= g0.calls@);
        }

        i = 0;
        while i < n
            invariant
                g0.wf(),
                g1.wf(),
                n == g0.schedulables@.len(),
                i <= n,
                due@.len() == n,
                self.running == g1.running,
                self.rate == g1.rate,
                self.task_infos == g1.task_infos,
                self.schedulables@.len() == n,
                g1.schedulables == g0.schedulables,
                g1.calls == g0.calls,
                self.calls@ == g0.calls@ + phase_calls(Phase::Pre, due_indices(due@, i as int)),
                forall|j: int|
                    0 <= j < n ==> (#[trigger] self.schedulables@[j]).inv()
                        && self.schedulables@[j].done() == g0.schedulables@[j].done()
                        && self.schedulables@[j].rate_spec() == g0.schedulables@[j].rate_spec(),
                forall|j: int|
                    0 <= j < n && (j >= i || !due@[j]) ==> (#[trigger] self.schedulables@[j]) == g0.schedulables@[j],
            decreases n - i,
        {
            if due[i] {
                let task = &mut self.schedulables[i];
                task.pre_schedule();
                proof {
                    lemma_calls_step(g0.calls@, Phase::Pre, due@, i as int);
                    self.calls@ = self.calls@.push((Phase::Pre, i as int));
                }
            }
            i = i + 1;
        }
        let ghost pre_calls = self.calls@;
        proof {
            assert(phase_calls(Phase::Run, due_indices(due@, 0)) =~= Seq::<(Phase, int)>::empty());
            assert(pre_calls + Seq::<(Phase, int)>::empty() =~= pre_calls);
        }

        i = 0;
        while i < n
            invariant
                g0.wf(),
                g1.wf(),
                n == g0.schedulables@.len(),
                i <= n,
                due@.len() == n,
                self.running == g1.running,
                self.rate == g1.rate,
                self.task_infos@.len() == n,
                self.schedulables@.len() == n,
                g1.task_infos@.len() == n,
                g1.schedulables == g0.schedulables,
                forall|j: int|
                    0 <= j < n ==> (#[trigger] g1.task_infos@[j]).counter == sat_inc(
                        g0.task_infos@[j].counter,
                    ) && g1.task_infos@[j].interval == g0.task_infos@[j].interval,
                forall|j: int|
                    0 <= j < n ==> due@[j] == task_due(
                        g0.task_infos@[j].counter,
                        g0.task_infos@[j].interval,
                    ),
                self.calls@ == pre_calls + phase_calls(Phase::Run, due_indices(due@, i as int)),
                pre_calls == g0.calls@ + phase_calls(Phase::Pre, due_indices(due@, n as int)),
                forall|j: int|
                    0 <= j < n ==> (#[trigger] self.schedulables@[j]).inv()
                        && self.schedulables@[j].rate_spec() == g0.schedulables@[j].rate_spec(),
                forall|j: int|
                    i <= j < n ==> (#[trigger] self.schedulables@[j]).done()
                        == g0.schedulables@[j].done(),
                forall|j: int|
                    0 <= j < n && (j >= i || !due@[j]) ==> (#[trigger] self.task_infos@[j])
                        == g1.task_infos@[j],
                forall|j: int|
                    0 <= j < i ==> (#[trigger] self.task_infos@[j]).interval
                        == g0.task_infos@[j].interval && self.task_infos@[j].counter
                        == tick_counter(
                        g0.task_infos@[j].counter,
                        g0.task_infos@[j].interval,
                        g0.schedulables@[j].done(),
                    ),
                forall|j: int|
                    0 <= j < n && !due@[j] ==> (#[trigger] self.schedulables@[j])
                        == g0.schedulables@[j],
            decreases n - i,
        {
            if due[i] {
                let task = &mut self.schedulables[i];
                let completed = task.schedule();
                proof {
                    lemma_calls_step(pre_calls, Phase::Run, due@, i as int);
                    self.calls@ = self.calls@.push((Phase::Run, i as int));
                }
                if completed {
                    self.task_infos[i].counter = 0;
                }
            }
            i = i + 1;
        }
        let ghost g2 = *self;
        let ghost run_calls = self.calls@;
        proof {
            assert(phase_calls(Phase::Post, due_indices(due@, 0)) =~= Seq::<(Phase, int)>::empty());
            assert(run_calls + Seq::<(Phase, int)>::empty() =~= run_calls);
        }

        i = 0;
        while i < n
            invariant
                n == g0.schedulables@.len(),
                i <= n,
                due@.len() == n,
                self.running == g2.running,
                self.rate == g2.rate,
                self.task_infos == g2.task_infos,
                self.schedulables@.len() == n,
                self.calls@ == run_calls + phase_calls(Phase::Post, due_indices(due@, i as int)),
                run_calls == g0.calls@ + phase_calls(Phase::Pre, due_indices(due@, n as int))
                    + phase_calls(Phase::Run, due_indices(due@, n as int)),
                forall|j: int|
                    0 <= j < n ==> (#[trigger] self.schedulables@[j]).inv()
                        && self.schedulables@[j].rate_spec() == g2.schedulables@[j].rate_spec(),
                forall|j: int|
                    0 <= j < n && !due@[j] ==> (#[trigger] self.schedulables@[j])
                        == g0.schedulables@[j],
            decreases n - i,
        {
            if due[i] {
                let task = &mut self.schedulables[i];
                task.post_schedule();
                proof {
                    lemma_calls_step(run_calls, Phase::Post, due@, i as int);
                    self.calls@ = self.calls@.push((Phase::Post, i as int));
                }
            }
            i = i + 1;
        }
        proof {
            assert(due@ =~= due_flags(g0.task_infos@));
            assert(self.calls@ =~= g0.calls@ + tick_calls(g0.task_infos@));
        }
        self.running = false;
        true
    }
}

/// A scheduler is itself a schedulable task, so scheduling trees compose:
/// its rate is its base rate and every tick of it completes.
impl<T: Schedulable> Schedulable for Scheduler<T> {
    open spec fn inv(&self) -> bool {
        self.wf()
    }

    open spec fn rate_spec(&self) -> Rate {
        self.rate
    }

    open spec fn done(&self) -> bool {
        true
    }

    fn pre_schedule(&mut self) {
    }

    fn schedule(&mut self) -> (r: bool) {
        Scheduler::schedule(self)
    }

    fn post_schedule(&mut self) {
    }

    fn rate(&self) -> Rate {
        self.rate
    }
}

/// Law: under base rate `k * r` a task of rate `r` gets interval `k`; so
/// two tasks of one rate registered together share every due tick and, by
/// the order `schedule` walks the due set, run in registration order.
pub proof fn lemma_equal_rate_interval(k: usize, r: usize)
    requires
        1 <= k,
        1 <= r,
        k * r <= usize::MAX,
    ensures
        spec_interval((k * r) as usize, r) == k,
{
    lemma_mul_is_commutative(k as int, r as int);
    vstd::arithmetic::div_mod::lemma_div_multiples_vanish(k as int, r as int);
}

/// Law: a task with interval `k` whose runs always complete is due exactly
/// on every `k`-th tick — its counter after `n` ticks is `n % k` — and over
/// the first `n` ticks it has run exactly `n / k` times.
pub proof fn lemma_task_period(n: nat, k: usize)
    requires
        k >= 1,
    ensures
        counter_after(n, k) == n % (k as nat),
        runs_after(n, k) == n / (k as nat),
    decreases n,
{
    if n == 0 {
        assert(0nat % (k as nat) == 0) by {
            lemma_mod_bound(0, k as int);
        }
    } else {
        let m = (n - 1) as nat;
        lemma_task_period(m, k);
        lemma_fundamental_div_mod(m as int, k as int);
        lemma_mod_bound(m as int, k as int);
        let q = m as int / k as int;
        let r = m as int % k as int;
        if r == k - 1 {
            assert((q + 1) * (k as int) == q * (k as int) + k) by (nonlinear_arith);
            lemma_fundamental_div_mod_converse_mod(n as int, k as int, q + 1, 0);
            lemma_fundamental_div_mod_converse_div(n as int, k as int, q + 1, 0);
        } else {
            lemma_fundamental_div_mod_converse_mod(n as int, k as int, q, r + 1);
            lemma_fundamental_div_mod_converse_div(n as int, k as int, q, r + 1);
        }
    }
}

/// A due set in which every task is due lists every index, in ascending
/// registration order.
proof fn lemma_due_indices_all(due: Seq<bool>, upto: int)
    requires
        0 <= upto <= due.len(),
        forall|j: int| 0 <= j < upto ==> due[j],
    ensures
        due_indices(due, upto) =~= Seq::new(upto as nat, |i: int| i),
    decreases upto,
{
    if upto > 0 {
        lemma_due_indices_all(due, upto - 1);
        assert(due_indices(due, upto) =~= Seq::new(upto as nat, |i: int| i));
    }
}

/// Law: take tasks that all share interval `k` and have ticked `n` times
/// from fresh bookkeeping, always completing.  On the next tick either all
/// of them are due — exactly when the tick number `n + 1` is a multiple of
/// `k` — or none is; and on a due tick the callback record grows by every
/// task in registration order, three phases in turn, so equal-rate tasks
/// run once every `k`-th tick, in registration order.
pub proof fn lemma_equal_rate_tick(infos: Seq<TaskInfo>, k: usize, n: nat)
    requires
        k >= 1,
        forall|i: int|
            0 <= i < infos.len() ==> (#[trigger] infos[i]).interval == k && infos[i].counter
                == counter_after(n, k),
    ensures
        forall|i: int|
            0 <= i < infos.len() ==> (#[trigger] due_flags(infos)[i]) == ((n + 1) % (k as nat)
                == 0),
        (n + 1) % (k as nat) == 0 ==> tick_calls(infos) == phase_calls(
            Phase::Pre,
            Seq::new(infos.len(), |i: int| i),
        ) + phase_calls(Phase::Run, Seq::new(infos.len(), |i: int| i)) + phase_calls(
            Phase::Post,
            Seq::new(infos.len(), |i: int| i),
        ),
        (n + 1) % (k as nat) != 0 ==> tick_calls(infos) == Seq::<(Phase, int)>::empty(),
{
    lemma_task_period(n, k);
    lemma_fundamental_div_mod(n as int, k as int);
    lemma_mod_bound(n as int, k as int);
    let c = counter_after(n, k);
    let q = n as int / k as int;
    if c == k - 1 {
        assert((q + 1) * (k as int) == q * (k as int) + k) by (nonlinear_arith);
        lemma_fundamental_div_mod_converse_mod((n + 1) as int, k as int, q + 1, 0);
    } else {
        lemma_fundamental_div_mod_converse_mod((n + 1) as int, k as int, q, c + 1);
    }
    let due = due_flags(infos);
    if (n + 1) % (k as nat) == 0 {
        lemma_due_indices_all(due, infos.len() as int);
        assert(due_indices(due, infos.len() as int) == Seq::new(infos.len(), |i: int| i));
    } else {
        assert(due_indices(due, infos.len() as int) =~= Seq::<int>::empty()) by {
            lemma_due_indices_none(due, infos.len() as int);
        }
        assert(phase_calls(Phase::Pre, Seq::<int>::empty()) =~= Seq::<(Phase, int)>::empty());
        assert(tick_calls(infos) =~= Seq::<(Phase, int)>::empty());
    }
}

/// A due set in which no task is due lists nothing.
proof fn lemma_due_indices_none(due: Seq<bool>, upto: int)
    requires
        0 <= upto <= due.len(),
        forall|j: int| 0 <= j < upto ==> !due[j],
    ensures
        due_indices(due, upto) =~= Seq::<int>::empty(),
    decreases upto,
{
    if upto > 0 {
        lemma_due_indices_none(due, upto - 1);
    }
}

/// Law: a due task whose `schedule` reports incompletion keeps its
/// accumulated ticks — the counter is not reset — so it is due again on the
/// very next tick instead of waiting out a full interval.
pub proof fn lemma_incomplete_task_retried(c: usize, interval: usize)
    requires
        task_due(c, interval),
    ensures
        tick_counter(c, interval, false) == sat_inc(c),
        task_due(tick_counter(c, interval, false), interval),
{
}

} // verus!
