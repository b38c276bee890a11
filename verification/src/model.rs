//! The executor as a mathematical state: a ready queue of task numbers, one
//! computation slot per task, and how often each task was polled. Every
//! operation of the executor is a function on this state.

use crate::task::{Computation, PollOutcome, Request};
use vstd::prelude::*;

verus! {

/// The state of an executor.
pub struct ExecutorView<C> {
    /// The tasks believed runnable, the next one to poll first.
    pub ready: Seq<usize>,
    /// One slot per task, in the order the tasks were spawned. A slot holds
    /// the computation, or nothing once the computation has completed (or
    /// while it is out for a poll).
    pub slots: Seq<Option<C>>,
    /// For each task, the number of polls it has been given.
    pub polls: Seq<nat>,
}

/// What one poll came back with: what it left of the computation, what it
/// reported, and the requests it made.
pub struct Polled<C> {
    pub after: C,
    pub outcome: PollOutcome,
    pub log: Seq<Request<C>>,
}

impl<C> ExecutorView<C> {
    /// Every queued number names a task, and every task has a poll count.
    pub open spec fn wf(self) -> bool {
        &&& self.polls.len() == self.slots.len()
        &&& forall|i: int| 0 <= i < self.ready.len() ==> (#[trigger] self.ready[i]) < self.slots.len()
    }

    /// The state of a new executor: no task, nothing queued.
    pub open spec fn empty() -> Self {
        ExecutorView { ready: Seq::empty(), slots: Seq::empty(), polls: Seq::empty() }
    }

    /// Whether `task` names a task whose computation is in its slot.
    pub open spec fn is_live(self, task: usize) -> bool {
        task < self.slots.len() && self.slots[task as int] is Some
    }

    /// Whether some task still has its computation.
    pub open spec fn has_live(self) -> bool {
        exists|t: int| 0 <= t < self.slots.len() && (#[trigger] self.slots[t]) is Some
    }

    /// Submitting `c`: it becomes the task with the next number, unpolled,
    /// at the back of the ready queue.
    pub open spec fn spawn(self, c: C) -> Self {
        ExecutorView {
            ready: self.ready.push(self.slots.len() as usize),
            slots: self.slots.push(Some(c)),
            polls: self.polls.push(0),
        }
    }

    /// Waking `task`: one more entry at the back of the ready queue. A
    /// number that names no task is ignored.
    pub open spec fn wake(self, task: usize) -> Self {
        if task < self.slots.len() {
            ExecutorView { ready: self.ready.push(task), ..self }
        } else {
            self
        }
    }

    /// Taking the front entry off the ready queue. Where its task is live,
    /// the computation leaves the slot to be polled and the poll is counted;
    /// a stale entry is dropped and nothing else changes.
    pub open spec fn take(self) -> Self
        recommends
            self.ready.len() > 0,
    {
        let task = self.ready[0];
        if self.is_live(task) {
            ExecutorView {
                ready: self.ready.skip(1),
                slots: self.slots.update(task as int, None),
                polls: self.polls.update(task as int, self.polls[task as int] + 1),
            }
        } else {
            ExecutorView { ready: self.ready.skip(1), ..self }
        }
    }

    /// After a poll of `task` that left the computation as `c`: a suspended
    /// computation returns to its slot, a complete one is discarded.
    pub open spec fn put_back(self, task: usize, c: C, outcome: PollOutcome) -> Self {
        if outcome is Suspended && task < self.slots.len() {
            ExecutorView { slots: self.slots.update(task as int, Some(c)), ..self }
        } else {
            self
        }
    }

    /// Granting one request made during a poll of `task`.
    pub open spec fn request(self, task: usize, r: Request<C>) -> Self {
        match r {
            Request::Wake => self.wake(task),
            Request::Spawn(c) => self.spawn(c),
        }
    }

    /// Granting the requests of `log`, oldest first.
    pub open spec fn apply(self, task: usize, log: Seq<Request<C>>) -> Self
        decreases log.len(),
    {
        if log.len() == 0 {
            self
        } else {
            self.request(task, log[0]).apply(task, log.skip(1))
        }
    }

    /// Settling a poll of `task`: the computation is put back or discarded,
    /// then the requests it made are granted in the order it made them.
    pub open spec fn settle(self, task: usize, c: C, outcome: PollOutcome, log: Seq<Request<C>>) -> Self {
        self.put_back(task, c, outcome).apply(task, log)
    }

    /// One turn of the run loop on a live front task, given what the poll
    /// came back with.
    pub open spec fn turn(self, c: C, outcome: PollOutcome, log: Seq<Request<C>>) -> Self
        recommends
            self.ready.len() > 0,
    {
        self.take().settle(self.ready[0], c, outcome, log)
    }

    /// One step of the run loop, where the poll, if there is one, comes back
    /// with `polled`: nothing happens while nothing is ready, a live front
    /// task has its turn, and a stale entry is dropped.
    pub open spec fn step(self, polled: Polled<C>) -> Self {
        if self.ready.len() == 0 {
            self
        } else if self.is_live(self.ready[0]) {
            self.turn(polled.after, polled.outcome, polled.log)
        } else {
            self.take()
        }
    }

    /// One step of the run loop for each entry of `polls`.
    pub open spec fn steps(self, polls: Seq<Polled<C>>) -> Self
        decreases polls.len(),
    {
        if polls.len() == 0 {
            self
        } else {
            self.step(polls[0]).steps(polls.skip(1))
        }
    }
}

/// Steps compose: one more step after a run of steps is a run of steps.
pub proof fn lemma_steps_push<C>(m: ExecutorView<C>, polls: Seq<Polled<C>>, last: Polled<C>)
    ensures
        m.steps(polls.push(last)) == m.steps(polls).step(last),
    decreases polls.len(),
{
    if polls.len() == 0 {
        assert(polls.push(last).skip(1) =~= Seq::<Polled<C>>::empty());
        assert(m.step(last).steps(polls.push(last).skip(1)) == m.step(last));
    } else {
        assert(polls.push(last).skip(1) =~= polls.skip(1).push(last));
        lemma_steps_push(m.step(polls[0]), polls.skip(1), last);
    }
}

/// The budget that a slot holds: that of its computation, if it has one.
pub open spec fn slot_budget<C: Computation>(slot: Option<C>) -> nat {
    match slot {
        Some(c) => c.budget(),
        None => 0,
    }
}

/// The sum of the budgets of the computations in `slots`.
pub open spec fn total_budget<C: Computation>(slots: Seq<Option<C>>) -> nat
    decreases slots.len(),
{
    if slots.len() == 0 {
        0
    } else {
        total_budget(slots.drop_last()) + slot_budget(slots.last())
    }
}

impl<C: Computation> ExecutorView<C> {
    /// The work that is still owed: the queue entries to take, and the
    /// requests that the live computations may still make.
    pub open spec fn load(self) -> nat {
        total_budget(self.slots) + self.ready.len()
    }

    /// Whether the next step may come back with `polled`: where the front
    /// task is live, `polled` is what a poll of its computation may come
    /// to, within the budget of that computation. Where no poll is due,
    /// anything is admitted, since nothing of it is used.
    pub open spec fn admits(self, polled: Polled<C>) -> bool {
        self.ready.len() > 0 && self.is_live(self.ready[0]) ==> {
            let before = self.slots[self.ready[0] as int]->0;
            &&& before.advances(polled.after, polled.outcome, polled.log)
            &&& crate::task::log_cost(polled.log, |c: C| c.budget()) + (if polled.outcome
                is Suspended {
                polled.after.budget()
            } else {
                0
            }) <= before.budget()
        }
    }

    /// Whether each of the steps may come back with its entry of `polls`.
    pub open spec fn admits_all(self, polls: Seq<Polled<C>>) -> bool
        decreases polls.len(),
    {
        polls.len() == 0 || (self.admits(polls[0]) && self.step(polls[0]).admits_all(
            polls.skip(1),
        ))
    }
}

/// Admitted steps compose: one more admitted step after a run of admitted
/// steps is a run of admitted steps.
pub proof fn lemma_admits_push<C: Computation>(
    m: ExecutorView<C>,
    polls: Seq<Polled<C>>,
    last: Polled<C>,
)
    requires
        m.admits_all(polls),
        m.steps(polls).admits(last),
    ensures
        m.admits_all(polls.push(last)),
    decreases polls.len(),
{
    if polls.len() == 0 {
        assert(polls.push(last).skip(1) =~= Seq::<Polled<C>>::empty());
        assert(m.step(last).admits_all(polls.push(last).skip(1)));
    } else {
        assert(polls.push(last).skip(1) =~= polls.skip(1).push(last));
        lemma_admits_push(m.step(polls[0]), polls.skip(1), last);
    }
}

/// Replacing one slot changes the total budget by the difference of the two.
pub proof fn lemma_total_budget_update<C: Computation>(slots: Seq<Option<C>>, i: int, slot: Option<C>)
    requires
        0 <= i < slots.len(),
    ensures
        total_budget(slots.update(i, slot)) + slot_budget(slots[i]) == total_budget(slots)
            + slot_budget(slot),
    decreases slots.len(),
{
    if i == slots.len() - 1 {
        assert(slots.update(i, slot).drop_last() =~= slots.drop_last());
    } else {
        assert(slots.update(i, slot).drop_last() =~= slots.drop_last().update(i, slot));
        lemma_total_budget_update(slots.drop_last(), i, slot);
    }
}

/// A new slot adds its budget to the total.
pub proof fn lemma_total_budget_push<C: Computation>(slots: Seq<Option<C>>, slot: Option<C>)
    ensures
        total_budget(slots.push(slot)) == total_budget(slots) + slot_budget(slot),
{
    assert(slots.push(slot).drop_last() =~= slots);
}

/// Granting a log of requests keeps the state well-formed and leaves what
/// was there in place: the queue and the slots only grow at the back, and
/// what is new is live, unpolled and queued.
pub proof fn lemma_apply_frame<C>(m: ExecutorView<C>, task: usize, log: Seq<Request<C>>)
    requires
        m.wf(),
    ensures
        m.apply(task, log).wf(),
        m.ready.is_prefix_of(m.apply(task, log).ready),
        m.slots.is_prefix_of(m.apply(task, log).slots),
        m.polls.is_prefix_of(m.apply(task, log).polls),
        newly_queued(m, m.apply(task, log)),
    decreases log.len(),
{
    if log.len() > 0 {
        let next = m.request(task, log[0]);
        lemma_apply_frame(next, task, log.skip(1));
        let n = m.apply(task, log);
        assert forall|t: int| m.slots.len() <= t < n.slots.len() implies (#[trigger] n.slots[t]) is Some
            && n.polls[t] == 0 && n.ready.contains(t as usize) by {
            if t < next.slots.len() {
                assert(next.slots[t] is Some);
                assert(n.slots[t] == next.slots[t]);
                assert(n.polls[t] == next.polls[t]);
                let last = next.ready.len() - 1;
                assert(next.ready[last] == t as usize);
                assert(n.ready[last] == t as usize);
            }
        }
    }
}

/// Granting a log of requests adds at most the cost of the log to the load.
pub proof fn lemma_apply_load<C: Computation>(m: ExecutorView<C>, task: usize, log: Seq<Request<C>>)
    requires
        m.wf(),
    ensures
        m.apply(task, log).load() <= m.load() + crate::task::log_cost(log, |c: C| c.budget()),
    decreases log.len(),
{
    if log.len() > 0 {
        let next = m.request(task, log[0]);
        match log[0] {
            Request::Wake => {},
            Request::Spawn(c) => {
                lemma_total_budget_push(m.slots, Some(c));
            },
        }
        assert(next.load() <= m.load() + crate::task::request_cost(log[0], |c: C| c.budget()));
        lemma_apply_load(next, task, log.skip(1));
    }
}

/// Every task that `n` has and `m` had not is in `n` as a spawn leaves it:
/// live, not yet polled, and queued.
pub open spec fn newly_queued<C>(m: ExecutorView<C>, n: ExecutorView<C>) -> bool {
    forall|t: int|
        m.slots.len() <= t < n.slots.len() ==> (#[trigger] n.slots[t]) is Some && n.polls[t] == 0
            && n.ready.contains(t as usize)
}

/// One turn on a live front task keeps the state well-formed. It polls the
/// front task once more and no other; every other task keeps its slot; and
/// what was queued behind the front stays queued, in its order, ahead of
/// whatever the turn has added.
pub proof fn lemma_turn_frame<C>(
    m: ExecutorView<C>,
    after: C,
    outcome: PollOutcome,
    log: Seq<Request<C>>,
)
    requires
        m.wf(),
        m.ready.len() > 0,
        m.is_live(m.ready[0]),
    ensures
        m.turn(after, outcome, log).wf(),
        m.ready.skip(1).is_prefix_of(m.turn(after, outcome, log).ready),
        turn_frame(m, m.turn(after, outcome, log)),
        newly_queued(m, m.turn(after, outcome, log)),
        m.turn(after, outcome, log).is_live(m.ready[0]) == (outcome is Suspended),
{
    let task = m.ready[0];
    let taken = m.take();
    let put = taken.put_back(task, after, outcome);
    assert(taken.wf());
    assert(put.wf());
    lemma_apply_frame(put, task, log);
    let n = m.turn(after, outcome, log);
    assert(n == put.apply(task, log));
    assert forall|t: int| 0 <= t < put.slots.len() implies #[trigger] n.slots[t] == put.slots[t] by {}
    assert forall|t: int| 0 <= t < put.polls.len() implies #[trigger] n.polls[t] == put.polls[t] by {}
}

/// One turn on a live front task lowers the load, provided the poll kept to
/// the budget of its computation.
pub proof fn lemma_turn_load<C: Computation>(
    m: ExecutorView<C>,
    before: C,
    after: C,
    outcome: PollOutcome,
    log: Seq<Request<C>>,
)
    requires
        m.wf(),
        m.ready.len() > 0,
        m.slots[m.ready[0] as int] == Some(before),
        crate::task::log_cost(log, |c: C| c.budget()) + (if outcome is Suspended {
            after.budget()
        } else {
            0
        }) <= before.budget(),
    ensures
        m.turn(after, outcome, log).load() < m.load(),
{
    let task = m.ready[0];
    let taken = m.take();
    let put = taken.put_back(task, after, outcome);
    assert(taken.wf());
    assert(put.wf());
    lemma_total_budget_update(m.slots, task as int, None);
    if outcome is Suspended {
        lemma_total_budget_update(taken.slots, task as int, Some(after));
    }
    lemma_apply_load(put, task, log);
}

/// What a turn on the front task of `m` leaves in place: no task is lost,
/// the front task has one poll more, and every other task has the slot and
/// the poll count it had.
pub open spec fn turn_frame<C>(m: ExecutorView<C>, n: ExecutorView<C>) -> bool
    recommends
        m.ready.len() > 0,
{
    &&& m.slots.len() <= n.slots.len()
    &&& n.polls[m.ready[0] as int] == m.polls[m.ready[0] as int] + 1
    &&& forall|t: int|
        0 <= t < m.slots.len() && t != m.ready[0] ==> #[trigger] n.slots[t] == m.slots[t]
    &&& forall|t: int|
        0 <= t < m.slots.len() && t != m.ready[0] ==> #[trigger] n.polls[t] == m.polls[t]
}

/// What holds between the state before and the state after any number of
/// whole turns: tasks are only added; poll counts only grow; and a task
/// whose slot was empty keeps it empty and is not polled again.
pub open spec fn follows<C>(m: ExecutorView<C>, n: ExecutorView<C>) -> bool {
    &&& m.slots.len() <= n.slots.len()
    &&& forall|t: int| 0 <= t < m.slots.len() ==> m.polls[t] <= #[trigger] n.polls[t]
    &&& forall|t: int|
        0 <= t < m.slots.len() && m.slots[t] is None ==> #[trigger] n.slots[t] is None
    &&& forall|t: int|
        0 <= t < m.slots.len() && m.slots[t] is None ==> #[trigger] n.polls[t] == m.polls[t]
}

/// Whatever is queued is either at the front or still queued once the front
/// is taken.
pub proof fn lemma_skip_keeps_queued<C>(m: ExecutorView<C>)
    requires
        m.ready.len() > 0,
    ensures
        forall|task: usize|
            m.ready.contains(task) ==> task == m.ready[0] || m.ready.skip(1).contains(task),
{
    assert forall|task: usize| m.ready.contains(task) && task != m.ready[0] implies m.ready.skip(
        1,
    ).contains(task) by {
        let i = choose|i: int| 0 <= i < m.ready.len() && m.ready[i] == task;
        assert(m.ready.skip(1)[i - 1] == task);
    }
}

} // verus!
