//! What holds of every executor, stated over its mathematical state.

use crate::computations::Script;
use crate::model::{ExecutorView, Polled};
use crate::task::{Computation, PollOutcome, Request};
use vstd::prelude::*;

verus! {

/// The turns of a front task that suspends and asks to be woken, once for
/// each entry of `states`: the entry is what the poll leaves of the
/// computation.
pub open spec fn suspended_turns<C>(m: ExecutorView<C>, states: Seq<C>) -> ExecutorView<C>
    decreases states.len(),
{
    if states.len() == 0 {
        m
    } else {
        suspended_turns(
            m.turn(states[0], PollOutcome::Suspended, seq![Request::Wake]),
            states.skip(1),
        )
    }
}

/// Waking `task` the given number of times.
pub open spec fn woken<C>(m: ExecutorView<C>, task: usize, times: nat) -> ExecutorView<C>
    decreases times,
{
    if times == 0 {
        m
    } else {
        woken(m.wake(task), task, (times - 1) as nat)
    }
}

/// Taking the front entry off the ready queue the given number of times.
pub open spec fn taken<C>(m: ExecutorView<C>, times: nat) -> ExecutorView<C>
    decreases times,
{
    if times == 0 {
        m
    } else {
        taken(m.take(), (times - 1) as nat)
    }
}

/// A computation that is spawned on an idle executor and completes on its
/// first poll is polled exactly once: after that one turn the task is
/// discarded and nothing is ready, so that a run returns.
pub proof fn law_immediate_completion<C>(m: ExecutorView<C>, c: C, after: C)
    requires
        m.wf(),
        m.ready.len() == 0,
        m.slots.len() <= usize::MAX,
    ensures
        ({
            let task = m.slots.len() as usize;
            let n = m.spawn(c).turn(after, PollOutcome::Complete, Seq::empty());
            &&& n.wf()
            &&& n.ready.len() == 0
            &&& n.polls[task as int] == 1
            &&& !n.is_live(task)
            &&& n.slots.len() == m.slots.len() + 1
        }),
{
    let task = m.slots.len() as usize;
    let s = m.spawn(c);
    assert(s.ready =~= seq![task]);
    assert(s.take().ready =~= Seq::<usize>::empty());
}

/// A task that is alone in the ready queue and suspends, asking to be woken,
/// is after each such poll in the ready queue exactly once: the queue holds
/// that one entry and no other. The task stays live, and it has been polled
/// once for each suspension. No other task is touched.
pub proof fn law_suspensions_requeue_once<C>(m: ExecutorView<C>, task: usize, states: Seq<C>)
    requires
        m.wf(),
        m.ready == seq![task],
        m.is_live(task),
    ensures
        ({
            let n = suspended_turns(m, states);
            &&& n.wf()
            &&& n.ready == seq![task]
            &&& n.is_live(task)
            &&& n.polls[task as int] == m.polls[task as int] + states.len()
            &&& n.slots.len() == m.slots.len()
            &&& forall|t: int|
                0 <= t < m.slots.len() && t != task ==> (#[trigger] n.slots[t]) == m.slots[t]
            &&& forall|t: int|
                0 <= t < m.slots.len() && t != task ==> (#[trigger] n.polls[t]) == m.polls[t]
        }),
    decreases states.len(),
{
    if states.len() > 0 {
        let log = seq![Request::<C>::Wake];
        let taken = m.take();
        let put = taken.put_back(task, states[0], PollOutcome::Suspended);
        assert(taken.ready =~= Seq::<usize>::empty());
        assert(log.skip(1) =~= Seq::<Request<C>>::empty());
        assert(put.apply(task, log) == put.wake(task).apply(task, log.skip(1)));
        let next = m.turn(states[0], PollOutcome::Suspended, log);
        assert(next == put.wake(task));
        assert(next.ready =~= seq![task]);
        law_suspensions_requeue_once(next, task, states.skip(1));
        let n = suspended_turns(m, states);
        assert forall|t: int| 0 <= t < m.slots.len() && t != task implies (#[trigger] n.slots[t])
            == m.slots[t] by {
            assert(n.slots[t] == next.slots[t]);
        }
        assert forall|t: int| 0 <= t < m.slots.len() && t != task implies (#[trigger] n.polls[t])
            == m.polls[t] by {
            assert(n.polls[t] == next.polls[t]);
        }
    }
}

/// A computation that suspends `n` times before it completes is polled
/// exactly `n + 1` times: once for each suspension and once to complete.
/// After the last poll it is discarded and no longer queued.
pub proof fn law_polls_are_suspensions_plus_one<C>(
    m: ExecutorView<C>,
    task: usize,
    states: Seq<C>,
    last: C,
)
    requires
        m.wf(),
        m.ready == seq![task],
        m.is_live(task),
    ensures
        ({
            let n = suspended_turns(m, states).turn(last, PollOutcome::Complete, Seq::empty());
            &&& n.wf()
            &&& n.polls[task as int] == m.polls[task as int] + states.len() + 1
            &&& !n.is_live(task)
            &&& n.ready.len() == 0
        }),
{
    law_suspensions_requeue_once(m, task, states);
    let s = suspended_turns(m, states);
    assert(s.take().ready =~= Seq::<usize>::empty());
    let n = s.turn(last, PollOutcome::Complete, Seq::empty());
    assert(n.ready =~= Seq::<usize>::empty());
}

/// Tasks complete in the order of their wakes, not in the order they were
/// spawned: of two parked tasks, the one woken first is polled first, and
/// where that poll completes it, it is discarded while the other is still
/// live and unpolled.
pub proof fn law_wake_order_decides<C>(m: ExecutorView<C>, first: usize, second: usize, after: C)
    requires
        m.wf(),
        m.ready.len() == 0,
        m.is_live(first),
        m.is_live(second),
        first != second,
    ensures
        ({
            let woken = m.wake(first).wake(second);
            let n = woken.turn(after, PollOutcome::Complete, Seq::empty());
            &&& woken.ready == seq![first, second]
            &&& n.wf()
            &&& !n.is_live(first)
            &&& n.polls[first as int] == m.polls[first as int] + 1
            &&& n.is_live(second)
            &&& n.polls[second as int] == m.polls[second as int]
            &&& n.ready == seq![second]
        }),
{
    let woken = m.wake(first).wake(second);
    assert(woken.ready =~= seq![first, second]);
    assert(woken.take().ready =~= seq![second]);
}

/// The ready queue is first in, first out. A wake puts its task behind all
/// that is queued. And whatever the polls come back with, the steps of a run
/// take the queued tasks in their order: after `k` steps the tasks that were
/// queued behind the first `k` are still ahead of everything queued since,
/// so that every task that was ready has its turn before any task that was
/// queued again has its second.
pub proof fn law_first_in_first_out<C>(m: ExecutorView<C>, task: usize, polls: Seq<Polled<C>>)
    requires
        m.wf(),
        polls.len() <= m.ready.len(),
    ensures
        m.ready.is_prefix_of(m.wake(task).ready),
        task < m.slots.len() ==> m.wake(task).ready.last() == task,
        m.steps(polls).wf(),
        m.ready.skip(polls.len() as int).is_prefix_of(m.steps(polls).ready),
        polls.len() < m.ready.len() ==> m.steps(polls).ready[0] == m.ready[polls.len() as int],
    decreases polls.len(),
{
    if polls.len() == 0 {
        assert(m.ready.skip(0) =~= m.ready);
    } else {
        let next = m.step(polls[0]);
        if m.is_live(m.ready[0]) {
            crate::model::lemma_turn_frame(m, polls[0].after, polls[0].outcome, polls[0].log);
        }
        assert(m.ready.skip(1).is_prefix_of(next.ready));
        law_first_in_first_out(next, task, polls.skip(1));
        let k = polls.len() - 1;
        let n = m.steps(polls);
        assert(m.ready.skip(polls.len() as int) =~= m.ready.skip(1).skip(k));
        assert forall|i: int| 0 <= i < m.ready.skip(polls.len() as int).len() implies m.ready.skip(
            polls.len() as int,
        )[i] == n.ready[i] by {
            assert(next.ready.skip(k)[i] == n.ready[i]);
            assert(m.ready.skip(1)[i + k] == next.ready[i + k]);
        }
    }
}

/// Every live task is in the ready queue: none is parked.
pub open spec fn none_parked<C>(m: ExecutorView<C>) -> bool {
    forall|t: usize| m.is_live(t) ==> #[trigger] m.ready.contains(t)
}

/// A wake among the requests of a poll leaves the task in the ready queue.
proof fn lemma_wake_is_granted<C>(m: ExecutorView<C>, task: usize, log: Seq<Request<C>>)
    requires
        m.wf(),
        task < m.slots.len(),
        log.contains(Request::Wake) || m.ready.contains(task),
    ensures
        m.apply(task, log).ready.contains(task),
    decreases log.len(),
{
    if log.len() > 0 {
        let next = m.request(task, log[0]);
        if m.ready.contains(task) {
            let i = choose|i: int| 0 <= i < m.ready.len() && m.ready[i] == task;
            assert(next.ready[i] == task);
        } else if log[0] == Request::<C>::Wake {
            assert(next.ready[m.ready.len() as int] == task);
        } else {
            let i = choose|i: int| 0 <= i < log.len() && log[i] == Request::<C>::Wake;
            assert(log.skip(1)[i - 1] == Request::<C>::Wake);
        }
        crate::model::lemma_apply_frame(m, task, seq![log[0]]);
        assert(seq![log[0]].skip(1) =~= Seq::<Request<C>>::empty());
        assert(m.apply(task, seq![log[0]]) == next.apply(task, Seq::empty()));
        lemma_wake_is_granted(next, task, log.skip(1));
    }
}

/// Where the wakes fire, a run ends with all work done. If no task is
/// parked, and every poll that suspends has asked for its wake, then after
/// any number of steps still no task is parked; so once the ready queue is
/// empty every computation has completed.
pub proof fn law_woken_tasks_run_to_completion<C>(m: ExecutorView<C>, polls: Seq<Polled<C>>)
    requires
        m.wf(),
        none_parked(m),
        forall|i: int|
            0 <= i < polls.len() && (#[trigger] polls[i]).outcome is Suspended ==> polls[i].log.contains(
                Request::Wake,
            ),
    ensures
        m.steps(polls).wf(),
        none_parked(m.steps(polls)),
        m.steps(polls).ready.len() == 0 ==> forall|t: usize| !(#[trigger] m.steps(polls).is_live(t)),
    decreases polls.len(),
{
    if polls.len() == 0 {
        assert forall|t: usize| m.ready.len() == 0 implies !(#[trigger] m.is_live(t)) by {
            if m.is_live(t) {
                assert(m.ready.contains(t));
            }
        }
    } else {
        let next = m.step(polls[0]);
        if m.ready.len() > 0 {
            let front = m.ready[0];
            crate::model::lemma_skip_keeps_queued(m);
            if m.is_live(front) {
                let p = polls[0];
                crate::model::lemma_turn_frame(m, p.after, p.outcome, p.log);
                let put = m.take().put_back(front, p.after, p.outcome);
                assert(put.wf());
                if p.outcome is Suspended {
                    lemma_wake_is_granted(put, front, p.log);
                }
                assert forall|t: usize| next.is_live(t) implies #[trigger] next.ready.contains(
                    t,
                ) by {
                    if t < m.slots.len() && t != front {
                        assert(next.slots[t as int] == m.slots[t as int]);
                        assert(m.is_live(t));
                        assert(m.ready.contains(t));
                        let i = choose|i: int|
                            0 <= i < m.ready.skip(1).len() && m.ready.skip(1)[i] == t;
                        assert(next.ready[i] == t);
                    } else if t >= m.slots.len() {
                        assert(next.slots[t as int] is Some);
                    }
                }
            } else {
                assert forall|t: usize| next.is_live(t) implies #[trigger] next.ready.contains(
                    t,
                ) by {
                    assert(m.is_live(t));
                    assert(m.ready.contains(t));
                }
            }
        }
        assert(next.wf());
        assert forall|i: int|
            0 <= i < polls.skip(1).len() && (#[trigger] polls.skip(1)[i]).outcome is Suspended implies polls.skip(
            1,
        )[i].log.contains(Request::Wake) by {
            assert(polls.skip(1)[i] == polls[i + 1]);
        }
        law_woken_tasks_run_to_completion(next, polls.skip(1));
    }
}

/// A computation that submits another one during its own poll makes it a
/// task: after the turn the new task is live, unpolled and at the back of
/// the ready queue, so that the run which made the turn polls it too.
pub proof fn law_spawn_within_a_poll<C>(m: ExecutorView<C>, after: C, outcome: PollOutcome, child: C)
    requires
        m.wf(),
        m.ready.len() > 0,
        m.is_live(m.ready[0]),
        m.slots.len() <= usize::MAX,
    ensures
        ({
            let n = m.turn(after, outcome, seq![Request::Spawn(child)]);
            let task = m.slots.len() as usize;
            &&& n.wf()
            &&& n.slots.len() == m.slots.len() + 1
            &&& n.slots[task as int] == Some(child)
            &&& n.polls[task as int] == 0
            &&& n.ready.last() == task
            &&& n.ready == m.ready.skip(1).push(task)
        }),
{
    let front = m.ready[0];
    let log = seq![Request::Spawn(child)];
    let put = m.take().put_back(front, after, outcome);
    assert(log.skip(1) =~= Seq::<Request<C>>::empty());
    assert(put.apply(front, log) == put.spawn(child).apply(front, log.skip(1)));
}

/// Discarding is final. Once the slot of a task is empty, waking it any
/// number of times only adds entries to the ready queue; taking them off
/// again polls nothing and leaves the executor exactly as it was.
pub proof fn law_wake_after_completion<C>(m: ExecutorView<C>, task: usize, times: nat)
    requires
        m.wf(),
        m.ready.len() == 0,
        task < m.slots.len(),
        m.slots[task as int] is None,
    ensures
        woken(m, task, times).slots == m.slots,
        woken(m, task, times).polls == m.polls,
        woken(m, task, times).ready.len() == times,
        taken(woken(m, task, times), times) == m,
{
    lemma_woken(m, task, times);
    lemma_take_stale(woken(m, task, times), m, task, times);
}

/// Wakes change nothing but the ready queue, which grows by one entry of
/// the task for each.
proof fn lemma_woken<C>(m: ExecutorView<C>, task: usize, times: nat)
    requires
        task < m.slots.len(),
    ensures
        woken(m, task, times).slots == m.slots,
        woken(m, task, times).polls == m.polls,
        woken(m, task, times).ready == m.ready + Seq::new(times, |i: int| task),
    decreases times,
{
    if times > 0 {
        lemma_woken(m.wake(task), task, (times - 1) as nat);
        assert(m.ready.push(task) + Seq::new((times - 1) as nat, |i: int| task) =~= m.ready
            + Seq::new(times, |i: int| task));
    } else {
        assert(m.ready + Seq::new(times, |i: int| task) =~= m.ready);
    }
}

/// Taking stale entries of one task off the queue changes nothing else.
proof fn lemma_take_stale<C>(w: ExecutorView<C>, m: ExecutorView<C>, task: usize, times: nat)
    requires
        task < m.slots.len(),
        m.slots[task as int] is None,
        m.ready.len() == 0,
        w.slots == m.slots,
        w.polls == m.polls,
        w.ready == Seq::new(times, |i: int| task),
    ensures
        taken(w, times) == m,
    decreases times,
{
    if times > 0 {
        assert(w.ready[0] == task);
        assert(w.take().ready =~= Seq::new((times - 1) as nat, |i: int| task));
        lemma_take_stale(w.take(), m, task, (times - 1) as nat);
    } else {
        assert(w.ready =~= m.ready);
    }
}

/// While nothing is ready, steps change nothing.
proof fn lemma_idle_steps<C>(m: ExecutorView<C>, polls: Seq<Polled<C>>)
    requires
        m.ready.len() == 0,
    ensures
        m.steps(polls) == m,
    decreases polls.len(),
{
    if polls.len() > 0 {
        lemma_idle_steps(m, polls.skip(1));
    }
}

/// A run polls a computation that yields `n` times exactly `n + 1` times.
/// Take an executor whose ready queue holds one task, a script of `n`
/// yields of which `made` are made. Whatever steps a run makes until the
/// ready queue is empty, at its end the task has been polled once for each
/// yield that was left and once more to complete, and it is discarded.
pub proof fn law_run_polls_a_yielding_script(
    m: ExecutorView<Script>,
    task: usize,
    n: nat,
    made: nat,
    polls: Seq<Polled<Script>>,
)
    requires
        m.wf(),
        m.ready == seq![task],
        m.is_live(task),
        m.slots[task as int]->0.moves() == crate::computations::yields(n),
        m.slots[task as int]->0.position() == made,
        made <= n,
        m.admits_all(polls),
        m.steps(polls).ready.len() == 0,
    ensures
        !m.steps(polls).is_live(task),
        m.steps(polls).polls[task as int] == m.polls[task as int] + (n - made) + 1,
        m.steps(polls).slots.len() == m.slots.len(),
    decreases polls.len(),
{
    if polls.len() > 0 {
        let p = polls[0];
        let next = m.step(p);
        let put = m.take().put_back(task, p.after, p.outcome);
        assert(m.take().ready =~= Seq::<usize>::empty());
        if made < n {
            assert(p.log =~= seq![Request::<Script>::Wake]);
            assert(p.log.skip(1) =~= Seq::<Request<Script>>::empty());
            assert(put.apply(task, p.log) == put.wake(task).apply(task, p.log.skip(1)));
            assert(next == put.wake(task));
            assert(next.ready =~= seq![task]);
            law_run_polls_a_yielding_script(next, task, n, made + 1, polls.skip(1));
        } else {
            assert(p.log =~= Seq::<Request<Script>>::empty());
            assert(next == put);
            lemma_idle_steps(next, polls.skip(1));
        }
    }
}

/// Every step pays. Dropping a stale entry lowers the load of the executor,
/// and so does a poll that keeps to the budget of its computation: this is
/// why a run over computations with a budget comes to an end.
pub proof fn law_every_step_lowers_the_load<C: Computation>(m: ExecutorView<C>, polled: Polled<C>)
    requires
        m.wf(),
        m.ready.len() > 0,
        m.admits(polled),
    ensures
        m.step(polled).wf(),
        m.step(polled).load() < m.load(),
{
    if m.is_live(m.ready[0]) {
        let before = m.slots[m.ready[0] as int]->0;
        crate::model::lemma_turn_frame(m, polled.after, polled.outcome, polled.log);
        crate::model::lemma_turn_load(m, before, polled.after, polled.outcome, polled.log);
    }
}

} // verus!
