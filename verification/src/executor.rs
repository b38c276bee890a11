//! The executor: it owns the ready queue and the tasks, accepts new
//! computations, and polls what is ready until nothing is.

use crate::model::{ExecutorView, Polled};
use crate::task::{Computation, Context, PollOutcome, ReadyQueue, Request, Task, WakeHandle};
use vstd::prelude::*;

verus! {

/// A single-threaded cooperative executor of computations of type `C`.
pub struct SimpleExecutor<C> {
    ready_queue: ReadyQueue,
    tasks: Vec<Task<C>>,
}

/// What taking the front of the ready queue came to.
pub enum Turn<C> {
    /// The queue was empty.
    Idle,
    /// The entry named a task whose computation had already completed, or
    /// was out for a poll: it was dropped.
    Stale(WakeHandle),
    /// The entry named a live task: here is its computation, to be polled
    /// once and then settled.
    Poll(WakeHandle, C),
}

/// What one step of the run loop did.
#[derive(Clone, Copy, Debug, PartialEq, Eq, Structural)]
pub enum Step {
    /// Nothing was ready.
    Idle,
    /// A stale queue entry was dropped.
    Skipped(WakeHandle),
    /// The task was polled once, with this outcome.
    Polled(WakeHandle, PollOutcome),
}

/// Where an executor stands between two turns.
#[derive(Clone, Copy, Debug, PartialEq, Eq, Structural)]
pub enum RunState {
    /// Some task is ready to be polled.
    Ready,
    /// Nothing is ready, but some task is suspended: whoever drives the
    /// executor should wait for a wake rather than stop or spin.
    Parked,
    /// Nothing is ready and every task has completed.
    Finished,
}

impl<C> View for SimpleExecutor<C> {
    type V = ExecutorView<C>;

    closed spec fn view(&self) -> ExecutorView<C> {
        ExecutorView {
            ready: self.ready_queue@,
            slots: Seq::new(self.tasks@.len(), |i: int| self.tasks@[i].slot()),
            polls: Seq::new(self.tasks@.len(), |i: int| self.tasks@[i].polls()),
        }
    }
}

impl<C> SimpleExecutor<C> {
    /// Every task is bound to the handle that carries its own number, so
    /// that a task which wakes itself queues itself and no other.
    pub closed spec fn handles_bound(&self) -> bool {
        forall|i: int|
            0 <= i < self.tasks@.len() ==> (#[trigger] self.tasks@[i]).bound().task == i
    }

    /// What every executor keeps: its state is well-formed and its tasks are
    /// bound to their own handles.
    pub open spec fn wf(&self) -> bool {
        self@.wf() && self.handles_bound()
    }

    /// An executor with no task.
    pub fn new() -> (executor: Self)
        ensures
            executor@ == ExecutorView::<C>::empty(),
            executor.wf(),
    {
        let executor = SimpleExecutor { ready_queue: ReadyQueue::new(), tasks: Vec::new() };
        assert(executor@.slots =~= Seq::<Option<C>>::empty());
        assert(executor@.polls =~= Seq::<nat>::empty());
        executor
    }

    /// Submits a computation: it becomes a new task at the back of the ready
    /// queue, and is not polled here. The handle wakes that task.
    pub fn spawn(&mut self, computation: C) -> (handle: WakeHandle)
        requires
            old(self).wf(),
        ensures
            final(self)@ == old(self)@.spawn(computation),
            final(self).wf(),
            handle.task == old(self)@.slots.len(),
    {
        let handle = WakeHandle { task: self.tasks.len() };
        let task = Task::new(computation, handle);
        task.wake_by_ref(&mut self.ready_queue);
        self.tasks.push(task);
        assert(self@.slots =~= old(self)@.slots.push(Some(computation)));
        assert(self@.polls =~= old(self)@.polls.push(0));
        handle
    }

    /// Makes the task of `handle` eligible for another poll: it goes to the
    /// back of the ready queue, once more for every call. The task is not
    /// polled here. A handle that names no task of this executor is ignored.
    pub fn wake(&mut self, handle: &WakeHandle)
        requires
            old(self).wf(),
        ensures
            final(self)@ == old(self)@.wake(handle.task),
            final(self).wf(),
    {
        if handle.task < self.tasks.len() {
            self.tasks[handle.task].wake_by_ref(&mut self.ready_queue);
        }
    }

    /// Whether the ready queue is empty.
    pub fn is_idle(&self) -> (idle: bool)
        ensures
            idle == (self@.ready.len() == 0),
    {
        self.ready_queue.len() == 0
    }

    /// The number of entries in the ready queue.
    pub fn ready_len(&self) -> (n: usize)
        ensures
            n == self@.ready.len(),
    {
        self.ready_queue.len()
    }

    /// The number of tasks spawned so far.
    pub fn task_count(&self) -> (n: usize)
        ensures
            n == self@.slots.len(),
    {
        self.tasks.len()
    }

    /// Whether the computation of the task of `handle` is in its slot: the
    /// task was spawned here, has not completed, and is not out for a poll.
    pub fn is_live(&self, handle: &WakeHandle) -> (live: bool)
        ensures
            live == self@.is_live(handle.task),
    {
        handle.task < self.tasks.len() && self.tasks[handle.task].is_live()
    }

    /// Where the executor stands: whether to poll on, to wait for a wake, or
    /// to stop. An empty ready queue alone does not mean that all work is
    /// done.
    pub fn state(&self) -> (state: RunState)
        ensures
            state is Ready <==> self@.ready.len() > 0,
            state is Parked <==> self@.ready.len() == 0 && self@.has_live(),
            state is Finished <==> self@.ready.len() == 0 && !self@.has_live(),
    {
        if self.ready_queue.len() > 0 {
            return RunState::Ready;
        }
        let mut task: usize = 0;
        while task < self.tasks.len()
            invariant
                task <= self.tasks.len(),
                self.ready_queue@.len() == 0,
                forall|t: int| 0 <= t < task ==> (#[trigger] self@.slots[t]) is None,
            decreases self.tasks.len() - task,
        {
            if self.tasks[task].is_live() {
                assert(self@.slots[task as int] is Some);
                return RunState::Parked;
            }
            task = task + 1;
        }
        RunState::Finished
    }

    /// Takes the front entry off the ready queue. For a live task the
    /// computation comes out of its slot, so that nothing else can poll it
    /// meanwhile; the caller polls it once and hands it to `settle`.
    pub fn take_next(&mut self) -> (turn: Turn<C>)
        requires
            old(self).wf(),
        ensures
            final(self).wf(),
            match turn {
                Turn::Idle => old(self)@.ready.len() == 0 && final(self)@ == old(self)@,
                Turn::Stale(handle) => {
                    &&& old(self)@.ready.len() > 0
                    &&& handle.task == old(self)@.ready[0]
                    &&& !old(self)@.is_live(handle.task)
                    &&& final(self)@ == old(self)@.take()
                },
                Turn::Poll(handle, computation) => {
                    &&& old(self)@.ready.len() > 0
                    &&& handle.task == old(self)@.ready[0]
                    &&& old(self)@.slots[handle.task as int] == Some(computation)
                    &&& final(self)@ == old(self)@.take()
                },
            },
    {
        match self.ready_queue.pop() {
            None => {
                assert(self@.slots =~= old(self)@.slots);
                assert(self@.polls =~= old(self)@.polls);
                Turn::Idle
            },
            Some(handle) => {
                assert(old(self)@.ready[0] < old(self)@.slots.len());
                assert(handle.task < self.tasks.len());
                match self.tasks[handle.task].take() {
                    None => {
                        assert(self@.slots =~= old(self)@.slots);
                        assert(self@.polls =~= old(self)@.polls);
                        Turn::Stale(handle)
                    },
                    Some(computation) => {
                        assert(self@.slots =~= old(self)@.slots.update(handle.task as int, None));
                        assert(self@.polls =~= old(self)@.polls.update(
                            handle.task as int,
                            old(self)@.polls[handle.task as int] + 1,
                        ));
                        Turn::Poll(handle, computation)
                    },
                }
            },
        }
    }

    /// Grants the requests that a poll of the task of `handle` has made, in
    /// the order it made them: a wake queues that task, a spawn submits the
    /// new computation.
    pub fn grant(&mut self, handle: &WakeHandle, cx: Context<C>)
        requires
            old(self).wf(),
        ensures
            final(self)@ == old(self)@.apply(handle.task, cx.log()),
            final(self).wf(),
    {
        let mut cx = cx;
        let ghost goal = old(self)@.apply(handle.task, cx.log());
        loop
            invariant
                self.wf(),
                self@.apply(handle.task, cx.log()) == goal,
            ensures
                self.wf(),
                self@ == goal,
            decreases cx.log().len(),
        {
            match cx.next_request() {
                None => {
                    break ;
                },
                Some(Request::Wake) => {
                    self.wake(handle);
                },
                Some(Request::Spawn(c)) => {
                    self.spawn(c);
                },
            }
        }
    }

    /// Settles one poll of the task of `handle`: `computation` is what the
    /// poll left of the computation, `outcome` what it reported, and `cx` the
    /// context it was polled with. A suspended computation goes back into
    /// its slot without being queued; a complete one is discarded, so that
    /// its task can never be polled again. Then the requests made during the
    /// poll are granted, oldest first.
    pub fn settle(
        &mut self,
        handle: &WakeHandle,
        computation: C,
        outcome: PollOutcome,
        cx: Context<C>,
    )
        requires
            old(self).wf(),
        ensures
            final(self)@ == old(self)@.settle(handle.task, computation, outcome, cx.log()),
            final(self).wf(),
    {
        if handle.task < self.tasks.len() {
            self.tasks[handle.task].put_back(computation, outcome);
            proof {
                assert(self@.polls =~= old(self)@.polls);
                if outcome is Suspended {
                    assert(self@.slots =~= old(self)@.slots.update(
                        handle.task as int,
                        Some(computation),
                    ));
                } else {
                    assert(self@.slots =~= old(self)@.slots);
                }
            }
        }
        assert(self@ == old(self)@.put_back(handle.task, computation, outcome));
        self.grant(handle, cx);
    }
}

impl<C: Computation> SimpleExecutor<C> {
    /// One step of the run loop: takes the front of the ready queue and has
    /// its task poll itself. A live task polls its computation exactly once,
    /// and the requests of that poll are granted; a stale entry is dropped
    /// without a poll.
    pub fn step(&mut self) -> (step: Step)
        requires
            old(self).wf(),
        ensures
            final(self).wf(),
            match step {
                Step::Idle => old(self)@.ready.len() == 0 && final(self)@ == old(self)@,
                Step::Skipped(handle) => {
                    &&& old(self)@.ready.len() > 0
                    &&& handle.task == old(self)@.ready[0]
                    &&& !old(self)@.is_live(handle.task)
                    &&& final(self)@ == old(self)@.take()
                },
                Step::Polled(handle, outcome) => {
                    &&& old(self)@.ready.len() > 0
                    &&& handle.task == old(self)@.ready[0]
                    &&& old(self)@.is_live(handle.task)
                    &&& final(self)@.is_live(handle.task) == (outcome is Suspended)
                    &&& old(self)@.ready.skip(1).is_prefix_of(final(self)@.ready)
                    &&& crate::model::turn_frame(old(self)@, final(self)@)
                    &&& crate::model::newly_queued(old(self)@, final(self)@)
                },
            },
            exists|polled: Polled<C>|
                {
                    &&& old(self)@.admits(polled)
                    &&& final(self)@ == #[trigger] old(self)@.step(polled)
                    &&& match step {
                        Step::Polled(_, outcome) => outcome == polled.outcome,
                        _ => true,
                    }
                },
            !(step is Idle) ==> final(self)@.load() < old(self)@.load(),
    {
        match self.ready_queue.pop() {
            None => {
                proof {
                    assert(self@.slots =~= old(self)@.slots);
                    assert(self@.polls =~= old(self)@.polls);
                    let any: Polled<C> = arbitrary();
                    assert(old(self)@.admits(any));
                    assert(self@ == old(self)@.step(any));
                }
                Step::Idle
            },
            Some(handle) => {
                assert(old(self)@.ready[0] < old(self)@.slots.len());
                assert(handle.task < self.tasks.len());
                let ghost before = self.tasks@[handle.task as int].slot();
                match self.tasks[handle.task].poll() {
                    None => {
                        proof {
                            assert(self@.slots =~= old(self)@.slots);
                            assert(self@.polls =~= old(self)@.polls);
                            let any: Polled<C> = arbitrary();
                            assert(old(self)@.admits(any));
                            assert(self@ == old(self)@.step(any));
                        }
                        Step::Skipped(handle)
                    },
                    Some((outcome, cx)) => {
                        let ghost after = choose|after: C|
                            {
                                &&& #[trigger] (before->0).advances(after, outcome, cx.log())
                                &&& outcome is Suspended ==> self.tasks@[handle.task as int].slot()
                                    == Some(after)
                                &&& crate::task::log_cost(cx.log(), |c: C| c.budget()) + (if outcome
                                    is Suspended {
                                    after.budget()
                                } else {
                                    0
                                }) <= (before->0).budget()
                            };
                        let ghost polled = Polled { after, outcome, log: cx.log() };
                        proof {
                            let taken = old(self)@.take();
                            assert(self@.polls =~= taken.polls);
                            if outcome is Suspended {
                                assert(self@.slots =~= taken.slots.update(
                                    handle.task as int,
                                    Some(after),
                                ));
                            } else {
                                assert(self@.slots =~= taken.slots);
                            }
                            assert(self@ == taken.put_back(handle.task, after, outcome));
                            crate::model::lemma_turn_frame(old(self)@, after, outcome, cx.log());
                            crate::model::lemma_turn_load(
                                old(self)@,
                                before->0,
                                after,
                                outcome,
                                cx.log(),
                            );
                        }
                        self.grant(&handle, cx);
                        assert(old(self)@.admits(polled));
                        assert(self@ == old(self)@.step(polled));
                        Step::Polled(handle, outcome)
                    },
                }
            },
        }
    }

    /// Polls what is ready until the ready queue is empty: step after step,
    /// and nothing else. Every task that was live and queued is polled at
    /// least once, and so is every task spawned during the run; a task whose
    /// computation had completed is not polled again, however often it is
    /// still queued; a task that suspends without having been woken stays
    /// live and parked, so that `state` tells afterwards whether all work is
    /// done.
    ///
    /// The run ends because every poll pays from the budget of its
    /// computation for what it queues.
    pub fn run(&mut self)
        requires
            old(self).wf(),
        ensures
            final(self).wf(),
            final(self)@.ready.len() == 0,
            crate::model::follows(old(self)@, final(self)@),
            forall|task: usize|
                old(self)@.is_live(task) && old(self)@.ready.contains(task) ==> (
                #[trigger] final(self)@.polls[task as int]) > old(self)@.polls[task as int],
            forall|task: usize|
                old(self)@.slots.len() <= task < final(self)@.slots.len() ==> (
                #[trigger] final(self)@.polls[task as int]) > 0,
            exists|polls: Seq<Polled<C>>|
                old(self)@.admits_all(polls) && final(self)@ == #[trigger] old(self)@.steps(polls),
    {
        let ghost mut made: Seq<Polled<C>> = Seq::empty();
        loop
            invariant
                self.wf(),
                old(self)@.admits_all(made),
                self@ == old(self)@.steps(made),
                crate::model::follows(old(self)@, self@),
                forall|task: usize|
                    old(self)@.is_live(task) && old(self)@.ready.contains(task) ==> (
                    #[trigger] self@.polls[task as int]) > old(self)@.polls[task as int] || (
                    self@.is_live(task) && self@.ready.contains(task)),
                forall|task: usize|
                    old(self)@.slots.len() <= task < self@.slots.len() ==> (
                    #[trigger] self@.polls[task as int]) > 0 || (self@.is_live(task)
                        && self@.ready.contains(task)),
            ensures
                self.wf(),
                self@.ready.len() == 0,
                crate::model::follows(old(self)@, self@),
                forall|task: usize|
                    old(self)@.is_live(task) && old(self)@.ready.contains(task) ==> (
                    #[trigger] self@.polls[task as int]) > old(self)@.polls[task as int],
                forall|task: usize|
                    old(self)@.slots.len() <= task < self@.slots.len() ==> (
                    #[trigger] self@.polls[task as int]) > 0,
                old(self)@.admits_all(made),
                self@ == old(self)@.steps(made),
            decreases self@.load(),
        {
            let ghost m = self@;
            let step = self.step();
            proof {
                let polled = choose|polled: Polled<C>|
                    m.admits(polled) && self@ == #[trigger] m.step(polled);
                crate::model::lemma_steps_push(old(self)@, made, polled);
                crate::model::lemma_admits_push(old(self)@, made, polled);
                made = made.push(polled);
            }
            match step {
                Step::Idle => {
                    break ;
                },
                Step::Skipped(handle) => {
                    proof {
                        crate::model::lemma_skip_keeps_queued(m);
                    }
                },
                Step::Polled(handle, outcome) => {
                    proof {
                        crate::model::lemma_skip_keeps_queued(m);
                        assert forall|task: usize| m.ready.skip(1).contains(task) implies self@.ready.contains(
                            task,
                        ) by {
                            let i = choose|i: int|
                                0 <= i < m.ready.skip(1).len() && m.ready.skip(1)[i] == task;
                            assert(self@.ready[i] == task);
                        }
                        assert forall|task: usize|
                            old(self)@.slots.len() <= task < self@.slots.len() implies (
                        #[trigger] self@.polls[task as int]) > 0 || (self@.is_live(task)
                            && self@.ready.contains(task)) by {
                            if task < m.slots.len() {
                                if task != m.ready[0] {
                                    assert(self@.slots[task as int] == m.slots[task as int]);
                                    assert(m.polls[task as int] > 0 || (m.is_live(task)
                                        && m.ready.contains(task)));
                                }
                            } else {
                                assert(self@.slots[task as int] is Some);
                            }
                        }
                    }
                },
            }
        }
    }
}

} // verus!
