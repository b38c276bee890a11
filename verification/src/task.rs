//! Tasks: the scheduling unit that holds one deferred computation, the
//! handle that wakes it, the ready queue it is woken into, and the capability
//! a deferred computation must offer.

use std::collections::VecDeque;
use vstd::prelude::*;

verus! {

/// What one poll of a deferred computation reports.
#[derive(Clone, Copy, Debug, PartialEq, Eq, Structural)]
pub enum PollOutcome {
    /// Not finished: the computation wants to be polled again once woken.
    Suspended,
    /// Finished: the computation must never be polled again.
    Complete,
}

/// A handle bound to exactly one task. Handing it to the executor's `wake`
/// makes that task eligible for another poll.
#[derive(Clone, Copy, Debug, PartialEq, Eq, Structural)]
pub struct WakeHandle {
    pub task: usize,
}

/// The tasks believed runnable, first in, first out.
pub struct ReadyQueue {
    entries: VecDeque<usize>,
}

impl View for ReadyQueue {
    type V = Seq<usize>;

    /// The numbers of the queued tasks, the next one to poll first.
    closed spec fn view(&self) -> Seq<usize> {
        self.entries@
    }
}

impl ReadyQueue {
    /// An empty queue.
    pub fn new() -> (queue: Self)
        ensures
            queue@ == Seq::<usize>::empty(),
    {
        ReadyQueue { entries: VecDeque::new() }
    }

    /// Puts the task of `handle` at the back.
    pub fn push(&mut self, handle: &WakeHandle)
        ensures
            final(self)@ == old(self)@.push(handle.task),
    {
        self.entries.push_back(handle.task);
    }

    /// Takes the task at the front, if there is one.
    pub fn pop(&mut self) -> (front: Option<WakeHandle>)
        ensures
            old(self)@.len() == 0 ==> front is None && final(self)@ == old(self)@,
            old(self)@.len() > 0 ==> {
                &&& front == Some(WakeHandle { task: old(self)@[0] })
                &&& final(self)@ == old(self)@.skip(1)
            },
    {
        match self.entries.pop_front() {
            None => None,
            Some(task) => {
                assert(self.entries@ =~= old(self).entries@.skip(1));
                Some(WakeHandle { task })
            },
        }
    }

    /// The number of entries.
    pub fn len(&self) -> (n: usize)
        ensures
            n == self@.len(),
    {
        self.entries.len()
    }
}

/// What a computation may ask of the executor while it is being polled.
pub enum Request<C> {
    /// Put the task being polled at the back of the ready queue.
    Wake,
    /// Submit a further computation as a new task.
    Spawn(C),
}

/// The context of one poll: it names the task being polled and collects, in
/// the order they were made, the requests of the computation.
pub struct Context<C> {
    task: usize,
    log: VecDeque<Request<C>>,
}

impl<C> Context<C> {
    /// The task being polled.
    pub closed spec fn task(&self) -> usize {
        self.task
    }

    /// The requests made so far, oldest first.
    pub closed spec fn log(&self) -> Seq<Request<C>> {
        self.log@
    }

    /// A context for one poll of `task`, with no request made yet.
    pub fn new(task: usize) -> (cx: Self)
        ensures
            cx.task() == task,
            cx.log() == Seq::<Request<C>>::empty(),
    {
        Context { task, log: VecDeque::new() }
    }

    /// The handle that wakes the task being polled. A computation that
    /// suspends on an outside event hands it to whoever fires that event.
    pub fn handle(&self) -> (h: WakeHandle)
        ensures
            h.task == self.task(),
    {
        WakeHandle { task: self.task }
    }

    /// Asks that the task being polled be queued again. The poll itself is
    /// never re-entered: the request only makes the task eligible.
    pub fn wake(&mut self)
        ensures
            final(self).task() == old(self).task(),
            final(self).log() == old(self).log().push(Request::Wake),
    {
        self.log.push_back(Request::Wake);
    }

    /// Submits a further computation from within a poll.
    pub fn spawn(&mut self, computation: C)
        ensures
            final(self).task() == old(self).task(),
            final(self).log() == old(self).log().push(Request::Spawn(computation)),
    {
        self.log.push_back(Request::Spawn(computation));
    }

    /// Hands out the oldest request not yet taken, if there is one.
    pub fn next_request(&mut self) -> (r: Option<Request<C>>)
        ensures
            final(self).task() == old(self).task(),
            old(self).log().len() == 0 ==> r is None && final(self).log() == old(self).log(),
            old(self).log().len() > 0 ==> r == Some(old(self).log()[0]) && final(self).log()
                == old(self).log().skip(1),
    {
        let r = self.log.pop_front();
        proof {
            if old(self).log().len() > 0 {
                assert(self.log@ =~= old(self).log@.skip(1));
            }
        }
        r
    }
}

/// What is owed to one request, where `budget` gives the budget of a
/// computation: a wake puts one entry on the ready queue, a spawn puts one
/// entry there and brings the budget of the new computation.
pub open spec fn request_cost<C>(r: Request<C>, budget: spec_fn(C) -> nat) -> nat {
    match r {
        Request::Wake => 1,
        Request::Spawn(c) => budget(c) + 1,
    }
}

/// The sum of `request_cost` over a log of requests.
pub open spec fn log_cost<C>(log: Seq<Request<C>>, budget: spec_fn(C) -> nat) -> nat
    decreases log.len(),
{
    if log.len() == 0 {
        0
    } else {
        request_cost(log[0], budget) + log_cost(log.skip(1), budget)
    }
}

/// A deferred computation: a state machine that is advanced by polling and
/// keeps its progress between polls.
///
/// A computation that suspends without asking for a wake, and without having
/// handed its handle to an outside event, is never polled again.
pub trait Computation: Sized {
    /// An upper bound on the requests that this computation and those it
    /// spawns will still make of the executor. It is what lets a run end: a
    /// computation that wakes itself for ever has no such bound. Unless a
    /// computation says otherwise it has no budget, and so can only complete
    /// or park.
    open spec fn budget(&self) -> nat {
        0
    }

    /// What one poll may come to: whether a poll of this computation may
    /// leave it as `after`, report `outcome` and make the requests of `log`.
    /// Unless a computation says otherwise, a poll may come to anything.
    open spec fn advances(&self, after: Self, outcome: PollOutcome, log: Seq<Request<Self>>) -> bool {
        true
    }

    /// Makes one attempt to advance, as `advances` says. The requests made
    /// through `cx` are paid from the budget; what is left stays with the
    /// computation while it is suspended.
    fn poll(&mut self, cx: &mut Context<Self>) -> (outcome: PollOutcome)
        requires
            old(cx).log().len() == 0,
        ensures
            final(cx).task() == old(cx).task(),
            old(self).advances(*final(self), outcome, final(cx).log()),
            log_cost(final(cx).log(), |c: Self| c.budget()) + (if outcome is Suspended {
                final(self).budget()
            } else {
                0
            }) <= old(self).budget(),
    ;
}

/// A scheduling unit: one deferred computation, present until it completes,
/// and the handle by which the unit gets itself queued again. Whoever holds
/// the task exclusively is the only one who can poll it.
pub struct Task<C> {
    computation: Option<C>,
    handle: WakeHandle,
    polls: Ghost<nat>,
}

impl<C> Task<C> {
    /// The computation slot: the computation, or nothing once it has
    /// completed or while it is out for a poll.
    pub closed spec fn slot(&self) -> Option<C> {
        self.computation
    }

    /// The handle that the task is bound to.
    pub closed spec fn bound(&self) -> WakeHandle {
        self.handle
    }

    /// The number of polls that the computation has been given.
    pub closed spec fn polls(&self) -> nat {
        self.polls@
    }

    /// A task that holds `computation` and is woken through `handle`.
    pub fn new(computation: C, handle: WakeHandle) -> (task: Self)
        ensures
            task.slot() == Some(computation),
            task.bound() == handle,
            task.polls() == 0,
    {
        Task { computation: Some(computation), handle, polls: Ghost(0) }
    }

    /// The handle that wakes the task.
    pub fn handle(&self) -> (handle: WakeHandle)
        ensures
            handle == self.bound(),
    {
        self.handle
    }

    /// Whether the computation is in its slot.
    pub fn is_live(&self) -> (live: bool)
        ensures
            live == self.slot() is Some,
    {
        self.computation.is_some()
    }

    /// Puts the task itself at the back of `queue`. Waking only makes the
    /// task eligible: the computation is not polled and not touched.
    pub fn wake_by_ref(&self, queue: &mut ReadyQueue)
        ensures
            final(queue)@ == old(queue)@.push(self.bound().task),
    {
        queue.push(&self.handle);
    }

    /// Takes the computation out of its slot for one poll elsewhere, which
    /// is counted here. Until it is put back nobody else can poll it.
    pub fn take(&mut self) -> (computation: Option<C>)
        ensures
            computation == old(self).slot(),
            final(self).slot() is None,
            final(self).bound() == old(self).bound(),
            final(self).polls() == old(self).polls() + (if old(self).slot() is Some {
                1nat
            } else {
                0nat
            }),
    {
        let computation = self.computation.take();
        if computation.is_some() {
            self.polls = Ghost((self.polls@ + 1) as nat);
        }
        computation
    }

    /// What becomes of a computation after a poll that reported `outcome`: a
    /// suspended one returns to its slot, a complete one is discarded.
    pub fn put_back(&mut self, computation: C, outcome: PollOutcome)
        ensures
            final(self).bound() == old(self).bound(),
            final(self).polls() == old(self).polls(),
            outcome is Suspended ==> final(self).slot() == Some(computation),
            outcome is Complete ==> final(self).slot() == old(self).slot(),
    {
        match outcome {
            PollOutcome::Suspended => {
                self.computation = Some(computation);
            },
            PollOutcome::Complete => {},
        }
    }
}

impl<C: Computation> Task<C> {
    /// Polls the computation exactly once if it is still in its slot, with a
    /// context bound to the task itself, and hands back what the poll
    /// reported together with the requests it made. On completion the slot
    /// is cleared; on suspension the computation stays in its slot, as the
    /// poll left it, and the task is not queued here. Polling a task whose
    /// slot is empty does nothing.
    pub fn poll(&mut self) -> (polled: Option<(PollOutcome, Context<C>)>)
        ensures
            final(self).bound() == old(self).bound(),
            match old(self).slot() {
                None => {
                    &&& polled is None
                    &&& final(self).slot() is None
                    &&& final(self).polls() == old(self).polls()
                },
                Some(before) => match polled {
                    None => false,
                    Some((outcome, cx)) => {
                        &&& final(self).polls() == old(self).polls() + 1
                        &&& cx.task() == old(self).bound().task
                        &&& outcome is Complete <==> final(self).slot() is None
                        &&& exists|after: C|
                            {
                                &&& #[trigger] before.advances(after, outcome, cx.log())
                                &&& outcome is Suspended ==> final(self).slot() == Some(after)
                                &&& log_cost(cx.log(), |c: C| c.budget()) + (if outcome
                                    is Suspended {
                                    after.budget()
                                } else {
                                    0
                                }) <= before.budget()
                            }
                    },
                },
            },
    {
        match self.take() {
            None => None,
            Some(computation) => {
                let mut computation = computation;
                let mut cx = Context::new(self.handle.task);
                let outcome = computation.poll(&mut cx);
                self.put_back(computation, outcome);
                Some((outcome, cx))
            },
        }
    }
}

/// The cost of a log grows by the cost of the request appended to it.
pub proof fn lemma_log_cost_push<C>(log: Seq<Request<C>>, r: Request<C>, budget: spec_fn(C) -> nat)
    ensures
        log_cost(log.push(r), budget) == log_cost(log, budget) + request_cost(r, budget),
    decreases log.len(),
{
    if log.len() == 0 {
        assert(log.push(r).skip(1) =~= Seq::<Request<C>>::empty());
        assert(log_cost(log.push(r).skip(1), budget) == 0);
    } else {
        assert(log.push(r).skip(1) =~= log.skip(1).push(r));
        lemma_log_cost_push(log.skip(1), r, budget);
    }
}

} // verus!
