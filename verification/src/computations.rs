//! Worked computations: state machines that keep their progress between
//! polls. One counts; the other follows a script, and so can act out any
//! schedule: waiting for an outside wake, yielding, submitting further work.

use crate::task::{Computation, Context, PollOutcome, Request};
use vstd::prelude::*;

verus! {

/// Counts from one to `max`, one number per poll. After each number it
/// suspends and asks to be woken; the poll after the last number completes.
/// So it suspends `max` times and is polled `max + 1` times.
#[derive(Clone, Copy, Debug, PartialEq, Eq, Structural)]
pub struct CountingTask {
    count: usize,
    max: usize,
}

impl CountingTask {
    /// The last number counted so far, zero before the first poll.
    pub closed spec fn counted(&self) -> nat {
        self.count as nat
    }

    /// The number at which the task stops.
    pub closed spec fn limit(&self) -> nat {
        self.max as nat
    }

    /// A task that has counted nothing yet and will count to `max`.
    pub fn new(max: usize) -> (task: Self)
        ensures
            task.counted() == 0,
            task.limit() == max,
    {
        CountingTask { count: 0, max }
    }

    /// The last number counted so far.
    pub fn count(&self) -> (n: usize)
        ensures
            n == self.counted(),
    {
        self.count
    }

    /// The number at which the task stops.
    pub fn max(&self) -> (n: usize)
        ensures
            n == self.limit(),
    {
        self.max
    }
}

impl Computation for CountingTask {
    /// One wake for every number still to count.
    closed spec fn budget(&self) -> nat {
        if self.count < self.max {
            (self.max - self.count) as nat
        } else {
            0
        }
    }

    /// Below the limit a poll counts one number, asks for a wake and
    /// suspends; at the limit it completes and asks for nothing.
    open spec fn advances(&self, after: Self, outcome: PollOutcome, log: Seq<Request<Self>>) -> bool {
        &&& after.limit() == self.limit()
        &&& self.counted() < self.limit() ==> {
            &&& outcome is Suspended
            &&& after.counted() == self.counted() + 1
            &&& log == seq![Request::<CountingTask>::Wake]
        }
        &&& self.counted() >= self.limit() ==> {
            &&& outcome is Complete
            &&& after.counted() == self.counted()
            &&& log == Seq::<Request<CountingTask>>::empty()
        }
    }

    fn poll(&mut self, cx: &mut Context<Self>) -> (outcome: PollOutcome) {
        if self.count < self.max {
            self.count = self.count + 1;
            cx.wake();
            proof {
                crate::task::lemma_log_cost_push(old(cx).log(), Request::Wake, |c: Self| c.budget());
                assert(old(cx).log() =~= Seq::<Request<CountingTask>>::empty());
                assert(cx.log() =~= seq![Request::<CountingTask>::Wake]);
            }
            PollOutcome::Suspended
        } else {
            proof {
                assert(cx.log() =~= Seq::<Request<CountingTask>>::empty());
            }
            PollOutcome::Complete
        }
    }
}

/// What a scripted computation does in one poll before it suspends.
#[derive(Clone, Copy, Debug, PartialEq, Eq, Structural)]
pub enum Move {
    /// Suspend without asking for a wake: the task stays parked until
    /// someone hands its handle to the executor.
    Park,
    /// Ask for a wake, then suspend: the task goes to the back of the queue.
    Yield,
    /// Submit a new computation that yields this many times and completes;
    /// then ask for a wake and suspend.
    Fork(usize),
}

/// A computation that makes the moves of a script, one per poll, and
/// completes on the poll after the last move.
pub struct Script {
    moves: Vec<Move>,
    next: usize,
}

/// The budget that one move needs: nothing to park, one wake to yield, and
/// to fork the wake, the entry of the new task and the wakes of its yields.
pub open spec fn move_cost(m: Move) -> nat {
    match m {
        Move::Park => 0,
        Move::Yield => 1,
        Move::Fork(n) => n as nat + 2,
    }
}

/// The budget that the moves from position `from` on need.
pub open spec fn moves_cost(moves: Seq<Move>, from: int) -> nat
    decreases moves.len() - from,
{
    if from < 0 || from >= moves.len() {
        0
    } else {
        move_cost(moves[from]) + moves_cost(moves, from + 1)
    }
}

/// A script of `n` yields.
pub open spec fn yields(n: nat) -> Seq<Move> {
    Seq::new(n, |i: int| Move::Yield)
}

/// A script of yields needs one unit of budget for each yield left.
pub proof fn lemma_yields_cost(n: nat, from: int)
    requires
        0 <= from <= n,
    ensures
        moves_cost(yields(n), from) == n - from,
    decreases n - from,
{
    if from < n {
        lemma_yields_cost(n, from + 1);
    }
}

impl Script {
    /// The moves of the script.
    pub closed spec fn moves(&self) -> Seq<Move> {
        self.moves@
    }

    /// The number of moves made so far.
    pub closed spec fn position(&self) -> nat {
        self.next as nat
    }

    /// A computation that will make `moves`, none of them made yet.
    pub fn new(moves: Vec<Move>) -> (script: Self)
        ensures
            script.moves() == moves@,
            script.position() == 0,
    {
        Script { moves, next: 0 }
    }

    /// A computation that yields `n` times and then completes.
    pub fn yielding(n: usize) -> (script: Self)
        ensures
            script.moves() == yields(n as nat),
            script.position() == 0,
    {
        let mut moves: Vec<Move> = Vec::new();
        let mut i: usize = 0;
        while i < n
            invariant
                i <= n,
                moves@ =~= yields(i as nat),
            decreases n - i,
        {
            moves.push(Move::Yield);
            i = i + 1;
        }
        Script { moves, next: 0 }
    }

    /// The number of moves made so far.
    pub fn moves_made(&self) -> (n: usize)
        ensures
            n == self.position(),
    {
        self.next
    }
}

impl Computation for Script {
    /// What the moves still to make need.
    closed spec fn budget(&self) -> nat {
        moves_cost(self.moves@, self.next as int)
    }

    /// After the last move a poll completes and asks for nothing. Before
    /// that it makes the next move and suspends.
    open spec fn advances(&self, after: Self, outcome: PollOutcome, log: Seq<Request<Self>>) -> bool {
        &&& after.moves() == self.moves()
        &&& self.position() >= self.moves().len() ==> {
            &&& outcome is Complete
            &&& after.position() == self.position()
            &&& log.len() == 0
        }
        &&& self.position() < self.moves().len() ==> {
            &&& outcome is Suspended
            &&& after.position() == self.position() + 1
            &&& match self.moves()[self.position() as int] {
                Move::Park => log.len() == 0,
                Move::Yield => log == seq![Request::<Script>::Wake],
                Move::Fork(n) => {
                    &&& log.len() == 2
                    &&& log[1] == Request::<Script>::Wake
                    &&& match log[0] {
                        Request::Wake => false,
                        Request::Spawn(child) => child.moves() == yields(n as nat)
                            && child.position() == 0,
                    }
                },
            }
        }
    }

    fn poll(&mut self, cx: &mut Context<Self>) -> (outcome: PollOutcome) {
        if self.next < self.moves.len() {
            let m = self.moves[self.next];
            self.next = self.next + 1;
            match m {
                Move::Park => {},
                Move::Yield => {
                    cx.wake();
                    proof {
                        crate::task::lemma_log_cost_push(
                            old(cx).log(),
                            Request::Wake,
                            |c: Self| c.budget(),
                        );
                        assert(cx.log() =~= seq![Request::<Script>::Wake]);
                    }
                },
                Move::Fork(n) => {
                    let child = Script::yielding(n);
                    cx.spawn(child);
                    let ghost first = cx.log();
                    cx.wake();
                    proof {
                        lemma_yields_cost(n as nat, 0);
                        crate::task::lemma_log_cost_push(
                            old(cx).log(),
                            Request::Spawn(child),
                            |c: Self| c.budget(),
                        );
                        crate::task::lemma_log_cost_push(first, Request::Wake, |c: Self| c.budget());
                    }
                },
            }
            PollOutcome::Suspended
        } else {
            PollOutcome::Complete
        }
    }
}

} // verus!
