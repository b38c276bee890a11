use async_book_exercises::computations::{CountingTask, Move, Script};
use async_book_exercises::executor::{RunState, SimpleExecutor, Step, Turn};
use async_book_exercises::task::{Computation, Context, PollOutcome, Request, WakeHandle};

use async_book_exercises::task::PollOutcome::{Complete, Suspended};

/// Steps until nothing is ready, and says which task was polled with which
/// outcome, in the order of the polls.
fn polls_until_idle(executor: &mut SimpleExecutor<Script>) -> Vec<(usize, PollOutcome)> {
    let mut polls = Vec::new();
    loop {
        match executor.step() {
            Step::Idle => return polls,
            Step::Skipped(_) => {}
            Step::Polled(handle, outcome) => polls.push((handle.task, outcome)),
        }
    }
}

fn handle(task: usize) -> WakeHandle {
    WakeHandle { task }
}

#[test]
fn new_executor_is_idle() {
    let mut executor: SimpleExecutor<Script> = SimpleExecutor::new();
    assert!(executor.is_idle());
    assert_eq!(executor.ready_len(), 0);
    assert_eq!(executor.task_count(), 0);
    assert_eq!(executor.step(), Step::Idle);
    executor.run();
    assert!(executor.is_idle());
    assert!(matches!(executor.take_next(), Turn::Idle));
}

#[test]
fn spawn_queues_without_polling() {
    let mut executor = SimpleExecutor::new();
    let first = executor.spawn(Script::yielding(0));
    let second = executor.spawn(Script::yielding(0));
    assert_eq!(first, handle(0));
    assert_eq!(second, handle(1));
    assert_eq!(executor.task_count(), 2);
    assert_eq!(executor.ready_len(), 2);
    assert!(executor.is_live(&first));
    assert!(executor.is_live(&second));
    match executor.take_next() {
        Turn::Poll(h, script) => {
            assert_eq!(h, first);
            assert_eq!(script.moves_made(), 0);
        }
        _ => panic!("the first task was queued first"),
    }
}

#[test]
fn immediate_completion_is_polled_exactly_once() {
    let mut executor = SimpleExecutor::new();
    let task = executor.spawn(Script::new(vec![]));
    assert_eq!(executor.step(), Step::Polled(task, Complete));
    assert_eq!(executor.step(), Step::Idle);
    assert!(!executor.is_live(&task));

    let mut executor = SimpleExecutor::new();
    let task = executor.spawn(Script::new(vec![]));
    executor.run();
    assert!(executor.is_idle());
    assert!(!executor.is_live(&task));
    assert_eq!(executor.task_count(), 1);
    executor.run();
    assert_eq!(executor.step(), Step::Idle);
}

#[test]
fn test_simple_executor_runs_tasks() {
    let mut executor = SimpleExecutor::new();
    let task = executor.spawn(Script::yielding(5));
    executor.run();
    assert!(executor.is_idle());
    assert!(!executor.is_live(&task), "Executor should run the task to completion");

    let mut executor = SimpleExecutor::new();
    executor.spawn(Script::yielding(5));
    let polls = polls_until_idle(&mut executor);
    let counter = polls.iter().filter(|(_, outcome)| *outcome == Suspended).count();
    assert_eq!(counter, 5, "Executor should run the task to completion");
    assert_eq!(polls.last(), Some(&(0, Complete)));
}

#[test]
fn suspending_n_times_means_n_plus_one_polls() {
    for n in 0..6usize {
        let mut executor = SimpleExecutor::new();
        let task = executor.spawn(Script::yielding(n));
        let mut seen_in_queue = 0;
        let mut polls = 0;
        loop {
            match executor.step() {
                Step::Idle => break,
                Step::Skipped(_) => panic!("no stale entry is expected"),
                Step::Polled(h, outcome) => {
                    assert_eq!(h, task);
                    polls += 1;
                    if outcome == Suspended {
                        assert_eq!(executor.ready_len(), 1);
                        assert!(executor.is_live(&task));
                        seen_in_queue += 1;
                    } else {
                        assert_eq!(executor.ready_len(), 0);
                    }
                }
            }
        }
        assert_eq!(polls, n + 1);
        assert_eq!(seen_in_queue, n);
        assert!(!executor.is_live(&task));
    }
}

#[test]
fn counting_task_counts_to_its_limit() {
    let mut executor = SimpleExecutor::new();
    let task = executor.spawn(CountingTask::new(3));
    let mut polls = 0;
    while executor.step() != Step::Idle {
        polls += 1;
    }
    assert_eq!(polls, 4);
    assert!(!executor.is_live(&task));
}

#[test]
fn counting_task_keeps_its_progress_between_polls() {
    let mut task = CountingTask::new(2);
    assert_eq!(task.count(), 0);
    assert_eq!(task.max(), 2);
    let mut cx = Context::new(0);
    assert_eq!(task.poll(&mut cx), Suspended);
    assert_eq!(task.count(), 1);
    assert!(matches!(cx.next_request(), Some(Request::Wake)));
    assert!(cx.next_request().is_none());
    let mut cx = Context::new(0);
    assert_eq!(task.poll(&mut cx), Suspended);
    assert_eq!(task.count(), 2);
    let mut cx = Context::new(0);
    assert_eq!(task.poll(&mut cx), Complete);
    assert_eq!(task.count(), 2);
    assert!(cx.next_request().is_none());
}

#[test]
fn script_makes_one_move_per_poll() {
    let mut script = Script::new(vec![Move::Park, Move::Yield, Move::Fork(2)]);
    let mut cx = Context::new(4);
    assert_eq!(cx.handle(), handle(4));
    assert_eq!(script.poll(&mut cx), Suspended);
    assert_eq!(script.moves_made(), 1);
    assert!(cx.next_request().is_none());

    let mut cx = Context::new(4);
    assert_eq!(script.poll(&mut cx), Suspended);
    assert_eq!(script.moves_made(), 2);
    assert!(matches!(cx.next_request(), Some(Request::Wake)));
    assert!(cx.next_request().is_none());

    let mut cx = Context::new(4);
    assert_eq!(script.poll(&mut cx), Suspended);
    assert_eq!(script.moves_made(), 3);
    match cx.next_request() {
        Some(Request::Spawn(mut child)) => {
            let mut child_cx = Context::new(5);
            assert_eq!(child.poll(&mut child_cx), Suspended);
            assert_eq!(child.poll(&mut child_cx), Suspended);
            assert_eq!(child.poll(&mut child_cx), Complete);
        }
        _ => panic!("the fork comes before the wake"),
    }
    assert!(matches!(cx.next_request(), Some(Request::Wake)));
    assert!(cx.next_request().is_none());

    let mut cx = Context::new(4);
    assert_eq!(script.poll(&mut cx), Complete);
    assert_eq!(script.moves_made(), 3);
    assert!(cx.next_request().is_none());
}

#[test]
fn ready_tasks_take_turns_in_queue_order() {
    let mut executor = SimpleExecutor::new();
    executor.spawn(Script::yielding(1));
    executor.spawn(Script::yielding(1));
    executor.spawn(Script::yielding(0));
    assert_eq!(
        polls_until_idle(&mut executor),
        vec![(0, Suspended), (1, Suspended), (2, Complete), (0, Complete), (1, Complete)]
    );
}

#[test]
fn completion_follows_wake_order_not_spawn_order() {
    let mut executor = SimpleExecutor::new();
    // A waits for the longer timer, B for the shorter one.
    let a = executor.spawn(Script::new(vec![Move::Park]));
    let b = executor.spawn(Script::new(vec![Move::Park]));
    assert_eq!(polls_until_idle(&mut executor), vec![(0, Suspended), (1, Suspended)]);
    assert!(executor.is_idle());
    assert!(executor.is_live(&a));
    assert!(executor.is_live(&b));
    // The timer of B fires first, that of A later.
    executor.wake(&b);
    executor.wake(&a);
    assert_eq!(polls_until_idle(&mut executor), vec![(1, Complete), (0, Complete)]);
    assert!(!executor.is_live(&a));
    assert!(!executor.is_live(&b));
}

#[test]
fn test_multiple_tasks_concurrent() {
    let mut executor = SimpleExecutor::new();
    let mut handles = Vec::new();
    for _ in 0..3 {
        handles.push(executor.spawn(Script::new(vec![Move::Park])));
    }
    executor.run();
    // All three have started and wait at the same time: none ran to its end
    // before the next one started.
    assert!(executor.is_idle());
    assert!(handles.iter().all(|h| executor.is_live(h)));
    for h in &handles {
        executor.wake(h);
    }
    executor.run();
    assert!(
        handles.iter().all(|h| !executor.is_live(h)),
        "Tasks should run concurrently, not sequentially"
    );
}

#[test]
fn a_parked_task_is_not_polled_until_woken() {
    let mut executor = SimpleExecutor::new();
    let task = executor.spawn(Script::new(vec![Move::Park]));
    executor.run();
    assert_eq!(executor.step(), Step::Idle);
    assert!(executor.is_live(&task));
    executor.wake(&task);
    assert_eq!(executor.ready_len(), 1);
    assert!(executor.is_live(&task));
    executor.run();
    assert!(!executor.is_live(&task));
    assert!(executor.is_idle());
}

#[test]
fn run_leaves_a_parked_task_live() {
    let mut executor = SimpleExecutor::new();
    let parked = executor.spawn(Script::new(vec![Move::Yield, Move::Park, Move::Yield]));
    let done = executor.spawn(Script::yielding(3));
    executor.run();
    assert!(executor.is_idle());
    assert!(executor.is_live(&parked));
    assert!(!executor.is_live(&done));
    executor.wake(&parked);
    executor.run();
    assert!(!executor.is_live(&parked));
}

#[test]
fn spawn_from_within_a_poll_runs_the_new_task() {
    let mut executor = SimpleExecutor::new();
    let parent = executor.spawn(Script::new(vec![Move::Fork(2)]));
    assert_eq!(
        polls_until_idle(&mut executor),
        vec![(0, Suspended), (1, Suspended), (0, Complete), (1, Suspended), (1, Complete)]
    );
    assert_eq!(executor.task_count(), 2);
    assert!(!executor.is_live(&parent));
    assert!(!executor.is_live(&handle(1)));

    let mut executor = SimpleExecutor::new();
    let parent = executor.spawn(Script::new(vec![Move::Fork(2)]));
    executor.run();
    assert_eq!(executor.task_count(), 2);
    assert!(!executor.is_live(&parent));
    assert!(!executor.is_live(&handle(1)));
    assert!(executor.is_idle());
}

#[test]
fn wake_after_completion_is_dropped_without_a_poll() {
    let mut executor = SimpleExecutor::new();
    let task = executor.spawn(Script::new(vec![]));
    executor.run();
    assert!(!executor.is_live(&task));
    executor.wake(&task);
    executor.wake(&task);
    assert_eq!(executor.ready_len(), 2);
    assert_eq!(executor.step(), Step::Skipped(task));
    assert_eq!(executor.ready_len(), 1);
    assert!(matches!(executor.take_next(), Turn::Stale(h) if h == task));
    assert_eq!(executor.step(), Step::Idle);
    assert!(!executor.is_live(&task));
    executor.wake(&task);
    executor.run();
    assert!(executor.is_idle());
    assert!(!executor.is_live(&task));
}

#[test]
fn duplicate_wakes_give_duplicate_entries() {
    let mut executor = SimpleExecutor::new();
    let task = executor.spawn(Script::new(vec![Move::Park, Move::Park]));
    executor.run();
    executor.wake(&task);
    executor.wake(&task);
    assert_eq!(executor.ready_len(), 2);
    assert_eq!(polls_until_idle(&mut executor), vec![(0, Suspended), (0, Complete)]);
}

#[test]
fn wake_of_an_unknown_task_is_ignored() {
    let mut executor: SimpleExecutor<Script> = SimpleExecutor::new();
    executor.wake(&handle(7));
    assert!(executor.is_idle());
    executor.spawn(Script::yielding(0));
    executor.wake(&handle(1));
    assert_eq!(executor.ready_len(), 1);
}

#[test]
fn take_next_and_settle_by_hand() {
    let mut executor = SimpleExecutor::new();
    let task = executor.spawn(Script::yielding(1));
    let (h, mut computation) = match executor.take_next() {
        Turn::Poll(h, c) => (h, c),
        _ => panic!("a live task was queued"),
    };
    assert_eq!(h, task);
    assert!(!executor.is_live(&task));
    assert!(executor.is_idle());
    let mut cx = Context::new(h.task);
    assert_eq!(cx.handle(), task);
    let outcome = computation.poll(&mut cx);
    assert_eq!(outcome, Suspended);
    executor.settle(&h, computation, outcome, cx);
    assert!(executor.is_live(&task));
    assert_eq!(executor.ready_len(), 1);
    let (h, mut computation) = match executor.take_next() {
        Turn::Poll(h, c) => (h, c),
        _ => panic!("the task woke itself"),
    };
    let mut cx = Context::new(h.task);
    let outcome = computation.poll(&mut cx);
    assert_eq!(outcome, Complete);
    executor.settle(&h, computation, outcome, cx);
    assert!(!executor.is_live(&task));
    assert!(matches!(executor.take_next(), Turn::Idle));
}

#[test]
fn a_suspended_task_is_put_back_without_being_queued() {
    let mut executor = SimpleExecutor::new();
    let task = executor.spawn(Script::new(vec![Move::Park]));
    let computation = match executor.take_next() {
        Turn::Poll(_, c) => c,
        _ => panic!("a live task was queued"),
    };
    executor.settle(&task, computation, Suspended, Context::new(task.task));
    assert!(executor.is_live(&task));
    assert_eq!(executor.ready_len(), 0);
}

#[test]
fn requests_are_granted_in_the_order_made() {
    let mut executor: SimpleExecutor<CountingTask> = SimpleExecutor::new();
    let task = executor.spawn(CountingTask::new(0));
    let computation = match executor.take_next() {
        Turn::Poll(_, c) => c,
        _ => panic!("a live task was queued"),
    };
    let mut cx = Context::new(task.task);
    cx.spawn(CountingTask::new(1));
    cx.wake();
    cx.spawn(CountingTask::new(2));
    executor.settle(&task, computation, Suspended, cx);
    assert_eq!(executor.task_count(), 3);
    assert_eq!(executor.ready_len(), 3);
    assert_eq!(executor.step(), Step::Polled(handle(1), Suspended));
    assert_eq!(executor.step(), Step::Polled(handle(0), Complete));
    assert_eq!(executor.step(), Step::Polled(handle(2), Suspended));
}

/// A computation written outside the library: it parks once, then completes,
/// and counts its polls where the test can see them.
struct Probe {
    polls: std::rc::Rc<std::cell::Cell<usize>>,
    parked: bool,
}

impl Computation for Probe {
    fn poll(&mut self, _cx: &mut Context<Self>) -> PollOutcome {
        self.polls.set(self.polls.get() + 1);
        if self.parked {
            Complete
        } else {
            self.parked = true;
            Suspended
        }
    }
}

#[test]
fn a_computation_of_the_caller_is_polled_once_per_turn() {
    let polls = std::rc::Rc::new(std::cell::Cell::new(0));
    let mut executor = SimpleExecutor::new();
    let task = executor.spawn(Probe { polls: polls.clone(), parked: false });
    assert_eq!(polls.get(), 0);
    executor.run();
    assert_eq!(polls.get(), 1);
    executor.run();
    assert_eq!(polls.get(), 1);
    executor.wake(&task);
    executor.run();
    assert_eq!(polls.get(), 2);
    assert!(!executor.is_live(&task));
    executor.wake(&task);
    executor.wake(&task);
    executor.run();
    assert_eq!(polls.get(), 2);
}

#[test]
fn grant_queues_wakes_and_spawns_in_order() {
    let mut executor = SimpleExecutor::new();
    let task = executor.spawn(Script::new(vec![Move::Park]));
    assert_eq!(executor.step(), Step::Polled(task, Suspended));
    let mut cx = Context::new(task.task);
    cx.wake();
    cx.spawn(Script::yielding(0));
    cx.wake();
    executor.grant(&task, cx);
    assert_eq!(executor.task_count(), 2);
    assert_eq!(executor.ready_len(), 3);
    assert_eq!(
        polls_until_idle(&mut executor),
        vec![(0, Complete), (1, Complete)]
    );
}

#[test]
fn state_tells_waiting_from_finished() {
    let mut executor = SimpleExecutor::new();
    assert_eq!(executor.state(), RunState::Finished);
    let task = executor.spawn(Script::new(vec![Move::Park]));
    assert_eq!(executor.state(), RunState::Ready);
    executor.run();
    assert_eq!(executor.state(), RunState::Parked);
    executor.wake(&task);
    assert_eq!(executor.state(), RunState::Ready);
    executor.run();
    assert_eq!(executor.state(), RunState::Finished);
    executor.wake(&task);
    assert_eq!(executor.state(), RunState::Ready);
    executor.run();
    assert_eq!(executor.state(), RunState::Finished);
}

#[test]
fn run_finishes_every_task_that_asks_for_its_wakes() {
    let mut executor = SimpleExecutor::new();
    let mut handles = Vec::new();
    for n in [0usize, 3, 1, 5] {
        handles.push(executor.spawn(Script::yielding(n)));
    }
    handles.push(executor.spawn(Script::new(vec![Move::Fork(4), Move::Yield])));
    executor.run();
    assert_eq!(executor.state(), RunState::Finished);
    assert_eq!(executor.task_count(), 6);
    assert!(handles.iter().all(|h| !executor.is_live(h)));
    assert!(!executor.is_live(&handle(5)));
}

#[test]
fn turns_follow_the_order_of_the_queue() {
    let mut executor = SimpleExecutor::new();
    let a = executor.spawn(Script::new(vec![Move::Park, Move::Park]));
    let b = executor.spawn(Script::new(vec![Move::Park, Move::Park]));
    let c = executor.spawn(Script::new(vec![Move::Yield]));
    executor.run();
    assert_eq!(executor.state(), RunState::Parked);
    executor.wake(&b);
    executor.wake(&a);
    executor.wake(&b);
    executor.wake(&c);
    assert_eq!(
        polls_until_idle(&mut executor),
        vec![(1, Suspended), (0, Suspended), (1, Complete)]
    );
    assert!(executor.is_live(&a));
    assert!(!executor.is_live(&b));
    assert!(!executor.is_live(&c));
}
