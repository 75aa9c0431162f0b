use std::cell::RefCell;
use std::rc::Rc;

use pro_flight::components::event::{Notify, RateLimiter};
use pro_flight::components::schedule::{Schedulable, Scheduler};

struct Recorder {
    name: &'static str,
    rate: usize,
    runs: usize,
    complete: bool,
    log: Rc<RefCell<Vec<&'static str>>>,
}

impl Recorder {
    fn new(name: &'static str, rate: usize, log: &Rc<RefCell<Vec<&'static str>>>) -> Self {
        Self { name, rate, runs: 0, complete: true, log: Rc::clone(log) }
    }
}

impl Schedulable for Recorder {
    fn inv(&self) -> bool {
        true
    }

    fn rate_spec(&self) -> usize {
        self.rate
    }

    fn done(&self) -> bool {
        self.complete
    }

    fn pre_schedule(&mut self) {}

    fn schedule(&mut self) -> bool {
        self.runs += 1;
        self.log.borrow_mut().push(self.name);
        self.complete
    }

    fn post_schedule(&mut self) {}

    fn rate(&self) -> usize {
        self.rate
    }
}

#[test]
fn equal_rate_tasks_tick_every_k_in_order() {
    // Two tasks of rate R under base rate k*R run once every k ticks, in
    // registration order, here with k == 3.
    let log = Rc::new(RefCell::new(Vec::new()));
    let tasks = vec![Recorder::new("a", 1, &log), Recorder::new("b", 1, &log)];
    let mut scheduler = Scheduler::new(tasks, 3);
    for _ in 0..9 {
        assert!(scheduler.schedule());
    }
    assert_eq!(scheduler.schedulables[0].runs, 3);
    assert_eq!(scheduler.schedulables[1].runs, 3);
    assert_eq!(*log.borrow(), vec!["a", "b", "a", "b", "a", "b"]);
}

#[test]
fn incomplete_task_retried_next_tick() {
    // A task whose `schedule` reports incompletion keeps its accumulated
    // ticks, so it runs again on the very next tick instead of waiting a
    // full interval.
    let log = Rc::new(RefCell::new(Vec::new()));
    let mut task = Recorder::new("t", 1, &log);
    task.complete = false;
    let mut scheduler = Scheduler::new(vec![task], 4);
    for _ in 0..3 {
        scheduler.schedule();
    }
    assert_eq!(scheduler.schedulables[0].runs, 0);
    scheduler.schedule();
    assert_eq!(scheduler.schedulables[0].runs, 1);
    assert!(scheduler.task_infos[0].counter >= scheduler.task_infos[0].interval);
    scheduler.schedule();
    assert_eq!(scheduler.schedulables[0].runs, 2);
    scheduler.schedulables[0].complete = true;
    scheduler.schedule();
    assert_eq!(scheduler.schedulables[0].runs, 3);
    assert_eq!(scheduler.task_infos[0].counter, 0);
    // back on the regular cadence: nothing for the next three ticks
    for _ in 0..3 {
        scheduler.schedule();
    }
    assert_eq!(scheduler.schedulables[0].runs, 3);
}

#[test]
fn reentered_scheduler_reports_success_without_running_tasks() {
    // A re-entered tick — the running guard still set — reports success at
    // once and invokes no task, so no task can run twice for one tick.
    let log = Rc::new(RefCell::new(Vec::new()));
    let tasks = vec![Recorder::new("a", 1, &log)];
    let mut scheduler = Scheduler::new(tasks, 1);
    scheduler.running = true;
    assert!(scheduler.schedule());
    assert_eq!(scheduler.schedulables[0].runs, 0);
    assert_eq!(scheduler.task_infos[0].counter, 0);
    scheduler.running = false;
    assert!(scheduler.schedule());
    assert_eq!(scheduler.schedulables[0].runs, 1);
}

#[test]
fn mixed_rates_run_in_registration_order() {
    // Scheduler at base rate 1000 with task a at rate 1000 and task b at
    // rate 100, registered [a, b]: after 10 ticks a has run 10 times and b
    // once, a's tenth run coming before b's first within that tick; after
    // 100 ticks the counts are 100 and 10.
    let log = Rc::new(RefCell::new(Vec::new()));
    let tasks = vec![Recorder::new("a", 1000, &log), Recorder::new("b", 100, &log)];
    let mut scheduler = Scheduler::new(tasks, 1000);
    for _ in 0..10 {
        scheduler.schedule();
    }
    assert_eq!(scheduler.schedulables[0].runs, 10);
    assert_eq!(scheduler.schedulables[1].runs, 1);
    assert_eq!(log.borrow()[9], "a");
    assert_eq!(log.borrow()[10], "b");
    for _ in 0..90 {
        scheduler.schedule();
    }
    assert_eq!(scheduler.schedulables[0].runs, 100);
    assert_eq!(scheduler.schedulables[1].runs, 10);
}

#[test]
fn faster_than_base_rate_is_clamped() {
    // A task declaring a rate above the base rate is clamped to one run
    // per tick instead of starving or dividing to zero.
    let log = Rc::new(RefCell::new(Vec::new()));
    let tasks = vec![Recorder::new("a", 4000, &log)];
    let mut scheduler = Scheduler::new(tasks, 1000);
    assert_eq!(scheduler.task_infos[0].interval, 1);
    for _ in 0..5 {
        scheduler.schedule();
    }
    assert_eq!(scheduler.schedulables[0].runs, 5);
}

#[test]
fn nested_scheduler_composes() {
    // A scheduler is itself schedulable: an inner scheduler registered in
    // an outer one at rate 1 gets every base tick.
    let log = Rc::new(RefCell::new(Vec::new()));
    let inner = Scheduler::new(vec![Recorder::new("x", 1, &log)], 2);
    let mut outer = Scheduler::new(vec![inner], 2);
    for _ in 0..8 {
        outer.schedule();
    }
    // the inner scheduler's rate equals the base rate, so it takes every
    // tick; its own task runs every second one of them
    assert_eq!(outer.schedulables[0].schedulables[0].runs, 4);
}

struct Pulse {
    fired: Rc<RefCell<usize>>,
}

impl Schedulable for Pulse {
    fn inv(&self) -> bool {
        true
    }

    fn rate_spec(&self) -> usize {
        50
    }

    fn done(&self) -> bool {
        true
    }

    fn pre_schedule(&mut self) {}

    fn schedule(&mut self) -> bool {
        *self.fired.borrow_mut() += 1;
        true
    }

    fn post_schedule(&mut self) {}

    fn rate(&self) -> usize {
        50
    }
}

#[test]
fn notify_bursts_coalesce_into_one_run() {
    let fired = Rc::new(RefCell::new(0));
    let mut limiter = RateLimiter::new(Pulse { fired: Rc::clone(&fired) }, 50);
    // no notification: a scheduled slot runs nothing
    assert!(Schedulable::schedule(&mut limiter));
    assert_eq!(*fired.borrow(), 0);
    // a burst of notifications coalesces into a single pending run
    limiter.notify();
    limiter.notify();
    limiter.notify();
    assert!(Schedulable::schedule(&mut limiter));
    assert_eq!(*fired.borrow(), 1);
    // the request was consumed: the next slot runs nothing again
    assert!(Schedulable::schedule(&mut limiter));
    assert_eq!(*fired.borrow(), 1);
}
