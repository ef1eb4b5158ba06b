use hearth::runtime::{Background, RtTimer, Tasks};

// One-shot task, duration 200 ms, synchronous: with polls every 50 ms it
// fires once between 200 and 700 ms and never again.
#[test]
fn one_shot_fires_exactly_once() {
    let mut tasks = Tasks::empty();
    let action: u64 = 7;
    let descriptor = tasks.create_task(action, 200, false, false, 0);
    let mut fired_times: Vec<u128> = Vec::new();
    let mut t: u128 = 0;
    while t <= 1200 {
        if let Some(fired) = tasks.poll(t) {
            assert_eq!(fired.descriptor, descriptor);
            assert_eq!(fired.action, action);
            assert!(!fired.is_async);
            fired_times.push(t);
        }
        t += 50;
    }
    assert_eq!(fired_times.len(), 1);
    assert!(fired_times[0] >= 200 && fired_times[0] <= 700);
    assert_eq!(tasks.len(), 0);
}

// Regular task, interval 100 ms, observed for 350 ms, then cancelled:
// 3 or 4 invocations, none after the cancellation.
#[test]
fn regular_task_cadence_and_cancel() {
    let mut tasks = Tasks::empty();
    let descriptor = tasks.create_task(9, 100, true, true, 0);
    let mut count: usize = 0;
    let mut t: u128 = 0;
    while t <= 350 {
        if let Some(fired) = tasks.poll(t) {
            assert_eq!(fired.descriptor, descriptor);
            assert!(fired.is_async);
            count += 1;
        }
        t += 10;
    }
    assert!(count == 3 || count == 4);
    tasks.remove_task(descriptor);
    let mut t2: u128 = 350;
    while t2 <= 650 {
        assert!(tasks.poll(t2).is_none());
        t2 += 10;
    }
}

// Re-arming a timer replaces the pending task: one firing, from the second
// call's deadline, never from the first.
#[test]
fn rearm_replaces_pending_task() {
    let mut tasks = Tasks::empty();
    let mut timer = RtTimer::new(false);
    timer.after(&mut tasks, 1000, 1, 0);
    // before the first deadline, re-arm with a longer duration
    assert!(tasks.poll(500).is_none());
    timer.after(&mut tasks, 2000, 2, 500);
    // the first task's deadline passes without a firing
    assert!(tasks.poll(1100).is_none());
    assert!(tasks.poll(2400).is_none());
    // the second fires at 500 + 2000
    let fired = tasks.poll(2500).expect("due task must fire");
    assert_eq!(fired.action, 2);
    assert_eq!(tasks.len(), 0);
    assert!(tasks.poll(10_000).is_none());
}

// stop() before the deadline prevents the firing entirely; observing for
// twice the duration shows nothing.
#[test]
fn stop_prevents_firing() {
    let mut tasks = Tasks::empty();
    let mut timer = RtTimer::new(false);
    timer.after(&mut tasks, 300, 4, 0);
    timer.stop(&mut tasks);
    let mut t: u128 = 0;
    while t <= 600 {
        assert!(tasks.poll(t).is_none());
        t += 25;
    }
    // stopping again is a harmless no-op
    timer.stop(&mut tasks);
    assert_eq!(tasks.len(), 0);
}

// Interleaved after() calls keep at most one live task per handle.
#[test]
fn at_most_one_task_per_handle() {
    let mut tasks = Tasks::empty();
    let mut timer = RtTimer::new(false);
    timer.after(&mut tasks, 100, 1, 0);
    timer.after(&mut tasks, 200, 2, 1);
    timer.after(&mut tasks, 300, 3, 2);
    timer.after(&mut tasks, 400, 4, 3);
    assert_eq!(tasks.len(), 1);
    let fired = tasks.poll(403).expect("last armed task fires");
    assert_eq!(fired.action, 4);
    assert!(tasks.poll(10_000).is_none());
}

// A handle's timer fires once, and can be re-armed after a stop; the
// second arming fires too.
#[test]
fn timer_fires_after_rearm() {
    let mut tasks = Tasks::empty();
    let mut timer = RtTimer::new(false);
    timer.after(&mut tasks, 1000, 11, 0);
    let fired = tasks.poll(1000).expect("first arming fires");
    assert_eq!(fired.action, 11);
    timer.stop(&mut tasks);
    timer.after(&mut tasks, 1000, 12, 2000);
    let fired = tasks.poll(3000).expect("second arming fires");
    assert_eq!(fired.action, 12);
}

// A Background task re-arms itself; stop ends it.
#[test]
fn background_task_repeats_until_stopped() {
    let mut tasks = Tasks::empty();
    let bg = Background::every(&mut tasks, 500, true, 21, 0);
    assert!(tasks.poll(499).is_none());
    assert!(tasks.poll(500).is_some());
    assert!(tasks.poll(999).is_none());
    assert!(tasks.poll(1000).is_some());
    bg.stop(&mut tasks);
    assert!(tasks.poll(5000).is_none());
    assert_eq!(tasks.len(), 0);
}

// reset_task_time pushes an existing task's next firing back.
#[test]
fn reset_task_time_defers_firing() {
    let mut tasks = Tasks::empty();
    let descriptor = tasks.create_task(5, 100, false, false, 0);
    tasks.reset_task_time(descriptor, 400);
    assert!(tasks.poll(150).is_none());
    assert!(tasks.poll(499).is_none());
    let fired = tasks.poll(500).expect("deferred task fires");
    assert_eq!(fired.descriptor, descriptor);
}

// The earliest deadline fires first, and due_task names it.
#[test]
fn earliest_deadline_first() {
    let mut tasks = Tasks::empty();
    let slow = tasks.create_task(1, 900, false, false, 0);
    let fast = tasks.create_task(2, 100, false, false, 0);
    assert_eq!(tasks.due_task(50), None);
    assert_eq!(tasks.due_task(901), Some(fast));
    let first = tasks.poll(901).expect("fast task fires first");
    assert_eq!(first.descriptor, fast);
    let second = tasks.poll(901).expect("slow task fires next");
    assert_eq!(second.descriptor, slow);
}

// The wall clock reads as nonzero milliseconds and does not run backwards
// between two immediate reads.
#[test]
fn clock_reads_milliseconds() {
    let first = hearth::runtime::time_ms();
    let second = hearth::runtime::time_ms();
    assert!(first > 0);
    assert!(second >= first);
}
