//! The task table: pending deferred actions keyed by ascending descriptors,
//! with a cached earliest deadline, the poll step a scheduler thread drives,
//! and the timer handles built on top of it. All times are milliseconds;
//! callers pass the current time in, so the scheduling logic itself is
//! deterministic and the clock stays swappable.

use vstd::prelude::*;

verus! {

/// Identifies the action a task runs; the embedding program maps each
/// identifier to the closure or device operation it stands for.
pub type ActionId = u64;

/// One deferred unit of work.
#[derive(Clone, Copy)]
pub struct Task {
    /// Time (ms) of creation or of the last firing.
    pub last_run: u128,
    /// The task becomes due `duration` ms after `last_run`.
    pub duration: u128,
    /// What to run when the task fires.
    pub action: ActionId,
    /// A fired async task is handed to a worker pool; a synchronous one
    /// runs inline on the scheduler thread.
    pub is_async: bool,
    /// A regular task re-arms itself after each firing; a one-shot task is
    /// removed once it has fired.
    pub is_regular: bool,
}

impl Task {
    /// The deadline arithmetic never wraps.
    pub open spec fn wf(self) -> bool {
        self.last_run + self.duration <= u128::MAX
    }

    /// The time at which the task becomes due.
    pub open spec fn spec_next_run(self) -> int {
        self.last_run + self.duration
    }

    pub fn new(duration: u128, action: ActionId, is_async: bool, is_regular: bool, now: u128) -> (t: Task)
        requires
            now + duration <= u128::MAX,
        ensures
            t == (Task { last_run: now, duration, action, is_async, is_regular }),
            t.wf(),
    {
        Task { last_run: now, duration, action, is_async, is_regular }
    }

    pub fn next_run(&self) -> (r: u128)
        requires
            self.wf(),
        ensures
            r == self.spec_next_run(),
    {
        self.last_run + self.duration
    }
}

/// The cached earliest deadline: the first time any pending task becomes
/// due, and the descriptor of that task.
#[derive(Clone, Copy)]
pub struct NextTask {
    pub task_time: u128,
    pub descriptor: u128,
}

/// What one poll step decided to fire.
#[derive(Clone, Copy, PartialEq, Eq, Structural)]
pub struct Fired {
    pub descriptor: u128,
    pub action: ActionId,
    pub is_async: bool,
}

/// The map a sequence of (descriptor, task) entries stands for.
pub open spec fn map_of(s: Seq<(u128, Task)>) -> Map<u128, Task>
    decreases s.len(),
{
    if s.len() == 0 {
        Map::empty()
    } else {
        map_of(s.drop_last()).insert(s.last().0, s.last().1)
    }
}

/// No two entries share a descriptor.
pub open spec fn keys_distinct(s: Seq<(u128, Task)>) -> bool {
    forall|i: int, j: int| 0 <= i < j < s.len() ==> s[i].0 != s[j].0
}

/// Descriptors grow strictly from front to back.
pub open spec fn keys_ascending(s: Seq<(u128, Task)>) -> bool {
    forall|i: int, j: int| 0 <= i < j < s.len() ==> s[i].0 < s[j].0
}

proof fn lemma_ascending_implies_distinct(s: Seq<(u128, Task)>)
    requires
        keys_ascending(s),
    ensures
        keys_distinct(s),
{
}

/// A descriptor is in the map exactly when some entry carries it.
proof fn lemma_map_of_contains(s: Seq<(u128, Task)>, d: u128)
    ensures
        map_of(s).dom().contains(d) <==> (exists|i: int| 0 <= i < s.len() && s[i].0 == d),
    decreases s.len(),
{
    if s.len() > 0 {
        lemma_map_of_contains(s.drop_last(), d);
        if s.last().0 == d {
            assert(s[s.len() - 1].0 == d);
        } else {
            if exists|i: int| 0 <= i < s.len() && s[i].0 == d {
                let i = choose|i: int| 0 <= i < s.len() && s[i].0 == d;
                assert(s.drop_last()[i].0 == d);
            }
        }
    }
}

/// With distinct descriptors, each entry is what the map holds for its key.
proof fn lemma_map_of_index(s: Seq<(u128, Task)>, i: int)
    requires
        keys_distinct(s),
        0 <= i < s.len(),
    ensures
        map_of(s).dom().contains(s[i].0),
        map_of(s)[s[i].0] == s[i].1,
    decreases s.len(),
{
    if i == s.len() - 1 {
    } else {
        lemma_map_of_index(s.drop_last(), i);
        assert(s.drop_last()[i] == s[i]);
        assert(s.last().0 != s[i].0);
    }
}

/// With distinct descriptors, the map has exactly one key per entry.
proof fn lemma_map_of_dom_len(s: Seq<(u128, Task)>)
    requires
        keys_distinct(s),
    ensures
        map_of(s).dom().finite(),
        map_of(s).dom().len() == s.len(),
    decreases s.len(),
{
    if s.len() == 0 {
        assert(map_of(s).dom() =~= Set::<u128>::empty());
    } else {
        lemma_map_of_dom_len(s.drop_last());
        lemma_map_of_contains(s.drop_last(), s.last().0);
        assert(forall|i: int| 0 <= i < s.drop_last().len() ==> s.drop_last()[i] == s[i]);
        assert(!map_of(s.drop_last()).dom().contains(s.last().0));
        assert(map_of(s).dom() =~= map_of(s.drop_last()).dom().insert(s.last().0));
    }
}

/// Appending a fresh entry inserts it into the map.
proof fn lemma_map_of_push(s: Seq<(u128, Task)>, e: (u128, Task))
    ensures
        map_of(s.push(e)) == map_of(s).insert(e.0, e.1),
{
    assert(s.push(e).drop_last() =~= s);
    assert(s.push(e).last() == e);
}

/// Removing the entry at one index removes its key from the map.
proof fn lemma_map_of_remove(s: Seq<(u128, Task)>, i: int)
    requires
        keys_distinct(s),
        0 <= i < s.len(),
    ensures
        map_of(s.remove(i)) =~= map_of(s).remove(s[i].0),
    decreases s.len(),
{
    if i == s.len() - 1 {
        assert(s.remove(i) =~= s.drop_last());
        lemma_map_of_contains(s.drop_last(), s.last().0);
        assert(forall|j: int| 0 <= j < s.drop_last().len() ==> s.drop_last()[j] == s[j]);
        assert(!map_of(s.drop_last()).dom().contains(s.last().0));
        assert(map_of(s.drop_last()).insert(s.last().0, s.last().1).remove(s.last().0)
            =~= map_of(s.drop_last()));
    } else {
        assert(s.remove(i).drop_last() =~= s.drop_last().remove(i));
        assert(s.remove(i).last() == s.last());
        lemma_map_of_remove(s.drop_last(), i);
        assert(s.drop_last()[i] == s[i]);
        assert(map_of(s.remove(i)) == map_of(s.drop_last().remove(i)).insert(s.last().0, s.last().1));
        assert(map_of(s.drop_last()).remove(s[i].0).insert(s.last().0, s.last().1)
            =~= map_of(s.drop_last()).insert(s.last().0, s.last().1).remove(s[i].0));
    }
}

/// Replacing the task at one index updates its key in the map.
proof fn lemma_map_of_update(s: Seq<(u128, Task)>, i: int, t: Task)
    requires
        keys_distinct(s),
        0 <= i < s.len(),
    ensures
        map_of(s.update(i, (s[i].0, t))) =~= map_of(s).insert(s[i].0, t),
    decreases s.len(),
{
    if i == s.len() - 1 {
        assert(s.update(i, (s[i].0, t)).drop_last() =~= s.drop_last());
        assert(map_of(s.drop_last()).insert(s.last().0, s.last().1).insert(s[i].0, t)
            =~= map_of(s.drop_last()).insert(s[i].0, t));
    } else {
        assert(s.update(i, (s[i].0, t)).drop_last() =~= s.drop_last().update(i, (s[i].0, t)));
        assert(s.update(i, (s[i].0, t)).last() == s.last());
        lemma_map_of_update(s.drop_last(), i, t);
        assert(s.drop_last()[i] == s[i]);
        assert(map_of(s.drop_last()).insert(s[i].0, t).insert(s.last().0, s.last().1)
            =~= map_of(s.drop_last()).insert(s.last().0, s.last().1).insert(s[i].0, t));
    }
}

/// The cache names a live task whose deadline no other task undercuts.
pub open spec fn cache_ok(s: Seq<(u128, Task)>, cache: Option<NextTask>) -> bool {
    match cache {
        None => s.len() == 0,
        Some(nt) => {
            &&& exists|i: int|
                0 <= i < s.len() && s[i].0 == nt.descriptor && s[i].1.spec_next_run()
                    == nt.task_time
            &&& forall|i: int| 0 <= i < s.len() ==> s[i].1.spec_next_run() >= nt.task_time
        },
    }
}

/// The set of pending tasks, keyed by unique ascending descriptors, with a
/// cached earliest deadline.
pub struct Tasks {
    tasks: Vec<(u128, Task)>,
    next_task: Option<NextTask>,
    counter: u128,
}

impl View for Tasks {
    type V = Map<u128, Task>;

    closed spec fn view(&self) -> Map<u128, Task> {
        map_of(self.tasks@)
    }
}

impl Tasks {
    /// The entries as stored, in descriptor order.
    pub closed spec fn entries(self) -> Seq<(u128, Task)> {
        self.tasks@
    }

    /// The last descriptor handed out; descriptors are never reused.
    pub closed spec fn spec_counter(self) -> u128 {
        self.counter
    }

    pub closed spec fn wf(self) -> bool {
        &&& keys_ascending(self.tasks@)
        &&& forall|i: int| 0 <= i < self.tasks@.len() ==> (#[trigger] self.tasks@[i]).1.wf()
        &&& forall|i: int| 0 <= i < self.tasks@.len() ==> (#[trigger] self.tasks@[i]).0 <= self.counter
        &&& cache_ok(self.tasks@, self.next_task)
    }

    /// Every live descriptor was handed out by `create_task`.
    pub proof fn lemma_keys_bounded(self)
        requires
            self.wf(),
        ensures
            forall|d: u128| #[trigger] self@.dom().contains(d) ==> d <= self.spec_counter(),
    {
        lemma_ascending_implies_distinct(self.tasks@);
        assert forall|d: u128| #[trigger] self@.dom().contains(d) implies d <= self.spec_counter() by {
            lemma_map_of_contains(self.tasks@, d);
        }
    }

    /// Every live task has sane deadline arithmetic.
    pub proof fn lemma_tasks_wf(self)
        requires
            self.wf(),
        ensures
            forall|d: u128| #[trigger] self@.dom().contains(d) ==> self@[d].wf(),
    {
        lemma_ascending_implies_distinct(self.tasks@);
        assert forall|d: u128| #[trigger] self@.dom().contains(d) implies self@[d].wf() by {
            lemma_map_of_contains(self.tasks@, d);
            let i = choose|i: int| 0 <= i < self.tasks@.len() && self.tasks@[i].0 == d;
            lemma_map_of_index(self.tasks@, i);
        }
    }

    pub fn empty() -> (t: Tasks)
        ensures
            t.wf(),
            t@ == Map::<u128, Task>::empty(),
            t.spec_counter() == 0,
    {
        Tasks { tasks: Vec::new(), next_task: None, counter: 0 }
    }

    /// How many tasks are pending.
    pub fn len(&self) -> (n: usize)
        requires
            self.wf(),
        ensures
            n == self@.dom().len(),
    {
        proof {
            lemma_ascending_implies_distinct(self.tasks@);
            lemma_map_of_dom_len(self.tasks@);
        }
        self.tasks.len()
    }

    /// Recomputes the cached earliest deadline from the stored entries.
    fn compute_next_task(&mut self)
        requires
            keys_ascending(old(self).tasks@),
            forall|i: int| 0 <= i < old(self).tasks@.len() ==> (#[trigger] old(self).tasks@[i]).1.wf(),
        ensures
            final(self).tasks@ == old(self).tasks@,
            final(self).counter == old(self).counter,
            cache_ok(final(self).tasks@, final(self).next_task),
    {
        let mut best: Option<NextTask> = None;
        let mut idx: usize = 0;
        while idx < self.tasks.len()
            invariant
                idx <= self.tasks@.len(),
                self.tasks@ == old(self).tasks@,
                self.counter == old(self).counter,
                forall|i: int| 0 <= i < self.tasks@.len() ==> (#[trigger] self.tasks@[i]).1.wf(),
                best matches None ==> idx == 0,
                best matches Some(b) ==> exists|i: int|
                    0 <= i < idx && self.tasks@[i].0 == b.descriptor && self.tasks@[i].1.spec_next_run() == b.task_time,
                best matches Some(b) ==> forall|i: int|
                    0 <= i < idx ==> self.tasks@[i].1.spec_next_run() >= b.task_time,
            decreases self.tasks@.len() - idx,
        {
            let entry = self.tasks[idx];
            let nr = entry.1.next_run();
            match best {
                None => {
                    best = Some(NextTask { task_time: nr, descriptor: entry.0 });
                },
                Some(b) => {
                    if nr < b.task_time {
                        best = Some(NextTask { task_time: nr, descriptor: entry.0 });
                    }
                },
            }
            idx = idx + 1;
        }
        self.next_task = best;
    }

    /// Allocates the next descriptor and inserts a task that becomes due
    /// `duration` ms from `now`. Always succeeds; the new descriptor was
    /// never live before.
    pub fn create_task(
        &mut self,
        action: ActionId,
        duration: u128,
        is_async: bool,
        is_regular: bool,
        now: u128,
    ) -> (descriptor: u128)
        requires
            old(self).wf(),
            old(self).spec_counter() < u128::MAX,
            now + duration <= u128::MAX,
        ensures
            final(self).wf(),
            descriptor == old(self).spec_counter() + 1,
            final(self).spec_counter() == descriptor,
            !old(self)@.dom().contains(descriptor),
            final(self)@ == old(self)@.insert(
                descriptor,
                (Task { last_run: now, duration, action, is_async, is_regular }),
            ),
    {
        proof {
            lemma_ascending_implies_distinct(self.tasks@);
            lemma_map_of_contains(self.tasks@, (self.counter + 1) as u128);
            lemma_map_of_push(
                self.tasks@,
                ((self.counter + 1) as u128, Task { last_run: now, duration, action, is_async, is_regular }),
            );
        }
        self.counter = self.counter + 1;
        let descriptor = self.counter;
        let task = Task::new(duration, action, is_async, is_regular, now);
        self.tasks.push((descriptor, task));
        self.compute_next_task();
        descriptor
    }

    /// Looks up the position of a descriptor among the stored entries.
    fn find_index(&self, descriptor: u128) -> (r: Option<usize>)
        requires
            self.wf(),
        ensures
            match r {
                Some(i) => {
                    &&& i < self.entries().len()
                    &&& self.entries()[i as int].0 == descriptor
                    &&& self@.dom().contains(descriptor)
                    &&& self@[descriptor] == self.entries()[i as int].1
                },
                None => !self@.dom().contains(descriptor),
            },
    {
        proof {
            lemma_ascending_implies_distinct(self.tasks@);
        }
        let mut idx: usize = 0;
        while idx < self.tasks.len()
            invariant
                idx <= self.tasks@.len(),
                keys_distinct(self.tasks@),
                forall|i: int| 0 <= i < idx ==> (#[trigger] self.tasks@[i]).0 != descriptor,
            decreases self.tasks@.len() - idx,
        {
            if self.tasks[idx].0 == descriptor {
                proof {
                    lemma_map_of_index(self.tasks@, idx as int);
                }
                return Some(idx);
            }
            idx = idx + 1;
        }
        proof {
            lemma_map_of_contains(self.tasks@, descriptor);
            if self@.dom().contains(descriptor) {
                let i = choose|i: int| 0 <= i < self.tasks@.len() && self.tasks@[i].0 == descriptor;
                assert(self.tasks@[i].0 != descriptor);
            }
        }
        None
    }

    /// Cancels a task. Removing an unknown or already-expired descriptor is
    /// a silent no-op, so cancellation is idempotent.
    pub fn remove_task(&mut self, descriptor: u128)
        requires
            old(self).wf(),
        ensures
            final(self).wf(),
            final(self)@ == old(self)@.remove(descriptor),
            final(self).spec_counter() == old(self).spec_counter(),
    {
        proof {
            lemma_ascending_implies_distinct(self.tasks@);
        }
        let found = self.find_index(descriptor);
        match found {
            Some(i) => {
                proof {
                    lemma_map_of_remove(self.tasks@, i as int);
                }
                self.tasks.remove(i);
                assert(keys_ascending(self.tasks@));
                self.compute_next_task();
            },
            None => {
                proof {
                    lemma_map_of_contains(self.tasks@, descriptor);
                    assert(self@.remove(descriptor) =~= self@);
                }
            },
        }
    }

    /// Pushes a still-live task's next firing back to `now + duration`
    /// without cancelling it; does nothing for an unknown descriptor.
    pub fn reset_task_time(&mut self, descriptor: u128, now: u128)
        requires
            old(self).wf(),
            old(self)@.dom().contains(descriptor) ==> now + old(self)@[descriptor].duration <= u128::MAX,
        ensures
            final(self).wf(),
            final(self).spec_counter() == old(self).spec_counter(),
            final(self)@ == spec_reset(old(self)@, descriptor, now),
    {
        proof {
            lemma_ascending_implies_distinct(self.tasks@);
            lemma_map_of_contains(self.tasks@, descriptor);
        }
        let found = self.find_index(descriptor);
        match found {
            Some(i) => {
                proof {
                    lemma_map_of_index(self.tasks@, i as int);
                }
                let entry = self.tasks[i];
                let updated = Task {
                    last_run: now,
                    duration: entry.1.duration,
                    action: entry.1.action,
                    is_async: entry.1.is_async,
                    is_regular: entry.1.is_regular,
                };
                proof {
                    lemma_map_of_update(self.tasks@, i as int, updated);
                }
                self.tasks.set(i, (entry.0, updated));
                assert(keys_ascending(self.tasks@));
                self.compute_next_task();
            },
            None => {},
        }
    }

    /// The due-check a scheduler thread runs under a shared lock: the
    /// descriptor of the earliest-deadline task if that deadline has
    /// passed, and nothing otherwise.
    pub fn due_task(&self, now: u128) -> (r: Option<u128>)
        requires
            self.wf(),
        ensures
            match r {
                Some(d) => spec_is_due(self@, d, now) && forall|d2: u128|
                    #[trigger] self@.dom().contains(d2) ==> self@[d].spec_next_run()
                        <= self@[d2].spec_next_run(),
                None => spec_no_task_due(self@, now),
            },
    {
        proof {
            lemma_ascending_implies_distinct(self.tasks@);
        }
        match self.next_task {
            Some(nt) => {
                if nt.task_time <= now {
                    proof {
                        let i = choose|i: int|
                            0 <= i < self.tasks@.len() && self.tasks@[i].0 == nt.descriptor
                                && self.tasks@[i].1.spec_next_run() == nt.task_time;
                        lemma_map_of_index(self.tasks@, i);
                        assert forall|d2: u128| #[trigger] self@.dom().contains(d2)
                            implies self@[nt.descriptor].spec_next_run() <= self@[d2].spec_next_run() by {
                            lemma_map_of_contains(self.tasks@, d2);
                            let j = choose|j: int| 0 <= j < self.tasks@.len() && self.tasks@[j].0 == d2;
                            lemma_map_of_index(self.tasks@, j);
                        };
                    }
                    Some(nt.descriptor)
                } else {
                    proof {
                        assert forall|d2: u128| #[trigger] self@.dom().contains(d2)
                            implies self@[d2].spec_next_run() > now by {
                            lemma_map_of_contains(self.tasks@, d2);
                            let j = choose|j: int| 0 <= j < self.tasks@.len() && self.tasks@[j].0 == d2;
                            lemma_map_of_index(self.tasks@, j);
                        };
                    }
                    None
                }
            },
            None => {
                proof {
                    assert forall|d2: u128| #[trigger] self@.dom().contains(d2)
                        implies self@[d2].spec_next_run() > now by {
                        lemma_map_of_contains(self.tasks@, d2);
                    };
                }
                None
            },
        }
    }

    /// Fires a task the caller has found due. A regular task is re-armed
    /// from `now` before its action is handed out, so a slow action cannot
    /// cause runaway re-firing; a one-shot task is removed. The action
    /// itself is returned, never run under the table's lock.
    pub fn run_task(&mut self, descriptor: u128, now: u128) -> (r: Option<Fired>)
        requires
            old(self).wf(),
            old(self)@.dom().contains(descriptor) && old(self)@[descriptor].is_regular ==> now
                + old(self)@[descriptor].duration <= u128::MAX,
        ensures
            final(self).wf(),
            final(self).spec_counter() == old(self).spec_counter(),
            final(self)@ == spec_fire(old(self)@, descriptor, now),
            match r {
                Some(f) => old(self)@.dom().contains(descriptor) && f == (Fired {
                    descriptor,
                    action: old(self)@[descriptor].action,
                    is_async: old(self)@[descriptor].is_async,
                }),
                None => !old(self)@.dom().contains(descriptor),
            },
    {
        proof {
            lemma_ascending_implies_distinct(self.tasks@);
            lemma_map_of_contains(self.tasks@, descriptor);
        }
        let found = self.find_index(descriptor);
        match found {
            Some(i) => {
                proof {
                    lemma_map_of_index(self.tasks@, i as int);
                }
                let entry = self.tasks[i];
                let fired = Fired {
                    descriptor,
                    action: entry.1.action,
                    is_async: entry.1.is_async,
                };
                if entry.1.is_regular {
                    let updated = Task {
                        last_run: now,
                        duration: entry.1.duration,
                        action: entry.1.action,
                        is_async: entry.1.is_async,
                        is_regular: entry.1.is_regular,
                    };
                    proof {
                        lemma_map_of_update(self.tasks@, i as int, updated);
                    }
                    self.tasks.set(i, (entry.0, updated));
                    assert(keys_ascending(self.tasks@));
                    self.compute_next_task();
                } else {
                    proof {
                        lemma_map_of_remove(self.tasks@, i as int);
                    }
                    self.tasks.remove(i);
                    assert(keys_ascending(self.tasks@));
                    self.compute_next_task();
                }
                Some(fired)
            },
            None => {
                proof {
                    assert(spec_fire(self@, descriptor, now) =~= self@);
                }
                None
            },
        }
    }

    /// Whether every regular task's re-arm arithmetic stays in range when
    /// fired at `now`; the poll step asks its caller for exactly this.
    pub fn deadlines_in_range(&self, now: u128) -> (r: bool)
        requires
            self.wf(),
        ensures
            r == (forall|d: u128|
                #[trigger] self@.dom().contains(d) && self@[d].is_regular ==> now + self@[d].duration
                    <= u128::MAX),
    {
        proof {
            lemma_ascending_implies_distinct(self.tasks@);
        }
        let mut idx: usize = 0;
        while idx < self.tasks.len()
            invariant
                idx <= self.tasks@.len(),
                keys_distinct(self.tasks@),
                forall|i: int|
                    0 <= i < idx ==> ((#[trigger] self.tasks@[i]).1.is_regular ==> now
                        + self.tasks@[i].1.duration <= u128::MAX),
            decreases self.tasks@.len() - idx,
        {
            let entry = self.tasks[idx];
            if entry.1.is_regular && now > u128::MAX - entry.1.duration {
                proof {
                    lemma_map_of_index(self.tasks@, idx as int);
                    assert(self@.dom().contains(entry.0));
                    assert(self@[entry.0] == entry.1);
                }
                return false;
            }
            idx = idx + 1;
        }
        proof {
            assert forall|d: u128|
                #[trigger] self@.dom().contains(d) && self@[d].is_regular implies now
                + self@[d].duration <= u128::MAX by {
                lemma_map_of_contains(self.tasks@, d);
                let i = choose|i: int| 0 <= i < self.tasks@.len() && self.tasks@[i].0 == d;
                lemma_map_of_index(self.tasks@, i);
            }
        }
        true
    }

    /// One iteration of the scheduler loop: fire the earliest-deadline task
    /// if it is due, else report that nothing was due (and the thread may
    /// sleep one poll interval). Whenever any task is due, something fires.
    pub fn poll(&mut self, now: u128) -> (r: Option<Fired>)
        requires
            old(self).wf(),
            forall|d: u128| #[trigger] old(self)@.dom().contains(d) && old(self)@[d].is_regular
                ==> now + old(self)@[d].duration <= u128::MAX,
        ensures
            final(self).wf(),
            final(self).spec_counter() == old(self).spec_counter(),
            match r {
                Some(f) => {
                    &&& spec_is_due(old(self)@, f.descriptor, now)
                    &&& f.action == old(self)@[f.descriptor].action
                    &&& f.is_async == old(self)@[f.descriptor].is_async
                    &&& forall|d2: u128| #[trigger] old(self)@.dom().contains(d2)
                        ==> old(self)@[f.descriptor].spec_next_run() <= old(self)@[d2].spec_next_run()
                    &&& final(self)@ == spec_fire(old(self)@, f.descriptor, now)
                },
                None => spec_no_task_due(old(self)@, now) && final(self)@ == old(self)@,
            },
    {
        let due = self.due_task(now);
        match due {
            Some(d) => self.run_task(d, now),
            None => None,
        }
    }
}

/// True when task `d` is live and its deadline has passed.
pub open spec fn spec_is_due(m: Map<u128, Task>, d: u128, now: u128) -> bool {
    m.dom().contains(d) && m[d].spec_next_run() <= now
}

/// True when no live task is due at `now`.
pub open spec fn spec_no_task_due(m: Map<u128, Task>, now: u128) -> bool {
    forall|d: u128| #[trigger] m.dom().contains(d) ==> m[d].spec_next_run() > now
}

/// What firing task `d` at `now` does to the table: a regular task is
/// re-armed from `now`, a one-shot task is removed, an absent descriptor
/// changes nothing.
pub open spec fn spec_fire(m: Map<u128, Task>, d: u128, now: u128) -> Map<u128, Task> {
    if !m.dom().contains(d) {
        m
    } else if m[d].is_regular {
        m.insert(
            d,
            Task {
                last_run: now,
                duration: m[d].duration,
                action: m[d].action,
                is_async: m[d].is_async,
                is_regular: m[d].is_regular,
            },
        )
    } else {
        m.remove(d)
    }
}

/// What resetting task `d` to run `m[d].duration` ms after `now` does to
/// the table; an absent descriptor changes nothing.
pub open spec fn spec_reset(m: Map<u128, Task>, d: u128, now: u128) -> Map<u128, Task> {
    if m.dom().contains(d) {
        m.insert(
            d,
            Task {
                last_run: now,
                duration: m[d].duration,
                action: m[d].action,
                is_async: m[d].is_async,
                is_regular: m[d].is_regular,
            },
        )
    } else {
        m
    }
}

/// What creating a task under counter `counter` does to the table: the
/// next descriptor is handed out and the task becomes due `duration` ms
/// after `now`.
pub open spec fn spec_create(
    m: Map<u128, Task>,
    counter: u128,
    duration: u128,
    action: ActionId,
    is_async: bool,
    is_regular: bool,
    now: u128,
) -> Map<u128, Task> {
    m.insert(
        ((counter + 1) as u128),
        Task { last_run: now, duration, action, is_async, is_regular },
    )
}

/// What cancelling a handle's held descriptor, if any, does to the table.
pub open spec fn spec_stop(m: Map<u128, Task>, held: Option<u128>) -> Map<u128, Task> {
    match held {
        Some(d) => m.remove(d),
        None => m,
    }
}

/// What one `after` call does to the table: the held task, if any, is
/// cancelled first, then a fresh one-shot task is created.
pub open spec fn spec_after(
    m: Map<u128, Task>,
    held: Option<u128>,
    counter: u128,
    duration: u128,
    action: ActionId,
    is_async: bool,
    now: u128,
) -> Map<u128, Task> {
    spec_create(spec_stop(m, held), counter, duration, action, is_async, false, now)
}

/// A one-shot timer handle. It holds at most one live descriptor: re-arming
/// cancels the previously held task before creating the new one, and `stop`
/// cancels it outright. The embedding program owns the lock around the task
/// table and calls `stop` when the handle's owner goes away.
pub struct RtTimer {
    descriptor: Option<u128>,
    long_term: bool,
}

impl RtTimer {
    /// The descriptor of the task this handle currently holds.
    pub closed spec fn spec_descriptor(self) -> Option<u128> {
        self.descriptor
    }

    /// Whether armed tasks run on the worker pool rather than inline.
    pub closed spec fn spec_long_term(self) -> bool {
        self.long_term
    }

    /// A held descriptor was handed out by the table it is used with.
    pub open spec fn wf_for(self, tasks: Tasks) -> bool {
        match self.spec_descriptor() {
            Some(d) => d <= tasks.spec_counter(),
            None => true,
        }
    }

    pub fn new(long_term: bool) -> (t: RtTimer)
        ensures
            t.spec_descriptor() == Option::<u128>::None,
            t.spec_long_term() == long_term,
    {
        RtTimer { descriptor: None, long_term }
    }

    /// Cancels the held task, if any. Idempotent: the descriptor stays
    /// held, and removing it again changes nothing.
    pub fn stop(&self, tasks: &mut Tasks)
        requires
            old(tasks).wf(),
        ensures
            final(tasks).wf(),
            final(tasks)@ == spec_stop(old(tasks)@, self.spec_descriptor()),
            final(tasks).spec_counter() == old(tasks).spec_counter(),
    {
        match self.descriptor {
            Some(d) => tasks.remove_task(d),
            None => {},
        }
    }

    /// Cancels whatever this handle held and arms a fresh one-shot task
    /// that becomes due `duration` ms from `now`. The previously held task
    /// can never fire after this call.
    pub fn after(&mut self, tasks: &mut Tasks, duration: u128, action: ActionId, now: u128)
        requires
            old(tasks).wf(),
            old(self).wf_for(*old(tasks)),
            old(tasks).spec_counter() < u128::MAX,
            now + duration <= u128::MAX,
        ensures
            final(tasks).wf(),
            final(self).wf_for(*final(tasks)),
            final(self).spec_long_term() == old(self).spec_long_term(),
            final(tasks).spec_counter() == old(tasks).spec_counter() + 1,
            final(self).spec_descriptor() == Some((old(tasks).spec_counter() + 1) as u128),
            final(tasks)@ == spec_after(
                old(tasks)@,
                old(self).spec_descriptor(),
                old(tasks).spec_counter(),
                duration,
                action,
                old(self).spec_long_term(),
                now,
            ),
            match old(self).spec_descriptor() {
                Some(d) => !final(tasks)@.dom().contains(d),
                None => true,
            },
    {
        self.stop(tasks);
        let descriptor = tasks.create_task(action, duration, self.long_term, false, now);
        self.descriptor = Some(descriptor);
    }
}

/// A recurring-task handle: armed once at creation, cancelled by `stop`.
pub struct Background {
    descriptor: Option<u128>,
}

impl Background {
    /// The descriptor of the task this handle holds.
    pub closed spec fn spec_descriptor(self) -> Option<u128> {
        self.descriptor
    }

    /// A held descriptor was handed out by the table it is used with.
    pub open spec fn wf_for(self, tasks: Tasks) -> bool {
        match self.spec_descriptor() {
            Some(d) => d <= tasks.spec_counter(),
            None => true,
        }
    }

    /// Arms a regular task that first becomes due `duration` ms from `now`
    /// and re-arms itself on each firing.
    pub fn every(
        tasks: &mut Tasks,
        duration: u128,
        long_term: bool,
        action: ActionId,
        now: u128,
    ) -> (b: Background)
        requires
            old(tasks).wf(),
            old(tasks).spec_counter() < u128::MAX,
            now + duration <= u128::MAX,
        ensures
            final(tasks).wf(),
            b.wf_for(*final(tasks)),
            final(tasks).spec_counter() == old(tasks).spec_counter() + 1,
            b.spec_descriptor() == Some((old(tasks).spec_counter() + 1) as u128),
            final(tasks)@ == spec_create(
                old(tasks)@,
                old(tasks).spec_counter(),
                duration,
                action,
                long_term,
                true,
                now,
            ),
    {
        let descriptor = tasks.create_task(action, duration, long_term, true, now);
        Background { descriptor: Some(descriptor) }
    }

    /// Cancels the held task; idempotent like `RtTimer::stop`.
    pub fn stop(&self, tasks: &mut Tasks)
        requires
            old(tasks).wf(),
        ensures
            final(tasks).wf(),
            final(tasks)@ == spec_stop(old(tasks)@, self.spec_descriptor()),
            final(tasks).spec_counter() == old(tasks).spec_counter(),
    {
        match self.descriptor {
            Some(d) => tasks.remove_task(d),
            None => {},
        }
    }
}

/// Relies on std::time::SystemTime::now, read as whole milliseconds since
/// the Unix epoch; a clock reading earlier than the epoch yields 0. Nothing
/// further can be promised of a wall clock.
#[verifier::external_body]
pub fn time_ms() -> u128 {
    std::time::SystemTime::now()
        .duration_since(std::time::SystemTime::UNIX_EPOCH)
        .ok()
        .map(|d| d.as_secs() as u128 * 1000 + d.subsec_millis() as u128)
        .unwrap_or(0)
}

// What follows are the laws the scheduler obeys, stated over the spec-level
// transitions that the executable operations are proved to implement.

/// Single fire, lower bound: a task created with duration `d` is not due,
/// and so cannot fire, before `d` ms have passed since its creation.
pub proof fn lemma_no_early_fire(
    m: Map<u128, Task>,
    counter: u128,
    duration: u128,
    action: ActionId,
    is_async: bool,
    is_regular: bool,
    now: u128,
    t: u128,
)
    requires
        t < now + duration,
    ensures
        !spec_is_due(
            spec_create(m, counter, duration, action, is_async, is_regular, now),
            ((counter + 1) as u128),
            t,
        ),
{
}

/// Single fire, at most once: firing a one-shot task removes it from the
/// table, so the same descriptor can never be found due again.
pub proof fn lemma_one_shot_single_fire(m: Map<u128, Task>, d: u128, now: u128, t: u128)
    requires
        spec_is_due(m, d, now),
        !m[d].is_regular,
    ensures
        !spec_fire(m, d, now).dom().contains(d),
        !spec_is_due(spec_fire(m, d, now), d, t),
{
}

/// A dead descriptor stays dead: once a descriptor is absent from the table
/// and not newer than the counter, no operation makes it live again, since
/// creation hands out strictly newer descriptors and nothing else inserts a
/// new key.
pub proof fn lemma_dead_descriptor_stays_dead(
    m: Map<u128, Task>,
    counter: u128,
    d: u128,
    other: u128,
    duration: u128,
    action: ActionId,
    is_async: bool,
    is_regular: bool,
    now: u128,
)
    requires
        !m.dom().contains(d),
        d <= counter,
        counter < u128::MAX,
    ensures
        !spec_create(m, counter, duration, action, is_async, is_regular, now).dom().contains(d),
        !m.remove(other).dom().contains(d),
        !spec_reset(m, other, now).dom().contains(d),
        !spec_fire(m, other, now).dom().contains(d),
{
}

/// Cancellation prevents firing: after `stop`, the cancelled descriptor is
/// not in the table and is never due, so a poll can never fire it.
pub proof fn lemma_cancel_prevents_firing(m: Map<u128, Task>, d: u128, t: u128)
    ensures
        !spec_stop(m, Some(d)).dom().contains(d),
        !spec_is_due(spec_stop(m, Some(d)), d, t),
        spec_fire(spec_stop(m, Some(d)), d, t) == spec_stop(m, Some(d)),
{
}

/// Re-arm replaces: two `after` calls on one handle leave exactly the task
/// of the second call. The first call's task is gone, so it never fires,
/// and the remaining task is not due before the second duration has elapsed
/// from the second call.
pub proof fn lemma_rearm_replaces(
    m0: Map<u128, Task>,
    held: Option<u128>,
    c0: u128,
    dur1: u128,
    dur2: u128,
    act1: ActionId,
    act2: ActionId,
    is_async: bool,
    now1: u128,
    now2: u128,
    t: u128,
)
    requires
        c0 + 2 <= u128::MAX,
        match held {
            Some(h) => h <= c0,
            None => true,
        },
    ensures
        ({
            let d1 = (c0 + 1) as u128;
            let d2 = (c0 + 2) as u128;
            let m1 = spec_after(m0, held, c0, dur1, act1, is_async, now1);
            let m2 = spec_after(m1, Some(d1), d1, dur2, act2, is_async, now2);
            &&& !m2.dom().contains(d1)
            &&& m2.dom().contains(d2)
            &&& m2[d2] == (Task {
                last_run: now2,
                duration: dur2,
                action: act2,
                is_async,
                is_regular: false,
            })
            &&& (t < now2 + dur2 ==> !spec_is_due(m2, d2, t))
        }),
{
}

/// At most one task per handle: an `after` call leaves the handle's new
/// task live, removes the task the handle held before, and touches no other
/// descriptor, so at any instant at most one task in the table belongs to a
/// given handle.
pub proof fn lemma_at_most_one_per_handle(
    m: Map<u128, Task>,
    held: Option<u128>,
    counter: u128,
    duration: u128,
    action: ActionId,
    is_async: bool,
    now: u128,
)
    requires
        counter < u128::MAX,
        match held {
            Some(h) => h <= counter,
            None => true,
        },
    ensures
        ({
            let d_new = (counter + 1) as u128;
            let m1 = spec_after(m, held, counter, duration, action, is_async, now);
            &&& m1.dom().contains(d_new)
            &&& match held {
                Some(h) => !m1.dom().contains(h),
                None => true,
            }
            &&& forall|d: u128|
                d != d_new && held != Some(d) ==> m1.dom().contains(d) == m.dom().contains(d)
        }),
{
}

/// A whole series of `after` calls on one handle: each call is a duration,
/// an action, and the time it was made. The result is the table, the held
/// descriptor, and the counter the series leaves behind.
pub open spec fn spec_after_series(
    m: Map<u128, Task>,
    held: Option<u128>,
    counter: u128,
    is_async: bool,
    calls: Seq<(u128, ActionId, u128)>,
) -> (Map<u128, Task>, Option<u128>, u128)
    decreases calls.len(),
{
    if calls.len() == 0 {
        (m, held, counter)
    } else {
        let (m1, h1, c1) = spec_after_series(m, held, counter, is_async, calls.drop_last());
        let call = calls.last();
        (
            spec_after(m1, h1, c1, call.0, call.1, is_async, call.2),
            Some(((c1 + 1) as u128)),
            ((c1 + 1) as u128),
        )
    }
}

/// At most one per handle, over any number of calls: after `n` interleaved
/// `after` calls on one handle with no intervening `stop`, exactly the last
/// task the handle armed is live; every earlier descriptor the series
/// handed out is gone from the table.
pub proof fn lemma_after_series_exclusive(
    m: Map<u128, Task>,
    held: Option<u128>,
    counter: u128,
    is_async: bool,
    calls: Seq<(u128, ActionId, u128)>,
)
    requires
        counter + calls.len() <= u128::MAX,
        match held {
            Some(h) => h <= counter,
            None => true,
        },
    ensures
        ({
            let (mn, hn, cn) = spec_after_series(m, held, counter, is_async, calls);
            &&& cn == counter + calls.len()
            &&& calls.len() >= 1 ==> hn == Some(cn) && mn.dom().contains(cn)
            &&& forall|k: u128|
                counter < k < cn ==> !(#[trigger] mn.dom().contains(k))
        }),
    decreases calls.len(),
{
    if calls.len() > 0 {
        lemma_after_series_exclusive(m, held, counter, is_async, calls.drop_last());
        let (m1, h1, c1) = spec_after_series(m, held, counter, is_async, calls.drop_last());
        let (mn, hn, cn) = spec_after_series(m, held, counter, is_async, calls);
        assert(cn == c1 + 1);
        assert forall|k: u128| counter < k < cn implies !(#[trigger] mn.dom().contains(k)) by {
            if calls.len() == 1 {
                // the first call removes only what the handle held, which is
                // no newer than the old counter
                assert(!m1.dom().contains(k));
            } else {
                if k == c1 {
                    // the previously held task is cancelled by this call
                    assert(h1 == Some(c1));
                } else {
                    assert(!m1.dom().contains(k));
                }
            }
        }
    }
}

/// Recurring cadence: firing a regular task re-arms it from the firing
/// time, so it keeps its interval and is not due again until one full
/// interval has elapsed; consecutive firings are at least the interval
/// apart.
pub proof fn lemma_recurring_cadence(m: Map<u128, Task>, d: u128, n1: u128, n2: u128)
    requires
        spec_is_due(m, d, n1),
        m[d].is_regular,
    ensures
        spec_fire(m, d, n1).dom().contains(d),
        spec_fire(m, d, n1)[d].duration == m[d].duration,
        spec_fire(m, d, n1)[d].spec_next_run() == n1 + m[d].duration,
        spec_fire(m, d, n1)[d].spec_next_run() >= m[d].spec_next_run(),
        spec_is_due(spec_fire(m, d, n1), d, n2) ==> n2 >= n1 + m[d].duration,
{
}

/// A whole series of polls aimed at one task: at each given time the task
/// fires if it is due, and the firings are counted. This is the scheduler
/// loop as one descriptor sees it.
pub open spec fn spec_poll_series(m: Map<u128, Task>, d: u128, times: Seq<u128>) -> (
    Map<u128, Task>,
    nat,
)
    decreases times.len(),
{
    if times.len() == 0 {
        (m, 0)
    } else {
        let (m1, c) = spec_poll_series(m, d, times.drop_last());
        if spec_is_due(m1, d, times.last()) {
            (spec_fire(m1, d, times.last()), (c + 1) as nat)
        } else {
            (m1, c)
        }
    }
}

/// Recurring cadence, counted: over any window of width `w`, however often
/// the scheduler polls, a regular task with interval `i` fires at most
/// `w / i + 1` times, because consecutive firings are at least `i` apart.
pub proof fn lemma_recurring_count(m: Map<u128, Task>, d: u128, times: Seq<u128>, t0: u128, w: u128)
    requires
        m.dom().contains(d),
        m[d].is_regular,
        m[d].duration >= 1,
        forall|j: int| 0 <= j < times.len() ==> t0 <= #[trigger] times[j] <= t0 + w,
    ensures
        ({
            let (m1, c) = spec_poll_series(m, d, times);
            &&& c == 0 ==> m1 == m
            &&& c >= 1 ==> m1.dom().contains(d) && m1[d].is_regular && m1[d].duration
                == m[d].duration && t0 + (c - 1) * m[d].duration <= m1[d].last_run <= t0 + w
            &&& c <= w / m[d].duration + 1
        }),
    decreases times.len(),
{
    let i = m[d].duration;
    let (mf, cf) = spec_poll_series(m, d, times);
    if times.len() > 0 {
        lemma_recurring_count(m, d, times.drop_last(), t0, w);
        let (m1, c) = spec_poll_series(m, d, times.drop_last());
        let u = times.last();
        assert(t0 <= u <= t0 + w);
        if spec_is_due(m1, d, u) {
            assert(mf == spec_fire(m1, d, u) && cf == c + 1);
            if c >= 1 {
                // the previous firing set last_run, so being due again means
                // a full interval has passed
                assert(m1[d].last_run + i <= u);
                assert((c - 1) * i + i == c * i) by (nonlinear_arith);
                assert(t0 + c * i <= u);
            } else {
                assert(m1 == m);
                assert(0 * i == 0) by (nonlinear_arith);
            }
            assert(mf[d].last_run == u);
            assert(t0 + (cf - 1) * i <= mf[d].last_run <= t0 + w);
        } else {
            assert(mf == m1 && cf == c);
        }
    }
    if cf >= 1 {
        assert((cf - 1) * i <= w);
        assert(cf - 1 <= w / i) by (nonlinear_arith)
            requires
                (cf - 1) * i <= w,
                i >= 1,
                cf >= 1,
        ;
    }
}

/// Independence: operations aimed at one descriptor leave every other
/// descriptor's task, and in particular its deadline, unchanged.
pub proof fn lemma_deadline_untouched(
    m: Map<u128, Task>,
    counter: u128,
    d: u128,
    other: u128,
    duration: u128,
    action: ActionId,
    is_async: bool,
    is_regular: bool,
    now: u128,
)
    requires
        m.dom().contains(d),
        d != other,
        d <= counter,
        counter < u128::MAX,
    ensures
        spec_create(m, counter, duration, action, is_async, is_regular, now)[d] == m[d],
        spec_create(m, counter, duration, action, is_async, is_regular, now).dom().contains(d),
        m.remove(other)[d] == m[d] && m.remove(other).dom().contains(d),
        spec_reset(m, other, now)[d] == m[d] && spec_reset(m, other, now).dom().contains(d),
        spec_fire(m, other, now)[d] == m[d] && spec_fire(m, other, now).dom().contains(d),
{
}

} // verus!
