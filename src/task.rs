//! The table of spawned tasks, the whole scheduler of this crate.
//!
//! A task is a future driven to completion by dispatch cycles on the owning
//! thread: each wake of its waker dispatches one more delivery, and each
//! delivery polls it once. While a poll runs, the future is out of the table
//! (its entry holds `None`), so a second delivery finds nothing to poll; when
//! the future completes its entry is removed, so later wakes and deliveries
//! find nothing at all.
use std::collections::HashMap;
use vstd::prelude::*;

verus! {

broadcast use vstd::std_specs::hash::group_hash_axioms;

pub struct TaskTable<F> {
    tasks: HashMap<u64, Option<F>>,
    next_id: u64,
}

impl<F> TaskTable<F> {
    /// The live tasks by id: `Some(future)` for one waiting to be polled,
    /// `None` for one whose poll is under way.
    pub closed spec fn entries(&self) -> Map<u64, Option<F>> {
        self.tasks@
    }

    /// The id the next spawned task will receive.
    pub closed spec fn next_id(&self) -> u64 {
        self.next_id
    }

    pub closed spec fn wf(&self) -> bool {
        forall|id: u64| #[trigger] self.tasks@.contains_key(id) ==> id < self.next_id
    }

    pub open spec fn is_live(&self, id: u64) -> bool {
        self.entries().contains_key(id)
    }

    pub open spec fn is_polling(&self, id: u64) -> bool {
        self.is_live(id) && self.entries()[id] is None
    }

    /// `next` and `r` are what `begin_poll(id)` leaves and returns on `self`.
    pub open spec fn poll_begun(&self, id: u64, r: Option<F>, next: Self) -> bool {
        &&& next.wf()
        &&& next.next_id() == self.next_id()
        &&& if self.is_live(id) && self.entries()[id] is Some {
            &&& r == self.entries()[id]
            &&& next.entries() == self.entries().insert(id, None)
        } else {
            &&& r is None
            &&& next.entries() == self.entries()
        }
    }

    /// `next` is what `end_poll(id, future, ready)` leaves on `self`.
    pub open spec fn poll_ended(&self, id: u64, future: F, ready: bool, next: Self) -> bool {
        &&& next.wf()
        &&& next.next_id() == self.next_id()
        &&& next.entries() == if !self.is_polling(id) {
            self.entries()
        } else if ready {
            self.entries().remove(id)
        } else {
            self.entries().insert(id, Some(future))
        }
    }

    pub fn new() -> (r: Self)
        ensures
            r.wf(),
            r.entries() == Map::<u64, Option<F>>::empty(),
            r.next_id() == 0,
    {
        TaskTable { tasks: HashMap::new(), next_id: 0 }
    }

    /// Adds a task that waits for its first poll, under a fresh id. Once ids
    /// are spent the future is handed back.
    pub fn spawn(&mut self, future: F) -> (r: Result<u64, F>)
        requires
            old(self).wf(),
        ensures
            final(self).wf(),
            match r {
                Ok(id) => {
                    &&& old(self).next_id() < u64::MAX
                    &&& id == old(self).next_id()
                    &&& !old(self).is_live(id)
                    &&& final(self).entries() == old(self).entries().insert(id, Some(future))
                    &&& final(self).next_id() == id + 1
                },
                Err(back) => {
                    &&& old(self).next_id() == u64::MAX
                    &&& back == future
                    &&& *final(self) == *old(self)
                },
            },
    {
        if self.next_id == u64::MAX {
            return Err(future);
        }
        let id = self.next_id;
        self.tasks.insert(id, Some(future));
        self.next_id = id + 1;
        Ok(id)
    }

    /// Whether a wake of task `id` is still worth a dispatch.
    pub fn is_alive(&self, id: u64) -> (r: bool)
        ensures
            r == self.is_live(id),
    {
        self.tasks.contains_key(&id)
    }

    /// Takes the future of task `id` out for one poll. Nothing is handed out
    /// for a task that is gone or whose poll is already under way.
    pub fn begin_poll(&mut self, id: u64) -> (r: Option<F>)
        requires
            old(self).wf(),
        ensures
            old(self).poll_begun(id, r, *final(self)),
    {
        match self.tasks.remove(&id) {
            Some(Some(future)) => {
                self.tasks.insert(id, None);
                assert(self.tasks@ =~= old(self).tasks@.insert(id, None));
                Some(future)
            },
            Some(None) => {
                self.tasks.insert(id, None);
                assert(self.tasks@ =~= old(self).tasks@);
                None
            },
            None => {
                assert(self.tasks@ =~= old(self).tasks@);
                None
            },
        }
    }

    /// Ends the poll of task `id`: a completed future is dropped together with
    /// the task, a pending one waits for its next wake. A future whose task
    /// was abandoned meanwhile is dropped.
    pub fn end_poll(&mut self, id: u64, future: F, ready: bool)
        requires
            old(self).wf(),
        ensures
            old(self).poll_ended(id, future, ready, *final(self)),
    {
        match self.tasks.get(&id) {
            Some(None) => {
                if ready {
                    self.tasks.remove(&id);
                } else {
                    self.tasks.insert(id, Some(future));
                }
            },
            _ => {},
        }
    }

    /// Drops task `id`, as when the dispatch of its next poll was refused.
    pub fn abandon(&mut self, id: u64)
        requires
            old(self).wf(),
        ensures
            final(self).wf(),
            final(self).entries() == old(self).entries().remove(id),
            final(self).next_id() == old(self).next_id(),
    {
        self.tasks.remove(&id);
    }

    /// Drops every task, as when the event loop has exited.
    pub fn clear(&mut self)
        requires
            old(self).wf(),
        ensures
            final(self).wf(),
            final(self).entries() == Map::<u64, Option<F>>::empty(),
            final(self).next_id() == old(self).next_id(),
    {
        self.tasks.clear();
    }
}

/// At most one poll of a task is in flight: while the future is out for a
/// poll, another delivery gets nothing to poll.
pub proof fn lemma_one_poll_in_flight<F>(
    t0: TaskTable<F>,
    id: u64,
    first: Option<F>,
    t1: TaskTable<F>,
    second: Option<F>,
    t2: TaskTable<F>,
)
    requires
        t0.wf(),
        t0.poll_begun(id, first, t1),
        t1.poll_begun(id, second, t2),
    ensures
        second is None,
        t2.entries() == t1.entries(),
        first is Some ==> t1.is_polling(id),
{
}

/// A completed task is released: its entry is gone, and every later wake or
/// delivery finds nothing to poll.
pub proof fn lemma_completed_task_released<F>(
    t0: TaskTable<F>,
    id: u64,
    future: F,
    t1: TaskTable<F>,
    r: Option<F>,
    t2: TaskTable<F>,
)
    requires
        t0.wf(),
        t0.is_polling(id),
        t0.poll_ended(id, future, true, t1),
        t1.poll_begun(id, r, t2),
    ensures
        !t1.is_live(id),
        r is None,
        t2.entries() == t1.entries(),
{
}

/// A task that is still pending after its poll waits, with the future the poll
/// handed back, for the next delivery, which polls exactly that future.
pub proof fn lemma_pending_task_repolled<F>(
    t0: TaskTable<F>,
    id: u64,
    future: F,
    t1: TaskTable<F>,
    r: Option<F>,
    t2: TaskTable<F>,
)
    requires
        t0.wf(),
        t0.is_polling(id),
        t0.poll_ended(id, future, false, t1),
        t1.poll_begun(id, r, t2),
    ensures
        r == Some(future),
        t2.is_polling(id),
{
}

} // verus!
