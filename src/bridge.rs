//! The bridge between callers and the owning thread: what a dispatched token
//! stands for, and what happens when the engine delivers it.
//!
//! A token stands either for a call (a unit of work that runs once on the
//! owning thread) or for one more poll of a spawned task, dispatched by a wake
//! of the task's waker. The engine's part (handing the token to the owning
//! thread, running a call, polling a future) is done by the caller of these
//! functions; the bookkeeping that decides what runs is done here.
use crate::dispatch::DispatchTable;
use crate::task::TaskTable;
use vstd::prelude::*;

verus! {

/// What a dispatched token stands for.
pub enum Work<C> {
    /// A unit of work to run once on the owning thread.
    Call(C),
    /// One more poll of the task with this id.
    Repoll(u64),
}

/// What the owning thread is to do with a delivered token.
pub enum Delivery<C, F> {
    /// Run this unit of work.
    Run(C),
    /// Poll this future of task `id` once, then hand it back with `finish_poll`.
    Poll(u64, F),
    /// Nothing: the token was delivered before, or its task is gone or is
    /// being polled.
    Nothing,
}

pub struct Bridge<C, F> {
    dispatches: DispatchTable<Work<C>>,
    tasks: TaskTable<F>,
}

impl<C, F> Bridge<C, F> {
    pub closed spec fn dispatches(&self) -> DispatchTable<Work<C>> {
        self.dispatches
    }

    pub closed spec fn tasks(&self) -> TaskTable<F> {
        self.tasks
    }

    pub open spec fn wf(&self) -> bool {
        self.dispatches().wf() && self.tasks().wf()
    }

    /// `next` and `r` are what `deliver(token)` leaves and returns on `self`.
    pub open spec fn delivered(&self, token: u64, r: Delivery<C, F>, next: Self) -> bool {
        let pending = self.dispatches().pending();
        &&& next.wf()
        &&& self.dispatches().taken(
            token,
            if pending.contains_key(token) {
                Some(pending[token])
            } else {
                None
            },
            next.dispatches(),
        )
        &&& if !pending.contains_key(token) {
            r is Nothing && next.tasks() == self.tasks()
        } else {
            match pending[token] {
                Work::Call(c) => r == Delivery::<C, F>::Run(c) && next.tasks() == self.tasks(),
                Work::Repoll(id) => {
                    &&& self.tasks().poll_begun(
                        id,
                        match r {
                            Delivery::Poll(_, f) => Some(f),
                            _ => None,
                        },
                        next.tasks(),
                    )
                    &&& !(r is Run)
                    &&& r matches Delivery::Poll(i, _) ==> i == id
                },
            }
        }
    }

    pub fn new() -> (r: Self)
        ensures
            r.wf(),
            r.dispatches().pending() == Map::<u64, Work<C>>::empty(),
            r.dispatches().is_accepting(),
            r.tasks().entries() == Map::<u64, Option<F>>::empty(),
    {
        Bridge { dispatches: DispatchTable::new(), tasks: TaskTable::new() }
    }

    /// Schedules `work` to run once on the owning thread: the token returned
    /// is to be handed to the engine's dispatch. Once the bridge is shut down
    /// the work is handed back, not run.
    pub fn call(&mut self, work: C) -> (r: Result<u64, C>)
        requires
            old(self).wf(),
        ensures
            final(self).wf(),
            final(self).tasks() == old(self).tasks(),
            match r {
                Ok(token) => old(self).dispatches().dispatched(
                    Work::Call(work),
                    Ok(token),
                    final(self).dispatches(),
                ),
                Err(back) => back == work && final(self).dispatches() == old(self).dispatches(),
            },
            r is Ok <==> (old(self).dispatches().is_accepting() && old(self).dispatches().next_token()
                < u64::MAX),
    {
        match self.dispatches.dispatch(Work::Call(work)) {
            Ok(token) => Ok(token),
            Err(Work::Call(back)) => Err(back),
            Err(Work::Repoll(_)) => {
                // The table hands back the very unit it was given.
                assert(false);
                Ok(0)
            },
        }
    }

    /// Adds a spawned task; it is then polled for the first time by taking it
    /// with `begin_poll`.
    pub fn spawn(&mut self, future: F) -> (r: Result<u64, F>)
        requires
            old(self).wf(),
        ensures
            final(self).wf(),
            final(self).dispatches() == old(self).dispatches(),
            match r {
                Ok(id) => {
                    &&& id == old(self).tasks().next_id()
                    &&& !old(self).tasks().is_live(id)
                    &&& final(self).tasks().entries() == old(self).tasks().entries().insert(
                        id,
                        Some(future),
                    )
                    &&& final(self).tasks().next_id() == id + 1
                },
                Err(back) => back == future && final(self).tasks() == old(self).tasks(),
            },
            r is Ok <==> old(self).tasks().next_id() < u64::MAX,
    {
        self.tasks.spawn(future)
    }

    /// Takes the future of task `id` out for a poll that is not the answer to
    /// a delivery (the first poll, right after `spawn`).
    pub fn begin_poll(&mut self, id: u64) -> (r: Option<F>)
        requires
            old(self).wf(),
        ensures
            final(self).wf(),
            final(self).dispatches() == old(self).dispatches(),
            old(self).tasks().poll_begun(id, r, final(self).tasks()),
    {
        self.tasks.begin_poll(id)
    }

    /// A wake of task `id`: while the task lives, one more poll is dispatched
    /// and its token returned, for the engine's dispatch. A task whose poll
    /// cannot be dispatched any more is abandoned; a wake of a task that is
    /// gone does nothing.
    pub fn wake(&mut self, id: u64) -> (r: Option<u64>)
        requires
            old(self).wf(),
        ensures
            final(self).wf(),
            match r {
                Some(token) => {
                    &&& old(self).tasks().is_live(id)
                    &&& old(self).dispatches().dispatched(
                        Work::Repoll(id),
                        Ok(token),
                        final(self).dispatches(),
                    )
                    &&& final(self).tasks() == old(self).tasks()
                },
                None => {
                    &&& final(self).dispatches() == old(self).dispatches()
                    &&& final(self).tasks().entries() == old(self).tasks().entries().remove(id)
                    &&& final(self).tasks().next_id() == old(self).tasks().next_id()
                },
            },
            r is Some <==> (old(self).tasks().is_live(id) && old(self).dispatches().is_accepting()
                && old(self).dispatches().next_token() < u64::MAX),
    {
        if !self.tasks.is_alive(id) {
            self.tasks.abandon(id);
            return None;
        }
        match self.dispatches.dispatch(Work::Repoll(id)) {
            Ok(token) => Some(token),
            Err(_) => {
                self.tasks.abandon(id);
                None
            },
        }
    }

    /// The engine delivers `token` on the owning thread: says what to do with
    /// it. A token is acted on at its first delivery only.
    pub fn deliver(&mut self, token: u64) -> (r: Delivery<C, F>)
        requires
            old(self).wf(),
        ensures
            old(self).delivered(token, r, *final(self)),
    {
        match self.dispatches.take(token) {
            None => Delivery::Nothing,
            Some(Work::Call(c)) => Delivery::Run(c),
            Some(Work::Repoll(id)) => match self.tasks.begin_poll(id) {
                Some(f) => Delivery::Poll(id, f),
                None => Delivery::Nothing,
            },
        }
    }

    /// Hands back the future of task `id` after its poll: a completed one is
    /// dropped with its task, a pending one waits for the next wake.
    pub fn finish_poll(&mut self, id: u64, future: F, ready: bool)
        requires
            old(self).wf(),
        ensures
            final(self).wf(),
            final(self).dispatches() == old(self).dispatches(),
            old(self).tasks().poll_ended(id, future, ready, final(self).tasks()),
    {
        self.tasks.end_poll(id, future, ready)
    }

    /// The engine refused the dispatch of `token` (it is shutting down): the
    /// work is dropped without running, and a task whose poll it was is
    /// abandoned.
    pub fn refused(&mut self, token: u64)
        requires
            old(self).wf(),
        ensures
            final(self).wf(),
            old(self).dispatches().taken(
                token,
                if old(self).dispatches().pending().contains_key(token) {
                    Some(old(self).dispatches().pending()[token])
                } else {
                    None
                },
                final(self).dispatches(),
            ),
            final(self).tasks().next_id() == old(self).tasks().next_id(),
            final(self).tasks().entries() == if old(self).dispatches().pending().contains_key(token) {
                match old(self).dispatches().pending()[token] {
                    Work::Repoll(id) => old(self).tasks().entries().remove(id),
                    Work::Call(_) => old(self).tasks().entries(),
                }
            } else {
                old(self).tasks().entries()
            },
    {
        match self.dispatches.take(token) {
            Some(Work::Repoll(id)) => self.tasks.abandon(id),
            _ => {},
        }
    }

    /// The event loop has exited: no more work is accepted, and everything
    /// still waiting (calls never delivered, tasks never finished) is dropped.
    pub fn shut_down(&mut self)
        requires
            old(self).wf(),
        ensures
            final(self).wf(),
            !final(self).dispatches().is_accepting(),
            final(self).dispatches().pending() == Map::<u64, Work<C>>::empty(),
            final(self).tasks().entries() == Map::<u64, Option<F>>::empty(),
    {
        self.dispatches.close();
        self.tasks.clear();
    }
}

/// Wakes never put two polls of one task in flight: while a delivery has
/// handed out the task's future, a further delivery for the same task hands
/// out nothing, however many wakes were dispatched.
pub proof fn lemma_wakes_one_poll_in_flight<C, F>(
    b0: Bridge<C, F>,
    first_token: u64,
    id: u64,
    future: F,
    b1: Bridge<C, F>,
    second_token: u64,
    second: Delivery<C, F>,
    b2: Bridge<C, F>,
)
    requires
        b0.wf(),
        b0.delivered(first_token, Delivery::Poll(id, future), b1),
        b1.dispatches().pending().contains_key(second_token),
        b1.dispatches().pending()[second_token] == Work::<C>::Repoll(id),
        b1.delivered(second_token, second, b2),
    ensures
        b1.tasks().is_polling(id),
        second is Nothing,
{
}

/// Whatever number of wakes were dispatched for a task, none of their
/// deliveries hands out its future while a poll of it is under way.
pub proof fn lemma_no_poll_while_polling<C, F>(
    b0: Bridge<C, F>,
    id: u64,
    token: u64,
    r: Delivery<C, F>,
    b1: Bridge<C, F>,
)
    requires
        b0.wf(),
        b0.tasks().is_polling(id),
        b0.dispatches().pending().contains_key(token),
        b0.dispatches().pending()[token] == Work::<C>::Repoll(id),
        b0.delivered(token, r, b1),
    ensures
        r is Nothing,
        b1.tasks().is_polling(id),
{
}

/// A finished task is released once: after its last poll it is gone from the
/// bridge, and a delivery that a late wake dispatched for it does nothing.
pub proof fn lemma_finished_task_released<C, F>(
    b0: Bridge<C, F>,
    id: u64,
    future: F,
    b1: Bridge<C, F>,
    token: u64,
    r: Delivery<C, F>,
    b2: Bridge<C, F>,
)
    requires
        b0.wf(),
        b0.tasks().is_polling(id),
        b0.tasks().poll_ended(id, future, true, b1.tasks()),
        b1.wf(),
        b1.dispatches().pending().contains_key(token),
        b1.dispatches().pending()[token] == Work::<C>::Repoll(id),
        b1.delivered(token, r, b2),
    ensures
        !b1.tasks().is_live(id),
        r is Nothing,
        b2.tasks().entries() == b1.tasks().entries(),
{
}

/// A call runs exactly once: the first delivery of its token hands it out
/// to run, and a second delivery of that token does nothing.
pub proof fn lemma_call_runs_once<C, F>(
    b0: Bridge<C, F>,
    work: C,
    token: u64,
    b1: Bridge<C, F>,
    first: Delivery<C, F>,
    b2: Bridge<C, F>,
    second: Delivery<C, F>,
    b3: Bridge<C, F>,
)
    requires
        b0.wf(),
        b0.dispatches().dispatched(Work::Call(work), Ok(token), b1.dispatches()),
        b1.wf(),
        b1.delivered(token, first, b2),
        b2.delivered(token, second, b3),
    ensures
        first == Delivery::<C, F>::Run(work),
        second is Nothing,
{
}

} // verus!
