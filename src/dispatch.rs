//! The dispatch table: the owner of every unit of work that was handed to the
//! engine and has not come back yet.
//!
//! A unit is stored under a fresh token, and the token is what crosses the
//! native boundary. When the engine calls back with the token, `take` hands
//! the unit out and forgets it, so that a unit runs at most once however often
//! its token is delivered, and nothing leaks when a token never comes back:
//! `close` drops every unit still waiting.
use std::collections::HashMap;
use vstd::prelude::*;

verus! {

broadcast use vstd::std_specs::hash::group_hash_axioms;

pub struct DispatchTable<T> {
    units: HashMap<u64, T>,
    next_token: u64,
    accepting: bool,
}

impl<T> DispatchTable<T> {
    /// The units waiting for delivery, by token.
    pub closed spec fn pending(&self) -> Map<u64, T> {
        self.units@
    }

    /// The token that the next accepted dispatch will receive.
    pub closed spec fn next_token(&self) -> u64 {
        self.next_token
    }

    /// Whether new units are still accepted (the event loop is not shutting down).
    pub closed spec fn is_accepting(&self) -> bool {
        self.accepting
    }

    /// Every waiting token was handed out earlier than the next one.
    pub closed spec fn wf(&self) -> bool {
        forall|t: u64| #[trigger] self.units@.contains_key(t) ==> t < self.next_token
    }

    /// `next` and `r` are what `dispatch(unit)` leaves and returns on `self`.
    pub open spec fn dispatched(&self, unit: T, r: Result<u64, T>, next: Self) -> bool {
        &&& next.wf()
        &&& match r {
            Ok(token) => {
                &&& self.is_accepting()
                &&& self.next_token() < u64::MAX
                &&& token == self.next_token()
                &&& !self.pending().contains_key(token)
                &&& next.pending() == self.pending().insert(token, unit)
                &&& next.next_token() == token + 1
                &&& next.is_accepting()
            },
            Err(back) => {
                &&& !self.is_accepting() || self.next_token() == u64::MAX
                &&& back == unit
                &&& next == *self
            },
        }
    }

    /// `next` and `r` are what `take(token)` leaves and returns on `self`.
    pub open spec fn taken(&self, token: u64, r: Option<T>, next: Self) -> bool {
        &&& next.wf()
        &&& next.pending() == self.pending().remove(token)
        &&& next.next_token() == self.next_token()
        &&& next.is_accepting() == self.is_accepting()
        &&& r == if self.pending().contains_key(token) {
            Some(self.pending()[token])
        } else {
            None
        }
    }

    pub fn new() -> (r: Self)
        ensures
            r.wf(),
            r.pending() == Map::<u64, T>::empty(),
            r.next_token() == 0,
            r.is_accepting(),
    {
        DispatchTable { units: HashMap::new(), next_token: 0, accepting: true }
    }

    pub fn accepts(&self) -> (r: bool)
        ensures
            r == self.is_accepting(),
    {
        self.accepting
    }

    /// Stores `unit` under a fresh token, to be handed to the engine with the
    /// token. While the table is closed (or its tokens are spent) the unit is
    /// handed back to the caller, who disposes of it without running it.
    pub fn dispatch(&mut self, unit: T) -> (r: Result<u64, T>)
        requires
            old(self).wf(),
        ensures
            old(self).dispatched(unit, r, *final(self)),
            r is Ok <==> (old(self).is_accepting() && old(self).next_token() < u64::MAX),
    {
        if !self.accepting || self.next_token == u64::MAX {
            return Err(unit);
        }
        let token = self.next_token;
        self.units.insert(token, unit);
        self.next_token = token + 1;
        Ok(token)
    }

    /// Delivery of `token`: hands out the unit stored under it and forgets it.
    /// A token that is not waiting (never issued, or delivered before) yields
    /// nothing.
    pub fn take(&mut self, token: u64) -> (r: Option<T>)
        requires
            old(self).wf(),
        ensures
            old(self).taken(token, r, *final(self)),
    {
        self.units.remove(&token)
    }

    /// Stops accepting units and drops, without running them, all units whose
    /// tokens were never delivered.
    pub fn close(&mut self)
        requires
            old(self).wf(),
        ensures
            final(self).wf(),
            final(self).pending() == Map::<u64, T>::empty(),
            !final(self).is_accepting(),
            final(self).next_token() == old(self).next_token(),
    {
        self.accepting = false;
        self.units.clear();
    }
}

/// A unit that was accepted comes back from the first delivery of its token,
/// and a second delivery of the same token yields nothing: each accepted unit
/// is handed out exactly once.
pub proof fn lemma_delivered_exactly_once<T>(
    q0: DispatchTable<T>,
    unit: T,
    token: u64,
    q1: DispatchTable<T>,
    first: Option<T>,
    q2: DispatchTable<T>,
    second: Option<T>,
    q3: DispatchTable<T>,
)
    requires
        q0.wf(),
        q0.dispatched(unit, Ok(token), q1),
        q1.taken(token, first, q2),
        q2.taken(token, second, q3),
    ensures
        first == Some(unit),
        second is None,
{
}

/// Tokens are never reused: a token that a dispatch returns is larger than
/// every token still waiting, and every later token is larger still.
pub proof fn lemma_tokens_fresh<T>(
    q0: DispatchTable<T>,
    unit: T,
    token: u64,
    q1: DispatchTable<T>,
)
    requires
        q0.wf(),
        q0.dispatched(unit, Ok(token), q1),
    ensures
        forall|t: u64| #[trigger] q0.pending().contains_key(t) ==> t < token,
        token < q1.next_token(),
{
}

/// A dispatch that is refused leaves the table as it was and returns the
/// unit, which has then not run and is owned by the caller again.
pub proof fn lemma_refused_unit_returned<T>(
    q0: DispatchTable<T>,
    unit: T,
    r: Result<u64, T>,
    q1: DispatchTable<T>,
)
    requires
        q0.wf(),
        !q0.is_accepting(),
        q0.dispatched(unit, r, q1),
    ensures
        r == Err::<u64, T>(unit),
        q1 == q0,
{
}

} // verus!
