//! The single-slot channel that brings the result of work done on the owning
//! thread back to the caller that asked for it.
//!
//! The slot is a `futures_channel` oneshot: the sender travels with the
//! dispatched unit, the receiver stays with the caller. What a look at the
//! receiver means for the caller is decided here: a value, nothing yet, or an
//! error when the work was refused or its sender went away without a value.
use futures_channel::oneshot::{Canceled, Receiver, Sender};
use vstd::prelude::*;

verus! {

#[verifier::external_type_specification]
#[verifier::external_body]
#[verifier::reject_recursive_types(T)]
pub struct ExSender<T>(Sender<T>);

#[verifier::external_type_specification]
#[verifier::external_body]
#[verifier::reject_recursive_types(T)]
pub struct ExReceiver<T>(Receiver<T>);

#[verifier::external_type_specification]
#[verifier::external_body]
pub struct ExCanceled(Canceled);

/// Relies on `futures_channel::oneshot::Sender::send`: when the receiver is
/// gone the value is handed back unchanged in `Err`.
pub assume_specification<T>[ Sender::<T>::send ](tx: Sender<T>, t: T) -> (r: Result<(), T>)
    ensures
        r matches Err(back) ==> back == t,
;

/// Relies on `futures_channel::oneshot::Receiver::try_recv`: the value if one
/// was sent, `Ok(None)` while none was, `Err(Canceled)` once the sender was
/// dropped without a value.
pub assume_specification<T>[ Receiver::<T>::try_recv ](rx: &mut Receiver<T>) -> Result<
    Option<T>,
    Canceled,
>;

/// Why a call on the owning thread produced no value.
#[derive(Clone, Copy, PartialEq, Eq, Debug)]
pub enum DispatchError {
    /// The event loop refused the work: it is shutting down.
    Rejected,
    /// The work was dropped without producing a value.
    Disconnected,
}

/// What a look at a pending result finds.
#[derive(Debug)]
pub enum Progress<T> {
    Pending,
    Ready(Result<T, DispatchError>),
}

/// The outcome of a call: `scheduled` tells whether the event loop accepted
/// the work, `received` is what the receiver held.
pub open spec fn progress_of<T>(scheduled: bool, received: Result<Option<T>, Canceled>) -> Progress<
    T,
> {
    if !scheduled {
        Progress::Ready(Err(DispatchError::Rejected))
    } else {
        match received {
            Ok(Some(v)) => Progress::Ready(Ok(v)),
            Ok(None) => Progress::Pending,
            Err(_) => Progress::Ready(Err(DispatchError::Disconnected)),
        }
    }
}

/// Decides the outcome of a call from whether it was scheduled and from what
/// its receiver held.
pub fn settle<T>(scheduled: bool, received: Result<Option<T>, Canceled>) -> (r: Progress<T>)
    ensures
        r == progress_of(scheduled, received),
{
    if !scheduled {
        return Progress::Ready(Err(DispatchError::Rejected));
    }
    match received {
        Ok(Some(v)) => Progress::Ready(Ok(v)),
        Ok(None) => Progress::Pending,
        Err(_) => Progress::Ready(Err(DispatchError::Disconnected)),
    }
}

/// The caller's side of one call on the owning thread.
#[verifier::reject_recursive_types(T)]
pub struct PendingResult<T> {
    rx: Receiver<T>,
    scheduled: bool,
}

impl<T> PendingResult<T> {
    pub closed spec fn is_scheduled(&self) -> bool {
        self.scheduled
    }

    /// Waits on `rx`; `scheduled` says whether the work that holds its sender
    /// was accepted by the event loop.
    pub fn new(rx: Receiver<T>, scheduled: bool) -> (r: Self)
        ensures
            r.is_scheduled() == scheduled,
    {
        PendingResult { rx, scheduled }
    }

    /// Looks at the result once, without blocking. Work that was refused gives
    /// `Rejected` at once and the receiver is not consulted; otherwise the
    /// outcome is what `settle` makes of the receiver's content.
    pub fn poll(&mut self) -> (r: Progress<T>)
        ensures
            final(self).is_scheduled() == old(self).is_scheduled(),
            !old(self).is_scheduled() ==> r == Progress::<T>::Ready(Err(DispatchError::Rejected)),
            old(self).is_scheduled() ==> r != Progress::<T>::Ready(Err(DispatchError::Rejected)),
    {
        if !self.scheduled {
            return Progress::Ready(Err(DispatchError::Rejected));
        }
        let received = self.rx.try_recv();
        settle(true, received)
    }

    pub fn scheduled(&self) -> (r: bool)
        ensures
            r == self.is_scheduled(),
    {
        self.scheduled
    }

    /// The receiver, for a caller that waits on it as a future; what it
    /// yields is then given to `resolve`.
    pub fn receiver_mut(&mut self) -> (r: &mut Receiver<T>)
        ensures
            final(self).is_scheduled() == old(self).is_scheduled(),
    {
        &mut self.rx
    }

    /// The outcome of this call once its receiver yielded `received`.
    pub fn resolve(&self, received: Result<Option<T>, Canceled>) -> (r: Progress<T>)
        ensures
            r == progress_of(self.is_scheduled(), received),
    {
        settle(self.scheduled, received)
    }
}

/// Sends `value` to the waiting caller. When the caller has lost interest (its
/// receiver is dropped) the value is dropped here; nothing fails.
pub fn deliver<T>(tx: Sender<T>, value: T) -> (sent: bool) {
    match tx.send(value) {
        Ok(()) => true,
        Err(_) => false,
    }
}

/// The body of a dispatched call: runs `func` on the handle of the owning
/// thread and sends what it returns to the waiting caller. The value sent is
/// the one `func` returned; whether the caller still waited for it is
/// returned.
pub fn run_and_deliver<H, R, F: FnOnce(H) -> R>(func: F, handle: H, tx: Sender<R>) -> (sent: bool)
    requires
        func.requires((handle,)),
    ensures
        exists|v: R| func.ensures((handle,), v),
{
    let value = func(handle);
    assert(func.ensures((handle,), value));
    deliver(tx, value)
}

/// A call resolves with a value exactly when it was scheduled and the value
/// itself arrived through the channel; refused work always resolves with
/// `Rejected`, never a value and never `Pending`.
pub proof fn lemma_value_iff_delivered<T>(
    scheduled: bool,
    received: Result<Option<T>, Canceled>,
    v: T,
)
    ensures
        progress_of(scheduled, received) == Progress::<T>::Ready(Ok(v)) <==> (scheduled && received
            == Ok::<Option<T>, Canceled>(Some(v))),
        !scheduled ==> progress_of(scheduled, received) == Progress::<T>::Ready(
            Err(DispatchError::Rejected),
        ),
{
}

/// A sender dropped without a value is reported as `Disconnected`: the
/// caller gets an error instead of waiting forever.
pub proof fn lemma_dropped_sender_disconnects<T>(c: Canceled)
    ensures
        progress_of::<T>(true, Err(c)) == Progress::<T>::Ready(Err(DispatchError::Disconnected)),
{
}

} // verus!
