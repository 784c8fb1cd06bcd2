//! A pair for handing one value to a worker and waiting for its answer.
//!
//! The two halves share one slot behind a lock. The responder owns the slot;
//! the requester only observes it, and so finds out when the responder has
//! gone. Each operation takes the lock, makes one step of [`Slot`] on what
//! the lock protects, and lets the lock go. What the step does is stated, and
//! proved, in `slot`. What the slot holds when the lock is taken is up to the
//! other threads: the contracts here say which slot a half works on, what the
//! slot was made with, and of the results what holds in every case.
//!
//! A lock that std reports as poisoned is treated as a slot whose responder
//! has failed: requests end with `ThreadDead`, and the responder gets nothing
//! more to do.

pub use crate::slot::Error;
pub use crate::slot::Misuse;
pub use crate::slot::Poll;
pub use crate::slot::Slot;
pub use crate::slot::State;
pub use crate::sync::Guarded;

use crate::sync::clone_weak;
use crate::sync::deref_mut;
use crate::sync::downgrade;
use crate::sync::lock;
use crate::sync::new_mutex;
use crate::sync::try_lock;
use crate::sync::upgrade;
use crate::sync::Attempt;
use crate::sync::WeakLink;
use std::sync::Arc;
use std::sync::MutexGuard;
use vstd::prelude::*;

verus! {

/// The half that sends requests. It may be cloned, but the slot takes one
/// request at a time.
#[verifier::reject_recursive_types(I)]
#[verifier::reject_recursive_types(O)]
pub struct Requester<I, O> {
    data: WeakLink<Guarded<Slot<I, O>>>,
}

/// The half that answers requests, and the owner of the slot.
#[verifier::reject_recursive_types(I)]
#[verifier::reject_recursive_types(O)]
pub struct Responder<I, O> {
    data: Arc<Guarded<Slot<I, O>>>,
}

/// A request that is in the slot and waits for its response. It keeps the
/// slot in existence for as long as the wait goes on.
#[verifier::reject_recursive_types(I)]
#[verifier::reject_recursive_types(O)]
pub struct Ticket<I, O> {
    data: Arc<Guarded<Slot<I, O>>>,
}

/// A requester and a responder around one slot, which starts empty.
pub fn interaction<I, O>() -> (pair: (Requester<I, O>, Responder<I, O>))
    ensures
        pair.0.slot() == pair.1.slot(),
        pair.1.slot().made_with() == Slot::<I, O>::fresh(),
{
    let slot = Arc::new(new_mutex(Slot::new()));
    let requester = Requester { data: downgrade(&slot) };
    let responder = Responder { data: slot };
    (requester, responder)
}

impl<I, O> Clone for Requester<I, O> {
    /// Another requester for the same slot.
    fn clone(&self) -> (r: Requester<I, O>)
        ensures
            r.slot() == self.slot(),
    {
        Requester { data: clone_weak(&self.data) }
    }
}

impl<I, O> Requester<I, O> {
    /// Puts a request into the slot. The ticket that comes back is what the
    /// response is collected with, and it waits in the slot that this
    /// requester observes. The only errors are `ThreadDead` and `Busy`.
    ///
    /// Which of these comes back depends on what is found: whether the slot
    /// still exists, whether its lock is poisoned, and what the slot holds.
    /// [`submit_reached`] says what is answered to each.
    pub fn submit(&self, value: I) -> (r: Result<Ticket<I, O>, Error>)
        ensures
            r matches Ok(ticket) ==> ticket.slot() == self.slot(),
            r matches Err(e) ==> e == Error::ThreadDead || e == Error::Busy,
    {
        submit_reached(upgrade(&self.data), value)
    }
}

impl<I, O> Ticket<I, O> {
    /// Looks once for the response, without waiting for the lock. The only
    /// errors are `ThreadDead` and `WrongState`.
    ///
    /// What comes back depends on what the attempt on the lock finds.
    /// [`poll_found`] says what is answered to each.
    pub fn poll(&self) -> (r: Poll<O>)
        ensures
            r matches Poll::Ready(Err(e)) ==> e == Error::ThreadDead || e == Error::WrongState,
    {
        poll_found(try_lock(&*self.data))
    }
}

impl<I, O> Responder<I, O> {
    /// Takes the waiting request, if there is one. The only misuse is
    /// `RequestInFlight`: asking again before the request that was taken has
    /// its response.
    ///
    /// What comes back depends on what is found behind the lock.
    /// [`get_found`] says what is answered to each.
    pub fn get_request(&self) -> (r: Result<Option<I>, Misuse>)
        ensures
            r matches Err(misuse) ==> misuse == Misuse::RequestInFlight,
    {
        get_found(lock(&*self.data))
    }

    /// Puts the response into the slot, whether the request was taken with
    /// `get_request` or not. The only misuses are `NothingRequested` and
    /// `AlreadyReplied`.
    ///
    /// What comes back depends on what is found behind the lock.
    /// [`set_found`] says what is answered to each.
    pub fn set_response(&self, value: O) -> (r: Result<(), Misuse>)
        ensures
            r matches Err(misuse) ==> misuse == Misuse::AlreadyReplied || misuse
                == Misuse::NothingRequested,
    {
        set_found(lock(&*self.data), value)
    }
}

/// The requester's first step, for each thing that the look for the slot can
/// find. A slot that is gone is answered with `ThreadDead`. A slot that is
/// there is locked, the step is made by [`submit_found`], and a request that
/// was taken gets a ticket for that slot.
fn submit_reached<I, O>(reached: Option<Arc<Guarded<Slot<I, O>>>>, value: I) -> (r: Result<
    Ticket<I, O>,
    Error,
>)
    ensures
        reached is None ==> r == Err::<Ticket<I, O>, Error>(Error::ThreadDead),
        reached matches Some(slot) ==> (r matches Ok(ticket) ==> ticket.slot() == *slot),
        r matches Err(e) ==> e == Error::ThreadDead || e == Error::Busy,
{
    match reached {
        Some(slot) => {
            match submit_found(lock(&*slot), value) {
                Ok(()) => Ok(Ticket { data: slot }),
                Err(e) => Err(e),
            }
        },
        None => Err(Error::ThreadDead),
    }
}

/// The requester's first step, for each thing that taking the lock can find.
/// A poisoned lock is answered as a slot whose responder has failed is, with
/// `ThreadDead`. With the lock held the step is [`Slot::submit`].
fn submit_found<'a, I, O>(locked: Option<MutexGuard<'a, Slot<I, O>>>, value: I) -> (r: Result<
    (),
    Error,
>)
    ensures
        locked is None ==> r == Err::<(), Error>(Error::ThreadDead),
        locked is None ==> forall|slot: Slot<I, O>|
            slot.failed ==> r == #[trigger] slot.submit_outcome(),
        r matches Err(e) ==> e == Error::ThreadDead || e == Error::Busy,
{
    match locked {
        Some(mut guard) => deref_mut(&mut guard).submit(value),
        None => Err(Error::ThreadDead),
    }
}

/// The requester's later steps, for each thing that an attempt on the lock
/// can find. While another thread holds the lock the response is pending. A
/// poisoned lock is answered as a slot whose responder has failed is, with
/// `ThreadDead`. With the lock held the step is [`Slot::poll`].
fn poll_found<'a, I, O>(attempt: Attempt<'a, Slot<I, O>>) -> (r: Poll<O>)
    ensures
        attempt is WouldBlock ==> r is Pending,
        attempt is Poisoned ==> r == Poll::<O>::Ready(Err(Error::ThreadDead)),
        attempt is Poisoned ==> forall|slot: Slot<I, O>|
            slot.failed ==> r == #[trigger] slot.poll_outcome(),
        r matches Poll::Ready(Err(e)) ==> e == Error::ThreadDead || e == Error::WrongState,
{
    match attempt {
        Attempt::Held(mut guard) => deref_mut(&mut guard).poll(),
        Attempt::WouldBlock => Poll::Pending,
        Attempt::Poisoned => Poll::Ready(Err(Error::ThreadDead)),
    }
}

/// The responder's look for a request, for each thing that taking the lock
/// can find. A poisoned lock is answered as a slot whose responder has failed
/// is: there is no request. With the lock held the step is
/// [`Slot::get_request`].
fn get_found<'a, I, O>(locked: Option<MutexGuard<'a, Slot<I, O>>>) -> (r: Result<
    Option<I>,
    Misuse,
>)
    ensures
        locked is None ==> r == Ok::<Option<I>, Misuse>(None),
        locked is None ==> forall|slot: Slot<I, O>|
            slot.failed ==> r == #[trigger] slot.get_outcome(),
        r matches Err(misuse) ==> misuse == Misuse::RequestInFlight,
{
    match locked {
        Some(mut guard) => deref_mut(&mut guard).get_request(),
        None => Ok(None),
    }
}

/// The responder's response, for each thing that taking the lock can find. A
/// poisoned lock is answered as a slot whose responder has failed is: the
/// response is dropped without a word. With the lock held the step is
/// [`Slot::set_response`].
fn set_found<'a, I, O>(locked: Option<MutexGuard<'a, Slot<I, O>>>, value: O) -> (r: Result<
    (),
    Misuse,
>)
    ensures
        locked is None ==> r == Ok::<(), Misuse>(()),
        locked is None ==> forall|slot: Slot<I, O>|
            slot.failed ==> r == #[trigger] slot.set_outcome(),
        r matches Err(misuse) ==> misuse == Misuse::AlreadyReplied || misuse
            == Misuse::NothingRequested,
{
    match locked {
        Some(mut guard) => deref_mut(&mut guard).set_response(value),
        None => Ok(()),
    }
}

impl<I, O> Requester<I, O> {
    /// The slot that this requester observes, with its lock.
    pub closed spec fn slot(&self) -> Guarded<Slot<I, O>> {
        self.data@
    }
}

impl<I, O> Responder<I, O> {
    /// The slot that this responder owns, with its lock.
    pub closed spec fn slot(&self) -> Guarded<Slot<I, O>> {
        *self.data
    }
}

impl<I, O> Ticket<I, O> {
    /// The slot that the request waits in, with its lock.
    pub closed spec fn slot(&self) -> Guarded<Slot<I, O>> {
        *self.data
    }
}

} // verus!
