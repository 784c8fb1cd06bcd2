//! The pieces of `std::sync` that the handles are built from.
//!
//! What a shared value holds at a given moment depends on what other threads
//! have done, so nothing here speaks of it: every caller is verified for
//! whatever it finds. What is stated is which shared value a reference leads
//! to, and what a lock was made with: neither ever changes.

use std::sync::Arc;
use std::sync::Mutex;
use std::sync::MutexGuard;
use std::sync::TryLockError;
use std::sync::Weak;
use vstd::prelude::*;

verus! {

/// `std::sync::Mutex`, carried through verified code as an opaque value.
#[verifier::external_type_specification]
#[verifier::external_body]
#[verifier::reject_recursive_types(T)]
pub struct ExMutex<T: ?Sized>(Mutex<T>);

/// `std::sync::MutexGuard`, carried through verified code as an opaque value.
#[verifier::external_type_specification]
#[verifier::external_body]
#[verifier::reject_recursive_types(T)]
pub struct ExMutexGuard<'a, T: ?Sized + 'a>(MutexGuard<'a, T>);

/// A `std::sync::Weak`. It is held in a struct because the type itself cannot
/// be declared to the verifier, which sees nothing inside.
#[verifier::external_body]
#[verifier::reject_recursive_types(T)]
pub struct RawWeak<T> {
    link: Weak<T>,
}

/// A reference to a shared value that does not keep the value in existence.
/// Its view is the shared value that it leads to.
#[verifier::reject_recursive_types(T)]
pub struct WeakLink<T> {
    raw: RawWeak<T>,
    target: Ghost<T>,
}

impl<T> View for WeakLink<T> {
    type V = T;

    closed spec fn view(&self) -> T {
        self.target@
    }
}

/// A `std::sync::Mutex`, with a record of the value that it was made with.
#[verifier::reject_recursive_types(T)]
pub struct Guarded<T> {
    lock: Mutex<T>,
    initial: Ghost<T>,
}

impl<T> Guarded<T> {
    /// The value that the lock protected when it was made. What it protects
    /// later is for the holder of the lock to find.
    pub closed spec fn made_with(&self) -> T {
        self.initial@
    }
}

/// What one attempt to take a lock without waiting found.
#[verifier::reject_recursive_types(T)]
pub enum Attempt<'a, T> {
    /// The lock was free and is now held.
    Held(MutexGuard<'a, T>),
    /// Another thread holds the lock.
    WouldBlock,
    /// A thread failed while it held the lock.
    Poisoned,
}

/// `Arc::downgrade`: a non-owning reference to the allocation of `strong`.
/// The claim is that it leads to the value behind `strong`.
#[verifier::external_body]
pub(crate) fn downgrade<T>(strong: &Arc<T>) -> (r: WeakLink<T>)
    ensures
        r@ == **strong,
{
    WeakLink { raw: RawWeak { link: Arc::downgrade(strong) }, target: Ghost(**strong) }
}

/// `Weak::upgrade`: an owning reference to the same allocation if an owner of
/// it is left, else `None`. Which of the two comes back is decided by what
/// the owners have done. The claim is that an owning reference which comes
/// back leads to the value that `weak` leads to.
#[verifier::external_body]
pub(crate) fn upgrade<T>(weak: &WeakLink<T>) -> (r: Option<Arc<T>>)
    ensures
        r matches Some(strong) ==> *strong == weak@,
{
    weak.raw.link.upgrade()
}

/// `Weak::clone`: another non-owning reference to the same allocation. The
/// claim is that it leads to the value that `weak` leads to.
#[verifier::external_body]
pub(crate) fn clone_weak<T>(weak: &WeakLink<T>) -> (r: WeakLink<T>)
    ensures
        r@ == weak@,
{
    WeakLink { raw: RawWeak { link: weak.raw.link.clone() }, target: Ghost(weak@) }
}

/// `Mutex::new`: a lock around `value`. The claim is that `value` is what the
/// lock was made with.
#[verifier::external_body]
pub(crate) fn new_mutex<T>(value: T) -> (r: Guarded<T>)
    ensures
        r.made_with() == value,
{
    Guarded { initial: Ghost(value), lock: Mutex::new(value) }
}

/// `Mutex::lock`: waits for the lock. `None` stands for the error that std
/// returns when a holder of the lock has failed. Nothing is claimed of the
/// result.
///
/// std leaves open what the call does on a thread that holds the lock
/// already. No function of this library keeps a guard beyond its own end or
/// calls another one while it has a guard, so none of them asks here twice.
#[verifier::external_body]
pub(crate) fn lock<'a, T>(mutex: &'a Guarded<T>) -> Option<MutexGuard<'a, T>> {
    match mutex.lock.lock() {
        Ok(guard) => Some(guard),
        Err(_) => None,
    }
}

/// `Mutex::try_lock`: takes the lock only if that needs no waiting, and tells
/// std's two errors apart. Nothing is claimed of the result.
#[verifier::external_body]
pub(crate) fn try_lock<'a, T>(mutex: &'a Guarded<T>) -> Attempt<'a, T> {
    match mutex.lock.try_lock() {
        Ok(guard) => Attempt::Held(guard),
        Err(TryLockError::WouldBlock) => Attempt::WouldBlock,
        Err(TryLockError::Poisoned(_)) => Attempt::Poisoned,
    }
}

/// `DerefMut` of a `MutexGuard`: the value that the held lock protects.
/// Nothing is claimed of what that value is when the lock has just been
/// taken.
#[verifier::external_body]
pub(crate) fn deref_mut<'a, 'b, T>(guard: &'a mut MutexGuard<'b, T>) -> &'a mut T {
    &mut **guard
}

} // verus!
