//! A shared boolean that changes at most once.
//!
//! A latch is made with one value and takes the other value only, so that
//! what was written to it is never taken back. Each of the two signals of a
//! flag is a latch: `alive` is made with `true` and `interrupt` with `false`,
//! and the value that a latch was made with tells the two apart in contracts.
//!
//! What a latch holds at a given moment is up to the threads that share it.
//! So a reading is known by where it comes from, not by what it is.

use std::sync::atomic::AtomicBool;
use std::sync::atomic::Ordering;
use vstd::prelude::*;

verus! {

/// A shared boolean with a record of the value that it was made with.
pub struct Latch {
    cell: AtomicBool,
    initial: Ghost<bool>,
}

/// What a latch was found to hold, with the value that the latch was made
/// with. The view is what was found.
pub struct Reading {
    value: bool,
    source: Ghost<bool>,
}

impl View for Reading {
    type V = bool;

    closed spec fn view(&self) -> bool {
        self.value
    }
}

impl Reading {
    /// The value that the latch read from was made with.
    pub closed spec fn made_with(&self) -> bool {
        self.source@
    }

    /// What was found.
    pub fn get(&self) -> (r: bool)
        ensures
            r == self@,
    {
        self.value
    }
}

impl Latch {
    /// The value that the latch held when it was made.
    pub closed spec fn made_with(&self) -> bool {
        self.initial@
    }

    /// `AtomicBool::new`: a new atomic that holds `value`. The claim is that
    /// `value` is what the latch was made with.
    #[verifier::external_body]
    pub(crate) fn new(value: bool) -> (r: Latch)
        ensures
            r.made_with() == value,
    {
        Latch { initial: Ghost(value), cell: AtomicBool::new(value) }
    }

    /// Reads the latch, with relaxed ordering. Nothing is known of what is
    /// found but where it comes from.
    pub(crate) fn read(&self) -> (r: Reading)
        ensures
            r.made_with() == self.made_with(),
    {
        Reading { value: self.cell.load(Ordering::Relaxed), source: Ghost(self.initial@) }
    }

    /// Writes the latch, with relaxed ordering. The only value that it takes
    /// is the one that it was not made with.
    pub(crate) fn write(&self, value: bool)
        requires
            value != self.made_with(),
    {
        self.cell.store(value, Ordering::Relaxed);
    }
}

} // verus!
