//! Control over the execution of a worker thread.
//!
//! A [`Flag`] goes to the worker, which polls it; the [`Control`] stays with
//! the supervisor, which asks the worker to stop, interrupts it, and sees
//! whether it has ended. The two signals behind a pair are atomics that are
//! read and written one at a time, with relaxed ordering: no operation waits,
//! and none orders any other data.
//!
//! What the signals hold at a given moment is up to the threads that share
//! them, and no contract here speaks of it. The rules of the pair are stated
//! over a plain value in [`signals`], and what follows from them is proved of
//! that model. The handles are tied to it in three ways: a flag is made with
//! the signals that the model starts from; a control works on the signals of
//! its flag; and every value that a handle writes or answers is given by a
//! function of [`signals`] whose contract is stated over the model.
//!
//! The module [`request`] holds a second pair, for handing one value to a
//! worker and waiting for its answer.

pub mod latch;
pub mod request;
pub mod signals;
pub mod slot;
mod sync;

pub use signals::Interrupted;

use latch::Latch;
use signals::done_answer;
use signals::interrupt_writes;
use signals::interrupted_answer;
use signals::poll_readings;
use signals::release_writes;
use signals::stop_writes;
use signals::Signals;
use std::sync::Arc;
use sync::downgrade;
use sync::upgrade;
use sync::WeakLink;
use vstd::prelude::*;

verus! {

/// The worker's half of a pair: it tells the worker whether to go on.
pub struct Flag {
    alive: Arc<Latch>,
    interrupt: Arc<Latch>,
}

/// The supervisor's half of a pair. It observes the `alive` signal without
/// keeping it in existence, so that the end of the flag can be seen, and it
/// owns the `interrupt` signal together with the flag, so that the signal
/// outlives the flag.
pub struct Control {
    alive: WeakLink<Latch>,
    interrupt: Arc<Latch>,
}

impl Flag {
    /// A flag of its own, alive and not interrupted.
    pub fn new() -> (flag: Flag)
        ensures
            flag.made_with() == Signals::fresh(),
    {
        Flag { alive: Arc::new(Latch::new(true)), interrupt: Arc::new(Latch::new(false)) }
    }

    /// A control for this flag. A flag may have several.
    pub fn take_control(&self) -> (control: Control)
        ensures
            control.controls(self),
    {
        proof {
            use_type_invariant(self);
        }
        Control { alive: downgrade(&self.alive), interrupt: self.interrupt.clone() }
    }

    /// Whether the worker should go on: `Ok(true)` until `stop` was called,
    /// `Ok(false)` after it, and `Err(Interrupted)` once an interrupt was
    /// requested. A worker that gets the error abandons its work at once.
    ///
    /// The answer is that of [`signals::poll_answer`] on what the two signals
    /// were found to hold. Which answer that is depends on what the controls
    /// have done, and every one of the three can come.
    pub fn alive(&self) -> (r: Result<bool, Interrupted>) {
        proof {
            use_type_invariant(self);
        }
        poll_readings(self.interrupt.read(), self.alive.read())
    }

    /// Ends the flag. With `failed` set, the worker is giving up because
    /// something went wrong, and the pair reports an interrupt from then on.
    ///
    /// What is written, and when, is given by [`release_writes`].
    pub fn release(self, failed: bool) {
        proof {
            use_type_invariant(&self);
        }
        match release_writes(failed) {
            Some(value) => {
                assert(Signals::fresh().release(failed).interrupted == value);
                self.interrupt.write(value);
            },
            None => {},
        }
    }
}

impl Control {
    /// Requests an interrupt: the next poll of the flag aborts the worker.
    /// Calling it again changes nothing.
    ///
    /// What is written is given by [`interrupt_writes`].
    pub fn interrupt(&self) {
        proof {
            use_type_invariant(self);
        }
        let value = interrupt_writes();
        assert(Signals::fresh().interrupt().interrupted == value);
        self.interrupt.write(value);
    }

    /// Asks the worker to stop at its next poll. Does nothing if the flag has
    /// gone.
    ///
    /// What is written is given by [`stop_writes`].
    pub fn stop(&self) {
        proof {
            use_type_invariant(self);
        }
        match upgrade(&self.alive) {
            Some(alive) => {
                let value = stop_writes();
                assert(Signals::fresh().stop().alive == value);
                alive.write(value);
            },
            None => {},
        }
    }

    /// Whether the flag has gone, which it does when the worker ends, in
    /// whatever way.
    ///
    /// The answer is that of [`done_answer`] on whether the flag was found.
    pub fn is_done(&self) -> bool {
        let found = upgrade(&self.alive).is_some();
        done_answer(found)
    }

    /// Whether an interrupt was requested or the worker failed.
    ///
    /// The answer is that of [`interrupted_answer`] on what the `interrupt`
    /// signal was found to hold.
    pub fn is_interrupted(&self) -> bool {
        proof {
            use_type_invariant(self);
        }
        interrupted_answer(self.interrupt.read())
    }
}

/// A flag together with a control for it.
pub fn make_pair() -> (pair: (Flag, Control))
    ensures
        pair.0.made_with() == Signals::fresh(),
        pair.1.controls(&pair.0),
{
    let flag = Flag::new();
    let control = flag.take_control();
    (flag, control)
}

impl Flag {
    /// The signals that the flag was made with. What they hold later is up to
    /// the threads that share them.
    pub closed spec fn made_with(&self) -> Signals {
        Signals {
            alive: self.alive.made_with(),
            interrupted: self.interrupt.made_with(),
            attached: true,
        }
    }

    /// Every flag was made with the signals that a pair starts from.
    #[verifier::type_invariant]
    spec fn starts_fresh(&self) -> bool {
        self.made_with() == Signals::fresh()
    }
}

impl Control {
    /// Whether this control works on the two signals of `flag`: the `alive`
    /// signal that it observes and the `interrupt` signal that it owns are
    /// the flag's.
    pub closed spec fn controls(&self, flag: &Flag) -> bool {
        &&& self.alive@ == *flag.alive
        &&& *self.interrupt == *flag.interrupt
    }

    /// Every control works on signals that were made as those of a flag are.
    #[verifier::type_invariant]
    spec fn on_fresh_signals(&self) -> bool {
        &&& self.alive@.made_with() == Signals::fresh().alive
        &&& self.interrupt.made_with() == Signals::fresh().interrupted
    }
}

} // verus!
