//! What a flag and its controls share, as one value, and what each operation
//! of the pair does to it.
//!
//! The handles keep the two signals in atomics that any thread may touch, so
//! their own contracts cannot speak of what the signals hold. The rules of
//! the pair are stated here instead, over a plain value, and the properties
//! that follow from them are proved of that model.
//!
//! The handles take from here every value that they write and every answer
//! that they give: [`stop_writes`], [`interrupt_writes`], [`release_writes`],
//! [`poll_answer`], [`done_answer`]. The contract of each is stated over the
//! model, so the model and the handles cannot drift apart in what they
//! decide. That a handle hands its decision to the right signal is fixed by
//! what the signal was made with, which the reading and the writing of a
//! latch require.

use crate::latch::Reading;
use vstd::prelude::*;

verus! {

/// The answer to a poll after an interrupt: the worker has to abandon what it
/// is doing at once.
#[derive(Debug, Clone, Copy, PartialEq, Eq, Structural)]
pub struct Interrupted;

/// What a flag and its controls share.
pub struct Signals {
    /// The worker should keep running.
    pub alive: bool,
    /// An interrupt was requested, or the worker failed.
    pub interrupted: bool,
    /// The flag object exists.
    pub attached: bool,
}

/// An operation that may change the shared signals.
pub enum Event {
    /// `Control::stop`.
    Stop,
    /// `Control::interrupt`.
    Interrupt,
    /// The end of the flag object, after a failure of the worker or not.
    Release { failed: bool },
}

impl Event {
    /// Whether the event is a cause for the pair to report an interrupt: a
    /// call of `interrupt`, or the end of a worker that failed.
    pub open spec fn raises_interrupt(self) -> bool {
        match self {
            Event::Stop => false,
            Event::Interrupt => true,
            Event::Release { failed } => failed,
        }
    }
}

impl Signals {
    /// The signals of a pair that was just made.
    pub open spec fn fresh() -> Signals {
        Signals { alive: true, interrupted: false, attached: true }
    }

    /// The signals after `Control::stop`: a flag that exists is told to stop,
    /// and nothing happens without one.
    pub open spec fn stop(self) -> Signals {
        if self.attached {
            Signals { alive: false, ..self }
        } else {
            self
        }
    }

    /// The signals after `Control::interrupt`.
    pub open spec fn interrupt(self) -> Signals {
        Signals { interrupted: true, ..self }
    }

    /// The signals after the flag object has gone. A failure of the worker is
    /// recorded as an interrupt.
    pub open spec fn release(self, failed: bool) -> Signals {
        Signals { interrupted: self.interrupted || failed, attached: false, ..self }
    }

    /// What `Flag::alive` answers while the flag exists.
    pub open spec fn poll(self) -> Result<bool, Interrupted> {
        if self.interrupted {
            Err(Interrupted)
        } else {
            Ok(self.alive)
        }
    }

    /// What `Control::is_done` answers.
    pub open spec fn is_done(self) -> bool {
        !self.attached
    }

    /// What `Control::is_interrupted` answers.
    pub open spec fn is_interrupted(self) -> bool {
        self.interrupted
    }

    /// The signals after one event.
    pub open spec fn apply(self, event: Event) -> Signals {
        match event {
            Event::Stop => self.stop(),
            Event::Interrupt => self.interrupt(),
            Event::Release { failed } => self.release(failed),
        }
    }

    /// The signals after a sequence of events, the first one first.
    pub open spec fn run(self, events: Seq<Event>) -> Signals
        decreases events.len(),
    {
        if events.len() == 0 {
            self
        } else {
            self.run(events.drop_last()).apply(events.last())
        }
    }
}

/// The answer that a poll gives on the two signals it has read.
pub fn poll_answer(interrupted: bool, alive: bool) -> (r: Result<bool, Interrupted>)
    ensures
        r == (Signals { alive, interrupted, attached: true }).poll(),
{
    if interrupted {
        Err(Interrupted)
    } else {
        Ok(alive)
    }
}

/// The answer to a poll, from what the two signals of a flag were found to
/// hold. The readings are told apart by what their latches were made with:
/// the `interrupt` signal starts as `false`, the `alive` signal as `true`.
pub(crate) fn poll_readings(interrupt: Reading, alive: Reading) -> (r: Result<bool, Interrupted>)
    requires
        interrupt.made_with() == Signals::fresh().interrupted,
        alive.made_with() == Signals::fresh().alive,
    ensures
        r == (Signals { alive: alive@, interrupted: interrupt@, attached: true }).poll(),
{
    poll_answer(interrupt.get(), alive.get())
}

/// What `Control::is_interrupted` answers, from what the `interrupt` signal
/// was found to hold.
pub(crate) fn interrupted_answer(interrupt: Reading) -> (r: bool)
    requires
        interrupt.made_with() == Signals::fresh().interrupted,
    ensures
        forall|s: Signals| s.interrupted == interrupt@ ==> #[trigger] s.is_interrupted() == r,
{
    interrupt.get()
}

/// What `Control::stop` writes to the `alive` signal of a flag that exists.
/// It writes to no other signal.
pub fn stop_writes() -> (w: bool)
    ensures
        forall|s: Signals| s.attached ==> #[trigger] s.stop() == (Signals { alive: w, ..s }),
{
    false
}

/// What `Control::interrupt` writes to the `interrupt` signal. It writes to
/// no other signal.
pub fn interrupt_writes() -> (w: bool)
    ensures
        forall|s: Signals| #[trigger] s.interrupt() == (Signals { interrupted: w, ..s }),
{
    true
}

/// What the end of a flag writes to the `interrupt` signal, if it writes at
/// all: it does so when the worker has failed, and only then. It writes to no
/// other signal.
pub fn release_writes(failed: bool) -> (w: Option<bool>)
    ensures
        forall|s: Signals| #[trigger]
            s.release(failed).interrupted == (match w {
                Some(v) => v,
                None => s.interrupted,
            }),
        forall|s: Signals| #[trigger] s.release(failed).alive == s.alive,
        w is Some <==> failed,
{
    if failed {
        Some(true)
    } else {
        None
    }
}

/// What `Control::is_done` answers, given whether the flag was found to
/// exist.
pub fn done_answer(found: bool) -> (r: bool)
    ensures
        forall|s: Signals| s.attached == found ==> #[trigger] s.is_done() == r,
{
    !found
}

/// Whether a sequence of events holds the end of the flag object.
pub open spec fn releases(events: Seq<Event>) -> bool {
    exists|i: int| 0 <= i < events.len() && #[trigger] events[i] is Release
}

/// Whether a sequence of events holds an interrupt or a failure of the
/// worker.
pub open spec fn interrupts(events: Seq<Event>) -> bool {
    exists|i: int| 0 <= i < events.len() && #[trigger] events[i].raises_interrupt()
}

/// A pair is done exactly when its flag object has gone: not before, whatever
/// else was called, and for ever after.
pub proof fn done_exactly_after_release(events: Seq<Event>)
    ensures
        Signals::fresh().run(events).is_done() <==> releases(events),
    decreases events.len(),
{
    if events.len() > 0 {
        let before = events.drop_last();
        done_exactly_after_release(before);
        if releases(before) {
            let i = choose|i: int| 0 <= i < before.len() && #[trigger] before[i] is Release;
            assert(events[i] is Release);
        }
        if releases(events) && !(events.last() is Release) {
            let i = choose|i: int| 0 <= i < events.len() && #[trigger] events[i] is Release;
            assert(before[i] is Release);
        }
        if events.last() is Release {
            assert(events[events.len() - 1] is Release);
        }
    }
}

/// Once a pair is done it stays done, whatever is called afterwards.
pub proof fn done_is_final(signals: Signals, events: Seq<Event>)
    requires
        signals.is_done(),
    ensures
        signals.run(events).is_done(),
    decreases events.len(),
{
    if events.len() > 0 {
        done_is_final(signals, events.drop_last());
    }
}

/// The interrupt signal is never taken back.
pub proof fn interrupt_is_final(signals: Signals, events: Seq<Event>)
    requires
        signals.is_interrupted(),
    ensures
        signals.run(events).is_interrupted(),
    decreases events.len(),
{
    if events.len() > 0 {
        interrupt_is_final(signals, events.drop_last());
    }
}

/// A pair reports an interrupt exactly when `interrupt` was called or the
/// worker failed.
pub proof fn interrupted_exactly_after_cause(events: Seq<Event>)
    ensures
        Signals::fresh().run(events).is_interrupted() <==> interrupts(events),
    decreases events.len(),
{
    if events.len() > 0 {
        let before = events.drop_last();
        interrupted_exactly_after_cause(before);
        if interrupts(before) {
            let i = choose|i: int| 0 <= i < before.len() && #[trigger] before[i].raises_interrupt();
            assert(events[i].raises_interrupt());
        }
        if interrupts(events) && !events.last().raises_interrupt() {
            let i = choose|i: int| 0 <= i < events.len() && #[trigger] events[i].raises_interrupt();
            assert(before[i].raises_interrupt());
        }
        if events.last().raises_interrupt() {
            assert(events[events.len() - 1].raises_interrupt());
        }
    }
}

/// After `stop`, the next poll of a flag that was not interrupted answers
/// that the worker should not go on, and does not abort it.
pub proof fn stop_ends_the_next_poll(signals: Signals)
    requires
        signals.attached,
        !signals.interrupted,
    ensures
        signals.stop().poll() == Ok::<bool, Interrupted>(false),
{
}

/// After `interrupt`, the next poll aborts the worker, whatever else was
/// called before; and once the flag has gone, however it went, the pair is
/// done and reports the interrupt.
pub proof fn interrupt_aborts_the_next_poll(signals: Signals, failed: bool)
    ensures
        signals.interrupt().poll() == Err::<bool, Interrupted>(Interrupted),
        signals.interrupt().release(failed).is_interrupted(),
        signals.interrupt().release(failed).is_done(),
{
}

/// A worker that fails takes its flag with it, and the pair then reports an
/// interrupt though none was asked for.
pub proof fn failure_is_reported_as_interrupt(signals: Signals)
    ensures
        signals.release(true).is_interrupted(),
        signals.release(true).is_done(),
{
}

/// A worker that ends without failing, and was never interrupted, leaves a
/// pair that is done and reports no interrupt.
pub proof fn clean_end_reports_no_interrupt(signals: Signals)
    requires
        !signals.interrupted,
    ensures
        !signals.stop().release(false).is_interrupted(),
        signals.stop().release(false).is_done(),
{
}

/// Whether a sequence of events holds a `stop` that found the flag in
/// existence.
pub open spec fn stops(events: Seq<Event>) -> bool {
    exists|i: int|
        0 <= i < events.len() && #[trigger] events[i] is Stop && !releases(events.take(i))
}

/// A flag is alive from the start, and stays so until `stop` is called while
/// the flag exists, and no longer.
pub proof fn alive_exactly_until_stop(events: Seq<Event>)
    ensures
        Signals::fresh().run(events).alive <==> !stops(events),
    decreases events.len(),
{
    if events.len() > 0 {
        let before = events.drop_last();
        let last = events.last();
        let n = events.len() - 1;
        alive_exactly_until_stop(before);
        done_exactly_after_release(before);
        assert(events.take(n) == before);
        assert forall|i: int| 0 <= i < n implies #[trigger] events.take(i) == before.take(i) by {
            assert(events.take(i) =~= before.take(i));
        }
        if stops(before) {
            let i = choose|i: int|
                0 <= i < before.len() && #[trigger] before[i] is Stop && !releases(before.take(i));
            assert(events[i] is Stop && !releases(events.take(i)));
        }
        if stops(events) {
            let i = choose|i: int|
                0 <= i < events.len() && #[trigger] events[i] is Stop && !releases(events.take(i));
            if i < n {
                assert(before[i] is Stop && !releases(before.take(i)));
            }
        }
        if last is Stop && !releases(before) {
            assert(events[n] is Stop && !releases(events.take(n)));
        }
    }
}

/// Calling `interrupt` or `stop` again changes nothing, and `stop` changes
/// nothing once the flag has gone.
pub proof fn repeated_calls_change_nothing(signals: Signals)
    ensures
        signals.interrupt().interrupt() == signals.interrupt(),
        signals.stop().stop() == signals.stop(),
        !signals.attached ==> signals.stop() == signals,
{
}

} // verus!
