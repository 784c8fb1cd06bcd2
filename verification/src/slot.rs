//! The slot through which a requester and a responder exchange one request
//! and one response, and the steps that each side takes on it.
//!
//! [`State`] is what the slot holds, with the steps that are allowed in each
//! state. [`Slot`] is the state together with a mark that the responder has
//! failed, and its steps are defined in every state: a step that is not
//! allowed sets the mark and is reported, and on a slot with the mark every
//! step is turned away.
//!
//! Every step here works on a slot that the caller holds alone. The handles
//! in `request` take the slot's lock and then make one step.

use vstd::prelude::*;

verus! {

/// Why a request came back without a response.
#[derive(Debug, Clone, Copy, PartialEq, Eq, Structural)]
pub enum Error {
    /// The responder, or the lock that guards the slot, is gone.
    ThreadDead,
    /// The time allowed for the response has passed.
    Timeout,
    /// The slot holds an earlier request or its response.
    Busy,
    /// The slot was found empty where a response was due.
    WrongState,
}

/// A step that the responder must not take in the state the slot is in.
#[derive(Debug, Clone, Copy, PartialEq, Eq, Structural)]
pub enum Misuse {
    /// A request was asked for while the one before it had no response yet.
    RequestInFlight,
    /// A response was given while the one before it had not been collected.
    AlreadyReplied,
    /// A response was given though nothing had been requested.
    NothingRequested,
}

/// What the slot holds.
pub enum State<I, O> {
    /// Neither a request nor a response.
    Empty,
    /// A request that the responder has not taken yet.
    Requested(I),
    /// Nothing: the responder has taken the request and is working on it.
    InFlight,
    /// A response that the requester has not collected yet.
    Replied(O),
}

/// What the requester found when it looked for its response.
pub enum Poll<O> {
    /// The request has ended, with a response or without.
    Ready(Result<O, Error>),
    /// The response is not there yet.
    Pending,
}

impl<I, O> State<I, O> {
    /// What a requester that deposits a value is told: only an empty slot
    /// takes a request.
    pub open spec fn submit_outcome(self) -> Result<(), Error> {
        if self is Empty {
            Ok(())
        } else {
            Err(Error::Busy)
        }
    }

    /// The slot after a requester has tried to deposit `value`.
    pub open spec fn after_submit(self, value: I) -> State<I, O> {
        if self is Empty {
            State::Requested(value)
        } else {
            self
        }
    }

    /// What a requester that looks for its response finds.
    pub open spec fn collect_outcome(self) -> Poll<O> {
        match self {
            State::Replied(value) => Poll::Ready(Ok(value)),
            State::Empty => Poll::Ready(Err(Error::WrongState)),
            _ => Poll::Pending,
        }
    }

    /// The slot after a requester has looked for its response: a response is
    /// taken out, anything else stays.
    pub open spec fn after_collect(self) -> State<I, O> {
        match self {
            State::Replied(_) => State::Empty,
            _ => self,
        }
    }

    /// What stands against the responder asking for a request.
    pub open spec fn take_misuse(self) -> Option<Misuse> {
        if self is InFlight {
            Some(Misuse::RequestInFlight)
        } else {
            None
        }
    }

    /// The request that the responder gets, if one is waiting.
    pub open spec fn taken(self) -> Option<I> {
        match self {
            State::Requested(value) => Some(value),
            _ => None,
        }
    }

    /// The slot after the responder has asked for a request.
    pub open spec fn after_take(self) -> State<I, O> {
        match self {
            State::Requested(_) => State::InFlight,
            _ => self,
        }
    }

    /// What stands against the responder giving a response.
    pub open spec fn respond_misuse(self) -> Option<Misuse> {
        match self {
            State::Replied(_) => Some(Misuse::AlreadyReplied),
            State::Empty => Some(Misuse::NothingRequested),
            _ => None,
        }
    }

    /// Deposits a request in an empty slot. A slot that is not empty is left
    /// as it is, and the requester is told that it is busy.
    pub fn submit(&mut self, value: I) -> (r: Result<(), Error>)
        ensures
            r == old(self).submit_outcome(),
            *final(self) == old(self).after_submit(value),
    {
        match self {
            State::Empty => {
                *self = State::Requested(value);
                Ok(())
            },
            _ => Err(Error::Busy),
        }
    }

    /// Looks for the response. A response is taken out and leaves the slot
    /// empty. An empty slot is an error, since a request should be under way.
    /// A request that is waiting or in flight stays, and the requester has to
    /// look again.
    pub fn collect(&mut self) -> (r: Poll<O>)
        ensures
            r == old(self).collect_outcome(),
            *final(self) == old(self).after_collect(),
    {
        let mut found = State::Empty;
        std::mem::swap(self, &mut found);
        match found {
            State::Replied(value) => Poll::Ready(Ok(value)),
            State::Empty => Poll::Ready(Err(Error::WrongState)),
            other => {
                *self = other;
                Poll::Pending
            },
        }
    }

    /// What stands against the responder asking for a request now, if
    /// anything.
    pub fn check_take(&self) -> (r: Option<Misuse>)
        ensures
            r == self.take_misuse(),
    {
        match self {
            State::InFlight => Some(Misuse::RequestInFlight),
            _ => None,
        }
    }

    /// Hands the waiting request to the responder and marks the slot as in
    /// flight. Without a waiting request the slot stays as it is: empty, or
    /// with the response that the requester has yet to collect.
    pub fn take_request(&mut self) -> (r: Option<I>)
        requires
            old(self).take_misuse() is None,
        ensures
            r == old(self).taken(),
            *final(self) == old(self).after_take(),
    {
        let mut found = State::InFlight;
        std::mem::swap(self, &mut found);
        match found {
            State::Requested(value) => Some(value),
            other => {
                *self = other;
                None
            },
        }
    }

    /// What stands against the responder giving a response now, if anything.
    pub fn check_respond(&self) -> (r: Option<Misuse>)
        ensures
            r == self.respond_misuse(),
    {
        match self {
            State::Replied(_) => Some(Misuse::AlreadyReplied),
            State::Empty => Some(Misuse::NothingRequested),
            _ => None,
        }
    }

    /// Puts the response into the slot, in place of the request, whether the
    /// responder had taken it or not.
    pub fn put_response(&mut self, value: O)
        requires
            old(self).respond_misuse() is None,
        ensures
            *final(self) == State::<I, O>::Replied(value),
    {
        *self = State::Replied(value);
    }
}

impl<O> Poll<O> {
    /// Whether the time allowed has passed: never without a limit, and with
    /// one as soon as the time spent reaches it.
    pub open spec fn expired(limit: Option<u128>, spent: u128) -> bool {
        limit matches Some(allowed) && spent >= allowed
    }

    /// What a look for the response comes to once the time is taken into
    /// account.
    pub open spec fn settled(self, limit: Option<u128>, spent: u128) -> Poll<O> {
        match self {
            Poll::Ready(result) => Poll::Ready(result),
            Poll::Pending => if Self::expired(limit, spent) {
                Poll::Ready(Err(Error::Timeout))
            } else {
                Poll::Pending
            },
        }
    }

    /// Ends a wait that has taken too long. `limit` is the time allowed, if
    /// there is a limit, and `spent` the time since the request was made,
    /// both in one unit. An outcome that is ready stays as it is.
    pub fn settle(self, limit: Option<u128>, spent: u128) -> (r: Poll<O>)
        ensures
            r == self.settled(limit, spent),
    {
        match self {
            Poll::Ready(result) => Poll::Ready(result),
            Poll::Pending => {
                match limit {
                    Some(allowed) => {
                        if spent >= allowed {
                            Poll::Ready(Err(Error::Timeout))
                        } else {
                            Poll::Pending
                        }
                    },
                    None => Poll::Pending,
                }
            },
        }
    }
}

/// The slot as the two sides find it behind the lock: what it holds, and
/// whether the responder has failed.
pub struct Slot<I, O> {
    /// What the slot holds.
    pub state: State<I, O>,
    /// The responder has taken a step that it was not allowed to take. From
    /// then on requests end with `ThreadDead` and the responder gets nothing
    /// more to do.
    pub failed: bool,
}

/// One step of either side on a slot.
pub enum Step<I, O> {
    /// The requester deposits a request.
    Submit(I),
    /// The requester looks for the response.
    Poll,
    /// The responder asks for a request.
    GetRequest,
    /// The responder gives a response.
    SetResponse(O),
}

impl<I, O> Slot<I, O> {
    /// An empty slot of a responder that has not failed.
    pub open spec fn fresh() -> Slot<I, O> {
        Slot { state: State::Empty, failed: false }
    }

    /// What a requester that deposits a value is told.
    pub open spec fn submit_outcome(self) -> Result<(), Error> {
        if self.failed {
            Err(Error::ThreadDead)
        } else {
            self.state.submit_outcome()
        }
    }

    /// The slot after a requester has tried to deposit `value`.
    pub open spec fn after_submit(self, value: I) -> Slot<I, O> {
        if self.failed {
            self
        } else {
            Slot { state: self.state.after_submit(value), ..self }
        }
    }

    /// What a requester that looks for its response finds.
    pub open spec fn poll_outcome(self) -> Poll<O> {
        if self.failed {
            Poll::Ready(Err(Error::ThreadDead))
        } else {
            self.state.collect_outcome()
        }
    }

    /// The slot after a requester has looked for its response.
    pub open spec fn after_poll(self) -> Slot<I, O> {
        if self.failed {
            self
        } else {
            Slot { state: self.state.after_collect(), ..self }
        }
    }

    /// What a responder that asks for a request gets.
    pub open spec fn get_outcome(self) -> Result<Option<I>, Misuse> {
        if self.failed {
            Ok(None)
        } else {
            match self.state.take_misuse() {
                Some(misuse) => Err(misuse),
                None => Ok(self.state.taken()),
            }
        }
    }

    /// The slot after the responder has asked for a request.
    pub open spec fn after_get(self) -> Slot<I, O> {
        if self.failed {
            self
        } else if self.state.take_misuse() is Some {
            Slot { failed: true, ..self }
        } else {
            Slot { state: self.state.after_take(), ..self }
        }
    }

    /// What a responder that gives a response is told.
    pub open spec fn set_outcome(self) -> Result<(), Misuse> {
        if self.failed {
            Ok(())
        } else {
            match self.state.respond_misuse() {
                Some(misuse) => Err(misuse),
                None => Ok(()),
            }
        }
    }

    /// The slot after the responder has given the response `value`.
    pub open spec fn after_set(self, value: O) -> Slot<I, O> {
        if self.failed {
            self
        } else if self.state.respond_misuse() is Some {
            Slot { failed: true, ..self }
        } else {
            Slot { state: State::Replied(value), ..self }
        }
    }

    /// The slot after one step.
    pub open spec fn apply(self, step: Step<I, O>) -> Slot<I, O> {
        match step {
            Step::Submit(value) => self.after_submit(value),
            Step::Poll => self.after_poll(),
            Step::GetRequest => self.after_get(),
            Step::SetResponse(value) => self.after_set(value),
        }
    }

    /// The slot after a sequence of steps, the first one first.
    pub open spec fn run(self, steps: Seq<Step<I, O>>) -> Slot<I, O>
        decreases steps.len(),
    {
        if steps.len() == 0 {
            self
        } else {
            self.run(steps.drop_last()).apply(steps.last())
        }
    }

    /// An empty slot.
    pub fn new() -> (r: Slot<I, O>)
        ensures
            r == Slot::<I, O>::fresh(),
    {
        Slot { state: State::Empty, failed: false }
    }

    /// The requester's first step: it deposits a request. A responder that
    /// has failed is reported as dead; otherwise the step is
    /// [`State::submit`].
    pub fn submit(&mut self, value: I) -> (r: Result<(), Error>)
        ensures
            r == old(self).submit_outcome(),
            *final(self) == old(self).after_submit(value),
    {
        if self.failed {
            Err(Error::ThreadDead)
        } else {
            self.state.submit(value)
        }
    }

    /// The requester's later steps: it looks for the response. A responder
    /// that has failed is reported as dead; otherwise the step is
    /// [`State::collect`].
    pub fn poll(&mut self) -> (r: Poll<O>)
        ensures
            r == old(self).poll_outcome(),
            *final(self) == old(self).after_poll(),
    {
        if self.failed {
            Poll::Ready(Err(Error::ThreadDead))
        } else {
            self.state.collect()
        }
    }

    /// The responder asks for a request. Where that is allowed the step is
    /// [`State::take_request`]. Where it is not, the slot is marked as failed
    /// and the misuse is reported. A responder that has failed gets no
    /// request.
    pub fn get_request(&mut self) -> (r: Result<Option<I>, Misuse>)
        ensures
            r == old(self).get_outcome(),
            *final(self) == old(self).after_get(),
    {
        if self.failed {
            Ok(None)
        } else {
            match self.state.check_take() {
                Some(misuse) => {
                    self.failed = true;
                    Err(misuse)
                },
                None => Ok(self.state.take_request()),
            }
        }
    }

    /// The responder gives a response. Where that is allowed the step is
    /// [`State::put_response`]. Where it is not, the slot is marked as failed
    /// and the misuse is reported. The response of a responder that has
    /// failed is dropped.
    pub fn set_response(&mut self, value: O) -> (r: Result<(), Misuse>)
        ensures
            r == old(self).set_outcome(),
            *final(self) == old(self).after_set(value),
    {
        if self.failed {
            Ok(())
        } else {
            match self.state.check_respond() {
                Some(misuse) => {
                    self.failed = true;
                    Err(misuse)
                },
                None => {
                    self.state.put_response(value);
                    Ok(())
                },
            }
        }
    }
}

/// One exchange, step by step. A request put into an empty slot waits there,
/// and the requester finds nothing for as long as the responder does nothing.
/// The responder then gets the very value that was sent, and the requester
/// still finds nothing while the request is in flight. The response that the
/// responder gives is the one that the requester collects, and the slot is
/// then as it was at the start.
pub proof fn exchange_hands_both_values_over<I, O>(request: I, response: O)
    ensures
        ({
            let empty = Slot::<I, O>::fresh();
            let sent = empty.after_submit(request);
            let taken = sent.after_get();
            let replied = taken.after_set(response);
            &&& empty.submit_outcome() is Ok
            &&& sent.poll_outcome() is Pending && sent.after_poll() == sent
            &&& sent.get_outcome() == Ok::<Option<I>, Misuse>(Some(request))
            &&& taken.poll_outcome() is Pending && taken.after_poll() == taken
            &&& taken.set_outcome() is Ok
            &&& replied.poll_outcome() == Poll::Ready(Ok::<O, Error>(response))
            &&& replied.after_poll() == empty
        }),
{
}

/// A second request, made before the first was taken or answered, is turned
/// away as busy, and the first stays in the slot.
pub proof fn second_request_is_busy<I, O>(first: I, second: I)
    ensures
        ({
            let sent = Slot::<I, O>::fresh().after_submit(first);
            &&& sent.submit_outcome() == Err::<(), Error>(Error::Busy)
            &&& sent.after_submit(second) == sent
        }),
{
}

/// While the responder has not failed, a slot takes a request exactly when it
/// is empty; otherwise the requester is told that it is busy and the slot
/// stays as it is. No step of the responder empties a slot, so it stays busy
/// until the response is collected.
pub proof fn busy_until_collected<I, O>(slot: Slot<I, O>, request: I, response: O)
    requires
        !slot.failed,
    ensures
        slot.submit_outcome() is Ok <==> slot.state is Empty,
        !(slot.state is Empty) ==> slot.submit_outcome() == Err::<(), Error>(Error::Busy)
            && slot.after_submit(request) == slot,
        !(slot.state is Empty) ==> !(slot.after_get().state is Empty) && !(slot.after_set(
            response,
        ).state is Empty),
        !(slot.state is Empty) ==> (slot.after_poll().state is Empty <==> slot.state is Replied),
{
}

/// A request that nobody answers ends with a timeout as soon as the time
/// spent reaches the limit, and not before; without a limit it never ends.
/// The request stays in the slot.
pub proof fn unanswered_request_times_out<I, O>(request: I, limit: Option<u128>, spent: u128)
    ensures
        ({
            let sent = Slot::<I, O>::fresh().after_submit(request);
            let found = sent.poll_outcome().settled(limit, spent);
            &&& sent.after_poll() == sent
            &&& Poll::<O>::expired(limit, spent) ==> found == Poll::<O>::Ready(Err(Error::Timeout))
            &&& !Poll::<O>::expired(limit, spent) ==> found is Pending
            &&& limit is None ==> found is Pending
            &&& limit matches Some(allowed) ==> (found is Pending <==> spent < allowed)
        }),
{
}

/// Asking an empty slot for a request gives none and leaves the slot as it
/// is, however often it is done.
pub proof fn empty_slot_gives_no_request<I, O>(slot: Slot<I, O>)
    requires
        slot.state is Empty,
    ensures
        slot.get_outcome() == Ok::<Option<I>, Misuse>(None),
        slot.after_get() == slot,
{
}

/// Asking for a request while a response waits to be collected gives none and
/// leaves the response where it is.
pub proof fn uncollected_response_is_kept<I, O>(slot: Slot<I, O>)
    requires
        slot.state is Replied,
    ensures
        slot.get_outcome() == Ok::<Option<I>, Misuse>(None),
        slot.after_get() == slot,
{
}

/// The steps that the responder must not take, and what comes of them: asking
/// for a request while one is in flight, and giving a response to nothing or
/// on top of a response. Each is reported, marks the slot as failed, and
/// leaves what the slot holds alone.
pub proof fn misuse_fails_the_slot<I, O>(slot: Slot<I, O>, response: O)
    requires
        !slot.failed,
    ensures
        slot.get_outcome() is Err <==> slot.state is InFlight,
        slot.get_outcome() is Err ==> slot.get_outcome() == Err::<Option<I>, Misuse>(
            Misuse::RequestInFlight,
        ) && slot.after_get() == (Slot { failed: true, ..slot }),
        slot.get_outcome() is Ok ==> !slot.after_get().failed,
        slot.set_outcome() is Err <==> slot.state is Empty || slot.state is Replied,
        slot.state is Empty ==> slot.set_outcome() == Err::<(), Misuse>(Misuse::NothingRequested),
        slot.state is Replied ==> slot.set_outcome() == Err::<(), Misuse>(Misuse::AlreadyReplied),
        slot.set_outcome() is Err ==> slot.after_set(response) == (Slot { failed: true, ..slot }),
        slot.set_outcome() is Ok ==> slot.after_set(response) == (Slot {
            state: State::Replied(response),
            ..slot
        }),
{
}

/// Once the responder has failed, every request ends with `ThreadDead`, while
/// the responder itself is told nothing: it gets no request, and a response
/// that it gives is dropped. No step changes the slot any more.
pub proof fn failed_slot_turns_every_step_away<I, O>(slot: Slot<I, O>, request: I, response: O)
    requires
        slot.failed,
    ensures
        slot.submit_outcome() == Err::<(), Error>(Error::ThreadDead),
        slot.poll_outcome() == Poll::<O>::Ready(Err(Error::ThreadDead)),
        slot.get_outcome() == Ok::<Option<I>, Misuse>(None),
        slot.set_outcome() == Ok::<(), Misuse>(()),
        slot.after_submit(request) == slot,
        slot.after_poll() == slot,
        slot.after_get() == slot,
        slot.after_set(response) == slot,
{
}

/// A failure of the responder is final: whatever steps follow, the slot stays
/// as it is, so that no later request can succeed.
pub proof fn failure_is_final<I, O>(slot: Slot<I, O>, steps: Seq<Step<I, O>>)
    requires
        slot.failed,
    ensures
        slot.run(steps) == slot,
        slot.run(steps).submit_outcome() == Err::<(), Error>(Error::ThreadDead),
    decreases steps.len(),
{
    if steps.len() > 0 {
        failure_is_final(slot, steps.drop_last());
    }
}

/// A slot that holds a request or a response takes no other request before
/// the requester has looked for the response, whatever else is done in
/// between.
pub proof fn no_request_before_the_response_is_looked_for<I, O>(
    slot: Slot<I, O>,
    steps: Seq<Step<I, O>>,
)
    requires
        !(slot.state is Empty),
        forall|i: int| 0 <= i < steps.len() ==> !(#[trigger] steps[i] is Poll),
    ensures
        !(slot.run(steps).state is Empty),
        slot.run(steps).submit_outcome() is Err,
    decreases steps.len(),
{
    if steps.len() > 0 {
        let before = steps.drop_last();
        assert forall|i: int| 0 <= i < before.len() implies !(#[trigger] before[i] is Poll) by {
            assert(before[i] == steps[i]);
        }
        no_request_before_the_response_is_looked_for(slot, before);
        assert(!(steps[steps.len() - 1] is Poll));
    }
}

} // verus!
