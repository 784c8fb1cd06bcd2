use thread_control::slot::Error;
use thread_control::slot::Misuse;
use thread_control::slot::Poll;
use thread_control::slot::Slot;
use thread_control::slot::State;

type Cell = State<u8, char>;

fn holds(slot: &Cell, expected: &str) -> bool {
    let found = match slot {
        State::Empty => String::from("empty"),
        State::Requested(value) => format!("requested {}", value),
        State::InFlight => String::from("in flight"),
        State::Replied(value) => format!("replied {}", value),
    };
    found == expected
}

#[test]
fn submit_fills_an_empty_slot() {
    let mut slot: Cell = State::Empty;
    assert_eq!(slot.submit(3), Ok(()));
    assert!(holds(&slot, "requested 3"));
}

#[test]
fn submit_is_busy_on_every_other_state() {
    let mut slot: Cell = State::Requested(1);
    assert_eq!(slot.submit(2), Err(Error::Busy));
    assert!(holds(&slot, "requested 1"));

    let mut slot: Cell = State::InFlight;
    assert_eq!(slot.submit(2), Err(Error::Busy));
    assert!(holds(&slot, "in flight"));

    let mut slot: Cell = State::Replied('a');
    assert_eq!(slot.submit(2), Err(Error::Busy));
    assert!(holds(&slot, "replied a"));
}

#[test]
fn collect_takes_the_response_out() {
    let mut slot: Cell = State::Replied('r');
    assert!(matches!(slot.collect(), Poll::Ready(Ok('r'))));
    assert!(holds(&slot, "empty"));
}

#[test]
fn collect_of_an_empty_slot_is_wrong_state() {
    let mut slot: Cell = State::Empty;
    assert!(matches!(slot.collect(), Poll::Ready(Err(Error::WrongState))));
    assert!(holds(&slot, "empty"));
}

#[test]
fn collect_leaves_a_request_that_is_under_way() {
    let mut slot: Cell = State::Requested(5);
    assert!(matches!(slot.collect(), Poll::Pending));
    assert!(holds(&slot, "requested 5"));

    let mut slot: Cell = State::InFlight;
    assert!(matches!(slot.collect(), Poll::Pending));
    assert!(holds(&slot, "in flight"));
}

#[test]
fn take_request_hands_the_request_over() {
    let mut slot: Cell = State::Requested(5);
    assert_eq!(slot.check_take(), None);
    assert_eq!(slot.take_request(), Some(5));
    assert!(holds(&slot, "in flight"));
}

#[test]
fn take_request_without_a_request_changes_nothing() {
    let mut slot: Cell = State::Empty;
    assert_eq!(slot.check_take(), None);
    assert_eq!(slot.take_request(), None);
    assert!(holds(&slot, "empty"));
    assert_eq!(slot.take_request(), None);
    assert!(holds(&slot, "empty"));

    let mut slot: Cell = State::Replied('x');
    assert_eq!(slot.check_take(), None);
    assert_eq!(slot.take_request(), None);
    assert!(holds(&slot, "replied x"));
}

#[test]
fn take_request_is_misuse_while_one_is_in_flight() {
    let slot: Cell = State::InFlight;
    assert_eq!(slot.check_take(), Some(Misuse::RequestInFlight));
}

#[test]
fn put_response_answers_a_request() {
    let mut slot: Cell = State::InFlight;
    assert_eq!(slot.check_respond(), None);
    slot.put_response('y');
    assert!(holds(&slot, "replied y"));

    let mut slot: Cell = State::Requested(8);
    assert_eq!(slot.check_respond(), None);
    slot.put_response('z');
    assert!(holds(&slot, "replied z"));
}

#[test]
fn put_response_is_misuse_without_a_request() {
    let slot: Cell = State::Empty;
    assert_eq!(slot.check_respond(), Some(Misuse::NothingRequested));
    let slot: Cell = State::Replied('a');
    assert_eq!(slot.check_respond(), Some(Misuse::AlreadyReplied));
}

#[test]
fn one_exchange_step_by_step() {
    let mut slot: Cell = State::Empty;
    assert_eq!(slot.submit(42), Ok(()));
    assert!(matches!(slot.collect(), Poll::Pending));
    assert_eq!(slot.take_request(), Some(42));
    assert!(matches!(slot.collect(), Poll::Pending));
    slot.put_response('k');
    assert_eq!(slot.submit(43), Err(Error::Busy));
    assert!(matches!(slot.collect(), Poll::Ready(Ok('k'))));
    assert!(holds(&slot, "empty"));
    assert_eq!(slot.submit(43), Ok(()));
}

#[test]
fn settle_ends_a_wait_at_the_limit() {
    let pending: Poll<char> = Poll::Pending;
    assert!(matches!(pending.settle(Some(10), 9), Poll::Pending));
    let pending: Poll<char> = Poll::Pending;
    assert!(matches!(pending.settle(Some(10), 10), Poll::Ready(Err(Error::Timeout))));
    let pending: Poll<char> = Poll::Pending;
    assert!(matches!(pending.settle(Some(10), 11), Poll::Ready(Err(Error::Timeout))));
    let pending: Poll<char> = Poll::Pending;
    assert!(matches!(pending.settle(Some(0), 0), Poll::Ready(Err(Error::Timeout))));
}

#[test]
fn settle_without_a_limit_keeps_waiting() {
    let pending: Poll<char> = Poll::Pending;
    assert!(matches!(pending.settle(None, u128::MAX), Poll::Pending));
}

#[test]
fn settle_keeps_an_outcome_that_is_ready() {
    let ready: Poll<char> = Poll::Ready(Ok('q'));
    assert!(matches!(ready.settle(Some(10), 99), Poll::Ready(Ok('q'))));
    let failed: Poll<char> = Poll::Ready(Err(Error::WrongState));
    assert!(matches!(failed.settle(Some(10), 99), Poll::Ready(Err(Error::WrongState))));
    let dead: Poll<char> = Poll::Ready(Err(Error::ThreadDead));
    assert!(matches!(dead.settle(None, 0), Poll::Ready(Err(Error::ThreadDead))));
}

fn slot_with(state: Cell) -> Slot<u8, char> {
    let mut slot = Slot::new();
    slot.state = state;
    slot
}

#[test]
fn new_slot_is_empty_and_has_not_failed() {
    let slot: Slot<u8, char> = Slot::new();
    assert!(holds(&slot.state, "empty"));
    assert_eq!(slot.failed, false);
}

#[test]
fn slot_steps_of_one_exchange() {
    let mut slot: Slot<u8, char> = Slot::new();
    assert_eq!(slot.get_request(), Ok(None));
    assert_eq!(slot.submit(6), Ok(()));
    assert_eq!(slot.submit(7), Err(Error::Busy));
    assert!(matches!(slot.poll(), Poll::Pending));
    assert_eq!(slot.get_request(), Ok(Some(6)));
    assert!(holds(&slot.state, "in flight"));
    assert!(matches!(slot.poll(), Poll::Pending));
    assert_eq!(slot.set_response('s'), Ok(()));
    assert_eq!(slot.get_request(), Ok(None));
    assert!(matches!(slot.poll(), Poll::Ready(Ok('s'))));
    assert!(holds(&slot.state, "empty"));
    assert_eq!(slot.failed, false);
    assert!(matches!(slot.poll(), Poll::Ready(Err(Error::WrongState))));
    assert_eq!(slot.failed, false);
}

#[test]
fn slot_fails_on_a_second_take() {
    let mut slot = slot_with(State::InFlight);
    assert_eq!(slot.get_request(), Err(Misuse::RequestInFlight));
    assert_eq!(slot.failed, true);
    assert!(holds(&slot.state, "in flight"));
}

#[test]
fn slot_fails_on_a_response_to_nothing() {
    let mut slot = slot_with(State::Empty);
    assert_eq!(slot.set_response('n'), Err(Misuse::NothingRequested));
    assert_eq!(slot.failed, true);
    assert!(holds(&slot.state, "empty"));
}

#[test]
fn slot_fails_on_a_second_response() {
    let mut slot = slot_with(State::Replied('a'));
    assert_eq!(slot.set_response('b'), Err(Misuse::AlreadyReplied));
    assert_eq!(slot.failed, true);
    assert!(holds(&slot.state, "replied a"));
}

#[test]
fn failed_slot_turns_every_step_away() {
    let mut slot = slot_with(State::Requested(3));
    slot.failed = true;
    assert_eq!(slot.submit(4), Err(Error::ThreadDead));
    assert!(matches!(slot.poll(), Poll::Ready(Err(Error::ThreadDead))));
    assert_eq!(slot.get_request(), Ok(None));
    assert_eq!(slot.set_response('x'), Ok(()));
    assert!(holds(&slot.state, "requested 3"));
    assert_eq!(slot.failed, true);

    let mut slot = slot_with(State::Empty);
    slot.failed = true;
    assert_eq!(slot.submit(4), Err(Error::ThreadDead));
    assert!(matches!(slot.poll(), Poll::Ready(Err(Error::ThreadDead))));
    assert!(holds(&slot.state, "empty"));
}
