//! The order of work of a receiver that answers one request from a queue
//! through a callback.
//!
//! Taking a request off the queue, running the callback and putting the
//! reply on the queue each wait on something outside. The receiver's caller
//! does the waiting; what is decided here is what comes next, and with what
//! the handling ends.

use vstd::prelude::*;

verus! {

/// Where the handling of one request stands.
#[derive(Clone, Copy, Debug, PartialEq, Eq, Structural)]
pub enum HandleState {
    /// Nothing is done yet.
    Idle,
    /// A request is being taken off the queue.
    Receiving,
    /// The callback runs on the request with the identifier `id`.
    Calling { id: u32 },
    /// The reply is being put on the queue.
    Completing,
    /// The handling has ended.
    Finished,
}

/// What happened outside since the last step. `S` is the type of a request
/// and `E` that of the queue's errors.
pub enum Event<S, C, E> {
    /// The handling was asked for.
    Start,
    /// The queue gave the request `item` under the identifier `id`.
    Received { id: u32, item: S },
    /// The queue gave no request, but the error `error`.
    ReceiveFailed { error: E },
    /// The callback returned `reply`.
    Called { reply: C },
    /// The queue took the reply.
    Completed,
    /// The queue did not take the reply, but gave the error `error`.
    CompleteFailed { error: E },
}

/// What is to be done outside next. `S` is the type of a request, `C` that
/// of a reply and `E` that of the queue's errors.
pub enum Action<S, C, E> {
    /// Take a request off the queue, without blocking in the queue itself.
    Receive,
    /// Run the callback on the request `item` with the identifier `id`.
    Call { id: u32, item: S },
    /// Put `reply` on the queue as the answer to the request `id`, without
    /// blocking in the queue itself.
    Complete { id: u32, reply: C },
    /// End the handling with `result`.
    Finish { result: Result<(), E> },
}

/// Whether `event` is one that can happen in `state`. The handling of a
/// request can be asked for at the outset and whenever the last one has
/// ended.
pub open spec fn is_expected<S, C, E>(state: HandleState, event: Event<S, C, E>) -> bool {
    match (state, event) {
        (HandleState::Idle, Event::Start) => true,
        (HandleState::Finished, Event::Start) => true,
        (HandleState::Receiving, Event::Received { .. }) => true,
        (HandleState::Receiving, Event::ReceiveFailed { .. }) => true,
        (HandleState::Calling { .. }, Event::Called { .. }) => true,
        (HandleState::Completing, Event::Completed) => true,
        (HandleState::Completing, Event::CompleteFailed { .. }) => true,
        _ => false,
    }
}

/// The state that follows `state` on `event`. A request that was received
/// goes to the callback, under its identifier; the callback's reply goes to
/// the queue; an error of the queue ends the handling at once.
pub open spec fn next_state<S, C, E>(state: HandleState, event: Event<S, C, E>) -> HandleState {
    match event {
        Event::Start => HandleState::Receiving,
        Event::Received { id, item } => HandleState::Calling { id },
        Event::ReceiveFailed { error } => HandleState::Finished,
        Event::Called { reply } => HandleState::Completing,
        Event::Completed => HandleState::Finished,
        Event::CompleteFailed { error } => HandleState::Finished,
    }
}

/// What is to be done in `state` on `event`. The reply is put on the queue
/// under the identifier of the request that it answers. The handling ends
/// well once the queue took the reply, and with the queue's error where
/// either the request or the reply failed.
pub open spec fn next_action<S, C, E>(state: HandleState, event: Event<S, C, E>) -> Action<
    S,
    C,
    E,
> {
    match event {
        Event::Start => Action::Receive,
        Event::Received { id, item } => Action::Call { id, item },
        Event::ReceiveFailed { error } => Action::Finish { result: Err(error) },
        Event::Called { reply } => Action::Complete { id: state->id, reply },
        Event::Completed => Action::Finish { result: Ok(()) },
        Event::CompleteFailed { error } => Action::Finish { result: Err(error) },
    }
}

/// A receiver that answers the requests of a queue through a callback, one
/// at a time. Its view is where the handling of the current request stands.
pub struct CallbackQueueReceiver {
    state: HandleState,
}

impl View for CallbackQueueReceiver {
    type V = HandleState;

    closed spec fn view(&self) -> HandleState {
        self.state
    }
}

impl CallbackQueueReceiver {
    /// A receiver that has done nothing yet.
    pub fn new() -> (receiver: CallbackQueueReceiver)
        ensures
            receiver@ == HandleState::Idle,
    {
        CallbackQueueReceiver { state: HandleState::Idle }
    }

    /// Where the handling of the current request stands.
    pub fn state(&self) -> (state: HandleState)
        ensures
            state == self@,
    {
        self.state
    }

    /// One step of the handling: takes in what happened outside, moves on,
    /// and says what is to be done next. An event that cannot happen in the
    /// present state changes nothing and is answered by nothing.
    pub fn handle<S, C, E>(&mut self, event: Event<S, C, E>) -> (action: Option<Action<S, C, E>>)
        ensures
            is_expected(old(self)@, event) ==> final(self)@ == next_state(old(self)@, event)
                && action == Some(next_action(old(self)@, event)),
            !is_expected(old(self)@, event) ==> final(self)@ == old(self)@ && action is None,
    {
        match (self.state, event) {
            (HandleState::Idle, Event::Start) | (HandleState::Finished, Event::Start) => {
                self.state = HandleState::Receiving;
                Some(Action::Receive)
            },
            (HandleState::Receiving, Event::Received { id, item }) => {
                self.state = HandleState::Calling { id };
                Some(Action::Call { id, item })
            },
            (HandleState::Receiving, Event::ReceiveFailed { error }) => {
                self.state = HandleState::Finished;
                Some(Action::Finish { result: Err(error) })
            },
            (HandleState::Calling { id }, Event::Called { reply }) => {
                self.state = HandleState::Completing;
                Some(Action::Complete { id, reply })
            },
            (HandleState::Completing, Event::Completed) => {
                self.state = HandleState::Finished;
                Some(Action::Finish { result: Ok(()) })
            },
            (HandleState::Completing, Event::CompleteFailed { error }) => {
                self.state = HandleState::Finished;
                Some(Action::Finish { result: Err(error) })
            },
            _ => None,
        }
    }
}

} // verus!
