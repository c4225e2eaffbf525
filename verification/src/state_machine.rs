//! The application state machine.
//!
//! Exactly one machine instance reacts to classified input events.  It
//! starts in `Startup`, moves to `Idle` only on the readiness event, runs
//! any classified press as `Processing`, and treats `Error` as terminal:
//! nothing transitions out of `Error`, and dispatching a further
//! non-error event while in `Error` is a fatal fault that the caller must
//! never reach (fail-fast by design).  Every pair of state and event
//! without an explicit table row leaves the state unchanged.
//!
//! Each scheduling tick the machine polls the button topic of the event
//! bus without waiting; with no pending message it synthesizes the
//! `Nothing` event.  The readiness event is dispatched separately, once
//! the readiness barrier's single message has been observed.

use vstd::prelude::*;

use crate::bus::BroadcastChannel;
use crate::bus::ChannelError;
use crate::button::ButtonMessage;
use crate::button::PressType;

verus! {

/// The states of the application state machine.
#[derive(Debug, Clone, Copy, PartialEq, Eq, Structural)]
pub enum State {
    /// Initial state, before the system reports ready.
    Startup,
    /// The device waits for input.
    Idle,
    /// The device works on a classified input event.
    Processing,
    /// Terminal failure state; no transition leaves it.
    Error,
}

/// The events the state machine reacts to.
#[derive(Debug, Clone, Copy, PartialEq, Eq, Structural)]
pub enum Event {
    /// Initial power-on, dispatched once at task start.
    PowerOn,
    /// All subsystems reported ready.
    Ready,
    /// No event occurred during this tick.
    Nothing,
    /// A placeholder event for input not otherwise classified.
    SomethingElse,
    /// A short-release press was observed on the button topic.
    ButtonPressShortRelease,
    /// A long-release press was observed on the button topic.
    ButtonPressLongRelease,
    /// A long-hold press was observed on the button topic.
    ButtonPressLongHold,
    /// An unrecoverable fault occurred somewhere in the system.
    Error,
}

/// The transition table.  `Error` rows are absorbing; pairs without a row
/// keep the state.  The value for a non-error event dispatched in the
/// `Error` state is never used: that dispatch is a fatal fault.
pub open spec fn spec_transition(state: State, event: Event) -> State {
    match (state, event) {
        (State::Startup, Event::PowerOn) => State::Startup,
        (State::Startup, Event::Ready) => State::Idle,
        (State::Idle, Event::ButtonPressShortRelease) => State::Processing,
        (State::Idle, Event::ButtonPressLongRelease) => State::Processing,
        (State::Idle, Event::ButtonPressLongHold) => State::Processing,
        (State::Idle, Event::SomethingElse) => State::Processing,
        (State::Processing, Event::Nothing) => State::Idle,
        (_, Event::Error) => State::Error,
        (_, _) => state,
    }
}

/// Whether the transition table has an explicit row for this pair.
pub open spec fn spec_matched(state: State, event: Event) -> bool {
    ||| (state == State::Startup && (event == Event::PowerOn || event == Event::Ready))
    ||| (state == State::Idle && (event == Event::ButtonPressShortRelease || event
        == Event::ButtonPressLongRelease || event == Event::ButtonPressLongHold || event
        == Event::SomethingElse))
    ||| (state == State::Processing && event == Event::Nothing)
    ||| event == Event::Error
    ||| state == State::Error
}

/// The state after dispatching a whole sequence of events in order.
pub open spec fn spec_run(state: State, events: Seq<Event>) -> State
    decreases events.len(),
{
    if events.len() == 0 {
        state
    } else {
        spec_run(spec_transition(state, events.first()), events.drop_first())
    }
}

/// A pair of state and event without an explicit table row leaves the
/// state unchanged: unmatched dispatch is a harmless no-op.
pub proof fn lemma_unmatched_pairs_keep_state(state: State, event: Event)
    requires
        !spec_matched(state, event),
    ensures
        spec_transition(state, event) == state,
{
}

/// A single step out of `Startup` reaches `Idle` only on the readiness
/// event.
pub proof fn lemma_startup_gated_on_ready(event: Event)
    requires
        event != Event::Ready,
    ensures
        spec_transition(State::Startup, event) != State::Idle,
{
}

/// `Error` is terminal: no sequence of events leads anywhere else.
pub proof fn lemma_error_is_terminal(events: Seq<Event>)
    ensures
        spec_run(State::Error, events) == State::Error,
    decreases events.len(),
{
    if events.len() > 0 {
        lemma_error_is_terminal(events.drop_first());
    }
}

/// The machine never reaches `Idle` from `Startup` before the readiness
/// event is observed: any queue of events without `Ready` — button
/// presses included, however early they were queued — leaves it in
/// `Startup`, or in `Error` on a fault, never in `Idle`.
pub proof fn lemma_no_idle_before_ready(events: Seq<Event>)
    requires
        forall|i: int| 0 <= i < events.len() ==> #[trigger] events[i] != Event::Ready,
    ensures
        spec_run(State::Startup, events) != State::Idle,
    decreases events.len(),
{
    if events.len() > 0 {
        assert(events[0] != Event::Ready);
        let next = spec_transition(State::Startup, events.first());
        if next == State::Error {
            lemma_error_is_terminal(events.drop_first());
        } else {
            assert(next == State::Startup);
            assert forall|i: int| 0 <= i < events.drop_first().len() implies #[trigger] events
                .drop_first()[i] != Event::Ready by {
                assert(events[i + 1] != Event::Ready);
            }
            lemma_no_idle_before_ready(events.drop_first());
        }
    }
}

/// The event a poll of the button topic produces from a subscriber's
/// unread window: the oldest pending press, classified, or `Nothing`
/// where the window is empty.
pub open spec fn spec_event_of(pending: Seq<ButtonMessage>) -> Event {
    if pending.len() == 0 {
        Event::Nothing
    } else {
        spec_button_event(pending.first().press_type)
    }
}

/// The machine event corresponding to a classified press.
pub open spec fn spec_button_event(press_type: PressType) -> Event {
    match press_type {
        PressType::ShortRelease => Event::ButtonPressShortRelease,
        PressType::LongRelease => Event::ButtonPressLongRelease,
        PressType::LongHold => Event::ButtonPressLongHold,
    }
}

/// Polling the button topic can never produce the readiness event or the
/// error event: both reach the machine on their own paths.
pub proof fn lemma_poll_is_not_ready(pending: Seq<ButtonMessage>)
    ensures
        spec_event_of(pending) != Event::Ready,
        spec_event_of(pending) != Event::Error,
{
}

/// The application state machine: its current state, the event it was
/// constructed with, and its subscription on the button topic.
pub struct StateMachine {
    current_state: State,
    latest_event: Event,
    button_subscription: usize,
}

impl StateMachine {
    /// The machine's current state.
    pub closed spec fn spec_state(&self) -> State {
        self.current_state
    }

    /// The event recorded at construction.
    pub closed spec fn spec_latest_event(&self) -> Event {
        self.latest_event
    }

    /// The machine's subscriber handle on the button topic.
    pub closed spec fn spec_subscription(&self) -> int {
        self.button_subscription as int
    }

    /// Construct the machine and subscribe it to the button topic.
    /// Fails exactly when the channel has no subscriber slot left.
    pub fn new(
        current_state: State,
        latest_event: Event,
        channel: &mut BroadcastChannel<ButtonMessage>,
    ) -> (r: Result<StateMachine, ChannelError>)
        requires
            old(channel).well_formed(),
        ensures
            final(channel).well_formed(),
            final(channel).spec_capacity() == old(channel).spec_capacity(),
            final(channel).spec_max_subscribers() == old(channel).spec_max_subscribers(),
            final(channel).spec_max_publishers() == old(channel).spec_max_publishers(),
            final(channel).spec_publishers() == old(channel).spec_publishers(),
            final(channel).messages() == old(channel).messages(),
            r is Ok <==> old(channel).spec_subscribers() < old(channel).spec_max_subscribers(),
            r matches Ok(machine) ==> {
                &&& machine.spec_state() == current_state
                &&& machine.spec_latest_event() == latest_event
                &&& machine.spec_subscription() == old(channel).spec_subscribers()
                &&& final(channel).spec_subscribers() == old(channel).spec_subscribers() + 1
                &&& final(channel).pending(machine.spec_subscription()) == Seq::<
                    ButtonMessage,
                >::empty()
            },
            r is Err ==> r == Result::<StateMachine, ChannelError>::Err(
                ChannelError::SubscriptionLimitExceeded,
            ) && *final(channel) == *old(channel),
    {
        match channel.subscribe() {
            Ok(button_subscription) => Ok(
                StateMachine { current_state, latest_event, button_subscription },
            ),
            Err(e) => Err(e),
        }
    }

    /// The machine's current state.
    pub fn current_state(&self) -> (state: State)
        ensures
            state == self.spec_state(),
    {
        self.current_state
    }

    /// The event recorded at construction.
    pub fn latest_event(&self) -> (event: Event)
        ensures
            event == self.spec_latest_event(),
    {
        self.latest_event
    }

    /// The machine's subscriber handle on the button topic.
    pub fn subscription(&self) -> (subscription: usize)
        ensures
            subscription == self.spec_subscription(),
    {
        self.button_subscription
    }

    /// Dispatch one event through the transition table.
    ///
    /// Dispatching a non-error event while already in `Error` is the one
    /// fatal fault of the design and is excluded here: a caller that can
    /// reach `Error` must stop dispatching, as the original process
    /// aborts at that point.
    pub fn handle_event(&mut self, event: Event)
        requires
            !(old(self).spec_state() == State::Error && event != Event::Error),
        ensures
            final(self).spec_state() == spec_transition(old(self).spec_state(), event),
            final(self).spec_latest_event() == old(self).spec_latest_event(),
            final(self).spec_subscription() == old(self).spec_subscription(),
    {
        match (self.current_state, event) {
            (State::Startup, Event::PowerOn) => {},
            (State::Startup, Event::Ready) => {
                self.current_state = State::Idle;
            },
            (State::Idle, Event::ButtonPressShortRelease) => {
                self.current_state = State::Processing;
            },
            (State::Idle, Event::ButtonPressLongRelease) => {
                self.current_state = State::Processing;
            },
            (State::Idle, Event::ButtonPressLongHold) => {
                self.current_state = State::Processing;
            },
            (State::Idle, Event::SomethingElse) => {
                self.current_state = State::Processing;
            },
            (State::Processing, Event::Nothing) => {
                self.current_state = State::Idle;
            },
            (_, Event::Error) => {
                self.current_state = State::Error;
            },
            (State::Error, _) => {
                proof {
                    assert(false);
                }
            },
            (_, _) => {},
        }
    }

    /// Poll the button topic once, without waiting, for this machine's
    /// subscription: the oldest pending press becomes its event, and an
    /// empty window synthesizes `Nothing`.
    pub fn get_current_event(&self, channel: &mut BroadcastChannel<ButtonMessage>) -> (event:
        Event)
        requires
            old(channel).well_formed(),
            self.spec_subscription() < old(channel).spec_subscribers(),
        ensures
            final(channel).well_formed(),
            final(channel).spec_capacity() == old(channel).spec_capacity(),
            final(channel).spec_max_subscribers() == old(channel).spec_max_subscribers(),
            final(channel).spec_max_publishers() == old(channel).spec_max_publishers(),
            final(channel).spec_subscribers() == old(channel).spec_subscribers(),
            final(channel).spec_publishers() == old(channel).spec_publishers(),
            final(channel).messages() == old(channel).messages(),
            event == spec_event_of(old(channel).pending(self.spec_subscription())),
            old(channel).pending(self.spec_subscription()).len() == 0 ==> *final(channel)
                == *old(channel),
            old(channel).pending(self.spec_subscription()).len() > 0 ==> {
                &&& final(channel).pending(self.spec_subscription()) == old(channel).pending(
                    self.spec_subscription(),
                ).drop_first()
                &&& forall|i: int|
                    0 <= i < old(channel).spec_subscribers() && i != self.spec_subscription()
                        ==> #[trigger] final(channel).pending(i) == old(channel).pending(i)
            },
    {
        match channel.try_next_message(self.button_subscription) {
            None => Event::Nothing,
            Some(message) => match message.press_type {
                PressType::ShortRelease => Event::ButtonPressShortRelease,
                PressType::LongRelease => Event::ButtonPressLongRelease,
                PressType::LongHold => Event::ButtonPressLongHold,
            },
        }
    }

    /// Check for system error conditions; none are tracked yet.
    pub fn check_for_errors(&self) -> (error_detected: bool)
        ensures
            !error_detected,
    {
        false
    }

    /// One scheduling tick of the machine's main loop: poll the button
    /// topic and dispatch the resulting event.  The caller runs this on a
    /// fixed tick and must stop at `Error` — the poll itself can never
    /// produce the error or readiness event.  In particular, ticks alone
    /// never move the machine out of `Startup`, no matter what presses
    /// are queued: only the separately dispatched readiness event does.
    pub fn tick(&mut self, channel: &mut BroadcastChannel<ButtonMessage>)
        requires
            old(self).spec_state() != State::Error,
            old(channel).well_formed(),
            old(self).spec_subscription() < old(channel).spec_subscribers(),
        ensures
            final(self).spec_state() == spec_transition(
                old(self).spec_state(),
                spec_event_of(old(channel).pending(old(self).spec_subscription())),
            ),
            final(self).spec_latest_event() == old(self).spec_latest_event(),
            final(self).spec_subscription() == old(self).spec_subscription(),
            old(self).spec_state() == State::Startup ==> final(self).spec_state()
                == State::Startup,
            final(channel).well_formed(),
            final(channel).spec_capacity() == old(channel).spec_capacity(),
            final(channel).spec_max_subscribers() == old(channel).spec_max_subscribers(),
            final(channel).spec_max_publishers() == old(channel).spec_max_publishers(),
            final(channel).spec_subscribers() == old(channel).spec_subscribers(),
            final(channel).spec_publishers() == old(channel).spec_publishers(),
            final(channel).messages() == old(channel).messages(),
            old(channel).pending(old(self).spec_subscription()).len() == 0 ==> *final(channel)
                == *old(channel),
            old(channel).pending(old(self).spec_subscription()).len() > 0 ==> final(channel)
                .pending(old(self).spec_subscription()) == old(channel).pending(
                old(self).spec_subscription(),
            ).drop_first(),
    {
        let event = self.get_current_event(channel);
        self.handle_event(event);
    }
}

} // verus!
