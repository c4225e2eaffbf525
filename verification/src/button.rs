//! Press classification for debounced buttons.
//!
//! One physical press-release (or press-and-hold) cycle is classified
//! into exactly one [`PressType`].  After the confirmed falling edge at
//! `press_start`, the monitor races two suspensions: the debounced rising
//! edge against a one-shot timer firing at `press_start + hold threshold`.
//! Whichever finishes first is the [`PressOutcome`]; the losing branch is
//! cancelled with no side effect.  A release before the hold timer is
//! classified by its duration — strictly below the release threshold is a
//! short release, at or above it a long release — while a hold that
//! outlives the timer is classified long hold at once, with the press end
//! pinned to `press_start + hold threshold`, without waiting for the
//! physical release.
//!
//! [`UserButton`] owns the registered button identifiers (unique within
//! the set), the two thresholds, and a publisher handle on the button
//! topic of the event bus.  The edge waits themselves live outside the
//! crate; they hand timestamps in as plain values.

use vstd::prelude::*;

use crate::bus::BroadcastChannel;
use crate::bus::ChannelError;

verus! {

/// How one press-release (or press-and-hold) cycle ended.
#[derive(Debug, Clone, Copy, PartialEq, Eq, Structural)]
pub enum PressType {
    /// Released before the long-press release threshold.
    ShortRelease,
    /// Released at or after the long-press release threshold.
    LongRelease,
    /// Held past the long-hold threshold; classified before the release.
    LongHold,
}

/// A classified press event, broadcast on the button topic of the bus.
#[derive(Debug, Clone, Copy, PartialEq, Eq, Structural)]
pub struct ButtonMessage {
    /// The identifier of the button that was pressed.
    pub id: u8,
    /// When the press began (confirmed falling edge), in milliseconds.
    pub timestamp_start: u64,
    /// When the press ended or was cut off by the hold timer, in
    /// milliseconds.
    pub timestamp_end: u64,
    /// How the cycle was classified.
    pub press_type: PressType,
}

impl ButtonMessage {
    /// A press can only end at or after it began.
    pub open spec fn well_formed(&self) -> bool {
        self.timestamp_start <= self.timestamp_end
    }
}

/// Which branch of the release-against-timer race finished first.
#[derive(Debug, Clone, Copy, PartialEq, Eq, Structural)]
pub enum PressOutcome {
    /// The debounced rising edge was confirmed at this time, before the
    /// hold timer fired.
    Released(u64),
    /// The one-shot hold timer fired before any confirmed rising edge.
    HeldPastThreshold,
}

/// The class of a release by its duration: strictly below the threshold
/// is a short release; at or above it — boundary included — a long one.
pub open spec fn spec_classify_release(press_start: u64, press_end: u64, release_threshold: u64) -> PressType {
    if press_end - press_start < release_threshold {
        PressType::ShortRelease
    } else {
        PressType::LongRelease
    }
}

/// The one message a finished cycle produces: a released press carries
/// its real end and is classified by duration; a held press is cut off
/// and stamped exactly one hold threshold after its start.
pub open spec fn spec_press_message(
    id: u8,
    press_start: u64,
    outcome: PressOutcome,
    release_threshold: u64,
    hold_threshold: u64,
) -> ButtonMessage {
    match outcome {
        PressOutcome::Released(press_end) => ButtonMessage {
            id,
            timestamp_start: press_start,
            timestamp_end: press_end,
            press_type: spec_classify_release(press_start, press_end, release_threshold),
        },
        PressOutcome::HeldPastThreshold => ButtonMessage {
            id,
            timestamp_start: press_start,
            timestamp_end: (press_start + hold_threshold) as u64,
            press_type: PressType::LongHold,
        },
    }
}

/// Classify one finished press cycle into its single press event.
pub fn classify_press(
    id: u8,
    press_start: u64,
    outcome: PressOutcome,
    release_threshold: u64,
    hold_threshold: u64,
) -> (message: ButtonMessage)
    requires
        outcome matches PressOutcome::Released(press_end) ==> press_start <= press_end,
        press_start + hold_threshold <= u64::MAX,
    ensures
        message == spec_press_message(id, press_start, outcome, release_threshold, hold_threshold),
        message.well_formed(),
{
    match outcome {
        PressOutcome::Released(press_end) => {
            let duration = press_end - press_start;
            let press_type = if duration < release_threshold {
                PressType::ShortRelease
            } else {
                PressType::LongRelease
            };
            ButtonMessage { id, timestamp_start: press_start, timestamp_end: press_end, press_type }
        },
        PressOutcome::HeldPastThreshold => ButtonMessage {
            id,
            timestamp_start: press_start,
            timestamp_end: press_start + hold_threshold,
            press_type: PressType::LongHold,
        },
    }
}

/// The winner of the race between the debounced rising edge and the
/// one-shot hold timer firing at `press_start + hold_threshold`: the
/// release wins exactly when it is confirmed at or before the timer
/// fires (at a dead heat the release branch is polled first); with no
/// confirmed release, or one past the deadline, the timer wins.
pub open spec fn spec_race_outcome(
    press_start: u64,
    release_confirmed_at: Option<u64>,
    hold_threshold: u64,
) -> PressOutcome {
    match release_confirmed_at {
        Some(release_time) => if release_time <= press_start + hold_threshold {
            PressOutcome::Released(release_time)
        } else {
            PressOutcome::HeldPastThreshold
        },
        None => PressOutcome::HeldPastThreshold,
    }
}

/// Decide the race between a debounced release confirmation and the
/// one-shot hold timer.  The losing branch is simply dropped: deciding
/// has no side effect on either.
pub fn race_outcome(
    press_start: u64,
    release_confirmed_at: Option<u64>,
    hold_threshold: u64,
) -> (outcome: PressOutcome)
    requires
        press_start + hold_threshold <= u64::MAX,
    ensures
        outcome == spec_race_outcome(press_start, release_confirmed_at, hold_threshold),
{
    match release_confirmed_at {
        Some(release_time) => {
            if release_time <= press_start + hold_threshold {
                PressOutcome::Released(release_time)
            } else {
                PressOutcome::HeldPastThreshold
            }
        },
        None => PressOutcome::HeldPastThreshold,
    }
}

/// Error for a reference to a button identifier outside the registered
/// set.  It aborts only the monitor of that identifier; other buttons
/// continue unaffected.
#[derive(Debug, Clone, Copy, PartialEq, Eq, Structural)]
pub enum ConfigurationError {
    /// The identifier is not among the registered buttons.
    UnknownButtonId,
}

/// The registered buttons: their identifiers (unique, fixed at
/// construction), the two classification thresholds, and a publisher
/// handle on the button topic of the event bus.
pub struct UserButton {
    item_ids: Vec<u8>,
    long_press_release_threshold_ms: u64,
    long_hold_threshold_ms: u64,
    publisher_handle: usize,
}

impl UserButton {
    /// The registered button identifiers, in registration order.
    pub closed spec fn spec_ids(&self) -> Seq<u8> {
        self.item_ids@
    }

    /// The duration at or above which a release counts as long.
    pub closed spec fn spec_release_threshold(&self) -> u64 {
        self.long_press_release_threshold_ms
    }

    /// The duration after which a press still held is classified at once.
    pub closed spec fn spec_hold_threshold(&self) -> u64 {
        self.long_hold_threshold_ms
    }

    /// The publisher handle this button set publishes with.
    pub closed spec fn spec_publisher(&self) -> int {
        self.publisher_handle as int
    }

    /// Registered identifiers are unique within the set.
    pub open spec fn well_formed(&self) -> bool {
        forall|i: int, j: int|
            0 <= i < j < self.spec_ids().len() ==> #[trigger] self.spec_ids()[i]
                != #[trigger] self.spec_ids()[j]
    }

    /// Register a button set and acquire its publisher handle on the
    /// button topic.  Fails exactly when the channel has no publisher
    /// handle left; nothing is registered on failure.
    pub fn new(
        item_ids: Vec<u8>,
        long_press_release_threshold_ms: u64,
        long_hold_threshold_ms: u64,
        channel: &mut BroadcastChannel<ButtonMessage>,
    ) -> (r: Result<UserButton, ChannelError>)
        requires
            old(channel).well_formed(),
            forall|i: int, j: int|
                0 <= i < j < item_ids@.len() ==> #[trigger] item_ids@[i] != #[trigger] item_ids@[j],
        ensures
            final(channel).well_formed(),
            final(channel).spec_capacity() == old(channel).spec_capacity(),
            final(channel).spec_max_subscribers() == old(channel).spec_max_subscribers(),
            final(channel).spec_max_publishers() == old(channel).spec_max_publishers(),
            final(channel).spec_subscribers() == old(channel).spec_subscribers(),
            final(channel).messages() == old(channel).messages(),
            r is Ok <==> old(channel).spec_publishers() < old(channel).spec_max_publishers(),
            r matches Ok(button) ==> {
                &&& button.well_formed()
                &&& button.spec_ids() == item_ids@
                &&& button.spec_release_threshold() == long_press_release_threshold_ms
                &&& button.spec_hold_threshold() == long_hold_threshold_ms
                &&& button.spec_publisher() == old(channel).spec_publishers()
                &&& final(channel).spec_publishers() == old(channel).spec_publishers() + 1
            },
            r is Err ==> r == Result::<UserButton, ChannelError>::Err(
                ChannelError::PublisherLimitExceeded,
            ) && *final(channel) == *old(channel),
    {
        match channel.publisher() {
            Ok(publisher_handle) => Ok(
                UserButton {
                    item_ids,
                    long_press_release_threshold_ms,
                    long_hold_threshold_ms,
                    publisher_handle,
                },
            ),
            Err(e) => Err(e),
        }
    }

    /// A copy of all registered identifiers.
    pub fn get_ids(&self) -> (ids: Vec<u8>)
        ensures
            ids@ == self.spec_ids(),
    {
        let mut ids: Vec<u8> = Vec::new();
        let mut i: usize = 0;
        while i < self.item_ids.len()
            invariant
                i <= self.item_ids@.len(),
                ids@ == self.item_ids@.take(i as int),
            decreases self.item_ids@.len() - i,
        {
            ids.push(self.item_ids[i]);
            proof {
                assert(ids@ =~= self.item_ids@.take(i + 1));
            }
            i = i + 1;
        }
        proof {
            assert(ids@ =~= self.item_ids@);
        }
        ids
    }

    /// Whether `id` is one of the registered identifiers.
    pub fn contains_id(&self, id: u8) -> (found: bool)
        ensures
            found == self.spec_ids().contains(id),
    {
        let mut i: usize = 0;
        while i < self.item_ids.len()
            invariant
                i <= self.item_ids@.len(),
                forall|j: int| 0 <= j < i ==> #[trigger] self.item_ids@[j] != id,
            decreases self.item_ids@.len() - i,
        {
            if self.item_ids[i] == id {
                return true;
            }
            i = i + 1;
        }
        false
    }

    /// Whether every identifier in `ids` is registered; an empty query is
    /// vacuously valid.
    pub fn check_ids(&self, ids: &Vec<u8>) -> (ok: bool)
        ensures
            ok == (forall|j: int|
                0 <= j < ids@.len() ==> self.spec_ids().contains(#[trigger] ids@[j])),
    {
        if ids.len() == 0 {
            return true;
        }
        let mut i: usize = 0;
        while i < ids.len()
            invariant
                i <= ids@.len(),
                forall|j: int| 0 <= j < i ==> self.spec_ids().contains(#[trigger] ids@[j]),
            decreases ids@.len() - i,
        {
            if !self.contains_id(ids[i]) {
                return false;
            }
            i = i + 1;
        }
        true
    }

    /// Classify one finished press cycle of button `id` with this set's
    /// thresholds.  A cycle referencing an unregistered identifier is
    /// rejected with [`ConfigurationError::UnknownButtonId`] — the caller
    /// aborts that monitor and leaves other buttons unaffected.
    pub fn press_message(&self, id: u8, press_start: u64, outcome: PressOutcome) -> (r: Result<
        ButtonMessage,
        ConfigurationError,
    >)
        requires
            outcome matches PressOutcome::Released(press_end) ==> press_start <= press_end,
            press_start + self.spec_hold_threshold() <= u64::MAX,
        ensures
            r is Ok <==> self.spec_ids().contains(id),
            r matches Ok(message) ==> message == spec_press_message(
                id,
                press_start,
                outcome,
                self.spec_release_threshold(),
                self.spec_hold_threshold(),
            ) && message.well_formed(),
            r is Err ==> r == Result::<ButtonMessage, ConfigurationError>::Err(
                ConfigurationError::UnknownButtonId,
            ),
    {
        if !self.contains_id(id) {
            return Err(ConfigurationError::UnknownButtonId);
        }
        Ok(
            classify_press(
                id,
                press_start,
                outcome,
                self.long_press_release_threshold_ms,
                self.long_hold_threshold_ms,
            ),
        )
    }

    /// Publish a classified press on the button topic with this set's
    /// publisher handle, under back-pressure: the message is published
    /// exactly when every subscriber still has room, so none misses it;
    /// otherwise nothing changes and the caller retries after subscribers
    /// have drained.
    pub fn publish_press(
        &self,
        channel: &mut BroadcastChannel<ButtonMessage>,
        message: ButtonMessage,
    ) -> (published: bool)
        requires
            old(channel).well_formed(),
            self.spec_publisher() < old(channel).spec_publishers(),
        ensures
            final(channel).well_formed(),
            final(channel).spec_capacity() == old(channel).spec_capacity(),
            final(channel).spec_max_subscribers() == old(channel).spec_max_subscribers(),
            final(channel).spec_max_publishers() == old(channel).spec_max_publishers(),
            final(channel).spec_subscribers() == old(channel).spec_subscribers(),
            final(channel).spec_publishers() == old(channel).spec_publishers(),
            published <==> forall|i: int|
                0 <= i < old(channel).spec_subscribers() ==> #[trigger] old(channel).pending(
                    i,
                ).len() < old(channel).spec_capacity(),
            published ==> final(channel).messages() == old(channel).messages().push(message),
            published ==> forall|i: int|
                0 <= i < old(channel).spec_subscribers() ==> #[trigger] final(channel).pending(i)
                    == old(channel).pending(i).push(message),
            !published ==> *final(channel) == *old(channel),
    {
        channel.try_publish(self.publisher_handle, message)
    }
}

} // verus!
