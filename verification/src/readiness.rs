//! One-shot subsystem-readiness barrier.
//!
//! Each subsystem that must report ready before steady-state operation
//! owns one [`ReadinessFlag`]: a single-writer, multi-reader latch that,
//! once set, stays set forever — every past and future check observes
//! "ready" immediately.
//!
//! The [`ReadinessBarrier`] aggregates the flags and, once all of them
//! are set, publishes a single zero-payload [`SystemReadyMessage`] on the
//! dedicated readiness topic of the event bus — at most once per process
//! lifetime.  Consumers that must wait block on the topic; consumers that
//! only want to know race the same subscription against their other work.

use vstd::prelude::*;

use crate::bus::BroadcastChannel;
use crate::bus::ChannelError;

verus! {

/// The zero-payload message broadcast once on the readiness topic.
#[derive(Debug, Clone, Copy, PartialEq, Eq, Structural)]
pub struct SystemReadyMessage;

/// A one-shot readiness latch: set at most once, never reset.
#[derive(Debug, Clone, Copy, PartialEq, Eq, Structural)]
pub struct ReadinessFlag {
    set: bool,
}

impl ReadinessFlag {
    /// Whether the latch has been set.
    pub closed spec fn spec_is_set(&self) -> bool {
        self.set
    }

    /// A fresh latch, not yet signalled.
    pub fn new() -> (flag: Self)
        ensures
            !flag.spec_is_set(),
    {
        ReadinessFlag { set: false }
    }

    /// Latch the flag.  Signalling again changes nothing: the flag never
    /// resets.
    pub fn signal(&mut self)
        ensures
            final(self).spec_is_set(),
    {
        self.set = true;
    }

    /// Whether the latch has been set.
    pub fn is_set(&self) -> (set: bool)
        ensures
            set == self.spec_is_set(),
    {
        self.set
    }
}

/// The startup gate: one readiness flag per tracked subsystem, and the
/// single announcement it owes the readiness topic.
pub struct ReadinessBarrier {
    flags: Vec<ReadinessFlag>,
    announced: bool,
    publisher_handle: usize,
}

impl ReadinessBarrier {
    /// How many subsystems the barrier tracks.
    pub closed spec fn spec_flag_count(&self) -> int {
        self.flags@.len() as int
    }

    /// Whether subsystem `i` has reported ready.
    pub closed spec fn spec_flag(&self, i: int) -> bool {
        self.flags@[i].spec_is_set()
    }

    /// Whether the single readiness announcement has been published.
    pub closed spec fn spec_announced(&self) -> bool {
        self.announced
    }

    /// The publisher handle the barrier announces with.
    pub closed spec fn spec_publisher(&self) -> int {
        self.publisher_handle as int
    }

    /// Whether every tracked subsystem has reported ready.
    pub open spec fn spec_all_ready(&self) -> bool {
        forall|i: int| 0 <= i < self.spec_flag_count() ==> #[trigger] self.spec_flag(i)
    }

    /// Construct a barrier tracking `subsystem_count` flags, all unset,
    /// and acquire its publisher handle on the readiness topic.  Fails
    /// exactly when the channel has no publisher handle left.
    pub fn new(subsystem_count: usize, channel: &mut BroadcastChannel<SystemReadyMessage>) -> (r:
        Result<ReadinessBarrier, ChannelError>)
        requires
            old(channel).well_formed(),
        ensures
            final(channel).well_formed(),
            final(channel).spec_capacity() == old(channel).spec_capacity(),
            final(channel).spec_max_subscribers() == old(channel).spec_max_subscribers(),
            final(channel).spec_max_publishers() == old(channel).spec_max_publishers(),
            final(channel).spec_subscribers() == old(channel).spec_subscribers(),
            final(channel).messages() == old(channel).messages(),
            r is Ok <==> old(channel).spec_publishers() < old(channel).spec_max_publishers(),
            r matches Ok(barrier) ==> {
                &&& barrier.spec_flag_count() == subsystem_count
                &&& forall|i: int| 0 <= i < subsystem_count ==> !(#[trigger] barrier.spec_flag(i))
                &&& !barrier.spec_announced()
                &&& barrier.spec_publisher() == old(channel).spec_publishers()
                &&& final(channel).spec_publishers() == old(channel).spec_publishers() + 1
            },
            r is Err ==> r == Result::<ReadinessBarrier, ChannelError>::Err(
                ChannelError::PublisherLimitExceeded,
            ) && *final(channel) == *old(channel),
    {
        let publisher_handle = match channel.publisher() {
            Ok(handle) => handle,
            Err(e) => {
                return Err(e);
            },
        };
        let mut flags: Vec<ReadinessFlag> = Vec::new();
        let mut i: usize = 0;
        while i < subsystem_count
            invariant
                i <= subsystem_count,
                flags@.len() == i,
                forall|j: int| 0 <= j < i ==> !(#[trigger] flags@[j].spec_is_set()),
            decreases subsystem_count - i,
        {
            flags.push(ReadinessFlag::new());
            i = i + 1;
        }
        Ok(ReadinessBarrier { flags, announced: false, publisher_handle })
    }

    /// Record that subsystem `subsystem` is ready.  The flag latches:
    /// flags already set stay set, and no flag ever resets.
    pub fn signal_ready(&mut self, subsystem: usize)
        requires
            subsystem < old(self).spec_flag_count(),
        ensures
            final(self).spec_flag_count() == old(self).spec_flag_count(),
            final(self).spec_flag(subsystem as int),
            forall|i: int|
                0 <= i < old(self).spec_flag_count() && i != subsystem
                    ==> #[trigger] final(self).spec_flag(i) == old(self).spec_flag(i),
            forall|i: int|
                0 <= i < old(self).spec_flag_count() && old(self).spec_flag(i)
                    ==> #[trigger] final(self).spec_flag(i),
            final(self).spec_announced() == old(self).spec_announced(),
            final(self).spec_publisher() == old(self).spec_publisher(),
    {
        let mut flag = self.flags[subsystem];
        flag.signal();
        self.flags[subsystem] = flag;
    }

    /// Whether subsystem `subsystem` has reported ready.
    pub fn is_ready(&self, subsystem: usize) -> (ready: bool)
        requires
            subsystem < self.spec_flag_count(),
        ensures
            ready == self.spec_flag(subsystem as int),
    {
        self.flags[subsystem].is_set()
    }

    /// Whether every tracked subsystem has reported ready.
    pub fn all_ready(&self) -> (ready: bool)
        ensures
            ready == self.spec_all_ready(),
    {
        let mut i: usize = 0;
        while i < self.flags.len()
            invariant
                i <= self.spec_flag_count(),
                forall|j: int| 0 <= j < i ==> #[trigger] self.spec_flag(j),
            decreases self.spec_flag_count() - i,
        {
            if !self.flags[i].is_set() {
                proof {
                    assert(!self.spec_flag(i as int));
                }
                return false;
            }
            i = i + 1;
        }
        true
    }

    /// Announce system readiness on the readiness topic, at most once per
    /// process lifetime.
    ///
    /// The announcement is published exactly when every flag is set, it
    /// was never published before, and every subscriber of the topic has
    /// room — the publish backs off rather than supersede, so a blocked
    /// announcement is simply retried on the caller's next poll.  The
    /// flags themselves never change here.
    pub fn try_announce(&mut self, channel: &mut BroadcastChannel<SystemReadyMessage>) -> (
        announced: bool)
        requires
            old(self).spec_publisher() < old(channel).spec_publishers(),
            old(channel).well_formed(),
        ensures
            final(channel).well_formed(),
            final(channel).spec_capacity() == old(channel).spec_capacity(),
            final(channel).spec_max_subscribers() == old(channel).spec_max_subscribers(),
            final(channel).spec_max_publishers() == old(channel).spec_max_publishers(),
            final(channel).spec_subscribers() == old(channel).spec_subscribers(),
            final(channel).spec_publishers() == old(channel).spec_publishers(),
            final(self).spec_flag_count() == old(self).spec_flag_count(),
            forall|i: int|
                0 <= i < old(self).spec_flag_count() ==> #[trigger] final(self).spec_flag(i)
                    == old(self).spec_flag(i),
            final(self).spec_publisher() == old(self).spec_publisher(),
            announced <==> {
                &&& old(self).spec_all_ready()
                &&& !old(self).spec_announced()
                &&& forall|i: int|
                    0 <= i < old(channel).spec_subscribers() ==> #[trigger] old(channel).pending(
                        i,
                    ).len() < old(channel).spec_capacity()
            },
            old(self).spec_announced() ==> !announced,
            old(self).spec_announced() ==> final(self).spec_announced(),
            announced ==> final(self).spec_announced(),
            announced ==> final(channel).messages() == old(channel).messages().push(
                SystemReadyMessage,
            ),
            announced ==> forall|i: int|
                0 <= i < old(channel).spec_subscribers() ==> #[trigger] final(channel).pending(i)
                    == old(channel).pending(i).push(SystemReadyMessage),
            !announced ==> *final(channel) == *old(channel) && final(self).spec_announced()
                == old(self).spec_announced(),
    {
        if self.announced {
            return false;
        }
        if !self.all_ready() {
            return false;
        }
        let published = channel.try_publish(self.publisher_handle, SystemReadyMessage);
        if published {
            self.announced = true;
        }
        published
    }
}

} // verus!
