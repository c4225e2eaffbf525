//! Bounded broadcast event bus.
//!
//! A [`BroadcastChannel`] is a fixed-capacity multi-producer /
//! multi-consumer channel: every published message is delivered
//! independently, by value, to every active subscriber.  The message slot
//! capacity, the maximum subscriber count and the maximum publisher-handle
//! count are all fixed at construction and never grow.
//!
//! The channel keeps the full publish log together with one read cursor
//! per subscriber; a subscriber's unread window into the log is never
//! wider than the slot capacity.  Publishing with [`BroadcastChannel::publish_immediate`]
//! never waits: when a subscriber's window is full, the oldest unread
//! message *for that subscriber* is silently superseded (drop-oldest,
//! per subscriber).  Publishing with [`BroadcastChannel::try_publish`]
//! exerts back-pressure instead: it refuses to publish while any
//! subscriber's window is full, so no subscriber ever misses a message.

use vstd::prelude::*;

verus! {

/// Error returned when one of a channel's fixed registration limits is hit.
///
/// Hitting a limit is recoverable for the caller: no partial registration
/// occurs on failure, and existing subscribers and publishers stay valid.
#[derive(Debug, Clone, Copy, PartialEq, Eq, Structural)]
pub enum ChannelError {
    /// `subscribe` was called while the maximum number of subscriptions are active.
    SubscriptionLimitExceeded,
    /// `publisher` was called while the maximum number of publisher handles are active.
    PublisherLimitExceeded,
}

/// Holds when `s` can be obtained from `t` by deleting elements while
/// keeping the order of the rest.
pub open spec fn subsequence_of<T>(s: Seq<T>, t: Seq<T>) -> bool
    decreases s.len() + t.len(),
{
    if s.len() == 0 {
        true
    } else if t.len() == 0 {
        false
    } else {
        ||| (s.last() == t.last() && subsequence_of(s.drop_last(), t.drop_last()))
        ||| subsequence_of(s, t.drop_last())
    }
}

/// A subsequence of `t` is still a subsequence after `t` grows at the end.
pub proof fn lemma_subsequence_extend<T>(s: Seq<T>, t: Seq<T>, x: T)
    requires
        subsequence_of(s, t),
    ensures
        subsequence_of(s, t.push(x)),
{
    assert(t.push(x).drop_last() =~= t);
}

/// Appending the same element to both sequences preserves the subsequence
/// relation.
pub proof fn lemma_subsequence_push<T>(s: Seq<T>, t: Seq<T>, x: T)
    requires
        subsequence_of(s, t),
    ensures
        subsequence_of(s.push(x), t.push(x)),
{
    assert(s.push(x).drop_last() =~= s);
    assert(t.push(x).drop_last() =~= t);
}

/// A subsequence of a prefix of `t` is a subsequence of any longer prefix.
pub proof fn lemma_subsequence_of_longer_prefix<T>(s: Seq<T>, t: Seq<T>, k: int, m: int)
    requires
        0 <= k <= m <= t.len(),
        subsequence_of(s, t.take(k)),
    ensures
        subsequence_of(s, t.take(m)),
    decreases m - k,
{
    if k < m {
        assert(t.take(k + 1) =~= t.take(k).push(t[k]));
        lemma_subsequence_extend(s, t.take(k), t[k]);
        lemma_subsequence_of_longer_prefix(s, t, k + 1, m);
    }
}

/// A fixed-capacity broadcast channel with per-subscriber read cursors.
pub struct BroadcastChannel<T> {
    capacity: usize,
    max_subscribers: usize,
    max_publishers: usize,
    log: Vec<T>,
    cursors: Vec<usize>,
    n_publishers: usize,
    received: Ghost<Seq<Seq<T>>>,
}

impl<T: Copy> BroadcastChannel<T> {
    /// The message slot capacity fixed at construction.
    pub closed spec fn spec_capacity(&self) -> int {
        self.capacity as int
    }

    /// The maximum subscriber count fixed at construction.
    pub closed spec fn spec_max_subscribers(&self) -> int {
        self.max_subscribers as int
    }

    /// The maximum publisher-handle count fixed at construction.
    pub closed spec fn spec_max_publishers(&self) -> int {
        self.max_publishers as int
    }

    /// Every message ever published on the channel, in publish order.
    pub closed spec fn messages(&self) -> Seq<T> {
        self.log@
    }

    /// How many subscribers are active.
    pub closed spec fn spec_subscribers(&self) -> int {
        self.cursors@.len() as int
    }

    /// How many publisher handles are active.
    pub closed spec fn spec_publishers(&self) -> int {
        self.n_publishers as int
    }

    /// The log position of the next message subscriber `i` will observe.
    pub closed spec fn spec_cursor(&self, i: int) -> int {
        self.cursors@[i] as int
    }

    /// The messages subscriber `i` has not yet observed, oldest first.
    pub open spec fn pending(&self, i: int) -> Seq<T> {
        self.messages().subrange(self.spec_cursor(i), self.messages().len() as int)
    }

    /// The messages subscriber `i` has observed so far, in the order it
    /// observed them.
    pub closed spec fn received_of(&self, i: int) -> Seq<T> {
        self.received@[i]
    }

    /// How many observation histories are tracked.
    pub closed spec fn spec_history_count(&self) -> int {
        self.received@.len() as int
    }

    /// Structural invariant: limits are respected, every subscriber's
    /// unread window lies inside the log and within the slot capacity,
    /// and what a subscriber has observed so far came, in order, from the
    /// part of the log its cursor has passed.
    pub open spec fn well_formed(&self) -> bool {
        &&& self.spec_capacity() >= 1
        &&& self.spec_subscribers() <= self.spec_max_subscribers()
        &&& self.spec_publishers() <= self.spec_max_publishers()
        &&& forall|i: int|
            0 <= i < self.spec_subscribers() ==> {
                &&& 0 <= #[trigger] self.spec_cursor(i) <= self.messages().len()
                &&& self.messages().len() - self.spec_cursor(i) <= self.spec_capacity()
            }
        &&& self.spec_history_count() == self.spec_subscribers()
        &&& forall|i: int|
            0 <= i < self.spec_subscribers() ==> subsequence_of(
                #[trigger] self.received_of(i),
                self.messages().take(self.spec_cursor(i)),
            )
    }

    /// The per-subscriber window bounds and observation histories carry
    /// over to any state with the same log, cursors and histories.
    proof fn lemma_windows_carry_over(pre: &Self, post: &Self)
        requires
            pre.well_formed(),
            post.log@ == pre.log@,
            post.cursors@ == pre.cursors@,
            post.received@ == pre.received@,
        ensures
            forall|i: int|
                0 <= i < post.spec_subscribers() ==> {
                    &&& 0 <= #[trigger] post.spec_cursor(i) <= post.messages().len()
                    &&& post.messages().len() - post.spec_cursor(i) <= pre.spec_capacity()
                },
            post.received@.len() == post.spec_subscribers(),
            forall|i: int|
                0 <= i < post.spec_subscribers() ==> subsequence_of(
                    #[trigger] post.received_of(i),
                    post.messages().take(post.spec_cursor(i)),
                ),
    {
        assert forall|i: int| 0 <= i < post.spec_subscribers() implies {
            &&& 0 <= #[trigger] post.spec_cursor(i) <= post.messages().len()
            &&& post.messages().len() - post.spec_cursor(i) <= pre.spec_capacity()
        } by {
            assert(post.spec_cursor(i) == pre.spec_cursor(i));
            assert(0 <= pre.spec_cursor(i) <= pre.messages().len());
        }
        assert forall|i: int| 0 <= i < post.spec_subscribers() implies subsequence_of(
            #[trigger] post.received_of(i),
            post.messages().take(post.spec_cursor(i)),
        ) by {
            assert(subsequence_of(pre.received_of(i), pre.messages().take(pre.spec_cursor(i))));
            assert(post.received_of(i) == pre.received_of(i));
            assert(post.spec_cursor(i) == pre.spec_cursor(i));
        }
    }

    /// Construct a channel with the given slot capacity, maximum subscriber
    /// count and maximum publisher-handle count, all fixed for its lifetime.
    pub fn new(capacity: usize, max_subscribers: usize, max_publishers: usize) -> (channel: Self)
        requires
            capacity >= 1,
        ensures
            channel.well_formed(),
            channel.spec_capacity() == capacity,
            channel.spec_max_subscribers() == max_subscribers,
            channel.spec_max_publishers() == max_publishers,
            channel.messages().len() == 0,
            channel.spec_subscribers() == 0,
            channel.spec_publishers() == 0,
    {
        BroadcastChannel {
            capacity,
            max_subscribers,
            max_publishers,
            log: Vec::new(),
            cursors: Vec::new(),
            n_publishers: 0,
            received: Ghost(Seq::empty()),
        }
    }

    /// Register a new subscriber and return its handle.
    ///
    /// Fails with [`ChannelError::SubscriptionLimitExceeded`] exactly when
    /// the maximum subscriber count is already reached; no partial
    /// registration occurs on failure.  A new subscriber observes only
    /// messages published after it subscribed.
    pub fn subscribe(&mut self) -> (r: Result<usize, ChannelError>)
        requires
            old(self).well_formed(),
        ensures
            final(self).well_formed(),
            final(self).spec_capacity() == old(self).spec_capacity(),
            final(self).spec_max_subscribers() == old(self).spec_max_subscribers(),
            final(self).spec_max_publishers() == old(self).spec_max_publishers(),
            final(self).spec_publishers() == old(self).spec_publishers(),
            final(self).messages() == old(self).messages(),
            r is Ok <==> old(self).spec_subscribers() < old(self).spec_max_subscribers(),
            r matches Ok(id) ==> {
                &&& id == old(self).spec_subscribers()
                &&& final(self).spec_subscribers() == old(self).spec_subscribers() + 1
                &&& final(self).pending(id as int) == Seq::<T>::empty()
                &&& final(self).received_of(id as int) == Seq::<T>::empty()
                &&& forall|j: int|
                    0 <= j < old(self).spec_subscribers() ==> #[trigger] final(self).spec_cursor(j)
                        == old(self).spec_cursor(j)
                &&& forall|j: int|
                    0 <= j < old(self).spec_subscribers() ==> #[trigger] final(self).received_of(j)
                        == old(self).received_of(j)
            },
            r is Err ==> r == Result::<usize, ChannelError>::Err(
                ChannelError::SubscriptionLimitExceeded,
            ) && *final(self) == *old(self),
    {
        if self.cursors.len() < self.max_subscribers {
            let id = self.cursors.len();
            self.cursors.push(self.log.len());
            self.received = Ghost(self.received@.push(Seq::empty()));
            proof {
                assert(self.pending(id as int) =~= Seq::<T>::empty());
                assert forall|i: int| 0 <= i < self.spec_subscribers() implies {
                    &&& 0 <= #[trigger] self.spec_cursor(i) <= self.messages().len()
                    &&& self.messages().len() - self.spec_cursor(i) <= self.spec_capacity()
                } by {
                    if i < old(self).spec_subscribers() {
                        assert(self.spec_cursor(i) == old(self).spec_cursor(i));
                        assert(0 <= old(self).spec_cursor(i) <= old(self).messages().len());
                    } else {
                        assert(self.spec_cursor(i) == self.messages().len());
                    }
                }
                assert forall|i: int| 0 <= i < self.spec_subscribers() implies subsequence_of(
                    #[trigger] self.received_of(i),
                    self.messages().take(self.spec_cursor(i)),
                ) by {
                    if i < old(self).spec_subscribers() {
                        assert(subsequence_of(
                            old(self).received_of(i),
                            old(self).messages().take(old(self).spec_cursor(i)),
                        ));
                        assert(self.received_of(i) == old(self).received_of(i));
                        assert(self.spec_cursor(i) == old(self).spec_cursor(i));
                    } else {
                        assert(self.received_of(i) == Seq::<T>::empty());
                    }
                }
            }
            Ok(id)
        } else {
            Err(ChannelError::SubscriptionLimitExceeded)
        }
    }

    /// Register a new publisher handle and return it.
    ///
    /// Fails with [`ChannelError::PublisherLimitExceeded`] exactly when the
    /// maximum publisher-handle count is already reached.
    pub fn publisher(&mut self) -> (r: Result<usize, ChannelError>)
        requires
            old(self).well_formed(),
        ensures
            final(self).well_formed(),
            final(self).spec_capacity() == old(self).spec_capacity(),
            final(self).spec_max_subscribers() == old(self).spec_max_subscribers(),
            final(self).spec_max_publishers() == old(self).spec_max_publishers(),
            final(self).spec_subscribers() == old(self).spec_subscribers(),
            final(self).messages() == old(self).messages(),
            forall|j: int|
                0 <= j < old(self).spec_subscribers() ==> #[trigger] final(self).spec_cursor(j)
                    == old(self).spec_cursor(j),
            r is Ok <==> old(self).spec_publishers() < old(self).spec_max_publishers(),
            r matches Ok(id) ==> id == old(self).spec_publishers() && final(self).spec_publishers()
                == old(self).spec_publishers() + 1,
            r is Err ==> r == Result::<usize, ChannelError>::Err(
                ChannelError::PublisherLimitExceeded,
            ) && *final(self) == *old(self),
    {
        if self.n_publishers < self.max_publishers {
            let id = self.n_publishers;
            self.n_publishers = self.n_publishers + 1;
            proof {
                Self::lemma_windows_carry_over(old(self), self);
            }
            Ok(id)
        } else {
            Err(ChannelError::PublisherLimitExceeded)
        }
    }

    /// Publish without ever waiting.
    ///
    /// The message is appended for every subscriber.  A subscriber whose
    /// unread window is already full loses its *oldest* unread message to
    /// make room — independently of how far any other subscriber lags.
    pub fn publish_immediate(&mut self, publisher_id: usize, message: T)
        requires
            old(self).well_formed(),
            publisher_id < old(self).spec_publishers(),
        ensures
            final(self).well_formed(),
            final(self).spec_capacity() == old(self).spec_capacity(),
            final(self).spec_max_subscribers() == old(self).spec_max_subscribers(),
            final(self).spec_max_publishers() == old(self).spec_max_publishers(),
            final(self).spec_subscribers() == old(self).spec_subscribers(),
            final(self).spec_publishers() == old(self).spec_publishers(),
            final(self).messages() == old(self).messages().push(message),
            forall|i: int|
                0 <= i < old(self).spec_subscribers() ==> #[trigger] final(self).pending(i) == (
                if old(self).pending(i).len() < old(self).spec_capacity() {
                    old(self).pending(i).push(message)
                } else {
                    old(self).pending(i).drop_first().push(message)
                }),
            forall|i: int|
                0 <= i < old(self).spec_subscribers() ==> #[trigger] final(self).received_of(i)
                    == old(self).received_of(i),
    {
        self.log.push(message);
        let new_len = self.log.len();
        let n = self.cursors.len();
        let mut j: usize = 0;
        while j < n
            invariant
                old(self).well_formed(),
                n == self.cursors@.len(),
                j <= n,
                self.capacity == old(self).capacity,
                self.max_subscribers == old(self).max_subscribers,
                self.max_publishers == old(self).max_publishers,
                self.n_publishers == old(self).n_publishers,
                self.received@ == old(self).received@,
                self.log@ == old(self).log@.push(message),
                new_len == self.log@.len(),
                self.cursors@.len() == old(self).cursors@.len(),
                forall|i: int|
                    j <= i < n ==> #[trigger] self.cursors@[i] == old(self).cursors@[i],
                forall|i: int|
                    0 <= i < j ==> #[trigger] self.cursors@[i] as int == (
                    if old(self).messages().len() - old(self).spec_cursor(i) < old(
                        self,
                    ).spec_capacity() {
                        old(self).spec_cursor(i)
                    } else {
                        new_len - old(self).spec_capacity()
                    }),
            decreases n - j,
        {
            proof {
                assert(self.cursors@[j as int] == old(self).cursors@[j as int]);
                assert(0 <= old(self).spec_cursor(j as int) <= old(self).messages().len());
            }
            if new_len - self.cursors[j] > self.capacity {
                self.cursors[j] = new_len - self.capacity;
            }
            j = j + 1;
        }
        proof {
            assert forall|i: int| 0 <= i < self.spec_subscribers() implies {
                &&& 0 <= #[trigger] self.spec_cursor(i) <= self.messages().len()
                &&& self.messages().len() - self.spec_cursor(i) <= self.spec_capacity()
                &&& self.pending(i) == (
                if old(self).pending(i).len() < old(self).spec_capacity() {
                    old(self).pending(i).push(message)
                } else {
                    old(self).pending(i).drop_first().push(message)
                })
            } by {
                assert(0 <= old(self).spec_cursor(i) <= old(self).messages().len());
                if old(self).pending(i).len() < old(self).spec_capacity() {
                    assert(self.spec_cursor(i) == old(self).spec_cursor(i));
                    assert(self.pending(i) =~= old(self).pending(i).push(message));
                } else {
                    assert(self.spec_cursor(i) == old(self).spec_cursor(i) + 1);
                    assert(self.pending(i) =~= old(self).pending(i).drop_first().push(message));
                }
            }
            assert forall|i: int| 0 <= i < self.spec_subscribers() implies subsequence_of(
                #[trigger] self.received_of(i),
                self.messages().take(self.spec_cursor(i)),
            ) by {
                assert(subsequence_of(
                    old(self).received_of(i),
                    old(self).messages().take(old(self).spec_cursor(i)),
                ));
                assert(self.messages().take(old(self).spec_cursor(i)) =~= old(
                    self,
                ).messages().take(old(self).spec_cursor(i)));
                assert(0 <= old(self).spec_cursor(i) <= self.spec_cursor(i));
                lemma_subsequence_of_longer_prefix(
                    self.received_of(i),
                    self.messages(),
                    old(self).spec_cursor(i),
                    self.spec_cursor(i),
                );
            }
        }
    }

    /// Publish only if no subscriber would lose a message.
    ///
    /// Succeeds exactly when every subscriber still has a free slot in its
    /// unread window; on success the message is appended for every
    /// subscriber and nothing is superseded.  On failure the channel is
    /// unchanged, so a caller under back-pressure retries after
    /// subscribers have drained — this is the waiting publish of the bus.
    pub fn try_publish(&mut self, publisher_id: usize, message: T) -> (published: bool)
        requires
            old(self).well_formed(),
            publisher_id < old(self).spec_publishers(),
        ensures
            final(self).well_formed(),
            final(self).spec_capacity() == old(self).spec_capacity(),
            final(self).spec_max_subscribers() == old(self).spec_max_subscribers(),
            final(self).spec_max_publishers() == old(self).spec_max_publishers(),
            final(self).spec_subscribers() == old(self).spec_subscribers(),
            final(self).spec_publishers() == old(self).spec_publishers(),
            published <==> forall|i: int|
                0 <= i < old(self).spec_subscribers() ==> #[trigger] old(self).pending(i).len()
                    < old(self).spec_capacity(),
            published ==> final(self).messages() == old(self).messages().push(message),
            published ==> forall|i: int|
                0 <= i < old(self).spec_subscribers() ==> #[trigger] final(self).pending(i)
                    == old(self).pending(i).push(message),
            published ==> forall|i: int|
                0 <= i < old(self).spec_subscribers() ==> #[trigger] final(self).received_of(i)
                    == old(self).received_of(i),
            !published ==> *final(self) == *old(self),
    {
        let n = self.cursors.len();
        let mut j: usize = 0;
        while j < n
            invariant
                old(self).well_formed(),
                *self == *old(self),
                n == self.cursors@.len(),
                j <= n,
                forall|i: int|
                    0 <= i < j ==> #[trigger] old(self).pending(i).len() < old(
                        self,
                    ).spec_capacity(),
            decreases n - j,
        {
            proof {
                assert(0 <= old(self).spec_cursor(j as int) <= old(self).messages().len());
            }
            if self.log.len() - self.cursors[j] >= self.capacity {
                proof {
                    assert(old(self).pending(j as int).len() >= old(self).spec_capacity());
                }
                return false;
            }
            j = j + 1;
        }
        self.log.push(message);
        proof {
            assert forall|i: int| 0 <= i < self.spec_subscribers() implies {
                &&& 0 <= #[trigger] self.spec_cursor(i) <= self.messages().len()
                &&& self.messages().len() - self.spec_cursor(i) <= self.spec_capacity()
                &&& self.pending(i) == old(self).pending(i).push(message)
            } by {
                assert(old(self).pending(i).len() < old(self).spec_capacity());
                assert(self.pending(i) =~= old(self).pending(i).push(message));
            }
            assert forall|i: int| 0 <= i < self.spec_subscribers() implies subsequence_of(
                #[trigger] self.received_of(i),
                self.messages().take(self.spec_cursor(i)),
            ) by {
                assert(subsequence_of(
                    old(self).received_of(i),
                    old(self).messages().take(old(self).spec_cursor(i)),
                ));
                assert(self.messages().take(self.spec_cursor(i)) =~= old(self).messages().take(
                    old(self).spec_cursor(i),
                ));
            }
        }
        true
    }

    /// Take the next unread message for subscriber `subscriber_id`, if any,
    /// without waiting.
    ///
    /// Returns the oldest message of the subscriber's unread window and
    /// advances only that subscriber's cursor; with an empty window it
    /// returns `None` and changes nothing.
    pub fn try_next_message(&mut self, subscriber_id: usize) -> (r: Option<T>)
        requires
            old(self).well_formed(),
            subscriber_id < old(self).spec_subscribers(),
        ensures
            final(self).well_formed(),
            final(self).spec_capacity() == old(self).spec_capacity(),
            final(self).spec_max_subscribers() == old(self).spec_max_subscribers(),
            final(self).spec_max_publishers() == old(self).spec_max_publishers(),
            final(self).spec_subscribers() == old(self).spec_subscribers(),
            final(self).spec_publishers() == old(self).spec_publishers(),
            final(self).messages() == old(self).messages(),
            r is Some <==> old(self).pending(subscriber_id as int).len() > 0,
            r is None ==> *final(self) == *old(self),
            r matches Some(m) ==> {
                &&& m == old(self).pending(subscriber_id as int).first()
                &&& final(self).pending(subscriber_id as int) == old(self).pending(
                    subscriber_id as int,
                ).drop_first()
                &&& final(self).received_of(subscriber_id as int) == old(self).received_of(
                    subscriber_id as int,
                ).push(m)
                &&& forall|i: int|
                    0 <= i < old(self).spec_subscribers() && i != subscriber_id
                        ==> #[trigger] final(self).pending(i) == old(self).pending(i)
                &&& forall|i: int|
                    0 <= i < old(self).spec_subscribers() && i != subscriber_id
                        ==> #[trigger] final(self).received_of(i) == old(self).received_of(i)
            },
    {
        proof {
            assert(0 <= old(self).spec_cursor(subscriber_id as int) <= old(
                self,
            ).messages().len());
        }
        let cur = self.cursors[subscriber_id];
        if cur < self.log.len() {
            let message = self.log[cur];
            self.cursors[subscriber_id] = cur + 1;
            let ghost sub = subscriber_id as int;
            self.received = Ghost(
                self.received@.update(sub, self.received@[sub].push(message)),
            );
            proof {
                assert(message == old(self).pending(sub).first());
                assert(self.pending(sub) =~= old(self).pending(sub).drop_first());
                assert forall|i: int| 0 <= i < self.spec_subscribers() implies {
                    &&& 0 <= #[trigger] self.spec_cursor(i) <= self.messages().len()
                    &&& self.messages().len() - self.spec_cursor(i) <= self.spec_capacity()
                } by {
                    assert(0 <= old(self).spec_cursor(i) <= old(self).messages().len());
                    if i != sub {
                        assert(self.spec_cursor(i) == old(self).spec_cursor(i));
                    }
                }
                assert forall|i: int| 0 <= i < self.spec_subscribers() implies subsequence_of(
                    #[trigger] self.received_of(i),
                    self.messages().take(self.spec_cursor(i)),
                ) by {
                    assert(subsequence_of(
                        old(self).received_of(i),
                        old(self).messages().take(old(self).spec_cursor(i)),
                    ));
                    if i == sub {
                        assert(self.messages().take(self.spec_cursor(i)) =~= old(
                            self,
                        ).messages().take(old(self).spec_cursor(i)).push(message));
                        lemma_subsequence_push(
                            old(self).received_of(i),
                            old(self).messages().take(old(self).spec_cursor(i)),
                            message,
                        );
                    } else {
                        assert(self.received_of(i) == old(self).received_of(i));
                        assert(self.messages().take(self.spec_cursor(i)) =~= old(
                            self,
                        ).messages().take(old(self).spec_cursor(i)));
                    }
                }
                assert forall|i: int|
                    0 <= i < old(self).spec_subscribers() && i != sub implies #[trigger] self
                        .pending(i) == old(self).pending(i) by {
                    assert(self.pending(i) =~= old(self).pending(i));
                }
            }
            Some(message)
        } else {
            None
        }
    }

    /// The message slot capacity fixed at construction.
    pub fn capacity(&self) -> (c: usize)
        ensures
            c == self.spec_capacity(),
    {
        self.capacity
    }

    /// How many subscribers are active.
    pub fn subscriber_count(&self) -> (c: usize)
        ensures
            c == self.spec_subscribers(),
    {
        self.cursors.len()
    }

    /// How many publisher handles are active.
    pub fn publisher_count(&self) -> (c: usize)
        ensures
            c == self.spec_publishers(),
    {
        self.n_publishers
    }

    /// How many messages subscriber `subscriber_id` has not yet observed.
    pub fn pending_count(&self, subscriber_id: usize) -> (c: usize)
        requires
            self.well_formed(),
            subscriber_id < self.spec_subscribers(),
        ensures
            c == self.pending(subscriber_id as int).len(),
    {
        proof {
            assert(0 <= self.spec_cursor(subscriber_id as int) <= self.messages().len());
        }
        self.log.len() - self.cursors[subscriber_id]
    }
}

/// Everything a subscriber observes arrives in publish order: the sequence
/// of messages subscriber `i` has taken from the channel is a subsequence
/// of the publish log.  Superseded messages are skipped, never reordered.
pub proof fn lemma_subscriber_order<T: Copy>(channel: &BroadcastChannel<T>, i: int)
    requires
        channel.well_formed(),
        0 <= i < channel.spec_subscribers(),
    ensures
        subsequence_of(channel.received_of(i), channel.messages()),
{
    assert(subsequence_of(channel.received_of(i), channel.messages().take(channel.spec_cursor(i))));
    assert(0 <= channel.spec_cursor(i) <= channel.messages().len());
    lemma_subsequence_of_longer_prefix(
        channel.received_of(i),
        channel.messages(),
        channel.spec_cursor(i),
        channel.messages().len() as int,
    );
    assert(channel.messages().take(channel.messages().len() as int) =~= channel.messages());
}

} // verus!
