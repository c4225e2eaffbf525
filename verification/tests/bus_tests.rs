use event_core::bus::BroadcastChannel;
use event_core::bus::ChannelError;

#[test]
fn broadcast_delivers_to_all_three_subscribers() {
    let mut channel: BroadcastChannel<u32> = BroadcastChannel::new(4, 3, 1);
    let publisher = channel.publisher().unwrap();
    let sub_a = channel.subscribe().unwrap();
    let sub_b = channel.subscribe().unwrap();
    let sub_c = channel.subscribe().unwrap();

    channel.publish_immediate(publisher, 42);

    assert_eq!(channel.try_next_message(sub_a), Some(42));
    assert_eq!(channel.try_next_message(sub_b), Some(42));
    assert_eq!(channel.try_next_message(sub_c), Some(42));
    assert_eq!(channel.try_next_message(sub_a), None);
}

#[test]
fn per_subscriber_order_matches_publish_order() {
    let mut channel: BroadcastChannel<u32> = BroadcastChannel::new(4, 2, 1);
    let publisher = channel.publisher().unwrap();
    let sub_a = channel.subscribe().unwrap();
    let sub_b = channel.subscribe().unwrap();

    channel.publish_immediate(publisher, 1);
    channel.publish_immediate(publisher, 2);
    channel.publish_immediate(publisher, 3);

    assert_eq!(channel.try_next_message(sub_a), Some(1));
    assert_eq!(channel.try_next_message(sub_a), Some(2));
    assert_eq!(channel.try_next_message(sub_b), Some(1));
    assert_eq!(channel.try_next_message(sub_a), Some(3));
    assert_eq!(channel.try_next_message(sub_b), Some(2));
    assert_eq!(channel.try_next_message(sub_b), Some(3));
}

#[test]
fn publish_immediate_supersedes_oldest_per_subscriber() {
    // Two subscribers on a 2-slot channel; three immediate publishes
    // before either drains: each subscriber observes only the latest 2.
    let mut channel: BroadcastChannel<u32> = BroadcastChannel::new(2, 2, 1);
    let publisher = channel.publisher().unwrap();
    let sub_a = channel.subscribe().unwrap();
    let sub_b = channel.subscribe().unwrap();

    channel.publish_immediate(publisher, 10);
    channel.publish_immediate(publisher, 20);
    channel.publish_immediate(publisher, 30);

    assert_eq!(channel.try_next_message(sub_a), Some(20));
    assert_eq!(channel.try_next_message(sub_a), Some(30));
    assert_eq!(channel.try_next_message(sub_a), None);
    assert_eq!(channel.try_next_message(sub_b), Some(20));
    assert_eq!(channel.try_next_message(sub_b), Some(30));
    assert_eq!(channel.try_next_message(sub_b), None);
}

#[test]
fn drop_oldest_is_independent_per_subscriber() {
    let mut channel: BroadcastChannel<u32> = BroadcastChannel::new(2, 2, 1);
    let publisher = channel.publisher().unwrap();
    let fast = channel.subscribe().unwrap();
    let slow = channel.subscribe().unwrap();

    channel.publish_immediate(publisher, 1);
    channel.publish_immediate(publisher, 2);
    // The fast subscriber drains; the slow one lags.
    assert_eq!(channel.try_next_message(fast), Some(1));
    assert_eq!(channel.try_next_message(fast), Some(2));
    channel.publish_immediate(publisher, 3);

    // Only the slow subscriber lost its oldest message.
    assert_eq!(channel.try_next_message(fast), Some(3));
    assert_eq!(channel.try_next_message(slow), Some(2));
    assert_eq!(channel.try_next_message(slow), Some(3));
}

#[test]
fn fourth_subscribe_fails_and_first_three_remain_valid() {
    let mut channel: BroadcastChannel<u32> = BroadcastChannel::new(2, 3, 1);
    let publisher = channel.publisher().unwrap();
    let sub_a = channel.subscribe().unwrap();
    let sub_b = channel.subscribe().unwrap();
    let sub_c = channel.subscribe().unwrap();

    assert_eq!(channel.subscribe(), Err(ChannelError::SubscriptionLimitExceeded));

    channel.publish_immediate(publisher, 5);
    assert_eq!(channel.try_next_message(sub_a), Some(5));
    assert_eq!(channel.try_next_message(sub_b), Some(5));
    assert_eq!(channel.try_next_message(sub_c), Some(5));
}

#[test]
fn publisher_limit_is_enforced() {
    let mut channel: BroadcastChannel<u32> = BroadcastChannel::new(2, 3, 1);
    let _publisher = channel.publisher().unwrap();
    assert_eq!(channel.publisher(), Err(ChannelError::PublisherLimitExceeded));
}

#[test]
fn try_publish_backs_off_while_a_subscriber_window_is_full() {
    let mut channel: BroadcastChannel<u32> = BroadcastChannel::new(2, 2, 1);
    let publisher = channel.publisher().unwrap();
    let fast = channel.subscribe().unwrap();
    let slow = channel.subscribe().unwrap();

    assert!(channel.try_publish(publisher, 1));
    assert!(channel.try_publish(publisher, 2));
    assert_eq!(channel.try_next_message(fast), Some(1));
    // The slow subscriber's window is full: back-pressure refuses.
    assert!(!channel.try_publish(publisher, 3));
    assert_eq!(channel.try_next_message(slow), Some(1));
    // One slot is free for everyone again.
    assert!(channel.try_publish(publisher, 3));
    assert_eq!(channel.try_next_message(fast), Some(2));
    assert_eq!(channel.try_next_message(fast), Some(3));
    assert_eq!(channel.try_next_message(slow), Some(2));
    assert_eq!(channel.try_next_message(slow), Some(3));
}

#[test]
fn subscriber_sees_only_messages_published_after_subscribing() {
    let mut channel: BroadcastChannel<u32> = BroadcastChannel::new(4, 2, 1);
    let publisher = channel.publisher().unwrap();
    channel.publish_immediate(publisher, 1);
    let late = channel.subscribe().unwrap();
    channel.publish_immediate(publisher, 2);
    assert_eq!(channel.try_next_message(late), Some(2));
    assert_eq!(channel.try_next_message(late), None);
}

#[test]
fn channel_reports_its_fixed_limits() {
    let mut channel: BroadcastChannel<u32> = BroadcastChannel::new(2, 3, 1);
    assert_eq!(channel.capacity(), 2);
    assert_eq!(channel.subscriber_count(), 0);
    assert_eq!(channel.publisher_count(), 0);
    let publisher = channel.publisher().unwrap();
    let sub = channel.subscribe().unwrap();
    assert_eq!(channel.subscriber_count(), 1);
    assert_eq!(channel.publisher_count(), 1);
    channel.publish_immediate(publisher, 9);
    assert_eq!(channel.pending_count(sub), 1);
}
