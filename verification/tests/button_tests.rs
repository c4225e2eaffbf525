use event_core::bus::BroadcastChannel;
use event_core::bus::ChannelError;
use event_core::button::classify_press;
use event_core::button::ButtonMessage;
use event_core::button::ConfigurationError;
use event_core::button::race_outcome;
use event_core::button::PressOutcome;
use event_core::button::PressType;
use event_core::button::UserButton;

#[test]
fn release_at_150_of_300_is_a_short_release() {
    // Falling edge at t=0, rising edge at t=150 ms, threshold 300 ms.
    let message = classify_press(0, 0, PressOutcome::Released(150), 300, 2000);
    assert_eq!(
        message,
        ButtonMessage {
            id: 0,
            timestamp_start: 0,
            timestamp_end: 150,
            press_type: PressType::ShortRelease,
        }
    );
}

#[test]
fn duration_boundary_is_inclusive_toward_long_release() {
    let just_below = classify_press(0, 0, PressOutcome::Released(299), 300, 2000);
    assert_eq!(just_below.press_type, PressType::ShortRelease);
    let at_threshold = classify_press(0, 0, PressOutcome::Released(300), 300, 2000);
    assert_eq!(at_threshold.press_type, PressType::LongRelease);
}

#[test]
fn boundary_holds_for_a_nonzero_start() {
    let short = classify_press(3, 1000, PressOutcome::Released(1299), 300, 2000);
    assert_eq!(short.press_type, PressType::ShortRelease);
    let long = classify_press(3, 1000, PressOutcome::Released(1300), 300, 2000);
    assert_eq!(long.press_type, PressType::LongRelease);
}

#[test]
fn hold_without_release_is_one_long_hold_at_the_threshold() {
    // Falling edge at t=0, no rising edge, hold threshold 2000 ms: one
    // long-hold event with end pinned to start + 2000.
    let message = classify_press(0, 0, PressOutcome::HeldPastThreshold, 300, 2000);
    assert_eq!(
        message,
        ButtonMessage {
            id: 0,
            timestamp_start: 0,
            timestamp_end: 2000,
            press_type: PressType::LongHold,
        }
    );
}

#[test]
fn one_cycle_publishes_exactly_one_event() {
    let mut channel: BroadcastChannel<ButtonMessage> = BroadcastChannel::new(2, 3, 1);
    let sub = channel.subscribe().unwrap();
    let button =
        UserButton::new(vec![0], 300, 2000, &mut channel).unwrap();

    let message = button.press_message(0, 0, PressOutcome::HeldPastThreshold).unwrap();
    assert!(button.publish_press(&mut channel, message));

    let received = channel.try_next_message(sub).unwrap();
    assert_eq!(received.press_type, PressType::LongHold);
    assert_eq!(received.timestamp_start, 0);
    assert_eq!(received.timestamp_end, 2000);
    // No duplicate classification for the same press.
    assert_eq!(channel.try_next_message(sub), None);
}

#[test]
fn the_release_wins_the_race_only_up_to_the_hold_deadline() {
    // Hold timer fires at 0 + 2000; the release branch is polled first,
    // so a dead heat still counts as a release.
    assert_eq!(race_outcome(0, Some(150), 2000), PressOutcome::Released(150));
    assert_eq!(race_outcome(0, Some(2000), 2000), PressOutcome::Released(2000));
    assert_eq!(race_outcome(0, Some(2001), 2000), PressOutcome::HeldPastThreshold);
    assert_eq!(race_outcome(0, None, 2000), PressOutcome::HeldPastThreshold);
}

#[test]
fn unknown_button_id_is_a_configuration_error() {
    let mut channel: BroadcastChannel<ButtonMessage> = BroadcastChannel::new(2, 3, 1);
    let button = UserButton::new(vec![0], 300, 2000, &mut channel).unwrap();
    assert_eq!(
        button.press_message(7, 0, PressOutcome::HeldPastThreshold),
        Err(ConfigurationError::UnknownButtonId)
    );
}

#[test]
fn id_checks_follow_the_registered_set() {
    let mut channel: BroadcastChannel<ButtonMessage> = BroadcastChannel::new(2, 3, 1);
    let button = UserButton::new(vec![0, 4], 300, 2000, &mut channel).unwrap();
    assert_eq!(button.get_ids(), vec![0, 4]);
    assert!(button.contains_id(4));
    assert!(!button.contains_id(1));
    assert!(button.check_ids(&vec![]));
    assert!(button.check_ids(&vec![0]));
    assert!(button.check_ids(&vec![4, 0]));
    assert!(!button.check_ids(&vec![0, 1]));
}

#[test]
fn button_registration_respects_the_publisher_limit() {
    let mut channel: BroadcastChannel<ButtonMessage> = BroadcastChannel::new(2, 3, 1);
    let _first = UserButton::new(vec![0], 300, 2000, &mut channel).unwrap();
    match UserButton::new(vec![1], 300, 2000, &mut channel) {
        Err(ChannelError::PublisherLimitExceeded) => {},
        _ => panic!("a second publisher handle must be refused"),
    }
}

#[test]
fn publish_press_backs_off_while_a_subscriber_lags() {
    let mut channel: BroadcastChannel<ButtonMessage> = BroadcastChannel::new(2, 3, 1);
    let sub = channel.subscribe().unwrap();
    let button = UserButton::new(vec![0], 300, 2000, &mut channel).unwrap();

    let first = button.press_message(0, 0, PressOutcome::Released(10)).unwrap();
    let second = button.press_message(0, 500, PressOutcome::Released(520)).unwrap();
    let third = button.press_message(0, 900, PressOutcome::Released(1400)).unwrap();
    assert!(button.publish_press(&mut channel, first));
    assert!(button.publish_press(&mut channel, second));
    // The only subscriber has a full window: back-pressure refuses.
    assert!(!button.publish_press(&mut channel, third));
    assert_eq!(channel.try_next_message(sub), Some(first));
    assert!(button.publish_press(&mut channel, third));
    assert_eq!(channel.try_next_message(sub), Some(second));
    assert_eq!(channel.try_next_message(sub), Some(third));
}
