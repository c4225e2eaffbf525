use event_core::bus::BroadcastChannel;
use event_core::bus::ChannelError;
use event_core::button::ButtonMessage;
use event_core::button::PressOutcome;
use event_core::button::PressType;
use event_core::button::UserButton;
use event_core::state_machine::Event;
use event_core::state_machine::State;
use event_core::state_machine::StateMachine;

fn machine_on(
    channel: &mut BroadcastChannel<ButtonMessage>,
) -> StateMachine {
    StateMachine::new(State::Startup, Event::Nothing, channel).unwrap()
}

#[test]
fn startup_follows_power_on_and_ready() {
    let mut channel: BroadcastChannel<ButtonMessage> = BroadcastChannel::new(2, 3, 1);
    let mut machine = machine_on(&mut channel);
    assert_eq!(machine.current_state(), State::Startup);
    machine.handle_event(Event::PowerOn);
    assert_eq!(machine.current_state(), State::Startup);
    machine.handle_event(Event::Ready);
    assert_eq!(machine.current_state(), State::Idle);
}

#[test]
fn any_classified_press_starts_processing() {
    for event in [
        Event::ButtonPressShortRelease,
        Event::ButtonPressLongRelease,
        Event::ButtonPressLongHold,
        Event::SomethingElse,
    ] {
        let mut channel: BroadcastChannel<ButtonMessage> = BroadcastChannel::new(2, 3, 1);
        let mut machine = machine_on(&mut channel);
        machine.handle_event(Event::Ready);
        machine.handle_event(event);
        assert_eq!(machine.current_state(), State::Processing);
        machine.handle_event(Event::Nothing);
        assert_eq!(machine.current_state(), State::Idle);
    }
}

#[test]
fn unmatched_pairs_leave_the_state_unchanged() {
    let mut channel: BroadcastChannel<ButtonMessage> = BroadcastChannel::new(2, 3, 1);
    let mut machine = machine_on(&mut channel);
    machine.handle_event(Event::Nothing);
    assert_eq!(machine.current_state(), State::Startup);
    machine.handle_event(Event::ButtonPressShortRelease);
    assert_eq!(machine.current_state(), State::Startup);

    machine.handle_event(Event::Ready);
    assert_eq!(machine.current_state(), State::Idle);
    machine.handle_event(Event::PowerOn);
    assert_eq!(machine.current_state(), State::Idle);
    machine.handle_event(Event::Ready);
    assert_eq!(machine.current_state(), State::Idle);
    machine.handle_event(Event::Nothing);
    assert_eq!(machine.current_state(), State::Idle);
}

#[test]
fn error_is_reached_from_any_state_and_is_terminal() {
    let mut channel: BroadcastChannel<ButtonMessage> = BroadcastChannel::new(2, 3, 1);
    let mut machine = machine_on(&mut channel);
    machine.handle_event(Event::Ready);
    machine.handle_event(Event::SomethingElse);
    assert_eq!(machine.current_state(), State::Processing);
    machine.handle_event(Event::Error);
    assert_eq!(machine.current_state(), State::Error);
    machine.handle_event(Event::Error);
    assert_eq!(machine.current_state(), State::Error);
}

#[test]
fn no_transition_to_idle_before_the_readiness_message() {
    // Button events queued before readiness do not move the machine out
    // of Startup; only the readiness event does.
    let mut channel: BroadcastChannel<ButtonMessage> = BroadcastChannel::new(2, 3, 1);
    let mut machine = machine_on(&mut channel);
    let button = UserButton::new(vec![0], 300, 2000, &mut channel).unwrap();
    let message = button.press_message(0, 0, PressOutcome::Released(10)).unwrap();
    assert!(button.publish_press(&mut channel, message));
    assert!(button.publish_press(&mut channel, message));

    for _ in 0..5 {
        machine.tick(&mut channel);
        assert_ne!(machine.current_state(), State::Idle);
        assert_eq!(machine.current_state(), State::Startup);
    }
    machine.handle_event(Event::Ready);
    assert_eq!(machine.current_state(), State::Idle);
}

#[test]
fn polling_maps_each_press_type_to_its_event() {
    let mut channel: BroadcastChannel<ButtonMessage> = BroadcastChannel::new(4, 3, 1);
    let machine = machine_on(&mut channel);
    let button = UserButton::new(vec![0], 300, 2000, &mut channel).unwrap();

    assert_eq!(machine.get_current_event(&mut channel), Event::Nothing);

    let short = button.press_message(0, 0, PressOutcome::Released(100)).unwrap();
    let long = button.press_message(0, 0, PressOutcome::Released(500)).unwrap();
    let hold = button.press_message(0, 0, PressOutcome::HeldPastThreshold).unwrap();
    assert_eq!(short.press_type, PressType::ShortRelease);
    assert_eq!(long.press_type, PressType::LongRelease);
    assert_eq!(hold.press_type, PressType::LongHold);
    assert!(button.publish_press(&mut channel, short));
    assert!(button.publish_press(&mut channel, long));
    assert!(button.publish_press(&mut channel, hold));

    assert_eq!(machine.get_current_event(&mut channel), Event::ButtonPressShortRelease);
    assert_eq!(machine.get_current_event(&mut channel), Event::ButtonPressLongRelease);
    assert_eq!(machine.get_current_event(&mut channel), Event::ButtonPressLongHold);
    assert_eq!(machine.get_current_event(&mut channel), Event::Nothing);
}

#[test]
fn ticks_run_a_press_through_processing_and_back() {
    let mut channel: BroadcastChannel<ButtonMessage> = BroadcastChannel::new(2, 3, 1);
    let mut machine = machine_on(&mut channel);
    let button = UserButton::new(vec![0], 300, 2000, &mut channel).unwrap();
    machine.handle_event(Event::PowerOn);
    machine.handle_event(Event::Ready);

    let message = button.press_message(0, 0, PressOutcome::Released(100)).unwrap();
    assert!(button.publish_press(&mut channel, message));

    machine.tick(&mut channel);
    assert_eq!(machine.current_state(), State::Processing);
    machine.tick(&mut channel);
    assert_eq!(machine.current_state(), State::Idle);
    machine.tick(&mut channel);
    assert_eq!(machine.current_state(), State::Idle);
}

#[test]
fn machine_construction_respects_the_subscriber_limit() {
    let mut channel: BroadcastChannel<ButtonMessage> = BroadcastChannel::new(2, 1, 1);
    let first = machine_on(&mut channel);
    assert_eq!(first.subscription(), 0);
    match StateMachine::new(State::Startup, Event::Nothing, &mut channel) {
        Err(ChannelError::SubscriptionLimitExceeded) => {},
        _ => panic!("a second subscription must be refused"),
    }
}

#[test]
fn no_error_conditions_are_tracked() {
    let mut channel: BroadcastChannel<ButtonMessage> = BroadcastChannel::new(2, 3, 1);
    let machine = machine_on(&mut channel);
    assert!(!machine.check_for_errors());
    assert_eq!(machine.latest_event(), Event::Nothing);
}
