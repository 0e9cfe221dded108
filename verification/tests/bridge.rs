use chibi::bridge::{carry_out, publish, was_queued, Delivery};
use chibi::config::ChibiConfig;
use chibi::detector::{Action, Detector};

#[test]
fn events_arrive_in_the_order_sent() {
    let (sender, receiver) = async_channel::unbounded::<bool>();
    for event in [true, false, false, true, true, false] {
        assert_eq!(publish(&sender, event), Delivery::Queued);
    }
    let mut seen = Vec::new();
    while let Ok(event) = receiver.try_recv() {
        seen.push(event);
    }
    assert_eq!(seen, vec![true, false, false, true, true, false]);
}

#[test]
fn a_dropped_receiver_does_not_stop_the_sender() {
    let (sender, receiver) = async_channel::unbounded::<bool>();
    drop(receiver);
    assert_eq!(publish(&sender, true), Delivery::Closed);
    assert_eq!(publish(&sender, false), Delivery::Closed);
    assert_eq!(carry_out(&sender, Action::Emit(true)), None);
}

#[test]
fn a_full_channel_drops_the_event() {
    let (sender, receiver) = async_channel::bounded::<bool>(2);
    assert_eq!(publish(&sender, true), Delivery::Queued);
    assert_eq!(publish(&sender, false), Delivery::Queued);
    assert_eq!(publish(&sender, true), Delivery::Full);
    assert_eq!(carry_out(&sender, Action::Emit(true)), None);
    assert_eq!(receiver.try_recv(), Ok(true));
    assert_eq!(receiver.try_recv(), Ok(false));
    assert!(receiver.try_recv().is_err());
    // Room again.
    assert_eq!(publish(&sender, true), Delivery::Queued);
    assert_eq!(receiver.try_recv(), Ok(true));
}

#[test]
fn only_a_queued_event_counts_as_queued() {
    assert!(was_queued(Delivery::Queued));
    assert!(!was_queued(Delivery::Full));
    assert!(!was_queued(Delivery::Closed));
}

#[test]
fn an_event_is_sent_and_a_pause_is_handed_back() {
    let (sender, receiver) = async_channel::unbounded::<bool>();
    assert_eq!(carry_out(&sender, Action::Emit(true)), None);
    assert_eq!(receiver.try_recv(), Ok(true));
    assert_eq!(carry_out(&sender, Action::Pause(55)), Some(55));
    assert!(receiver.try_recv().is_err());
    assert_eq!(carry_out(&sender, Action::Emit(false)), None);
    assert_eq!(receiver.try_recv(), Ok(false));
}

#[test]
fn a_flicker_pulse_reaches_the_receiver_as_true_then_false() {
    let (sender, receiver) = async_channel::unbounded::<bool>();
    let config = ChibiConfig {
        microphone_threshold: 12,
        deadband_factor: 30,
        flicker_input: true,
    };
    let mut detector = Detector::new(0);
    let mut pauses = 0;
    for _ in 0..3 {
        for action in detector.process(&[30000, 30000], &config).unwrap() {
            if carry_out(&sender, action).is_some() {
                pauses += 1;
            }
        }
    }
    assert_eq!(pauses, 3);
    let mut seen = Vec::new();
    while let Ok(event) = receiver.try_recv() {
        seen.push(event);
    }
    assert_eq!(seen, vec![true, false, true, false, true, false]);
}
