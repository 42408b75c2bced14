use ez_input::event::{ABS_HAT0X, ABS_X, ABS_Y, ABS_Z, BTN_WEST, EV_ABS, EV_KEY};
use ez_input::fanin::{Debouncer, Sharing};
use ez_input::{EzEvent, RawEvent};

fn abs_event(code: u16, value: i32) -> RawEvent {
    RawEvent { event_type: EV_ABS, code, value }
}

#[test]
fn shared_state_suppresses_second_device() {
    let mut debouncer = Debouncer::shared();
    assert_eq!(debouncer.feed(1, abs_event(ABS_X, -30000)), Some(EzEvent::DirectionLeft));
    assert_eq!(debouncer.feed(2, abs_event(ABS_X, -30000)), None);
    assert_eq!(debouncer.feed(2, abs_event(ABS_HAT0X, -1)), None);
    assert_eq!(debouncer.feed(1, abs_event(ABS_X, -30000)), None);
}

#[test]
fn shared_state_is_cleared_by_any_device() {
    let mut debouncer = Debouncer::new(Sharing::Shared);
    assert_eq!(debouncer.feed(1, abs_event(ABS_X, 30000)), Some(EzEvent::DirectionRight));
    assert_eq!(debouncer.feed(2, abs_event(ABS_X, 0)), None);
    assert_eq!(debouncer.feed(1, abs_event(ABS_X, 30000)), Some(EzEvent::DirectionRight));
}

#[test]
fn per_device_state_keeps_devices_apart() {
    let mut debouncer = Debouncer::new(Sharing::PerDevice);
    assert_eq!(debouncer.feed(1, abs_event(ABS_X, -30000)), Some(EzEvent::DirectionLeft));
    assert_eq!(debouncer.feed(2, abs_event(ABS_X, -30000)), Some(EzEvent::DirectionLeft));
    assert_eq!(debouncer.feed(1, abs_event(ABS_X, -30000)), None);
    assert_eq!(debouncer.feed(2, abs_event(ABS_X, 0)), None);
    assert_eq!(debouncer.feed(1, abs_event(ABS_X, -25000)), None);
    assert_eq!(debouncer.feed(2, abs_event(ABS_X, -25000)), Some(EzEvent::DirectionLeft));
    assert_eq!(debouncer.feed(1, abs_event(ABS_Y, 25000)), Some(EzEvent::DirectionDown));
}

#[test]
fn buttons_and_triggers_pass_in_both_modes() {
    for &sharing in &[Sharing::Shared, Sharing::PerDevice] {
        let mut debouncer = Debouncer::new(sharing);
        let press = RawEvent { event_type: EV_KEY, code: BTN_WEST, value: 1 };
        assert_eq!(debouncer.feed(1, press), Some(EzEvent::West(true)));
        assert_eq!(debouncer.feed(2, press), Some(EzEvent::West(true)));
        assert_eq!(debouncer.feed(1, abs_event(ABS_Z, 12)), Some(EzEvent::L2(12)));
        assert_eq!(debouncer.feed(1, abs_event(ABS_Z, 12)), Some(EzEvent::L2(12)));
        assert_eq!(debouncer.feed(9, RawEvent { event_type: 0, code: 0, value: 0 }), None);
    }
}
