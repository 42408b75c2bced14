use ez_input::event::{ABS_X, BTN_NORTH, BTN_SOUTH, EV_ABS, EV_KEY};
use ez_input::pump::{EventPump, Poll};
use ez_input::{EzEvent, RawEvent};

fn raw(event_type: u16, code: u16, value: i32) -> RawEvent {
    RawEvent { event_type, code, value }
}

#[test]
fn fresh_pump_is_starved() {
    let mut pump = EventPump::new();
    assert_eq!(pump.poll(), Poll::Starved);
    assert_eq!(pump.poll(), Poll::Starved);
}

#[test]
fn pump_gives_events_in_order() {
    let mut pump = EventPump::new();
    pump.supply(vec![raw(EV_KEY, BTN_SOUTH, 1), raw(EV_KEY, BTN_SOUTH, 0)]);
    assert_eq!(pump.poll(), Poll::Event(EzEvent::South(true)));
    assert_eq!(pump.poll(), Poll::Event(EzEvent::South(false)));
    assert_eq!(pump.poll(), Poll::Starved);
}

#[test]
fn unrecognized_code_keeps_the_consumer_waiting() {
    let mut pump = EventPump::new();
    pump.supply(vec![raw(EV_KEY, 0x2ff, 1)]);
    assert_eq!(pump.poll(), Poll::Starved);
    pump.supply(vec![raw(0, 0, 0), raw(EV_KEY, BTN_NORTH, 1)]);
    assert_eq!(pump.poll(), Poll::Event(EzEvent::North(true)));
}

#[test]
fn pump_keeps_debounce_state_across_batches() {
    let mut pump = EventPump::new();
    pump.supply(vec![raw(EV_ABS, ABS_X, 0), raw(EV_ABS, ABS_X, 25000)]);
    assert_eq!(pump.poll(), Poll::Event(EzEvent::DirectionRight));
    pump.supply(vec![raw(EV_ABS, ABS_X, 25000)]);
    assert_eq!(pump.poll(), Poll::Starved);
    pump.supply(vec![raw(EV_ABS, ABS_X, 0), raw(EV_ABS, ABS_X, -25000)]);
    assert_eq!(pump.poll(), Poll::Event(EzEvent::DirectionLeft));
    assert_eq!(pump.poll(), Poll::Starved);
}

#[test]
fn supply_queues_behind_pending_events() {
    let mut pump = EventPump::new();
    pump.supply(vec![raw(EV_KEY, BTN_SOUTH, 1), raw(EV_KEY, BTN_NORTH, 1)]);
    assert_eq!(pump.poll(), Poll::Event(EzEvent::South(true)));
    pump.supply(vec![raw(EV_KEY, BTN_SOUTH, 0)]);
    assert_eq!(pump.poll(), Poll::Event(EzEvent::North(true)));
    assert_eq!(pump.poll(), Poll::Event(EzEvent::South(false)));
    assert_eq!(pump.poll(), Poll::Starved);
}

#[test]
fn failed_pump_stays_failed() {
    let mut pump = EventPump::new();
    pump.supply(vec![raw(EV_KEY, BTN_SOUTH, 1)]);
    assert_eq!(pump.poll(), Poll::Event(EzEvent::South(true)));
    assert_eq!(pump.poll(), Poll::Starved);
    pump.fail();
    assert_eq!(pump.poll(), Poll::Failed);
    pump.supply(vec![raw(EV_KEY, BTN_SOUTH, 0)]);
    assert_eq!(pump.poll(), Poll::Failed);
}

#[test]
fn held_axis_stays_silent_across_batches() {
    let mut pump = EventPump::new();
    pump.supply(vec![raw(EV_ABS, ABS_X, -30000)]);
    assert_eq!(pump.poll(), Poll::Event(EzEvent::DirectionLeft));
    pump.supply(vec![raw(EV_ABS, ABS_X, -31000)]);
    assert_eq!(pump.poll(), Poll::Starved);
}
