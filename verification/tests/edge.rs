use ez_input::adc;
use ez_input::EzEvent;

fn feed(samples: &[i32], threshold: i32, press: &mut bool) -> Vec<Option<EzEvent>> {
    let mut out = Vec::new();
    for &val in samples {
        out.push(adc(val, threshold, press, EzEvent::DirectionLeft, EzEvent::DirectionRight));
    }
    out
}

#[test]
fn pulse_on_entering_positive_region() {
    let mut press = false;
    let out = adc(20001, 20000, &mut press, EzEvent::DirectionLeft, EzEvent::DirectionRight);
    assert_eq!(out, Some(EzEvent::DirectionRight));
    assert!(press);
}

#[test]
fn pulse_on_entering_negative_region() {
    let mut press = false;
    let out = adc(-20001, 20000, &mut press, EzEvent::DirectionUp, EzEvent::DirectionDown);
    assert_eq!(out, Some(EzEvent::DirectionUp));
    assert!(press);
}

#[test]
fn value_at_threshold_is_centered() {
    let mut press = true;
    let out = adc(20000, 20000, &mut press, EzEvent::DirectionLeft, EzEvent::DirectionRight);
    assert_eq!(out, None);
    assert!(!press);
    let out = adc(-20000, 20000, &mut press, EzEvent::DirectionLeft, EzEvent::DirectionRight);
    assert_eq!(out, None);
    assert!(!press);
}

#[test]
fn held_axis_gives_no_second_pulse() {
    let mut press = false;
    let out = feed(&[30000, 30000, 30000, 25000], 20000, &mut press);
    assert_eq!(out, vec![Some(EzEvent::DirectionRight), None, None, None]);
    assert!(press);
}

#[test]
fn return_to_center_is_silent_and_rearms() {
    let mut press = false;
    let out = feed(&[-30000, 0, -30000], 20000, &mut press);
    assert_eq!(
        out,
        vec![Some(EzEvent::DirectionLeft), None, Some(EzEvent::DirectionLeft)]
    );
}

#[test]
fn pulses_only_at_transitions() {
    let samples = [0, 25000, 25000, 100, -25000, -32768, 19999, 20001, -20001];
    let mut press = false;
    let out = feed(&samples, 20000, &mut press);
    for i in 0..samples.len() {
        let now = samples[i].abs() > 20000;
        let before = i > 0 && samples[i - 1].abs() > 20000;
        assert_eq!(out[i].is_some(), now && !before, "sample {}", i);
    }
    assert!(press);
}

#[test]
fn swing_through_without_center_is_one_pulse() {
    let mut press = false;
    let out = feed(&[25000, -25000], 20000, &mut press);
    assert_eq!(out, vec![Some(EzEvent::DirectionRight), None]);
}

#[test]
fn hat_threshold_is_zero() {
    let mut press = false;
    let out = feed(&[0, 1, 1, 0, -1, 0], 0, &mut press);
    assert_eq!(
        out,
        vec![
            None,
            Some(EzEvent::DirectionRight),
            None,
            None,
            Some(EzEvent::DirectionLeft),
            None
        ]
    );
    assert!(!press);
}

#[test]
fn extreme_positions_do_not_overflow() {
    let mut press = false;
    let out = adc(i32::MIN, 20000, &mut press, EzEvent::DirectionLeft, EzEvent::DirectionRight);
    assert_eq!(out, Some(EzEvent::DirectionLeft));
    press = false;
    let out = adc(i32::MAX, i32::MAX, &mut press, EzEvent::DirectionLeft, EzEvent::DirectionRight);
    assert_eq!(out, None);
    assert!(!press);
    let out = adc(i32::MIN, i32::MAX, &mut press, EzEvent::DirectionLeft, EzEvent::DirectionRight);
    assert_eq!(out, Some(EzEvent::DirectionLeft));
}

#[test]
fn negative_threshold_deflects_everything() {
    let mut press = false;
    let out = adc(0, -1, &mut press, EzEvent::DirectionLeft, EzEvent::DirectionRight);
    assert_eq!(out, Some(EzEvent::DirectionLeft));
    assert!(press);
    press = false;
    let out = adc(5, i32::MIN, &mut press, EzEvent::DirectionLeft, EzEvent::DirectionRight);
    assert_eq!(out, Some(EzEvent::DirectionRight));
}

#[test]
fn same_value_twice_gives_nothing_the_second_time() {
    for &val in &[0, 20000, 20001, -20001, 32767, -32768] {
        for &start in &[false, true] {
            let mut press = start;
            adc(val, 20000, &mut press, EzEvent::DirectionLeft, EzEvent::DirectionRight);
            let after_first = press;
            let second = adc(val, 20000, &mut press, EzEvent::DirectionLeft, EzEvent::DirectionRight);
            assert_eq!(second, None);
            assert_eq!(press, after_first);
        }
    }
}
