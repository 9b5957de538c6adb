use engine_core::gamepad::{hat_transition_events, DPad, DPadEvent, HatAxis, HatReading, HatTracker};

/// A `DPadX`/`DPadY` axis past this (in either direction) counts as held.
const HAT_THRESHOLD: f32 = 0.5;

fn reading(value: f32) -> HatReading {
    HatReading { negative: value <= -HAT_THRESHOLD, positive: value >= HAT_THRESHOLD }
}

fn events(pad: u32, hat: HatAxis, prev: f32, now: f32) -> Vec<DPadEvent> {
    hat_transition_events(pad, hat, reading(prev), reading(now))
}

#[test]
fn hat_transitions_press_and_release_only_on_crossings() {
    // Center → right: press right only
    assert_eq!(events(0, HatAxis::X, 0.0, 1.0), vec![DPadEvent::Pressed(0, DPad::Right)]);
    // Held right: nothing (no just-pressed retrigger)
    assert!(events(0, HatAxis::X, 1.0, 1.0).is_empty());
    // Right → center: release right only — never a phantom left release
    assert_eq!(events(0, HatAxis::X, 1.0, 0.0), vec![DPadEvent::Released(0, DPad::Right)]);
    // Right → left in one event: release right AND press left
    let swap = events(0, HatAxis::X, 1.0, -1.0);
    assert!(swap.contains(&DPadEvent::Pressed(0, DPad::Left)));
    assert!(swap.contains(&DPadEvent::Released(0, DPad::Right)));
    // Y axis: +1 = up
    assert_eq!(events(1, HatAxis::Y, 0.0, 1.0), vec![DPadEvent::Pressed(1, DPad::Up)]);
    assert_eq!(events(1, HatAxis::Y, 0.0, -1.0), vec![DPadEvent::Pressed(1, DPad::Down)]);
}

#[test]
fn negative_direction_is_reported_first() {
    let swap = events(3, HatAxis::Y, 1.0, -1.0);
    assert_eq!(swap, vec![DPadEvent::Pressed(3, DPad::Down), DPadEvent::Released(3, DPad::Up)]);
}

#[test]
fn out_and_back_releases_what_was_pressed() {
    let out = events(2, HatAxis::X, 0.0, -0.9);
    let back = events(2, HatAxis::X, -0.9, 0.0);
    assert_eq!(out, vec![DPadEvent::Pressed(2, DPad::Left)]);
    assert_eq!(back, vec![DPadEvent::Released(2, DPad::Left)]);
}

#[test]
fn tracker_reports_transitions_since_last_reading() {
    let mut tracker = HatTracker::new();
    assert_eq!(tracker.update(0, HatAxis::X, reading(1.0)), vec![DPadEvent::Pressed(0, DPad::Right)]);
    assert!(tracker.update(0, HatAxis::X, reading(0.8)).is_empty());
    // Another pad's hat starts centered and does not disturb pad 0.
    assert_eq!(tracker.update(1, HatAxis::X, reading(-1.0)), vec![DPadEvent::Pressed(1, DPad::Left)]);
    assert!(tracker.update(0, HatAxis::Y, reading(0.0)).is_empty());
    assert_eq!(tracker.update(0, HatAxis::X, reading(0.0)), vec![DPadEvent::Released(0, DPad::Right)]);
    assert!(HatTracker::default().update(4, HatAxis::Y, reading(0.2)).is_empty());
}
