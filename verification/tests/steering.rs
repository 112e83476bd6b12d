use breakout::control::{steer, Controls, Nudge};

fn idle() -> Controls {
    Controls {
        knob_present: false,
        knob_was_present: false,
        knob_moved: false,
        button_a: false,
        button_b: false,
        room_left: true,
        room_right: true,
    }
}

#[test]
fn idle_frame_keeps_control() {
    for active in [false, true] {
        let s = steer(active, &idle());
        assert_eq!(s.knob_active, active);
        assert_eq!(s.nudge, Nudge::Stay);
        assert!(!s.follow_knob);
    }
}

#[test]
fn turned_knob_takes_over() {
    let c = Controls { knob_present: true, knob_was_present: true, knob_moved: true, ..idle() };
    let s = steer(false, &c);
    assert!(s.knob_active && s.follow_knob);
    assert_eq!(s.nudge, Nudge::Stay);
}

#[test]
fn still_knob_gives_control_to_the_buttons() {
    let c = Controls { knob_present: true, knob_was_present: true, knob_moved: false, ..idle() };
    let s = steer(true, &c);
    assert!(!s.knob_active && !s.follow_knob);
}

#[test]
fn knob_read_once_keeps_control() {
    let c = Controls { knob_present: true, knob_was_present: false, knob_moved: false, ..idle() };
    let s = steer(true, &c);
    assert!(s.knob_active && s.follow_knob);
    let s = steer(false, &c);
    assert!(!s.knob_active && !s.follow_knob);
}

#[test]
fn button_without_knob_hands_over() {
    let c = Controls { button_a: true, ..idle() };
    let s = steer(true, &c);
    assert!(!s.knob_active);
    assert_eq!(s.nudge, Nudge::Left);
    let c = Controls { button_b: true, ..idle() };
    let s = steer(true, &c);
    assert!(!s.knob_active);
    assert_eq!(s.nudge, Nudge::Right);
}

#[test]
fn button_with_knob_keeps_knob() {
    let c = Controls { knob_present: true, button_a: true, ..idle() };
    let s = steer(true, &c);
    assert!(s.knob_active && s.follow_knob);
    assert_eq!(s.nudge, Nudge::Left);
}

#[test]
fn right_button_wins_and_edges_stop_the_paddle() {
    let c = Controls { button_a: true, button_b: true, ..idle() };
    assert_eq!(steer(false, &c).nudge, Nudge::Right);
    let c = Controls { button_a: true, button_b: true, room_right: false, ..idle() };
    assert_eq!(steer(false, &c).nudge, Nudge::Left);
    let c = Controls { button_a: true, room_left: false, ..idle() };
    assert_eq!(steer(false, &c).nudge, Nudge::Stay);
}
