use breakout::beep::{Beeper, Tick, BEEP_LENGTH, BEEP_PERIOD};

#[test]
fn new_beeper_is_silent_and_low() {
    let mut b = Beeper::new();
    assert!(!b.pin_high());
    assert_eq!(b.note_time(), 0);
    assert_eq!(b.tick(), Tick::Silence);
    assert_eq!(b.note_time(), 0);
    assert!(!b.pin_high());
}

#[test]
fn start_sets_a_full_beep() {
    let mut b = Beeper::new();
    assert_eq!(b.start(), 1000);
    assert_eq!(BEEP_PERIOD / 2, 1000);
    assert_eq!(b.note_time(), 40);
    assert_eq!(BEEP_LENGTH, 40);
}

#[test]
fn beep_toggles_forty_times_then_stops() {
    let mut b = Beeper::new();
    b.start();
    let mut level = false;
    for i in 0..40u32 {
        level = !level;
        assert_eq!(b.tick(), Tick::Toggle { high: level, restart: 1000 });
        assert_eq!(b.note_time(), 39 - i);
    }
    assert!(!b.pin_high());
    assert_eq!(b.tick(), Tick::Silence);
    assert_eq!(b.tick(), Tick::Silence);
    assert!(!b.pin_high());
}

#[test]
fn restarting_mid_beep_gives_a_full_beep() {
    let mut b = Beeper::new();
    b.start();
    for _ in 0..7 {
        b.tick();
    }
    assert!(b.pin_high());
    b.start();
    assert_eq!(b.note_time(), 40);
    let mut toggles = 0;
    while let Tick::Toggle { .. } = b.tick() {
        toggles += 1;
    }
    assert_eq!(toggles, 40);
    assert!(b.pin_high());
}
