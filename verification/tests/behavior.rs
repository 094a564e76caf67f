use wade::app::{FRAME_MS, STALL_LIMIT_MS};
use wade::character::{
    blink_duration, blink_interval_max, blink_interval_min, double_blink_gap, Expression,
};
use wade::event::{Event, TouchPhase};
use wade::geometry::Point;
use wade::harness::Harness;
use wade::layout::wade_center;
use wade::time::Instant;

const SEED: u64 = 0x5EED_F00D;

fn ms(ms: u64) -> Instant {
    Instant::from_millis(ms)
}

/// A point on the Buddy screen well away from Wade and the apps button.
const OUTSIDE_WADE: (i32, i32) = (10, 10);

fn outside_wade() -> Point {
    Point::new(OUTSIDE_WADE.0, OUTSIDE_WADE.1)
}

#[test]
fn starts_on_buddy_neutral() {
    let h = Harness::new(SEED);
    assert_eq!(h.buddy().unwrap().expression, Expression::Neutral);
}

#[test]
fn tap_on_wade_makes_him_happy_for_two_seconds() {
    let mut h = Harness::new(SEED);
    assert!(h.tap(ms(1_000), wade_center()));
    assert_eq!(h.buddy().unwrap().expression, Expression::Happy);

    assert!(h.run_until(ms(2_999)));
    assert_eq!(h.buddy().unwrap().expression, Expression::Happy);

    assert!(h.run_until(ms(3_000)));
    assert_eq!(h.buddy().unwrap().expression, Expression::Neutral);
}

#[test]
fn second_tap_restarts_happy() {
    let mut h = Harness::new(SEED);
    assert!(h.tap(ms(1_000), wade_center()));
    assert!(h.tap(ms(2_500), wade_center()));

    assert!(h.run_until(ms(4_499)));
    assert_eq!(h.buddy().unwrap().expression, Expression::Happy);

    assert!(h.run_until(ms(4_500)));
    assert_eq!(h.buddy().unwrap().expression, Expression::Neutral);
}

#[test]
fn tap_outside_wade_does_nothing() {
    let mut h = Harness::new(SEED);
    assert!(h.tap(ms(1_000), outside_wade()));
    assert_eq!(h.buddy().unwrap().expression, Expression::Neutral);
}

#[test]
fn touch_that_moves_off_wade_is_not_a_tap() {
    let mut h = Harness::new(SEED);
    assert!(h.touch(ms(1_000), TouchPhase::Down, wade_center()));
    assert!(h.touch(ms(1_050), TouchPhase::Move, outside_wade()));
    assert!(h.touch(ms(1_100), TouchPhase::Up, outside_wade()));
    assert_eq!(h.buddy().unwrap().expression, Expression::Neutral);
}

#[test]
fn touch_that_moves_off_wade_and_back_is_not_a_tap() {
    let mut h = Harness::new(SEED);
    assert!(h.touch(ms(1_000), TouchPhase::Down, wade_center()));
    assert!(h.touch(ms(1_050), TouchPhase::Move, outside_wade()));
    assert!(h.touch(ms(1_100), TouchPhase::Move, wade_center()));
    assert!(h.touch(ms(1_150), TouchPhase::Up, wade_center()));
    assert_eq!(h.buddy().unwrap().expression, Expression::Neutral);
}

#[test]
fn touch_that_moves_within_wade_is_a_tap() {
    let mut h = Harness::new(SEED);
    let c = wade_center();
    assert!(h.touch(ms(1_000), TouchPhase::Down, c));
    assert!(h.touch(ms(1_050), TouchPhase::Move, Point::new(c.x + 10, c.y)));
    assert!(h.touch(ms(1_100), TouchPhase::Up, Point::new(c.x + 10, c.y)));
    assert_eq!(h.buddy().unwrap().expression, Expression::Happy);
}

#[test]
fn first_blink_starts_between_two_and_six_seconds_and_lasts_120_ms() {
    let mut h = Harness::new(SEED);
    let start = (0..=6_000)
        .map(ms)
        .find(|&t| {
            assert!(h.run_until(t));
            h.buddy().unwrap().blinking
        })
        .expect("no blink within 6 s");
    assert!(start >= ms(2_000), "first blink at {start:?}, before 2 s");

    let end = start + blink_duration();
    assert!(h.run_until(Instant::from_millis(end.as_millis() - 1)));
    assert!(h.buddy().unwrap().blinking, "blink ended before 120 ms");
    assert!(h.run_until(end));
    assert!(!h.buddy().unwrap().blinking, "blink lasted longer than 120 ms");
}

/// Deliver every requested deadline up to `t`, calling `seen` after each.
fn follow_deadlines(h: &mut Harness, t: Instant, mut seen: impl FnMut(&Harness, Instant)) {
    while let Some(d) = h.app().next_deadline().filter(|&d| d <= t) {
        h.handle(Event::deadline(d));
        seen(h, d);
    }
}

#[test]
fn blinks_are_two_to_six_seconds_apart_or_one_double() {
    let mut h = Harness::new(SEED);
    let mut starts = Vec::new();
    let mut was_blinking = false;
    follow_deadlines(&mut h, ms(300_000), |h, t| {
        let blinking = h.buddy().unwrap().blinking;
        if blinking && !was_blinking {
            starts.push(t);
        }
        was_blinking = blinking;
    });
    let double = blink_duration().checked_add(double_blink_gap()).unwrap();
    let gaps: Vec<_> = starts.windows(2).map(|w| w[1].saturating_since(w[0])).collect();
    for &gap in &gaps {
        assert!(
            gap == double || (blink_interval_min()..=blink_interval_max()).contains(&gap),
            "blinks {gap:?} apart"
        );
    }
    assert!(gaps.contains(&double), "no double blink in 5 minutes");
    assert!(!gaps.windows(2).any(|w| w == [double, double]), "three blinks in a row");
}

#[test]
fn a_stall_past_the_limit_applies_expiry_and_restarts_the_idle_schedule() {
    let mut h = Harness::new(SEED);
    assert!(h.tap(ms(1_000), wade_center()));
    let late = ms(1_000 + STALL_LIMIT_MS + STALL_LIMIT_MS);
    h.handle(Event::deadline(late));
    assert_eq!(h.buddy().unwrap().expression, Expression::Neutral);
    let next = h.app().next_deadline().expect("an idle schedule");
    assert!(
        next > late && next <= late + blink_interval_max(),
        "next deadline {next:?} after a stall ending at {late:?}"
    );
}

#[test]
fn a_still_wade_wakes_well_below_the_frame_rate() {
    // Animating without end would wake the device on every frame.
    let frame_rate = 1_000 / FRAME_MS;
    let mut h = Harness::new(SEED);
    assert!(h.run_until(ms(5_000)));
    let mut wakeups = 0;
    follow_deadlines(&mut h, ms(65_000), |_, _| wakeups += 1);
    let per_second = wakeups / 60;
    assert!(per_second <= 6, "{per_second} wakeups a second in Neutral (frames are {frame_rate})");
}

#[test]
fn the_number_keys_show_each_expression() {
    let mut h = Harness::new(SEED);
    for n in 0..10u8 {
        let key = wade::event::Key::Digit(wade::event::Digit::new(n).unwrap());
        assert!(h.key(ms(1_000 + 100 * n as u64), key));
        assert_eq!(Some(h.buddy().unwrap().expression), Expression::numbered(n));
    }
    assert_eq!(Expression::numbered(10), None);
}

#[test]
fn z_puts_wade_to_sleep_and_a_tap_wakes_him_happy() {
    let mut h = Harness::new(SEED);
    assert!(h.key(ms(1_000), wade::event::Key::Z));
    assert!(h.buddy().unwrap().asleep);
    assert!(h.run_until(ms(30_000)));
    assert!(h.buddy().unwrap().asleep);
    assert!(h.tap(ms(30_000), wade_center()));
    assert!(!h.buddy().unwrap().asleep);
    assert_eq!(h.buddy().unwrap().expression, Expression::Happy);
}
