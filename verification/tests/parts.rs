use wade::character::{Accent, Expression, Prop, Wade};
use wade::event::{Digit, Event, EventKind, Key, Touch, TouchPhase};
use wade::geometry::Point;
use wade::output::{Effect, Effects, Output, MAX_EFFECTS};
use wade::rng::Rng;
use wade::sound::{chime, Tone};
use wade::time::{Duration, Instant};
use wade::view::{ColorMode, EyeStyle};

#[test]
fn the_chime_is_a_rising_arpeggio_landing_on_a_held_note() {
    let tones = chime();
    let hz: Vec<u16> = tones.iter().map(|t| t.hz).collect();
    assert_eq!(hz, [784, 1047, 1319, 1568]);
    assert_eq!(tones[0].duration, Duration::from_millis(110));
    assert_eq!(tones[3].duration, Duration::from_millis(420));
    assert_eq!(Tone::new(440, 1_000), Tone { hz: 440, duration: Duration::from_secs(1) });
}

#[test]
fn digits_are_zero_to_nine() {
    assert_eq!(Digit::new(9).map(|d| d.get()), Some(9));
    assert_eq!(Digit::new(0).map(|d| d.get()), Some(0));
    assert!(Digit::new(10).is_none());
}

#[test]
fn events_carry_their_time_and_kind() {
    let at = Instant::from_millis(5);
    assert_eq!(Event::deadline(at), Event { at, kind: EventKind::Deadline });
    assert_eq!(Event::key(at, Key::Z), Event { at, kind: EventKind::Key(Key::Z) });
    let p = Point::new(1, 2);
    assert_eq!(
        Event::touch(at, TouchPhase::Up, p),
        Event { at, kind: EventKind::Touch(Touch { phase: TouchPhase::Up, point: p }) }
    );
}

#[test]
fn styles_toggle_between_their_two_values() {
    assert_eq!(EyeStyle::Pupils.toggled(), EyeStyle::Plain);
    assert_eq!(EyeStyle::Plain.toggled(), EyeStyle::Pupils);
    assert_eq!(ColorMode::Color.toggled(), ColorMode::Mono);
    assert_eq!(ColorMode::default(), ColorMode::Color);
    assert_eq!(EyeStyle::default(), EyeStyle::Pupils);
    assert_eq!(Prop::default(), Prop::Nothing);
    assert_eq!(Accent::default(), Accent::Nothing);
}

#[test]
fn effects_hold_at_most_four_and_hand_back_the_rest() {
    let mut effects = Effects::new();
    for _ in 0..MAX_EFFECTS {
        assert_eq!(effects.push(Effect::Chime), Ok(()));
    }
    assert_eq!(effects.push(Effect::Chime), Err(Effect::Chime));
    assert_eq!(effects.len(), MAX_EFFECTS);
    assert!(effects.contains(&Effect::Chime));
    assert!(!effects.contains(&Effect::SaveSettings(wade::settings::Settings::defaults())));
    let out = Output::default();
    assert_eq!(out.effects.len(), 0);
    assert!(!out.redraw);
}

#[test]
fn a_new_wade_is_neutral_awake_and_still() {
    let w = Wade::new(Instant::from_millis(0), 3);
    assert_eq!(w.expression(), Expression::Neutral);
    assert!(!w.asleep());
    assert!(!w.blinking());
    assert!(w.next_transition(true).is_some());
}

#[test]
fn a_tap_makes_wade_happy_until_two_seconds_later() {
    let mut w = Wade::new(Instant::from_millis(0), 3);
    assert!(w.on_tap(Instant::from_millis(1_000)));
    assert_eq!(w.expression(), Expression::Happy);
    let mut t = Instant::from_millis(1_000);
    while let Some(next) = w.next_transition(true).filter(|&n| n <= Instant::from_millis(3_000)) {
        t = next;
        let _ = w.advance(t, true);
    }
    assert_eq!(w.expression(), Expression::Neutral);
    assert!(t <= Instant::from_millis(3_000));
}

#[test]
fn a_proud_wade_after_a_dismissed_timer() {
    let mut w = Wade::new(Instant::from_millis(0), 3);
    let mut rng = Rng::new(1);
    w.timer_finished(Instant::from_millis(500));
    assert!(w.timer_dismissed(Instant::from_millis(600), &mut rng));
    assert_eq!(w.expression(), Expression::Proud);
}

#[test]
fn an_advance_past_several_blinks_schedules_after_it() {
    for visible in [true, false] {
        let mut w = wade::character::Wade::new(wade::time::Instant::from_millis(0), 1);
        let _ = w.advance(wade::time::Instant::from_millis(100_000), visible);
        let next = w.next_transition(visible).unwrap().as_millis();
        assert!(next > 100_000 && next <= 106_000, "{next}");
        assert!(!w.blinking());
    }
}
