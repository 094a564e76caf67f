use wade::app::{Screen, FRAME_MS, STALL_LIMIT_MS};
use wade::character::Expression;
use wade::event::{Digit, Event, Key, TouchPhase};
use wade::geometry::Point;
use wade::harness::Harness;
use wade::layout::{self, wade_center, Target, Tile};
use wade::time::{Duration, Instant};

const SEED: u64 = 0x5EED_F00D;

fn ms(ms: u64) -> Instant {
    Instant::from_millis(ms)
}

fn digit(n: u8) -> Key {
    Key::Digit(Digit::new(n).expect("a digit is 0–9"))
}

fn apps() -> Point {
    layout::apps().center()
}

fn back() -> Point {
    layout::back().center()
}

fn tile(tile: Tile) -> Point {
    let (_, area) = layout::tiles()
        .into_iter()
        .find(|&(t, _)| t == tile)
        .expect("every app has a tile");
    area.center()
}

#[test]
fn apps_opens_the_launcher_whose_tiles_open_the_apps() {
    let mut h = Harness::new(SEED);
    assert!(h.tap(ms(1_000), apps()));
    assert_eq!(h.app().screen(), Screen::Launcher);
    assert!(h.tap(ms(1_500), tile(Tile::Timer)));
    assert_eq!(h.app().screen(), Screen::Timer);
    assert!(h.tap(ms(2_000), back()));
    assert_eq!(h.app().screen(), Screen::Launcher);
    assert!(h.tap(ms(2_500), tile(Tile::Settings)));
    assert_eq!(h.app().screen(), Screen::Settings);
    assert!(h.tap(ms(3_000), back()));
    assert!(h.tap(ms(3_500), back()));
    assert_eq!(h.app().screen(), Screen::Buddy);
}

#[test]
fn a_touch_that_leaves_the_apps_button_does_not_open_the_timer() {
    let mut h = Harness::new(SEED);
    assert!(h.touch(ms(1_000), TouchPhase::Down, apps()));
    assert!(h.buddy().unwrap().apps_pressed);
    let a = apps();
    assert!(h.touch(ms(1_050), TouchPhase::Move, Point::new(a.x - 40, a.y)));
    assert!(!h.buddy().unwrap().apps_pressed);
    assert!(h.touch(ms(1_100), TouchPhase::Up, apps()));
    assert_eq!(h.app().screen(), Screen::Buddy);
}

#[test]
fn back_shows_pressed_while_the_touch_stays_on_it() {
    let mut h = Harness::new(SEED);
    assert!(h.tap(ms(1_000), apps()));
    assert!(h.handle(Event::touch(ms(2_000), TouchPhase::Down, back())).redraw);
    assert_eq!(h.launcher().unwrap().pressed, Some(Target::Back));
    assert!(h.handle(Event::touch(ms(2_050), TouchPhase::Move, wade_center())).redraw);
    assert_eq!(h.launcher().unwrap().pressed, None);
}

#[test]
fn wade_ignores_taps_and_keys_on_the_timer_screen() {
    let mut h = Harness::new(SEED);
    assert!(h.tap(ms(1_000), apps()));
    assert!(h.tap(ms(2_000), wade_center()));
    assert!(h.key(ms(3_000), digit(3)));
    assert!(h.key(ms(4_000), Key::Z));
    assert!(h.tap(ms(5_000), back()));
    assert_eq!(h.buddy().unwrap().expression, Expression::Neutral);
    assert!(!h.buddy().unwrap().asleep);
}

#[test]
fn hidden_wade_requests_no_deadlines_and_never_redraws() {
    let mut h = Harness::new(SEED);
    // Happy expires, and blinks fall due, while he is hidden.
    assert!(h.tap(ms(1_000), wade_center()));
    assert!(h.tap(ms(1_500), apps()));
    assert_eq!(h.app().next_deadline(), None);
    for t in (1_550..=30_000).step_by(50) {
        let out = h.handle(Event::deadline(ms(t)));
        assert!(!out.redraw, "redraw at {t} ms");
        assert_eq!(h.app().next_deadline(), None, "deadline requested at {t} ms");
    }
    assert!(h.tap(ms(30_000), back()));
    assert_eq!(h.buddy().unwrap().expression, Expression::Neutral);
}

#[test]
fn wade_returns_without_a_burst_of_catch_up_motion() {
    let mut h = Harness::new(SEED);
    assert!(h.tap(ms(1_000), apps()));
    assert!(h.tap(ms(21_000), back()));
    assert!(!h.buddy().unwrap().blinking);
    assert_ne!(h.app().next_deadline(), Some(ms(21_000 + FRAME_MS)), "moving on return");
}

#[test]
fn a_sleeping_wade_resumes_breathing_on_return() {
    let mut h = Harness::new(SEED);
    assert!(h.key(ms(1_000), Key::Z));
    assert!(h.tap(ms(3_000), apps()));
    assert!(h.tap(ms(20_000), back()));
    let next = h.app().next_deadline().expect("breathing steps");
    assert!(next > ms(20_000) && next <= ms(20_150), "next step at {next:?}");
    assert!(h.run_until(ms(30_000)));
    assert!(h.buddy().unwrap().asleep);
}

#[test]
fn a_wake_inside_a_long_hidden_gap_changes_no_discrete_state() {
    // Hidden, Wade requests no deadlines, so another screen can sit for over
    // the stall limit with no event. An extra wake inside that gap decides
    // whether he replays his idle schedule or restarts it. Only motion may differ.
    let session = |extra_wake: bool| {
        let mut h = Harness::new(SEED);
        assert!(h.tap(ms(1_000), wade_center()));
        assert!(h.tap(ms(1_500), apps()));
        if extra_wake {
            h.handle(Event::deadline(ms(1_500 + STALL_LIMIT_MS)));
        }
        let back_at = ms(1_500 + STALL_LIMIT_MS + STALL_LIMIT_MS);
        assert!(h.tap(back_at, back()));
        let mut hashes = vec![h.state_hash()];
        for s in 1..=30 {
            assert!(h.run_until(back_at + Duration::from_secs(s)));
            hashes.push(h.state_hash());
        }
        // His motion schedule, which the view's pose is drawn from.
        (hashes, format!("{:?}", h.app().wade()))
    };
    let (replayed, replayed_motion) = session(true);
    let (restarted, restarted_motion) = session(false);
    assert_eq!(replayed, restarted);
    assert_ne!(replayed_motion, restarted_motion, "the gap no longer restarts his motion");
}
