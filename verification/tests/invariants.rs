use wade::app::{App, Screen, STALL_LIMIT_MS};
use wade::event::{Digit, Event, EventKind, Key, Touch, TouchPhase};
use wade::geometry::Point;
use wade::harness::{fnv1a, Harness};
use wade::layout;
use wade::output::Effect;
use wade::settings::Settings;
use wade::time::Instant;
use wade::timer::{TimerState, CHIMES, CHIME_INTERVAL_MS};

fn ms(ms: u64) -> Instant {
    Instant::from_millis(ms)
}

/// A small deterministic generator for event sequences.
struct Dice(u64);

impl Dice {
    fn roll(&mut self, n: u64) -> u64 {
        self.0 = self.0.wrapping_mul(6364136223846793005).wrapping_add(1442695040888963407);
        (self.0 >> 33) % n
    }
}

/// Anywhere on or just off the screen, or often the middle of a touch target.
fn point(d: &mut Dice) -> Point {
    let mut targets = vec![layout::wade_center(), layout::apps().center(), layout::back().center()];
    targets.extend(layout::timer_row().iter().map(|r| r.center()));
    targets.extend(layout::tiles().iter().map(|(_, r)| r.center()));
    if d.roll(3) == 0 {
        Point::new(d.roll(360) as i32 - 20, d.roll(280) as i32 - 20)
    } else {
        targets[d.roll(targets.len() as u64) as usize]
    }
}

fn kind(d: &mut Dice) -> EventKind {
    match d.roll(5) {
        0 => EventKind::Deadline,
        1 => EventKind::Key(match d.roll(3) {
            0 => Key::Digit(Digit::new(d.roll(10) as u8).unwrap()),
            1 => Key::Z,
            _ => Key::P,
        }),
        _ => {
            let phase = match d.roll(3) {
                0 => TouchPhase::Down,
                1 => TouchPhase::Move,
                _ => TouchPhase::Up,
            };
            EventKind::Touch(Touch { phase, point: point(d) })
        },
    }
}

/// Events with non-decreasing timestamps, mostly up to 3 s apart.
fn ordered_events(d: &mut Dice, n: usize) -> Vec<Event> {
    let mut t = 0;
    (0..n)
        .map(|_| {
            t += if d.roll(10) == 0 { d.roll(120_000) } else { d.roll(3_000) };
            Event { at: ms(t), kind: kind(d) }
        })
        .collect()
}

/// Deliver every deadline the app requests before `t`, each exactly on time.
fn deliver_deadlines(app: &mut App, t: Instant) {
    while let Some(d) = app.next_deadline() {
        if d >= t {
            break;
        }
        let _ = app.handle(Event::deadline(d));
    }
}

/// Deliver `event` as a punctual platform would.
fn deliver(app: &mut App, event: Event) {
    deliver_deadlines(app, event.at);
    let _ = app.handle(event);
}

/// A single deadline just short of the stall limit late replays the gap exactly.
#[test]
fn a_stall_within_the_limit_does_not_change_the_view() {
    let tap = Instant::from_millis(1_000);
    let late = ms(1_000 + STALL_LIMIT_MS);
    let mut punctual = App::new(Instant::from_millis(0), 7, Settings::defaults());
    let mut stalled = App::new(Instant::from_millis(0), 7, Settings::defaults());
    for app in [&mut punctual, &mut stalled] {
        deliver(app, Event::touch(tap, TouchPhase::Down, Point::new(160, 120)));
        deliver(app, Event::touch(tap, TouchPhase::Up, Point::new(160, 120)));
    }
    deliver(&mut punctual, Event::deadline(late));
    let _ = stalled.handle(Event::deadline(late));
    assert_eq!(punctual.view(), stalled.view());
}

#[test]
fn next_deadline_is_later_than_the_last_event() {
    for seed in 0..30 {
        let mut d = Dice(seed);
        let mut app = App::new(ms(0), seed, Settings::defaults());
        for event in ordered_events(&mut d, 200) {
            deliver(&mut app, event);
            if let Some(deadline) = app.next_deadline() {
                assert!(deadline > app.now(), "deadline {deadline:?} not after {:?}", app.now());
            }
        }
    }
}

#[test]
fn handle_never_panics_with_wild_timestamps() {
    for seed in 0..30 {
        let mut d = Dice(seed);
        let mut app = App::new(ms(d.roll(u64::MAX)), seed, Settings::defaults());
        for _ in 0..200 {
            let at = match d.roll(3) {
                0 => d.roll(u64::MAX),
                1 => d.roll(10_000),
                _ => u64::MAX - d.roll(10_000),
            };
            let before = app.now();
            let _ = app.handle(Event { at: ms(at), kind: kind(&mut d) });
            assert_eq!(app.now(), before.latest(ms(at)));
            if let Some(deadline) = app.next_deadline() {
                assert!(deadline > app.now());
            }
            let _ = app.view();
        }
    }
}

#[test]
fn extra_deadlines_do_not_change_the_view() {
    for seed in 0..20 {
        let mut d = Dice(seed + 100);
        let events = ordered_events(&mut d, 150);
        let mut plain = App::new(ms(0), seed, Settings::defaults());
        let mut noisy = App::new(ms(0), seed, Settings::defaults());
        for event in events {
            deliver(&mut plain, event);
            // A spurious wake somewhere before the event.
            let extra = event.at.as_millis().saturating_sub(d.roll(3_000));
            if extra >= noisy.now().as_millis() {
                deliver(&mut noisy, Event::deadline(ms(extra)));
            }
            deliver(&mut noisy, event);
            assert_eq!(plain.view(), noisy.view(), "at {:?}", event.at);
            assert_eq!(plain.timer_state(), noisy.timer_state());
        }
    }
}

#[test]
fn each_completion_rings_one_to_ten_chimes_on_the_interval() {
    for seed in 0..30 {
        let mut d = Dice(seed + 1_000);
        let mut h = Harness::new(seed);
        // Open the timer, shorten it to a minute and start it.
        assert!(h.tap(ms(100), layout::apps().center()));
        assert!(h.tap(ms(200), layout::tiles()[0].1.center()));
        for k in 0..4 {
            assert!(h.tap(ms(300 + k * 100), layout::timer_row()[0].center()));
        }
        assert!(h.tap(ms(1_000), layout::timer_row()[1].center()));
        let ends = 61_000;
        let mut rung: Vec<Instant> = Vec::new();
        let mut t = 1_000;
        while t < 100_000 {
            t += 1 + d.roll(700);
            let deadline = h.app().next_deadline();
            if let Some(dl) = deadline.filter(|&dl| dl <= ms(t)) {
                let out = h.handle(Event::deadline(dl));
                if out.effects.as_slice().contains(&Effect::Chime) {
                    rung.push(dl);
                }
            }
        }
        assert!(!rung.is_empty() && rung.len() <= CHIMES as usize);
        for (k, at) in rung.iter().enumerate() {
            assert_eq!(*at, ms(ends + CHIME_INTERVAL_MS * k as u64));
        }
        assert!(matches!(h.app().timer_state(), TimerState::Done { .. }));
    }
}

#[test]
fn a_pressed_target_always_belongs_to_the_screen_shown() {
    for seed in 0..30 {
        let mut d = Dice(seed + 2_000);
        let mut app = App::new(ms(0), seed, Settings::defaults());
        for event in ordered_events(&mut d, 200) {
            deliver(&mut app, event);
            let view = app.view();
            let pressed = match view {
                wade::view::View::Buddy(b) => {
                    if b.apps_pressed {
                        Some(layout::Target::Apps)
                    } else {
                        None
                    }
                },
                wade::view::View::Launcher(l) => l.pressed,
                wade::view::View::Timer(t) => t.pressed,
                wade::view::View::Settings(s) => s.pressed,
            };
            if let Some(target) = pressed {
                let ok = match app.screen() {
                    Screen::Buddy => matches!(target, layout::Target::Apps | layout::Target::Wade),
                    Screen::Launcher => matches!(target, layout::Target::Back | layout::Target::Tile(_)),
                    Screen::Timer => matches!(target, layout::Target::Back | layout::Target::Timer(_)),
                    Screen::Settings => {
                        matches!(target, layout::Target::Back | layout::Target::Settings(_))
                    },
                };
                assert!(ok, "{target:?} pressed on {:?}", app.screen());
            }
        }
    }
}

#[test]
fn without_redraw_the_view_stays_as_drawn() {
    for seed in 0..20 {
        let mut d = Dice(seed + 3_000);
        let mut app = App::new(ms(0), seed, Settings::defaults());
        let mut drawn = app.view();
        for event in ordered_events(&mut d, 150) {
            while let Some(dl) = app.next_deadline().filter(|&dl| dl < event.at) {
                if app.handle(Event::deadline(dl)).redraw {
                    drawn = app.view();
                }
                assert_eq!(app.view(), drawn, "view changed at {dl:?} without redraw");
            }
            if app.handle(event).redraw {
                drawn = app.view();
            }
            assert_eq!(app.view(), drawn, "view changed at {:?} without redraw", event.at);
        }
    }
}

#[test]
fn fnv1a_matches_its_published_values() {
    assert_eq!(fnv1a(b""), 0x811c_9dc5);
    assert_eq!(fnv1a(b"a"), 0xe40c_292c);
    assert_eq!(fnv1a(b"foobar"), 0xbf9c_f968);
}

#[test]
fn the_state_hash_changes_with_the_screen_and_the_expression() {
    let mut h = Harness::new(5);
    let start = h.state_hash();
    assert!(h.tap(ms(1_000), layout::wade_center()));
    let happy = h.state_hash();
    assert_ne!(start, happy);
    assert!(h.tap(ms(1_100), layout::apps().center()));
    assert_ne!(happy, h.state_hash());
    assert_eq!(Harness::new(5).state_hash(), start);
}
