use wade::event::TouchPhase;
use wade::geometry::Point;
use wade::input::TouchTracker;
use wade::layout::Target;

const INSIDE: (i32, i32) = (10, 10);
const ALSO_INSIDE: (i32, i32) = (20, 10);
const OUTSIDE: (i32, i32) = (200, 10);

fn hit(point: Point) -> Option<Target> {
    (point.x < 100).then_some(Target::Wade)
}

fn sample(tracker: &mut TouchTracker, phase: TouchPhase, (x, y): (i32, i32)) -> Option<Target> {
    tracker.handle(phase, hit(Point::new(x, y)))
}

#[test]
fn a_tap_fires_on_up_over_its_target() {
    let mut t = TouchTracker::new();
    assert_eq!(sample(&mut t, TouchPhase::Down, INSIDE), None);
    assert_eq!(t.pressed(), Some(Target::Wade));
    assert_eq!(sample(&mut t, TouchPhase::Move, ALSO_INSIDE), None);
    assert_eq!(sample(&mut t, TouchPhase::Up, ALSO_INSIDE), Some(Target::Wade));
    assert_eq!(t.pressed(), None);
}

#[test]
fn moving_off_the_target_cancels_the_tap_even_if_it_returns() {
    let mut t = TouchTracker::new();
    let _ = sample(&mut t, TouchPhase::Down, INSIDE);
    let _ = sample(&mut t, TouchPhase::Move, OUTSIDE);
    assert_eq!(t.pressed(), None);
    let _ = sample(&mut t, TouchPhase::Move, INSIDE);
    assert_eq!(sample(&mut t, TouchPhase::Up, INSIDE), None);
}

#[test]
fn up_away_from_the_target_is_not_a_tap() {
    let mut t = TouchTracker::new();
    let _ = sample(&mut t, TouchPhase::Down, INSIDE);
    assert_eq!(sample(&mut t, TouchPhase::Up, OUTSIDE), None);
}

#[test]
fn up_without_down_and_a_cancelled_press_do_nothing() {
    let mut t = TouchTracker::new();
    assert_eq!(sample(&mut t, TouchPhase::Up, INSIDE), None);
    let _ = sample(&mut t, TouchPhase::Down, INSIDE);
    t.cancel();
    assert_eq!(sample(&mut t, TouchPhase::Up, INSIDE), None);
}

#[test]
fn no_press_is_held_without_a_down() {
    let mut t = TouchTracker::default();
    for phase in [TouchPhase::Move, TouchPhase::Up, TouchPhase::Move] {
        let _ = sample(&mut t, phase, INSIDE);
        assert_eq!(t.pressed(), None);
    }
}
