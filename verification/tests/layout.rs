use wade::app::Screen;
use wade::geometry::{Point, Rectangle, Size};
use wade::layout::{
    self, apps, back, hit_buddy, hit_launcher, hit_settings, hit_timer, nav_corners, tiles,
    timer_row, wade_center, wade_face, Target, Tile, MIN_TARGET,
};
use wade::time::Instant;
use wade::timer::{TimerButton, TimerState};

/// A hit area on a screen, with a target that uses it, and the navigation
/// corner it owns, if any.
type HitArea = (Screen, Target, Rectangle, Option<Rectangle>);

/// Every hit area on every screen, taken from the layout's own tables.
fn hit_areas() -> Vec<HitArea> {
    let mut areas = vec![
        (Screen::Buddy, Target::Wade, wade_face(), None),
        (Screen::Buddy, Target::Apps, apps(), Some(apps())),
    ];
    for screen in [Screen::Launcher, Screen::Timer, Screen::Settings] {
        areas.push((screen, Target::Back, back(), Some(back())));
    }
    areas.extend(tiles().iter().map(|&(tile, area)| (Screen::Launcher, Target::Tile(tile), area, None)));
    let row = TimerState::new().row();
    areas.extend(timer_row().iter().zip(row).filter_map(|(&area, button)| {
        button.map(|b| (Screen::Timer, Target::Timer(b.button), area, None))
    }));
    areas
}

/// True if no pixel lies in both rectangles.
fn apart(a: Rectangle, b: Rectangle) -> bool {
    let (ax, ay) = (a.top_left.x as i64, a.top_left.y as i64);
    let (bx, by) = (b.top_left.x as i64, b.top_left.y as i64);
    ax + a.size.width as i64 <= bx
        || bx + b.size.width as i64 <= ax
        || ay + a.size.height as i64 <= by
        || by + b.size.height as i64 <= ay
}

#[test]
fn center_hits_wade_and_corner_does_not() {
    assert_eq!(hit_buddy(wade_center()), Some(Target::Wade));
    assert_eq!(hit_buddy(Point::new(2, 2)), None);
}

#[test]
fn each_navigation_button_hits_only_on_its_screen() {
    assert_eq!(hit_buddy(apps().center()), Some(Target::Apps));
    let timer = |p| hit_timer(p, TimerState::new().row());
    let hits: [&dyn Fn(Point) -> Option<Target>; 3] = [&hit_launcher, &hit_settings, &timer];
    for hit in hits {
        assert_eq!(hit(apps().center()), None);
        assert_eq!(hit(back().center()), Some(Target::Back));
    }
    assert_eq!(hit_buddy(back().center()), None);
}

#[test]
fn settings_takes_the_bottom_right_tile() {
    let last_slot = Rectangle::new(Point::new(168, 128), Size::new(88, 88));
    assert_eq!(tiles().last().map(|&(tile, _)| tile), Some(Tile::Settings));
    assert_eq!(tiles().last().map(|&(_, area)| area), Some(last_slot));
    for (tile, area) in tiles() {
        assert_eq!(hit_launcher(area.center()), Some(Target::Tile(tile)));
    }
}

#[test]
fn the_row_hits_only_enabled_buttons_in_filled_slots() {
    let mut timer = TimerState::new();
    let hit = |timer: TimerState, slot: usize| hit_timer(timer_row()[slot].center(), timer.row());
    assert_eq!(hit(timer, 0), Some(Target::Timer(TimerButton::Minus)));
    assert_eq!(hit(timer, 1), Some(Target::Timer(TimerButton::Start)));
    while timer.press(TimerButton::Minus, Instant::from_millis(0)) {}
    assert_eq!(hit(timer, 0), None, "a disabled −1m takes touches");
    assert!(timer.press(TimerButton::Start, Instant::from_millis(0)));
    assert_eq!(hit(timer, 0), None, "an empty slot takes touches");
    assert_eq!(hit(timer, 1), Some(Target::Timer(TimerButton::Pause)));
}

#[test]
fn touch_targets_are_large_enough_and_clear_of_the_corners() {
    for (_, target, area, owned) in hit_areas() {
        assert!(
            area.size.width >= 48 && area.size.height >= 48,
            "{target:?} is {:?} px",
            area.size
        );
        for corner in nav_corners() {
            assert!(
                owned == Some(corner) || apart(area, corner),
                "{target:?} overlaps the corner at {corner:?}"
            );
        }
    }
}

#[test]
fn touch_targets_on_one_screen_do_not_overlap() {
    let areas = hit_areas();
    for (i, &(screen, a, area, _)) in areas.iter().enumerate() {
        for &(other_screen, b, other, _) in &areas[i + 1..] {
            assert!(screen != other_screen || apart(area, other), "{a:?} overlaps {b:?}");
        }
    }
}

#[test]
fn every_hit_lands_inside_its_target() {
    let row = TimerState::new().row();
    for x in (-10..330).step_by(7) {
        for y in (-10..250).step_by(7) {
            let p = Point::new(x, y);
            if let Some(Target::Wade) = hit_buddy(p) {
                assert!(wade_face().contains(p));
            }
            if let Some(Target::Apps) = hit_buddy(p) {
                assert!(apps().contains(p));
            }
            if let Some(Target::Timer(_)) = hit_timer(p, row) {
                assert!(timer_row().iter().any(|r| r.contains(p)));
            }
            if hit_settings(p).is_some() {
                assert!(back().contains(p));
            }
        }
    }
}

#[test]
fn the_screen_and_its_minimum_target_size() {
    assert_eq!(layout::screen(), Rectangle::new(Point::zero(), Size::new(320, 240)));
    assert_eq!(MIN_TARGET, 48);
    assert_eq!(wade_face().center(), Point::new(159, 119));
    assert!(layout::screen().contains(layout::title().center()));
    assert!(apart(layout::timer_digits(), timer_row()[1]));
}
