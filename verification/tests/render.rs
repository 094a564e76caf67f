use wade::app::App;
use wade::event::Event;
use wade::geometry::{Point, Rectangle, Size};
use wade::layout::{self, Target, Tile};
use wade::platform::{due_deadline, wait_millis};
use wade::render::{
    apps_button, back_button, button, frame, glyph, icon_at, launcher_screen, numeral, time,
    timer_screen, Icon, Ink, Shape, BUTTON_LINE, BUTTON_RADIUS,
};
use wade::settings::Settings;
use wade::sound::{chime, Tone};
use wade::time::Instant;
use wade::timer::{Digits, TimerButton, TimerState};
use wade::view::{LauncherView, TimerView, View};

fn area(s: &Shape) -> Rectangle {
    match *s {
        Shape::Fill { area, .. } | Shape::Outline { area, .. } | Shape::Disc { area, .. } | Shape::Ring { area, .. } => area,
    }
}

fn inside(inner: Rectangle, outer: Rectangle) -> bool {
    let (ix, iy) = (inner.top_left.x as i64, inner.top_left.y as i64);
    let (ox, oy) = (outer.top_left.x as i64, outer.top_left.y as i64);
    ox <= ix
        && iy >= oy
        && ix + inner.size.width as i64 <= ox + outer.size.width as i64
        && iy + inner.size.height as i64 <= oy + outer.size.height as i64
}

fn screen() -> Rectangle {
    Rectangle::new(Point::zero(), Size::new(320, 240))
}

#[test]
fn the_seven_segments_of_each_numeral() {
    let expected = [0x3f, 0x06, 0x5b, 0x4f, 0x66, 0x6d, 0x7d, 0x07, 0x7f, 0x6f];
    for (n, &segments) in expected.iter().enumerate() {
        assert_eq!(numeral(n as u8), segments);
    }
}

#[test]
fn an_eight_lights_seven_pills_inside_its_box() {
    let mut shapes = Vec::new();
    glyph(&mut shapes, numeral(8), 100, 50);
    assert_eq!(shapes.len(), 7);
    let digit = Rectangle::new(Point::new(100, 50), Size::new(36, 64));
    assert!(shapes.iter().all(|s| inside(area(s), digit)));
    let mut one = Vec::new();
    glyph(&mut one, numeral(1), 0, 0);
    assert_eq!(one.len(), 2);
}

#[test]
fn the_time_is_four_digits_and_a_colon_in_the_band() {
    let shapes = time(Digits::new(88, 58));
    // 8, 8, 5 and 8 light 7, 7, 5 and 7 segments, and the colon has two dots.
    assert_eq!(shapes.len(), 7 + 7 + 5 + 7 + 2);
    assert!(shapes.iter().all(|s| inside(area(s), layout::timer_digits())));
    let dots: Vec<_> = shapes.iter().filter(|s| matches!(s, Shape::Disc { .. })).collect();
    assert_eq!(dots.len(), 2);
    assert_eq!(area(dots[0]), Rectangle::new(Point::new(156, 77), Size::new(8, 8)));
}

#[test]
fn buttons_are_drawn_on_their_hit_areas() {
    let slot = layout::timer_row()[1];
    let shapes = button(slot, Icon::Play, 1, true, false);
    assert_eq!(shapes[0], Shape::Outline { area: slot, radius: BUTTON_RADIUS, width: BUTTON_LINE, ink: Ink::Eye });
    assert!(shapes.iter().all(|s| inside(area(s), slot)));
    let pressed = button(slot, Icon::Play, 1, true, true);
    assert_eq!(pressed[1], Shape::Fill { area: slot, radius: BUTTON_RADIUS, ink: Ink::Eye });
    let dimmed = button(slot, Icon::Minus, 1, false, false);
    assert_eq!(dimmed[0], Shape::Outline { area: slot, radius: BUTTON_RADIUS, width: BUTTON_LINE, ink: Ink::Dim });
}

#[test]
fn icons_sit_inside_their_areas_at_both_scales() {
    for icon in [
        Icon::Stopwatch,
        Icon::Gear,
        Icon::Apps,
        Icon::Minus,
        Icon::Plus,
        Icon::Play,
        Icon::Pause,
        Icon::Stop,
        Icon::Check,
    ] {
        for (tile, scale) in [(layout::back(), 1), (layout::tiles()[0].1, 2)] {
            let shapes = icon_at(icon, tile, scale, Ink::Eye);
            assert!(!shapes.is_empty());
            assert!(shapes.iter().all(|s| inside(area(s), tile)), "{icon:?}");
        }
    }
}

#[test]
fn navigation_buttons_invert_while_pressed() {
    assert!(back_button(true).contains(&Shape::Disc {
        area: Rectangle::new(Point::new(4, 4), Size::new(40, 40)),
        ink: Ink::Eye
    }));
    assert!(!back_button(false).iter().any(|s| matches!(s, Shape::Disc { .. })));
    assert_eq!(back_button(false).len(), 16);
    assert!(apps_button(true).contains(&Shape::Disc {
        area: Rectangle::new(Point::new(276, 196), Size::new(40, 40)),
        ink: Ink::Eye
    }));
}

#[test]
fn every_frame_stays_on_the_screen() {
    let mut app = App::new(Instant::from_millis(0), 9, Settings::defaults());
    for t in [0, 1_000, 2_000] {
        let _ = app.handle(Event::deadline(Instant::from_millis(t)));
        assert!(frame(&app.view()).iter().all(|s| inside(area(s), screen())));
    }
    for state in [
        TimerState::new(),
        TimerState::Running { set: wade::timer::min_set(), ends_at: Instant::from_millis(60_000) },
    ] {
        let view = TimerView { phase: state.phase(), digits: state.digits(Instant::from_millis(0)), row: state.row(), pressed: Some(Target::Timer(TimerButton::Start)) };
        let shapes = timer_screen(view);
        assert!(shapes.iter().all(|s| inside(area(s), screen())));
        assert!(frame(&View::Timer(view)).len() == shapes.len());
    }
    let launcher = launcher_screen(LauncherView { pressed: Some(Target::Tile(Tile::Settings)) });
    assert!(launcher.iter().all(|s| inside(area(s), screen())));
    let (_, settings_tile) = layout::tiles()[1];
    assert!(launcher.contains(&Shape::Fill { area: settings_tile, radius: BUTTON_RADIUS, ink: Ink::Eye }));
}

#[test]
fn a_platform_wakes_only_once_a_deadline_has_come() {
    let app = App::new(Instant::from_millis(0), 9, Settings::defaults());
    let next = app.next_deadline().expect("the eyes are opening");
    assert_eq!(due_deadline(&app, Instant::from_millis(0)), None);
    assert_eq!(due_deadline(&app, next), Some(Event::deadline(next)));
    assert_eq!(wait_millis(&app, Instant::from_millis(0), 10_000), next.as_millis());
    assert_eq!(wait_millis(&app, Instant::from_millis(0), 10), 10.min(next.as_millis()));
    assert_eq!(wait_millis(&app, next, 10), 0);
}

#[test]
fn a_second_of_tone_is_a_second_of_samples() {
    assert_eq!(Tone::new(440, 1_000).sample_count(44_100), 44_100);
    let total: u64 = chime().iter().map(|t| t.sample_count(44_100)).sum();
    // 110 + 110 + 110 + 420 ms.
    assert_eq!(total, 4_851 * 3 + 18_522);
}
