use wade::time::{Duration, Instant};
use wade::timer::{
    chime_at, chime_interval, default_set, longer, max_set, min_set, shorter, Chime, Digits,
    TimerButton, TimerPhase, TimerState, CHIMES, CHIME_INTERVAL_MS,
};

fn ms(ms: u64) -> Instant {
    Instant::from_millis(ms)
}

fn running(ends_at: u64) -> TimerState {
    TimerState::Running { set: default_set(), ends_at: ms(ends_at) }
}

/// Advance `timer` through every transition up to `until`, collecting each
/// chime with its time.
fn run(timer: &mut TimerState, until: Instant) -> Vec<(Instant, Chime)> {
    let mut chimes = Vec::new();
    while let Some(t) = timer.next_transition().filter(|&t| t <= until) {
        chimes.extend(timer.advance(t).map(|chime| (t, chime)));
    }
    chimes
}

#[test]
fn starts_ready_at_five_minutes() {
    let timer = TimerState::new();
    assert_eq!(timer, TimerState::Ready { set: default_set() });
    assert_eq!(timer.digits(ms(0)).to_string(), "05:00");
}

#[test]
fn start_runs_until_now_plus_set() {
    let mut timer = TimerState::new();
    assert!(timer.press(TimerButton::Start, ms(1_000)));
    assert_eq!(timer, running(301_000));
}

#[test]
fn digits_round_up_to_whole_seconds() {
    let timer = running(300_000);
    assert_eq!(timer.digits(ms(999)).to_string(), "05:00");
    assert_eq!(timer.digits(ms(1_000)).to_string(), "04:59");
    assert_eq!(timer.digits(ms(299_500)).to_string(), "00:01");
    assert_eq!(timer.digits(ms(300_000)).to_string(), "00:00");
    assert_eq!(Digits::rounding_up(Duration::from_nanos(1)).to_string(), "00:01");
    assert_eq!(Digits::rounding_up(Duration::from_hours(3)).to_string(), "99:59");
    assert_eq!(Digits::new(250, 250), Digits::new(99, 59));
}

#[test]
fn digits_tick_on_seconds_counted_back_from_the_end() {
    let timer = running(10_250);
    assert_eq!(timer.next_tick(ms(0)), Some(ms(250)));
    assert_eq!(timer.next_tick(ms(250)), Some(ms(1_250)));
    assert_eq!(timer.next_tick(ms(9_300)), Some(ms(10_250)));
    assert_eq!(timer.next_tick(ms(10_250)), None);
    assert_eq!(TimerState::new().next_tick(ms(0)), None);
}

#[test]
fn pause_and_resume_keep_the_time_left() {
    let mut timer = running(300_000);
    assert!(timer.press(TimerButton::Pause, ms(100_400)));
    assert_eq!(
        timer,
        TimerState::Paused { set: default_set(), remaining: Duration::from_millis(199_600) }
    );
    assert_eq!(timer.digits(ms(500_000)).to_string(), "03:20");
    assert_eq!(timer.next_transition(), None);
    assert!(timer.press(TimerButton::Resume, ms(500_000)));
    assert_eq!(timer, running(699_600));
}

#[test]
fn pause_does_nothing_once_the_end_is_reached() {
    let mut timer = running(300_000);
    assert!(!timer.press(TimerButton::Pause, ms(300_000)));
    assert_eq!(timer, running(300_000));
}

#[test]
fn reset_and_dismiss_keep_the_duration() {
    let set = Duration::from_mins(3);
    let mut paused = TimerState::Paused { set, remaining: Duration::from_secs(20) };
    assert!(paused.press(TimerButton::Reset, ms(0)));
    assert_eq!(paused, TimerState::Ready { set });
    let mut done = TimerState::Done { set, since: ms(0), chimes: 3 };
    assert!(done.press(TimerButton::Dismiss, ms(25_000)));
    assert_eq!(done, TimerState::Ready { set });
}

#[test]
fn minus_and_plus_stop_at_one_and_ninety_nine_minutes() {
    let mut timer = TimerState::Ready { set: min_set() };
    assert_eq!(timer.row()[0].map(|b| b.enabled), Some(false));
    assert!(!timer.press(TimerButton::Minus, ms(0)));
    assert_eq!(timer.duration(), min_set());
    assert!(timer.press(TimerButton::Plus, ms(0)));
    assert_eq!(timer.duration(), Duration::from_mins(2));

    let mut timer = TimerState::Ready { set: max_set() };
    assert_eq!(timer.row()[2].map(|b| b.enabled), Some(false));
    assert!(!timer.press(TimerButton::Plus, ms(0)));
    assert_eq!(timer.digits(ms(0)).to_string(), "99:00");
    assert!(timer.press(TimerButton::Minus, ms(0)));
    assert_eq!(timer.duration(), Duration::from_mins(98));
}

#[test]
fn buttons_outside_the_row_do_nothing() {
    let mut timer = running(300_000);
    for button in [
        TimerButton::Minus,
        TimerButton::Plus,
        TimerButton::Start,
        TimerButton::Resume,
        TimerButton::Reset,
        TimerButton::Dismiss,
    ] {
        assert!(!timer.press(button, ms(0)), "{button:?} acted while Running");
    }
    assert_eq!(timer, running(300_000));
}

#[test]
fn each_state_has_its_row() {
    let buttons = |timer: TimerState| timer.row().map(|slot| slot.map(|b| b.button));
    assert_eq!(buttons(TimerState::new()), [Some(TimerButton::Minus), Some(TimerButton::Start), Some(TimerButton::Plus)]);
    assert_eq!(buttons(running(1)), [None, Some(TimerButton::Pause), None]);
    let paused = TimerState::Paused { set: min_set(), remaining: min_set() };
    assert_eq!(buttons(paused), [Some(TimerButton::Reset), Some(TimerButton::Resume), None]);
    let done = TimerState::Done { set: min_set(), since: ms(0), chimes: 1 };
    assert_eq!(buttons(done), [None, Some(TimerButton::Dismiss), None]);
}

#[test]
fn finishing_chimes_ten_times_an_interval_apart() {
    let mut timer = running(60_000);
    let chimes = run(&mut timer, ms(1_000_000));
    let expected: Vec<_> = (0..10u64)
        .map(|k| {
            let chime = if k == 0 { Chime::First } else { Chime::Repeat };
            (ms(60_000 + CHIME_INTERVAL_MS * k), chime)
        })
        .collect();
    assert_eq!(chimes, expected);
    assert_eq!(timer, TimerState::Done { set: default_set(), since: ms(60_000), chimes: CHIMES });
    assert_eq!(timer.next_transition(), None);
}

#[test]
fn a_late_advance_finishes_at_the_end_and_rings_once() {
    let mut timer = running(60_000);
    let late = ms(60_000 + CHIME_INTERVAL_MS * 2 + CHIME_INTERVAL_MS / 2);
    assert_eq!(timer.advance(late), Some(Chime::First));
    assert_eq!(timer, TimerState::Done { set: default_set(), since: ms(60_000), chimes: 3 });
    assert_eq!(timer.next_transition(), Some(ms(60_000 + CHIME_INTERVAL_MS * 3)));
    assert_eq!(timer.advance(late), None);
}

#[test]
fn deadlines_for_each_state() {
    assert_eq!(TimerState::new().next_transition(), None);
    assert_eq!(running(5_000).next_transition(), Some(ms(5_000)));
    let paused = TimerState::Paused { set: min_set(), remaining: min_set() };
    assert_eq!(paused.next_transition(), None);
    let done = |chimes| TimerState::Done { set: min_set(), since: ms(1_000), chimes };
    assert_eq!(done(1).next_transition(), Some(ms(1_000 + CHIME_INTERVAL_MS)));
    assert_eq!(done(9).next_transition(), Some(ms(1_000 + CHIME_INTERVAL_MS * 9)));
    assert_eq!(done(10).next_transition(), None);
}

#[test]
fn a_timer_started_at_the_end_of_time_still_finishes() {
    let mut timer = TimerState::new();
    assert!(timer.press(TimerButton::Start, Instant::max_value()));
    assert_eq!(timer.next_transition(), Some(Instant::max_value()));
    assert_eq!(timer.next_tick(Instant::max_value()), None);
    assert_eq!(timer.advance(Instant::max_value()), Some(Chime::First));
    assert_eq!(timer.next_transition(), None);
}

#[test]
fn the_interval_and_bounds_are_as_documented() {
    assert_eq!(chime_interval(), Duration::from_secs(2));
    assert_eq!(min_set(), Duration::from_mins(1));
    assert_eq!(max_set(), Duration::from_mins(99));
    assert_eq!(default_set(), Duration::from_mins(5));
    assert_eq!(chime_at(ms(1_000), 3), ms(7_000));
    assert_eq!(chime_at(Instant::max_value(), 9), Instant::max_value());
    assert_eq!(shorter(min_set()), None);
    assert_eq!(longer(max_set()), None);
    assert_eq!(shorter(default_set()), Some(Duration::from_mins(4)));
    assert_eq!(longer(default_set()), Some(Duration::from_mins(6)));
}

#[test]
fn phases_and_time_left_in_each_state() {
    assert_eq!(TimerState::new().phase(), TimerPhase::Ready);
    assert_eq!(running(9_000).phase(), TimerPhase::Running);
    assert_eq!(running(9_000).remaining(ms(4_000)), Duration::from_secs(5));
    assert_eq!(running(9_000).remaining(ms(10_000)), Duration::zero());
    let done = TimerState::Done { set: min_set(), since: ms(0), chimes: 1 };
    assert_eq!(done.phase(), TimerPhase::Done);
    assert_eq!(done.remaining(ms(0)), Duration::zero());
    assert_eq!(done.digits(ms(0)), Digits::new(0, 0));
    assert_eq!(Digits::new(4, 2).minutes(), 4);
    assert_eq!(Digits::new(4, 2).seconds(), 2);
    assert_eq!(TimerState::default(), TimerState::new());
}

#[test]
fn a_late_advance_past_every_chime_rings_once_and_stops() {
    let mut timer = running(60_000);
    assert_eq!(timer.advance(ms(10_000_000)), Some(Chime::First));
    assert_eq!(timer, TimerState::Done { set: default_set(), since: ms(60_000), chimes: CHIMES });
    assert_eq!(timer.next_transition(), None);
    let mut dismissed = timer;
    assert!(dismissed.press(TimerButton::Dismiss, ms(10_000_000)));
    assert_eq!(dismissed.advance(ms(20_000_000)), None);
}
