//! The countdown timer: `TimerState` and its transitions.

use vstd::prelude::*;

use crate::time::{
    at, later, millis, opt_ms, span, Duration, Instant, MILLIS_PER_SEC, NANOS_PER_MILLI,
    NANOS_PER_SEC, SECS_PER_MIN,
};

verus! {

broadcast use crate::time::group_time;

/// The shortest duration that can be set, in minutes.
pub const MIN_SET_MINS: u64 = 1;
/// The longest duration that can be set, in minutes.
pub const MAX_SET_MINS: u64 = 99;
/// How much −1m and +1m change the duration, in minutes.
pub const STEP_MINS: u64 = 1;
/// The duration a new timer starts with, in minutes.
pub const DEFAULT_SET_MINS: u64 = 5;
/// While Done, the chime repeats this often, in milliseconds.
pub const CHIME_INTERVAL_MS: u64 = 2_000;
/// How many chimes play once the timer finishes, counting the first.
pub const CHIMES: u8 = 10;
/// The most the digits show: 99:59, in seconds.
pub const MAX_SHOWN_SECS: u64 = 5_999;

/// A minute in nanoseconds.
pub open spec fn minute() -> nat {
    SECS_PER_MIN as nat * NANOS_PER_SEC as nat
}

/// The shortest duration that can be set.
pub fn min_set() -> (d: Duration)
    ensures
        d@ == MIN_SET_MINS * minute(),
{
    Duration::from_mins(MIN_SET_MINS)
}

/// The longest duration that can be set.
pub fn max_set() -> (d: Duration)
    ensures
        d@ == MAX_SET_MINS * minute(),
{
    Duration::from_mins(MAX_SET_MINS)
}

/// How much −1m and +1m change the duration.
pub fn step() -> (d: Duration)
    ensures
        d@ == STEP_MINS * minute(),
{
    Duration::from_mins(STEP_MINS)
}

/// The duration a new timer starts with.
pub fn default_set() -> (d: Duration)
    ensures
        d@ == DEFAULT_SET_MINS * minute(),
{
    Duration::from_mins(DEFAULT_SET_MINS)
}

/// While Done, the chime repeats this often.
pub fn chime_interval() -> (d: Duration)
    ensures
        d@ == CHIME_INTERVAL_MS * NANOS_PER_MILLI,
{
    Duration::from_millis(CHIME_INTERVAL_MS)
}

/// The timer. `set`, the chosen duration, is kept in every state so that Reset
/// and Dismiss return to Ready with it.
#[derive(Clone, Copy, Debug, PartialEq, Eq, Structural, Hash)]
pub enum TimerState {
    Ready { set: Duration },
    Running { set: Duration, ends_at: Instant },
    Paused { set: Duration, remaining: Duration },
    /// Finished at `since`. `chimes` counts the chimes that have fallen due;
    /// they fall at `since`, `since` plus one interval, and so on.
    Done { set: Duration, since: Instant, chimes: u8 },
}

/// Which state the timer is in, without its times.
#[derive(Clone, Copy, Debug, PartialEq, Eq, Structural, Hash)]
pub enum TimerPhase {
    Ready,
    Running,
    Paused,
    Done,
}

/// A button in the Timer screen's row.
#[derive(Clone, Copy, Debug, PartialEq, Eq, Structural, Hash)]
pub enum TimerButton {
    Minus,
    Plus,
    Start,
    Pause,
    Resume,
    Reset,
    Dismiss,
}

/// A button in the row as shown. A disabled one is dimmed and ignores taps.
#[derive(Clone, Copy, Debug, PartialEq, Eq, Structural, Hash)]
pub struct RowButton {
    pub button: TimerButton,
    pub enabled: bool,
}

/// A chime the timer asks for.
#[derive(Clone, Copy, Debug, PartialEq, Eq, Structural, Hash)]
pub enum Chime {
    /// The timer has just finished.
    First,
    /// A repeat while the timer stays Done.
    Repeat,
}

/// A time as the Timer screen shows it: whole minutes and seconds, MM:SS.
/// Its view is the minutes and the seconds.
#[derive(Clone, Copy, Debug, Default, PartialEq, Eq, Structural, Hash)]
pub struct Digits {
    minutes: u8,
    seconds: u8,
}

impl View for Digits {
    type V = (u8, u8);

    closed spec fn view(&self) -> (u8, u8) {
        (self.minutes, self.seconds)
    }
}

/// The digits showing `minutes` and `seconds`, for specifications.
pub closed spec fn clock(minutes: u8, seconds: u8) -> Digits {
    Digits { minutes, seconds }
}

pub broadcast proof fn lemma_clock_view(minutes: u8, seconds: u8)
    ensures
        #[trigger] clock(minutes, seconds)@ == (minutes, seconds),
{
}

pub broadcast proof fn lemma_clock_of_view(d: Digits)
    ensures
        #[trigger] clock(d@.0, d@.1) == d,
{
}

pub broadcast group group_digits {
    lemma_clock_view,
    lemma_clock_of_view,
}

/// `n` rounded up to whole `unit`s.
pub open spec fn ceil_div(n: nat, unit: nat) -> nat
    recommends
        unit > 0,
{
    ((n + unit - 1) / unit as int) as nat
}

/// The whole seconds shown for `nanos` left: rounded up, at most 99:59.
pub open spec fn shown_secs(nanos: nat) -> nat {
    let secs = ceil_div(nanos, NANOS_PER_SEC as nat);
    if secs > MAX_SHOWN_SECS {
        MAX_SHOWN_SECS as nat
    } else {
        secs
    }
}

/// The digits shown for `nanos` left.
pub open spec fn shown(nanos: nat) -> (u8, u8) {
    ((shown_secs(nanos) / 60) as u8, (shown_secs(nanos) % 60) as u8)
}

/// The character for the decimal digit `n`.
pub open spec fn numeral(n: u8) -> char {
    (48 + n) as char
}

/// When chime `n` (counting from zero) falls, for a timer that finished at
/// `since`: `n` intervals later, saturating at the latest instant.
pub open spec fn chime_time(since: u64, n: nat) -> u64 {
    if since + n * CHIME_INTERVAL_MS > u64::MAX {
        u64::MAX
    } else {
        (since + n * CHIME_INTERVAL_MS) as u64
    }
}

/// How many of the chimes of a timer that finished at `since` have fallen
/// due by `now`.
pub open spec fn chimes_due(since: u64, now: u64) -> nat {
    if now < since {
        0
    } else if now == u64::MAX {
        CHIMES as nat
    } else if (now - since) / (CHIME_INTERVAL_MS as int) + 1 >= CHIMES {
        CHIMES as nat
    } else {
        ((now - since) / (CHIME_INTERVAL_MS as int) + 1) as nat
    }
}

/// Chime `k` of the first ten has fallen due by `now` exactly when fewer than
/// `k` chimes are due.
pub proof fn lemma_chime_due(since: u64, now: u64, k: nat)
    requires
        k < CHIMES,
    ensures
        (chime_time(since, k) <= now) == (k < chimes_due(since, now)),
{
    if now >= since && now < u64::MAX {
        let q = (now - since) / (CHIME_INTERVAL_MS as int);
        assert((k <= q) == (k * CHIME_INTERVAL_MS <= now - since)) by (nonlinear_arith)
            requires
                q == (now - since) / 2000,
                now - since >= 0,
                k >= 0,
        ;
    }
}

/// One step shorter than `set`, unless that is below the shortest.
pub open spec fn shorter_spec(set: Duration) -> Option<Duration> {
    if set@ >= STEP_MINS * minute() && set@ - STEP_MINS * minute() >= MIN_SET_MINS * minute() {
        Some(span((set@ - STEP_MINS * minute()) as nat))
    } else {
        None
    }
}

/// One step longer than `set`, unless that is above the longest.
pub open spec fn longer_spec(set: Duration) -> Option<Duration> {
    if set@ + STEP_MINS * minute() <= MAX_SET_MINS * minute() {
        Some(span((set@ + STEP_MINS * minute()) as nat))
    } else {
        None
    }
}

impl TimerState {
    /// The chosen duration.
    pub open spec fn set(self) -> Duration {
        match self {
            TimerState::Ready { set } => set,
            TimerState::Running { set, .. } => set,
            TimerState::Paused { set, .. } => set,
            TimerState::Done { set, .. } => set,
        }
    }

    pub open spec fn phase_spec(self) -> TimerPhase {
        match self {
            TimerState::Ready { .. } => TimerPhase::Ready,
            TimerState::Running { .. } => TimerPhase::Running,
            TimerState::Paused { .. } => TimerPhase::Paused,
            TimerState::Done { .. } => TimerPhase::Done,
        }
    }

    /// The time left at `now`, in nanoseconds.
    pub open spec fn remaining_spec(self, now: u64) -> nat {
        match self {
            TimerState::Ready { set } => set@,
            TimerState::Running { ends_at, .. } => if now <= ends_at@ {
                ((ends_at@ - now) * NANOS_PER_MILLI) as nat
            } else {
                0
            },
            TimerState::Paused { remaining, .. } => remaining@,
            TimerState::Done { .. } => 0,
        }
    }

    /// The next scheduled change: finishing while Running, and the next chime
    /// while Done, until the last.
    pub open spec fn next_transition_spec(self) -> Option<u64> {
        match self {
            TimerState::Running { ends_at, .. } => Some(ends_at@),
            TimerState::Done { since, chimes, .. } => if chimes < CHIMES {
                Some(chime_time(since@, chimes as nat))
            } else {
                None
            },
            _ => None,
        }
    }

    /// While Running, the next instant after `now` at which the digits change:
    /// one second fewer left than they show, counted back from the end.
    pub open spec fn next_tick_spec(self, now: u64) -> Option<u64> {
        match self {
            TimerState::Running { ends_at, .. } => if now < ends_at@ {
                Some(
                    (ends_at@ - (ceil_div((ends_at@ - now) as nat, MILLIS_PER_SEC as nat) - 1)
                        * MILLIS_PER_SEC) as u64,
                )
            } else {
                None
            },
            _ => None,
        }
    }

    /// The state after the transitions due at `now`, and the chime they ask
    /// for: finishing rings the first chime, and repeats that fall due
    /// together ring once.
    pub open spec fn advanced(self, now: u64) -> (TimerState, Option<Chime>) {
        match self {
            TimerState::Running { set, ends_at } => if ends_at@ <= now {
                (
                    TimerState::Done {
                        set,
                        since: ends_at,
                        chimes: chimes_due(ends_at@, now) as u8,
                    },
                    Some(Chime::First),
                )
            } else {
                (self, None)
            },
            TimerState::Done { set, since, chimes } => if (chimes as nat) < chimes_due(
                since@,
                now,
            ) {
                (
                    TimerState::Done { set, since, chimes: chimes_due(since@, now) as u8 },
                    Some(Chime::Repeat),
                )
            } else {
                (self, None)
            },
            _ => (self, None),
        }
    }

    /// The row's left, center, and right buttons. `None` leaves a slot empty.
    pub open spec fn row_spec(self) -> Seq<Option<RowButton>> {
        match self {
            TimerState::Ready { set } => seq![
                Some(RowButton { button: TimerButton::Minus, enabled: shorter_spec(set) is Some }),
                Some(RowButton { button: TimerButton::Start, enabled: true }),
                Some(RowButton { button: TimerButton::Plus, enabled: longer_spec(set) is Some }),
            ],
            TimerState::Running { .. } => seq![
                None,
                Some(RowButton { button: TimerButton::Pause, enabled: true }),
                None,
            ],
            TimerState::Paused { .. } => seq![
                Some(RowButton { button: TimerButton::Reset, enabled: true }),
                Some(RowButton { button: TimerButton::Resume, enabled: true }),
                None,
            ],
            TimerState::Done { .. } => seq![
                None,
                Some(RowButton { button: TimerButton::Dismiss, enabled: true }),
                None,
            ],
        }
    }

    /// The state after pressing `button` at `now`, or `None` if the button is
    /// not in the row, is disabled, or (Pause) the end has been reached.
    pub open spec fn pressed(self, button: TimerButton, now: Instant) -> Option<TimerState> {
        match self {
            TimerState::Ready { set } => match button {
                TimerButton::Minus => match shorter_spec(set) {
                    Some(d) => Some(TimerState::Ready { set: d }),
                    None => None,
                },
                TimerButton::Plus => match longer_spec(set) {
                    Some(d) => Some(TimerState::Ready { set: d }),
                    None => None,
                },
                TimerButton::Start => Some(
                    TimerState::Running { set, ends_at: at(later(now, set)) },
                ),
                _ => None,
            },
            TimerState::Running { set, ends_at } => match button {
                TimerButton::Pause => if now@ < ends_at@ {
                    Some(
                        TimerState::Paused {
                            set,
                            remaining: span(((ends_at@ - now@) * NANOS_PER_MILLI) as nat),
                        },
                    )
                } else {
                    None
                },
                _ => None,
            },
            TimerState::Paused { set, remaining } => match button {
                TimerButton::Resume => Some(
                    TimerState::Running { set, ends_at: at(later(now, remaining)) },
                ),
                TimerButton::Reset => Some(TimerState::Ready { set }),
                _ => None,
            },
            TimerState::Done { set, .. } => match button {
                TimerButton::Dismiss => Some(TimerState::Ready { set }),
                _ => None,
            },
        }
    }

    /// Ready, with the default duration.
    pub fn new() -> (t: TimerState)
        ensures
            t matches TimerState::Ready { set } && set@ == DEFAULT_SET_MINS * minute(),
    {
        TimerState::Ready { set: default_set() }
    }

    /// The chosen duration, `set`.
    pub fn duration(&self) -> (d: Duration)
        ensures
            d == self.set(),
    {
        match *self {
            TimerState::Ready { set } => set,
            TimerState::Running { set, .. } => set,
            TimerState::Paused { set, .. } => set,
            TimerState::Done { set, .. } => set,
        }
    }

    pub fn phase(&self) -> (p: TimerPhase)
        ensures
            p == self.phase_spec(),
    {
        match self {
            TimerState::Ready { .. } => TimerPhase::Ready,
            TimerState::Running { .. } => TimerPhase::Running,
            TimerState::Paused { .. } => TimerPhase::Paused,
            TimerState::Done { .. } => TimerPhase::Done,
        }
    }

    /// The time left at `now`: all of `set` until started, none once Done.
    pub fn remaining(&self, now: Instant) -> (d: Duration)
        ensures
            d@ == self.remaining_spec(now@),
    {
        match *self {
            TimerState::Ready { set } => set,
            TimerState::Running { ends_at, .. } => ends_at.saturating_since(now),
            TimerState::Paused { remaining, .. } => remaining,
            TimerState::Done { .. } => Duration::zero(),
        }
    }

    /// The time shown at `now`: the time left, rounded up to whole seconds, so
    /// the last second shows 00:01.
    pub fn digits(&self, now: Instant) -> (d: Digits)
        ensures
            d@ == shown(self.remaining_spec(now@)),
    {
        Digits::rounding_up(self.remaining(now))
    }

    /// The next scheduled change: finishing while Running, and the next chime
    /// while Done, until the last.
    pub fn next_transition(&self) -> (t: Option<Instant>)
        ensures
            opt_ms(t) == self.next_transition_spec(),
    {
        match *self {
            TimerState::Running { ends_at, .. } => Some(ends_at),
            TimerState::Done { since, chimes, .. } => {
                if chimes < CHIMES {
                    Some(chime_at(since, chimes))
                } else {
                    None
                }
            },
            _ => None,
        }
    }

    /// The next instant after `now` at which the digits change while Running.
    /// Digits change on second boundaries counted back from `ends_at`, at
    /// `ends_at − k × 1 s`, not on whole seconds of the clock.
    pub fn next_tick(&self, now: Instant) -> (t: Option<Instant>)
        ensures
            opt_ms(t) == self.next_tick_spec(now@),
    {
        match *self {
            TimerState::Running { ends_at, .. } => {
                let left = millis(ends_at.saturating_since(now));
                if left == 0 {
                    return None;
                }
                let whole = left / MILLIS_PER_SEC;
                let shown = if left % MILLIS_PER_SEC == 0 {
                    whole
                } else {
                    whole + 1
                };
                // The digits next change when one second fewer remains than
                // they show, which is less than `left`, so nothing underflows.
                let fewer = shown - 1;
                proof {
                    assert(left == ends_at@ - now@);
                    assert(shown as int == ceil_div(left as nat, 1000));
                    assert(fewer * 1000 < left) by (nonlinear_arith)
                        requires
                            fewer == shown - 1,
                            shown as int == (left + 999) / 1000,
                            left > 0,
                    ;
                }
                Some(Instant::from_millis(ends_at.as_millis() - fewer * MILLIS_PER_SEC))
            },
            _ => None,
        }
    }

    /// Apply the transitions due at `now`: finishing, then the chimes while
    /// Done. Chimes that fall due together, after a late wake, ring once.
    pub fn advance(&mut self, now: Instant) -> (rang: Option<Chime>)
        ensures
            (*final(self), rang) == old(self).advanced(now@),
    {
        let mut rang = None;
        if let TimerState::Running { set, ends_at } = *self {
            if !now.is_before(ends_at) {
                *self = TimerState::Done { set, since: ends_at, chimes: 1 };
                rang = Some(Chime::First);
                proof {
                    lemma_chime_due(ends_at@, now@, 0);
                }
            }
        }
        if let TimerState::Done { set, since, chimes } = *self {
            let mut count = chimes;
            while count < CHIMES && !now.is_before(chime_at(since, count))
                invariant
                    chimes <= count,
                    count > chimes ==> count as nat <= chimes_due(since@, now@),
                decreases CHIMES - count,
            {
                proof {
                    lemma_chime_due(since@, now@, count as nat);
                }
                count = count + 1;
            }
            proof {
                if count < CHIMES {
                    lemma_chime_due(since@, now@, count as nat);
                }
                assert(chimes_due(since@, now@) <= CHIMES);
            }
            if count > chimes && rang.is_none() {
                rang = Some(Chime::Repeat);
            }
            *self = TimerState::Done { set, since, chimes: count };
        }
        rang
    }

    /// The row's left, center, and right buttons. `None` leaves a slot empty.
    pub fn row(&self) -> (r: [Option<RowButton>; 3])
        ensures
            r@ == self.row_spec(),
    {
        match *self {
            TimerState::Ready { set } => [
                Some(RowButton { button: TimerButton::Minus, enabled: shorter(set).is_some() }),
                Some(RowButton { button: TimerButton::Start, enabled: true }),
                Some(RowButton { button: TimerButton::Plus, enabled: longer(set).is_some() }),
            ],
            TimerState::Running { .. } => [
                None,
                Some(RowButton { button: TimerButton::Pause, enabled: true }),
                None,
            ],
            TimerState::Paused { .. } => [
                Some(RowButton { button: TimerButton::Reset, enabled: true }),
                Some(RowButton { button: TimerButton::Resume, enabled: true }),
                None,
            ],
            TimerState::Done { .. } => [
                None,
                Some(RowButton { button: TimerButton::Dismiss, enabled: true }),
                None,
            ],
        }
    }

    /// Press `button` at `now`. Returns false, changing nothing, if the button
    /// is not in the row or is disabled.
    pub fn press(&mut self, button: TimerButton, now: Instant) -> (acted: bool)
        ensures
            match old(self).pressed(button, now) {
                Some(next) => acted && *final(self) == next,
                None => !acted && *final(self) == *old(self),
            },
    {
        let next = match *self {
            TimerState::Ready { set } => match button {
                TimerButton::Minus => match shorter(set) {
                    Some(d) => Some(TimerState::Ready { set: d }),
                    None => None,
                },
                TimerButton::Plus => match longer(set) {
                    Some(d) => Some(TimerState::Ready { set: d }),
                    None => None,
                },
                TimerButton::Start => Some(
                    TimerState::Running { set, ends_at: now.saturating_add(set) },
                ),
                _ => None,
            },
            // At `ends_at` the timer has finished, whether or not it has been
            // advanced yet; a Pause then would leave nothing to resume.
            TimerState::Running { set, ends_at } => match button {
                TimerButton::Pause => if now.is_before(ends_at) {
                    Some(TimerState::Paused { set, remaining: ends_at.saturating_since(now) })
                } else {
                    None
                },
                _ => None,
            },
            TimerState::Paused { set, remaining } => match button {
                TimerButton::Resume => Some(
                    TimerState::Running { set, ends_at: now.saturating_add(remaining) },
                ),
                TimerButton::Reset => Some(TimerState::Ready { set }),
                _ => None,
            },
            TimerState::Done { set, .. } => match button {
                TimerButton::Dismiss => Some(TimerState::Ready { set }),
                _ => None,
            },
        };
        match next {
            Some(next) => {
                *self = next;
                true
            },
            None => false,
        }
    }
}

impl Default for TimerState {
    fn default() -> (t: TimerState)
        ensures
            t matches TimerState::Ready { set } && set@ == DEFAULT_SET_MINS * minute(),
    {
        TimerState::new()
    }
}

impl Digits {
    /// The screen shows at most 99:59.
    #[verifier::type_invariant]
    spec fn in_range(self) -> bool {
        self.minutes <= 99 && self.seconds <= 59
    }

    /// `minutes` and `seconds`, clamped to 99 and 59.
    pub fn new(minutes: u8, seconds: u8) -> (d: Digits)
        ensures
            d@ == (
                if minutes > 99 {
                    99u8
                } else {
                    minutes
                },
                if seconds > 59 {
                    59u8
                } else {
                    seconds
                },
            ),
    {
        Digits {
            minutes: if minutes > 99 {
                99
            } else {
                minutes
            },
            seconds: if seconds > 59 {
                59
            } else {
                seconds
            },
        }
    }

    /// `d` rounded up to whole seconds, at most 99:59.
    pub fn rounding_up(d: Duration) -> (r: Digits)
        ensures
            r@ == shown(d@),
    {
        let nanos = d.as_nanos();
        let whole = nanos / NANOS_PER_SEC;
        let secs = if nanos % NANOS_PER_SEC == 0 {
            whole
        } else {
            whole + 1
        };
        let secs = if secs > MAX_SHOWN_SECS as u128 {
            MAX_SHOWN_SECS as u128
        } else {
            secs
        };
        proof {
            assert(secs as nat == shown_secs(d@));
        }
        Digits::new((secs / 60) as u8, (secs % 60) as u8)
    }

    pub fn minutes(self) -> (m: u8)
        ensures
            m == self@.0,
    {
        self.minutes
    }

    pub fn seconds(self) -> (s: u8)
        ensures
            s == self@.1,
    {
        self.seconds
    }

    /// The digits as the screen shows them, MM:SS.
    pub fn to_string(self) -> (s: String)
        ensures
            s@ == seq![
                numeral(self@.0 / 10),
                numeral(self@.0 % 10),
                ':',
                numeral(self@.1 / 10),
                numeral(self@.1 % 10),
            ],
    {
        proof {
            use_type_invariant(self);
        }
        two_digit_pairs(self.minutes, self.seconds)
    }
}

/// The decimal digit `d` as text.
fn digit_text(d: u8) -> (s: &'static str)
    requires
        d <= 9,
    ensures
        s@ == seq![numeral(d)],
{
    match d {
        0 => {
            proof {
                reveal_strlit("0");
            }
            "0"
        },
        1 => {
            proof {
                reveal_strlit("1");
            }
            "1"
        },
        2 => {
            proof {
                reveal_strlit("2");
            }
            "2"
        },
        3 => {
            proof {
                reveal_strlit("3");
            }
            "3"
        },
        4 => {
            proof {
                reveal_strlit("4");
            }
            "4"
        },
        5 => {
            proof {
                reveal_strlit("5");
            }
            "5"
        },
        6 => {
            proof {
                reveal_strlit("6");
            }
            "6"
        },
        7 => {
            proof {
                reveal_strlit("7");
            }
            "7"
        },
        8 => {
            proof {
                reveal_strlit("8");
            }
            "8"
        },
        _ => {
            proof {
                reveal_strlit("9");
            }
            "9"
        },
    }
}

/// `minutes` and `seconds` written MM:SS, each as two decimal digits.
fn two_digit_pairs(minutes: u8, seconds: u8) -> (s: String)
    requires
        minutes <= 99,
        seconds <= 99,
    ensures
        s@ == seq![
            numeral(minutes / 10),
            numeral(minutes % 10),
            ':',
            numeral(seconds / 10),
            numeral(seconds % 10),
        ],
{
    let mut s = String::new();
    s.append(digit_text(minutes / 10));
    s.append(digit_text(minutes % 10));
    proof {
        reveal_strlit(":");
    }
    s.append(":");
    s.append(digit_text(seconds / 10));
    s.append(digit_text(seconds % 10));
    proof {
        assert(s@ =~= seq![
            numeral(minutes / 10),
            numeral(minutes % 10),
            ':',
            numeral(seconds / 10),
            numeral(seconds % 10),
        ]);
    }
    s
}

/// When chime `n` (counting from zero) falls.
pub fn chime_at(since: Instant, n: u8) -> (t: Instant)
    ensures
        t@ == chime_time(since@, n as nat),
{
    let gap = chime_interval().saturating_mul(n as u32);
    proof {
        assert(gap@ == n * 2_000_000_000);
        assert(crate::time::millis_of(gap) == n * 2_000);
    }
    since.saturating_add(gap)
}

/// More chimes fall due as time goes on.
pub proof fn lemma_chimes_due_monotone(since: u64, t1: u64, t2: u64)
    requires
        t1 <= t2,
    ensures
        chimes_due(since, t1) <= chimes_due(since, t2),
{
    if since <= t1 && t2 < u64::MAX {
        assert((t1 - since) / 2000 <= (t2 - since) / 2000) by (nonlinear_arith)
            requires
                since <= t1 <= t2,
        ;
    }
}

/// Advancing the timer in steps, as deadlines arrive, ends in the same state
/// as advancing it once to the last step, and asks for a chime exactly when
/// the single advance does: late or extra deadlines change nothing.
pub proof fn lemma_advance_in_steps(s: TimerState, t1: u64, t2: u64)
    requires
        t1 <= t2,
    ensures
        s.advanced(t1).0.advanced(t2).0 == s.advanced(t2).0,
        (s.advanced(t2).1 is Some) == (s.advanced(t1).1 is Some || s.advanced(t1).0.advanced(
            t2,
        ).1 is Some),
        (s.advanced(t2).1 == Some(Chime::First)) == (s.advanced(t1).1 == Some(Chime::First)
            || s.advanced(t1).0.advanced(t2).1 == Some(Chime::First)),
{
    match s {
        TimerState::Running { set, ends_at } => {
            lemma_chimes_due_monotone(ends_at@, t1, t2);
            if ends_at@ <= t1 {
                lemma_chime_due(ends_at@, t1, 0);
            }
        },
        TimerState::Done { set, since, chimes } => {
            lemma_chimes_due_monotone(since@, t1, t2);
        },
        _ => {},
    }
}

/// Nothing happens to a timer whose next transition is after `now`.
pub proof fn lemma_advanced_when_nothing_due(s: TimerState, now: u64)
    requires
        s.next_transition_spec() matches Some(t) ==> t > now,
    ensures
        s.advanced(now) == (s, None::<Chime>),
{
    match s {
        TimerState::Done { set, since, chimes } => {
            if chimes < CHIMES {
                lemma_chime_due(since@, now, chimes as nat);
            }
        },
        _ => {},
    }
}

/// After the transitions due at `now`, the next one is later than `now`, so
/// a platform that wakes for it always moves forward.
pub proof fn lemma_next_transition_after_advance(s: TimerState, now: u64)
    ensures
        s.advanced(now).0.next_transition_spec() matches Some(t) ==> t > now,
{
    match s.advanced(now).0 {
        TimerState::Done { set, since, chimes } => {
            if chimes < CHIMES {
                lemma_chime_due(since@, now, chimes as nat);
            }
        },
        _ => {},
    }
}

/// A finished timer has rung between one and ten chimes: none before it
/// finished, the first at the end (unless that is the last instant, where
/// all fall due together), and never more than ten in all.
pub proof fn lemma_one_to_ten_chimes(since: u64, now: u64)
    ensures
        now < since ==> chimes_due(since, now) == 0,
        since <= now ==> 1 <= chimes_due(since, now) <= CHIMES,
        since < u64::MAX ==> chimes_due(since, since) == 1,
{
}

/// Once dismissed, the timer is Ready with the same duration and rings no
/// more chimes, however late it is advanced.
pub proof fn lemma_no_chime_after_dismiss(s: TimerState, now: Instant, later: u64)
    ensures
        s.pressed(TimerButton::Dismiss, now) matches Some(next) ==> {
            &&& next == (TimerState::Ready { set: s.set() })
            &&& next.advanced(later) == (next, None::<Chime>)
        },
{
}

/// The duration the timer is set to stays whole minutes from one to
/// ninety-nine whatever is pressed, once it starts there.
pub proof fn lemma_press_keeps_the_duration_in_range(
    s: TimerState,
    button: TimerButton,
    now: Instant,
)
    requires
        MIN_SET_MINS * minute() <= s.set()@ <= MAX_SET_MINS * minute(),
        s.set()@ % minute() == 0,
    ensures
        s.pressed(button, now) matches Some(next) ==> {
            &&& MIN_SET_MINS * minute() <= next.set()@ <= MAX_SET_MINS * minute()
            &&& next.set()@ % minute() == 0
        },
{
    let m = minute() as int;
    let d = s.set()@ as int;
    vstd::arithmetic::div_mod::lemma_mod_add_multiples_vanish(d, m);
    vstd::arithmetic::div_mod::lemma_mod_sub_multiples_vanish(d, m);
    assert(m + d == d + m && -m + d == d - m);
}

/// Pausing and then resuming keeps the time that was left: the timer runs
/// until the resume time plus what was left at the pause.
pub proof fn lemma_pause_then_resume_keeps_the_time_left(
    set: Duration,
    ends_at: Instant,
    paused_at: Instant,
    resumed_at: Instant,
)
    requires
        paused_at@ < ends_at@,
        resumed_at@ + (ends_at@ - paused_at@) <= u64::MAX,
    ensures
        (TimerState::Running { set, ends_at }).pressed(TimerButton::Pause, paused_at) matches Some(
            paused,
        ) && paused.pressed(TimerButton::Resume, resumed_at) matches Some(resumed) && resumed
            == (TimerState::Running {
            set,
            ends_at: at((resumed_at@ + (ends_at@ - paused_at@)) as u64),
        }),
{
    let left = ((ends_at@ - paused_at@) * NANOS_PER_MILLI) as nat;
    assert(left <= crate::time::max_nanos());
    assert(crate::time::millis_of(span(left)) == ends_at@ - paused_at@);
}

/// While Running, the whole seconds left (before the display's 99:59 cap)
/// stay the same from `now` until the next tick, and are one fewer at it:
/// the digits change only on second boundaries counted back from the end.
pub proof fn lemma_digits_change_only_at_ticks(set: Duration, ends_at: Instant, now: u64, t: u64)
    requires
        now < ends_at@,
    ensures
        ({
            let s = TimerState::Running { set, ends_at };
            let tick = s.next_tick_spec(now)->0;
            &&& now < tick <= ends_at@
            &&& now <= t < tick ==> ceil_div((ends_at@ - t) as nat, 1000) == ceil_div(
                (ends_at@ - now) as nat,
                1000,
            )
            &&& ceil_div((ends_at@ - tick) as nat, 1000) + 1 == ceil_div(
                (ends_at@ - now) as nat,
                1000,
            )
        }),
{
    let left = (ends_at@ - now) as nat;
    let c = ceil_div(left, 1000);
    let tick = ends_at@ - (c - 1) * 1000;
    assert(0 < c && (c - 1) * 1000 < left <= c * 1000) by (nonlinear_arith)
        requires
            c == (left + 999) / 1000,
            left > 0,
    ;
    if now <= t < tick {
        let l2 = (ends_at@ - t) as nat;
        assert((l2 + 999) / 1000 == c) by (nonlinear_arith)
            requires
                (c - 1) * 1000 < l2 <= left <= c * 1000,
        ;
    }
    let l3 = (ends_at@ - tick) as nat;
    assert((l3 + 999) / 1000 == c - 1) by (nonlinear_arith)
        requires
            l3 == (c - 1) * 1000,
            c > 0,
    ;
}

/// One step shorter than `set`, unless that is below the shortest.
pub fn shorter(set: Duration) -> (d: Option<Duration>)
    ensures
        d == shorter_spec(set),
{
    match set.checked_sub(step()) {
        Some(d) => if d.as_nanos() >= min_set().as_nanos() {
            Some(d)
        } else {
            None
        },
        None => None,
    }
}

/// One step longer than `set`, unless that is above the longest.
pub fn longer(set: Duration) -> (d: Option<Duration>)
    ensures
        d == longer_spec(set),
{
    match set.checked_add(step()) {
        Some(d) => if d.as_nanos() <= max_set().as_nanos() {
            Some(d)
        } else {
            None
        },
        None => None,
    }
}

} // verus!
