//! `App`: the core's entry point. Owns all state and routes events to features.

use vstd::prelude::*;

use crate::character::{sooner, Expression, Wade, WadeModel};
use crate::event::{Event, EventKind, Key, Touch, TouchPhase};
use crate::geometry::Point;
use crate::input::{pressed_after, tap_after, TouchTracker};
use crate::layout::{self, Target, Tile};
use crate::output::{effect_list, Effect, Output, MAX_EFFECTS};
use crate::rng::Rng;
use crate::settings::{Settings, SettingsButton, SettingsModel};
use crate::time::{opt_ms, sat_add, Instant, NANOS_PER_MILLI};
use crate::timer::{lemma_advance_in_steps, lemma_next_transition_after_advance, Chime, Digits, TimerButton, TimerPhase, TimerState};
use crate::view::{BuddyView, LauncherView, SettingsView, TimerView};

verus! {

broadcast use crate::time::group_time;

/// Frame interval while something is moving (about 30 fps), in milliseconds.
pub const FRAME_MS: u64 = 33;
/// While Wade sleeps on screen, his breathing and rising Z's move in steps
/// this far apart, in milliseconds: slower than frames, so a sleeping screen
/// costs little.
pub const SLEEP_STEP_MS: u64 = 100;
/// A gap between events longer than this (an hour, in milliseconds) is beyond
/// any platform's lateness. Rather than replay every blink in it, Wade
/// restarts his idle schedule.
pub const STALL_LIMIT_MS: u64 = 3_600_000;
/// Settings are saved once they have stopped changing for this long, in
/// milliseconds, so stepping through several values writes storage once.
pub const SAVE_DELAY_MS: u64 = 2_000;
/// For this long after the timer finishes, in milliseconds, new touches are
/// ignored: they were aimed at what the screen showed before, and could
/// otherwise dismiss a timer its user never saw finish.
pub const TOUCH_GUARD_MS: u64 = 500;

/// Which screen is displayed and receives touch.
#[derive(Clone, Copy, Debug, PartialEq, Eq, Structural, Hash)]
pub enum Screen {
    Buddy,
    Launcher,
    Timer,
    Settings,
}

/// The target under `point` on `screen`, whose timer row holds `row`.
pub open spec fn hit_on(screen: Screen, point: Point, row: Seq<Option<crate::timer::RowButton>>) -> Option<Target> {
    match screen {
        Screen::Buddy => layout::hit_buddy_spec(point),
        Screen::Launcher => layout::hit_launcher_spec(point),
        Screen::Timer => layout::hit_timer_spec(point, row),
        Screen::Settings => layout::hit_settings_spec(point),
    }
}

/// The tap that `touch` completes on `screen` while `pressed` is under the
/// touch in progress: only an `Up` over the pressed target taps it.
pub open spec fn tap_of(pressed: Option<Target>, screen: Screen, timer: TimerState, touch: Touch) -> Option<Target> {
    if touch.phase is Up {
        tap_after(pressed, TouchPhase::Up, hit_on(screen, touch.point, timer.row_spec()))
    } else {
        None
    }
}

/// Where back goes from `screen`: from an app to the Launcher and from the
/// Launcher to Buddy, except that back from a finished timer dismisses it
/// and returns to Buddy.
pub open spec fn back_to(screen: Screen, timer: TimerState) -> Screen {
    match screen {
        Screen::Timer => if timer is Done {
            Screen::Buddy
        } else {
            Screen::Launcher
        },
        Screen::Settings => Screen::Launcher,
        _ => Screen::Buddy,
    }
}

/// Wade's expression once his temporary expression `w` had has expired:
/// grogginess ends in a doze, anything else in Neutral.
pub open spec fn expired_expression(w: WadeModel) -> Expression {
    if w.groggy && w.dozes {
        Expression::Sleepy
    } else {
        Expression::Neutral
    }
}

/// True if the temporary expression of `w` has expired by `t`.
pub open spec fn expiry_due(w: WadeModel, t: u64) -> bool {
    w.expires_at matches Some(e) && e <= t
}

/// `w` is `from` with its temporary expression ended.
pub open spec fn has_expired(w: WadeModel, from: WadeModel) -> bool {
    w.expires_at is None && w.expression == expired_expression(from)
}

/// `w` still shows the temporary expression of `from`, if any.
pub open spec fn unexpired(w: WadeModel, from: WadeModel) -> bool {
    &&& w.expires_at == from.expires_at
    &&& w.expression == from.expression
    &&& w.groggy == from.groggy
    &&& w.dozes == from.dozes
}

/// The time an event at `at` moves the core to from `now`: never backwards,
/// since events may arrive slightly out of order.
pub open spec fn clamped(now: u64, at: u64) -> u64 {
    if at > now {
        at
    } else {
        now
    }
}

/// Extra or late deadlines change nothing that `handle` states: handling a
/// deadline at `t1` and then one at `t2` leaves the timer as one deadline at
/// `t2` does, rings a chime exactly when it does, and finishes the timer,
/// which brings up the Timer screen, exactly when it does.
pub proof fn lemma_extra_deadlines_change_nothing(timer: TimerState, now: u64, t1: u64, t2: u64)
    requires
        t1 <= t2,
    ensures
        ({
            let first = clamped(now, t1);
            let second = clamped(first, t2);
            let once = clamped(now, t2);
            let (mid, rang_first) = timer.advanced(first);
            let (end, rang_second) = mid.advanced(second);
            &&& end == timer.advanced(once).0
            &&& (rang_first is Some || rang_second is Some) == (timer.advanced(once).1 is Some)
            &&& (rang_first == Some(Chime::First) || rang_second == Some(Chime::First)) == (timer.advanced(
                once,
            ).1 == Some(Chime::First))
        }),
{
    lemma_advance_in_steps(timer, clamped(now, t1), clamped(clamped(now, t1), t2));
}

/// The effects `list` hold at most one chime: chimes that fall due in one
/// event ring once.
pub open spec fn chime_once(list: Seq<Effect>) -> bool {
    forall|i: int, j: int|
        0 <= i < j < list.len() && #[trigger] list[i] == Effect::Chime ==> #[trigger] list[j] != Effect::Chime
}

/// Adding an effect other than a chime, or a chime to a list without one,
/// keeps at most one chime.
proof fn lemma_push_keeps_one_chime(list: Seq<Effect>, e: Effect)
    requires
        chime_once(list),
        e == Effect::Chime ==> !list.contains(Effect::Chime),
    ensures
        chime_once(list.push(e)),
{
    let l = list.push(e);
    assert forall|i: int, j: int| 0 <= i < j < l.len() && #[trigger] l[i] == Effect::Chime implies #[trigger] l[j]
        != Effect::Chime by {
        assert(l[i] == list[i]);
        if j < list.len() {
            assert(l[j] == list[j]);
        } else if e == Effect::Chime {
            assert(list.contains(list[i]));
        }
    }
}

/// What Wade shows after the finished timer is dismissed at `now`: groggy
/// for 3 s if it woke him, Proud for 2 s otherwise.
pub open spec fn reacted(w: WadeModel, from: WadeModel, now: u64) -> bool {
    if from.woken_by_timer {
        w.expression == Expression::Sleepy && w.groggy && w.expires_at == Some(
            sat_add(now, crate::character::GROGGY_MS),
        )
    } else {
        w == from.showing_for(Expression::Proud, now, crate::character::TIMER_REACTION_MS)
    }
}

/// Wade's reaction to a dismissed timer at `now`: Proud for 2 s, or groggy
/// for 3 s when the timer woke him.
pub open spec fn dismissal_shown(w: WadeModel, now: u64) -> bool {
    ||| w.expression == Expression::Proud && !w.groggy && w.expires_at == Some(
        sat_add(now, crate::character::TIMER_REACTION_MS),
    )
    ||| w.expression == Expression::Sleepy && w.groggy && w.expires_at == Some(
        sat_add(now, crate::character::GROGGY_MS),
    )
}

/// A settings change not yet saved always has a save scheduled; with
/// nothing to save, none is. After an event (see `App::handle`) the save is
/// later than `now`, unless time has saturated, so it is still to come: the
/// change is saved then, or reported by `unsaved_settings` if the platform
/// stops first.
pub proof fn lemma_unsaved_settings_are_saved_later(m: AppModel)
    requires
        m.wf(),
        crate::character::still_ahead(m.save_at, m.now),
    ensures
        m.settings != m.saved ==> (m.save_at matches Some(s) && (s > m.now || s == u64::MAX)),
        m.settings == m.saved ==> m.save_at is None,
{
}

/// The target a touch in progress draws pressed: Wade has no pressed look.
pub open spec fn pressed_look(touch: Option<Target>) -> Option<Target> {
    if touch == Some(Target::Wade) {
        None
    } else {
        touch
    }
}

/// `a` and `b` look the same on screen, the timer's digits aside: the same
/// screen, showing the same state.
pub open spec fn same_look(a: AppModel, b: AppModel) -> bool {
    &&& a.screen == b.screen
    &&& match a.screen {
        Screen::Buddy => {
            &&& a.wade.expression == b.wade.expression
            &&& a.wade.asleep == b.wade.asleep
            &&& (a.wade.blink_until is Some) == (b.wade.blink_until is Some)
            &&& a.settings@.eye_style == b.settings@.eye_style
            &&& a.settings@.color == b.settings@.color
            &&& (a.touch == Some(Target::Apps)) == (b.touch == Some(Target::Apps))
        },
        Screen::Launcher => pressed_look(a.touch) == pressed_look(b.touch),
        Screen::Timer => {
            &&& a.timer.phase_spec() == b.timer.phase_spec()
            &&& a.timer.row_spec() == b.timer.row_spec()
            &&& pressed_look(a.touch) == pressed_look(b.touch)
        },
        Screen::Settings => a.settings == b.settings && pressed_look(a.touch) == pressed_look(b.touch),
    }
}

/// `a` and `b` show the same view: they look the same, and on the Timer
/// screen show the same digits.
pub open spec fn same_view(a: AppModel, b: AppModel) -> bool {
    &&& same_look(a, b)
    &&& a.screen == Screen::Timer ==> crate::timer::shown(a.timer.remaining_spec(a.now)) == crate::timer::shown(
        b.timer.remaining_spec(b.now),
    )
}

/// Extra or late deadlines leave Wade's temporary expression as one deadline
/// does: when handling a deadline at `t1` takes him from `w0` to `w1` and one
/// at `t2` then to `w2`, as `handle` states, and one deadline at `t2` takes
/// him from `w0` to `once`, then `w2` and `once` show the same expression
/// until the same time.
pub proof fn lemma_extra_deadlines_keep_the_expression(
    w0: WadeModel,
    w1: WadeModel,
    w2: WadeModel,
    once: WadeModel,
    t1: u64,
    t2: u64,
)
    requires
        t1 <= t2,
        expiry_due(w0, t1) ==> has_expired(w1, w0),
        !expiry_due(w0, t1) ==> unexpired(w1, w0),
        expiry_due(w1, t2) ==> has_expired(w2, w1),
        !expiry_due(w1, t2) ==> unexpired(w2, w1),
        expiry_due(w0, t2) ==> has_expired(once, w0),
        !expiry_due(w0, t2) ==> unexpired(once, w0),
    ensures
        w2.expression == once.expression,
        w2.expires_at == once.expires_at,
{
}

/// The earliest of three optional times.
pub open spec fn soonest(a: Option<u64>, b: Option<u64>, c: Option<u64>) -> Option<u64> {
    crate::character::sooner(crate::character::sooner(a, b), c)
}

/// True if `target` is one of the targets of `screen`.
pub open spec fn belongs(target: Target, screen: Screen) -> bool {
    match screen {
        Screen::Buddy => target is Wade || target is Apps,
        Screen::Launcher => target is Back || target is Tile,
        Screen::Timer => target is Back || target is Timer,
        Screen::Settings => target is Back || target is Settings,
    }
}

/// The app's state as plain values.
pub struct AppModel {
    pub now: u64,
    pub screen: Screen,
    pub wade: WadeModel,
    pub timer: TimerState,
    pub rng: u64,
    pub touch: Option<Target>,
    pub touch_guard_until: u64,
    pub settings: Settings,
    pub saved: Settings,
    pub save_at: Option<u64>,
}

impl AppModel {
    /// Every scheduled change is at or after `now`, so time only moves forward.
    pub open spec fn wf(self) -> bool {
        &&& self.ready_at(self.now, false)
    }

    /// A touch in progress is on one of the targets of the screen shown, so
    /// its tap can only land on the screen its `Down` landed on.
    pub open spec fn touch_ok(self) -> bool {
        self.touch matches Some(t) ==> belongs(t, self.screen)
    }

    /// The effects `list` of one event so far leave room for what may still
    /// come: one chime, and one save while the settings differ from the saved.
    pub open spec fn room(self, list: Seq<Effect>) -> bool {
        list.len() <= (if list.contains(Effect::Chime) {
            1int
        } else {
            0int
        }) + (if self.saved == self.settings {
            1int
        } else {
            0int
        })
    }

    /// The saves among the effects `list` of an event that began with
    /// `since` saved: each carries the settings now saved, which differ from
    /// `since`; and the saved settings have changed only with such a save.
    pub open spec fn saves_ok(self, list: Seq<Effect>, since: Settings) -> bool {
        &&& forall|s: Settings| #[trigger] list.contains(Effect::SaveSettings(s)) ==> s == self.saved && s
            != since
        &&& self.saved != since ==> list.contains(Effect::SaveSettings(self.saved))
    }

    /// A save among the effects `list` saved the current settings.
    pub open spec fn saved_current(self, list: Seq<Effect>) -> bool {
        forall|s: Settings| #[trigger] list.contains(Effect::SaveSettings(s)) ==> self.saved == self.settings
    }

    /// True while Wade is shown and his pose is changing with time.
    pub open spec fn animating(self) -> bool {
        self.screen == Screen::Buddy && (self.wade.settles_at is Some || self.wade.blink_until is Some)
    }

    /// When the core next needs to run: the earliest of Wade's next change
    /// (only while he is shown), the timer's next transition, a pending save,
    /// the timer's next tick (only while it is shown) and the next frame of
    /// an animation, if that is after `now`.
    pub open spec fn deadline(self) -> Option<u64> {
        let wade = if self.screen == Screen::Buddy {
            self.wade.next_transition(true)
        } else {
            None
        };
        let tick = if self.screen == Screen::Timer {
            self.timer.next_tick_spec(self.now)
        } else {
            None
        };
        let frame = if self.animating() {
            Some(sat_add(self.now, FRAME_MS))
        } else if self.screen == Screen::Buddy && self.wade.asleep {
            Some(sat_add(self.now, SLEEP_STEP_MS))
        } else {
            None
        };
        match sooner(sooner(sooner(sooner(wade, self.timer.next_transition_spec()), self.save_at), tick), frame) {
            Some(d) => if d > self.now {
                Some(d)
            } else {
                None
            },
            None => None,
        }
    }

    /// Hidden, Wade's pose does not move.
    pub open spec fn hidden_still(self) -> bool {
        self.screen != Screen::Buddy ==> self.wade.settles_at is None
    }

    /// A save is pending exactly while the settings differ from those last
    /// saved.
    pub open spec fn save_pending(self) -> bool {
        self.save_at is Some <==> self.settings != self.saved
    }

    /// Nothing is scheduled before `t` (Wade aside while `stalled`).
    pub open spec fn ready_at(self, t: u64, stalled: bool) -> bool {
        &&& self.save_pending()
        &&& crate::character::not_before(self.timer.next_transition_spec(), t)
        &&& crate::character::not_before(self.save_at, t)
        &&& !stalled ==> self.wade.pending_from(t)
        &&& self.hidden_still()
        &&& self.touch_ok()
    }

    /// Everything due at `t` has been applied: what remains is later
    /// (Wade aside while `stalled`), or saturated at the end of time.
    pub open spec fn done_at(self, t: u64, stalled: bool) -> bool {
        &&& self.save_pending()
        &&& self.timer.next_transition_spec() matches Some(x) ==> x > t
        &&& crate::character::still_ahead(self.save_at, t)
        &&& !stalled ==> self.wade.pending_after(t)
        &&& self.hidden_still()
        &&& self.touch_ok()
    }

    /// The earliest scheduled transition across all features, including
    /// Wade's only if `include_wade`.
    pub open spec fn next_transition(self, include_wade: bool) -> Option<u64> {
        soonest(
            self.timer.next_transition_spec(),
            self.save_at,
            if include_wade {
                self.wade.next_transition(self.screen == Screen::Buddy)
            } else {
                None
            },
        )
    }
}

/// The earliest of optional times is at most each of them, and is one of them.
proof fn lemma_sooner(a: Option<u64>, b: Option<u64>)
    ensures
        crate::character::sooner(a, b) is None <==> (a is None && b is None),
        crate::character::sooner(a, b) matches Some(r) ==> {
            &&& a matches Some(x) ==> r <= x
            &&& b matches Some(x) ==> r <= x
            &&& a == Some(r) || b == Some(r)
        },
{
}

/// Wade's next transition is the earliest of his scheduled changes.
proof fn lemma_wade_next(w: WadeModel, visible: bool)
    ensures
        w.next_transition(visible) matches Some(r) ==> {
            &&& w.expires_at matches Some(x) ==> r <= x
            &&& w.blink_until matches Some(x) ==> r <= x
            &&& !w.asleep ==> r <= w.next_blink
            &&& visible && w.settles_at is Some ==> r <= w.settles_at->0
            &&& w.expires_at == Some(r) || w.blink_until == Some(r) || (!w.asleep && w.next_blink == r) || (visible
                && w.settles_at == Some(r))
        },
        w.next_transition(visible) is None ==> w.expires_at is None && w.blink_until is None && w.asleep && (visible
            ==> w.settles_at is None),
{
    let blink = if w.asleep {
        None
    } else {
        Some(w.next_blink)
    };
    let settle = if visible {
        w.settles_at
    } else {
        None
    };
    lemma_sooner(w.expires_at, w.blink_until);
    lemma_sooner(crate::character::sooner(w.expires_at, w.blink_until), blink);
    lemma_sooner(crate::character::sooner(crate::character::sooner(w.expires_at, w.blink_until), blink), settle);
}

/// If nothing is scheduled before `x`, no feature has anything due before `x`.
proof fn lemma_nothing_earlier(m: AppModel, include_wade: bool, x: u64)
    requires
        m.next_transition(include_wade) matches Some(r) ==> x <= r,
        m.hidden_still(),
    ensures
        crate::character::not_before(m.timer.next_transition_spec(), x),
        crate::character::not_before(m.save_at, x),
        include_wade ==> m.wade.pending_from(x),
        m.next_transition(include_wade) is None ==> m.timer.next_transition_spec() is None && m.save_at is None,
{
    let w = m.wade;
    let visible = m.screen == Screen::Buddy;
    lemma_wade_next(w, visible);
    let wn = if include_wade {
        w.next_transition(visible)
    } else {
        None
    };
    lemma_sooner(m.timer.next_transition_spec(), m.save_at);
    lemma_sooner(crate::character::sooner(m.timer.next_transition_spec(), m.save_at), wn);
}

/// If no feature has anything due before `x`, nothing is scheduled before `x`.
proof fn lemma_nothing_before(m: AppModel, include_wade: bool, x: u64)
    requires
        crate::character::not_before(m.timer.next_transition_spec(), x),
        crate::character::not_before(m.save_at, x),
        include_wade ==> m.wade.pending_from(x),
        m.hidden_still(),
    ensures
        m.next_transition(include_wade) matches Some(r) ==> x <= r,
{
    let w = m.wade;
    let visible = m.screen == Screen::Buddy;
    lemma_wade_next(w, visible);
    let wn = if include_wade {
        w.next_transition(visible)
    } else {
        None
    };
    lemma_sooner(m.timer.next_transition_spec(), m.save_at);
    lemma_sooner(crate::character::sooner(m.timer.next_transition_spec(), m.save_at), wn);
}

/// A temporary expression bounds the next transition: it is scheduled no
/// later than the expiry.
proof fn lemma_expiry_bounds_next(m: AppModel, e: u64)
    requires
        m.wade.expires_at == Some(e),
    ensures
        m.next_transition(true) matches Some(r) && r <= e,
{
    let w = m.wade;
    let visible = m.screen == Screen::Buddy;
    lemma_wade_next(w, visible);
    lemma_sooner(m.timer.next_transition_spec(), m.save_at);
    lemma_sooner(crate::character::sooner(m.timer.next_transition_spec(), m.save_at), w.next_transition(visible));
}

/// Once everything due at `now` is applied, the next transition is later,
/// unless schedules have saturated at the end of time.
proof fn lemma_next_is_ahead(m: AppModel, now: u64, stalled: bool)
    requires
        m.done_at(now, stalled),
    ensures
        m.next_transition(!stalled) matches Some(r) ==> r > now || r == u64::MAX,
        m.next_transition(!stalled) matches Some(r) ==> (m.timer.next_transition_spec() matches Some(x) ==> r < x || x > now),
{
    let w = m.wade;
    let visible = m.screen == Screen::Buddy;
    lemma_wade_next(w, visible);
    let wn = if !stalled {
        w.next_transition(visible)
    } else {
        None
    };
    lemma_sooner(m.timer.next_transition_spec(), m.save_at);
    lemma_sooner(crate::character::sooner(m.timer.next_transition_spec(), m.save_at), wn);
}

/// The core's whole state. Its view is that state as plain values.
#[derive(Clone, Debug)]
pub struct App {
    now: Instant,
    screen: Screen,
    wade: Wade,
    timer: TimerState,
    /// Randomness for behavior, apart from Wade's motion.
    rng: Rng,
    touch: TouchTracker,
    /// Touches that start before this are ignored (see `TOUCH_GUARD_MS`).
    touch_guard_until: Instant,
    settings: Settings,
    /// The settings as last loaded or saved.
    saved: Settings,
    /// When to save the settings: `SAVE_DELAY_MS` after the last change.
    save_at: Option<Instant>,
}

impl App {
    /// The app's state as plain values.
    pub closed spec fn model(&self) -> AppModel {
        AppModel {
            now: self.now@,
            screen: self.screen,
            wade: self.wade@,
            timer: self.timer,
            rng: self.rng@,
            touch: self.touch@,
            touch_guard_until: self.touch_guard_until@,
            settings: self.settings,
            saved: self.saved,
            save_at: opt_ms(self.save_at),
        }
    }
}

impl App {
    /// Start at `now`, seeding behavior with `seed`, with the `settings` the
    /// platform loaded.
    pub fn new(now: Instant, seed: u64, settings: Settings) -> (app: App)
        ensures
            app.model().wf(),
            app.model().now == now@,
            app.model().screen == Screen::Buddy,
            app.model().timer matches TimerState::Ready { set } && set@ == settings@.timer_minutes
                * crate::timer::minute(),
            app.model().settings == settings,
            app.model().saved == settings,
            app.model().save_at is None,
            app.model().touch is None,
            app.model().touch_guard_until == now@,
            app.model().rng == crate::rng::seeded(seed),
            app.model().wade.expression == Expression::Neutral,
            !app.model().wade.asleep,
    {
        App {
            now,
            screen: Screen::Buddy,
            wade: Wade::new(now, seed),
            timer: TimerState::Ready { set: settings.timer() },
            rng: Rng::new(seed),
            touch: TouchTracker::new(),
            touch_guard_until: now,
            settings,
            saved: settings,
            save_at: None,
        }
    }

    /// Handle one event: first advance `now` to its time, applying every
    /// timed transition that became due along the way in order, then apply
    /// the event itself.
    pub fn handle(&mut self, event: Event) -> (out: Output)
        requires
            old(self).model().wf(),
        ensures
            old(self).model().timer.advanced(clamped(old(self).model().now, event.at@)).1 != Some(Chime::First)
                ==> final(self).model().touch_guard_until == old(self).model().touch_guard_until,
            // Hidden, Wade never asks for a redraw: on a screen that shows
            // neither him nor the time, a deadline redraws only when the timer
            // finishes.
            event.kind is Deadline && old(self).model().screen != Screen::Buddy && old(self).model().screen
                != Screen::Timer && old(self).model().timer.advanced(clamped(old(self).model().now, event.at@)).1
                != Some(Chime::First) ==> !out.redraw,
            // Every save carries the settings now saved, which differ from those
            // saved before the event; and the saved settings change only with a save.
            final(self).model().saves_ok(effect_list(out.effects), old(self).model().saved),
            // Chimes that fall due in one event ring once.
            chime_once(effect_list(out.effects)),
            // A pending save is later than the event, so the next deadline
            // reports it, unless time has saturated.
            crate::character::still_ahead(final(self).model().save_at, final(self).model().now),
            final(self).model().wf(),
            final(self).model().now == clamped(old(self).model().now, event.at@),
            ({
                let m = old(self).model();
                let target = clamped(m.now, event.at@);
                let (timer, chime) = m.timer.advanced(target);
                let screen = if chime == Some(Chime::First) {
                    Screen::Timer
                } else {
                    m.screen
                };
                &&& effect_list(out.effects).contains(Effect::Chime) == (m.settings@.chime && chime is Some)
                &&& chime == Some(Chime::First) ==> final(self).model().screen == Screen::Timer
                &&& event.kind is Touch ==> final(self).model().timer == timer || exists|b: TimerButton|
                    #[trigger] timer.pressed(b, crate::time::at(target)) == Some(final(self).model().timer)
                &&& !(event.kind is Touch) ==> final(self).model().timer == timer
                &&& event.kind is Deadline ==> final(self).model().screen == screen && final(self).model().settings
                    == m.settings
                &&& event.kind is Deadline ==> final(self).model().touch == (if chime == Some(Chime::First) {
                    None
                } else {
                    m.touch
                })
                // A temporary expression (Happy after a tap, Proud after a
                // timer) ends exactly when it expires, on any screen.
                // Keys act only on the Buddy screen: elsewhere they leave Wade
                // as a deadline would.
                &&& (event.kind is Deadline || (event.kind is Key && screen != Screen::Buddy)) && expiry_due(m.wade, target)
                    ==> has_expired(final(self).model().wade, m.wade)
                &&& (event.kind is Deadline || (event.kind is Key && screen != Screen::Buddy)) && !expiry_due(m.wade, target)
                    ==> unexpired(final(self).model().wade, m.wade)
                // Leaving the Settings screen saves at once.
                &&& screen == Screen::Settings && final(self).model().screen != Screen::Settings ==> final(self).model().saved
                    == final(self).model().settings
                &&& m.screen == Screen::Settings && chime == Some(Chime::First) && !(event.kind is Touch)
                    ==> final(self).model().saved == final(self).model().settings
                &&& event.kind matches EventKind::Key(key) ==> {
                    &&& final(self).model().screen == screen
                    &&& key is P && screen == Screen::Buddy ==> final(self).model().settings@ == (SettingsModel {
                        eye_style: m.settings@.eye_style.toggled_spec(),
                        ..m.settings@
                    })
                    &&& !(key is P && screen == Screen::Buddy) ==> final(self).model().settings == m.settings
                    &&& key matches Key::Digit(d) ==> (screen == Screen::Buddy ==> final(self).model().wade.expression
                        == crate::character::numbered(d@))
                    &&& (key is Z && screen == Screen::Buddy) ==> final(self).model().wade.asleep
                }
                // A tap lands on the target its `Down` pressed on the screen
                // shown, unless the timer's finishing cancelled the touch.
                &&& event.kind matches EventKind::Touch(touch) ==> {
                    let pressed = if chime == Some(Chime::First) {
                        None
                    } else {
                        m.touch
                    };
                    let tap = tap_of(pressed, screen, timer, touch);
                    &&& tap == Some(Target::Wade) ==> final(self).model().wade.expression == Expression::Happy
                        && final(self).model().wade.expires_at == Some(sat_add(target, crate::character::HAPPY_MS))
                    &&& tap == Some(Target::Apps) ==> final(self).model().screen == Screen::Launcher
                    &&& tap == Some(Target::Tile(Tile::Timer)) ==> final(self).model().screen == Screen::Timer
                    &&& tap == Some(Target::Tile(Tile::Settings)) ==> final(self).model().screen == Screen::Settings
                    &&& tap == Some(Target::Back) ==> final(self).model().screen == back_to(screen, timer)
                    &&& tap == Some(Target::Timer(TimerButton::Dismiss)) ==> final(self).model().screen
                        == Screen::Buddy
                    &&& tap matches Some(Target::Settings(b)) ==> final(self).model().settings@
                        == m.settings@.toggled(b)
                    &&& tap is None ==> final(self).model().screen == screen && final(self).model().timer == timer
                        && final(self).model().settings == m.settings
                    &&& !(tap matches Some(Target::Timer(_))) && tap != Some(Target::Back) ==> final(self).model().timer
                        == timer
                    &&& tap == Some(Target::Back) ==> final(self).model().timer == (if screen == Screen::Timer
                        && timer is Done {
                        TimerState::Ready { set: timer.set() }
                    } else {
                        timer
                    })
                    &&& tap matches Some(Target::Timer(b)) ==> final(self).model().timer == match timer.pressed(
                        b,
                        crate::time::at(target),
                    ) {
                        Some(next) => next,
                        None => timer,
                    }
                    &&& !(tap matches Some(Target::Settings(_))) && !(tap matches Some(Target::Timer(_)))
                        ==> final(self).model().settings == m.settings
                    // A timer button that acted is remembered as the timer setting.
                    &&& tap matches Some(Target::Timer(b)) ==> (b != TimerButton::Dismiss ==> final(self).model().settings@
                        == (match timer.pressed(b, crate::time::at(target)) {
                        Some(next) => match crate::settings::whole_minutes_spec(next.set()) {
                            Some(minutes) => SettingsModel { timer_minutes: minutes, ..m.settings@ },
                            None => m.settings@,
                        },
                        None => m.settings@,
                    }))
                    &&& tap == Some(Target::Timer(TimerButton::Dismiss)) ==> final(self).model().settings == m.settings
                    // A touch that taps anything but Wade, other than one
                    // dismissing the finished timer, leaves his temporary
                    // expression to end as a deadline would.
                    &&& tap != Some(Target::Wade) && !((tap == Some(Target::Timer(TimerButton::Dismiss)) || (tap == Some(
                        Target::Back,
                    ) && screen == Screen::Timer)) && timer is Done) ==> {
                        &&& expiry_due(m.wade, target) ==> has_expired(final(self).model().wade, m.wade)
                        &&& !expiry_due(m.wade, target) ==> unexpired(final(self).model().wade, m.wade)
                    }
                    // What stays pressed: the target under a `Down`, unless it
                    // came too soon after the timer finished; a `Move` off it
                    // and every `Up` release it.
                    &&& !(touch.phase is Down) ==> final(self).model().touch == pressed_after(
                        pressed,
                        touch.phase,
                        hit_on(screen, touch.point, timer.row_spec()),
                    )
                    &&& (touch.phase is Down && target >= final(self).model().touch_guard_until)
                        ==> final(self).model().touch == hit_on(screen, touch.point, timer.row_spec())
                    &&& (touch.phase is Down && target < final(self).model().touch_guard_until)
                        ==> final(self).model().touch is None
                    // Dismissing the finished timer, with its button or Back,
                    // brings Wade's reaction.
                    &&& (tap == Some(Target::Timer(TimerButton::Dismiss)) || (tap == Some(Target::Back) && screen
                        == Screen::Timer)) && timer is Done ==> dismissal_shown(final(self).model().wade, target)
                    &&& (tap == Some(Target::Timer(TimerButton::Dismiss)) || (tap == Some(Target::Back) && screen
                        == Screen::Timer)) && timer is Done && !m.wade.woken_by_timer && chime != Some(Chime::First)
                        ==> final(self).model().wade.expression == Expression::Proud
                }
            }),
            final(self).model().screen != old(self).model().screen ==> out.redraw,
            // Whatever changes what the screen shows asks for a redraw.
            !out.redraw ==> same_view(old(self).model(), final(self).model()),
    {
        let mut out = Output::new();
        // Anything animating before or after this event needs a new frame,
        // and so does a sleeping Wade's next breath.
        if self.animating() || self.breathing() {
            out.redraw = true;
        }
        let digits = self.visible_digits();
        // Clamp: events may arrive slightly out of order.
        let target = self.now.latest(event.at);
        let ghost since = self.model().saved;
        self.advance_to(target, &mut out);
        if self.animating() || self.breathing() || self.visible_digits() != digits {
            out.redraw = true;
        }
        match event.kind {
            EventKind::Touch(touch) => {
                let ghost before = self.model().timer;
                let ghost now = self.now;
                self.on_touch(touch, &mut out, Ghost(since));
                proof {
                    if self.model().timer != before {
                        let b = choose|b: TimerButton| #[trigger]
                            before.pressed(b, now) == Some(self.model().timer);
                        assert(crate::time::at(now@) == now);
                        assert(before.pressed(b, crate::time::at(now@)) == Some(self.model().timer));
                    }
                }
            },
            // Keys act only on the Buddy screen.
            EventKind::Key(key) => {
                if self.screen == Screen::Buddy {
                    if self.on_key(key) {
                        out.redraw = true;
                    }
                }
            },
            EventKind::Deadline => {},
        }
        out
    }

    /// The target under `point` on the current screen.
    fn hit(&self, point: Point) -> (t: Option<Target>)
        ensures
            t == match self.model().screen {
                Screen::Buddy => layout::hit_buddy_spec(point),
                Screen::Launcher => layout::hit_launcher_spec(point),
                Screen::Timer => layout::hit_timer_spec(point, self.model().timer.row_spec()),
                Screen::Settings => layout::hit_settings_spec(point),
            },
    {
        match self.screen {
            Screen::Buddy => layout::hit_buddy(point),
            Screen::Launcher => layout::hit_launcher(point),
            Screen::Timer => layout::hit_timer(point, self.timer.row()),
            Screen::Settings => layout::hit_settings(point),
        }
    }

    fn on_touch(&mut self, touch: Touch, out: &mut Output, Ghost(since): Ghost<Settings>)
        requires
            chime_once(effect_list(old(out).effects)),
            old(self).model().room(effect_list(old(out).effects)),
            old(self).model().wf(),
            old(self).model().saves_ok(effect_list(old(out).effects), since),
            old(self).model().saved_current(effect_list(old(out).effects)),
        ensures
            final(self).model().touch_guard_until == old(self).model().touch_guard_until,
            ({
                let m = old(self).model();
                let hit = hit_on(m.screen, touch.point, m.timer.row_spec());
                &&& !(touch.phase is Down && m.now < m.touch_guard_until) ==> final(self).model().touch
                    == pressed_after(m.touch, touch.phase, hit)
                &&& touch.phase is Down && m.now < m.touch_guard_until ==> final(self).model().touch is None
            }),
            ({
                let m = old(self).model();
                let tap = tap_of(m.touch, m.screen, m.timer, touch);
                &&& tap == Some(Target::Wade) ==> final(self).model().wade == m.wade.showing_for(
                    Expression::Happy,
                    m.now,
                    crate::character::HAPPY_MS,
                ) && final(self).model().screen == m.screen
                &&& tap == Some(Target::Apps) ==> final(self).model().screen == Screen::Launcher
                &&& tap == Some(Target::Tile(Tile::Timer)) ==> final(self).model().screen == Screen::Timer
                &&& tap == Some(Target::Tile(Tile::Settings)) ==> final(self).model().screen == Screen::Settings
                &&& tap == Some(Target::Back) ==> final(self).model().screen == back_to(m.screen, m.timer)
                &&& tap == Some(Target::Timer(TimerButton::Dismiss)) ==> final(self).model().screen == Screen::Buddy
                &&& tap matches Some(Target::Settings(b)) ==> final(self).model().settings@ == m.settings@.toggled(b)
                &&& tap is None ==> final(self).model().screen == m.screen && final(self).model().timer == m.timer
                    && final(self).model().settings == m.settings && final(self).model().wade == m.wade
                &&& !(tap matches Some(Target::Timer(_))) && tap != Some(Target::Back) ==> final(self).model().timer
                    == m.timer
                &&& tap == Some(Target::Back) ==> final(self).model().timer == (if m.screen == Screen::Timer
                    && m.timer is Done {
                    TimerState::Ready { set: m.timer.set() }
                } else {
                    m.timer
                })
                &&& tap matches Some(Target::Timer(b)) ==> final(self).model().timer == match m.timer.pressed(
                    b,
                    old(self).now,
                ) {
                    Some(next) => next,
                    None => m.timer,
                }
                &&& !(tap matches Some(Target::Settings(_))) && !(tap matches Some(Target::Timer(_)))
                    ==> final(self).model().settings == m.settings
                // A timer button that acted is remembered as the timer setting.
                &&& tap matches Some(Target::Timer(b)) ==> (b != TimerButton::Dismiss ==> final(self).model().settings@
                    == (match m.timer.pressed(b, old(self).now) {
                    Some(next) => match crate::settings::whole_minutes_spec(next.set()) {
                        Some(minutes) => SettingsModel { timer_minutes: minutes, ..m.settings@ },
                        None => m.settings@,
                    },
                    None => m.settings@,
                }))
                &&& tap == Some(Target::Timer(TimerButton::Dismiss)) ==> final(self).model().settings == m.settings
                &&& tap != Some(Target::Wade) && !((tap == Some(Target::Timer(TimerButton::Dismiss)) || (tap == Some(
                    Target::Back,
                ) && m.screen == Screen::Timer)) && m.timer is Done) ==> unexpired(final(self).model().wade, m.wade)
            }),
            final(self).model().saves_ok(effect_list(final(out).effects), since),
            final(self).model().wf(),
            final(self).model().now == old(self).model().now,
            effect_list(final(out).effects).contains(Effect::Chime) == effect_list(old(out).effects).contains(
                Effect::Chime,
            ),
            chime_once(effect_list(final(out).effects)),
            crate::character::still_ahead(old(self).model().save_at, old(self).model().now) ==> crate::character::still_ahead(
                final(self).model().save_at,
                final(self).model().now,
            ),
            !final(out).redraw ==> same_look(old(self).model(), final(self).model()) && final(self).model().timer
                == old(self).model().timer,
            old(self).model().screen == Screen::Settings && final(self).model().screen != Screen::Settings
                ==> final(self).model().saved == final(self).model().settings,
            ({
                let m = old(self).model();
                let tap = tap_of(m.touch, m.screen, m.timer, touch);
                (tap == Some(Target::Timer(TimerButton::Dismiss)) || (tap == Some(Target::Back) && m.screen
                    == Screen::Timer)) && m.timer is Done ==> reacted(final(self).model().wade, m.wade, m.now)
            }),
            old(out).redraw ==> final(out).redraw,
            final(self).model().screen != old(self).model().screen ==> final(out).redraw,
            final(self).model().timer == old(self).model().timer || exists|b: TimerButton|
                #[trigger] old(self).model().timer.pressed(b, old(self).now) == Some(final(self).model().timer),
            old(self).model().touch is None ==> final(self).model().screen == old(self).model().screen
                && final(self).model().timer == old(self).model().timer && final(self).model().settings
                == old(self).model().settings,
    {
        let pressed = self.pressed_button();
        let tap = if touch.phase == TouchPhase::Down && self.now.is_before(self.touch_guard_until) {
            self.touch.cancel();
            None
        } else {
            let hit = self.hit(touch.point);
            proof {
                layout::lemma_row_hit_is_a_button(touch.point, self.model().timer.row_spec(), 0);
            }
            self.touch.handle(touch.phase, hit)
        };
        if self.pressed_button() != pressed {
            out.redraw = true;
        }
        match tap {
            Some(Target::Wade) => {
                if self.wade.on_tap(self.now) {
                    out.redraw = true;
                }
            },
            Some(Target::Apps) => self.switch_to(Screen::Launcher, out, Ghost(since)),
            Some(Target::Tile(Tile::Timer)) => self.switch_to(Screen::Timer, out, Ghost(since)),
            Some(Target::Tile(Tile::Settings)) => self.switch_to(Screen::Settings, out, Ghost(since)),
            Some(Target::Back) => self.back(out, Ghost(since)),
            Some(Target::Timer(TimerButton::Dismiss)) => self.dismiss(out, Ghost(since)),
            Some(Target::Timer(button)) => {
                if self.timer.press(button, self.now) {
                    out.redraw = true;
                    self.remember_duration();
                }
            },
            Some(Target::Settings(button)) => {
                self.change_settings(self.settings.toggled(button));
                out.redraw = true;
            },
            None => {},
        }
    }

    /// Back from a finished timer dismisses it, like Dismiss.
    fn back(&mut self, out: &mut Output, Ghost(since): Ghost<Settings>)
        requires
            chime_once(effect_list(old(out).effects)),
            old(self).model().room(effect_list(old(out).effects)),
            old(self).model().wf(),
            old(self).model().saves_ok(effect_list(old(out).effects), since),
            old(self).model().saved_current(effect_list(old(out).effects)),
        ensures
            final(self).model().touch_guard_until == old(self).model().touch_guard_until,
            final(self).model().settings == old(self).model().settings,
            final(self).model().timer == (if old(self).model().screen == Screen::Timer && old(self).model().timer is Done {
                TimerState::Ready { set: old(self).model().timer.set() }
            } else {
                old(self).model().timer
            }),
            final(self).model().touch is None,
            final(self).model().screen == back_to(old(self).model().screen, old(self).model().timer),
            final(self).model().saves_ok(effect_list(final(out).effects), since),
            final(self).model().saved_current(effect_list(final(out).effects)),
            final(self).model().wf(),
            final(self).model().now == old(self).model().now,
            effect_list(final(out).effects).contains(Effect::Chime) == effect_list(old(out).effects).contains(
                Effect::Chime,
            ),
            old(out).redraw ==> final(out).redraw,
            final(out).redraw,
            chime_once(effect_list(final(out).effects)),
            old(self).model().screen == Screen::Settings ==> final(self).model().saved == final(self).model().settings,
            old(self).model().screen == Screen::Timer && old(self).model().timer is Done ==> reacted(
                final(self).model().wade,
                old(self).model().wade,
                old(self).model().now,
            ),
            crate::character::still_ahead(old(self).model().save_at, old(self).model().now) ==> crate::character::still_ahead(
                final(self).model().save_at,
                final(self).model().now,
            ),
            !(old(self).model().screen == Screen::Timer && old(self).model().timer is Done) ==> unexpired(
                final(self).model().wade,
                old(self).model().wade,
            ),
            final(self).model().timer == old(self).model().timer || old(self).model().timer.pressed(
                TimerButton::Dismiss,
                old(self).now,
            ) == Some(final(self).model().timer),
    {
        match self.screen {
            Screen::Timer => {
                if self.timer.phase() == TimerPhase::Done {
                    self.dismiss(out, Ghost(since))
                } else {
                    self.switch_to(Screen::Launcher, out, Ghost(since))
                }
            },
            Screen::Settings => self.switch_to(Screen::Launcher, out, Ghost(since)),
            Screen::Launcher | Screen::Buddy => self.switch_to(Screen::Buddy, out, Ghost(since)),
        }
    }

    /// Dismiss a finished timer and return to Buddy, so Wade can react.
    fn dismiss(&mut self, out: &mut Output, Ghost(since): Ghost<Settings>)
        requires
            chime_once(effect_list(old(out).effects)),
            old(self).model().room(effect_list(old(out).effects)),
            old(self).model().wf(),
            old(self).model().saves_ok(effect_list(old(out).effects), since),
            old(self).model().saved_current(effect_list(old(out).effects)),
        ensures
            final(self).model().touch_guard_until == old(self).model().touch_guard_until,
            final(self).model().settings == old(self).model().settings,
            final(self).model().touch is None,
            final(self).model().saves_ok(effect_list(final(out).effects), since),
            final(self).model().saved_current(effect_list(final(out).effects)),
            final(self).model().wf(),
            final(self).model().now == old(self).model().now,
            effect_list(final(out).effects).contains(Effect::Chime) == effect_list(old(out).effects).contains(
                Effect::Chime,
            ),
            old(out).redraw ==> final(out).redraw,
            final(out).redraw,
            final(self).model().screen == Screen::Buddy,
            chime_once(effect_list(final(out).effects)),
            old(self).model().screen == Screen::Settings ==> final(self).model().saved == final(self).model().settings,
            old(self).model().timer is Done ==> reacted(final(self).model().wade, old(self).model().wade, old(self).model().now),
            !(old(self).model().timer is Done) ==> unexpired(final(self).model().wade, old(self).model().wade),
            crate::character::still_ahead(old(self).model().save_at, old(self).model().now) ==> crate::character::still_ahead(
                final(self).model().save_at,
                final(self).model().now,
            ),
            final(self).model().timer == match old(self).model().timer.pressed(TimerButton::Dismiss, old(self).now) {
                Some(next) => next,
                None => old(self).model().timer,
            },
    {
        if self.timer.press(TimerButton::Dismiss, self.now) {
            if self.wade.timer_dismissed(self.now, &mut self.rng) {
                out.redraw = true;
            }
        }
        self.switch_to(Screen::Buddy, out, Ghost(since));
    }

    /// Apply `settings` at once. Unless that returns them to the last saved,
    /// they are saved once they stop changing.
    fn change_settings(&mut self, settings: Settings)
        requires
            old(self).model().wf(),
        ensures
            final(self).model().wf(),
            final(self).model() == (AppModel {
                settings,
                save_at: final(self).model().save_at,
                ..old(self).model()
            }),
            settings != old(self).model().settings ==> final(self).model().save_at == (if settings
                != old(self).model().saved {
                Some(sat_add(old(self).model().now, SAVE_DELAY_MS))
            } else {
                None
            }),
            settings == old(self).model().settings ==> final(self).model().save_at == old(self).model().save_at,
    {
        if settings == self.settings {
            return;
        }
        self.settings = settings;
        self.save_at = if settings != self.saved {
            Some(self.now.after_millis(SAVE_DELAY_MS))
        } else {
            None
        };
    }

    /// Store the timer's duration in the settings, so it survives a restart.
    fn remember_duration(&mut self)
        requires
            old(self).model().wf(),
        ensures
            final(self).model().settings@ == match crate::settings::whole_minutes_spec(old(self).model().timer.set()) {
                Some(minutes) => SettingsModel { timer_minutes: minutes, ..old(self).model().settings@ },
                None => old(self).model().settings@,
            },
            final(self).model().wf(),
            final(self).model() == (AppModel {
                settings: final(self).model().settings,
                save_at: final(self).model().save_at,
                ..old(self).model()
            }),
            crate::character::still_ahead(old(self).model().save_at, old(self).model().now) ==> crate::character::still_ahead(
                final(self).model().save_at,
                final(self).model().now,
            ),
    {
        if let Some(settings) = self.settings.with_timer(self.timer.duration()) {
            self.change_settings(settings);
        }
    }

    fn on_key(&mut self, key: Key) -> (changed: bool)
        requires
            old(self).model().wf(),
            old(self).model().screen == Screen::Buddy,
        ensures
            final(self).model().touch_guard_until == old(self).model().touch_guard_until,
            final(self).model().saved == old(self).model().saved,
            final(self).model().wf(),
            final(self).model().now == old(self).model().now,
            final(self).model().screen == old(self).model().screen,
            final(self).model().timer == old(self).model().timer,
            final(self).model().touch == old(self).model().touch,
            key is P ==> final(self).model().settings@ == (SettingsModel {
                eye_style: old(self).model().settings@.eye_style.toggled_spec(),
                ..old(self).model().settings@
            }),
            !(key is P) ==> final(self).model().settings == old(self).model().settings,
            key matches Key::Digit(d) ==> final(self).model().wade == old(self).model().wade.showing(
                crate::character::numbered(d@),
                old(self).model().now,
            ),
            key is Z ==> final(self).model().wade.asleep && final(self).model().wade.expression
                == Expression::Sleepy,
            key is P ==> final(self).model().wade == old(self).model().wade,
            crate::character::still_ahead(old(self).model().save_at, old(self).model().now) ==> crate::character::still_ahead(
                final(self).model().save_at,
                final(self).model().now,
            ),
            changed,
    {
        match key {
            Key::Digit(digit) => {
                let expression = match Expression::numbered(digit.get()) {
                    Some(e) => e,
                    None => Expression::Neutral,
                };
                self.wade.show(expression, self.now)
            },
            Key::Z => self.wade.sleep(self.now),
            Key::P => {
                self.change_settings(self.settings.toggled(SettingsButton::EyeStyle));
                true
            },
        }
    }

    /// A chime fell due at `now`. The first brings up the Timer screen, from
    /// any screen, and wakes Wade if he is asleep, even with the chime off.
    fn on_chime(&mut self, chime: Chime, out: &mut Output, Ghost(since): Ghost<Settings>)
        requires
            chime_once(effect_list(old(out).effects)),
            old(self).model().save_pending(),
            old(self).model().room(effect_list(old(out).effects)),
            old(self).model().saves_ok(effect_list(old(out).effects), since),
            old(self).model().saved_current(effect_list(old(out).effects)),
        ensures
            unexpired(final(self).model().wade, old(self).model().wade),
            chime_once(effect_list(final(out).effects)),
            chime != Chime::First ==> final(self).model().wade.woken_by_timer == old(self).model().wade.woken_by_timer,
            old(self).model().screen == Screen::Settings && chime == Chime::First ==> final(self).model().saved
                == final(self).model().settings,
            old(self).model().saved == old(self).model().settings ==> final(self).model().saved
                == final(self).model().settings,
            chime != Chime::First ==> final(out).redraw == old(out).redraw,
            final(self).model().saves_ok(effect_list(final(out).effects), since),
            final(self).model().saved_current(effect_list(final(out).effects)),
            final(self).model().room(effect_list(final(out).effects)),
            effect_list(final(out).effects).contains(Effect::Chime) == (effect_list(
                old(out).effects,
            ).contains(Effect::Chime) || old(self).model().settings@.chime),
            old(out).redraw ==> final(out).redraw,
            chime == Chime::First ==> final(out).redraw,
            final(self).model().now == old(self).model().now,
            final(self).model().timer == old(self).model().timer,
            final(self).model().settings == old(self).model().settings,
            old(self).model().wade.pending_from(old(self).model().now) ==> final(self).model().wade.pending_from(final(self).model().now),
            crate::character::not_before(old(self).model().save_at, old(self).model().now) ==> crate::character::not_before(final(self).model().save_at, final(self).model().now),
            crate::character::still_ahead(old(self).model().save_at, old(self).model().now) ==> crate::character::still_ahead(final(self).model().save_at, final(self).model().now),
            old(self).model().hidden_still() ==> final(self).model().hidden_still(),
            old(self).model().save_pending() ==> final(self).model().save_pending(),
            chime == Chime::First ==> final(self).model().screen == Screen::Timer && final(self).model().touch is None,
            chime != Chime::First ==> final(self).model() == old(self).model(),
    {
        if chime == Chime::First {
            self.wade.timer_finished(self.now);
            self.switch_to(Screen::Timer, out, Ghost(since));
            self.touch_guard_until = self.now.after_millis(TOUCH_GUARD_MS);
        }
        // Chimes that fall due in one event, after a late wake, ring once.
        if self.settings.chime() && !out.effects.contains(&Effect::Chime) {
            proof {
                broadcast use vstd::seq_lib::lemma_seq_contains_after_push;

                lemma_push_keeps_one_chime(effect_list(out.effects), Effect::Chime);
            }
            let _ = out.effects.push(Effect::Chime);
        }
    }

    /// Show `screen`. A screen change cancels any touch in progress, so its
    /// `Up` cannot land on the new screen. The timer finishing does this even
    /// when the Timer screen is already shown. Hidden, Wade stops moving.
    fn switch_to(&mut self, screen: Screen, out: &mut Output, Ghost(since): Ghost<Settings>)
        requires
            chime_once(effect_list(old(out).effects)),
            old(self).model().saves_ok(effect_list(old(out).effects), since),
            old(self).model().saved_current(effect_list(old(out).effects)),
        ensures
            final(self).model().saves_ok(effect_list(final(out).effects), since),
            final(self).model().saved_current(effect_list(final(out).effects)),
            final(self).model() == (AppModel {
                screen,
                touch: None,
                wade: if screen == Screen::Buddy {
                    old(self).model().wade
                } else {
                    WadeModel { settles_at: None, ..old(self).model().wade }
                },
                save_at: final(self).model().save_at,
                saved: final(self).model().saved,
                ..old(self).model()
            }),
            final(self).model().hidden_still(),
            old(self).model().save_pending() ==> final(self).model().save_pending(),
            chime_once(effect_list(final(out).effects)),
            // Leaving the Settings screen saves at once.
            old(self).model().screen == Screen::Settings && screen != Screen::Settings && old(self).model().save_pending()
                && old(self).model().room(effect_list(old(out).effects)) ==> final(self).model().saved
                == final(self).model().settings,
            crate::character::not_before(old(self).model().save_at, old(self).model().now) ==> crate::character::not_before(final(self).model().save_at, final(self).model().now),
            crate::character::still_ahead(old(self).model().save_at, old(self).model().now) ==> crate::character::still_ahead(final(self).model().save_at, final(self).model().now),
            !(old(self).model().screen == Screen::Settings && screen != Screen::Settings) ==> final(self).model().save_at == old(self).model().save_at && final(self).model().saved == old(self).model().saved,
            final(out).redraw,
            old(self).model().room(effect_list(old(out).effects)) ==> final(self).model().room(
                effect_list(final(out).effects),
            ),
            effect_list(final(out).effects).contains(Effect::Chime) == effect_list(
                old(out).effects,
            ).contains(Effect::Chime),
    {
        // Leaving the Settings screen saves at once.
        if self.screen == Screen::Settings && screen != Screen::Settings && self.save_at.is_some() {
            self.save(out, Ghost(since));
        }
        self.screen = screen;
        self.touch.cancel();
        if screen != Screen::Buddy {
            self.wade.leave_screen();
        }
        out.redraw = true;
    }

    /// Save the settings if they changed since they were last saved. With no
    /// room left for the effect, try again a frame later.
    fn save(&mut self, out: &mut Output, Ghost(since): Ghost<Settings>)
        requires
            chime_once(effect_list(old(out).effects)),
            old(self).model().saves_ok(effect_list(old(out).effects), since),
            old(self).model().saved_current(effect_list(old(out).effects)),
        ensures
            final(self).model().saves_ok(effect_list(final(out).effects), since),
            final(self).model().saved_current(effect_list(final(out).effects)),
            final(self).model() == (AppModel {
                save_at: final(self).model().save_at,
                saved: final(self).model().saved,
                ..old(self).model()
            }),
            ({
                let m = old(self).model();
                let list = effect_list(old(out).effects);
                if m.settings == m.saved {
                    final(self).model().save_at is None && final(self).model().saved == m.saved
                        && effect_list(final(out).effects) == list
                } else if list.len() < MAX_EFFECTS {
                    final(self).model().save_at is None && final(self).model().saved == m.settings
                        && effect_list(final(out).effects) == list.push(Effect::SaveSettings(m.settings))
                } else {
                    final(self).model().save_at == Some(sat_add(m.now, FRAME_MS))
                        && final(self).model().saved == m.saved
                        && effect_list(final(out).effects) == list
                }
            }),
            crate::character::still_ahead(final(self).model().save_at, final(self).model().now),
            final(self).model().save_pending(),
            chime_once(effect_list(final(out).effects)),
            final(out).redraw == old(out).redraw,
            old(self).model().room(effect_list(old(out).effects)) ==> final(self).model().room(
                effect_list(final(out).effects),
            ),
            effect_list(final(out).effects).contains(Effect::Chime) == effect_list(
                old(out).effects,
            ).contains(Effect::Chime),
    {
        broadcast use vstd::seq_lib::lemma_seq_contains_after_push;

        self.save_at = None;
        if self.settings == self.saved {
            return;
        }
        proof {
            lemma_push_keeps_one_chime(effect_list(out.effects), Effect::SaveSettings(self.settings));
        }
        match out.effects.push(Effect::SaveSettings(self.settings)) {
            Ok(()) => {
                self.saved = self.settings;
            },
            Err(_) => {
                self.save_at = Some(self.now.after_millis(FRAME_MS));
            },
        }
    }

    /// The button under a touch in progress, drawn pressed. Wade has no pressed look.
    fn pressed_button(&self) -> (t: Option<Target>)
        ensures
            t == (if self.model().touch == Some(Target::Wade) {
                None
            } else {
                self.model().touch
            }),
    {
        match self.touch.pressed() {
            Some(Target::Wade) => None,
            other => other,
        }
    }

    /// The earliest scheduled transition across all features, including
    /// Wade's only if `include_wade`.
    fn next_transition(&self, include_wade: bool) -> (t: Option<Instant>)
        ensures
            opt_ms(t) == self.model().next_transition(include_wade),
    {
        let wade = if include_wade {
            self.wade.next_transition(self.wade_visible())
        } else {
            None
        };
        earliest(earliest(self.timer.next_transition(), self.save_at), wade)
    }

    /// True while a visible feature's pose is changing with time.
    fn animating(&self) -> (b: bool)
        ensures
            b == (self.model().screen == Screen::Buddy && (self.model().wade.settles_at is Some
                || self.model().wade.blink_until is Some)),
    {
        self.wade_visible() && self.wade.animating()
    }

    /// True while Wade sleeps on screen, breathing in steps.
    fn breathing(&self) -> (b: bool)
        ensures
            b == (self.model().screen == Screen::Buddy && self.model().wade.asleep),
    {
        self.wade_visible() && self.wade.asleep()
    }

    fn wade_visible(&self) -> (b: bool)
        ensures
            b == (self.model().screen == Screen::Buddy),
    {
        self.screen == Screen::Buddy
    }

    /// The timer's digits, while the Timer screen shows them.
    fn visible_digits(&self) -> (d: Option<Digits>)
        ensures
            self.model().screen == Screen::Timer ==> (d matches Some(d) && d@ == crate::timer::shown(
                self.model().timer.remaining_spec(self.model().now),
            )),
            self.model().screen != Screen::Timer ==> d is None,
    {
        if self.screen == Screen::Timer {
            Some(self.timer.digits(self.now))
        } else {
            None
        }
    }

    /// Apply the transitions due at `t`, the earliest scheduled, in a fixed
    /// order to break ties: the timer first, because finishing switches
    /// screens, which decides whether Wade is visible; then Wade, unless his
    /// schedule is being restarted; then a due save.
    fn apply_due(&mut self, t: Instant, stalled: bool, out: &mut Output, Ghost(since): Ghost<Settings>)
        requires
            chime_once(effect_list(old(out).effects)),
            old(self).model().saves_ok(effect_list(old(out).effects), since),
            old(self).model().saved_current(effect_list(old(out).effects)),
            old(self).model().now <= t@,
            old(self).model().ready_at(t@, stalled),
            old(self).model().room(effect_list(old(out).effects)),
        ensures
            ({
                let w = old(self).model().wade;
                &&& (!stalled && expiry_due(w, t@)) ==> has_expired(final(self).model().wade, w)
                &&& !(!stalled && expiry_due(w, t@)) ==> unexpired(final(self).model().wade, w)
            }),
            old(self).model().timer.advanced(t@).1 != Some(Chime::First) ==> final(self).model().touch_guard_until
                == old(self).model().touch_guard_until,
            old(self).model().timer.advanced(t@).1 != Some(Chime::First) && old(self).model().screen
                != Screen::Buddy ==> final(out).redraw == old(out).redraw,
            final(self).model().saves_ok(effect_list(final(out).effects), since),
            final(self).model().saved_current(effect_list(final(out).effects)),
            chime_once(effect_list(final(out).effects)),
            !final(out).redraw ==> same_look(old(self).model(), final(self).model()),
            old(self).model().timer.advanced(t@).1 != Some(Chime::First) ==> final(self).model().wade.woken_by_timer
                == old(self).model().wade.woken_by_timer,
            old(self).model().screen == Screen::Settings && old(self).model().timer.advanced(t@).1 == Some(Chime::First)
                ==> final(self).model().saved == final(self).model().settings,
            old(self).model().saved == old(self).model().settings ==> final(self).model().saved
                == final(self).model().settings,
            final(self).model().now == t@,
            final(self).model().done_at(t@, stalled),
            final(self).model().timer == old(self).model().timer.advanced(t@).0,
            final(self).model().settings == old(self).model().settings,
            final(self).model().room(effect_list(final(out).effects)),
            effect_list(final(out).effects).contains(Effect::Chime) == (effect_list(
                old(out).effects,
            ).contains(Effect::Chime) || (old(self).model().settings@.chime && old(self).model().timer.advanced(t@).1 is Some)),
            final(self).model().screen == (if old(self).model().timer.advanced(t@).1 == Some(
                Chime::First,
            ) {
                Screen::Timer
            } else {
                old(self).model().screen
            }),
            old(self).model().timer.advanced(t@).1 == Some(Chime::First) ==> final(self).model().touch is None && final(out).redraw,
            old(self).model().timer.advanced(t@).1 != Some(Chime::First) ==> final(self).model().touch == old(self).model().touch,
            old(out).redraw ==> final(out).redraw,
    {
        self.now = t;
        let ghost before = self.timer;
        if let Some(chime) = self.timer.advance(self.now) {
            self.on_chime(chime, out, Ghost(since));
        }
        proof {
            lemma_next_transition_after_advance(before, t@);
        }
        if !stalled {
            let visible = self.wade_visible();
            if self.wade.advance(self.now, visible) {
                out.redraw = true;
            }
        }
        let save_due = match self.save_at {
            Some(s) => !self.now.is_before(s),
            None => false,
        };
        if save_due {
            self.save(out, Ghost(since));
        }
    }

    /// Advance `now` to `target`, applying every timed transition that became
    /// due along the way in chronological order across features.
    #[verifier::rlimit(80)]
    fn advance_to(&mut self, target: Instant, out: &mut Output)
        requires
            old(self).model().wf(),
            old(self).model().now <= target@,
            effect_list(old(out).effects) == Seq::<Effect>::empty(),
        ensures
            chime_once(effect_list(final(out).effects)),
            crate::character::still_ahead(final(self).model().save_at, target@),
            !final(out).redraw ==> same_look(old(self).model(), final(self).model()),
            final(self).model().room(effect_list(final(out).effects)),
            old(self).model().timer.advanced(target@).1 != Some(Chime::First) ==> final(self).model().wade.woken_by_timer
                == old(self).model().wade.woken_by_timer,
            old(self).model().screen == Screen::Settings && old(self).model().timer.advanced(target@).1 == Some(
                Chime::First,
            ) ==> final(self).model().saved == final(self).model().settings,
            expiry_due(old(self).model().wade, target@) ==> has_expired(final(self).model().wade, old(self).model().wade),
            !expiry_due(old(self).model().wade, target@) ==> unexpired(final(self).model().wade, old(self).model().wade),
            old(self).model().timer.advanced(target@).1 != Some(Chime::First) ==> final(self).model().touch_guard_until
                == old(self).model().touch_guard_until,
            old(self).model().timer.advanced(target@).1 != Some(Chime::First) && old(self).model().screen
                != Screen::Buddy ==> final(out).redraw == old(out).redraw,
            final(self).model().wf(),
            final(self).model().now == target@,
            final(self).model().timer == old(self).model().timer.advanced(target@).0,
            final(self).model().settings == old(self).model().settings,
            effect_list(final(out).effects).contains(Effect::Chime) == (old(self).model().settings@.chime
                && old(self).model().timer.advanced(target@).1 is Some),
            final(self).model().screen == (if old(self).model().timer.advanced(target@).1 == Some(
                Chime::First,
            ) {
                Screen::Timer
            } else {
                old(self).model().screen
            }),
            old(self).model().timer.advanced(target@).1 == Some(Chime::First) ==> final(self).model().touch is None
                && final(out).redraw,
            old(self).model().timer.advanced(target@).1 != Some(Chime::First) ==> final(self).model().touch
                == old(self).model().touch,
            old(out).redraw ==> final(out).redraw,
            final(self).model().saves_ok(effect_list(final(out).effects), old(self).model().saved),
            final(self).model().saved_current(effect_list(final(out).effects)),
    {
        // Past STALL_LIMIT, Wade restarts his idle schedule instead of
        // replaying it. The timer's few transitions still replay first, in
        // order, and see Wade as of the last event.
        let stalled = match self.wade.next_transition(self.wade_visible()) {
            Some(t) => target.saturating_since(t).as_nanos() > STALL_LIMIT_MS as u128
                * NANOS_PER_MILLI,
            None => false,
        };
        let ghost start = self.model();
        let ghost redraw = out.redraw;
        let mut first = true;
        loop
            invariant_except_break
                start.wf(),
                start.now <= target@,
                self.model().now <= target@,
                first ==> self.model() == start,
                first ==> effect_list(out.effects) == Seq::<Effect>::empty(),
                !first ==> self.model().done_at(self.model().now, stalled),
                !first ==> self.model().timer == start.timer.advanced(self.model().now).0,
                self.model().settings == start.settings,
                self.model().room(effect_list(out.effects)),
                chime_once(effect_list(out.effects)),
                !out.redraw ==> same_look(start, self.model()),
                !first && start.timer.advanced(self.model().now).1 != Some(Chime::First) ==> self.model().wade.woken_by_timer
                    == start.wade.woken_by_timer,
                !first && start.screen == Screen::Settings && start.timer.advanced(self.model().now).1 == Some(Chime::First)
                    ==> self.model().saved == self.model().settings,
                effect_list(out.effects).contains(Effect::Chime) == (!first && start.settings@.chime
                    && start.timer.advanced(self.model().now).1 is Some),
                !first ==> self.model().screen == (if start.timer.advanced(self.model().now).1 == Some(
                    Chime::First,
                ) {
                    Screen::Timer
                } else {
                    start.screen
                }),
                !first && start.timer.advanced(self.model().now).1 == Some(Chime::First) ==> self.model().touch
                    is None && out.redraw,
                !first && start.timer.advanced(self.model().now).1 != Some(Chime::First) ==> self.model().touch
                    == start.touch,
                redraw ==> out.redraw,
                self.model().saves_ok(effect_list(out.effects), start.saved),
                self.model().saved_current(effect_list(out.effects)),
                !first && start.timer.advanced(self.model().now).1 != Some(Chime::First) && start.screen
                    != Screen::Buddy ==> out.redraw == redraw,
                first ==> out.redraw == redraw,
                !first && !stalled && expiry_due(start.wade, self.model().now) ==> has_expired(self.model().wade, start.wade),
                !first && !stalled && !expiry_due(start.wade, self.model().now) ==> unexpired(self.model().wade, start.wade),
                !first && stalled ==> unexpired(self.model().wade, start.wade),
                !first && start.timer.advanced(self.model().now).1 != Some(Chime::First) ==> self.model().touch_guard_until
                    == start.touch_guard_until,
            ensures
                self.model().now <= target@,
                self.model().ready_at(target@, stalled),
                crate::character::still_ahead(self.model().save_at, target@),
                !stalled && expiry_due(start.wade, target@) ==> !first && expiry_due(start.wade, self.model().now),
                self.model().timer.next_transition_spec() matches Some(x) ==> x > target@,
                first ==> self.model() == start,
                first ==> effect_list(out.effects) == Seq::<Effect>::empty(),
                !first ==> self.model().timer == start.timer.advanced(self.model().now).0,
                self.model().settings == start.settings,
                self.model().room(effect_list(out.effects)),
                chime_once(effect_list(out.effects)),
                !out.redraw ==> same_look(start, self.model()),
                !first && start.timer.advanced(self.model().now).1 != Some(Chime::First) ==> self.model().wade.woken_by_timer
                    == start.wade.woken_by_timer,
                !first && start.screen == Screen::Settings && start.timer.advanced(self.model().now).1 == Some(Chime::First)
                    ==> self.model().saved == self.model().settings,
                effect_list(out.effects).contains(Effect::Chime) == (!first && start.settings@.chime
                    && start.timer.advanced(self.model().now).1 is Some),
                !first ==> self.model().screen == (if start.timer.advanced(self.model().now).1 == Some(
                    Chime::First,
                ) {
                    Screen::Timer
                } else {
                    start.screen
                }),
                !first && start.timer.advanced(self.model().now).1 == Some(Chime::First) ==> self.model().touch
                    is None && out.redraw,
                !first && start.timer.advanced(self.model().now).1 != Some(Chime::First) ==> self.model().touch
                    == start.touch,
                redraw ==> out.redraw,
                self.model().saves_ok(effect_list(out.effects), start.saved),
                self.model().saved_current(effect_list(out.effects)),
                !first && start.timer.advanced(self.model().now).1 != Some(Chime::First) && start.screen
                    != Screen::Buddy ==> out.redraw == redraw,
                first ==> out.redraw == redraw,
                !first && !stalled && expiry_due(start.wade, self.model().now) ==> has_expired(self.model().wade, start.wade),
                !first && !stalled && !expiry_due(start.wade, self.model().now) ==> unexpired(self.model().wade, start.wade),
                !first && stalled ==> unexpired(self.model().wade, start.wade),
                !first && start.timer.advanced(self.model().now).1 != Some(Chime::First) ==> self.model().touch_guard_until
                    == start.touch_guard_until,
            decreases (target@ - self.model().now) * 2 + if first {
                1int
            } else {
                0int
            },
        {
            let next = self.next_transition(!stalled);
            proof {
                if first {
                    lemma_nothing_before(self.model(), !stalled, self.model().now);
                } else {
                    lemma_next_is_ahead(self.model(), self.model().now, stalled);
                }
                if !stalled && self.model().wade.expires_at is Some {
                    lemma_expiry_bounds_next(self.model(), self.model().wade.expires_at->0);
                }
            }
            let t = match next {
                Some(t) => t,
                None => {
                    proof {
                        lemma_nothing_earlier(self.model(), !stalled, target@);
                    }
                    break;
                },
            };
            proof {
                lemma_nothing_earlier(self.model(), !stalled, t@);
            }
            if target.is_before(t) {
                break;
            }
            if !first && !self.now.is_before(t) {
                // No feature moved past `now`: only once schedules saturate.
                break;
            }
            let ghost was_first = first;
            let ghost now_before = self.model().now;
            first = false;
            self.apply_due(t, stalled, out, Ghost(start.saved));
            proof {
                if !was_first {
                    lemma_advance_in_steps(start.timer, now_before, t@);
                }
            }
        }
        proof {
            if first {
                crate::timer::lemma_advanced_when_nothing_due(start.timer, target@);
            } else {
                lemma_advance_in_steps(start.timer, self.model().now, target@);
                crate::timer::lemma_advanced_when_nothing_due(self.timer, target@);
            }
        }
        if stalled {
            self.wade.fast_forward(target);
            if self.wade_visible() {
                out.redraw = true;
            }
        }
        self.now = target;
    }

    /// The earliest time the core needs a `Deadline` event, or `None` if
    /// nothing visible will change without input and no save is pending.
    /// Always later than the last handled event.
    pub fn next_deadline(&self) -> (d: Option<Instant>)
        ensures
            opt_ms(d) == self.model().deadline(),
            d matches Some(d) ==> d@ > self.model().now,
    {
        // Hidden, Wade requests nothing: his schedule catches up at the next event.
        let wade = if self.wade_visible() {
            self.wade.next_transition(true)
        } else {
            None
        };
        let tick = if self.screen == Screen::Timer {
            self.timer.next_tick(self.now)
        } else {
            None
        };
        let frame = if self.animating() {
            Some(self.now.after_millis(FRAME_MS))
        } else if self.wade_visible() && self.wade.asleep() {
            Some(self.now.after_millis(SLEEP_STEP_MS))
        } else {
            None
        };
        let deadline = earliest(
            earliest(earliest(earliest(wade, self.timer.next_transition()), self.save_at), tick),
            frame,
        );
        match deadline {
            // At the latest instant nothing can be scheduled later.
            Some(d) => if self.now.is_before(d) {
                Some(d)
            } else {
                None
            },
            None => None,
        }
    }

    /// Settings changed since they were last saved, for a platform about to
    /// stop to store.
    pub fn unsaved_settings(&self) -> (s: Option<Settings>)
        ensures
            self.model().settings != self.model().saved ==> s == Some(self.model().settings),
            self.model().settings == self.model().saved ==> s is None,
    {
        if self.settings != self.saved {
            Some(self.settings)
        } else {
            None
        }
    }

    /// What is on screen, as plain data, as of the last handled event.
    pub fn view(&self) -> (v: crate::view::View)
        ensures
            ({
                let m = self.model();
                let pressed = if m.touch == Some(Target::Wade) {
                    None
                } else {
                    m.touch
                };
                match m.screen {
                    Screen::Buddy => v matches crate::view::View::Buddy(b) && b.expression == m.wade.expression
                        && b.asleep == m.wade.asleep && b.blinking == (m.wade.blink_until is Some)
                        && b.eye_style == m.settings@.eye_style && b.color == m.settings@.color
                        && b.apps_pressed == (m.touch == Some(Target::Apps)),
                    Screen::Launcher => v matches crate::view::View::Launcher(l) && l.pressed == pressed,
                    Screen::Timer => v matches crate::view::View::Timer(t) && t.phase == m.timer.phase_spec()
                        && t.digits@ == crate::timer::shown(m.timer.remaining_spec(m.now)) && t.row@
                        == m.timer.row_spec() && t.pressed == pressed,
                    Screen::Settings => v matches crate::view::View::Settings(s) && s.settings == m.settings
                        && s.pressed == pressed,
                }
            }),
    {
        match self.screen {
            Screen::Buddy => crate::view::View::Buddy(
                BuddyView {
                    expression: self.wade.expression(),
                    asleep: self.wade.asleep(),
                    blinking: self.wade.blinking(),
                    eye_style: self.settings.eye_style(),
                    color: self.settings.color(),
                    apps_pressed: self.touch.pressed() == Some(Target::Apps),
                },
            ),
            Screen::Launcher => crate::view::View::Launcher(LauncherView { pressed: self.pressed_button() }),
            Screen::Timer => crate::view::View::Timer(
                TimerView {
                    phase: self.timer.phase(),
                    digits: self.timer.digits(self.now),
                    row: self.timer.row(),
                    pressed: self.pressed_button(),
                },
            ),
            Screen::Settings => crate::view::View::Settings(
                SettingsView { settings: self.settings, pressed: self.pressed_button() },
            ),
        }
    }

    /// The latest timestamp the core has seen.
    pub fn now(&self) -> (t: Instant)
        ensures
            t@ == self.model().now,
    {
        self.now
    }

    pub fn screen(&self) -> (s: Screen)
        ensures
            s == self.model().screen,
    {
        self.screen
    }

    pub fn settings(&self) -> (s: Settings)
        ensures
            s == self.model().settings,
    {
        self.settings
    }

    /// The timer, which runs on every screen.
    pub fn timer_state(&self) -> (t: TimerState)
        ensures
            t == self.model().timer,
    {
        self.timer
    }

    /// Wade's state, on every screen.
    pub fn wade(&self) -> (w: &Wade)
        ensures
            w@ == self.model().wade,
    {
        &self.wade
    }
}

/// The earlier of two optional instants.
fn earliest(a: Option<Instant>, b: Option<Instant>) -> (r: Option<Instant>)
    ensures
        opt_ms(r) == crate::character::sooner(opt_ms(a), opt_ms(b)),
{
    match (a, b) {
        (Some(x), Some(y)) => Some(x.earliest(y)),
        (Some(x), None) => Some(x),
        (None, y) => y,
    }
}

} // verus!
