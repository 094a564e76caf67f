//! Test harness: drives `App` exactly as a platform does, and the state hash
//! that recordings check.

use vstd::prelude::*;

use crate::app::{clamped, pressed_look, App, AppModel, Screen};
use crate::character::Expression;
use crate::event::{Event, EventKind, Key, TouchPhase};
use crate::geometry::Point;
use crate::layout::Target;
use crate::output::{effect_list, Effect, Output};
use crate::settings::Settings;
use crate::time::Instant;
use crate::timer::{Digits, RowButton, TimerPhase};
use crate::view::{BuddyView, ColorMode, EyeStyle, LauncherView, SettingsView, TimerView};

verus! {

broadcast use crate::time::group_time;

/// The discrete part of the view, which must only change at a requested
/// deadline or an input. Wade's pose is left out.
#[derive(Clone, Copy, Debug, PartialEq, Eq, Structural)]
pub enum Discrete {
    Buddy {
        expression: Expression,
        asleep: bool,
        blinking: bool,
        eye_style: EyeStyle,
        color: ColorMode,
        apps_pressed: bool,
    },
    Launcher { pressed: Option<Target> },
    Timer {
        phase: TimerPhase,
        digits: Digits,
        left: Option<RowButton>,
        center: Option<RowButton>,
        right: Option<RowButton>,
        pressed: Option<Target>,
    },
    Settings { settings: Settings, pressed: Option<Target> },
}

/// The discrete part of `view`.
pub fn discrete(view: &crate::view::View) -> (d: Discrete)
    ensures
        d == discrete_spec(*view),
{
    match view {
        crate::view::View::Buddy(b) => Discrete::Buddy {
            expression: b.expression,
            asleep: b.asleep,
            blinking: b.blinking,
            eye_style: b.eye_style,
            color: b.color,
            apps_pressed: b.apps_pressed,
        },
        crate::view::View::Launcher(l) => Discrete::Launcher { pressed: l.pressed },
        crate::view::View::Timer(t) => Discrete::Timer {
            phase: t.phase,
            digits: t.digits,
            left: t.row[0],
            center: t.row[1],
            right: t.row[2],
            pressed: t.pressed,
        },
        crate::view::View::Settings(s) => Discrete::Settings { settings: s.settings, pressed: s.pressed },
    }
}

/// The discrete part of `view`, for specifications.
pub open spec fn discrete_spec(view: crate::view::View) -> Discrete {
    match view {
        crate::view::View::Buddy(b) => Discrete::Buddy {
            expression: b.expression,
            asleep: b.asleep,
            blinking: b.blinking,
            eye_style: b.eye_style,
            color: b.color,
            apps_pressed: b.apps_pressed,
        },
        crate::view::View::Launcher(l) => Discrete::Launcher { pressed: l.pressed },
        crate::view::View::Timer(t) => Discrete::Timer {
            phase: t.phase,
            digits: t.digits,
            left: t.row@[0],
            center: t.row@[1],
            right: t.row@[2],
            pressed: t.pressed,
        },
        crate::view::View::Settings(s) => Discrete::Settings { settings: s.settings, pressed: s.pressed },
    }
}

/// The discrete part of the view of an app in state `m`.
pub open spec fn discrete_of(m: AppModel) -> Discrete {
    match m.screen {
        Screen::Buddy => Discrete::Buddy {
            expression: m.wade.expression,
            asleep: m.wade.asleep,
            blinking: m.wade.blink_until is Some,
            eye_style: m.settings@.eye_style,
            color: m.settings@.color,
            apps_pressed: m.touch == Some(Target::Apps),
        },
        Screen::Launcher => Discrete::Launcher { pressed: pressed_look(m.touch) },
        Screen::Timer => {
            let d = crate::timer::shown(m.timer.remaining_spec(m.now));
            Discrete::Timer {
                phase: m.timer.phase_spec(),
                digits: crate::timer::clock(d.0, d.1),
                left: m.timer.row_spec()[0],
                center: m.timer.row_spec()[1],
                right: m.timer.row_spec()[2],
                pressed: pressed_look(m.touch),
            }
        },
        Screen::Settings => Discrete::Settings { settings: m.settings, pressed: pressed_look(m.touch) },
    }
}

/// Drives an `App` as a platform would, and keeps every effect it emits.
pub struct Harness {
    app: App,
    effects: Vec<Effect>,
    /// The app's state and the number of effects emitted just before the
    /// last deadline that `settle` delivered.
    settled_from: Ghost<(AppModel, nat)>,
    /// The same just after it.
    settled_to: Ghost<(AppModel, nat)>,
    /// The app's state after each input event handled, in order.
    inputs: Ghost<Seq<AppModel>>,
}

impl Harness {
    /// The app is ready for the next event.
    pub closed spec fn ready(self) -> bool {
        self.app.model().wf()
    }

    /// Every effect emitted so far, in order.
    pub closed spec fn emitted(self) -> Seq<Effect> {
        self.effects@
    }

    /// The app being driven, for specifications.
    pub closed spec fn driven(self) -> App {
        self.app
    }

    /// The app's state, and how many effects had been emitted, just before
    /// the last deadline delivered by `settle`.
    pub closed spec fn last_settle(self) -> (AppModel, nat) {
        self.settled_from@
    }

    /// The app's state after each input (touch or key) event handled so far,
    /// in order.
    pub closed spec fn after_inputs(self) -> Seq<AppModel> {
        self.inputs@
    }

    /// The app's state, and how many effects had been emitted, just after
    /// the last deadline delivered by `settle`.
    pub closed spec fn settled(self) -> (AppModel, nat) {
        self.settled_to@
    }

    /// The last deadline delivered by `settle` changed nothing: the discrete
    /// view stayed the same and there were no effects.
    pub open spec fn settled_quietly(self) -> bool {
        discrete_of(self.last_settle().0) == discrete_of(self.settled().0) && self.last_settle().1 == self.settled().1
    }

    /// Start at time zero with the default settings.
    pub fn new(seed: u64) -> (h: Harness)
        ensures
            h.driven().model().now == 0,
            h.driven().model().screen == Screen::Buddy,
            h.driven().model().settings@ == crate::settings::default_model(),
            h.emitted() == Seq::<Effect>::empty(),
            h.after_inputs() == Seq::<AppModel>::empty(),
            h.ready(),
    {
        Harness::with_settings(seed, Settings::defaults())
    }

    /// Start at time zero with `settings`, as if the platform loaded them.
    pub fn with_settings(seed: u64, settings: Settings) -> (h: Harness)
        ensures
            h.driven().model().now == 0,
            h.driven().model().screen == Screen::Buddy,
            h.driven().model().settings == settings,
            h.emitted() == Seq::<Effect>::empty(),
            h.after_inputs() == Seq::<AppModel>::empty(),
            h.ready(),
    {
        let app = App::new(Instant::from_millis(0), seed, settings);
        let ghost start = app.model();
        Harness {
            app,
            effects: Vec::new(),
            settled_from: Ghost((start, 0)),
            settled_to: Ghost((start, 0)),
            inputs: Ghost(Seq::empty()),
        }
    }

    /// The app being driven.
    pub fn app(&self) -> (a: &App)
        ensures
            *a == self.driven(),
            self.ready() ==> a.model().wf(),
    {
        &self.app
    }

    /// Every effect emitted so far, in order.
    pub fn effects(&self) -> (e: &[Effect])
        ensures
            e@ == self.emitted(),
    {
        self.effects.as_slice()
    }

    /// Deliver one event and record its effects.
    pub fn handle(&mut self, event: Event) -> (out: Output)
        requires
            old(self).ready(),
        ensures
            final(self).ready(),
            final(self).driven().model().now == clamped(old(self).driven().model().now, event.at@),
            final(self).emitted() == old(self).emitted() + effect_list(out.effects),
            final(self).last_settle() == old(self).last_settle(),
            final(self).settled() == old(self).settled(),
            event.kind is Deadline ==> final(self).after_inputs() == old(self).after_inputs(),
            !(event.kind is Deadline) ==> final(self).after_inputs() == old(self).after_inputs().push(
                final(self).driven().model(),
            ),
    {
        let out = self.app.handle(event);
        match event.kind {
            EventKind::Deadline => {},
            _ => {
                let ghost after = self.app.model();
                self.inputs = Ghost(self.inputs@.push(after));
            },
        }
        let list = out.effects.as_slice();
        let mut i: usize = 0;
        while i < list.len()
            invariant
                i <= list@.len(),
                list@ == effect_list(out.effects),
                self.effects@ == old(self).effects@ + list@.take(i as int),
                self.ready(),
                self.app.model().now == clamped(old(self).app.model().now, event.at@),
                self.app.model().wf(),
                self.settled_from == old(self).settled_from,
                self.settled_to == old(self).settled_to,
                event.kind is Deadline ==> self.inputs@ == old(self).inputs@,
                !(event.kind is Deadline) ==> self.inputs@ == old(self).inputs@.push(self.app.model()),
            decreases list@.len() - i,
        {
            self.effects.push(list[i]);
            i = i + 1;
            proof {
                assert(list@.take(i as int) == list@.take((i - 1) as int).push(list@[i - 1]));
            }
        }
        proof {
            assert(list@.take(i as int) == list@);
        }
        out
    }

    /// The discrete part of the current view.
    fn discrete_now(&self) -> (d: Discrete)
        requires
            self.ready(),
        ensures
            d == discrete_of(self.driven().model()),
    {
        broadcast use crate::timer::group_digits;

        let v = self.app.view();
        let d = discrete(&v);
        proof {
            if self.app.model().screen == Screen::Timer {
                let t = v->Timer_0;
                assert(t.digits == crate::timer::clock(t.digits@.0, t.digits@.1));
            }
        }
        d
    }

    /// Deliver a Deadline event at `t`, which no deadline requested. Returns
    /// true if it changed nothing: the discrete view stayed the same and
    /// there were no effects.
    pub fn settle(&mut self, t: Instant) -> (quiet: bool)
        requires
            old(self).ready(),
        ensures
            final(self).ready(),
            final(self).driven().model().now == clamped(old(self).driven().model().now, t@),
            old(self).emitted().is_prefix_of(final(self).emitted()),
            final(self).last_settle() == (old(self).driven().model(), old(self).emitted().len()),
            final(self).settled() == (final(self).driven().model(), final(self).emitted().len()),
            final(self).after_inputs() == old(self).after_inputs(),
            quiet == final(self).settled_quietly(),
            quiet == (discrete_of(old(self).driven().model()) == discrete_of(final(self).driven().model())
                && final(self).emitted() == old(self).emitted()),
    {
        let before = self.discrete_now();
        let ghost from = (self.app.model(), self.effects@.len());
        let ghost effects = self.effects@;
        let out = self.handle(Event::deadline(t));
        proof {
            assert(effects.is_prefix_of(self.effects@));
        }
        self.settled_from = Ghost(from);
        self.settled_to = Ghost((self.app.model(), self.effects@.len()));
        let after = self.discrete_now();
        let none = out.effects.len() == 0;
        proof {
            if none {
                assert(self.effects@ =~= effects);
            } else {
                assert(self.effects@.len() > effects.len());
            }
        }
        before == after && none
    }

    /// Deliver a Deadline event at every deadline the app requests up to and
    /// including `t`, exactly as a platform would, then deliver one at `t`
    /// with `settle`. Returns false if that last Deadline changed the
    /// discrete view or had effects: the app changed at or before `t` without
    /// requesting a deadline for it, which a real platform would never have
    /// woken up for.
    pub fn run_until(&mut self, t: Instant) -> (quiet: bool)
        requires
            old(self).ready(),
            old(self).driven().model().now <= t@,
        ensures
            final(self).ready(),
            final(self).driven().model().now == t@,
            old(self).emitted().is_prefix_of(final(self).emitted()),
            quiet == final(self).settled_quietly(),
            final(self).settled() == (final(self).driven().model(), final(self).emitted().len()),
            final(self).after_inputs() == old(self).after_inputs(),
            ({
                let (from, count) = final(self).last_settle();
                &&& from.now <= t@
                &&& old(self).emitted().len() <= count <= final(self).emitted().len()
                &&& quiet == (discrete_of(from) == discrete_of(final(self).driven().model())
                    && count == final(self).emitted().len())
            }),
    {
        loop
            invariant
                self.ready(),
                self.app.model().now <= t@,
                old(self).effects@.is_prefix_of(self.effects@),
                self.inputs@ == old(self).inputs@,
            decreases t@ - self.app.model().now,
        {
            let deadline = match self.app.next_deadline() {
                Some(d) => d,
                None => break,
            };
            if t.is_before(deadline) {
                break;
            }
            let ghost before = self.effects@;
            let _ = self.handle(Event::deadline(deadline));
            proof {
                assert(before.is_prefix_of(self.effects@));
            }
        }
        let ghost effects = self.effects@;
        let quiet = self.settle(t);
        proof {
            assert(old(self).effects@.is_prefix_of(self.effects@));
            assert(effects.is_prefix_of(self.effects@));
            assert(old(self).effects@.len() <= effects.len());
            if effects.len() == self.effects@.len() {
                assert(effects =~= self.effects@.subrange(0, effects.len() as int));
                assert(self.effects@ =~= self.effects@.subrange(0, effects.len() as int));
            }
        }
        quiet
    }

    /// Run until `t`, then deliver a Down and an Up at `point`. Returns false
    /// as `run_until` does.
    pub fn tap(&mut self, t: Instant, point: Point) -> (quiet: bool)
        requires
            old(self).ready(),
            old(self).driven().model().now <= t@,
        ensures
            final(self).ready(),
            final(self).driven().model().now == t@,
            quiet == final(self).settled_quietly(),
            final(self).last_settle().0.now <= t@,
    {
        let quiet = self.run_until(t);
        let _ = self.handle(Event::touch(t, TouchPhase::Down, point));
        let _ = self.handle(Event::touch(t, TouchPhase::Up, point));
        quiet
    }

    /// Run until `t`, then deliver a key press. Returns false as `run_until`
    /// does.
    pub fn key(&mut self, t: Instant, key: Key) -> (quiet: bool)
        requires
            old(self).ready(),
            old(self).driven().model().now <= t@,
        ensures
            final(self).ready(),
            final(self).driven().model().now == t@,
            quiet == final(self).settled_quietly(),
            final(self).last_settle().0.now <= t@,
    {
        let quiet = self.run_until(t);
        let _ = self.handle(Event::key(t, key));
        quiet
    }

    /// Run until `t`, then deliver one raw touch sample. Returns false as
    /// `run_until` does.
    pub fn touch(&mut self, t: Instant, phase: TouchPhase, point: Point) -> (quiet: bool)
        requires
            old(self).ready(),
            old(self).driven().model().now <= t@,
        ensures
            final(self).ready(),
            final(self).driven().model().now == t@,
            quiet == final(self).settled_quietly(),
            final(self).last_settle().0.now <= t@,
    {
        let quiet = self.run_until(t);
        let _ = self.handle(Event::touch(t, phase, point));
        quiet
    }

    /// The current view, if it is the Buddy screen.
    pub fn buddy(&self) -> (b: Option<BuddyView>)
        ensures
            (self.driven().model().screen == Screen::Buddy) == (b is Some),
    {
        match self.app.view() {
            crate::view::View::Buddy(buddy) => Some(buddy),
            _ => None,
        }
    }

    /// The current view, if it is the Launcher.
    pub fn launcher(&self) -> (l: Option<LauncherView>)
        ensures
            (self.driven().model().screen == Screen::Launcher) == (l is Some),
    {
        match self.app.view() {
            crate::view::View::Launcher(launcher) => Some(launcher),
            _ => None,
        }
    }

    /// The current view, if it is the Timer screen.
    pub fn timer(&self) -> (t: Option<TimerView>)
        ensures
            (self.driven().model().screen == Screen::Timer) == (t is Some),
    {
        match self.app.view() {
            crate::view::View::Timer(timer) => Some(timer),
            _ => None,
        }
    }

    /// The current view, if it is the Settings screen.
    pub fn settings(&self) -> (s: Option<SettingsView>)
        ensures
            (self.driven().model().screen == Screen::Settings) == (s is Some),
    {
        match self.app.view() {
            crate::view::View::Settings(settings) => Some(settings),
            _ => None,
        }
    }

    /// True while Wade is asleep, on any screen.
    pub fn wade_asleep(&self) -> (b: bool)
        ensures
            b == self.driven().model().wade.asleep,
    {
        self.app.wade().asleep()
    }

    /// Hash of the app's discrete state; see [`state_hash`].
    pub fn state_hash(&self) -> (h: u32)
        ensures
            h == fnv1a_spec(hashed(self.driven())),
    {
        state_hash(&self.app)
    }
}

/// FNV-1a's starting value.
pub const FNV_OFFSET: u32 = 0x811c_9dc5;
/// FNV-1a's multiplier.
pub const FNV_PRIME: u32 = 0x0100_0193;

/// The 32-bit FNV-1a hash of `bytes`: from the offset, each byte is folded in
/// with an exclusive or, then a multiplication by the prime, modulo 2³².
pub open spec fn fnv1a_spec(bytes: Seq<u8>) -> u32
    decreases bytes.len(),
{
    if bytes.len() == 0 {
        FNV_OFFSET
    } else {
        (((fnv1a_spec(bytes.drop_last()) ^ (bytes.last() as u32)) as nat * FNV_PRIME as nat)
            % 0x1_0000_0000) as u32
    }
}

/// The 32-bit FNV-1a hash of `bytes`, which is stable across platforms.
pub fn fnv1a(bytes: &[u8]) -> (h: u32)
    ensures
        h == fnv1a_spec(bytes@),
{
    let mut h: u32 = FNV_OFFSET;
    let mut i: usize = 0;
    while i < bytes.len()
        invariant
            i <= bytes@.len(),
            h == fnv1a_spec(bytes@.take(i as int)),
        decreases bytes@.len() - i,
    {
        proof {
            assert(bytes@.take(i as int + 1).drop_last() == bytes@.take(i as int));
        }
        h = (h ^ (bytes[i] as u32)).wrapping_mul(FNV_PRIME);
        i = i + 1;
    }
    proof {
        assert(bytes@.take(i as int) == bytes@);
    }
    h
}

/// Whole minutes in `d`, saturating at 255.
pub open spec fn minutes_byte(nanos: nat) -> u8 {
    if nanos / 60_000_000_000 > 255 {
        255
    } else {
        (nanos / 60_000_000_000) as u8
    }
}

/// The stable code of each screen in the hash. Never renumber these.
pub open spec fn screen_code(s: Screen) -> u8 {
    match s {
        Screen::Buddy => 0,
        Screen::Timer => 1,
        Screen::Launcher => 2,
        Screen::Settings => 3,
    }
}

/// The stable code of each expression in the hash. Never renumber these.
pub open spec fn expression_code(e: Expression) -> u8 {
    match e {
        Expression::Neutral => 0,
        Expression::Happy => 1,
        Expression::Sad => 2,
        Expression::Angry => 3,
        Expression::Surprised => 4,
        Expression::Sleepy => 5,
        Expression::Thinking => 6,
        Expression::Proud => 7,
        Expression::Focused => 8,
        Expression::Flustered => 9,
    }
}

/// The stable code of each timer phase in the hash.
pub open spec fn phase_code(p: TimerPhase) -> u8 {
    match p {
        TimerPhase::Ready => 0,
        TimerPhase::Running => 1,
        TimerPhase::Paused => 2,
        TimerPhase::Done => 3,
    }
}

/// The bytes the state hash covers: the screen, Wade's expression and sleep
/// state (on every screen), the eye style, the timer's phase, duration and
/// digits, and the other settings. Wade's pose and the pixels are left out,
/// so tuning animation does not change it.
pub open spec fn hashed(app: App) -> Seq<u8> {
    hashed_model(app.model())
}

/// The state hash of an app in state `m`.
pub open spec fn state_hash_of(m: AppModel) -> u32 {
    fnv1a_spec(hashed_model(m))
}

/// The bytes the state hash covers of an app in state `m`; see [`hashed`].
pub open spec fn hashed_model(m: AppModel) -> Seq<u8> {
    let digits = crate::timer::shown(m.timer.remaining_spec(m.now));
    seq![
        screen_code(m.screen),
        expression_code(m.wade.expression),
        if m.wade.asleep {
            1u8
        } else {
            0u8
        },
        if m.settings@.eye_style == EyeStyle::Pupils {
            0u8
        } else {
            1u8
        },
        phase_code(m.timer.phase_spec()),
        minutes_byte(m.timer.set()@),
        digits.0,
        digits.1,
        if m.settings@.color == ColorMode::Color {
            0u8
        } else {
            1u8
        },
        if m.settings@.chime {
            1u8
        } else {
            0u8
        },
        m.settings@.timer_minutes,
    ]
}

/// The hash's fixed codes, which recordings depend on: the first byte is
/// the screen, 0 Buddy, 1 Timer, 2 Launcher, 3 Settings; the second is
/// Wade's expression, by its place in declaration order.
pub proof fn lemma_hash_codes_are_fixed(app: App)
    ensures
        hashed(app).len() == 11,
        hashed(app)[0] == (match app.model().screen {
            Screen::Buddy => 0u8,
            Screen::Timer => 1u8,
            Screen::Launcher => 2u8,
            Screen::Settings => 3u8,
        }),
        hashed(app)[1] < 10,
        crate::character::expressions_in_order()[hashed(app)[1] as int] == app.model().wade.expression,
        hashed(app)[2] == (if app.model().wade.asleep {
            1u8
        } else {
            0u8
        }),
        hashed(app)[3] == (match app.model().settings@.eye_style {
            EyeStyle::Pupils => 0u8,
            EyeStyle::Plain => 1u8,
        }),
        hashed(app)[4] == (match app.model().timer.phase_spec() {
            TimerPhase::Ready => 0u8,
            TimerPhase::Running => 1u8,
            TimerPhase::Paused => 2u8,
            TimerPhase::Done => 3u8,
        }),
        (hashed(app)[6], hashed(app)[7]) == crate::timer::shown(
            app.model().timer.remaining_spec(app.model().now),
        ),
        hashed(app)[8] == (match app.model().settings@.color {
            ColorMode::Color => 0u8,
            ColorMode::Mono => 1u8,
        }),
        hashed(app)[9] == (if app.model().settings@.chime {
            1u8
        } else {
            0u8
        }),
{
}

/// A hash of the app's discrete state only; see [`hashed`].
pub fn state_hash(app: &App) -> (h: u32)
    ensures
        h == fnv1a_spec(hashed(*app)),
{
    let wade = app.wade();
    let screen: u8 = match app.screen() {
        Screen::Buddy => 0,
        Screen::Timer => 1,
        Screen::Launcher => 2,
        Screen::Settings => 3,
    };
    let expression: u8 = match wade.expression() {
        Expression::Neutral => 0,
        Expression::Happy => 1,
        Expression::Sad => 2,
        Expression::Angry => 3,
        Expression::Surprised => 4,
        Expression::Sleepy => 5,
        Expression::Thinking => 6,
        Expression::Proud => 7,
        Expression::Focused => 8,
        Expression::Flustered => 9,
    };
    let settings = app.settings();
    let eye_style: u8 = match settings.eye_style() {
        EyeStyle::Pupils => 0,
        EyeStyle::Plain => 1,
    };
    let color: u8 = match settings.color() {
        ColorMode::Color => 0,
        ColorMode::Mono => 1,
    };
    let timer = app.timer_state();
    let phase: u8 = match timer.phase() {
        TimerPhase::Ready => 0,
        TimerPhase::Running => 1,
        TimerPhase::Paused => 2,
        TimerPhase::Done => 3,
    };
    let set_minutes = timer.duration().as_secs() / 60;
    let set_byte: u8 = if set_minutes > 255 {
        255
    } else {
        set_minutes as u8
    };
    let digits = timer.digits(app.now());
    let asleep: u8 = if wade.asleep() {
        1
    } else {
        0
    };
    let chime: u8 = if settings.chime() {
        1
    } else {
        0
    };
    let settings_minutes = settings.timer().as_secs() / 60;
    let bytes = [
        screen,
        expression,
        asleep,
        eye_style,
        phase,
        set_byte,
        digits.minutes(),
        digits.seconds(),
        color,
        chime,
        settings_minutes as u8,
    ];
    proof {
        let set = timer.set()@ as int;
        vstd::arithmetic::div_mod::lemma_div_denominator(set, 1_000_000_000, 60);
        let tm = settings@.timer_minutes as int;
        assert(tm * 60_000_000_000 / 1_000_000_000 == tm * 60) by (nonlinear_arith);
        assert(tm * 60 / 60 == tm) by (nonlinear_arith);
        assert(bytes@ == hashed(*app));
    }
    fnv1a(&bytes)
}

} // verus!
