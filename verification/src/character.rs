//! Wade: his expressions, sleep, blinks, and reactions.
//!
//! Wade's behavior is a schedule of discrete changes (an expression expiring,
//! a blink starting or ending, an expression transition settling), applied in
//! order as time passes. The continuous pose that drawing reads is computed by
//! the platform's renderer from the view.

use vstd::prelude::*;

use crate::rng::Rng;
use crate::time::{sat_add, Duration, Instant, NANOS_PER_MILLI};

verus! {

/// How long Wade stays Happy after a tap on him, in milliseconds.
pub const HAPPY_MS: u64 = 2_000;
/// How long a blink takes, closing and reopening, in milliseconds.
pub const BLINK_MS: u64 = 120;
/// Blinks start at random intervals between these bounds (inclusive), in
/// milliseconds.
pub const BLINK_INTERVAL_MIN_MS: u64 = 2_000;
pub const BLINK_INTERVAL_MAX_MS: u64 = 6_000;
/// The second blink of a double starts this long after the first ends, in
/// milliseconds.
pub const DOUBLE_BLINK_GAP_MS: u64 = 300;
/// One blink in this many is followed by a second.
pub const DOUBLE_BLINK_ODDS: u64 = 4;
/// How long the pose takes to move to a new expression, in milliseconds.
pub const EXPRESSION_TRANSITION_MS: u64 = 200;
/// How long Wade shows his reaction to a dismissed timer, in milliseconds.
pub const TIMER_REACTION_MS: u64 = 2_000;
/// How long Wade stays groggy after a timer that woke him is dismissed, in
/// milliseconds.
pub const GROGGY_MS: u64 = 3_000;
/// Wade's motion draws from its own random stream: the platform's seed mixed
/// with this.
pub const MOTION_STREAM: u64 = 0x6D6F_7469_6F6E_0001;

/// How long a blink takes.
pub fn blink_duration() -> (d: Duration)
    ensures
        d@ == BLINK_MS * NANOS_PER_MILLI,
{
    Duration::from_millis(BLINK_MS)
}

/// The shortest interval between blinks.
pub fn blink_interval_min() -> (d: Duration)
    ensures
        d@ == BLINK_INTERVAL_MIN_MS * NANOS_PER_MILLI,
{
    Duration::from_millis(BLINK_INTERVAL_MIN_MS)
}

/// The longest interval between blinks.
pub fn blink_interval_max() -> (d: Duration)
    ensures
        d@ == BLINK_INTERVAL_MAX_MS * NANOS_PER_MILLI,
{
    Duration::from_millis(BLINK_INTERVAL_MAX_MS)
}

/// The gap between the blinks of a double.
pub fn double_blink_gap() -> (d: Duration)
    ensures
        d@ == DOUBLE_BLINK_GAP_MS * NANOS_PER_MILLI,
{
    Duration::from_millis(DOUBLE_BLINK_GAP_MS)
}

/// How long Wade shows his reaction to a dismissed timer.
pub fn timer_reaction() -> (d: Duration)
    ensures
        d@ == TIMER_REACTION_MS * NANOS_PER_MILLI,
{
    Duration::from_millis(TIMER_REACTION_MS)
}

/// How long Wade stays groggy after a timer that woke him is dismissed.
pub fn groggy_duration() -> (d: Duration)
    ensures
        d@ == GROGGY_MS * NANOS_PER_MILLI,
{
    Duration::from_millis(GROGGY_MS)
}

/// A named target pose.
#[derive(Clone, Copy, Debug, PartialEq, Eq, Structural, Hash)]
pub enum Expression {
    Neutral,
    Happy,
    Sad,
    Angry,
    Surprised,
    Sleepy,
    Thinking,
    Proud,
    Focused,
    Flustered,
}

/// An object Wade holds in an idle activity.
#[derive(Clone, Copy, Debug, Default, PartialEq, Eq, Structural, Hash)]
pub enum Prop {
    /// Empty-handed.
    #[default]
    Nothing,
    Keyboard,
    Cup,
}

/// A small secondary action beside the eyes.
#[derive(Clone, Copy, Debug, Default, PartialEq, Eq, Structural, Hash)]
pub enum Accent {
    /// No accent.
    #[default]
    Nothing,
    /// Pink marks under the outer corners (Happy)
    Blush,
    /// A "!" beside the face (Surprised)
    Exclaim,
    /// A tear falls from the right eye (Sad)
    Tear,
    /// Up to three dots (Thinking)
    Dots,
    /// Steam marks above the outer corners (Angry)
    Steam,
    /// One twinkle beside the right eye (Proud)
    Sparkle,
    /// A drop slides down beside the left eye (Flustered)
    SweatDrop,
    /// Z's rise and grow (asleep)
    Zs,
}

/// The expression with number `n`, 0 to 9, as the number keys show them.
pub open spec fn numbered(n: u8) -> Expression {
    if n == 0 {
        Expression::Neutral
    } else if n == 1 {
        Expression::Happy
    } else if n == 2 {
        Expression::Sad
    } else if n == 3 {
        Expression::Angry
    } else if n == 4 {
        Expression::Surprised
    } else if n == 5 {
        Expression::Sleepy
    } else if n == 6 {
        Expression::Thinking
    } else if n == 7 {
        Expression::Proud
    } else if n == 8 {
        Expression::Focused
    } else {
        Expression::Flustered
    }
}

/// Every expression, in the order they are declared: the order the number
/// keys and the state hash's codes follow.
pub open spec fn expressions_in_order() -> Seq<Expression> {
    seq![
        Expression::Neutral,
        Expression::Happy,
        Expression::Sad,
        Expression::Angry,
        Expression::Surprised,
        Expression::Sleepy,
        Expression::Thinking,
        Expression::Proud,
        Expression::Focused,
        Expression::Flustered,
    ]
}

/// Number key `n` shows the `n`-th expression in declaration order, whose
/// code in the state hash is `n`; different keys show different
/// expressions, and every expression has its key.
pub proof fn lemma_number_keys_follow_declaration_order(n: u8)
    requires
        n <= 9,
    ensures
        numbered(n) == expressions_in_order()[n as int],
        crate::harness::expression_code(numbered(n)) == n,
        forall|m: u8| m <= 9 && #[trigger] numbered(m) == numbered(n) ==> m == n,
        forall|e: Expression|
            #[trigger] crate::harness::expression_code(e) <= 9 && numbered(crate::harness::expression_code(e)) == e,
{
}

impl Expression {
    /// The expression with number `n`: 0 Neutral, 1 Happy, 2 Sad, 3 Angry,
    /// 4 Surprised, 5 Sleepy, 6 Thinking, 7 Proud, 8 Focused, 9 Flustered;
    /// `None` past 9.
    pub fn numbered(n: u8) -> (e: Option<Expression>)
        ensures
            n <= 9 ==> e == Some(numbered(n)),
            n > 9 ==> e is None,
    {
        match n {
            0 => Some(Expression::Neutral),
            1 => Some(Expression::Happy),
            2 => Some(Expression::Sad),
            3 => Some(Expression::Angry),
            4 => Some(Expression::Surprised),
            5 => Some(Expression::Sleepy),
            6 => Some(Expression::Thinking),
            7 => Some(Expression::Proud),
            8 => Some(Expression::Focused),
            9 => Some(Expression::Flustered),
            _ => None,
        }
    }
}

/// The earlier of two optional times.
pub open spec fn sooner(a: Option<u64>, b: Option<u64>) -> Option<u64> {
    match (a, b) {
        (Some(x), Some(y)) => Some(
            if x <= y {
                x
            } else {
                y
            },
        ),
        (Some(x), None) => Some(x),
        (None, y) => y,
    }
}

/// True if the optional time `t` has not passed `now`.
pub open spec fn not_before(t: Option<u64>, now: u64) -> bool {
    t matches Some(t) ==> t >= now
}

/// True if the optional time `t` is after `now`, or saturated at the end of time.
pub open spec fn still_ahead(t: Option<u64>, now: u64) -> bool {
    t matches Some(t) ==> t > now || t == u64::MAX
}

/// Wade's state as plain values.
#[derive(Clone, Copy, Debug, PartialEq, Eq, Structural)]
pub struct WadeModel {
    pub expression: Expression,
    /// When a temporary expression ends.
    pub expires_at: Option<u64>,
    /// When the pose finishes moving to the current expression.
    pub settles_at: Option<u64>,
    pub asleep: bool,
    /// Woken from sleep by a finishing timer that has not yet been dismissed.
    pub woken_by_timer: bool,
    /// The current expression is the grogginess after such a timer.
    pub groggy: bool,
    /// At the end of the grogginess, he dozes off again.
    pub dozes: bool,
    /// When the next blink starts.
    pub next_blink: u64,
    /// When the blink in progress ends.
    pub blink_until: Option<u64>,
    /// The next blink is the second of a double.
    pub second_blink: bool,
    /// The motion stream's state.
    pub rng: u64,
}

impl WadeModel {
    /// The next scheduled discrete change: an expression expiring, a blink
    /// ending or (awake) starting, and, only while visible, the pose settling.
    pub open spec fn next_transition(self, visible: bool) -> Option<u64> {
        let blink = if self.asleep {
            None
        } else {
            Some(self.next_blink)
        };
        let settle = if visible {
            self.settles_at
        } else {
            None
        };
        sooner(sooner(sooner(self.expires_at, self.blink_until), blink), settle)
    }

    /// Every scheduled change is at or after `now`.
    pub open spec fn pending_from(self, now: u64) -> bool {
        &&& not_before(self.expires_at, now)
        &&& not_before(self.settles_at, now)
        &&& not_before(self.blink_until, now)
        &&& (!self.asleep ==> self.next_blink >= now)
    }

    /// Every scheduled change is after `now`, unless saturated at the end of time.
    pub open spec fn pending_after(self, now: u64) -> bool {
        &&& still_ahead(self.expires_at, now)
        &&& still_ahead(self.settles_at, now)
        &&& still_ahead(self.blink_until, now)
        &&& (!self.asleep ==> self.next_blink > now || self.next_blink == u64::MAX)
    }

    /// `expression` for good, starting to move to it at `now`, awake.
    pub open spec fn showing(self, expression: Expression, now: u64) -> WadeModel {
        WadeModel {
            expression,
            expires_at: None,
            settles_at: Some(sat_add(now, EXPRESSION_TRANSITION_MS)),
            asleep: false,
            woken_by_timer: false,
            groggy: false,
            // Asleep, his blinks were not scheduled; awake, the next is due
            // at once if it has passed.
            next_blink: if self.next_blink < now {
                now
            } else {
                self.next_blink
            },
            ..self
        }
    }

    /// `expression` until `until` ms after `now`, starting to move to it at
    /// `now`, awake.
    pub open spec fn showing_for(self, expression: Expression, now: u64, until: u64) -> WadeModel {
        WadeModel { expires_at: Some(sat_add(now, until)), ..self.showing(expression, now) }
    }
}

/// A blink 2 to 6 s after `start`, drawn from the motion stream in state
/// `rng`, and the stream's state after the draw.
pub open spec fn interval_draw(start: u64, rng: u64) -> (u64, u64) {
    let r = crate::rng::step(rng);
    (
        sat_add(
            start,
            (BLINK_INTERVAL_MIN_MS + crate::rng::scramble(r) as int % (BLINK_INTERVAL_MAX_MS
                - BLINK_INTERVAL_MIN_MS + 1)) as u64,
        ),
        r,
    )
}

/// After a blink that started at `start` and shows: the next blink, whether
/// it is the second of a double, and the motion stream's state. The second
/// of a double is followed by a drawn interval; otherwise one draw in
/// `DOUBLE_BLINK_ODDS` makes it a double, 300 ms after this blink ends.
pub open spec fn after_shown_blink(start: u64, second: bool, rng: u64) -> (u64, bool, u64) {
    if second {
        (interval_draw(start, rng).0, false, interval_draw(start, rng).1)
    } else {
        let r1 = crate::rng::step(rng);
        if crate::rng::scramble(r1) % DOUBLE_BLINK_ODDS == 0 {
            (sat_add(start, (BLINK_MS + DOUBLE_BLINK_GAP_MS) as u64), true, r1)
        } else {
            (interval_draw(start, r1).0, false, interval_draw(start, r1).1)
        }
    }
}

/// After a blink that started at `start` and is missed (hidden, or over by
/// `now`): the next blink, drawn from `start`, or from `now` if that one is
/// past too; never a double; and the motion stream's state.
pub open spec fn after_missed_blink(start: u64, now: u64, rng: u64) -> (u64, bool, u64) {
    let (n1, r1) = interval_draw(start, rng);
    if n1 <= now && n1 != u64::MAX {
        (interval_draw(now, r1).0, false, interval_draw(now, r1).1)
    } else {
        (n1, false, r1)
    }
}

/// The state of the motion stream a seed gives.
pub open spec fn motion_seed(seed: u64) -> u64 {
    seed ^ MOTION_STREAM
}

/// Wade's character state. Kept on every screen; animates only while visible.
/// Its view is his state as plain values.
#[derive(Clone, Debug)]
pub struct Wade {
    expression: Expression,
    expires_at: Option<Instant>,
    settles_at: Option<Instant>,
    asleep: bool,
    woken_by_timer: bool,
    groggy: bool,
    dozes: bool,
    next_blink: Instant,
    blink_until: Option<Instant>,
    second_blink: bool,
    rng: Rng,
}

/// An optional instant as an optional count of milliseconds.
pub open spec fn ms(t: Option<Instant>) -> Option<u64> {
    crate::time::opt_ms(t)
}

impl View for Wade {
    type V = WadeModel;

    closed spec fn view(&self) -> WadeModel {
        WadeModel {
            expression: self.expression,
            expires_at: ms(self.expires_at),
            settles_at: ms(self.settles_at),
            asleep: self.asleep,
            woken_by_timer: self.woken_by_timer,
            groggy: self.groggy,
            dozes: self.dozes,
            next_blink: self.next_blink@,
            blink_until: ms(self.blink_until),
            second_blink: self.second_blink,
            rng: self.rng@,
        }
    }
}

/// The earlier of two optional instants.
fn sooner_of(a: Option<Instant>, b: Option<Instant>) -> (r: Option<Instant>)
    ensures
        ms(r) == sooner(ms(a), ms(b)),
{
    match (a, b) {
        (Some(x), Some(y)) => Some(x.earliest(y)),
        (Some(x), None) => Some(x),
        (None, y) => y,
    }
}

/// True if the optional instant `t` has arrived by `now`.
fn due(t: Option<Instant>, now: Instant) -> (b: bool)
    ensures
        b == (ms(t) matches Some(t) && t <= now@),
{
    match t {
        Some(t) => !now.is_before(t),
        None => false,
    }
}

impl Wade {
    /// Neutral and awake at `now`, with the first blink scheduled 2 to 6 s
    /// later from the motion stream seeded by `seed`.
    pub fn new(now: Instant, seed: u64) -> (w: Wade)
        ensures
            w@.expression == Expression::Neutral,
            w@.expires_at is None,
            w@.settles_at is None,
            !w@.asleep,
            !w@.woken_by_timer,
            !w@.groggy,
            w@.blink_until is None,
            !w@.second_blink,
            !w@.dozes,
            sat_add(now@, BLINK_INTERVAL_MIN_MS) <= w@.next_blink <= sat_add(
                now@,
                BLINK_INTERVAL_MAX_MS,
            ),
            // The wait is the first draw of the motion stream.
            w@.rng == crate::rng::step(crate::rng::seeded(motion_seed(seed))),
            w@.next_blink == sat_add(
                now@,
                (BLINK_INTERVAL_MIN_MS + crate::rng::scramble(w@.rng) as int % (BLINK_INTERVAL_MAX_MS
                    - BLINK_INTERVAL_MIN_MS + 1)) as u64,
            ),
            w@.pending_after(now@),
    {
        let mut rng = Rng::new(seed ^ MOTION_STREAM);
        let wait = rng.range_inclusive(BLINK_INTERVAL_MIN_MS, BLINK_INTERVAL_MAX_MS);
        Wade {
            expression: Expression::Neutral,
            expires_at: None,
            settles_at: None,
            asleep: false,
            woken_by_timer: false,
            groggy: false,
            dozes: false,
            next_blink: now.after_millis(wait),
            blink_until: None,
            second_blink: false,
            rng,
        }
    }

    /// The next scheduled discrete change (a blink starting or ending, an
    /// expression expiring, and while `visible`, the pose settling), or `None`.
    /// Frames are not transitions: they come from [`Wade::animating`].
    pub fn next_transition(&self, visible: bool) -> (t: Option<Instant>)
        ensures
            ms(t) == self@.next_transition(visible),
    {
        let blink = if self.asleep {
            None
        } else {
            Some(self.next_blink)
        };
        let settle = if visible {
            self.settles_at
        } else {
            None
        };
        sooner_of(sooner_of(sooner_of(self.expires_at, self.blink_until), blink), settle)
    }

    /// Apply every transition due at `now`. `visible` is false while another
    /// screen is shown: the schedule still moves forward, but due blinks are
    /// skipped and nothing animates. Returns true if the view may have
    /// changed, which is never while hidden.
    #[verifier::rlimit(60)]
    pub fn advance(&mut self, now: Instant, visible: bool) -> (changed: bool)
        ensures
            !visible ==> !changed,
            // A due expiry ends the temporary expression: grogginess ends in
            // a doze or in Neutral, anything else in Neutral.
            (old(self)@.expires_at matches Some(t) && t <= now@) ==> {
                &&& final(self)@.expires_at is None
                &&& !final(self)@.groggy
                &&& if old(self)@.groggy && old(self)@.dozes {
                    final(self)@.asleep && final(self)@.expression == Expression::Sleepy
                } else {
                    final(self)@.asleep == old(self)@.asleep && final(self)@.expression
                        == Expression::Neutral
                }
            },
            !(old(self)@.expires_at matches Some(t) && t <= now@) ==> {
                &&& final(self)@.expires_at == old(self)@.expires_at
                &&& final(self)@.expression == old(self)@.expression
                &&& final(self)@.asleep == old(self)@.asleep
                &&& final(self)@.groggy == old(self)@.groggy
            },
            final(self)@.woken_by_timer == old(self)@.woken_by_timer,
            final(self)@.dozes == old(self)@.dozes,
            // A blink falls due while awake: seen, it starts and lasts 120 ms;
            // the next follows 2 to 6 s after it starts, or 300 ms after it
            // ends when it is the first of a double. Hidden, it is skipped.
            // A blink that would already have ended by `now` is missed, and
            // when the next one would also be past, the schedule restarts
            // from `now`.
            ({
                let start = old(self)@.next_blink;
                let shown = visible && still_ahead(Some(sat_add(start, BLINK_MS)), now@);
                (!final(self)@.asleep && start <= now@) ==> {
                    &&& shown ==> final(self)@.blink_until == Some(sat_add(start, BLINK_MS))
                    &&& !shown ==> final(self)@.blink_until is None
                    &&& (final(self)@.second_blink && final(self)@.next_blink == sat_add(
                        start,
                        (BLINK_MS + DOUBLE_BLINK_GAP_MS) as u64,
                    )) || (!final(self)@.second_blink && sat_add(start, BLINK_INTERVAL_MIN_MS)
                        <= final(self)@.next_blink <= sat_add(start, BLINK_INTERVAL_MAX_MS)) || (!shown
                        && !final(self)@.second_blink && sat_add(now@, BLINK_INTERVAL_MIN_MS)
                        <= final(self)@.next_blink <= sat_add(now@, BLINK_INTERVAL_MAX_MS))
                    &&& final(self)@.second_blink ==> shown && !old(self)@.second_blink
                }
            }),
            // Exactly which draws of the motion stream decide the schedule.
            ({
                let start = old(self)@.next_blink;
                let shown = visible && still_ahead(Some(sat_add(start, BLINK_MS)), now@);
                let next = (final(self)@.next_blink, final(self)@.second_blink, final(self)@.rng);
                &&& (!final(self)@.asleep && start <= now@ && shown) ==> next == after_shown_blink(
                    start,
                    old(self)@.second_blink,
                    old(self)@.rng,
                )
                &&& (!final(self)@.asleep && start <= now@ && !shown) ==> next == after_missed_blink(
                    start,
                    now@,
                    old(self)@.rng,
                )
            }),
            ({
                let start = old(self)@.next_blink;
                !(!final(self)@.asleep && start <= now@) ==> final(self)@.next_blink == start
                    && final(self)@.second_blink == old(self)@.second_blink && final(self)@.rng == old(self)@.rng
            }),
            !visible ==> final(self)@.settles_at is None,
            final(self)@.pending_after(now@),
            // Nothing he shows changed unless it says so.
            visible && !changed ==> final(self)@.expression == old(self)@.expression && final(self)@.asleep == old(
                self,
            )@.asleep && (final(self)@.blink_until is Some) == (old(self)@.blink_until is Some),
    {
        let mut changed = false;
        let expired = due(self.expires_at, now);
        if expired {
            let t = self.expires_at.unwrap();
            self.expires_at = None;
            if self.groggy && self.dozes {
                self.asleep = true;
                self.expression = Expression::Sleepy;
                self.blink_until = None;
            } else {
                self.expression = Expression::Neutral;
            }
            self.groggy = false;
            self.settles_at = Some(t.after_millis(EXPRESSION_TRANSITION_MS));
            changed = true;
        }
        if due(self.blink_until, now) {
            self.blink_until = None;
            changed = true;
        }
        if !self.asleep && !now.is_before(self.next_blink) {
            let start = self.next_blink;
            let end = start.after_millis(BLINK_MS);
            if visible && (now.is_before(end) || end.as_millis() == u64::MAX) {
                self.blink_until = Some(start.after_millis(BLINK_MS));
                changed = true;
                if self.second_blink {
                    self.second_blink = false;
                    self.next_blink = self.after_interval(start);
                } else if self.rng.range_inclusive(1, DOUBLE_BLINK_ODDS) == 1 {
                    self.second_blink = true;
                    self.next_blink = start.after_millis(BLINK_MS + DOUBLE_BLINK_GAP_MS);
                } else {
                    self.next_blink = self.after_interval(start);
                }
            } else {
                if self.blink_until.is_some() {
                    changed = true;
                }
                self.blink_until = None;
                self.second_blink = false;
                self.next_blink = self.after_interval(start);
                // After a gap that passed several blinks, restart from `now`.
                if !now.is_before(self.next_blink) && self.next_blink.as_millis() != u64::MAX {
                    self.next_blink = self.after_interval(now);
                }
            }
        }
        if due(self.settles_at, now) {
            self.settles_at = None;
            changed = true;
        }
        if !visible {
            self.settles_at = None;
        }
        changed && visible
    }

    /// A random interval of 2 to 6 s after `start`, drawn from the motion stream.
    fn after_interval(&mut self, start: Instant) -> (t: Instant)
        ensures
            sat_add(start@, BLINK_INTERVAL_MIN_MS) <= t@ <= sat_add(start@, BLINK_INTERVAL_MAX_MS),
            (t@, final(self)@.rng) == interval_draw(start@, old(self)@.rng),
            final(self)@ == (WadeModel { rng: final(self)@.rng, ..old(self)@ }),
    {
        let wait = self.rng.range_inclusive(BLINK_INTERVAL_MIN_MS, BLINK_INTERVAL_MAX_MS);
        start.after_millis(wait)
    }

    /// Restart the idle schedule at `target`, after a gap too long to replay:
    /// an expiry that fell due in the gap is applied, the blink and pose
    /// motion in progress stop, and the next blink is 2 to 6 s away.
    pub fn fast_forward(&mut self, target: Instant)
        ensures
            final(self)@.dozes == old(self)@.dozes,
            (old(self)@.expires_at matches Some(t) && t <= target@) ==> {
                &&& final(self)@.expires_at is None
                &&& !final(self)@.groggy
                &&& if old(self)@.groggy && old(self)@.dozes {
                    final(self)@.asleep && final(self)@.expression == Expression::Sleepy
                } else {
                    final(self)@.asleep == old(self)@.asleep && final(self)@.expression
                        == Expression::Neutral
                }
            },
            !(old(self)@.expires_at matches Some(t) && t <= target@) ==> {
                &&& final(self)@.expires_at == old(self)@.expires_at
                &&& final(self)@.expression == old(self)@.expression
                &&& final(self)@.asleep == old(self)@.asleep
                &&& final(self)@.groggy == old(self)@.groggy
            },
            final(self)@.woken_by_timer == old(self)@.woken_by_timer,
            final(self)@.blink_until is None,
            final(self)@.settles_at is None,
            !final(self)@.second_blink,
            sat_add(target@, BLINK_INTERVAL_MIN_MS) <= final(self)@.next_blink <= sat_add(
                target@,
                BLINK_INTERVAL_MAX_MS,
            ),
            (final(self)@.next_blink, final(self)@.rng) == interval_draw(target@, old(self)@.rng),
            final(self)@.pending_after(target@),
    {
        if due(self.expires_at, target) {
            self.expires_at = None;
            if self.groggy && self.dozes {
                self.asleep = true;
                self.expression = Expression::Sleepy;
            } else {
                self.expression = Expression::Neutral;
            }
            self.groggy = false;
        }
        self.blink_until = None;
        self.settles_at = None;
        self.second_blink = false;
        self.next_blink = self.after_interval(target);
    }

    /// Wade leaves the screen: his pose stops moving, and resumes from his
    /// current schedule when he returns, with no catch-up motion.
    pub fn leave_screen(&mut self)
        ensures
            final(self)@ == (WadeModel { settles_at: None, ..old(self)@ }),
    {
        self.settles_at = None;
    }

    /// True while the pose is changing with time (a blink or an expression
    /// transition), so a frame is needed every `FRAME`. The end of each
    /// animation is also a transition, so its final frame is drawn.
    pub fn animating(&self) -> (b: bool)
        ensures
            b == (self@.settles_at is Some || self@.blink_until is Some),
    {
        self.settles_at.is_some() || self.blink_until.is_some()
    }

    /// A tap landed on Wade: he wakes if asleep and is Happy for 2 s; another
    /// tap restarts the 2 s. Returns true: the view may have changed.
    pub fn on_tap(&mut self, now: Instant) -> (changed: bool)
        ensures
            changed,
            final(self)@ == old(self)@.showing_for(Expression::Happy, now@, HAPPY_MS),
            old(self)@.pending_from(now@) ==> final(self)@.pending_from(now@),
    {
        self.show_for(Expression::Happy, now, HAPPY_MS);
        true
    }

    /// Show `expression` from `now` until something else changes it, awake.
    /// Returns true: the view may have changed.
    pub fn show(&mut self, expression: Expression, now: Instant) -> (changed: bool)
        ensures
            changed,
            final(self)@ == old(self)@.showing(expression, now@),
            old(self)@.pending_from(now@) ==> final(self)@.pending_from(now@),
    {
        self.expression = expression;
        self.expires_at = None;
        self.settles_at = Some(now.after_millis(EXPRESSION_TRANSITION_MS));
        self.asleep = false;
        self.woken_by_timer = false;
        self.groggy = false;
        self.next_blink = self.next_blink.latest(now);
        true
    }

    /// Show `expression` from `now` for `ms` milliseconds, awake.
    fn show_for(&mut self, expression: Expression, now: Instant, ms: u64)
        ensures
            final(self)@ == old(self)@.showing_for(expression, now@, ms),
            old(self)@.pending_from(now@) ==> final(self)@.pending_from(now@),
    {
        self.expression = expression;
        self.expires_at = Some(now.after_millis(ms));
        self.settles_at = Some(now.after_millis(EXPRESSION_TRANSITION_MS));
        self.asleep = false;
        self.woken_by_timer = false;
        self.groggy = false;
        self.next_blink = self.next_blink.latest(now);
    }

    /// Put Wade to sleep at `now`: Sleepy, eyes closed, no blinks. Returns
    /// true: the view may have changed.
    pub fn sleep(&mut self, now: Instant) -> (changed: bool)
        ensures
            changed,
            final(self)@ == (WadeModel {
                asleep: true,
                blink_until: None,
                second_blink: false,
                ..old(self)@.showing(Expression::Sleepy, now@)
            }),
            old(self)@.pending_from(now@) ==> final(self)@.pending_from(now@),
    {
        self.show(Expression::Sleepy, now);
        self.asleep = true;
        self.blink_until = None;
        self.second_blink = false;
        true
    }

    /// The timer finished at `now`: it wakes him if he is asleep, and he
    /// stays groggy until it is dismissed.
    pub fn timer_finished(&mut self, now: Instant)
        ensures
            old(self)@.asleep ==> final(self)@ == (WadeModel {
                asleep: false,
                woken_by_timer: true,
                next_blink: if old(self)@.next_blink < now@ {
                    now@
                } else {
                    old(self)@.next_blink
                },
                ..old(self)@
            }),
            !old(self)@.asleep ==> final(self)@ == old(self)@,
            old(self)@.pending_from(now@) ==> final(self)@.pending_from(now@),
    {
        if self.asleep {
            self.asleep = false;
            self.woken_by_timer = true;
            // Asleep, his blinks were not scheduled; the next is due at once.
            self.next_blink = self.next_blink.latest(now);
        }
    }

    /// The finished timer was dismissed at `now`, with `rng` deciding behavior.
    /// If it woke him he is groggy for 3 s and then, on a coin toss, dozes off
    /// again or wakes up; otherwise he is Proud for 2 s. Returns true: the
    /// view may have changed.
    pub fn timer_dismissed(&mut self, now: Instant, rng: &mut Rng) -> (changed: bool)
        ensures
            changed,
            old(self)@.woken_by_timer ==> {
                &&& final(rng)@ == crate::rng::step(old(rng)@)
                &&& final(self)@ == (WadeModel {
                    groggy: true,
                    dozes: crate::rng::scramble(crate::rng::step(old(rng)@)) % 2 == 0,
                    ..old(self)@.showing_for(Expression::Sleepy, now@, GROGGY_MS)
                })
            },
            !old(self)@.woken_by_timer ==> final(rng)@ == old(rng)@ && final(self)@ == old(
                self,
            )@.showing_for(Expression::Proud, now@, TIMER_REACTION_MS),
            old(self)@.pending_from(now@) ==> final(self)@.pending_from(now@),
    {
        if self.woken_by_timer {
            let coin = rng.next_u64() % 2 == 0;
            self.show_for(Expression::Sleepy, now, GROGGY_MS);
            self.groggy = true;
            self.dozes = coin;
        } else {
            self.show_for(Expression::Proud, now, TIMER_REACTION_MS);
        }
        true
    }

    pub fn expression(&self) -> (e: Expression)
        ensures
            e == self@.expression,
    {
        self.expression
    }

    /// True while Wade is asleep, which the expression alone does not show.
    pub fn asleep(&self) -> (b: bool)
        ensures
            b == self@.asleep,
    {
        self.asleep
    }

    /// True while a blink is in progress.
    pub fn blinking(&self) -> (b: bool)
        ensures
            b == self@.blink_until is Some,
    {
        self.blink_until.is_some()
    }
}

} // verus!
