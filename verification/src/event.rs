//! Inputs to the core. Events report raw facts, never interpretations.

use vstd::prelude::*;

use crate::geometry::Point;
use crate::time::Instant;

verus! {

#[derive(Clone, Copy, Debug, PartialEq, Eq, Structural, Hash)]
pub enum TouchPhase {
    Down,
    Move,
    Up,
}

/// A raw touch sample in logical screen coordinates (320×240, origin top-left).
#[derive(Clone, Copy, Debug, PartialEq, Eq, Structural, Hash)]
pub struct Touch {
    pub phase: TouchPhase,
    pub point: Point,
}

/// A number key, 0 to 9. Its view is its value.
#[derive(Clone, Copy, Debug, PartialEq, Eq, Structural, Hash)]
pub struct Digit {
    n: u8,
}

impl View for Digit {
    type V = u8;

    closed spec fn view(&self) -> u8 {
        self.n
    }
}

/// The digit `n`, for specifications.
pub closed spec fn digit(n: u8) -> Digit {
    Digit { n }
}

pub broadcast proof fn lemma_digit_view(n: u8)
    ensures
        #[trigger] digit(n)@ == n,
{
}

pub broadcast proof fn lemma_digit_of_view(d: Digit)
    ensures
        #[trigger] digit(d@) == d,
{
}

impl Digit {
    #[verifier::type_invariant]
    spec fn decimal(self) -> bool {
        self.n <= 9
    }

    /// The digit `n`, or `None` unless `n` is 0 to 9.
    pub fn new(n: u8) -> (d: Option<Digit>)
        ensures
            n <= 9 ==> (d matches Some(d) && d@ == n),
            n > 9 ==> d is None,
    {
        if n <= 9 {
            Some(Digit { n })
        } else {
            None
        }
    }

    pub fn get(self) -> (n: u8)
        ensures
            n == self@,
            n <= 9,
    {
        proof {
            use_type_invariant(self);
        }
        self.n
    }
}

/// A key press from the desktop keyboard, for trying out Wade's looks.
#[derive(Clone, Copy, Debug, PartialEq, Eq, Structural, Hash)]
pub enum Key {
    /// Show the expression with this number.
    Digit(Digit),
    /// Put Wade to sleep.
    Z,
    /// Switch Wade's eye style.
    P,
}

#[derive(Clone, Copy, Debug, PartialEq, Eq, Structural, Hash)]
pub enum EventKind {
    Touch(Touch),
    Key(Key),
    /// A deadline requested through `App::next_deadline` has been reached.
    /// Carries no other meaning. May arrive late, or more often than requested.
    Deadline,
}

#[derive(Clone, Copy, Debug, PartialEq, Eq, Structural, Hash)]
pub struct Event {
    pub at: Instant,
    pub kind: EventKind,
}

impl Event {
    pub fn deadline(at: Instant) -> (e: Event)
        ensures
            e == (Event { at, kind: EventKind::Deadline }),
    {
        Event { at, kind: EventKind::Deadline }
    }

    pub fn touch(at: Instant, phase: TouchPhase, point: Point) -> (e: Event)
        ensures
            e == (Event { at, kind: EventKind::Touch(Touch { phase, point }) }),
    {
        Event { at, kind: EventKind::Touch(Touch { phase, point }) }
    }

    pub fn key(at: Instant, key: Key) -> (e: Event)
        ensures
            e == (Event { at, kind: EventKind::Key(key) }),
    {
        Event { at, kind: EventKind::Key(key) }
    }
}

} // verus!
