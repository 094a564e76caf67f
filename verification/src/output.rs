//! What the core hands back from each event: side effects for the platform to
//! carry out, and whether to redraw.

use vstd::prelude::*;

use crate::settings::Settings;

verus! {

/// Maximum effects per `Output`; extras are dropped, never a panic.
pub const MAX_EFFECTS: usize = 4;

/// Side effects for the platform to carry out.
#[derive(Clone, Copy, Debug, PartialEq, Eq, Structural, Hash)]
pub enum Effect {
    /// Play the timer-finished chime, the tone sequence in
    /// [`crate::sound::chime`]. Emitted when the timer finishes and repeated
    /// while it stays Done, unless the chime setting is off.
    Chime,
    /// Store these settings, for `App::new` at the next start. Emitted once
    /// they stop changing, or on leaving the Settings screen, and only when
    /// they differ from the last saved.
    SaveSettings(Settings),
}

/// The effects of one event, in order: a fixed-capacity vector of at most
/// `MAX_EFFECTS`, from the `heapless` crate.
#[verifier::external_body]
#[derive(Debug)]
pub struct Effects {
    inner: heapless::Vec<Effect, MAX_EFFECTS>,
}

/// The effects an `Effects` holds, in order.
pub uninterp spec fn effect_list(effects: Effects) -> Seq<Effect>;

impl Effects {
    /// No effects, through `heapless::Vec::new`.
    #[verifier::external_body]
    pub fn new() -> (e: Effects)
        ensures
            effect_list(e) == Seq::<Effect>::empty(),
    {
        Effects { inner: heapless::Vec::new() }
    }

    /// Append `effect` through `heapless::Vec::push`, which stores it and
    /// returns `Ok` while fewer than `MAX_EFFECTS` are held, and otherwise
    /// changes nothing and hands it back.
    #[verifier::external_body]
    pub fn push(&mut self, effect: Effect) -> (r: Result<(), Effect>)
        ensures
            effect_list(*old(self)).len() < MAX_EFFECTS ==> r is Ok && effect_list(*final(self))
                == effect_list(*old(self)).push(effect),
            effect_list(*old(self)).len() >= MAX_EFFECTS ==> (r matches Err(e) && e == effect)
                && effect_list(*final(self)) == effect_list(*old(self)),
    {
        self.inner.push(effect)
    }

    /// True if `effect` is among the effects, through the slice's `contains`,
    /// which compares with the derived, field-by-field `==`.
    #[verifier::external_body]
    pub fn contains(&self, effect: &Effect) -> (b: bool)
        ensures
            b == effect_list(*self).contains(*effect),
    {
        self.inner.contains(effect)
    }

    /// How many effects there are, through `heapless::Vec::len`; never more
    /// than the capacity.
    #[verifier::external_body]
    pub fn len(&self) -> (n: usize)
        ensures
            n == effect_list(*self).len(),
            n <= MAX_EFFECTS,
    {
        self.inner.len()
    }

    /// The effects, in order, through `heapless::Vec::as_slice`.
    #[verifier::external_body]
    pub fn as_slice(&self) -> (s: &[Effect])
        ensures
            s@ == effect_list(*self),
    {
        self.inner.as_slice()
    }
}

/// What one event asks of the platform.
#[derive(Debug)]
pub struct Output {
    /// Side effects for the platform to carry out, in order. If more than four
    /// are produced by one event, the extras are dropped (never a panic).
    pub effects: Effects,
    /// The view may have changed since the last render. A false positive costs
    /// one redundant frame; a false negative is a bug.
    pub redraw: bool,
}

impl Output {
    /// No effects and no redraw.
    pub fn new() -> (o: Output)
        ensures
            effect_list(o.effects) == Seq::<Effect>::empty(),
            !o.redraw,
    {
        Output { effects: Effects::new(), redraw: false }
    }
}

impl Default for Output {
    fn default() -> (o: Output)
        ensures
            effect_list(o.effects) == Seq::<Effect>::empty(),
            !o.redraw,
    {
        Output::new()
    }
}

} // verus!
