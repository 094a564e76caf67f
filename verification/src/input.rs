//! `TouchTracker`: turns raw touch samples into taps.
//!
//! A tap targets the element under the `Down` point and fires on `Up` if the
//! `Up` point is still inside that element. Moving outside cancels it. A
//! screen change cancels any tap in progress.

use vstd::prelude::*;

use crate::event::TouchPhase;
use crate::layout::Target;

verus! {

/// The pressed target after a sample of `phase` over `hit`, from `pressed`.
pub open spec fn pressed_after(pressed: Option<Target>, phase: TouchPhase, hit: Option<Target>) -> Option<Target> {
    match phase {
        TouchPhase::Down => hit,
        TouchPhase::Move => if pressed == hit {
            pressed
        } else {
            None
        },
        TouchPhase::Up => None,
    }
}

/// The tap a sample of `phase` over `hit` completes, from `pressed`.
pub open spec fn tap_after(pressed: Option<Target>, phase: TouchPhase, hit: Option<Target>) -> Option<Target> {
    match phase {
        TouchPhase::Up => if pressed == hit {
            pressed
        } else {
            None
        },
        _ => None,
    }
}

/// Tracks the target under the current touch. Its view is the target under
/// the current `Down`, while it is still a candidate tap.
#[derive(Clone, Copy, Debug)]
pub struct TouchTracker {
    pressed: Option<Target>,
}

impl View for TouchTracker {
    type V = Option<Target>;

    closed spec fn view(&self) -> Option<Target> {
        self.pressed
    }
}

impl TouchTracker {
    pub fn new() -> (t: TouchTracker)
        ensures
            t@ is None,
    {
        TouchTracker { pressed: None }
    }

    /// Feed one raw sample of `phase`, where `hit` is the target under its
    /// point on the current screen. Returns the target when a tap completes.
    pub fn handle(&mut self, phase: TouchPhase, hit: Option<Target>) -> (tap: Option<Target>)
        ensures
            final(self)@ == pressed_after(old(self)@, phase, hit),
            tap == tap_after(old(self)@, phase, hit),
    {
        match phase {
            TouchPhase::Down => {
                self.pressed = hit;
                None
            },
            TouchPhase::Move => {
                if self.pressed != hit {
                    self.pressed = None;
                }
                None
            },
            TouchPhase::Up => {
                let pressed = self.pressed;
                self.pressed = None;
                if pressed == hit {
                    pressed
                } else {
                    None
                }
            },
        }
    }

    /// The target currently pressed, for drawing a pressed style.
    pub fn pressed(&self) -> (t: Option<Target>)
        ensures
            t == self@,
    {
        self.pressed
    }

    /// Ignore the rest of the current touch, for example after a screen change.
    pub fn cancel(&mut self)
        ensures
            final(self)@ is None,
    {
        self.pressed = None;
    }
}

impl Default for TouchTracker {
    fn default() -> (t: TouchTracker)
        ensures
            t@ is None,
    {
        TouchTracker::new()
    }
}

/// The pressed target after feeding `samples` (each a phase and the target
/// under its point), starting from `pressed`.
pub open spec fn pressed_after_all(pressed: Option<Target>, samples: Seq<(TouchPhase, Option<Target>)>) -> Option<Target>
    decreases samples.len(),
{
    if samples.len() == 0 {
        pressed
    } else {
        pressed_after(pressed_after_all(pressed, samples.drop_last()), samples.last().0, samples.last().1)
    }
}

/// Without a new `Down`, nothing becomes pressed once nothing is: moving off
/// a target cancels its tap even if the touch returns, and after a cancel no
/// `Up` can complete a tap until the next `Down`.
pub proof fn lemma_no_press_without_down(samples: Seq<(TouchPhase, Option<Target>)>)
    requires
        forall|i: int| 0 <= i < samples.len() ==> (#[trigger] samples[i]).0 != TouchPhase::Down,
    ensures
        pressed_after_all(None, samples) is None,
        samples.len() > 0 ==> tap_after(pressed_after_all(None, samples.drop_last()), samples.last().0, samples.last().1) is None,
    decreases samples.len(),
{
    if samples.len() > 0 {
        let rest = samples.drop_last();
        assert forall|i: int| 0 <= i < rest.len() implies (#[trigger] rest[i]).0 != TouchPhase::Down by {
            assert(rest[i] == samples[i]);
        }
        lemma_no_press_without_down(rest);
    }
}

} // verus!
