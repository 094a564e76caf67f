//! What is on screen, as plain data. The core produces it; the platform's
//! renderer turns it into pixels.

use vstd::prelude::*;

use crate::character::Expression;
use crate::layout::Target;
use crate::settings::Settings;
use crate::timer::{Digits, RowButton, TimerPhase};

verus! {

/// What one screen shows.
#[derive(Clone, Copy, Debug, PartialEq, Eq)]
pub enum View {
    Buddy(BuddyView),
    Launcher(LauncherView),
    Timer(TimerView),
    Settings(SettingsView),
}

/// The Buddy screen: Wade, and the apps button.
#[derive(Clone, Copy, Debug, PartialEq, Eq, Structural)]
pub struct BuddyView {
    /// The discrete expression, for behavior tests and the state hash.
    pub expression: Expression,
    /// True while Wade is asleep, which the expression alone does not show.
    pub asleep: bool,
    /// True while a blink is in progress.
    pub blinking: bool,
    pub eye_style: EyeStyle,
    pub color: ColorMode,
    /// True while a touch that began on the apps button stays on it.
    pub apps_pressed: bool,
}

/// The Launcher: its tiles, and the button under a touch in progress.
#[derive(Clone, Copy, Debug, PartialEq, Eq, Structural)]
pub struct LauncherView {
    pub pressed: Option<Target>,
}

/// The Timer screen.
#[derive(Clone, Copy, Debug, PartialEq, Eq)]
pub struct TimerView {
    pub phase: TimerPhase,
    /// The time shown: 00:00 once Done.
    pub digits: Digits,
    /// The row's left, center, and right buttons. `None` leaves a slot empty.
    pub row: [Option<RowButton>; 3],
    /// The button under a touch in progress, drawn pressed.
    pub pressed: Option<Target>,
}

/// The Settings screen: the settings, and the button under a touch in progress.
#[derive(Clone, Copy, Debug, PartialEq, Eq, Structural)]
pub struct SettingsView {
    pub settings: Settings,
    pub pressed: Option<Target>,
}

/// How Wade's eyes are drawn: a setting, not part of his behavior.
#[derive(Clone, Copy, Debug, PartialEq, Eq, Structural, Hash)]
pub enum EyeStyle {
    Pupils,
    Plain,
}

impl EyeStyle {
    pub open spec fn toggled_spec(self) -> EyeStyle {
        match self {
            EyeStyle::Pupils => EyeStyle::Plain,
            EyeStyle::Plain => EyeStyle::Pupils,
        }
    }

    /// The other style.
    pub fn toggled(self) -> (e: EyeStyle)
        ensures
            e == self.toggled_spec(),
            e != self,
    {
        match self {
            EyeStyle::Pupils => EyeStyle::Plain,
            EyeStyle::Plain => EyeStyle::Pupils,
        }
    }
}

impl Default for EyeStyle {
    fn default() -> (e: EyeStyle)
        ensures
            e == EyeStyle::Pupils,
    {
        EyeStyle::Pupils
    }
}

/// Whether the screen uses its palette or only white on black.
#[derive(Clone, Copy, Debug, PartialEq, Eq, Structural, Hash)]
pub enum ColorMode {
    Color,
    Mono,
}

impl ColorMode {
    pub open spec fn toggled_spec(self) -> ColorMode {
        match self {
            ColorMode::Color => ColorMode::Mono,
            ColorMode::Mono => ColorMode::Color,
        }
    }

    /// The other mode.
    pub fn toggled(self) -> (c: ColorMode)
        ensures
            c == self.toggled_spec(),
            c != self,
    {
        match self {
            ColorMode::Color => ColorMode::Mono,
            ColorMode::Mono => ColorMode::Color,
        }
    }
}

impl Default for ColorMode {
    fn default() -> (c: ColorMode)
        ensures
            c == ColorMode::Color,
    {
        ColorMode::Color
    }
}

} // verus!
