//! Settings: what the person at the desk has chosen, and how it is stored.

use vstd::prelude::*;

use crate::time::{Duration, SECS_PER_MIN};
use crate::timer::{minute, DEFAULT_SET_MINS, MAX_SET_MINS, MIN_SET_MINS};
use crate::view::{ColorMode, EyeStyle};

verus! {

/// The length of an encoding: the version, then one byte each for the eye
/// style, colors, chime, and timer minutes.
pub const ENCODED_LEN: usize = 5;

/// The first byte of every encoding. A new layout gets a new version, and
/// decoding keeps reading every older one, so stored settings and recordings
/// survive the change.
pub const VERSION: u8 = 1;

/// A setting the Settings screen toggles.
#[derive(Clone, Copy, Debug, PartialEq, Eq, Structural, Hash)]
pub enum SettingsButton {
    EyeStyle,
    Color,
    Chime,
}

/// Every setting, as plain values.
#[derive(Clone, Copy, Debug, PartialEq, Eq, Structural, Hash)]
pub struct SettingsModel {
    pub eye_style: EyeStyle,
    pub color: ColorMode,
    pub chime: bool,
    pub timer_minutes: u8,
}

impl SettingsModel {
    /// The timer is whole minutes from one to ninety-nine.
    pub open spec fn valid(self) -> bool {
        MIN_SET_MINS <= self.timer_minutes <= MAX_SET_MINS
    }

    /// These settings with the one under `button` switched to its other value.
    pub open spec fn toggled(self, button: SettingsButton) -> SettingsModel {
        match button {
            SettingsButton::EyeStyle => SettingsModel { eye_style: self.eye_style.toggled_spec(), ..self },
            SettingsButton::Color => SettingsModel { color: self.color.toggled_spec(), ..self },
            SettingsButton::Chime => SettingsModel { chime: !self.chime, ..self },
        }
    }

    /// The stored form: a version byte, then one byte per setting.
    pub open spec fn encoding(self) -> Seq<u8> {
        seq![
            VERSION,
            match self.eye_style {
                EyeStyle::Pupils => 0u8,
                EyeStyle::Plain => 1u8,
            },
            match self.color {
                ColorMode::Color => 0u8,
                ColorMode::Mono => 1u8,
            },
            if self.chime {
                1u8
            } else {
                0u8
            },
            self.timer_minutes,
        ]
    }
}

/// The defaults: pupils, in color, with the chime on, and a five-minute timer.
pub open spec fn default_model() -> SettingsModel {
    SettingsModel {
        eye_style: EyeStyle::Pupils,
        color: ColorMode::Color,
        chime: true,
        timer_minutes: DEFAULT_SET_MINS as u8,
    }
}

/// The settings that `bytes` is exactly the encoding of, if any.
pub open spec fn decoding(bytes: Seq<u8>) -> Option<SettingsModel> {
    if bytes.len() == ENCODED_LEN && bytes[0] == VERSION && bytes[1] < 2 && bytes[2] < 2
        && bytes[3] < 2 && MIN_SET_MINS <= bytes[4] <= MAX_SET_MINS {
        Some(
            SettingsModel {
                eye_style: if bytes[1] == 0 {
                    EyeStyle::Pupils
                } else {
                    EyeStyle::Plain
                },
                color: if bytes[2] == 0 {
                    ColorMode::Color
                } else {
                    ColorMode::Mono
                },
                chime: bytes[3] == 1,
                timer_minutes: bytes[4],
            },
        )
    } else {
        None
    }
}

/// `timer` in minutes, if it is whole minutes from one to ninety-nine.
pub open spec fn whole_minutes_spec(timer: Duration) -> Option<u8> {
    if timer@ % minute() == 0 && MIN_SET_MINS <= timer@ / minute() <= MAX_SET_MINS {
        Some((timer@ / minute()) as u8)
    } else {
        None
    }
}

/// Decoding undoes encoding, and whatever decodes is exactly the encoding of
/// what it decodes to: stored settings survive a restart unchanged, and no
/// other bytes are mistaken for settings.
pub proof fn lemma_decoding_inverts_encoding(settings: SettingsModel, bytes: Seq<u8>)
    ensures
        settings.valid() ==> decoding(settings.encoding()) == Some(settings),
        decoding(bytes) matches Some(decoded) ==> decoded.valid() && decoded.encoding() =~= bytes,
{
}

/// Every setting. Always valid: the timer is whole minutes from 1 to 99.
/// Its view is the settings as plain values.
#[derive(Clone, Copy, Debug, PartialEq, Eq, Structural, Hash)]
pub struct Settings {
    eye_style: EyeStyle,
    color: ColorMode,
    chime: bool,
    timer_minutes: u8,
}

impl View for Settings {
    type V = SettingsModel;

    closed spec fn view(&self) -> SettingsModel {
        SettingsModel {
            eye_style: self.eye_style,
            color: self.color,
            chime: self.chime,
            timer_minutes: self.timer_minutes,
        }
    }
}

impl Settings {
    #[verifier::type_invariant]
    spec fn whole_minutes_in_range(self) -> bool {
        MIN_SET_MINS <= self.timer_minutes <= MAX_SET_MINS
    }

    /// Two settings with the same values are the same settings.
    pub proof fn lemma_view_injective(a: Settings, b: Settings)
        ensures
            (a@ == b@) == (a == b),
    {
    }

    /// The defaults: pupils, in color, with the chime on, and a five-minute
    /// timer.
    pub fn defaults() -> (s: Settings)
        ensures
            s@ == default_model(),
    {
        Settings {
            eye_style: EyeStyle::Pupils,
            color: ColorMode::Color,
            chime: true,
            timer_minutes: DEFAULT_SET_MINS as u8,
        }
    }

    pub fn eye_style(&self) -> (e: EyeStyle)
        ensures
            e == self@.eye_style,
    {
        self.eye_style
    }

    pub fn color(&self) -> (c: ColorMode)
        ensures
            c == self@.color,
    {
        self.color
    }

    /// False silences the timer's chime.
    pub fn chime(&self) -> (on: bool)
        ensures
            on == self@.chime,
    {
        self.chime
    }

    /// The duration the timer is set to while Ready.
    pub fn timer(&self) -> (d: Duration)
        ensures
            d@ == self@.timer_minutes * minute(),
            self@.valid(),
    {
        proof {
            use_type_invariant(self);
            let m = self.timer_minutes as int;
            assert(m * 60 * 1_000_000_000 == m * (60 * 1_000_000_000)) by (nonlinear_arith);
        }
        Duration::from_mins(self.timer_minutes as u64)
    }

    pub fn with_eye_style(self, eye_style: EyeStyle) -> (s: Settings)
        ensures
            s@ == (SettingsModel { eye_style, ..self@ }),
    {
        proof {
            use_type_invariant(self);
        }
        Settings { eye_style, ..self }
    }

    pub fn with_color(self, color: ColorMode) -> (s: Settings)
        ensures
            s@ == (SettingsModel { color, ..self@ }),
    {
        proof {
            use_type_invariant(self);
        }
        Settings { color, ..self }
    }

    pub fn with_chime(self, chime: bool) -> (s: Settings)
        ensures
            s@ == (SettingsModel { chime, ..self@ }),
    {
        proof {
            use_type_invariant(self);
        }
        Settings { chime, ..self }
    }

    /// These settings with the timer at `timer`, or `None` unless it is whole
    /// minutes from 1 to 99.
    pub fn with_timer(self, timer: Duration) -> (s: Option<Settings>)
        ensures
            match whole_minutes_spec(timer) {
                Some(m) => s matches Some(s) && s@ == (SettingsModel { timer_minutes: m, ..self@ }),
                None => s is None,
            },
    {
        proof {
            use_type_invariant(self);
        }
        match whole_minutes(timer) {
            Some(timer_minutes) => Some(Settings { timer_minutes, ..self }),
            None => None,
        }
    }

    /// These settings with the setting under `button` switched to its other
    /// value.
    pub fn toggled(self, button: SettingsButton) -> (s: Settings)
        ensures
            s@ == self@.toggled(button),
    {
        match button {
            SettingsButton::EyeStyle => self.with_eye_style(self.eye_style.toggled()),
            SettingsButton::Color => self.with_color(self.color.toggled()),
            SettingsButton::Chime => self.with_chime(!self.chime),
        }
    }

    /// The stored form: a version byte, then one byte per setting. Decoding
    /// it gives these settings back.
    pub fn encode(&self) -> (bytes: [u8; ENCODED_LEN])
        ensures
            bytes@ == self@.encoding(),
            decoding(bytes@) == Some(self@),
    {
        proof {
            use_type_invariant(self);
        }
        let eye_style: u8 = match self.eye_style {
            EyeStyle::Pupils => 0,
            EyeStyle::Plain => 1,
        };
        let color: u8 = match self.color {
            ColorMode::Color => 0,
            ColorMode::Mono => 1,
        };
        let chime: u8 = if self.chime {
            1
        } else {
            0
        };
        let bytes = [VERSION, eye_style, color, chime, self.timer_minutes];
        assert(bytes@ =~= self@.encoding());
        bytes
    }

    /// Settings from their stored form. Missing, corrupt, or unknown-version
    /// data gives the defaults.
    pub fn decode(bytes: &[u8]) -> (s: Settings)
        ensures
            s@ == match decoding(bytes@) {
                Some(decoded) => decoded,
                None => default_model(),
            },
    {
        match Settings::try_decode(bytes) {
            Some(s) => s,
            None => Settings::defaults(),
        }
    }

    /// Settings from their stored form, or `None` unless `bytes` is exactly
    /// an encoding of some settings.
    pub fn try_decode(bytes: &[u8]) -> (s: Option<Settings>)
        ensures
            match decoding(bytes@) {
                Some(decoded) => s matches Some(s) && s@ == decoded,
                None => s is None,
            },
    {
        if bytes.len() != ENCODED_LEN || bytes[0] != VERSION {
            return None;
        }
        let eye_style = match bytes[1] {
            0 => EyeStyle::Pupils,
            1 => EyeStyle::Plain,
            _ => return None,
        };
        let color = match bytes[2] {
            0 => ColorMode::Color,
            1 => ColorMode::Mono,
            _ => return None,
        };
        let chime = match bytes[3] {
            0 => false,
            1 => true,
            _ => return None,
        };
        let minutes = bytes[4];
        if minutes < MIN_SET_MINS as u8 || minutes > MAX_SET_MINS as u8 {
            return None;
        }
        Some(Settings { eye_style, color, chime, timer_minutes: minutes })
    }
}

impl Default for Settings {
    fn default() -> (s: Settings)
        ensures
            s@ == default_model(),
    {
        Settings::defaults()
    }
}

/// `timer` in minutes, or `None` unless it is whole minutes from 1 to 99.
pub fn whole_minutes(timer: Duration) -> (m: Option<u8>)
    ensures
        m == whole_minutes_spec(timer),
{
    let secs = timer.as_secs();
    let whole = timer.subsec_nanos() == 0 && secs % SECS_PER_MIN == 0;
    proof {
        let n = timer@;
        assert(whole == (n % minute() == 0)) by (nonlinear_arith)
            requires
                secs == n / 1_000_000_000,
                whole == (n % 1_000_000_000 == 0 && secs % 60 == 0),
                minute() == 60_000_000_000,
        ;
        if whole {
            assert(secs / 60 == n / minute()) by (nonlinear_arith)
                requires
                    secs == n / 1_000_000_000,
                    minute() == 60_000_000_000,
            ;
        }
    }
    if whole && secs >= MIN_SET_MINS * SECS_PER_MIN && secs <= MAX_SET_MINS * SECS_PER_MIN {
        Some((secs / SECS_PER_MIN) as u8)
    } else {
        None
    }
}

} // verus!
