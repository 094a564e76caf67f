use std::collections::HashSet;

use wade::event::Key;
use wade::harness::Harness;
use wade::settings::{whole_minutes, Settings, SettingsButton, ENCODED_LEN, VERSION};
use wade::time::{Duration, Instant};
use wade::timer::{max_set, min_set, TimerState};
use wade::view::{ColorMode, EyeStyle};

const SEED: u64 = 0x5EED_F00D;

fn ms(ms: u64) -> Instant {
    Instant::from_millis(ms)
}

/// Every combination of settings.
fn every_settings() -> impl Iterator<Item = Settings> {
    [EyeStyle::Pupils, EyeStyle::Plain].into_iter().flat_map(|eye_style| {
        [ColorMode::Color, ColorMode::Mono].into_iter().flat_map(move |color| {
            [true, false].into_iter().flat_map(move |chime| {
                (1..=99u64).map(move |minutes| {
                    Settings::defaults()
                        .with_eye_style(eye_style)
                        .with_color(color)
                        .with_chime(chime)
                        .with_timer(Duration::from_mins(minutes))
                        .expect("1 to 99 minutes")
                })
            })
        })
    })
}

#[test]
fn the_stored_form_of_the_defaults_never_changes() {
    assert_eq!(Settings::default().encode(), [VERSION, 0, 0, 1, 5]);
}

#[test]
fn the_timer_is_whole_minutes_from_one_to_ninety_nine() {
    let s = Settings::defaults();
    assert_eq!(s.with_timer(min_set()).map(|s| s.timer()), Some(min_set()));
    assert_eq!(s.with_timer(max_set()).map(|s| s.timer()), Some(max_set()));
    assert_eq!(s.with_timer(Duration::zero()), None);
    assert_eq!(s.with_timer(max_set().checked_add(min_set()).unwrap()), None);
    assert_eq!(s.with_timer(Duration::from_secs(90)), None);
    assert_eq!(s.with_timer(min_set().checked_add(Duration::from_nanos(1)).unwrap()), None);
}

#[test]
fn bad_data_decodes_to_the_defaults() {
    let good = Settings::defaults().with_chime(false).encode();
    assert_eq!(Settings::decode(&good), Settings::defaults().with_chime(false));
    for (bytes, why) in [
        (&[][..], "missing"),
        (&good[..4], "short"),
        (&[VERSION, 0, 0, 0, 5, 0][..], "long"),
        (&[2, 0, 0, 0, 5][..], "unknown version"),
        (&[VERSION, 2, 0, 0, 5][..], "bad eye style"),
        (&[VERSION, 0, 2, 0, 5][..], "bad colors"),
        (&[VERSION, 0, 0, 2, 5][..], "bad chime"),
        (&[VERSION, 0, 0, 0, 0][..], "timer too short"),
        (&[VERSION, 0, 0, 0, 100][..], "timer too long"),
    ] {
        assert_eq!(Settings::try_decode(bytes), None, "{why}");
        assert_eq!(Settings::decode(bytes), Settings::defaults(), "{why}");
    }
}

#[test]
fn every_value_survives_encoding() {
    let all: Vec<_> = every_settings().collect();
    assert_eq!(all.len(), 2 * 2 * 2 * 99);
    for settings in all {
        assert_eq!(Settings::decode(&settings.encode()), settings);
    }
}

#[test]
fn the_app_starts_with_the_settings_it_is_given() {
    let settings = Settings::defaults()
        .with_eye_style(EyeStyle::Plain)
        .with_timer(Duration::from_mins(12))
        .expect("12 minutes");
    let h = Harness::with_settings(SEED, settings);
    assert_eq!(h.app().settings(), settings);
    assert_eq!(h.buddy().unwrap().eye_style, EyeStyle::Plain);
    assert_eq!(h.app().timer_state(), TimerState::Ready { set: Duration::from_mins(12) });
}

#[test]
fn p_changes_the_eye_style_setting() {
    let mut h = Harness::new(SEED);
    assert!(h.key(ms(1_000), Key::P));
    assert_eq!(h.app().settings().eye_style(), EyeStyle::Plain);
    assert!(h.key(ms(2_000), Key::P));
    assert_eq!(h.app().settings(), Settings::defaults());
}

#[test]
fn the_state_hash_covers_every_setting() {
    let hashes: HashSet<_> = every_settings()
        .map(|settings| Harness::with_settings(SEED, settings).state_hash())
        .collect();
    assert_eq!(hashes.len(), every_settings().count());
}

#[test]
fn any_bytes_of_the_right_shape_decode_to_the_defaults_or_to_what_they_encode() {
    for v in 0u8..3 {
        for e in 0u8..3 {
            for c in 0u8..3 {
                for h in 0u8..3 {
                    for m in 0u8..=100 {
                        let bytes = [v, e, c, h, m];
                        match Settings::try_decode(&bytes) {
                            Some(settings) => assert_eq!(settings.encode(), bytes),
                            None => assert_eq!(Settings::decode(&bytes), Settings::defaults()),
                        }
                    }
                }
            }
        }
    }
    assert_eq!(ENCODED_LEN, 5);
}

#[test]
fn toggling_switches_one_setting_and_twice_restores_it() {
    let s = Settings::defaults();
    assert_eq!(s.toggled(SettingsButton::EyeStyle).eye_style(), EyeStyle::Plain);
    assert_eq!(s.toggled(SettingsButton::Color).color(), ColorMode::Mono);
    assert!(!s.toggled(SettingsButton::Chime).chime());
    for button in [SettingsButton::EyeStyle, SettingsButton::Color, SettingsButton::Chime] {
        assert_eq!(s.toggled(button).toggled(button), s);
        assert_eq!(s.toggled(button).timer(), s.timer());
    }
}

#[test]
fn whole_minutes_rejects_parts_of_a_minute() {
    assert_eq!(whole_minutes(Duration::from_mins(7)), Some(7));
    assert_eq!(whole_minutes(Duration::from_secs(61)), None);
    assert_eq!(whole_minutes(Duration::from_mins(100)), None);
    assert_eq!(whole_minutes(Duration::zero()), None);
}
