# Wade

Wade is an animated desk companion with a countdown timer, for a small
320×240 touch screen. This crate is his platform-independent core, written in
Verus: every behavior, rule and layout decision is an executable function with
a contract that Verus proves.

The core never reads a clock, sleeps or performs I/O. Time and randomness
arrive as arguments (`Event`s and a seed); side effects leave as return values
(`Output`: effects to carry out, and whether to redraw).

## Layout

- `src/` — the verified library.
  - `time`, `rng`, `geometry`: instants and durations, the seeded generator,
    screen coordinates.
  - `timer`: the countdown timer's states, buttons, chimes and digits.
  - `character`: Wade's expressions, blinks, sleep and reactions.
  - `layout`, `input`: where everything is on screen, hit-testing, and how
    raw touch samples become taps.
  - `settings`: the settings and their five-byte stored form.
  - `app`: `App`, which routes events to the features in time order and
    says when it next needs to run.
  - `render`: every screen but Wade's face as plain shapes, placed from the
    layout.
  - `harness`, `platform`: a driver for tests that behaves like a platform,
    the state hash, and the decisions of a platform's loop, live or replaying.
  - `recording`: the `wade-events` text format of recorded sessions, its
    parser and writer (parsing undoes writing), and replay through the
    harness.
- `tests/` — behavior, navigation, timer and property tests against the
  library's public API.
- `app/` — the desktop simulator: a window, the clock, audio, settings
  storage, and Wade's face, which is drawn from floating-point poses. Flags:
  `--seed <n>`, `--record <file>`, `--replay <file>`, `--time-scale <x>`.

Verify with Verus on `src/lib.rs`; the tests run with `cargo test`.
