//! Wade's platform-independent core: an animated desk companion with a timer.
//!
//! All behavior lives here. Time and randomness arrive as arguments, and side
//! effects leave as return values. Drawing, audio, storage and the window live
//! in the platform program.

pub mod time;
pub mod rng;
pub mod timer;
pub mod settings;
pub mod view;
pub mod geometry;
pub mod layout;
pub mod event;
pub mod input;
pub mod output;
pub mod sound;
pub mod character;
pub mod app;
pub mod harness;
pub mod render;
pub mod platform;
pub mod recording;
