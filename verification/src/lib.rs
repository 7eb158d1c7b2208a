//! Core logic of a mouse watcher: it keeps an idle-detection mechanism from
//! firing by synthesizing mouse activity after a configurable period of user
//! inactivity, and lets the user toggle the behaviour with a hotkey.
//!
//! This crate holds the verified core: the activity clock, the toggle state
//! machine, and the random-walk engine that plans and steps the synthetic
//! cursor movement. The operating-system edges (listening to the global input
//! stream, injecting events, querying the display) live outside the crate and
//! talk to this core through plain values.

pub mod clock;
pub mod toggle;
pub mod walk;
