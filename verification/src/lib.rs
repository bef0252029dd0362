//! A verified event-loop driver for a minimal windowed GPU application.
//!
//! The library models the state a windowed renderer carries between platform
//! lifecycle events: an all-or-nothing bundle of GPU handles, a terminal flag,
//! and a frame-pacing deadline. Every decision the application's event loop
//! makes — when to build or drop the bundle, when to reconfigure the surface,
//! when to record a frame, and how long to wait before the next wake-up — is a
//! verified function here. The embedding program performs the platform and GPU
//! calls that each returned action asks for.

pub mod driver;
pub mod laws;
pub mod pacing;
