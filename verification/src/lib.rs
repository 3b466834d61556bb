//! Device-state synchronisation for a battery status applet.
//!
//! The applet shows the charge state of the power service's display device
//! and lets the user move two brightness sliders.  This crate holds the
//! state and the rules; the caller owns the event loop, the bus connection
//! and the widgets, and performs what the rules ask for.

pub mod device;
pub mod merger;
pub mod model;
pub mod percent;
pub mod property;
pub mod resolve;
pub mod snapshot;
