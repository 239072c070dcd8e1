//! Edge gestures on a touchpad: zone classification, rate-limited velocity
//! estimation and the touch-session state machine that turns axis samples
//! into volume, brightness and panel actions.

pub mod commands;
pub mod geometry;
pub mod laws;
pub mod session;
pub mod velocity;
pub mod zone;
