//! A screen-watching actuator driver, verified at its core.
//!
//! The library reduces a captured screen region to a bit mask, compares it
//! against a stored calibration mask, and turns the match signal into device
//! commands through a message-driven actor. The shutdown latch, the matcher
//! and the actor's transitions are verified; the surrounding capture, device
//! and UI plumbing lives outside the library and calls in with plain values.

pub mod actor;
pub mod bits;
pub mod capture;
pub mod config;
pub mod exit;
pub mod gui;
pub mod pattern;
pub mod plug;
