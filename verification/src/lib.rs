//! Control logic of a real-time procedural image generator.
//!
//! A window shows a full-screen GPU effect driven by a small per-frame payload,
//! with a frame-rate overlay on top. This crate holds the decisions of that
//! render loop as a state machine from events to actions, together with the
//! data the loop hands to the GPU. Windowing, device access and text shaping
//! are left to the caller, which feeds events in and carries actions out.

pub mod controller;
pub mod event;
pub mod gpu;
pub mod laws;
pub mod params;
pub mod rate;
pub mod seed;
pub mod surface;
