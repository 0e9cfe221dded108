//! Voice-activity detection for a two-pose desktop avatar.
//!
//! The avatar shows an idle pose or a talking pose, chosen from the loudness
//! of the microphone. This library holds the decisions behind that: how loud
//! a block of samples is, when the avatar starts and stops talking, which
//! events a block gives rise to, how they are handed to the interface, and
//! how the interface state answers them. Every quantity is an integer in
//! fixed point, so that each decision is exact and proved.

pub mod config;
pub mod level;
pub mod detector;
pub mod hysteresis;
pub mod bridge;
pub mod capture;
pub mod app;
