//! Deterministic simulation core of a circular-arena ball-and-block arcade
//! game: a paddle orbits a central black hole, deflecting balls outward to
//! destroy arc-shaped blocks arranged in concentric rings.
//!
//! This crate holds the discrete rule book of the game, fully verified: the
//! phase state machine, scoring and combo rules, pickup effects, the
//! deterministic wave generator, and the high-score ladder. The host wraps
//! it with the floating-point entity layer (ball motion, arc geometry) and
//! the platform glue, and consults the rule book for every decision.

use vstd::prelude::*;

pub mod effects;
pub mod highscores;
pub mod kinds;
pub mod rng;
pub mod score;
pub mod settings;
pub mod state;
pub mod wave;

verus! {

/// Simulation rate in ticks per second; the host drives `dt = 1 / TICK_RATE`.
pub const TICK_RATE: u32 = 120;

/// Maximum catch-up substeps per rendered frame (spiral-of-death guard).
pub const MAX_SUBSTEPS: u32 = 8;

/// Breather phase duration in ticks (2 seconds).
pub const BREATHER_DURATION_TICKS: u32 = 2 * 120;

/// Lives a fresh run starts with.
pub const INITIAL_LIVES: u8 = 3;

/// Duration of the slow-motion pickup effect, in ticks (5 seconds).
pub const SLOW_EFFECT_TICKS: u32 = 600;

/// Duration of the piercing pickup effect, in ticks (4 seconds).
pub const PIERCING_EFFECT_TICKS: u32 = 480;

/// Duration of one paddle-widening stack, in ticks (6 seconds).
pub const WIDEN_EFFECT_TICKS: u32 = 720;

/// Ticks a ball ignores the paddle after bouncing off it (anti-sticking).
pub const PADDLE_COOLDOWN_TICKS: u32 = 8;

/// Ticks a dropped pickup lives before it expires (10 seconds).
pub const PICKUP_TTL_TICKS: u32 = 1200;

/// Upper bound on live visual particles.
pub const MAX_PARTICLES: usize = 256;

/// Upper bound on stored ball-trail points.
pub const TRAIL_LENGTH: usize = 20;

} // verus!
