//! Sampling, filtering, motion-state and fault-recovery engine for a
//! single-point ranging sensor (an elevator-shaft height monitor).
//!
//! The crate turns a stream of raw, noisy, occasionally-failing distance
//! readings into a stable position estimate, a motion/stationary
//! classification with debounce, and a decision of when to publish telemetry
//! and when to trigger a hardware reset of a stuck sensor.
//!
//! All positions and temperatures are carried as fixed-point integers in
//! thousandths of a physical unit ("milli-units"), so that every step of the
//! pipeline is exact and verified. The transport driver and the message-bus
//! client live outside this crate; they hand in raw samples and carry out the
//! publish and reset actions that the engine decides on.

pub mod config;
pub mod engine;
pub mod measure;
pub mod motion;
pub mod smoother;
pub mod watchdog;
