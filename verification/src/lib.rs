//! Verified numeric core of a gaze-driven pointer: fixed-point coordinate
//! mapping, adaptive smoothing, and the calibration acquisition protocol.
//!
//! All coordinates and filter signals are carried as signed 64-bit
//! fixed-point numbers in micro-units: the value `1_000_000` stands for
//! `1.0`. The unverified shell around this library converts between these
//! micro-units and the floating-point values of its collaborators.

pub mod calibration;
pub mod ipc;
pub mod session;
pub mod smoothing;
pub mod stream;
pub mod units;

pub use units::Point;
pub use units::HALF;
pub use units::SCALE;
