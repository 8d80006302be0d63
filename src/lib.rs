//! Motion-control core of a four-legged walking robot.
//!
//! Locomotion commands (sit, stand, step, turn, wave, calibrate) become
//! per-leg foot-tip waypoints; a fixed-rate interpolation moves the actual
//! foot positions toward them, and a per-leg correction table turns joint
//! angles into servo angles.
//!
//! Lengths are fixed-point integers in micrometres and angles are integers
//! in millidegrees, so that every step of the pipeline is exact.
pub mod leg;
pub mod math;
pub mod position;
pub mod config;
pub mod commands;
pub mod gait;
pub mod gait_plan;
pub mod executor;
pub mod kinematics;
pub mod servo;
