//! Overlay supervision and telemetry sampling for a set of always-on-top
//! race-telemetry overlays: unit conversion, the shared configuration record,
//! the process table that the control panel reconciles, and the sampling
//! state machine that each overlay runs.
pub mod control;
pub mod config;
pub mod supervisor;
pub mod telemetry;
pub mod units;
