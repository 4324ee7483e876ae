//! Core logic of a battery-powered window sensor.
//!
//! The sensor tells by a magnet on the sash whether a window is closed, tilted or open, and
//! advertises that, the air around it and its own state over Bluetooth in the BTHome format. It
//! is set up by knocking, turning and moving the window. Everything that it decides is here; what
//! reads the sensors, waits and sends is not.

pub mod advertising;
pub mod battery;
pub mod bthome;
pub mod bytes;
pub mod classifier;
pub mod diagnostics;
pub mod gesture;
pub mod history;
pub mod mems;
pub mod mems_button;
pub mod mems_tuning;
pub mod ota;
pub mod ota_boot;
pub mod partition;
pub mod settings;
pub mod setup;
pub mod tasks;
pub mod telemetry;
pub mod window_tuning;
