//! Device state tracker for a pose-reporting hardware interface.
//!
//! The library keeps a registry of tracked devices indexed by a
//! hardware-assigned slot, converts raw pose data into application-level
//! records, classifies devices by their hardware role, and renders a
//! timestamped snapshot of the registry as a canonical wire text.
//!
//! Floating-point components (positions, orientations) are carried
//! everywhere as their IEEE 754 single-precision bit patterns, so that the
//! state rules stay plain integer logic.

pub mod f32_bits;
pub mod multicast;
pub mod pose;
pub mod registry;
pub mod tracking_messages;
pub mod wire;
