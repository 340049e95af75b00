//! Board support for Adafruit Feather boards and the Prop-Maker FeatherWing:
//! a verified boot sequence, a write-once registry for interrupt-shared
//! resources, and a bus-generic accelerometer adapter.

pub mod sensor;
pub mod prop_maker;
pub mod registry;
pub mod boot;
pub mod indicator;
pub mod accent;
pub mod handle;
