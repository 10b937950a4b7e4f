//! Decision logic of a keyboard-backlight activity daemon: which brightness
//! commands to issue when the watched input device shows activity, how the
//! backlight is faded down afterwards, and when a command can be skipped
//! because the backlight already has the requested brightness.

pub mod config;
pub mod ramp;
pub mod fade;
pub mod actuator;
pub mod channel;
