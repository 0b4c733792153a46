//! Decoding of a handheld controller's raw reports into virtual gamepad
//! commands: report fields, buttons and hat directions, trigger correction,
//! and the commands that one cycle sends to the virtual device.

pub mod buttons;
pub mod commands;
pub mod error;
pub mod frame;
pub mod report;
pub mod triggers;
