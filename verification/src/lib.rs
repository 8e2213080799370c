//! Verified core of a quadcopter flight-controller firmware for the RP2040:
//! the ATK-MS901M IMU serial protocol (frame parser, request framing,
//! response decoding), the command-line reply builders, the flight-mode
//! and motor command logic, the LED blink patterns and the DShot clock
//! divider.

pub mod atk_defines;
pub mod frame_state_machine;
pub mod atk_protocol;
pub mod ubuffer;
pub mod text;
pub mod flight;
pub mod blink;
pub mod dshot;
pub mod motors;
pub mod variables;
pub mod commands;
pub mod usb;
