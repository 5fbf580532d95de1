//! Core logic of a closed-loop temperature regulator.
//!
//! The library covers the pure, verifiable heart of the firmware: the
//! Dallas/Maxim CRC-8 checksum, the 1-Wire device-discovery and sensor
//! driver, the persisted-setpoint codec, the PID actuation law and the
//! control-loop state machine.  Hardware transports (the 1-Wire line, the
//! display, the flash, the clock) stay outside; callers hand the library
//! plain values and perform the commands it returns.
//!
//! Temperatures are carried in sixteenths of a degree Celsius, the native
//! step of the sensor's 12-bit readings, so all control arithmetic is exact
//! integer arithmetic.

use vstd::prelude::*;

pub mod bus;
pub mod control;
pub mod crc;
pub mod pid;
pub mod sensor;
pub mod setpoint;
pub mod textfmt;

verus! {

/// Lowest selectable target temperature: 11.0 degrees C, in sixteenths.
pub const MIN_TEMP: i32 = 11 * 16;

/// Highest selectable target temperature: 27.0 degrees C, in sixteenths.
pub const MAX_TEMP: i32 = 27 * 16;

/// Target used when no valid setpoint is persisted: 19.0 degrees C.
pub const DEFAULT_TARGET: i32 = 19 * 16;

/// One button press moves the target by 0.5 degrees C.
pub const TEMP_STEP: i32 = 8;

/// Allowable variance on either side of the target: 0.25 degrees C.
pub const TOLERANCE: i32 = 4;

/// Temperature check interval in seconds.
pub const CHECK_IN: u64 = 300;

/// Check interval in seconds while no sensor was detected previously.
pub const NO_DEVICE_CHECK_IN: u64 = 60;

/// Seconds of inactivity after which the display is switched off.
pub const DISPLAY_TIMEOUT: u64 = 30;

} // verus!
