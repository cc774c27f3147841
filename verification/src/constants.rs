//! Device ids, limits and timings shared by the library.

use vstd::prelude::*;

verus! {

pub const APP_NAME: &'static str = "opentartarus";

pub const USB_VID_RAZER: u16 = 0x1532;
pub const USB_PID_TARTARUS_V2: u16 = 0x022b;
pub const USB_PID_TARTARUS_PRO: u16 = 0x0244;
/// A Razer mouse that shares the vendor id and must never be grabbed.
pub const USB_PID_NAGA_PRO_1: u16 = 0x008f;

/// Largest IPC payload, in bytes, that a frame may carry.
pub const IPC_MAX_MESSAGE_BYTES: u32 = 1048576;

/// How long a tapped macro key is held before it is released.
pub const TAP_HOLD_MS: u64 = 20;

pub const HOLD_REPEAT_RATE_DEFAULT_MS: u32 = 40;
pub const HOLD_REPEAT_RATE_MIN_MS: u32 = 10;
pub const HOLD_REPEAT_RATE_MAX_MS: u32 = 1000;

pub const MACRO_MAX_STEPS: usize = 64;
pub const MACRO_MAX_DELAY_MS: u32 = 10000;

pub const RECORD_TIMEOUT_MS: u64 = 10000;
pub const RECORD_TIMEOUT_MAX_MS: u64 = 60000;

/// The analog stick counts a direction as pressed once its deflection
/// reaches `ANALOG_PRESS_TENTHS / 10` of full travel, and released once it
/// falls back to `ANALOG_RELEASE_TENTHS / 10` or less.
pub const ANALOG_PRESS_TENTHS: i64 = 4;
pub const ANALOG_RELEASE_TENTHS: i64 = 3;

pub const OPENRGB_TARTARUS_V2_NAME: &'static str = "Razer Tartarus V2";
pub const OPENRGB_TARTARUS_PRO_NAME: &'static str = "Tartarus Pro";

} // verus!
