//! Battery information: two tagged byte values with small closed
//! enumerations, each keeping unrecognized raw values verbatim.

use vstd::prelude::*;

verus! {

/// Raw tag: the device is disconnected.
pub const BATTERY_TYPE_DISCONNECTED: u8 = 0;

/// Raw tag: the device is wired and has no battery.
pub const BATTERY_TYPE_WIRED: u8 = 1;

/// Raw tag: the device has an alkaline battery.
pub const BATTERY_TYPE_ALKALINE: u8 = 2;

/// Raw tag: the device has a nickel metal hydride battery.
pub const BATTERY_TYPE_NIMH: u8 = 3;

/// Raw tag: the battery type is not known.
pub const BATTERY_TYPE_UNKNOWN: u8 = 255;

/// Raw tag: the battery is empty.
pub const BATTERY_LEVEL_EMPTY: u8 = 0;

/// Raw tag: the battery level is low.
pub const BATTERY_LEVEL_LOW: u8 = 1;

/// Raw tag: the battery level is medium.
pub const BATTERY_LEVEL_MEDIUM: u8 = 2;

/// Raw tag: the battery is full.
pub const BATTERY_LEVEL_FULL: u8 = 3;

/// Raw device class tag: a gamepad.
pub const BATTERY_DEVTYPE_GAMEPAD: u8 = 0;

/// Raw device class tag: a headset.
pub const BATTERY_DEVTYPE_HEADSET: u8 = 1;

/// The type of battery used in a device, if any: one of the
/// `BATTERY_TYPE_*` tags, or an unrecognized raw value kept verbatim.
#[derive(Debug, Copy, Clone, PartialEq, Eq, Structural)]
pub struct BatteryType(pub u8);

/// How much charge a device's battery holds: one of the `BATTERY_LEVEL_*`
/// tags, or an unrecognized raw value kept verbatim.
#[derive(Debug, Copy, Clone, PartialEq, Eq, Structural)]
pub struct BatteryLevel(pub u8);

/// A device's battery information: its battery type and charge level.
#[derive(Debug, Copy, Clone, PartialEq, Eq, Structural)]
pub struct XInputBatteryInformation {
    /// Type of battery used in the device, if any.
    pub battery_type: BatteryType,
    /// For devices with a battery, the charge level.
    pub battery_level: BatteryLevel,
}

} // verus!
