//! Owned value types for the vendor's fixed-layout records.
//!
//! The vendor defines these records as raw C structs.  Platform glue decodes
//! a raw record into the matching owned type at the boundary, field for
//! field, so that everything past the boundary works on plain values.

use vstd::prelude::*;

verus! {

/// Bit for the up button on the directional pad in a button mask.
pub const XINPUT_GAMEPAD_DPAD_UP: u16 = 0x0001;

/// Bit for the down button on the directional pad in a button mask.
pub const XINPUT_GAMEPAD_DPAD_DOWN: u16 = 0x0002;

/// Bit for the left button on the directional pad in a button mask.
pub const XINPUT_GAMEPAD_DPAD_LEFT: u16 = 0x0004;

/// Bit for the right button on the directional pad in a button mask.
pub const XINPUT_GAMEPAD_DPAD_RIGHT: u16 = 0x0008;

/// Bit for the "start" button in a button mask.
pub const XINPUT_GAMEPAD_START: u16 = 0x0010;

/// Bit for the "back"/"select" button in a button mask.
pub const XINPUT_GAMEPAD_BACK: u16 = 0x0020;

/// Bit for the left thumb stick being pressed inward in a button mask.
pub const XINPUT_GAMEPAD_LEFT_THUMB: u16 = 0x0040;

/// Bit for the right thumb stick being pressed inward in a button mask.
pub const XINPUT_GAMEPAD_RIGHT_THUMB: u16 = 0x0080;

/// Bit for the upper left shoulder button in a button mask.
pub const XINPUT_GAMEPAD_LEFT_SHOULDER: u16 = 0x0100;

/// Bit for the upper right shoulder button in a button mask.
pub const XINPUT_GAMEPAD_RIGHT_SHOULDER: u16 = 0x0200;

/// Bit for the "guide" button in a button mask.  Only reported through the
/// extended state entry point, which gets it by undocumented ordinal.
pub const XINPUT_GAMEPAD_GUIDE: u16 = 0x0400;

/// Bit for the south button of the action group in a button mask.
pub const XINPUT_GAMEPAD_A: u16 = 0x1000;

/// Bit for the east button of the action group in a button mask.
pub const XINPUT_GAMEPAD_B: u16 = 0x2000;

/// Bit for the west button of the action group in a button mask.
pub const XINPUT_GAMEPAD_X: u16 = 0x4000;

/// Bit for the north button of the action group in a button mask.
pub const XINPUT_GAMEPAD_Y: u16 = 0x8000;

/// The vendor's default threshold to count a trigger as "pressed".
pub const XINPUT_GAMEPAD_TRIGGER_THRESHOLD: u8 = 30;

/// The vendor's suggested deadzone for the left thumb stick.
pub const XINPUT_GAMEPAD_LEFT_THUMB_DEADZONE: i16 = 7849;

/// The vendor's suggested deadzone for the right thumb stick.
pub const XINPUT_GAMEPAD_RIGHT_THUMB_DEADZONE: i16 = 8689;

/// The per-frame input record of one gamepad: a 16-bit button mask, two
/// 8-bit trigger magnitudes, and four 16-bit signed stick axis values.
///
/// Positive stick values are to the right (X axis) or up (Y axis).
#[derive(Debug, Copy, Clone, PartialEq, Eq, Structural)]
pub struct RawGamepad {
    /// Button mask; one `XINPUT_GAMEPAD_*` bit per button.
    pub buttons: u16,
    /// Left trigger magnitude, 0 (released) to 255 (fully pressed).
    pub left_trigger: u8,
    /// Right trigger magnitude, 0 (released) to 255 (fully pressed).
    pub right_trigger: u8,
    /// Left stick X axis.
    pub thumb_lx: i16,
    /// Left stick Y axis.
    pub thumb_ly: i16,
    /// Right stick X axis.
    pub thumb_rx: i16,
    /// Right stick Y axis.
    pub thumb_ry: i16,
}

/// A polled controller-state record: a packet sequence number that the
/// driver bumps only when the reported state changed, and the gamepad data.
#[derive(Debug, Copy, Clone, PartialEq, Eq, Structural)]
pub struct RawControllerState {
    /// Monotonically increasing packet sequence number.
    pub packet_number: u32,
    /// The gamepad data of this snapshot.
    pub gamepad: RawGamepad,
}

/// Rumble motor speeds.  0 is 0% and 65,535 is 100% intensity.  On a wired
/// 360 pad the left motor is low-frequency and the right is high-frequency.
#[derive(Debug, Copy, Clone, PartialEq, Eq, Structural)]
pub struct Vibration {
    /// Left (low-frequency) motor speed.
    pub left_motor_speed: u16,
    /// Right (high-frequency) motor speed.
    pub right_motor_speed: u16,
}

/// Capabilities record describing one controller slot.
#[derive(Debug, Copy, Clone, PartialEq, Eq, Structural)]
pub struct Capabilities {
    /// Device type tag.
    pub device_type: u8,
    /// Device subtype tag.
    pub sub_type: u8,
    /// Feature flags.
    pub flags: u16,
    /// The extreme values each gamepad field can report.
    pub gamepad: RawGamepad,
    /// The extreme values the rumble motors accept.
    pub vibration: Vibration,
}

/// Capabilities info from the undocumented extended-capabilities entry
/// point: the documented record plus vendor, product and revision ids.
#[derive(Debug, Copy, Clone, PartialEq, Eq, Structural)]
#[allow(non_camel_case_types)]
pub struct XINPUT_CAPABILITIES_EX {
    /// The documented capabilities record.
    pub capabilities: Capabilities,
    /// USB vendor id of the device.
    pub vendor_id: u16,
    /// USB product id of the device.
    pub product_id: u16,
    /// USB revision id of the device.
    pub revision_id: u16,
    /// Trailing field of unknown meaning, preserved verbatim.
    pub a4: u32,
}

/// A queued gamepad input event.
#[derive(Debug, Copy, Clone, PartialEq, Eq, Structural)]
pub struct Keystroke {
    /// Virtual-key code of the key, button, or stick movement.
    pub virtual_key: u16,
    /// Unused by the vendor; preserved verbatim.
    pub unicode: u16,
    /// Event flags (key down, key up, repeat).
    pub flags: u16,
    /// The slot the event came from.
    pub user_index: u8,
    /// HID code corresponding to the input.
    pub hid_code: u8,
}

} // verus!
