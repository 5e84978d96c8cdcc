//! The handle over a bound library, and the per-operation protocol.
//!
//! A handle is created once by a successful load and is immutable
//! thereafter.  In this crate the handle carries the capability record of
//! the load: which of the optional entry points were resolved.  The
//! platform glue pairs it with the resolved addresses and, for every
//! operation, follows the same protocol: ask [`XInputHandle`] whether the
//! request is valid (no native call is made otherwise), make exactly one
//! native call, and hand the raw result back to the matching
//! `interpret_*` function to classify it.  No retry happens anywhere:
//! polling a disconnected slot is known to stall for a long time, and only
//! the caller can decide whether to pay that cost again.

use vstd::prelude::*;

use crate::errors::XInputOptionalFnUsageError;
use crate::errors::XInputUsageError;
use crate::battery::XInputBatteryInformation;
use crate::battery::BatteryLevel;
use crate::battery::BatteryType;
use crate::state::XInputState;
use crate::types::Capabilities;
use crate::types::Keystroke;
use crate::types::RawControllerState;
use crate::types::XINPUT_CAPABILITIES_EX;

verus! {

/// The raw status code for success.
pub const ERROR_SUCCESS: u32 = 0;

/// The raw status code for a controller that is not connected.  An
/// expected, frequent, non-exceptional outcome.
pub const ERROR_DEVICE_NOT_CONNECTED: u32 = 1167;

/// The raw status code for an empty keystroke queue.
pub const ERROR_EMPTY: u32 = 4306;

/// The number of controller slots: a slot index is valid in `0..4` only.
pub const CONTROLLER_SLOT_COUNT: u32 = 4;

/// A handle to a bound library: the capability record produced by the
/// symbol binder.  The four required entry points (enable, get-state,
/// set-state, get-capabilities) are always present in a handle — binding
/// fails outright otherwise — so only the optional ones are recorded.
#[derive(Debug, Copy, Clone, PartialEq, Eq, Structural)]
pub struct XInputHandle {
    /// Whether the undocumented extended get-state entry point resolved.
    pub has_get_state_ex: bool,
    /// Whether the undocumented extended get-capabilities entry point
    /// resolved.
    pub has_get_capabilities_ex: bool,
    /// Whether the get-keystroke entry point resolved.
    pub has_get_keystroke: bool,
    /// Whether the get-battery-information entry point resolved.
    pub has_get_battery_information: bool,
    /// Whether the get-audio-device-ids entry point resolved.
    pub has_get_audio_device_ids: bool,
    /// Whether the get-dsound-audio-device-guids entry point resolved.
    pub has_get_dsound_audio_device_guids: bool,
}

impl XInputHandle {
    /// Validates a state poll: rejects any slot outside `0..4` without a
    /// native call.  `Ok` means the required get-state entry point (always
    /// present in a handle) may be called for that slot.
    pub fn check_get_state(&self, user_index: u32) -> (r: Result<(), XInputUsageError>)
        ensures
            user_index >= 4 ==> r == Err::<(), XInputUsageError>(
                XInputUsageError::InvalidControllerID,
            ),
            user_index < 4 ==> r == Ok::<(), XInputUsageError>(()),
    {
        if user_index >= CONTROLLER_SLOT_COUNT {
            Err(XInputUsageError::InvalidControllerID)
        } else {
            Ok(())
        }
    }

    /// Validates an extended state poll: rejects any slot outside `0..4`,
    /// then rejects handles whose library did not expose the undocumented
    /// extended get-state entry point.  In either case no native call is
    /// made.
    pub fn check_get_state_ex(&self, user_index: u32) -> (r: Result<(), XInputUsageError>)
        ensures
            user_index >= 4 ==> r == Err::<(), XInputUsageError>(
                XInputUsageError::InvalidControllerID,
            ),
            user_index < 4 && !self.has_get_state_ex ==> r == Err::<(), XInputUsageError>(
                XInputUsageError::XInputNotLoaded,
            ),
            user_index < 4 && self.has_get_state_ex ==> r == Ok::<(), XInputUsageError>(()),
    {
        if user_index >= CONTROLLER_SLOT_COUNT {
            Err(XInputUsageError::InvalidControllerID)
        } else if !self.has_get_state_ex {
            Err(XInputUsageError::XInputNotLoaded)
        } else {
            Ok(())
        }
    }

    /// Validates a rumble command: rejects any slot outside `0..4` without
    /// a native call.
    pub fn check_set_state(&self, user_index: u32) -> (r: Result<(), XInputUsageError>)
        ensures
            user_index >= 4 ==> r == Err::<(), XInputUsageError>(
                XInputUsageError::InvalidControllerID,
            ),
            user_index < 4 ==> r == Ok::<(), XInputUsageError>(()),
    {
        if user_index >= CONTROLLER_SLOT_COUNT {
            Err(XInputUsageError::InvalidControllerID)
        } else {
            Ok(())
        }
    }

    /// Validates a capabilities query: rejects any slot outside `0..4`
    /// without a native call.
    pub fn check_get_capabilities(&self, user_index: u32) -> (r: Result<(), XInputUsageError>)
        ensures
            user_index >= 4 ==> r == Err::<(), XInputUsageError>(
                XInputUsageError::InvalidControllerID,
            ),
            user_index < 4 ==> r == Ok::<(), XInputUsageError>(()),
    {
        if user_index >= CONTROLLER_SLOT_COUNT {
            Err(XInputUsageError::InvalidControllerID)
        } else {
            Ok(())
        }
    }

    /// Validates an extended capabilities query: rejects any slot outside
    /// `0..4`, then rejects handles whose library did not expose the
    /// undocumented extended entry point.  No native call either way.
    pub fn check_get_capabilities_ex(&self, user_index: u32) -> (r: Result<(), XInputUsageError>)
        ensures
            user_index >= 4 ==> r == Err::<(), XInputUsageError>(
                XInputUsageError::InvalidControllerID,
            ),
            user_index < 4 && !self.has_get_capabilities_ex ==> r == Err::<(), XInputUsageError>(
                XInputUsageError::XInputNotLoaded,
            ),
            user_index < 4 && self.has_get_capabilities_ex ==> r == Ok::<(), XInputUsageError>(()),
    {
        if user_index >= CONTROLLER_SLOT_COUNT {
            Err(XInputUsageError::InvalidControllerID)
        } else if !self.has_get_capabilities_ex {
            Err(XInputUsageError::XInputNotLoaded)
        } else {
            Ok(())
        }
    }

    /// Validates a keystroke poll: rejects any slot outside `0..4`, then
    /// rejects handles whose library did not expose the optional
    /// get-keystroke entry point.  No native call either way.
    pub fn check_get_keystroke(&self, user_index: u32) -> (r: Result<
        (),
        XInputOptionalFnUsageError,
    >)
        ensures
            user_index >= 4 ==> r == Err::<(), XInputOptionalFnUsageError>(
                XInputOptionalFnUsageError::InvalidControllerID,
            ),
            user_index < 4 && !self.has_get_keystroke ==> r == Err::<
                (),
                XInputOptionalFnUsageError,
            >(XInputOptionalFnUsageError::FunctionNotLoaded),
            user_index < 4 && self.has_get_keystroke ==> r == Ok::<
                (),
                XInputOptionalFnUsageError,
            >(()),
    {
        if user_index >= CONTROLLER_SLOT_COUNT {
            Err(XInputOptionalFnUsageError::InvalidControllerID)
        } else if !self.has_get_keystroke {
            Err(XInputOptionalFnUsageError::FunctionNotLoaded)
        } else {
            Ok(())
        }
    }

    /// Validates a battery query: rejects any slot outside `0..4`, then
    /// rejects handles whose library did not expose the optional
    /// get-battery-information entry point.  No native call either way.
    pub fn check_get_battery_information(&self, user_index: u32) -> (r: Result<
        (),
        XInputOptionalFnUsageError,
    >)
        ensures
            user_index >= 4 ==> r == Err::<(), XInputOptionalFnUsageError>(
                XInputOptionalFnUsageError::InvalidControllerID,
            ),
            user_index < 4 && !self.has_get_battery_information ==> r == Err::<
                (),
                XInputOptionalFnUsageError,
            >(XInputOptionalFnUsageError::FunctionNotLoaded),
            user_index < 4 && self.has_get_battery_information ==> r == Ok::<
                (),
                XInputOptionalFnUsageError,
            >(()),
    {
        if user_index >= CONTROLLER_SLOT_COUNT {
            Err(XInputOptionalFnUsageError::InvalidControllerID)
        } else if !self.has_get_battery_information {
            Err(XInputOptionalFnUsageError::FunctionNotLoaded)
        } else {
            Ok(())
        }
    }
}

/// Classifies the raw status of a state poll: success wraps the populated
/// record, a missing controller is the typed non-exceptional outcome, and
/// any other status is preserved verbatim.
pub fn interpret_state_result(code: u32, raw: RawControllerState) -> (r: Result<
    XInputState,
    XInputUsageError,
>)
    ensures
        code == ERROR_SUCCESS ==> r == Ok::<XInputState, XInputUsageError>(XInputState { raw }),
        code == ERROR_DEVICE_NOT_CONNECTED ==> r == Err::<XInputState, XInputUsageError>(
            XInputUsageError::DeviceNotConnected,
        ),
        code != ERROR_SUCCESS && code != ERROR_DEVICE_NOT_CONNECTED ==> r == Err::<
            XInputState,
            XInputUsageError,
        >(XInputUsageError::UnknownError(code)),
{
    if code == ERROR_SUCCESS {
        Ok(XInputState { raw })
    } else if code == ERROR_DEVICE_NOT_CONNECTED {
        Err(XInputUsageError::DeviceNotConnected)
    } else {
        Err(XInputUsageError::UnknownError(code))
    }
}

/// Classifies the raw status of a rumble command.
pub fn interpret_set_state_result(code: u32) -> (r: Result<(), XInputUsageError>)
    ensures
        code == ERROR_SUCCESS ==> r == Ok::<(), XInputUsageError>(()),
        code == ERROR_DEVICE_NOT_CONNECTED ==> r == Err::<(), XInputUsageError>(
            XInputUsageError::DeviceNotConnected,
        ),
        code != ERROR_SUCCESS && code != ERROR_DEVICE_NOT_CONNECTED ==> r == Err::<
            (),
            XInputUsageError,
        >(XInputUsageError::UnknownError(code)),
{
    if code == ERROR_SUCCESS {
        Ok(())
    } else if code == ERROR_DEVICE_NOT_CONNECTED {
        Err(XInputUsageError::DeviceNotConnected)
    } else {
        Err(XInputUsageError::UnknownError(code))
    }
}

/// Classifies the raw status of a capabilities query.
pub fn interpret_capabilities_result(code: u32, caps: Capabilities) -> (r: Result<
    Capabilities,
    XInputUsageError,
>)
    ensures
        code == ERROR_SUCCESS ==> r == Ok::<Capabilities, XInputUsageError>(caps),
        code == ERROR_DEVICE_NOT_CONNECTED ==> r == Err::<Capabilities, XInputUsageError>(
            XInputUsageError::DeviceNotConnected,
        ),
        code != ERROR_SUCCESS && code != ERROR_DEVICE_NOT_CONNECTED ==> r == Err::<
            Capabilities,
            XInputUsageError,
        >(XInputUsageError::UnknownError(code)),
{
    if code == ERROR_SUCCESS {
        Ok(caps)
    } else if code == ERROR_DEVICE_NOT_CONNECTED {
        Err(XInputUsageError::DeviceNotConnected)
    } else {
        Err(XInputUsageError::UnknownError(code))
    }
}

/// Classifies the raw status of an extended capabilities query.
pub fn interpret_capabilities_ex_result(code: u32, caps: XINPUT_CAPABILITIES_EX) -> (r: Result<
    XINPUT_CAPABILITIES_EX,
    XInputUsageError,
>)
    ensures
        code == ERROR_SUCCESS ==> r == Ok::<XINPUT_CAPABILITIES_EX, XInputUsageError>(caps),
        code == ERROR_DEVICE_NOT_CONNECTED ==> r == Err::<XINPUT_CAPABILITIES_EX, XInputUsageError>(
            XInputUsageError::DeviceNotConnected,
        ),
        code != ERROR_SUCCESS && code != ERROR_DEVICE_NOT_CONNECTED ==> r == Err::<
            XINPUT_CAPABILITIES_EX,
            XInputUsageError,
        >(XInputUsageError::UnknownError(code)),
{
    if code == ERROR_SUCCESS {
        Ok(caps)
    } else if code == ERROR_DEVICE_NOT_CONNECTED {
        Err(XInputUsageError::DeviceNotConnected)
    } else {
        Err(XInputUsageError::UnknownError(code))
    }
}

/// Classifies the raw status of a keystroke poll.  An empty queue is a
/// successful poll with no event, not an error.
pub fn interpret_keystroke_result(code: u32, keystroke: Keystroke) -> (r: Result<
    Option<Keystroke>,
    XInputOptionalFnUsageError,
>)
    ensures
        code == ERROR_SUCCESS ==> r == Ok::<Option<Keystroke>, XInputOptionalFnUsageError>(
            Some(keystroke),
        ),
        code == ERROR_EMPTY ==> r == Ok::<Option<Keystroke>, XInputOptionalFnUsageError>(
            None::<Keystroke>,
        ),
        code == ERROR_DEVICE_NOT_CONNECTED ==> r == Err::<
            Option<Keystroke>,
            XInputOptionalFnUsageError,
        >(XInputOptionalFnUsageError::DeviceNotConnected),
        code != ERROR_SUCCESS && code != ERROR_EMPTY && code != ERROR_DEVICE_NOT_CONNECTED ==> r
            == Err::<Option<Keystroke>, XInputOptionalFnUsageError>(
            XInputOptionalFnUsageError::UnknownError(code),
        ),
{
    if code == ERROR_SUCCESS {
        Ok(Some(keystroke))
    } else if code == ERROR_EMPTY {
        Ok(None)
    } else if code == ERROR_DEVICE_NOT_CONNECTED {
        Err(XInputOptionalFnUsageError::DeviceNotConnected)
    } else {
        Err(XInputOptionalFnUsageError::UnknownError(code))
    }
}

/// Classifies the raw status of a battery query, decoding the two tagged
/// bytes of the native record on success.
pub fn interpret_battery_result(code: u32, battery_type: u8, battery_level: u8) -> (r: Result<
    XInputBatteryInformation,
    XInputOptionalFnUsageError,
>)
    ensures
        code == ERROR_SUCCESS ==> r == Ok::<XInputBatteryInformation, XInputOptionalFnUsageError>(
            XInputBatteryInformation {
                battery_type: BatteryType(battery_type),
                battery_level: BatteryLevel(battery_level),
            },
        ),
        code == ERROR_DEVICE_NOT_CONNECTED ==> r == Err::<
            XInputBatteryInformation,
            XInputOptionalFnUsageError,
        >(XInputOptionalFnUsageError::DeviceNotConnected),
        code != ERROR_SUCCESS && code != ERROR_DEVICE_NOT_CONNECTED ==> r == Err::<
            XInputBatteryInformation,
            XInputOptionalFnUsageError,
        >(XInputOptionalFnUsageError::UnknownError(code)),
{
    if code == ERROR_SUCCESS {
        Ok(
            XInputBatteryInformation {
                battery_type: BatteryType(battery_type),
                battery_level: BatteryLevel(battery_level),
            },
        )
    } else if code == ERROR_DEVICE_NOT_CONNECTED {
        Err(XInputOptionalFnUsageError::DeviceNotConnected)
    } else {
        Err(XInputOptionalFnUsageError::UnknownError(code))
    }
}

} // verus!
