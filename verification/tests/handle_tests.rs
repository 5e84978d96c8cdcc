use rusty_xinput::battery::BATTERY_LEVEL_FULL;
use rusty_xinput::battery::BATTERY_TYPE_WIRED;
use rusty_xinput::handle::interpret_battery_result;
use rusty_xinput::handle::interpret_capabilities_ex_result;
use rusty_xinput::handle::interpret_capabilities_result;
use rusty_xinput::handle::interpret_keystroke_result;
use rusty_xinput::handle::interpret_set_state_result;
use rusty_xinput::handle::interpret_state_result;
use rusty_xinput::handle::ERROR_DEVICE_NOT_CONNECTED;
use rusty_xinput::handle::ERROR_EMPTY;
use rusty_xinput::handle::ERROR_SUCCESS;
use rusty_xinput::types::Capabilities;
use rusty_xinput::types::Keystroke;
use rusty_xinput::types::RawControllerState;
use rusty_xinput::types::RawGamepad;
use rusty_xinput::types::Vibration;
use rusty_xinput::types::XINPUT_CAPABILITIES_EX;
use rusty_xinput::BatteryLevel;
use rusty_xinput::BatteryType;
use rusty_xinput::XInputHandle;
use rusty_xinput::XInputOptionalFnUsageError;
use rusty_xinput::XInputUsageError;

fn full_handle() -> XInputHandle {
    XInputHandle {
        has_get_state_ex: true,
        has_get_capabilities_ex: true,
        has_get_keystroke: true,
        has_get_battery_information: true,
        has_get_audio_device_ids: true,
        has_get_dsound_audio_device_guids: true,
    }
}

fn bare_handle() -> XInputHandle {
    XInputHandle {
        has_get_state_ex: false,
        has_get_capabilities_ex: false,
        has_get_keystroke: false,
        has_get_battery_information: false,
        has_get_audio_device_ids: false,
        has_get_dsound_audio_device_guids: false,
    }
}

fn zero_raw() -> RawControllerState {
    RawControllerState {
        packet_number: 0,
        gamepad: RawGamepad {
            buttons: 0,
            left_trigger: 0,
            right_trigger: 0,
            thumb_lx: 0,
            thumb_ly: 0,
            thumb_rx: 0,
            thumb_ry: 0,
        },
    }
}

fn zero_caps() -> Capabilities {
    Capabilities {
        device_type: 1,
        sub_type: 1,
        flags: 0,
        gamepad: zero_raw().gamepad,
        vibration: Vibration { left_motor_speed: 0, right_motor_speed: 0 },
    }
}

fn zero_keystroke() -> Keystroke {
    Keystroke { virtual_key: 0, unicode: 0, flags: 0, user_index: 0, hid_code: 0 }
}

#[test]
fn every_operation_rejects_invalid_slots() {
    // no slot of 4 or more reaches a native call, for any operation
    let handle = full_handle();
    for slot in [4u32, 5, 100, u32::MAX] {
        assert_eq!(handle.check_get_state(slot), Err(XInputUsageError::InvalidControllerID));
        assert_eq!(handle.check_get_state_ex(slot), Err(XInputUsageError::InvalidControllerID));
        assert_eq!(handle.check_set_state(slot), Err(XInputUsageError::InvalidControllerID));
        assert_eq!(handle.check_get_capabilities(slot), Err(XInputUsageError::InvalidControllerID));
        assert_eq!(
            handle.check_get_capabilities_ex(slot),
            Err(XInputUsageError::InvalidControllerID)
        );
        assert_eq!(
            handle.check_get_keystroke(slot),
            Err(XInputOptionalFnUsageError::InvalidControllerID)
        );
        assert_eq!(
            handle.check_get_battery_information(slot),
            Err(XInputOptionalFnUsageError::InvalidControllerID)
        );
    }
    // the bare handle rejects them the same way: the slot check comes first
    let handle = bare_handle();
    for slot in [4u32, 5, 100, u32::MAX] {
        assert_eq!(handle.check_get_state_ex(slot), Err(XInputUsageError::InvalidControllerID));
        assert_eq!(
            handle.check_get_keystroke(slot),
            Err(XInputOptionalFnUsageError::InvalidControllerID)
        );
    }
}

#[test]
fn valid_slots_pass_the_check() {
    let handle = full_handle();
    for slot in 0u32..4 {
        assert_eq!(handle.check_get_state(slot), Ok(()));
        assert_eq!(handle.check_get_state_ex(slot), Ok(()));
        assert_eq!(handle.check_set_state(slot), Ok(()));
        assert_eq!(handle.check_get_capabilities(slot), Ok(()));
        assert_eq!(handle.check_get_capabilities_ex(slot), Ok(()));
        assert_eq!(handle.check_get_keystroke(slot), Ok(()));
        assert_eq!(handle.check_get_battery_information(slot), Ok(()));
    }
}

#[test]
fn absent_entry_points_are_function_not_loaded() {
    let handle = bare_handle();
    // undocumented extensions report the library as not loaded
    assert_eq!(handle.check_get_state_ex(0), Err(XInputUsageError::XInputNotLoaded));
    assert_eq!(handle.check_get_capabilities_ex(0), Err(XInputUsageError::XInputNotLoaded));
    // optional entry points report the function as not loaded
    assert_eq!(handle.check_get_keystroke(0), Err(XInputOptionalFnUsageError::FunctionNotLoaded));
    assert_eq!(
        handle.check_get_battery_information(3),
        Err(XInputOptionalFnUsageError::FunctionNotLoaded)
    );
}

#[test]
fn state_results_are_classified() {
    let mut raw = zero_raw();
    raw.packet_number = 42;
    let state = interpret_state_result(ERROR_SUCCESS, raw).unwrap();
    assert_eq!(state.raw.packet_number, 42);
    assert_eq!(
        interpret_state_result(ERROR_DEVICE_NOT_CONNECTED, raw),
        Err(XInputUsageError::DeviceNotConnected)
    );
    // unknown raw codes are preserved verbatim
    assert_eq!(interpret_state_result(999, raw), Err(XInputUsageError::UnknownError(999)));
}

#[test]
fn set_state_results_are_classified() {
    assert_eq!(interpret_set_state_result(ERROR_SUCCESS), Ok(()));
    assert_eq!(
        interpret_set_state_result(ERROR_DEVICE_NOT_CONNECTED),
        Err(XInputUsageError::DeviceNotConnected)
    );
    assert_eq!(interpret_set_state_result(5), Err(XInputUsageError::UnknownError(5)));
}

#[test]
fn capabilities_results_are_classified() {
    let caps = zero_caps();
    assert_eq!(interpret_capabilities_result(ERROR_SUCCESS, caps), Ok(caps));
    assert_eq!(
        interpret_capabilities_result(ERROR_DEVICE_NOT_CONNECTED, caps),
        Err(XInputUsageError::DeviceNotConnected)
    );
    assert_eq!(
        interpret_capabilities_result(87, caps),
        Err(XInputUsageError::UnknownError(87))
    );
    let caps_ex = XINPUT_CAPABILITIES_EX {
        capabilities: caps,
        vendor_id: 0x045E,
        product_id: 0x028E,
        revision_id: 0x0114,
        a4: 0,
    };
    let back = interpret_capabilities_ex_result(ERROR_SUCCESS, caps_ex).unwrap();
    assert_eq!(back.vendor_id, 0x045E);
    assert_eq!(
        interpret_capabilities_ex_result(ERROR_DEVICE_NOT_CONNECTED, caps_ex),
        Err(XInputUsageError::DeviceNotConnected)
    );
}

#[test]
fn keystroke_results_are_classified() {
    let mut ks = zero_keystroke();
    ks.virtual_key = 0x5800;
    let polled = interpret_keystroke_result(ERROR_SUCCESS, ks).unwrap().unwrap();
    assert_eq!(polled.virtual_key, 0x5800);
    // an empty queue is a successful poll with no event
    assert_eq!(interpret_keystroke_result(ERROR_EMPTY, ks), Ok(None));
    assert_eq!(
        interpret_keystroke_result(ERROR_DEVICE_NOT_CONNECTED, ks),
        Err(XInputOptionalFnUsageError::DeviceNotConnected)
    );
    assert_eq!(
        interpret_keystroke_result(31, ks),
        Err(XInputOptionalFnUsageError::UnknownError(31))
    );
}

#[test]
fn battery_results_are_classified() {
    let info = interpret_battery_result(ERROR_SUCCESS, BATTERY_TYPE_WIRED, BATTERY_LEVEL_FULL)
        .unwrap();
    assert_eq!(info.battery_type, BatteryType(BATTERY_TYPE_WIRED));
    assert_eq!(info.battery_level, BatteryLevel(BATTERY_LEVEL_FULL));
    // unrecognized tag bytes are kept verbatim
    let odd = interpret_battery_result(ERROR_SUCCESS, 77, 88).unwrap();
    assert_eq!(odd.battery_type, BatteryType(77));
    assert_eq!(odd.battery_level, BatteryLevel(88));
    assert_eq!(
        interpret_battery_result(ERROR_DEVICE_NOT_CONNECTED, 0, 0),
        Err(XInputOptionalFnUsageError::DeviceNotConnected)
    );
    assert_eq!(
        interpret_battery_result(1234, 0, 0),
        Err(XInputOptionalFnUsageError::UnknownError(1234))
    );
}
