//! A read-only wrapper over a polled controller-state record.

use vstd::prelude::*;
use vstd::std_specs::cmp::PartialEqSpec;

use crate::stick::normalize_raw_stick_value_fixed;
use crate::stick::normalized_stick;
use crate::types::RawControllerState;
use crate::types::RawGamepad;
use crate::types::XINPUT_GAMEPAD_A;
use crate::types::XINPUT_GAMEPAD_B;
use crate::types::XINPUT_GAMEPAD_BACK;
use crate::types::XINPUT_GAMEPAD_DPAD_DOWN;
use crate::types::XINPUT_GAMEPAD_DPAD_LEFT;
use crate::types::XINPUT_GAMEPAD_DPAD_RIGHT;
use crate::types::XINPUT_GAMEPAD_DPAD_UP;
use crate::types::XINPUT_GAMEPAD_GUIDE;
use crate::types::XINPUT_GAMEPAD_LEFT_SHOULDER;
use crate::types::XINPUT_GAMEPAD_LEFT_THUMB;
use crate::types::XINPUT_GAMEPAD_LEFT_THUMB_DEADZONE;
use crate::types::XINPUT_GAMEPAD_RIGHT_SHOULDER;
use crate::types::XINPUT_GAMEPAD_RIGHT_THUMB;
use crate::types::XINPUT_GAMEPAD_RIGHT_THUMB_DEADZONE;
use crate::types::XINPUT_GAMEPAD_START;
use crate::types::XINPUT_GAMEPAD_TRIGGER_THRESHOLD;
use crate::types::XINPUT_GAMEPAD_X;
use crate::types::XINPUT_GAMEPAD_Y;

verus! {

/// A read-only view of a [`RawControllerState`] snapshot.
///
/// The major game companies use different names for most of the buttons, so
/// each button accessor is named by position in the action group rather
/// than by any one vendor's letter.
///
/// If sequential polls of one controller slot return the same packet number
/// then the controller state has not changed between the polls.  The
/// `PartialEq` and `Eq` implementations for this wrapper reflect that:
/// equality is decided by the packet number alone.  This is correct for
/// values obtained from the input system; hand-built values can confuse it.
#[derive(Debug, Copy, Clone)]
pub struct XInputState {
    /// The raw record being wrapped.
    pub raw: RawControllerState,
}

impl PartialEq for XInputState {
    /// Equality for `XInputState` values is based only on the packet number
    /// of the wrapped record.
    fn eq(&self, other: &XInputState) -> (r: bool) {
        self.raw.packet_number == other.raw.packet_number
    }
}

impl vstd::std_specs::cmp::PartialEqSpecImpl for XInputState {
    open spec fn obeys_eq_spec() -> bool {
        true
    }

    open spec fn eq_spec(&self, other: &XInputState) -> bool {
        self.raw.packet_number == other.raw.packet_number
    }
}

impl Eq for XInputState {
}

/// Packet-number equality: two snapshots compare equal exactly when their
/// packet numbers agree, whatever the other fields hold.
pub proof fn lemma_state_equality_is_packet_equality(a: XInputState, b: XInputState)
    ensures
        a.eq_spec(&b) <==> a.raw.packet_number == b.raw.packet_number,
{
}

impl Default for XInputState {
    /// An all-zero snapshot: packet number 0, no buttons, centered sticks.
    fn default() -> (s: Self)
        ensures
            s.raw.packet_number == 0,
            s.raw.gamepad.buttons == 0,
            s.raw.gamepad.left_trigger == 0,
            s.raw.gamepad.right_trigger == 0,
            s.raw.gamepad.thumb_lx == 0,
            s.raw.gamepad.thumb_ly == 0,
            s.raw.gamepad.thumb_rx == 0,
            s.raw.gamepad.thumb_ry == 0,
    {
        Self {
            raw: RawControllerState {
                packet_number: 0,
                gamepad: RawGamepad {
                    buttons: 0,
                    left_trigger: 0,
                    right_trigger: 0,
                    thumb_lx: 0,
                    thumb_ly: 0,
                    thumb_rx: 0,
                    thumb_ry: 0,
                },
            },
        }
    }
}

impl XInputState {
    /// The north button of the action button group.
    #[inline]
    pub fn north_button(&self) -> (r: bool)
        ensures
            r == ((self.raw.gamepad.buttons & XINPUT_GAMEPAD_Y) != 0),
    {
        self.raw.gamepad.buttons & XINPUT_GAMEPAD_Y != 0
    }

    /// The south button of the action button group.
    #[inline]
    pub fn south_button(&self) -> (r: bool)
        ensures
            r == ((self.raw.gamepad.buttons & XINPUT_GAMEPAD_A) != 0),
    {
        self.raw.gamepad.buttons & XINPUT_GAMEPAD_A != 0
    }

    /// The east button of the action button group.
    #[inline]
    pub fn east_button(&self) -> (r: bool)
        ensures
            r == ((self.raw.gamepad.buttons & XINPUT_GAMEPAD_B) != 0),
    {
        self.raw.gamepad.buttons & XINPUT_GAMEPAD_B != 0
    }

    /// The west button of the action button group.
    #[inline]
    pub fn west_button(&self) -> (r: bool)
        ensures
            r == ((self.raw.gamepad.buttons & XINPUT_GAMEPAD_X) != 0),
    {
        self.raw.gamepad.buttons & XINPUT_GAMEPAD_X != 0
    }

    /// The up button on the directional pad.
    #[inline]
    pub fn arrow_up(&self) -> (r: bool)
        ensures
            r == ((self.raw.gamepad.buttons & XINPUT_GAMEPAD_DPAD_UP) != 0),
    {
        self.raw.gamepad.buttons & XINPUT_GAMEPAD_DPAD_UP != 0
    }

    /// The down button on the directional pad.
    #[inline]
    pub fn arrow_down(&self) -> (r: bool)
        ensures
            r == ((self.raw.gamepad.buttons & XINPUT_GAMEPAD_DPAD_DOWN) != 0),
    {
        self.raw.gamepad.buttons & XINPUT_GAMEPAD_DPAD_DOWN != 0
    }

    /// The left button on the directional pad.
    #[inline]
    pub fn arrow_left(&self) -> (r: bool)
        ensures
            r == ((self.raw.gamepad.buttons & XINPUT_GAMEPAD_DPAD_LEFT) != 0),
    {
        self.raw.gamepad.buttons & XINPUT_GAMEPAD_DPAD_LEFT != 0
    }

    /// The right button on the directional pad.
    #[inline]
    pub fn arrow_right(&self) -> (r: bool)
        ensures
            r == ((self.raw.gamepad.buttons & XINPUT_GAMEPAD_DPAD_RIGHT) != 0),
    {
        self.raw.gamepad.buttons & XINPUT_GAMEPAD_DPAD_RIGHT != 0
    }

    /// The "start" button.
    #[inline]
    pub fn start_button(&self) -> (r: bool)
        ensures
            r == ((self.raw.gamepad.buttons & XINPUT_GAMEPAD_START) != 0),
    {
        self.raw.gamepad.buttons & XINPUT_GAMEPAD_START != 0
    }

    /// The "not start" button: back or select, depending on the vendor.
    #[inline]
    pub fn select_button(&self) -> (r: bool)
        ensures
            r == ((self.raw.gamepad.buttons & XINPUT_GAMEPAD_BACK) != 0),
    {
        self.raw.gamepad.buttons & XINPUT_GAMEPAD_BACK != 0
    }

    /// The "guide" button.  Only ever set in snapshots obtained through the
    /// extended state entry point.
    #[inline]
    pub fn guide_button(&self) -> (r: bool)
        ensures
            r == ((self.raw.gamepad.buttons & XINPUT_GAMEPAD_GUIDE) != 0),
    {
        self.raw.gamepad.buttons & XINPUT_GAMEPAD_GUIDE != 0
    }

    /// The upper left shoulder button.
    #[inline]
    pub fn left_shoulder(&self) -> (r: bool)
        ensures
            r == ((self.raw.gamepad.buttons & XINPUT_GAMEPAD_LEFT_SHOULDER) != 0),
    {
        self.raw.gamepad.buttons & XINPUT_GAMEPAD_LEFT_SHOULDER != 0
    }

    /// The upper right shoulder button.
    #[inline]
    pub fn right_shoulder(&self) -> (r: bool)
        ensures
            r == ((self.raw.gamepad.buttons & XINPUT_GAMEPAD_RIGHT_SHOULDER) != 0),
    {
        self.raw.gamepad.buttons & XINPUT_GAMEPAD_RIGHT_SHOULDER != 0
    }

    /// The default threshold to count a trigger as being "pressed".
    pub const TRIGGER_THRESHOLD: u8 = XINPUT_GAMEPAD_TRIGGER_THRESHOLD;

    /// The lower left shoulder trigger.  To use this as a simple boolean,
    /// compare it to [`Self::TRIGGER_THRESHOLD`].
    #[inline]
    pub fn left_trigger(&self) -> (r: u8)
        ensures
            r == self.raw.gamepad.left_trigger,
    {
        self.raw.gamepad.left_trigger
    }

    /// The lower right shoulder trigger.  To use this as a simple boolean,
    /// compare it to [`Self::TRIGGER_THRESHOLD`].
    #[inline]
    pub fn right_trigger(&self) -> (r: u8)
        ensures
            r == self.raw.gamepad.right_trigger,
    {
        self.raw.gamepad.right_trigger
    }

    /// The lower left shoulder trigger as a bool using the default
    /// threshold.
    #[inline]
    pub fn left_trigger_bool(&self) -> (r: bool)
        ensures
            r == (self.raw.gamepad.left_trigger >= XINPUT_GAMEPAD_TRIGGER_THRESHOLD),
    {
        self.left_trigger() >= XINPUT_GAMEPAD_TRIGGER_THRESHOLD
    }

    /// The lower right shoulder trigger as a bool using the default
    /// threshold.
    #[inline]
    pub fn right_trigger_bool(&self) -> (r: bool)
        ensures
            r == (self.raw.gamepad.right_trigger >= XINPUT_GAMEPAD_TRIGGER_THRESHOLD),
    {
        self.right_trigger() >= XINPUT_GAMEPAD_TRIGGER_THRESHOLD
    }

    /// The left thumb stick being pressed inward.
    #[inline]
    pub fn left_thumb_button(&self) -> (r: bool)
        ensures
            r == ((self.raw.gamepad.buttons & XINPUT_GAMEPAD_LEFT_THUMB) != 0),
    {
        self.raw.gamepad.buttons & XINPUT_GAMEPAD_LEFT_THUMB != 0
    }

    /// The right thumb stick being pressed inward.
    #[inline]
    pub fn right_thumb_button(&self) -> (r: bool)
        ensures
            r == ((self.raw.gamepad.buttons & XINPUT_GAMEPAD_RIGHT_THUMB) != 0),
    {
        self.raw.gamepad.buttons & XINPUT_GAMEPAD_RIGHT_THUMB != 0
    }

    /// The suggested default deadzone for use with the left thumb stick.
    pub const LEFT_STICK_DEADZONE: i16 = XINPUT_GAMEPAD_LEFT_THUMB_DEADZONE;

    /// The suggested default deadzone for use with the right thumb stick.
    pub const RIGHT_STICK_DEADZONE: i16 = XINPUT_GAMEPAD_RIGHT_THUMB_DEADZONE;

    /// The left stick raw value.
    ///
    /// Positive values are to the right (X axis) or up (Y axis).
    #[inline]
    pub fn left_stick_raw(&self) -> (r: (i16, i16))
        ensures
            r == (self.raw.gamepad.thumb_lx, self.raw.gamepad.thumb_ly),
    {
        (self.raw.gamepad.thumb_lx, self.raw.gamepad.thumb_ly)
    }

    /// The right stick raw value.
    ///
    /// Positive values are to the right (X axis) or up (Y axis).
    #[inline]
    pub fn right_stick_raw(&self) -> (r: (i16, i16))
        ensures
            r == (self.raw.gamepad.thumb_rx, self.raw.gamepad.thumb_ry),
    {
        (self.raw.gamepad.thumb_rx, self.raw.gamepad.thumb_ry)
    }

    /// The left stick value normalized with the default deadzone, in
    /// fixed-point units of [`crate::stick::STICK_FIXED_ONE`].
    ///
    /// See [`normalize_raw_stick_value_fixed`] for more.
    #[inline]
    pub fn left_stick_normalized_fixed(&self) -> (out: (i32, i32))
        ensures
            (out.0 as int, out.1 as int) == normalized_stick(
                self.raw.gamepad.thumb_lx as int,
                self.raw.gamepad.thumb_ly as int,
                XINPUT_GAMEPAD_LEFT_THUMB_DEADZONE as int,
            ),
    {
        normalize_raw_stick_value_fixed(self.left_stick_raw(), XINPUT_GAMEPAD_LEFT_THUMB_DEADZONE)
    }

    /// The right stick value normalized with the default deadzone, in
    /// fixed-point units of [`crate::stick::STICK_FIXED_ONE`].
    ///
    /// See [`normalize_raw_stick_value_fixed`] for more.
    #[inline]
    pub fn right_stick_normalized_fixed(&self) -> (out: (i32, i32))
        ensures
            (out.0 as int, out.1 as int) == normalized_stick(
                self.raw.gamepad.thumb_rx as int,
                self.raw.gamepad.thumb_ry as int,
                XINPUT_GAMEPAD_RIGHT_THUMB_DEADZONE as int,
            ),
    {
        normalize_raw_stick_value_fixed(self.right_stick_raw(), XINPUT_GAMEPAD_RIGHT_THUMB_DEADZONE)
    }
}

} // verus!
