//! Names of hotkeys and the platform key codes they stand for.

use vstd::prelude::*;
use crate::text::{str_equal, to_lowercase, unicode_lowercase};

verus! {

/// Flag mask of the Option (alternate) keys in a flags-changed event.
pub const FLAG_MASK_ALTERNATE: u64 = 0x0008_0000;

/// Flag mask of the Control keys in a flags-changed event.
pub const FLAG_MASK_CONTROL: u64 = 0x0004_0000;

/// Flag mask of the Shift keys in a flags-changed event.
pub const FLAG_MASK_SHIFT: u64 = 0x0002_0000;

/// Flag mask of the Command keys in a flags-changed event.
pub const FLAG_MASK_COMMAND: u64 = 0x0010_0000;

/// The key code of the hotkey called `name`, where `name` is already in
/// lowercase; `None` for a name that is no hotkey.
pub open spec fn keycode_of_name(name: Seq<char>) -> Option<u16> {
    if name == "rightalt"@ || name == "altgr"@ {
        Some(0x3Du16)
    } else if name == "leftalt"@ || name == "alt"@ {
        Some(0x3Au16)
    } else if name == "rightcontrol"@ || name == "rightctrl"@ {
        Some(0x3Eu16)
    } else if name == "leftcontrol"@ || name == "leftctrl"@ || name == "ctrl"@ || name == "control"@ {
        Some(0x3Bu16)
    } else if name == "rightshift"@ {
        Some(0x3Cu16)
    } else if name == "leftshift"@ || name == "shift"@ {
        Some(0x38u16)
    } else if name == "rightcommand"@ || name == "rightcmd"@ || name == "rightmeta"@ {
        Some(0x36u16)
    } else if name == "leftcommand"@ || name == "leftcmd"@ || name == "command"@ || name == "cmd"@ || name == "meta"@ {
        Some(0x37u16)
    } else if name == "capslock"@ {
        Some(0x39u16)
    } else if name == "f1"@ {
        Some(0x7Au16)
    } else if name == "f2"@ {
        Some(0x78u16)
    } else if name == "f3"@ {
        Some(0x63u16)
    } else if name == "f4"@ {
        Some(0x76u16)
    } else if name == "f5"@ {
        Some(0x60u16)
    } else if name == "f6"@ {
        Some(0x61u16)
    } else if name == "f7"@ {
        Some(0x62u16)
    } else if name == "f8"@ {
        Some(0x64u16)
    } else if name == "f9"@ {
        Some(0x65u16)
    } else if name == "f10"@ {
        Some(0x6Du16)
    } else if name == "f11"@ {
        Some(0x67u16)
    } else if name == "f12"@ {
        Some(0x6Fu16)
    } else if name == "space"@ {
        Some(0x31u16)
    } else if name == "escape"@ || name == "esc"@ {
        Some(0x35u16)
    } else {
        None
    }
}

/// Looks up the key code of a hotkey by its lowercase name.
pub fn keycode_for_name(name: &str) -> (code: Option<u16>)
    ensures
        code == keycode_of_name(name@),
{
    if str_equal(name, "rightalt") || str_equal(name, "altgr") {
        Some(0x3Du16)
    } else if str_equal(name, "leftalt") || str_equal(name, "alt") {
        Some(0x3Au16)
    } else if str_equal(name, "rightcontrol") || str_equal(name, "rightctrl") {
        Some(0x3Eu16)
    } else if str_equal(name, "leftcontrol") || str_equal(name, "leftctrl") || str_equal(name, "ctrl") || str_equal(name, "control") {
        Some(0x3Bu16)
    } else if str_equal(name, "rightshift") {
        Some(0x3Cu16)
    } else if str_equal(name, "leftshift") || str_equal(name, "shift") {
        Some(0x38u16)
    } else if str_equal(name, "rightcommand") || str_equal(name, "rightcmd") || str_equal(name, "rightmeta") {
        Some(0x36u16)
    } else if str_equal(name, "leftcommand") || str_equal(name, "leftcmd") || str_equal(name, "command") || str_equal(name, "cmd") || str_equal(name, "meta") {
        Some(0x37u16)
    } else if str_equal(name, "capslock") {
        Some(0x39u16)
    } else if str_equal(name, "f1") {
        Some(0x7Au16)
    } else if str_equal(name, "f2") {
        Some(0x78u16)
    } else if str_equal(name, "f3") {
        Some(0x63u16)
    } else if str_equal(name, "f4") {
        Some(0x76u16)
    } else if str_equal(name, "f5") {
        Some(0x60u16)
    } else if str_equal(name, "f6") {
        Some(0x61u16)
    } else if str_equal(name, "f7") {
        Some(0x62u16)
    } else if str_equal(name, "f8") {
        Some(0x64u16)
    } else if str_equal(name, "f9") {
        Some(0x65u16)
    } else if str_equal(name, "f10") {
        Some(0x6Du16)
    } else if str_equal(name, "f11") {
        Some(0x67u16)
    } else if str_equal(name, "f12") {
        Some(0x6Fu16)
    } else if str_equal(name, "space") {
        Some(0x31u16)
    } else if str_equal(name, "escape") || str_equal(name, "esc") {
        Some(0x35u16)
    } else {
        None
    }
}

/// Looks up the key code of a hotkey by its name, in any letter case.
pub fn hotkey_to_keycode(hotkey: &str) -> (code: Option<u16>)
    ensures
        code == keycode_of_name(unicode_lowercase(hotkey@)),
{
    let lowered = to_lowercase(hotkey);
    keycode_for_name(lowered.as_str())
}

/// The flag mask that tells whether the modifier key with code `keycode` is
/// held; `None` for a key that is no modifier and reports discrete key-down
/// and key-up events instead.
pub open spec fn modifier_mask(keycode: u16) -> Option<u64> {
    if keycode == 0x3D || keycode == 0x3A {
        Some(FLAG_MASK_ALTERNATE)
    } else if keycode == 0x3E || keycode == 0x3B {
        Some(FLAG_MASK_CONTROL)
    } else if keycode == 0x3C || keycode == 0x38 {
        Some(FLAG_MASK_SHIFT)
    } else if keycode == 0x36 || keycode == 0x37 {
        Some(FLAG_MASK_COMMAND)
    } else {
        None
    }
}

/// Whether `flags` report the modifier key `keycode` as held. A key without
/// a mask is never held by this test.
pub open spec fn modifier_pressed_spec(keycode: u16, flags: u64) -> bool {
    match modifier_mask(keycode) {
        Some(mask) => flags & mask != 0,
        None => false,
    }
}

/// Tests the flags of a flags-changed event for the modifier key `keycode`.
pub fn modifier_pressed(keycode: u16, flags: u64) -> (pressed: bool)
    ensures
        pressed == modifier_pressed_spec(keycode, flags),
{
    if keycode == 0x3D || keycode == 0x3A {
        flags & FLAG_MASK_ALTERNATE != 0
    } else if keycode == 0x3E || keycode == 0x3B {
        flags & FLAG_MASK_CONTROL != 0
    } else if keycode == 0x3C || keycode == 0x38 {
        flags & FLAG_MASK_SHIFT != 0
    } else if keycode == 0x36 || keycode == 0x37 {
        flags & FLAG_MASK_COMMAND != 0
    } else {
        false
    }
}

} // verus!
