//! Classification predicates over keysym values.
//!
//! Each predicate is a closed-interval (or union of intervals) membership
//! test against named constants of the keysym tables: pure, total, no
//! failure mode.

use vstd::prelude::*;

use crate::keysyms::{
    KEY_Break, KEY_F1, KEY_F35, KEY_Home, KEY_Hyper_R, KEY_ISO_Level5_Lock, KEY_ISO_Lock,
    KEY_KP_Equal, KEY_KP_F1, KEY_KP_F4, KEY_KP_Space, KEY_Mode_switch, KEY_Num_Lock,
    KEY_Select, KEY_Shift_L,
};

verus! {

/// Whether a keysym lies in the keypad block.
pub open spec fn spec_is_keypad_key(keysym: u32) -> bool {
    KEY_KP_Space <= keysym <= KEY_KP_Equal
}

/// Whether a keysym lies in the vendor-private keypad block.
pub open spec fn spec_is_private_keypad_key(keysym: u32) -> bool {
    0x11000000 <= keysym <= 0x1100FFFF
}

/// Whether a keysym is a cursor-movement key.
pub open spec fn spec_is_cursor_key(keysym: u32) -> bool {
    KEY_Home <= keysym <= KEY_Select
}

/// Whether a keysym is a PF key (the keypad function keys).
pub open spec fn spec_is_pf_key(keysym: u32) -> bool {
    KEY_KP_F1 <= keysym <= KEY_KP_F4
}

/// Whether a keysym is a function key.
pub open spec fn spec_is_function_key(keysym: u32) -> bool {
    KEY_F1 <= keysym <= KEY_F35
}

/// Whether a keysym is a miscellaneous function key.
pub open spec fn spec_is_misc_function_key(keysym: u32) -> bool {
    KEY_Select <= keysym <= KEY_Break
}

/// Whether a keysym is a modifier key: the core modifier block, the ISO
/// modifier block, the mode switch, or num lock.
pub open spec fn spec_is_modifier_key(keysym: u32) -> bool {
    ||| KEY_Shift_L <= keysym <= KEY_Hyper_R
    ||| KEY_ISO_Lock <= keysym <= KEY_ISO_Level5_Lock
    ||| keysym == KEY_Mode_switch
    ||| keysym == KEY_Num_Lock
}

/// Tell whether a keysym is a keypad key.
pub fn is_keypad_key(keysym: u32) -> (r: bool)
    ensures
        r == spec_is_keypad_key(keysym),
{
    KEY_KP_Space <= keysym && keysym <= KEY_KP_Equal
}

/// Tell whether a keysym is a private keypad key.
pub fn is_private_keypad_key(keysym: u32) -> (r: bool)
    ensures
        r == spec_is_private_keypad_key(keysym),
{
    0x11000000 <= keysym && keysym <= 0x1100FFFF
}

/// Tell whether a keysym is a cursor key.
pub fn is_cursor_key(keysym: u32) -> (r: bool)
    ensures
        r == spec_is_cursor_key(keysym),
{
    KEY_Home <= keysym && keysym <= KEY_Select
}

/// Tell whether a keysym is a PF key.
pub fn is_pf_key(keysym: u32) -> (r: bool)
    ensures
        r == spec_is_pf_key(keysym),
{
    KEY_KP_F1 <= keysym && keysym <= KEY_KP_F4
}

/// Tell whether a keysym is a function key.
pub fn is_function_key(keysym: u32) -> (r: bool)
    ensures
        r == spec_is_function_key(keysym),
{
    KEY_F1 <= keysym && keysym <= KEY_F35
}

/// Tell whether a key is a miscellaneous function key.
pub fn is_misc_function_key(keysym: u32) -> (r: bool)
    ensures
        r == spec_is_misc_function_key(keysym),
{
    KEY_Select <= keysym && keysym <= KEY_Break
}

/// Tell whether a key is a modifier key.
pub fn is_modifier_key(keysym: u32) -> (r: bool)
    ensures
        r == spec_is_modifier_key(keysym),
{
    (KEY_Shift_L <= keysym && keysym <= KEY_Hyper_R) || (KEY_ISO_Lock <= keysym && keysym
        <= KEY_ISO_Level5_Lock) || keysym == KEY_Mode_switch || keysym == KEY_Num_Lock
}

} // verus!
