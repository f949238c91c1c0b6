//! Virtual keycode constants for the ANSI keyboard positions the remap
//! tables speak of.  A keycode names a physical key position and is
//! independent of the active logical layout.

use vstd::prelude::*;

verus! {

pub const VK_A: u64 = 0;
pub const VK_S: u64 = 1;
pub const VK_D: u64 = 2;
pub const VK_F: u64 = 3;
pub const VK_H: u64 = 4;
pub const VK_G: u64 = 5;
pub const VK_Z: u64 = 6;
pub const VK_X: u64 = 7;
pub const VK_C: u64 = 8;
pub const VK_V: u64 = 9;
pub const VK_B: u64 = 11;
pub const VK_Q: u64 = 12;
pub const VK_W: u64 = 13;
pub const VK_E: u64 = 14;
pub const VK_R: u64 = 15;
pub const VK_Y: u64 = 16;
pub const VK_T: u64 = 17;
pub const VK_ANSI_1: u64 = 18;
pub const VK_ANSI_2: u64 = 19;
pub const VK_ANSI_3: u64 = 20;
pub const VK_ANSI_4: u64 = 21;
pub const VK_ANSI_6: u64 = 22;
pub const VK_ANSI_5: u64 = 23;
pub const VK_ANSI_EQUALS: u64 = 24;
pub const VK_ANSI_9: u64 = 25;
pub const VK_ANSI_7: u64 = 26;
pub const VK_MINUS: u64 = 27;
pub const VK_ANSI_8: u64 = 28;
pub const VK_ANSI_0: u64 = 29;
pub const VK_RIGHTBRACKET: u64 = 30;
pub const VK_O: u64 = 31;
pub const VK_U: u64 = 32;
pub const VK_LEFTBRACKET: u64 = 33;
pub const VK_I: u64 = 34;
pub const VK_P: u64 = 35;
pub const VK_L: u64 = 37;
pub const VK_J: u64 = 38;
pub const VK_QUOTE: u64 = 39;
pub const VK_K: u64 = 40;
pub const VK_SEMICOLON: u64 = 41;
pub const VK_BACKSLASH: u64 = 42;
pub const VK_COMMA: u64 = 43;
pub const VK_SLASH: u64 = 44;
pub const VK_N: u64 = 45;
pub const VK_M: u64 = 46;
pub const VK_PERIOD: u64 = 47;

/// Keycodes run from 0 to 127; nothing outside that range names a key.
pub const KEYCODE_LIMIT: u64 = 128;

/// The ten digit keys of the number row.  Their keycodes lie between 18
/// and 29, interleaved with the hyphen (27) and equals (24) keys, which
/// are not digits.
pub open spec fn is_digit_key(k: u64) -> bool {
    k == VK_ANSI_1 || k == VK_ANSI_2 || k == VK_ANSI_3 || k == VK_ANSI_4
        || k == VK_ANSI_5 || k == VK_ANSI_6 || k == VK_ANSI_7 || k == VK_ANSI_8
        || k == VK_ANSI_9 || k == VK_ANSI_0
}

} // verus!
