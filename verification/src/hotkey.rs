//! Which keys the keyboard hook reports to the message window.

use vstd::prelude::*;

verus! {

/// Identifiers posted with the hotkey message, one per watched key.
pub const HK_PLAY_PAUSE: u32 = 1;

pub const HK_NEXT: u32 = 2;

pub const HK_PREV: u32 = 3;

pub const HK_VOL_UP: u32 = 4;

pub const HK_VOL_DOWN: u32 = 5;

pub const HK_VOL_MUTE: u32 = 6;

/// Windows virtual-key codes of the media and volume keys.
pub const VK_VOLUME_MUTE: u16 = 0xAD;

pub const VK_VOLUME_DOWN: u16 = 0xAE;

pub const VK_VOLUME_UP: u16 = 0xAF;

pub const VK_MEDIA_NEXT_TRACK: u16 = 0xB0;

pub const VK_MEDIA_PREV_TRACK: u16 = 0xB1;

pub const VK_MEDIA_PLAY_PAUSE: u16 = 0xB3;

/// The hook code of a keyboard event that the hook is to process.
pub const HC_ACTION: i32 = 0;

/// Keyboard messages of a key going down (plain, and with Alt held).
pub const WM_KEYDOWN: u32 = 0x0100;

pub const WM_SYSKEYDOWN: u32 = 0x0104;

/// The hotkey a virtual key stands for: the transport keys and the volume
/// keys; every other key is ignored.
pub open spec fn spec_hotkey_id(vk: u16) -> Option<u32> {
    if vk == VK_MEDIA_PLAY_PAUSE {
        Some(HK_PLAY_PAUSE)
    } else if vk == VK_MEDIA_NEXT_TRACK {
        Some(HK_NEXT)
    } else if vk == VK_MEDIA_PREV_TRACK {
        Some(HK_PREV)
    } else if vk == VK_VOLUME_UP {
        Some(HK_VOL_UP)
    } else if vk == VK_VOLUME_DOWN {
        Some(HK_VOL_DOWN)
    } else if vk == VK_VOLUME_MUTE {
        Some(HK_VOL_MUTE)
    } else {
        None
    }
}

/// The hotkey identifier for a pressed virtual key, if it is watched.
pub fn hotkey_id(vk: u16) -> (r: Option<u32>)
    ensures
        r == spec_hotkey_id(vk),
{
    if vk == VK_MEDIA_PLAY_PAUSE {
        Some(HK_PLAY_PAUSE)
    } else if vk == VK_MEDIA_NEXT_TRACK {
        Some(HK_NEXT)
    } else if vk == VK_MEDIA_PREV_TRACK {
        Some(HK_PREV)
    } else if vk == VK_VOLUME_UP {
        Some(HK_VOL_UP)
    } else if vk == VK_VOLUME_DOWN {
        Some(HK_VOL_DOWN)
    } else if vk == VK_VOLUME_MUTE {
        Some(HK_VOL_MUTE)
    } else {
        None
    }
}

/// Whether a keyboard-hook call reports a key press: the hook code asks for
/// processing and the message is a key going down. Key releases and other
/// hook codes are passed on untouched.
pub fn is_key_press(code: i32, msg: u32) -> (b: bool)
    ensures
        b == (code == HC_ACTION && (msg == WM_KEYDOWN || msg == WM_SYSKEYDOWN)),
{
    code == HC_ACTION && (msg == WM_KEYDOWN || msg == WM_SYSKEYDOWN)
}

/// The identifier to post to the message window for a pressed key: only a
/// watched key, and only once a target window is registered (`target` is its
/// handle, zero when none).
pub fn post_id(vk: u16, target: isize) -> (r: Option<u32>)
    ensures
        r == if target == 0 {
            None
        } else {
            spec_hotkey_id(vk)
        },
{
    if target == 0 {
        None
    } else {
        hotkey_id(vk)
    }
}

/// Distinct watched keys are reported under distinct identifiers.
pub proof fn lemma_hotkey_ids_distinct(a: u16, b: u16)
    requires
        spec_hotkey_id(a) is Some,
        a != b,
    ensures
        spec_hotkey_id(a) != spec_hotkey_id(b),
{
}

} // verus!
