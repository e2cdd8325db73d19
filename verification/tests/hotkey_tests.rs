use flyout_lite::hotkey::{
    hotkey_id, HK_NEXT, HK_PLAY_PAUSE, HK_PREV, HK_VOL_DOWN, HK_VOL_MUTE, HK_VOL_UP,
};

#[test]
fn media_and_volume_keys_are_watched() {
    assert_eq!(hotkey_id(0xB3), Some(HK_PLAY_PAUSE));
    assert_eq!(hotkey_id(0xB0), Some(HK_NEXT));
    assert_eq!(hotkey_id(0xB1), Some(HK_PREV));
    assert_eq!(hotkey_id(0xAF), Some(HK_VOL_UP));
    assert_eq!(hotkey_id(0xAE), Some(HK_VOL_DOWN));
    assert_eq!(hotkey_id(0xAD), Some(HK_VOL_MUTE));
}

#[test]
fn other_keys_are_ignored() {
    assert_eq!(hotkey_id(0xB2), None);
    assert_eq!(hotkey_id(b'A' as u16), None);
    assert_eq!(hotkey_id(0), None);
}

use flyout_lite::hotkey::{is_key_press, post_id, HC_ACTION, WM_KEYDOWN, WM_SYSKEYDOWN};

#[test]
fn only_key_presses_are_reported() {
    assert!(is_key_press(HC_ACTION, WM_KEYDOWN));
    assert!(is_key_press(0, 0x104));
    assert!(is_key_press(HC_ACTION, WM_SYSKEYDOWN));
    assert!(!is_key_press(0, 0x101));
    assert!(!is_key_press(0, 0x105));
    assert!(!is_key_press(3, 0x100));
    assert!(!is_key_press(-1, 0x100));
}

#[test]
fn nothing_is_posted_without_a_target() {
    assert_eq!(post_id(0xB3, 0), None);
    assert_eq!(post_id(0xB3, 0x1234), Some(1));
    assert_eq!(post_id(0xAD, -7), Some(6));
    assert_eq!(post_id(b'A' as u16, 0x1234), None);
}
