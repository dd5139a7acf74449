use hanyeongkey::input::copy_shortcut_inputs;
use hanyeongkey::input::{conflicting_modifiers, VK_LWIN, VK_MENU, VK_RWIN, VK_SHIFT};
use hanyeongkey::input::{
    control_shortcut_cleanup, control_shortcut_inputs, key_press_inputs, keyboard_input,
    shortcut_outcome, KeyInput, ShortcutError, SYNTHETIC_INPUT_MARKER, VK_C, VK_CONTROL, VK_V,
};

fn key(virtual_key: u16, key_up: bool) -> KeyInput {
    KeyInput {
        virtual_key,
        key_up,
        extra_info: SYNTHETIC_INPUT_MARKER,
    }
}

#[test]
fn injected_keys_carry_the_marker() {
    assert_eq!(keyboard_input(VK_C, true), key(VK_C, true));
}

#[test]
fn a_shortcut_wraps_the_key_in_control_unless_control_is_held() {
    assert_eq!(
        control_shortcut_inputs(VK_C, false, false).unwrap(),
        vec![
            key(VK_CONTROL, false),
            key(VK_C, false),
            key(VK_C, true),
            key(VK_CONTROL, true)
        ]
    );
    assert_eq!(
        control_shortcut_inputs(VK_V, false, true).unwrap(),
        vec![key(VK_V, false), key(VK_V, true)]
    );
}

#[test]
fn a_held_modifier_blocks_the_shortcut() {
    assert_eq!(
        control_shortcut_inputs(VK_V, true, false),
        Err(ShortcutError::ConflictingModifier)
    );
}

#[test]
fn a_partial_send_is_blocked_and_cleaned_up() {
    assert_eq!(shortcut_outcome(2, 4), Err(ShortcutError::InjectionBlocked));
    assert_eq!(shortcut_outcome(4, 4), Ok(()));
    assert_eq!(
        control_shortcut_cleanup(VK_C, false),
        vec![key(VK_C, true), key(VK_CONTROL, true)]
    );
    assert_eq!(control_shortcut_cleanup(VK_C, true), vec![key(VK_C, true)]);
    assert_eq!(key_press_inputs(0x15), vec![key(0x15, false), key(0x15, true)]);
}

#[test]
fn the_clipboard_reader_copies_with_marked_keys() {
    assert_eq!(
        copy_shortcut_inputs(),
        vec![
            key(VK_CONTROL, false),
            key(VK_C, false),
            key(VK_C, true),
            key(VK_CONTROL, true)
        ]
    );
}

#[test]
fn shift_alt_and_windows_keys_block_a_control_shortcut() {
    assert_eq!(conflicting_modifiers(), vec![VK_SHIFT, VK_MENU, VK_LWIN, VK_RWIN]);
    assert!(!conflicting_modifiers().contains(&VK_CONTROL));
}
