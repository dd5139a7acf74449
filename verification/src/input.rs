//! Marked synthetic keyboard input and the key sequences of shortcuts.

use vstd::prelude::*;

verus! {

/// The extra information that marks input this utility injects, so that its
/// own keyboard hook can ignore it.
pub const SYNTHETIC_INPUT_MARKER: u64 = 0x4841_4E59_454F_4E47;

/// Virtual-key code of the Shift key.
pub const VK_SHIFT: u16 = 0x10;
/// Virtual-key code of the Control key.
pub const VK_CONTROL: u16 = 0x11;
/// Virtual-key code of the Alt key.
pub const VK_MENU: u16 = 0x12;
/// Virtual-key code of the Hangul/English key.
pub const VK_HANGUL: u16 = 0x15;
/// Virtual-key code of the left Windows key.
pub const VK_LWIN: u16 = 0x5B;
/// Virtual-key code of the right Windows key.
pub const VK_RWIN: u16 = 0x5C;
/// Virtual-key code of the C key.
pub const VK_C: u16 = 0x43;
/// Virtual-key code of the V key.
pub const VK_V: u16 = 0x56;

/// One injected key transition.
#[derive(Debug, Clone, Copy, PartialEq, Eq, Structural)]
pub struct KeyInput {
    pub virtual_key: u16,
    pub key_up: bool,
    pub extra_info: u64,
}

/// A key transition marked as this utility's own.
pub open spec fn marked(virtual_key: u16, key_up: bool) -> KeyInput {
    KeyInput { virtual_key, key_up, extra_info: SYNTHETIC_INPUT_MARKER }
}

/// A marked key transition.
pub fn keyboard_input(virtual_key: u16, key_up: bool) -> (r: KeyInput)
    ensures
        r == marked(virtual_key, key_up),
{
    KeyInput { virtual_key, key_up, extra_info: SYNTHETIC_INPUT_MARKER }
}

/// The modifiers whose being held would turn a Control shortcut into another
/// shortcut.
pub open spec fn is_conflicting_modifier(virtual_key: u16) -> bool {
    virtual_key == VK_SHIFT || virtual_key == VK_MENU || virtual_key == VK_LWIN || virtual_key
        == VK_RWIN
}

/// The keys to look at before a Control shortcut is sent: Shift, Alt and
/// both Windows keys.
pub fn conflicting_modifiers() -> (r: Vec<u16>)
    ensures
        r@ == seq![VK_SHIFT, VK_MENU, VK_LWIN, VK_RWIN],
        forall|key: u16| r@.contains(key) <==> is_conflicting_modifier(key),
{
    let keys: Vec<u16> = vec![VK_SHIFT, VK_MENU, VK_LWIN, VK_RWIN];
    assert forall|key: u16| keys@.contains(key) <==> is_conflicting_modifier(key) by {
        if is_conflicting_modifier(key) {
            if key == VK_SHIFT {
                assert(keys@[0] == key);
            } else if key == VK_MENU {
                assert(keys@[1] == key);
            } else if key == VK_LWIN {
                assert(keys@[2] == key);
            } else {
                assert(keys@[3] == key);
            }
        }
    }
    keys
}

/// Why a shortcut was not injected.
#[derive(Debug, Clone, Copy, PartialEq, Eq, Structural)]
pub enum ShortcutError {
    ConflictingModifier,
    InjectionBlocked,
}

/// The key transitions of Control plus `key`: Control is pressed and released
/// around the key only when the user is not already holding it.
pub open spec fn spec_control_shortcut(virtual_key: u16, control_was_down: bool) -> Seq<KeyInput> {
    if control_was_down {
        seq![marked(virtual_key, false), marked(virtual_key, true)]
    } else {
        seq![
            marked(VK_CONTROL, false),
            marked(virtual_key, false),
            marked(virtual_key, true),
            marked(VK_CONTROL, true),
        ]
    }
}

/// The key transitions of a Control shortcut, or why none may be sent: a held
/// Shift, Alt or Windows key.
pub fn control_shortcut_inputs(
    virtual_key: u16,
    conflicting_modifier_down: bool,
    control_was_down: bool,
) -> (r: Result<Vec<KeyInput>, ShortcutError>)
    ensures
        conflicting_modifier_down ==> r == Err::<Vec<KeyInput>, ShortcutError>(
            ShortcutError::ConflictingModifier,
        ),
        !conflicting_modifier_down ==> (r matches Ok(inputs) && inputs@ == spec_control_shortcut(
            virtual_key,
            control_was_down,
        )),
{
    if conflicting_modifier_down {
        return Err(ShortcutError::ConflictingModifier);
    }
    let mut inputs: Vec<KeyInput> = Vec::new();
    if !control_was_down {
        inputs.push(keyboard_input(VK_CONTROL, false));
    }
    inputs.push(keyboard_input(virtual_key, false));
    inputs.push(keyboard_input(virtual_key, true));
    if !control_was_down {
        inputs.push(keyboard_input(VK_CONTROL, true));
    }
    assert(inputs@ =~= spec_control_shortcut(virtual_key, control_was_down));
    Ok(inputs)
}

/// The key releases that undo a partly sent shortcut: the key, and Control
/// where the shortcut pressed it.
pub fn control_shortcut_cleanup(virtual_key: u16, control_was_down: bool) -> (r: Vec<KeyInput>)
    ensures
        r@ == if control_was_down {
            seq![marked(virtual_key, true)]
        } else {
            seq![marked(virtual_key, true), marked(VK_CONTROL, true)]
        },
{
    let mut cleanup: Vec<KeyInput> = Vec::new();
    cleanup.push(keyboard_input(virtual_key, true));
    if !control_was_down {
        cleanup.push(keyboard_input(VK_CONTROL, true));
    }
    assert(cleanup@ =~= if control_was_down {
        seq![marked(virtual_key, true)]
    } else {
        seq![marked(virtual_key, true), marked(VK_CONTROL, true)]
    });
    cleanup
}

/// A shortcut succeeded when every planned transition was sent.
pub fn shortcut_outcome(sent: usize, planned: usize) -> (r: Result<(), ShortcutError>)
    ensures
        r == if sent == planned {
            Ok::<(), ShortcutError>(())
        } else {
            Err(ShortcutError::InjectionBlocked)
        },
{
    if sent == planned {
        Ok(())
    } else {
        Err(ShortcutError::InjectionBlocked)
    }
}

/// The marked press and release of one key.
pub fn key_press_inputs(virtual_key: u16) -> (r: Vec<KeyInput>)
    ensures
        r@ == seq![marked(virtual_key, false), marked(virtual_key, true)],
{
    let mut inputs: Vec<KeyInput> = Vec::new();
    inputs.push(keyboard_input(virtual_key, false));
    inputs.push(keyboard_input(virtual_key, true));
    assert(inputs@ =~= seq![marked(virtual_key, false), marked(virtual_key, true)]);
    inputs
}

/// The Control+C transitions that the clipboard selection reader sends; like
/// all input the utility injects, they carry the marker.
pub fn copy_shortcut_inputs() -> (r: Vec<KeyInput>)
    ensures
        r@ == seq![
            marked(VK_CONTROL, false),
            marked(VK_C, false),
            marked(VK_C, true),
            marked(VK_CONTROL, true),
        ],
{
    let mut inputs: Vec<KeyInput> = Vec::new();
    inputs.push(keyboard_input(VK_CONTROL, false));
    inputs.push(keyboard_input(VK_C, false));
    inputs.push(keyboard_input(VK_C, true));
    inputs.push(keyboard_input(VK_CONTROL, true));
    assert(inputs@ =~= seq![
        marked(VK_CONTROL, false),
        marked(VK_C, false),
        marked(VK_C, true),
        marked(VK_CONTROL, true),
    ]);
    inputs
}

/// The number of transitions of `virtual_key` in `inputs` that press it,
/// less those that release it.
pub open spec fn net_presses(inputs: Seq<KeyInput>, virtual_key: u16) -> int
    decreases inputs.len(),
{
    if inputs.len() == 0 {
        0
    } else {
        net_presses(inputs.drop_last(), virtual_key) + if inputs.last().virtual_key
            == virtual_key {
            if inputs.last().key_up {
                -1int
            } else {
                1int
            }
        } else {
            0int
        }
    }
}

/// A Control shortcut releases every key it presses: afterwards no key, and
/// Control in particular, is held down by the shortcut.
pub proof fn law_shortcut_releases_what_it_presses(
    virtual_key: u16,
    control_was_down: bool,
    other: u16,
)
    ensures
        net_presses(spec_control_shortcut(virtual_key, control_was_down), other) == 0,
        control_was_down && virtual_key != VK_CONTROL ==> forall|i: int|
            0 <= i < spec_control_shortcut(virtual_key, control_was_down).len() ==> (
            #[trigger] spec_control_shortcut(virtual_key, control_was_down)[i]).virtual_key
                != VK_CONTROL,
        forall|i: int|
            0 <= i < spec_control_shortcut(virtual_key, control_was_down).len() ==> (
            #[trigger] spec_control_shortcut(virtual_key, control_was_down)[i]).extra_info
                == SYNTHETIC_INPUT_MARKER,
{
    let inputs = spec_control_shortcut(virtual_key, control_was_down);
    reveal_with_fuel(net_presses, 5);
    if control_was_down {
        assert(inputs.drop_last() =~= seq![marked(virtual_key, false)]);
        assert(inputs.drop_last().drop_last() =~= Seq::<KeyInput>::empty());
    } else {
        assert(inputs.drop_last() =~= seq![
            marked(VK_CONTROL, false),
            marked(virtual_key, false),
            marked(virtual_key, true),
        ]);
        assert(inputs.drop_last().drop_last() =~= seq![
            marked(VK_CONTROL, false),
            marked(virtual_key, false),
        ]);
        assert(inputs.drop_last().drop_last().drop_last() =~= seq![marked(VK_CONTROL, false)]);
        assert(inputs.drop_last().drop_last().drop_last().drop_last()
            =~= Seq::<KeyInput>::empty());
    }
}

/// A Control shortcut presses the key and then releases it; when Control
/// was not held, the shortcut presses Control first and releases it last, so
/// that every transition of the key happens while Control is down. When it
/// was held, the shortcut touches only the key.
pub proof fn law_control_surrounds_the_key(virtual_key: u16, control_was_down: bool)
    ensures
        ({
            let inputs = spec_control_shortcut(virtual_key, control_was_down);
            let inner = if control_was_down {
                inputs
            } else {
                inputs.subrange(1, inputs.len() - 1)
            };
            &&& !control_was_down ==> {
                &&& inputs.len() >= 4
                &&& inputs[0].virtual_key == VK_CONTROL && !inputs[0].key_up
                &&& inputs.last().virtual_key == VK_CONTROL && inputs.last().key_up
            }
            &&& inner.len() >= 2
            &&& forall|i: int| 0 <= i < inner.len() ==> (#[trigger] inner[i]).virtual_key == virtual_key
            &&& !inner[0].key_up
            &&& inner.last().key_up
        }),
{
    let inputs = spec_control_shortcut(virtual_key, control_was_down);
    if !control_was_down {
        assert(inputs.subrange(1, inputs.len() - 1) =~= seq![
            marked(virtual_key, false),
            marked(virtual_key, true),
        ]);
    }
}

} // verus!
