use hanyeongkey::hook::{
    classify_event, hooked_key, press_decision, undispatched_verdict, Completion, HookFlags, HookedKey, KeyboardEvent,
    PressDecision, Verdict, HC_ACTION, WM_KEYDOWN, WM_KEYUP, WM_SYSKEYUP,
};
use hanyeongkey::input::{SYNTHETIC_INPUT_MARKER, VK_HANGUL};

#[test]
fn hangul_key_down_maps_to_high_level_event() {
    assert_eq!(
        classify_event(HC_ACTION, WM_KEYDOWN, VK_HANGUL as u32, 0, 0),
        Some(KeyboardEvent::HangulKeyPressed)
    );
}

#[test]
fn synthetic_hangul_key_is_ignored() {
    assert_eq!(
        classify_event(
            HC_ACTION,
            WM_KEYDOWN,
            VK_HANGUL as u32,
            0,
            SYNTHETIC_INPUT_MARKER
        ),
        None
    );
}

#[test]
fn korean_scan_code_form_is_recognized() {
    assert_eq!(
        classify_event(HC_ACTION, WM_KEYDOWN, 0, 0x72, 0),
        Some(KeyboardEvent::HangulKeyPressed)
    );
}

#[test]
fn key_up_never_starts_conversion() {
    assert_eq!(
        classify_event(HC_ACTION, WM_KEYUP, VK_HANGUL as u32, 0, 0),
        None
    );
}

#[test]
fn auto_repeat_is_suppressed_without_dispatch() {
    assert_eq!(press_decision(true, false), PressDecision::SuppressRepeat);
}

#[test]
fn concurrent_press_passes_through_without_dispatch() {
    assert_eq!(press_decision(false, false), PressDecision::PassThrough);
}

#[test]
fn a_dispatched_press_swallows_its_release_and_a_handled_flow_consumes_the_key() {
    let mut flags = HookFlags::new();
    assert_eq!(flags.on_press(), PressDecision::Dispatch);
    assert_eq!(flags.on_dispatch(true), Verdict::Swallow);
    assert_eq!(flags.on_press(), PressDecision::SuppressRepeat);
    assert_eq!(flags.complete(true), Completion::Nothing);
    assert_eq!(flags.on_release(), Verdict::Swallow);
    assert_eq!(flags, HookFlags::new());
}

#[test]
fn an_unhandled_flow_replays_the_key_on_release_or_at_once() {
    let mut flags = HookFlags::new();
    flags.on_press();
    flags.on_dispatch(true);
    assert_eq!(flags.complete(false), Completion::Nothing);
    assert_eq!(flags.on_release(), Verdict::SwallowAndReplay);

    let mut released_first = HookFlags::new();
    released_first.on_press();
    released_first.on_dispatch(true);
    assert_eq!(released_first.on_release(), Verdict::Swallow);
    assert_eq!(released_first.complete(false), Completion::ReplayNow);
}

#[test]
fn a_press_during_a_running_flow_passes_through() {
    let mut flags = HookFlags::new();
    flags.on_press();
    flags.on_dispatch(true);
    flags.on_release();
    assert_eq!(flags.on_press(), PressDecision::PassThrough);
    assert_eq!(flags.on_release(), Verdict::PassOn);
}

#[test]
fn a_failed_dispatch_releases_the_flow_and_passes_the_key_on() {
    let mut flags = HookFlags::new();
    flags.on_press();
    assert_eq!(flags.on_dispatch(false), Verdict::PassOn);
    assert!(!flags.flow_active);
    assert_eq!(flags.on_release(), Verdict::PassOn);
}

#[test]
fn only_physical_hangul_transitions_are_hooked() {
    assert_eq!(hooked_key(HC_ACTION, WM_KEYDOWN, VK_HANGUL as u32, 0, 0), HookedKey::Press);
    assert_eq!(hooked_key(HC_ACTION, WM_SYSKEYUP, 0, 0x72, 0), HookedKey::Release);
    assert_eq!(
        hooked_key(HC_ACTION, WM_KEYUP, VK_HANGUL as u32, 0, SYNTHETIC_INPUT_MARKER),
        HookedKey::Other
    );
    assert_eq!(hooked_key(HC_ACTION, WM_KEYDOWN, 0x41, 0x1E, 0), HookedKey::Other);
    assert_eq!(hooked_key(1, WM_KEYDOWN, VK_HANGUL as u32, 0, 0), HookedKey::Other);
}

#[test]
fn undispatched_presses_are_swallowed_or_passed_on() {
    assert_eq!(undispatched_verdict(PressDecision::SuppressRepeat), Some(Verdict::Swallow));
    assert_eq!(undispatched_verdict(PressDecision::PassThrough), Some(Verdict::PassOn));
    assert_eq!(undispatched_verdict(PressDecision::Dispatch), None);
}
