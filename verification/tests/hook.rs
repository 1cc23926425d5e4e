use numflow::hook::{
    NumLockRequest, num_lock_request,
    HID_USAGE_GENERIC_KEYBOARD, HID_USAGE_PAGE_GENERIC, HookDecision, HookFlags, HookThreadAction,
    HookThreadState, INPUT_KEYBOARD, KEYEVENTF_EXTENDEDKEY, KEYEVENTF_KEYUP, KeyboardHookEvent,
    LLKHF_EXTENDED, LLKHF_INJECTED, LowLevelKey, NUM_LOCK_SCAN_CODE, NUMFLOW_NUM_LOCK_INJECTION_TAG,
    PBT_APMRESUMEAUTOMATIC, PBT_APMRESUMECRITICAL, PBT_APMRESUMESUSPEND, PBT_APMSUSPEND,
    RIDEV_REMOVE, VK_NUMLOCK, WM_KEYDOWN, WM_KEYUP, WM_NUMFLOW_RESUME_AUTOMATIC,
    WM_NUMFLOW_RESUME_USER, WM_NUMFLOW_SUSPEND, hook_is_already_gone, infer_num_lock_from_numpad,
    interception_after_resync, keyboard_hook_decision, num_lock_replay_inputs,
    num_lock_transition, power_notification_message, raw_keyboard_removal_device,
    resume_resync_events,
};
use numflow::keymap::{KeyState, PhysicalKeyEvent};
use windows_sys::Win32::UI::Input::KeyboardAndMouse as km;

#[test]
fn raw_keyboard_removal_descriptor_does_not_touch_mouse_registration() {
    let device = raw_keyboard_removal_device();

    assert_eq!(device.usage_page, HID_USAGE_PAGE_GENERIC);
    assert_eq!(device.usage, HID_USAGE_GENERIC_KEYBOARD);
    assert_eq!(device.flags, RIDEV_REMOVE);
}

#[test]
fn power_notifications_map_to_event_driven_hook_thread_messages() {
    assert_eq!(
        power_notification_message(PBT_APMSUSPEND),
        Some(WM_NUMFLOW_SUSPEND)
    );
    assert_eq!(
        power_notification_message(PBT_APMRESUMEAUTOMATIC),
        Some(WM_NUMFLOW_RESUME_AUTOMATIC)
    );
    assert_eq!(
        power_notification_message(PBT_APMRESUMECRITICAL),
        Some(WM_NUMFLOW_RESUME_AUTOMATIC)
    );
    assert_eq!(
        power_notification_message(PBT_APMRESUMESUSPEND),
        Some(WM_NUMFLOW_RESUME_USER)
    );
    assert_eq!(power_notification_message(u32::MAX), None);
}

#[test]
fn invalid_hook_handle_is_treated_as_already_retired() {
    let error = windows_sys::Win32::Foundation::ERROR_INVALID_HOOK_HANDLE;
    assert!(hook_is_already_gone(error));
}

#[test]
fn num_lock_toggles_once_per_physical_press() {
    let (on, down, changed) = num_lock_transition(true, false, KeyState::Pressed);
    assert!(!on);
    assert!(down);
    assert_eq!(changed, Some(false));

    let (on, down, changed) = num_lock_transition(on, down, KeyState::Pressed);
    assert!(!on);
    assert!(down);
    assert_eq!(changed, None);

    let (on, down, changed) = num_lock_transition(on, down, KeyState::Released);
    assert!(!on);
    assert!(!down);
    assert_eq!(changed, None);

    let (on, down, changed) = num_lock_transition(on, down, KeyState::Pressed);
    assert!(on);
    assert!(down);
    assert_eq!(changed, Some(true));
}

#[test]
fn infers_num_lock_on_from_physical_numpad_digit_semantics() {
    for (scan_code, vk_code) in [
        (0x52, 0x60),
        (0x4F, 0x61),
        (0x50, 0x62),
        (0x51, 0x63),
        (0x4B, 0x64),
        (0x4C, 0x65),
        (0x4D, 0x66),
        (0x47, 0x67),
        (0x48, 0x68),
        (0x49, 0x69),
        (0x53, 0x6E),
    ] {
        let event = PhysicalKeyEvent::new(vk_code, scan_code, false, KeyState::Pressed);
        assert_eq!(infer_num_lock_from_numpad(event), Some(true));
    }
}

#[test]
fn infers_num_lock_off_from_physical_numpad_navigation_semantics() {
    for (scan_code, vk_code) in [
        (0x52, 0x2D),
        (0x4F, 0x23),
        (0x50, 0x28),
        (0x51, 0x22),
        (0x4B, 0x25),
        (0x4C, 0x0C),
        (0x4D, 0x27),
        (0x47, 0x24),
        (0x48, 0x26),
        (0x49, 0x21),
        (0x53, 0x2E),
    ] {
        let event = PhysicalKeyEvent::new(vk_code, scan_code, false, KeyState::Pressed);
        assert_eq!(infer_num_lock_from_numpad(event), Some(false));
    }
}

#[test]
fn does_not_infer_num_lock_from_operator_or_extended_keys() {
    let add = PhysicalKeyEvent::new(0x6B, 0x4E, false, KeyState::Pressed);
    let navigation_cluster = PhysicalKeyEvent::new(0x28, 0x50, true, KeyState::Pressed);
    assert_eq!(infer_num_lock_from_numpad(add), None);
    assert_eq!(infer_num_lock_from_numpad(navigation_cluster), None);
}

#[test]
fn num_lock_replay_is_tagged_keyboard_input() {
    let [down, up] = num_lock_replay_inputs();
    assert_eq!(down.input_type, INPUT_KEYBOARD);
    assert_eq!(up.input_type, INPUT_KEYBOARD);

    assert_eq!(down.vk, VK_NUMLOCK);
    assert_eq!(up.vk, VK_NUMLOCK);
    assert_eq!(down.scan, NUM_LOCK_SCAN_CODE);
    assert_eq!(up.scan, NUM_LOCK_SCAN_CODE);
    assert_eq!(down.flags, KEYEVENTF_EXTENDEDKEY);
    assert_eq!(up.flags, KEYEVENTF_EXTENDEDKEY | KEYEVENTF_KEYUP);
    assert_eq!(down.extra_info, NUMFLOW_NUM_LOCK_INJECTION_TAG);
    assert_eq!(up.extra_info, NUMFLOW_NUM_LOCK_INJECTION_TAG);
}

#[test]
fn hook_constants_match_the_windows_headers() {
    assert_eq!(INPUT_KEYBOARD, km::INPUT_KEYBOARD);
    assert_eq!(KEYEVENTF_EXTENDEDKEY, km::KEYEVENTF_EXTENDEDKEY);
    assert_eq!(KEYEVENTF_KEYUP, km::KEYEVENTF_KEYUP);
    assert_eq!(VK_NUMLOCK, km::VK_NUMLOCK);
}

fn flags(interception_enabled: bool, num_lock_on: bool, num_lock_key_down: bool) -> HookFlags {
    HookFlags { interception_enabled, num_lock_on, num_lock_key_down }
}

fn physical_num_lock(message: u32) -> LowLevelKey {
    LowLevelKey { message, vk_code: VK_NUMLOCK as u32, scan_code: 0x45, flags: LLKHF_EXTENDED, extra_info: 0 }
}

#[test]
fn physical_num_lock_is_swallowed_and_requests_a_replay() {
    let start = flags(false, true, false);
    let press = keyboard_hook_decision(0, physical_num_lock(WM_KEYDOWN), start);
    assert!(press.consume);
    assert_eq!(press.next, flags(true, false, true));
    assert_eq!(
        press.notify,
        Some(KeyboardHookEvent::NumLockChanged { num_lock_on: false, sync_system: true, play_feedback: true })
    );
    let repeat = keyboard_hook_decision(0, physical_num_lock(WM_KEYDOWN), press.next);
    assert!(repeat.consume);
    assert_eq!(repeat.notify, None);
    let release = keyboard_hook_decision(0, physical_num_lock(WM_KEYUP), repeat.next);
    assert!(release.consume);
    assert_eq!(release.next, flags(true, false, false));
}

#[test]
fn own_num_lock_replay_passes_untouched_and_foreign_injection_is_mirrored() {
    let state = flags(true, false, false);
    let replay = LowLevelKey {
        message: WM_KEYDOWN,
        vk_code: VK_NUMLOCK as u32,
        scan_code: 0x45,
        flags: LLKHF_INJECTED | LLKHF_EXTENDED,
        extra_info: NUMFLOW_NUM_LOCK_INJECTION_TAG,
    };
    assert_eq!(
        keyboard_hook_decision(0, replay, state),
        HookDecision { next: state, notify: None, offer: None, consume: false }
    );

    let foreign = LowLevelKey { extra_info: 7, ..replay };
    let decision = keyboard_hook_decision(0, foreign, state);
    assert!(!decision.consume);
    assert_eq!(decision.next.num_lock_on, true);
    assert_eq!(decision.next.interception_enabled, false);
    assert_eq!(
        decision.notify,
        Some(KeyboardHookEvent::NumLockChanged { num_lock_on: true, sync_system: false, play_feedback: true })
    );
}

#[test]
fn keypad_keys_are_offered_only_in_pointer_mode() {
    let navigation_up = LowLevelKey { message: WM_KEYDOWN, vk_code: 0x26, scan_code: 0x48, flags: 0, extra_info: 0 };
    let event = PhysicalKeyEvent::new(0x26, 0x48, false, KeyState::Pressed);

    let active = keyboard_hook_decision(0, navigation_up, flags(true, false, false));
    assert_eq!(active.offer, Some(event));
    assert_eq!(active.notify, None);
    assert!(!active.consume);

    let stale_on = keyboard_hook_decision(0, navigation_up, flags(false, true, false));
    assert_eq!(stale_on.next, flags(true, false, false));
    assert_eq!(
        stale_on.notify,
        Some(KeyboardHookEvent::NumLockChanged { num_lock_on: false, sync_system: false, play_feedback: false })
    );
    assert_eq!(stale_on.offer, Some(event));

    let digit = LowLevelKey { vk_code: 0x68, ..navigation_up };
    let number_entry = keyboard_hook_decision(0, digit, flags(true, false, false));
    assert_eq!(number_entry.next, flags(false, true, false));
    assert_eq!(number_entry.offer, None);

    let letter = LowLevelKey { message: WM_KEYDOWN, vk_code: 0x41, scan_code: 0x1E, flags: 0, extra_info: 0 };
    let passed = keyboard_hook_decision(0, letter, flags(true, false, false));
    assert_eq!(passed.offer, None);
    assert!(!passed.consume);

    let negative = keyboard_hook_decision(-1, physical_num_lock(WM_KEYDOWN), flags(true, false, false));
    assert!(!negative.consume);
    assert_eq!(negative.next, flags(true, false, false));
}

#[test]
fn hook_thread_restores_once_per_resume_and_retries_on_user_resume() {
    let start = HookThreadState::new();
    let (state, action) = start.on_message(WM_NUMFLOW_SUSPEND);
    assert_eq!(action, HookThreadAction::HandleSuspend);
    let (state, action) = state.on_message(WM_NUMFLOW_RESUME_AUTOMATIC);
    assert_eq!(action, HookThreadAction::RestoreHook);
    let restored = state.restored(true);
    let (_, action) = restored.on_message(WM_NUMFLOW_RESUME_USER);
    assert_eq!(action, HookThreadAction::ReconcileRawInput);

    let failed = state.restored(false);
    let (_, action) = failed.on_message(WM_NUMFLOW_RESUME_USER);
    assert_eq!(action, HookThreadAction::RestoreHook);
    let (_, action) = start.on_message(0x0400);
    assert_eq!(action, HookThreadAction::Nothing);
}

#[test]
fn resume_resynchronises_with_cleanup_first() {
    let [cleanup, restore] = resume_resync_events(false);
    assert_eq!(
        cleanup,
        KeyboardHookEvent::NumLockChanged { num_lock_on: true, sync_system: false, play_feedback: false }
    );
    assert_eq!(
        restore,
        KeyboardHookEvent::NumLockChanged { num_lock_on: false, sync_system: false, play_feedback: false }
    );
    assert!(interception_after_resync(false, true, true));
    assert!(!interception_after_resync(false, false, true));
    assert!(!interception_after_resync(false, true, false));
    assert!(!interception_after_resync(true, true, true));
}

#[test]
fn power_constants_match_their_message_numbers() {
    assert_eq!(WM_NUMFLOW_SUSPEND, 0x8000 + 0x4E1);
    assert_eq!(WM_NUMFLOW_RESUME_AUTOMATIC, 0x8000 + 0x4E2);
    assert_eq!(WM_NUMFLOW_RESUME_USER, 0x8000 + 0x4E3);
    assert_eq!(PBT_APMRESUMEAUTOMATIC, 0x12);
}

#[test]
fn setting_num_lock_replays_only_a_change() {
    let flags = HookFlags { interception_enabled: false, num_lock_on: true, num_lock_key_down: true };

    assert_eq!(
        num_lock_request(flags, true),
        NumLockRequest::Aligned { next: HookFlags { interception_enabled: false, ..flags } }
    );
    assert_eq!(
        num_lock_request(flags, false),
        NumLockRequest::Replay {
            during: HookFlags { interception_enabled: true, ..flags },
            accepted: HookFlags { interception_enabled: true, num_lock_on: false, num_lock_key_down: false },
            refused: flags,
        }
    );
}

#[test]
fn interception_starts_disabled_with_num_lock_taken_as_on() {
    let flags = numflow::hook::initial_hook_flags();
    assert!(!flags.interception_enabled);
    assert!(flags.num_lock_on);
    assert!(!flags.num_lock_key_down);
}
