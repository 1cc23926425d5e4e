//! Decisions of the Windows low-level keyboard hook: which events it swallows, how it tracks the
//! Num Lock mode, how it recognises its own Num Lock replay, and how its thread reacts to power
//! notifications. The hook procedure and its thread perform what these functions decide.

use vstd::prelude::*;

use crate::keymap::{KeyState, PhysicalKeyEvent, map_numpad_key, numpad_key_of};

verus! {

/// Base of the message numbers an application may define for itself.
pub const WM_APP: u32 = 0x8000;
/// Thread message: the system is suspending.
pub const WM_NUMFLOW_SUSPEND: u32 = WM_APP + 0x4E1;
/// Thread message: the system resumed without user presence.
pub const WM_NUMFLOW_RESUME_AUTOMATIC: u32 = WM_APP + 0x4E2;
/// Thread message: the system resumed and the user is present.
pub const WM_NUMFLOW_RESUME_USER: u32 = WM_APP + 0x4E3;
/// Power notification: suspend.
pub const PBT_APMSUSPEND: u32 = 4;
/// Power notification: resume after a critical suspend.
pub const PBT_APMRESUMECRITICAL: u32 = 6;
/// Power notification: resume triggered by the user.
pub const PBT_APMRESUMESUSPEND: u32 = 7;
/// Power notification: automatic resume.
pub const PBT_APMRESUMEAUTOMATIC: u32 = 18;
/// Win32 error of a hook handle that no longer exists.
pub const ERROR_INVALID_HOOK_HANDLE: u32 = 1404;
/// HID usage page of generic desktop controls.
pub const HID_USAGE_PAGE_GENERIC: u16 = 0x01;
/// HID usage of keyboards on the generic desktop page.
pub const HID_USAGE_GENERIC_KEYBOARD: u16 = 0x06;
/// Raw-input registration flag that removes a registration.
pub const RIDEV_REMOVE: u32 = 1;
/// Virtual-key code of Num Lock.
pub const VK_NUMLOCK: u16 = 0x90;
/// Scan code of Num Lock.
pub const NUM_LOCK_SCAN_CODE: u16 = 0x45;
/// Keyboard input flag: extended key.
pub const KEYEVENTF_EXTENDEDKEY: u32 = 1;
/// Keyboard input flag: key release.
pub const KEYEVENTF_KEYUP: u32 = 2;
/// Extra information that tags the Num Lock presses replayed by this program ("NFNL").
pub const NUMFLOW_NUM_LOCK_INJECTION_TAG: usize = 0x4E46_4E4C;
/// Low-level hook flag: extended key.
pub const LLKHF_EXTENDED: u32 = 0x01;
/// Low-level hook flag: injected by software.
pub const LLKHF_INJECTED: u32 = 0x10;
/// Window message: key down.
pub const WM_KEYDOWN: u32 = 0x0100;
/// Window message: key up.
pub const WM_KEYUP: u32 = 0x0101;
/// Window message: system key down.
pub const WM_SYSKEYDOWN: u32 = 0x0104;
/// Window message: system key up.
pub const WM_SYSKEYUP: u32 = 0x0105;

/// An event the hook hands to the runtime.
#[derive(Debug, Clone, Copy, PartialEq, Eq, Structural)]
pub enum KeyboardHookEvent {
    Key(PhysicalKeyEvent),
    NumLockChanged { num_lock_on: bool, sync_system: bool, play_feedback: bool },
}

/// Why the hook failed.
#[derive(Debug, Clone, PartialEq, Eq)]
pub enum HookError {
    AlreadyActive,
    ThreadSpawn(String),
    Install(String),
    PowerNotification(String),
    MessageLoop(String),
    Stop(String),
    ThreadTerminated,
    ThreadPanicked,
}

/// Why the input state is resynchronised.
#[derive(Debug, Clone, Copy, PartialEq, Eq, Structural)]
pub enum InputResyncReason {
    Startup,
    ResumeAutomatic,
    ResumeUser,
    SessionUnlock,
    DesktopReady,
    ForegroundChanged,
    KeyboardDeviceChanged,
    HookFailure,
    NumLockChanged,
}

/// The stable diagnostic label of a resynchronisation reason.
pub open spec fn resync_reason_label(reason: InputResyncReason) -> &'static str {
    match reason {
        InputResyncReason::Startup => "startup",
        InputResyncReason::ResumeAutomatic => "resume-automatic",
        InputResyncReason::ResumeUser => "resume-user",
        InputResyncReason::SessionUnlock => "session-unlock",
        InputResyncReason::DesktopReady => "desktop-ready",
        InputResyncReason::ForegroundChanged => "foreground-changed",
        InputResyncReason::KeyboardDeviceChanged => "keyboard-device-changed",
        InputResyncReason::HookFailure => "hook-failure",
        InputResyncReason::NumLockChanged => "numlock-changed",
    }
}

impl InputResyncReason {
    /// Returns the stable diagnostic label of this reason.
    pub fn label(self) -> (label: &'static str)
        ensures
            label == resync_reason_label(self),
    {
        match self {
            InputResyncReason::Startup => "startup",
            InputResyncReason::ResumeAutomatic => "resume-automatic",
            InputResyncReason::ResumeUser => "resume-user",
            InputResyncReason::SessionUnlock => "session-unlock",
            InputResyncReason::DesktopReady => "desktop-ready",
            InputResyncReason::ForegroundChanged => "foreground-changed",
            InputResyncReason::KeyboardDeviceChanged => "keyboard-device-changed",
            InputResyncReason::HookFailure => "hook-failure",
            InputResyncReason::NumLockChanged => "numlock-changed",
        }
    }
}

/// The mode of the keyboard input runtime.
#[derive(Debug, Clone, Copy, PartialEq, Eq, Structural)]
pub enum InputRuntimeState {
    Running,
    Suspended,
    Recovering,
}

/// A raw-input device registration.
#[derive(Debug, Clone, Copy, PartialEq, Eq, Structural)]
pub struct RawInputDevice {
    pub usage_page: u16,
    pub usage: u16,
    pub flags: u32,
}

/// Returns the registration that removes raw keyboard delivery and leaves the mouse alone.
pub fn raw_keyboard_removal_device() -> (device: RawInputDevice)
    ensures
        device == (RawInputDevice {
            usage_page: HID_USAGE_PAGE_GENERIC,
            usage: HID_USAGE_GENERIC_KEYBOARD,
            flags: RIDEV_REMOVE,
        }),
{
    RawInputDevice {
        usage_page: HID_USAGE_PAGE_GENERIC,
        usage: HID_USAGE_GENERIC_KEYBOARD,
        flags: RIDEV_REMOVE,
    }
}

/// The hook thread message of a power notification, if it is one the hook reacts to.
pub open spec fn power_message_of(event_type: u32) -> Option<u32> {
    if event_type == PBT_APMSUSPEND {
        Some(WM_NUMFLOW_SUSPEND)
    } else if event_type == PBT_APMRESUMEAUTOMATIC || event_type == PBT_APMRESUMECRITICAL {
        Some(WM_NUMFLOW_RESUME_AUTOMATIC)
    } else if event_type == PBT_APMRESUMESUSPEND {
        Some(WM_NUMFLOW_RESUME_USER)
    } else {
        None
    }
}

/// Returns the hook thread message for a power notification.
pub fn power_notification_message(event_type: u32) -> (message: Option<u32>)
    ensures
        message == power_message_of(event_type),
{
    if event_type == PBT_APMSUSPEND {
        Some(WM_NUMFLOW_SUSPEND)
    } else if event_type == PBT_APMRESUMEAUTOMATIC || event_type == PBT_APMRESUMECRITICAL {
        Some(WM_NUMFLOW_RESUME_AUTOMATIC)
    } else if event_type == PBT_APMRESUMESUSPEND {
        Some(WM_NUMFLOW_RESUME_USER)
    } else {
        None
    }
}

/// Whether a failure to unhook means that the hook is gone already.
pub fn hook_is_already_gone(error_code: u32) -> (gone: bool)
    ensures
        gone == (error_code == ERROR_INVALID_HOOK_HANDLE),
{
    error_code == ERROR_INVALID_HOOK_HANDLE
}

/// Num Lock after a key event, whether the key is down after it, and the new Num Lock value
/// if it changed: only the press that puts the key down toggles.
pub open spec fn num_lock_step(num_lock_on: bool, key_down: bool, state: KeyState) -> (
    bool,
    bool,
    Option<bool>,
) {
    match state {
        KeyState::Pressed => if !key_down {
            (!num_lock_on, true, Some(!num_lock_on))
        } else {
            (num_lock_on, true, None)
        },
        KeyState::Released => (num_lock_on, false, None),
    }
}

/// Returns Num Lock after a key event, whether the key is down, and the change, if any.
pub fn num_lock_transition(num_lock_on: bool, key_down: bool, state: KeyState) -> (result: (
    bool,
    bool,
    Option<bool>,
))
    ensures
        result == num_lock_step(num_lock_on, key_down, state),
{
    match state {
        KeyState::Pressed => {
            if !key_down {
                let next = !num_lock_on;
                (next, true, Some(next))
            } else {
                (num_lock_on, true, None)
            }
        },
        KeyState::Released => (num_lock_on, false, None),
    }
}

/// The Num Lock mode that a physical keypad event reveals: with Num Lock on the digit keys and
/// the decimal key report their digit virtual keys, with it off the same scan codes report
/// navigation keys. Extended keys and the operator keys reveal nothing.
pub open spec fn inferred_num_lock(event: PhysicalKeyEvent) -> Option<bool> {
    if event.extended {
        None
    } else {
        let s = event.scan_code;
        let v = event.vk_code;
        if (s == 0x52 && v == 0x60) || (s == 0x4F && v == 0x61) || (s == 0x50 && v == 0x62) || (s
            == 0x51 && v == 0x63) || (s == 0x4B && v == 0x64) || (s == 0x4C && v == 0x65) || (s
            == 0x4D && v == 0x66) || (s == 0x47 && v == 0x67) || (s == 0x48 && v == 0x68) || (s
            == 0x49 && v == 0x69) || (s == 0x53 && v == 0x6E) {
            Some(true)
        } else if (s == 0x52 && v == 0x2D) || (s == 0x4F && v == 0x23) || (s == 0x50 && v == 0x28)
            || (s == 0x51 && v == 0x22) || (s == 0x4B && v == 0x25) || (s == 0x4C && v == 0x0C) || (
        s == 0x4D && v == 0x27) || (s == 0x47 && v == 0x24) || (s == 0x48 && v == 0x26) || (s
            == 0x49 && v == 0x21) || (s == 0x53 && v == 0x2E) {
            Some(false)
        } else {
            None
        }
    }
}

/// Returns the Num Lock mode that a physical keypad event reveals, if any.
pub fn infer_num_lock_from_numpad(event: PhysicalKeyEvent) -> (num_lock_on: Option<bool>)
    ensures
        num_lock_on == inferred_num_lock(event),
{
    if event.extended {
        return None;
    }
    let s = event.scan_code;
    let v = event.vk_code;
    if (s == 0x52 && v == 0x60) || (s == 0x4F && v == 0x61) || (s == 0x50 && v == 0x62) || (s
        == 0x51 && v == 0x63) || (s == 0x4B && v == 0x64) || (s == 0x4C && v == 0x65) || (s
        == 0x4D && v == 0x66) || (s == 0x47 && v == 0x67) || (s == 0x48 && v == 0x68) || (s
        == 0x49 && v == 0x69) || (s == 0x53 && v == 0x6E) {
        Some(true)
    } else if (s == 0x52 && v == 0x2D) || (s == 0x4F && v == 0x23) || (s == 0x50 && v == 0x28) || (
    s == 0x51 && v == 0x22) || (s == 0x4B && v == 0x25) || (s == 0x4C && v == 0x0C) || (s == 0x4D
        && v == 0x27) || (s == 0x47 && v == 0x24) || (s == 0x48 && v == 0x26) || (s == 0x49 && v
        == 0x21) || (s == 0x53 && v == 0x2E) {
        Some(false)
    } else {
        None
    }
}

/// Input record type: keyboard.
pub const INPUT_KEYBOARD: u32 = 1;

/// One keyboard input record to inject.
#[derive(Debug, Clone, Copy, PartialEq, Eq, Structural)]
pub struct KeyboardInput {
    pub input_type: u32,
    pub vk: u16,
    pub scan: u16,
    pub flags: u32,
    pub time: u32,
    pub extra_info: usize,
}

/// A tagged Num Lock key record with the given flags.
pub open spec fn num_lock_input(flags: u32) -> KeyboardInput {
    KeyboardInput {
        input_type: INPUT_KEYBOARD,
        vk: VK_NUMLOCK,
        scan: NUM_LOCK_SCAN_CODE,
        flags,
        time: 0,
        extra_info: NUMFLOW_NUM_LOCK_INJECTION_TAG,
    }
}

/// Returns the tagged press and release that replay a Num Lock toggle to Windows.
pub fn num_lock_replay_inputs() -> (inputs: [KeyboardInput; 2])
    ensures
        inputs@ == seq![
            num_lock_input(KEYEVENTF_EXTENDEDKEY),
            num_lock_input(KEYEVENTF_EXTENDEDKEY | KEYEVENTF_KEYUP),
        ],
{
    let down = KeyboardInput {
        input_type: INPUT_KEYBOARD,
        vk: VK_NUMLOCK,
        scan: NUM_LOCK_SCAN_CODE,
        flags: KEYEVENTF_EXTENDEDKEY,
        time: 0,
        extra_info: NUMFLOW_NUM_LOCK_INJECTION_TAG,
    };
    let up = KeyboardInput { flags: KEYEVENTF_EXTENDEDKEY | KEYEVENTF_KEYUP, ..down };
    let inputs = [down, up];
    assert(inputs@ =~= seq![
        num_lock_input(KEYEVENTF_EXTENDEDKEY),
        num_lock_input(KEYEVENTF_EXTENDEDKEY | KEYEVENTF_KEYUP),
    ]);
    inputs
}

/// The state the hook keeps between events.
#[derive(Debug, Clone, Copy, PartialEq, Eq, Structural)]
pub struct HookFlags {
    pub interception_enabled: bool,
    pub num_lock_on: bool,
    pub num_lock_key_down: bool,
}

/// The hook's state before any event: interception off until the runtime turns it on, Num
/// Lock taken to be on (so the keypad types numbers), and the Num Lock key up.
pub fn initial_hook_flags() -> (flags: HookFlags)
    ensures
        flags == (HookFlags { interception_enabled: false, num_lock_on: true, num_lock_key_down: false }),
{
    HookFlags { interception_enabled: false, num_lock_on: true, num_lock_key_down: false }
}

/// A key event as the low-level hook receives it: the window message and the hook record.
#[derive(Debug, Clone, Copy, PartialEq, Eq, Structural)]
pub struct LowLevelKey {
    pub message: u32,
    pub vk_code: u32,
    pub scan_code: u32,
    pub flags: u32,
    pub extra_info: usize,
}

/// What the hook does with one event.
///
/// `notify` is handed to the runtime ahead of other events. `offer` is a key handed to the
/// runtime; the event is swallowed when `consume` holds, or when a key was offered and the
/// runtime took it; otherwise it is passed on to the next hook.
#[derive(Debug, Clone, Copy, PartialEq, Eq, Structural)]
pub struct HookDecision {
    pub next: HookFlags,
    pub notify: Option<KeyboardHookEvent>,
    pub offer: Option<PhysicalKeyEvent>,
    pub consume: bool,
}

/// The key state that a window message reports, if it is a key message.
pub open spec fn key_state_of_message(message: u32) -> Option<KeyState> {
    if message == WM_KEYDOWN || message == WM_SYSKEYDOWN {
        Some(KeyState::Pressed)
    } else if message == WM_KEYUP || message == WM_SYSKEYUP {
        Some(KeyState::Released)
    } else {
        None
    }
}

/// Whether a hook record is one of this program's own tagged Num Lock replays.
pub open spec fn is_own_replay(key: LowLevelKey) -> bool {
    key.flags & LLKHF_INJECTED != 0 && key.extra_info == NUMFLOW_NUM_LOCK_INJECTION_TAG
}

/// The flags after a Num Lock key event and the change, if any: a change to off starts
/// interception at once, a change to on stops it.
pub open spec fn observe_num_lock_step(flags: HookFlags, state: KeyState) -> (HookFlags, Option<bool>) {
    let (on, down, changed) = num_lock_step(flags.num_lock_on, flags.num_lock_key_down, state);
    let interception = match changed {
        Some(now_on) => !now_on,
        None => flags.interception_enabled,
    };
    (HookFlags { interception_enabled: interception, num_lock_on: on, num_lock_key_down: down }, changed)
}

/// The flags after a keypad event revealed the Num Lock mode, and the change to report.
pub open spec fn reconcile_step(flags: HookFlags, event: PhysicalKeyEvent) -> (HookFlags, Option<bool>) {
    match inferred_num_lock(event) {
        Some(observed) => if observed == flags.num_lock_on {
            (HookFlags { num_lock_on: observed, ..flags }, None)
        } else {
            (
                HookFlags {
                    interception_enabled: !observed,
                    num_lock_on: observed,
                    num_lock_key_down: flags.num_lock_key_down,
                },
                Some(observed),
            )
        },
        None => (flags, None),
    }
}

/// What the hook does with one event, given its state. Events with a negative hook code and
/// messages other than key messages pass untouched. The hook's own Num Lock replay passes
/// untouched. Num Lock injected by other software is mirrored and passed on; a physical Num
/// Lock is mirrored, reported with a request to replay it to Windows, and swallowed. A keypad
/// key first repairs the Num Lock mode it reveals, then is offered to the runtime when
/// interception is on and Num Lock is off. Every other key passes.
pub open spec fn hook_decision(code: i32, key: LowLevelKey, flags: HookFlags) -> HookDecision {
    let pass = HookDecision { next: flags, notify: None, offer: None, consume: false };
    if code < 0 {
        pass
    } else {
        match key_state_of_message(key.message) {
            None => pass,
            Some(state) => if key.vk_code == VK_NUMLOCK as u32 {
                if is_own_replay(key) {
                    pass
                } else {
                    let injected = key.flags & LLKHF_INJECTED != 0;
                    let (next, changed) = observe_num_lock_step(flags, state);
                    HookDecision {
                        next,
                        notify: match changed {
                            Some(on) => Some(
                                KeyboardHookEvent::NumLockChanged {
                                    num_lock_on: on,
                                    sync_system: !injected,
                                    play_feedback: true,
                                },
                            ),
                            None => None,
                        },
                        offer: None,
                        consume: !injected,
                    }
                }
            } else {
                let event = PhysicalKeyEvent {
                    vk_code: key.vk_code,
                    scan_code: key.scan_code,
                    extended: key.flags & LLKHF_EXTENDED != 0,
                    state,
                };
                if numpad_key_of(event.scan_code, event.extended) is Some {
                    let (next, changed) = reconcile_step(flags, event);
                    HookDecision {
                        next,
                        notify: match changed {
                            Some(on) => Some(
                                KeyboardHookEvent::NumLockChanged {
                                    num_lock_on: on,
                                    sync_system: false,
                                    play_feedback: false,
                                },
                            ),
                            None => None,
                        },
                        offer: if next.interception_enabled && !next.num_lock_on {
                            Some(event)
                        } else {
                            None
                        },
                        consume: false,
                    }
                } else {
                    pass
                }
            },
        }
    }
}

fn observe_num_lock(flags: HookFlags, state: KeyState) -> (result: (HookFlags, Option<bool>))
    ensures
        result == observe_num_lock_step(flags, state),
{
    let (on, down, changed) = num_lock_transition(flags.num_lock_on, flags.num_lock_key_down, state);
    let interception = match changed {
        Some(now_on) => !now_on,
        None => flags.interception_enabled,
    };
    (HookFlags { interception_enabled: interception, num_lock_on: on, num_lock_key_down: down }, changed)
}

fn reconcile_num_lock(flags: HookFlags, event: PhysicalKeyEvent) -> (result: (HookFlags, Option<bool>))
    ensures
        result == reconcile_step(flags, event),
{
    match infer_num_lock_from_numpad(event) {
        Some(observed) => {
            if observed == flags.num_lock_on {
                (HookFlags { num_lock_on: observed, ..flags }, None)
            } else {
                (
                    HookFlags {
                        interception_enabled: !observed,
                        num_lock_on: observed,
                        num_lock_key_down: flags.num_lock_key_down,
                    },
                    Some(observed),
                )
            }
        },
        None => (flags, None),
    }
}

/// Decides what the hook does with one event, as `hook_decision` says.
pub fn keyboard_hook_decision(code: i32, key: LowLevelKey, flags: HookFlags) -> (decision:
    HookDecision)
    ensures
        decision == hook_decision(code, key, flags),
{
    let pass = HookDecision { next: flags, notify: None, offer: None, consume: false };
    if code < 0 {
        return pass;
    }
    let state = if key.message == WM_KEYDOWN || key.message == WM_SYSKEYDOWN {
        KeyState::Pressed
    } else if key.message == WM_KEYUP || key.message == WM_SYSKEYUP {
        KeyState::Released
    } else {
        return pass;
    };
    if key.vk_code == VK_NUMLOCK as u32 {
        if key.flags & LLKHF_INJECTED != 0 && key.extra_info == NUMFLOW_NUM_LOCK_INJECTION_TAG {
            return pass;
        }
        let injected = key.flags & LLKHF_INJECTED != 0;
        let (next, changed) = observe_num_lock(flags, state);
        let notify = match changed {
            Some(on) => Some(
                KeyboardHookEvent::NumLockChanged {
                    num_lock_on: on,
                    sync_system: !injected,
                    play_feedback: true,
                },
            ),
            None => None,
        };
        return HookDecision { next, notify, offer: None, consume: !injected };
    }
    let event = PhysicalKeyEvent::new(
        key.vk_code,
        key.scan_code,
        key.flags & LLKHF_EXTENDED != 0,
        state,
    );
    if map_numpad_key(event).is_none() {
        return pass;
    }
    let (next, changed) = reconcile_num_lock(flags, event);
    let notify = match changed {
        Some(on) => Some(
            KeyboardHookEvent::NumLockChanged { num_lock_on: on, sync_system: false, play_feedback: false },
        ),
        None => None,
    };
    let offer = if next.interception_enabled && !next.num_lock_on {
        Some(event)
    } else {
        None
    };
    HookDecision { next, notify, offer, consume: false }
}

/// A physical Num Lock key is always swallowed and toggles the mode exactly once per press:
/// the press that puts it down toggles and requests a replay to Windows, a held repeat and the
/// release change nothing. Whenever the mode changes, interception follows it (on exactly when
/// Num Lock is off). The hook's own tagged replay passes through and changes nothing, so the
/// replay cannot toggle the mode a second time.
pub proof fn lemma_physical_num_lock_toggles_once_per_press(
    flags: HookFlags,
    down: LowLevelKey,
    up: LowLevelKey,
    replay: LowLevelKey,
)
    requires
        down.vk_code == VK_NUMLOCK as u32,
        down.message == WM_KEYDOWN,
        down.flags & LLKHF_INJECTED == 0,
        up == (LowLevelKey { message: WM_KEYUP, ..down }),
        !flags.num_lock_key_down,
        replay.vk_code == VK_NUMLOCK as u32,
        replay.flags & LLKHF_INJECTED != 0,
        replay.extra_info == NUMFLOW_NUM_LOCK_INJECTION_TAG,
    ensures
        ({
            let first = hook_decision(0, down, flags);
            let repeat = hook_decision(0, down, first.next);
            let release = hook_decision(0, up, repeat.next);
            &&& first.consume && repeat.consume && release.consume
            &&& first.next.num_lock_on == !flags.num_lock_on
            &&& first.next.interception_enabled == !first.next.num_lock_on
            &&& first.notify == Some(
                KeyboardHookEvent::NumLockChanged {
                    num_lock_on: !flags.num_lock_on,
                    sync_system: true,
                    play_feedback: true,
                },
            )
            &&& repeat.notify is None && repeat.next.num_lock_on == first.next.num_lock_on
            &&& release.notify is None && release.next.num_lock_on == first.next.num_lock_on
            &&& !release.next.num_lock_key_down
        }),
        forall|code: i32, any: HookFlags|
            code >= 0 ==> #[trigger] hook_decision(code, replay, any) == (HookDecision {
                next: any,
                notify: None,
                offer: None,
                consume: false,
            }),
{
    assert(WM_KEYUP != WM_KEYDOWN);
}

/// A keypad key reaches the runtime only while interception is on and Num Lock is off, after
/// the mode the key reveals has been taken into account; keys outside the keypad never do.
pub proof fn lemma_keys_offered_only_in_pointer_mode(code: i32, key: LowLevelKey, flags: HookFlags)
    ensures
        hook_decision(code, key, flags).offer is Some ==> {
            let d = hook_decision(code, key, flags);
            &&& d.next.interception_enabled && !d.next.num_lock_on
            &&& numpad_key_of(d.offer->0.scan_code, d.offer->0.extended) is Some
            &&& !d.consume
        },
{
}

/// The hook thread's memory of the last resume.
#[derive(Debug, Clone, Copy, PartialEq, Eq, Structural)]
pub struct HookThreadState {
    pub automatic_resume_seen: bool,
    pub hook_restored: bool,
}

/// What the hook thread does with a thread message.
#[derive(Debug, Clone, Copy, PartialEq, Eq, Structural)]
pub enum HookThreadAction {
    /// Stop interception and hand the runtime a fail-safe cleanup.
    HandleSuspend,
    /// Reinstall the hook; report whether that worked through `HookThreadState::restored`.
    RestoreHook,
    /// The hook is in place: only remove the raw keyboard registration again.
    ReconcileRawInput,
    Nothing,
}

/// The hook thread's state and action after a thread message. A suspend forgets the last
/// resume. An automatic resume always reinstalls the hook. A user resume reinstalls it unless
/// an automatic resume already did so successfully, in which case it only reconciles raw input.
pub open spec fn hook_thread_step(state: HookThreadState, message: u32) -> (
    HookThreadState,
    HookThreadAction,
) {
    if message == WM_NUMFLOW_SUSPEND {
        (HookThreadState { automatic_resume_seen: false, hook_restored: true }, HookThreadAction::HandleSuspend)
    } else if message == WM_NUMFLOW_RESUME_AUTOMATIC {
        (HookThreadState { automatic_resume_seen: true, ..state }, HookThreadAction::RestoreHook)
    } else if message == WM_NUMFLOW_RESUME_USER {
        if state.automatic_resume_seen && state.hook_restored {
            (state, HookThreadAction::ReconcileRawInput)
        } else {
            (state, HookThreadAction::RestoreHook)
        }
    } else {
        (state, HookThreadAction::Nothing)
    }
}

impl HookThreadState {
    /// The state of a freshly started hook thread.
    pub fn new() -> (state: Self)
        ensures
            state == (HookThreadState { automatic_resume_seen: false, hook_restored: true }),
    {
        HookThreadState { automatic_resume_seen: false, hook_restored: true }
    }

    /// Returns the next state and the action for a thread message, as `hook_thread_step` says.
    pub fn on_message(self, message: u32) -> (result: (HookThreadState, HookThreadAction))
        ensures
            result == hook_thread_step(self, message),
    {
        if message == WM_NUMFLOW_SUSPEND {
            (HookThreadState { automatic_resume_seen: false, hook_restored: true }, HookThreadAction::HandleSuspend)
        } else if message == WM_NUMFLOW_RESUME_AUTOMATIC {
            (HookThreadState { automatic_resume_seen: true, ..self }, HookThreadAction::RestoreHook)
        } else if message == WM_NUMFLOW_RESUME_USER {
            if self.automatic_resume_seen && self.hook_restored {
                (self, HookThreadAction::ReconcileRawInput)
            } else {
                (self, HookThreadAction::RestoreHook)
            }
        } else {
            (self, HookThreadAction::Nothing)
        }
    }

    /// Records whether reinstalling the hook worked.
    pub fn restored(self, hook_restored: bool) -> (state: Self)
        ensures
            state == (HookThreadState { hook_restored, ..self }),
    {
        HookThreadState { hook_restored, ..self }
    }
}

/// What setting Num Lock from the program takes. When the mode already matches, nothing is
/// replayed and interception just follows the mode. Otherwise Windows is sent a Num Lock
/// press: interception already follows the new mode while the press is replayed, the flags
/// adopt the new mode once Windows accepted the replay, and fall back to what they were when
/// it refused.
#[derive(Debug, Clone, Copy, PartialEq, Eq, Structural)]
pub enum NumLockRequest {
    Aligned { next: HookFlags },
    Replay { during: HookFlags, accepted: HookFlags, refused: HookFlags },
}

/// Returns what setting Num Lock to `num_lock_on` takes from the current flags.
pub fn num_lock_request(flags: HookFlags, num_lock_on: bool) -> (request: NumLockRequest)
    ensures
        flags.num_lock_on == num_lock_on ==> request == (NumLockRequest::Aligned {
            next: HookFlags { interception_enabled: !num_lock_on, ..flags },
        }),
        flags.num_lock_on != num_lock_on ==> request == (NumLockRequest::Replay {
            during: HookFlags { interception_enabled: !num_lock_on, ..flags },
            accepted: HookFlags {
                interception_enabled: !num_lock_on,
                num_lock_on,
                num_lock_key_down: false,
            },
            refused: flags,
        }),
{
    if flags.num_lock_on == num_lock_on {
        return NumLockRequest::Aligned {
            next: HookFlags { interception_enabled: !num_lock_on, ..flags },
        };
    }
    NumLockRequest::Replay {
        during: HookFlags { interception_enabled: !num_lock_on, ..flags },
        accepted: HookFlags { interception_enabled: !num_lock_on, num_lock_on, num_lock_key_down: false },
        refused: flags,
    }
}

/// The flags after a suspend: no interception and no Num Lock key down; the mode is kept.
pub fn flags_after_power_change(flags: HookFlags) -> (next: HookFlags)
    ensures
        next == (HookFlags { interception_enabled: false, num_lock_key_down: false, ..flags }),
{
    HookFlags { interception_enabled: false, num_lock_key_down: false, ..flags }
}

/// The fail-safe event handed to the runtime on suspend and first on resume: Num Lock on,
/// which releases pointer state; no replay, no sound.
pub open spec fn cleanup_event() -> KeyboardHookEvent {
    KeyboardHookEvent::NumLockChanged { num_lock_on: true, sync_system: false, play_feedback: false }
}

/// Returns the fail-safe event handed to the runtime on suspend.
pub fn suspend_cleanup_event() -> (event: KeyboardHookEvent)
    ensures
        event == cleanup_event(),
{
    KeyboardHookEvent::NumLockChanged { num_lock_on: true, sync_system: false, play_feedback: false }
}

/// Returns the events that resynchronise the runtime after a resume: the fail-safe cleanup,
/// then the Num Lock mode that was in force.
pub fn resume_resync_events(num_lock_on: bool) -> (events: [KeyboardHookEvent; 2])
    ensures
        events@ == seq![
            cleanup_event(),
            KeyboardHookEvent::NumLockChanged { num_lock_on, sync_system: false, play_feedback: false },
        ],
{
    let cleanup = KeyboardHookEvent::NumLockChanged {
        num_lock_on: true,
        sync_system: false,
        play_feedback: false,
    };
    let restore = KeyboardHookEvent::NumLockChanged {
        num_lock_on,
        sync_system: false,
        play_feedback: false,
    };
    let events = [cleanup, restore];
    assert(events@ =~= seq![
        cleanup_event(),
        KeyboardHookEvent::NumLockChanged { num_lock_on, sync_system: false, play_feedback: false },
    ]);
    events
}

/// Whether interception resumes after a resume: only when the hook is back, the runtime got
/// the resynchronisation, and Num Lock is off.
pub fn interception_after_resync(num_lock_on: bool, hook_restored: bool, delivered: bool) -> (enabled:
    bool)
    ensures
        enabled == (hook_restored && delivered && !num_lock_on),
{
    if hook_restored && delivered {
        !num_lock_on
    } else {
        false
    }
}

} // verus!
