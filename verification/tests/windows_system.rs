use numflow::action::{Direction, InputAction, MouseButton};
use numflow::assistive::{
    AT_SESSION_EXITING, AT_SESSION_STARTING, AssistiveTechnologySession,
    AssistiveTechnologySessionError, SecureSettingsError, accessibility_notification_inputs,
    binding_value_name, check_notification_inputs, decode_action, decode_binding_values,
    decode_bool, decode_button, decode_secure_settings, encode_action, encode_binding_codes,
    encode_button, secure_settings_writes, store_writes, DwordWriter, SecureSettingsReads, ValueRead,
    VK_LWIN,
};
use numflow::audio::{AudioCue, CUE_DURATION_MS, cue_for_num_lock, cue_tone, should_play};
use numflow::bindings::{Bindings, NumpadKey};
use numflow::desktop::{
    DesktopKind, RuntimeKind, SessionSurface, classify_desktop, eq_ignore_ascii_case,
    owns_input_desktop, runtime_kind_for_arguments, secure_launch_authorized,
};
use numflow::hook::KEYEVENTF_KEYUP;
use numflow::system::{
    ElevationError, StartupError, StartupRegistration, elevated_parameters, integrity_label,
    pipe_name_for_session, reconnect_allowed, secure_desktop_admitted, shell_execute_result,
    startup_command_bytes, startup_command_length, startup_command_units, windows_manifest,
    SecureRuntimeError, peer_path_pinned, pinned_by_parts, HandshakeOutcome, InputServiceError,
    handshake_reply_outcome, request_reply_outcome,
};
use numflow::protocol::{Message, RejectReason};

#[test]
fn action_codes_round_trip_for_every_supported_binding() {
    let bindings = Bindings::default();
    for (_, action) in bindings.iter() {
        assert_eq!(decode_action(encode_action(action)), Some(action));
    }
    for action in [
        InputAction::Move(Direction::Up),
        InputAction::ToggleEnabled,
        InputAction::SetEnabled(false),
        InputAction::SetEnabled(true),
        InputAction::SetPrecision(false),
        InputAction::SetPrecision(true),
    ] {
        assert_eq!(decode_action(encode_action(action)), Some(action));
    }
    assert_eq!(decode_action(0), None);
    assert_eq!(decode_action(u32::MAX), None);
    assert!(bindings.action_for(NumpadKey::Num8).is_some());
}

#[test]
fn button_codes_reject_untrusted_values() {
    for button in [MouseButton::Left, MouseButton::Right, MouseButton::Middle] {
        assert_eq!(decode_button(encode_button(button)), Some(button));
    }
    assert_eq!(decode_button(0), None);
    assert_eq!(decode_button(4), None);
}

#[test]
fn ease_of_access_notification_balances_windows_and_u_keys() {
    let fields = accessibility_notification_inputs();

    assert_eq!(fields[0].vk, windows_sys::Win32::UI::Input::KeyboardAndMouse::VK_LWIN);
    assert_eq!(fields[1].vk, u16::from(b'U'));
    assert_eq!(fields[0].flags, 0);
    assert_eq!(fields[1].flags, 0);
    assert_eq!(fields[2].flags, windows_sys::Win32::UI::Input::KeyboardAndMouse::KEYEVENTF_KEYUP);
    assert_eq!(fields[3].flags, KEYEVENTF_KEYUP);
    assert_eq!(fields[3].vk, VK_LWIN);
}

#[test]
fn mode_cues_are_short_and_distinct() {
    let on = cue_tone(AudioCue::NumFlowOn);
    let off = cue_tone(AudioCue::NumFlowOff);

    assert_ne!(on.0, off.0);
    assert_eq!(on.1, CUE_DURATION_MS);
    assert_eq!(off.1, CUE_DURATION_MS);
}

#[test]
fn desktop_names_and_session_state_are_classified_without_window_data() {
    assert_eq!(classify_desktop("Default", None), DesktopKind::Default);
    assert_eq!(classify_desktop("ConsentUx", None), DesktopKind::Unknown);
    assert_eq!(
        classify_desktop(
            "Winlogon",
            Some(SessionSurface {
                locked: false,
                has_user: false,
            })
        ),
        DesktopKind::Logon
    );
    assert_eq!(
        classify_desktop(
            "Winlogon",
            Some(SessionSurface {
                locked: true,
                has_user: true,
            })
        ),
        DesktopKind::Locked
    );
    assert_eq!(
        classify_desktop(
            "Winlogon",
            Some(SessionSurface {
                locked: false,
                has_user: true,
            })
        ),
        DesktopKind::Secure
    );
}

#[test]
fn elevated_profile_preserves_background_mode() {
    assert_eq!(elevated_parameters(false), "--elevated");
    assert_eq!(elevated_parameters(true), "--elevated --background");
}

#[test]
fn startup_command_quotes_executable_and_is_nul_terminated() {
    let bytes = startup_command_bytes(r"C:\Program Files\NumFlow\numflow.exe");
    assert_eq!(bytes.len() % 2, 0);
    let wide = bytes
        .chunks(2)
        .map(|chunk| u16::from_le_bytes([chunk[0], chunk[1]]))
        .collect::<Vec<_>>();
    let decoded = String::from_utf16(&wide[..wide.len() - 1]).expect("valid UTF-16");

    assert_eq!(decoded, r#""C:\Program Files\NumFlow\numflow.exe""#);
    assert_eq!(wide.last(), Some(&0));
}

#[test]
fn uiaccess_is_opt_in_for_signed_production_artifacts() {
    assert!(windows_manifest(true).contains("uiAccess=\"true\""));
    assert!(windows_manifest(false).contains("uiAccess=\"false\""));
}

#[test]
fn stored_bindings_round_trip_and_refuse_unknown_codes() {
    let mut bindings = Bindings::default();
    bindings.unbind(NumpadKey::Num3);
    bindings.bind(NumpadKey::Add, InputAction::SetPrecision(true));
    let codes = encode_binding_codes(&bindings);
    assert_eq!(codes.len(), 15);
    assert_eq!(codes[3], 0);
    assert_eq!(codes[10], 20);
    let values = codes.iter().map(|code| Some(*code)).collect::<Vec<_>>();
    let decoded = decode_binding_values(&values).expect("stored codes decode");
    assert_eq!(decoded.iter(), bindings.iter());

    let mut corrupt = values.clone();
    corrupt[12] = Some(99);
    corrupt[13] = None;
    assert_eq!(
        decode_binding_values(&corrupt).map(|b| b.iter()),
        Err(SecureSettingsError::Invalid("BindingDivide"))
    );
    let mut missing = values;
    missing[0] = None;
    assert_eq!(
        decode_binding_values(&missing).map(|b| b.iter()),
        Err(SecureSettingsError::Invalid("BindingNum0"))
    );
    assert_eq!(binding_value_name(NumpadKey::Subtract), "BindingSubtract");
}

#[test]
fn stored_booleans_are_strict() {
    assert_eq!(decode_bool(0, "Enabled"), Ok(false));
    assert_eq!(decode_bool(1, "Enabled"), Ok(true));
    assert_eq!(decode_bool(2, "Enabled"), Err(SecureSettingsError::Invalid("Enabled")));
}

#[test]
fn ease_of_access_session_announces_only_when_registered() {
    assert_eq!(AssistiveTechnologySession::start_notification(false), None);
    assert_eq!(AssistiveTechnologySession::start_notification(true), Some(AT_SESSION_STARTING));
    let inactive = AssistiveTechnologySession::start(false, Ok(())).expect("unregistered start");
    assert_eq!(inactive.exit_notification(), None);
    let active = AssistiveTechnologySession::start(true, Ok(())).expect("registered start");
    assert_eq!(active.exit_notification(), Some(AT_SESSION_EXITING));
    let failure = AssistiveTechnologySessionError::Registry(5);
    assert_eq!(
        AssistiveTechnologySession::start(true, Err(failure.clone())).map(|s| s.exit_notification()),
        Err(failure)
    );
    assert_eq!(check_notification_inputs(4, 4), Ok(()));
    assert_eq!(
        check_notification_inputs(3, 4),
        Err(AssistiveTechnologySessionError::NotificationInput { inserted: 3, expected: 4 })
    );
}

#[test]
fn num_lock_cues_follow_the_mode() {
    assert_eq!(cue_for_num_lock(true), AudioCue::NumFlowOff);
    assert_eq!(cue_for_num_lock(false), AudioCue::NumFlowOn);
    assert_eq!(should_play(true, AudioCue::NumFlowOn), Some((880, 55)));
    assert_eq!(should_play(false, AudioCue::NumFlowOn), None);
}

#[test]
fn desktop_names_compare_without_ascii_case() {
    assert!(eq_ignore_ascii_case("WinLogon", "winlogon"));
    assert!(!eq_ignore_ascii_case("Winlogon", "Winlogo"));
    assert!(!eq_ignore_ascii_case("Ä", "ä"));
    assert!(owns_input_desktop(Some("Default"), Some("DEFAULT")));
    assert!(!owns_input_desktop(None, Some("Default")));
    assert!(!owns_input_desktop(Some("Default"), Some("Winlogon")));
    assert_eq!(DesktopKind::Locked.label(), "locked");
    assert_eq!(RuntimeKind::Elevated.label(), "elevated");
}

#[test]
fn runtime_kind_follows_command_line_flags() {
    let args = |list: &[&str]| list.iter().map(|a| a.to_string()).collect::<Vec<_>>();
    assert_eq!(runtime_kind_for_arguments(&args(&[])), RuntimeKind::Normal);
    assert_eq!(runtime_kind_for_arguments(&args(&["--background"])), RuntimeKind::Normal);
    assert_eq!(runtime_kind_for_arguments(&args(&["--elevated"])), RuntimeKind::Elevated);
    assert_eq!(
        runtime_kind_for_arguments(&args(&["--elevated", "--secure-runtime"])),
        RuntimeKind::Secure
    );
}

#[test]
fn system_results_map_to_errors() {
    assert_eq!(shell_execute_result(33), Ok(()));
    assert_eq!(shell_execute_result(32), Err(ElevationError::ShellExecute(32)));
    assert_eq!(StartupRegistration::enabled_from_status(0), Ok(true));
    assert_eq!(StartupRegistration::enabled_from_status(2), Ok(false));
    assert_eq!(StartupRegistration::enabled_from_status(5), Err(StartupError::Registry(5)));
    assert_eq!(StartupRegistration::write_result(3, true), Ok(()));
    assert_eq!(StartupRegistration::write_result(3, false), Err(StartupError::Registry(3)));
    assert_eq!(startup_command_length(10), Ok(10));
    assert_eq!(startup_command_length(u32::MAX as usize), Ok(u32::MAX));
    if usize::BITS > 32 {
        assert_eq!(
            startup_command_length(u32::MAX as usize + 1),
            Err(StartupError::CommandTooLarge)
        );
    }
    assert_eq!(integrity_label(0x2000), "medium");
    assert_eq!(integrity_label(0x2100), "medium-plus");
    assert_eq!(integrity_label(0x1234), "unknown");
    assert_eq!(
        secure_desktop_admitted(true, DesktopKind::Default, true),
        Err(SecureRuntimeError::UnmanagedDesktop)
    );
    assert_eq!(secure_desktop_admitted(true, DesktopKind::Locked, true), Ok(()));
    assert_eq!(
        secure_desktop_admitted(false, DesktopKind::Secure, true),
        Err(SecureRuntimeError::UnmanagedDesktop)
    );
}

#[test]
fn helper_pipe_names_and_reconnect_pacing() {
    assert_eq!(pipe_name_for_session(0), r"\\.\pipe\numflow-input-0");
    assert_eq!(pipe_name_for_session(4_294_967_295), r"\\.\pipe\numflow-input-4294967295");
    assert_eq!(pipe_name_for_session(1203), r"\\.\pipe\numflow-input-1203");
    assert!(reconnect_allowed(None, 0, 2_000));
    assert!(!reconnect_allowed(Some(1_000), 2_999, 2_000));
    assert!(reconnect_allowed(Some(1_000), 3_000, 2_000));
    assert!(!reconnect_allowed(Some(5_000), 1_000, 2_000));
}

#[test]
fn startup_command_encodes_characters_outside_the_basic_plane() {
    let units = startup_command_units("a😀");
    assert_eq!(units, vec![34, 0x61, 0xD83D, 0xDE00, 34, 0]);
}

#[test]
fn peer_path_pins_the_expected_file_in_our_directory() {
    assert!(pinned_by_parts(
        Some("C:\\Program Files\\NumFlow"),
        Some("c:\\program files\\numflow"),
        Some("NumFlow-Input.EXE"),
        "numflow-input.exe",
    ));
    assert!(!pinned_by_parts(
        Some("C:\\Program Files\\NumFlow"),
        Some("C:\\Users\\Public"),
        Some("numflow-input.exe"),
        "numflow-input.exe",
    ));
    assert!(!pinned_by_parts(
        Some("C:\\Program Files\\NumFlow"),
        Some("C:\\Program Files\\NumFlow"),
        Some("other.exe"),
        "numflow-input.exe",
    ));
    assert!(!pinned_by_parts(None, Some("C:\\x"), Some("numflow-input.exe"), "numflow-input.exe"));
    assert!(!pinned_by_parts(Some("C:\\x"), Some("C:\\x"), None, "numflow-input.exe"));
    assert!(pinned_by_parts(Some(""), None, Some("numflow-input.exe"), "numflow-input.exe"));

    assert!(peer_path_pinned(
        Some("/opt/numflow/numflow.exe"),
        Some("/opt/NumFlow/NumFlow-Input.exe"),
        "numflow-input.exe",
    ));
    assert!(!peer_path_pinned(
        Some("/opt/numflow/numflow.exe"),
        Some("/tmp/numflow-input.exe"),
        "numflow-input.exe",
    ));
    assert!(!peer_path_pinned(None, Some("/opt/numflow/numflow-input.exe"), "numflow-input.exe"));
    assert!(!peer_path_pinned(Some("/opt/numflow/numflow.exe"), None, "numflow-input.exe"));
}

fn complete_reads() -> SecureSettingsReads {
    SecureSettingsReads {
        schema_version: ValueRead::Present(1),
        enabled: ValueRead::Present(1),
        motion: [
            ValueRead::Present(180_000),
            ValueRead::Present(1_400_000),
            ValueRead::Present(900_000),
            ValueRead::Present(250),
            ValueRead::Present(1_800),
        ],
        selected_button: ValueRead::Present(2),
        precision: ValueRead::Present(0),
        bindings: [ValueRead::Present(0); 15],
    }
}

#[test]
fn secure_settings_decode_whitelisted_values() {
    let mut reads = complete_reads();
    reads.bindings[8] = ValueRead::Present(1);
    reads.bindings[5] = ValueRead::Present(9);

    let values = decode_secure_settings(&reads)
        .expect("valid settings decode")
        .expect("settings are present");
    assert!(values.enabled);
    assert_eq!(values.motion_milli, vec![180_000, 1_400_000, 900_000, 250, 1_800]);
    assert_eq!(values.selected_button, MouseButton::Right);
    assert!(!values.precision);
    assert_eq!(values.bindings.action_for(NumpadKey::Num8), Some(InputAction::Move(Direction::Up)));
    assert_eq!(values.bindings.action_for(NumpadKey::Num5), Some(InputAction::Click));
    assert_eq!(values.bindings.action_for(NumpadKey::Num0), None);
}

#[test]
fn secure_settings_without_marker_or_enabled_value_use_defaults() {
    let mut reads = complete_reads();
    reads.schema_version = ValueRead::Missing;
    assert!(matches!(decode_secure_settings(&reads), Ok(None)));
    reads.schema_version = ValueRead::Present(0);
    assert!(matches!(decode_secure_settings(&reads), Ok(None)));
    reads.schema_version = ValueRead::Present(1);
    reads.enabled = ValueRead::Missing;
    assert!(matches!(decode_secure_settings(&reads), Ok(None)));
}

#[test]
fn secure_settings_with_a_missing_value_are_absent() {
    let mut reads = complete_reads();
    reads.motion[0] = ValueRead::Missing;
    assert!(matches!(decode_secure_settings(&reads), Ok(None)));

    let mut reads = complete_reads();
    reads.enabled = ValueRead::Present(7);
    reads.motion[2] = ValueRead::Missing;
    assert!(matches!(decode_secure_settings(&reads), Ok(None)));

    let mut reads = complete_reads();
    reads.selected_button = ValueRead::Missing;
    assert!(matches!(decode_secure_settings(&reads), Ok(None)));

    let mut reads = complete_reads();
    reads.precision = ValueRead::Missing;
    assert!(matches!(decode_secure_settings(&reads), Ok(None)));

    let mut reads = complete_reads();
    reads.bindings[14] = ValueRead::Missing;
    assert!(matches!(decode_secure_settings(&reads), Ok(None)));

    let mut reads = complete_reads();
    reads.motion[1] = ValueRead::Failed(5);
    reads.motion[3] = ValueRead::Missing;
    assert!(matches!(
        decode_secure_settings(&reads),
        Err(SecureSettingsError::Registry { value: "MaxSpeedMilli", status: 5 })
    ));

    let mut reads = complete_reads();
    reads.selected_button = ValueRead::Present(9);
    reads.bindings[0] = ValueRead::Missing;
    assert!(matches!(decode_secure_settings(&reads), Err(SecureSettingsError::Invalid("SelectedButton"))));
}

#[test]
fn secure_settings_report_the_first_failure_in_reading_order() {
    let mut reads = complete_reads();
    reads.schema_version = ValueRead::Failed(5);
    assert!(matches!(
        decode_secure_settings(&reads),
        Err(SecureSettingsError::Registry { value: "SchemaVersion", status: 5 })
    ));

    let mut reads = complete_reads();
    reads.enabled = ValueRead::Present(7);
    reads.motion[2] = ValueRead::Failed(3);
    assert!(matches!(
        decode_secure_settings(&reads),
        Err(SecureSettingsError::Registry { value: "AccelerationMilli", status: 3 })
    ));

    let mut reads = complete_reads();
    reads.enabled = ValueRead::Present(7);
    reads.selected_button = ValueRead::Present(4);
    assert!(matches!(
        decode_secure_settings(&reads),
        Err(SecureSettingsError::Invalid("SelectedButton"))
    ));

    let mut reads = complete_reads();
    reads.enabled = ValueRead::Present(7);
    reads.bindings[3] = ValueRead::Failed(6);
    assert!(matches!(decode_secure_settings(&reads), Err(SecureSettingsError::Invalid("Enabled"))));

    let mut reads = complete_reads();
    reads.bindings[3] = ValueRead::Present(99);
    reads.bindings[4] = ValueRead::Failed(6);
    assert!(matches!(
        decode_secure_settings(&reads),
        Err(SecureSettingsError::Invalid("BindingNum3"))
    ));

    let mut reads = complete_reads();
    reads.bindings[4] = ValueRead::Failed(6);
    assert!(matches!(
        decode_secure_settings(&reads),
        Err(SecureSettingsError::Registry { value: "BindingNum4", status: 6 })
    ));
}

#[test]
fn secure_settings_store_clears_the_marker_first_and_sets_it_last() {
    let bindings = Bindings::default();
    let writes = secure_settings_writes(true, &[1, 2, 3, 4, 5], MouseButton::Middle, true, &bindings);

    assert_eq!(writes.len(), 2 + 5 + 2 + 15 + 1);
    assert_eq!(writes[0], ("SchemaVersion", 0));
    assert_eq!(writes[1], ("Enabled", 1));
    assert_eq!(writes[2], ("BaseSpeedMilli", 1));
    assert_eq!(writes[6], ("BoostMultiplierMilli", 5));
    assert_eq!(writes[7], ("SelectedButton", 3));
    assert_eq!(writes[8], ("PrecisionEnabled", 1));
    assert_eq!(writes[9], ("BindingNum0", encode_action(InputAction::Hold)));
    assert_eq!(writes[17], ("BindingNum8", encode_action(InputAction::Move(Direction::Up))));
    assert_eq!(writes[24], ("SchemaVersion", 1));

    let mut reads = complete_reads();
    for (index, (_, code)) in writes[9..24].iter().enumerate() {
        reads.bindings[index] = ValueRead::Present(*code);
    }
    let decoded = decode_secure_settings(&reads).expect("stored codes decode").expect("present");
    for key in [NumpadKey::Num0, NumpadKey::Num5, NumpadKey::Num8, NumpadKey::Subtract] {
        assert_eq!(decoded.bindings.action_for(key), bindings.action_for(key));
    }
}

#[test]
fn secure_launch_needs_exactly_the_secure_runtime_argument() {
    let args = |list: &[&str]| list.iter().map(|a| a.to_string()).collect::<Vec<_>>();
    assert!(secure_launch_authorized(&args(&["--secure-runtime"])));
    assert!(secure_launch_authorized(&args(&["--secure-runtime", "--secure-runtime"])));
    assert!(!secure_launch_authorized(&args(&[])));
    assert!(!secure_launch_authorized(&args(&["--secure-runtime", "--elevated"])));
    assert!(!secure_launch_authorized(&args(&["--background"])));
}

#[test]
fn helper_replies_are_checked_against_the_pipe_peer() {
    assert_eq!(
        handshake_reply_outcome(Message::HandshakeAccepted { server_pid: 77, ui_access: true }, 77),
        HandshakeOutcome::Accepted { server_pid: 77, ui_access: true }
    );
    assert_eq!(
        handshake_reply_outcome(Message::HandshakeAccepted { server_pid: 78, ui_access: true }, 77),
        HandshakeOutcome::PidMismatch { server_pid: 78 }
    );
    assert_eq!(handshake_reply_outcome(Message::ReleaseAll, 77), HandshakeOutcome::Unexpected);

    assert_eq!(
        request_reply_outcome(Message::Ack { accepted: true, detail: RejectReason::Accepted }),
        Ok(())
    );
    assert_eq!(
        request_reply_outcome(Message::Ack { accepted: false, detail: RejectReason::NotReady }),
        Err(InputServiceError::Rejected(RejectReason::NotReady))
    );
    assert_eq!(
        request_reply_outcome(Message::Ack { accepted: true, detail: RejectReason::NotReady }),
        Err(InputServiceError::Rejected(RejectReason::InvalidPayload))
    );
    assert_eq!(
        request_reply_outcome(Message::Ping { nonce: 1 }),
        Err(InputServiceError::Rejected(RejectReason::InvalidPayload))
    );
}

struct FailingWriter {
    fail_at: usize,
    written: Vec<(&'static str, u32)>,
}

impl DwordWriter for FailingWriter {
    fn write_dword(&mut self, name: &'static str, value: u32) -> u32 {
        if self.written.len() == self.fail_at {
            return 5;
        }
        self.written.push((name, value));
        0
    }
}

#[test]
fn a_failed_store_stops_at_the_failed_write_and_leaves_the_marker_cleared() {
    let writes = secure_settings_writes(true, &[1, 2, 3, 4, 5], MouseButton::Left, false, &Bindings::default());
    let mut writer = FailingWriter { fail_at: 7, written: Vec::new() };
    let (statuses, outcome) = store_writes(&mut writer, &writes);
    assert_eq!(statuses, vec![0, 0, 0, 0, 0, 0, 0, 5]);
    assert_eq!(outcome, Err(SecureSettingsError::Registry { value: "SelectedButton", status: 5 }));
    assert_eq!(writer.written.len(), 7);
    assert_eq!(writer.written[0], ("SchemaVersion", 0));
    assert!(writer.written[1..].iter().all(|(name, _)| *name != "SchemaVersion"));

    let mut writer = FailingWriter { fail_at: usize::MAX, written: Vec::new() };
    let (statuses, outcome) = store_writes(&mut writer, &writes);
    assert_eq!(outcome, Ok(()));
    assert_eq!(statuses.len(), writes.len());
    assert_eq!(writer.written.last(), Some(&("SchemaVersion", 1)));
}
