use numflow::action::{Direction, InputAction, MouseButton};
use numflow::bindings::NumpadKey;
use numflow::bindings_ui::choice_index;
use numflow::config::{
    BindingConfig, ConfigError, ConfigLoadStatus, ConfigSource, InputActionConfig, MouseButtonConfig,
    NumpadKeyConfig, config_load_status,
};
use numflow::runtime::RuntimeStateSnapshot;
use numflow::settings::{
    UiSettings, default_settings, profiles_in_name_order, set_active_profile, str_less, validate_settings,
};

fn profile_named<'a>(settings: &'a numflow::settings::SettingsConfig, name: &str) -> &'a numflow::settings::ProfileSettings {
    settings
        .profiles
        .iter()
        .find(|profile| profile.name == name)
        .expect("profile exists")
}

#[test]
fn runtime_snapshot_resynchronizes_ui_state_after_event_coalescing() {
    let mut settings = UiSettings::default();
    let changed = settings.sync_runtime_state(RuntimeStateSnapshot {
        enabled: true,
        selected_button: MouseButton::Right,
        held_button: Some(MouseButton::Left),
        precision: true,
    });

    assert!(changed);
    assert!(settings.controller().is_enabled());
    assert_eq!(settings.controller().selected_button(), MouseButton::Right);
    assert_eq!(settings.controller().held_button(), Some(MouseButton::Left));
    assert!(settings.controller().is_precision_enabled());
    let config = settings.config_snapshot();
    let active = profile_named(&config, &config.active_profile);
    assert_eq!(active.selected_button.to_button(), MouseButton::Right);
    assert!(active.precision_enabled);
}

#[test]
fn hud_feedback_is_enabled_by_default() {
    assert!(UiSettings::default().hud_enabled());
}

#[test]
fn lifecycle_preferences_are_disabled_by_default() {
    let settings = UiSettings::default();

    assert!(!settings.start_minimized());
    assert!(!settings.start_with_windows());
}

#[test]
fn lifecycle_preferences_update_typed_config() {
    let mut settings = UiSettings::default();

    settings.set_start_minimized(true);
    settings.set_start_with_windows(true);

    assert!(settings.start_minimized());
    assert!(settings.start_with_windows());
    assert!(settings.config_snapshot().start_minimized);
    assert!(settings.config_snapshot().start_with_windows);
}

#[test]
fn custom_binding_updates_runtime_and_active_profile() {
    let mut settings = UiSettings::default();
    let click_index = choice_index(Some(InputActionConfig::Click));

    assert!(settings.set_binding_choice_index(click_index));
    assert_eq!(settings.bindings().action_for(NumpadKey::Num8), Some(InputAction::Click));
    assert_eq!(settings.binding_label(NumpadKeyConfig::Num8), "Click");
}

#[test]
fn custom_binding_is_profile_specific_and_can_be_unbound() {
    let mut settings = UiSettings::default();
    settings.set_binding_choice_index(choice_index(Some(InputActionConfig::Click)));

    settings.set_profile("Fast").expect("built-in Fast profile should exist");
    assert_eq!(
        settings.bindings().action_for(NumpadKey::Num8),
        Some(InputAction::Move(Direction::Up))
    );

    settings.set_profile("Normal").expect("built-in Normal profile should exist");
    assert!(settings.set_binding_choice_index(choice_index(None)));
    assert_eq!(settings.bindings().action_for(NumpadKey::Num8), None);
    assert_eq!(settings.binding_count(), 14);
}

#[test]
fn reset_active_bindings_restores_default_mapping() {
    let mut settings = UiSettings::default();
    settings.set_binding_choice_index(choice_index(None));

    assert!(settings.reset_active_bindings());
    assert_eq!(
        settings.bindings().action_for(NumpadKey::Num8),
        Some(InputAction::Move(Direction::Up))
    );
    assert_eq!(settings.binding_count(), 15);
    assert!(!settings.reset_active_bindings());
}

#[test]
fn reset_does_not_drop_an_active_drag() {
    let mut settings = UiSettings::default();
    settings.set_enabled(true);
    settings.apply(InputAction::Hold);

    settings.reset_defaults();

    assert_eq!(settings.controller().held_button(), Some(MouseButton::Left));
}

#[test]
fn shutdown_disables_controller_and_releases_drag_state() {
    let mut settings = UiSettings::default();
    settings.set_enabled(true);
    settings.apply(InputAction::Hold);

    let effects = settings.shutdown();

    assert!(!settings.enabled());
    assert_eq!(settings.controller().held_button(), None);
    assert!(!effects.is_empty());
}

#[test]
fn default_config_contains_required_profiles() {
    let config = default_settings();

    assert_eq!(config.schema_version, 1);
    assert_eq!(config.active_profile, "Normal");
    assert!(config.profiles.iter().any(|profile| profile.name == "Normal"));
    assert!(config.profiles.iter().any(|profile| profile.name == "Precision"));
    assert!(config.profiles.iter().any(|profile| profile.name == "Fast"));
    assert!(validate_settings(&config).is_ok());
}

#[test]
fn settings_without_the_active_profile_or_with_another_schema_are_refused() {
    let mut config = default_settings();
    config.schema_version = 2;
    assert_eq!(
        validate_settings(&config),
        Err(ConfigError::UnsupportedSchema { found: 2, expected: 1 })
    );

    let mut config = default_settings();
    config.active_profile = "Gaming".to_owned();
    assert_eq!(
        validate_settings(&config),
        Err(ConfigError::MissingActiveProfile("Gaming".to_owned()))
    );
}

#[test]
fn the_first_profile_with_a_repeated_key_is_reported() {
    let mut config = default_settings();
    for profile in config.profiles.iter_mut().filter(|profile| profile.name != "Fast") {
        profile.bindings.push(BindingConfig {
            key: NumpadKeyConfig::Num2,
            action: InputActionConfig::Click,
        });
    }
    assert_eq!(
        validate_settings(&config),
        Err(ConfigError::DuplicateBinding {
            profile: "Normal".to_owned(),
            key: NumpadKeyConfig::Num2,
        })
    );
}

#[test]
fn switching_to_an_unknown_profile_changes_nothing() {
    let mut settings = UiSettings::default();
    settings.set_mouse_button(MouseButton::Middle);

    assert_eq!(
        settings.set_profile("Gaming"),
        Err(ConfigError::MissingActiveProfile("Gaming".to_owned()))
    );
    assert_eq!(settings.active_profile_name(), "Normal");
    assert_eq!(settings.controller().selected_button(), MouseButton::Middle);

    let mut config = default_settings();
    assert!(set_active_profile(&mut config, "Gaming").is_err());
    assert_eq!(config.active_profile, "Normal");
    assert_eq!(set_active_profile(&mut config, "Precision"), Ok(()));
    assert_eq!(config.active_profile, "Precision");
}

#[test]
fn profile_switch_applies_the_profile_button_and_precision() {
    let mut settings = UiSettings::default();
    settings.set_profile("Precision").expect("built-in Precision profile should exist");

    assert_eq!(settings.active_profile_name(), "Precision");
    assert!(settings.controller().is_precision_enabled());
    let setup = settings.runtime_setup();
    assert!(setup.precision);
    assert_eq!(setup.selected_button, MouseButton::Left);
    assert_eq!(setup.bindings.action_for(NumpadKey::Num5), Some(InputAction::Click));
}

#[test]
fn button_and_precision_are_stored_in_the_active_profile() {
    let mut settings = UiSettings::default();
    settings.set_mouse_button(MouseButton::Right);
    settings.set_precision(true);

    let config = settings.config_snapshot();
    let normal = profile_named(&config, "Normal");
    assert_eq!(normal.selected_button, MouseButtonConfig::Right);
    assert!(normal.precision_enabled);
    let fast = profile_named(&config, "Fast");
    assert_eq!(fast.selected_button, MouseButtonConfig::Left);
    assert!(!fast.precision_enabled);

    let setup = settings.runtime_setup();
    assert_eq!(setup.selected_button, MouseButton::Right);
    assert!(setup.precision);
}

#[test]
fn binding_editor_selection_moves_only_to_listed_keys() {
    let mut settings = UiSettings::default();
    assert_eq!(settings.selected_binding_key_index(), 0);
    assert!(!settings.select_binding_key_index(0));
    assert!(!settings.select_binding_key_index(15));
    assert!(!settings.select_binding_key_index(-1));
    assert!(settings.select_binding_key_index(8));
    assert_eq!(settings.selected_binding_key_index(), 8);
    assert_eq!(
        settings.selected_binding_action_index(),
        choice_index(Some(InputActionConfig::Click))
    );
    assert!(!settings.set_binding_choice_index(18));
}

#[test]
fn stored_active_profile_and_preferences_are_applied() {
    let mut config = default_settings();
    config.active_profile = "Precision".to_owned();
    config.hud_enabled = false;
    let settings = UiSettings::from_config(config);

    assert_eq!(settings.active_profile_name(), "Precision");
    assert!(settings.controller().is_precision_enabled());
    assert!(!settings.hud_enabled());
    assert_eq!(settings.binding_count(), 15);
}

#[test]
fn reset_restores_settings_and_keeps_control_on() {
    let mut settings = UiSettings::default();
    settings.set_enabled(true);
    settings.set_mouse_button(MouseButton::Right);
    settings.set_precision(true);
    settings.set_hud_enabled(false);
    settings.set_start_minimized(true);
    settings.set_start_with_windows(true);
    settings.set_profile("Fast").expect("built-in Fast profile should exist");

    settings.reset_defaults();

    assert!(settings.controller().is_enabled());
    assert_eq!(settings.controller().selected_button(), MouseButton::Left);
    assert!(!settings.controller().is_precision_enabled());
    assert!(settings.hud_enabled());
    assert_eq!(settings.active_profile_name(), "Normal");
    assert!(!settings.start_minimized());
    assert!(!settings.start_with_windows());
    assert_eq!(settings.config_snapshot(), default_settings());
}

#[test]
fn runtime_setup_matches_the_interface_state() {
    let mut settings = UiSettings::default();
    settings.set_mouse_button(MouseButton::Right);
    settings.set_precision(true);

    let runtime = settings.runtime_setup();

    assert_eq!(runtime.selected_button, MouseButton::Right);
    assert!(runtime.precision);
    assert_eq!(runtime.bindings.iter().len(), settings.binding_count());
}

#[test]
fn names_sort_by_code_point_with_prefixes_first() {
    assert!(str_less("Fast", "Normal"));
    assert!(str_less("Norm", "Normal"));
    assert!(!str_less("Normal", "Norm"));
    assert!(!str_less("Normal", "Normal"));
    assert!(str_less("Zeta", "alpha"));
    assert!(!str_less("", ""));
    assert!(str_less("", "a"));
}

#[test]
fn default_profiles_are_listed_in_name_order() {
    let mut config = default_settings();
    assert!(profiles_in_name_order(&config.profiles));
    config.profiles.swap(0, 2);
    assert!(!profiles_in_name_order(&config.profiles));
    let first = config.profiles[2].clone();
    config.profiles.swap(0, 2);
    config.profiles.push(first);
    assert!(!profiles_in_name_order(&config.profiles));
}

#[test]
fn configuration_load_falls_back_to_defaults_except_on_read_failures() {
    assert_eq!(config_load_status(ConfigSource::NotFound), Ok(ConfigLoadStatus::Missing));
    assert_eq!(config_load_status(ConfigSource::Valid), Ok(ConfigLoadStatus::Loaded));
    assert_eq!(
        config_load_status(ConfigSource::Unparsable("bad toml".to_owned())),
        Ok(ConfigLoadStatus::Recovered { reason: "bad toml".to_owned() })
    );
    assert_eq!(
        config_load_status(ConfigSource::Invalid("duplicate binding".to_owned())),
        Ok(ConfigLoadStatus::Recovered { reason: "duplicate binding".to_owned() })
    );
    assert_eq!(
        config_load_status(ConfigSource::Unreadable("denied".to_owned())),
        Err(ConfigError::Read("denied".to_owned()))
    );
}

#[test]
fn startup_preference_follows_only_a_changed_registration() {
    let mut settings = UiSettings::default();
    assert!(!settings.start_with_windows());
    assert!(!settings.follow_startup_registration(true, false));
    assert!(!settings.start_with_windows());
    assert!(settings.follow_startup_registration(true, true));
    assert!(settings.start_with_windows());
}
