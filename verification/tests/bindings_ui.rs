use numflow::settings::{default_settings, validate_settings};
use numflow::action::{Direction, InputAction};
use numflow::bindings::NumpadKey;
use numflow::bindings_ui::{
    BINDING_KEYS, BindingChoice, action_label, binding_choices, choice_from_index, choice_index,
    key_from_index, key_index, profile_action, reset_profile_bindings, set_profile_binding,
};
use numflow::config::{
    BindingConfig, ConfigError, DirectionConfig, InputActionConfig, MouseButtonConfig,
    NumpadKeyConfig, bindings_from_configs, first_duplicate_key, validate_profile_bindings,
};

#[test]
fn binding_key_indices_round_trip() {
    for key in BINDING_KEYS {
        assert_eq!(key_from_index(key_index(key)), Some(key));
    }
}

#[test]
fn binding_choice_indices_round_trip() {
    for choice in binding_choices() {
        assert_eq!(
            choice_from_index(choice_index(choice.action())),
            Some(choice)
        );
    }
    assert_eq!(choice_from_index(-1), None);
    assert_eq!(choice_from_index(999), None);
}

#[test]
fn profile_binding_can_be_reassigned_and_unbound_without_duplicates() {
    let mut bindings = BindingConfig::defaults();

    assert!(set_profile_binding(
        &mut bindings,
        NumpadKeyConfig::Num5,
        Some(InputActionConfig::DoubleClick),
    ));
    assert_eq!(
        profile_action(&bindings, NumpadKeyConfig::Num5),
        Some(InputActionConfig::DoubleClick)
    );
    assert_eq!(
        bindings
            .iter()
            .filter(|binding| binding.key == NumpadKeyConfig::Num5)
            .count(),
        1
    );

    assert!(set_profile_binding(&mut bindings, NumpadKeyConfig::Num5, None));
    assert_eq!(profile_action(&bindings, NumpadKeyConfig::Num5), None);
    assert!(!set_profile_binding(&mut bindings, NumpadKeyConfig::Num5, None));
}

#[test]
fn reset_restores_default_bindings() {
    let mut bindings = BindingConfig::defaults();

    set_profile_binding(&mut bindings, NumpadKeyConfig::Num8, None);
    assert!(reset_profile_bindings(&mut bindings));
    assert_eq!(
        profile_action(&bindings, NumpadKeyConfig::Num8),
        BindingChoice::Action(InputActionConfig::Move(DirectionConfig::Up)).action()
    );
    assert!(!reset_profile_bindings(&mut bindings));
}

#[test]
fn duplicate_binding_is_rejected() {
    let mut config = default_settings();
    let profile = config
        .profiles
        .iter_mut()
        .find(|profile| profile.name == "Normal")
        .expect("default profile exists");
    profile.bindings.push(BindingConfig {
        key: NumpadKeyConfig::Num8,
        action: InputActionConfig::Click,
    });
    assert!(validate_settings(&config).is_err());

    let mut bindings = BindingConfig::defaults();
    bindings.push(BindingConfig {
        key: NumpadKeyConfig::Num8,
        action: InputActionConfig::Click,
    });

    assert!(validate_profile_bindings("Normal", &bindings).is_err());
    assert_eq!(
        validate_profile_bindings("Normal", &bindings),
        Err(ConfigError::DuplicateBinding { profile: "Normal".to_owned(), key: NumpadKeyConfig::Num8 })
    );
    assert_eq!(validate_profile_bindings("Normal", &BindingConfig::defaults()), Ok(()));
}

#[test]
fn profile_bindings_convert_to_core_bindings() {
    let config = default_settings();
    let active = config
        .profiles
        .iter()
        .find(|profile| profile.name == config.active_profile)
        .expect("default profile exists");
    let bindings = bindings_from_configs(&active.bindings);

    assert_eq!(
        bindings.action_for(NumpadKey::Num8),
        Some(InputAction::Move(Direction::Up))
    );
    assert_eq!(bindings.action_for(NumpadKey::Num5), Some(InputAction::Click));
}

#[test]
fn set_binding_keeps_bindings_sorted_by_key() {
    let mut bindings = vec![
        BindingConfig { key: NumpadKeyConfig::Subtract, action: InputActionConfig::Click },
        BindingConfig { key: NumpadKeyConfig::Num2, action: InputActionConfig::Hold },
    ];
    assert!(set_profile_binding(
        &mut bindings,
        NumpadKeyConfig::Num0,
        Some(InputActionConfig::SelectButton(MouseButtonConfig::Right)),
    ));
    assert_eq!(
        bindings.iter().map(|b| b.key).collect::<Vec<_>>(),
        vec![NumpadKeyConfig::Num0, NumpadKeyConfig::Num2, NumpadKeyConfig::Subtract]
    );
    assert!(!set_profile_binding(&mut bindings, NumpadKeyConfig::Num2, Some(InputActionConfig::Hold)));
}

#[test]
fn later_stored_binding_wins_and_first_duplicate_is_reported() {
    let configs = [
        BindingConfig { key: NumpadKeyConfig::Num1, action: InputActionConfig::Click },
        BindingConfig { key: NumpadKeyConfig::Num2, action: InputActionConfig::Hold },
        BindingConfig { key: NumpadKeyConfig::Num1, action: InputActionConfig::Release },
        BindingConfig { key: NumpadKeyConfig::Num2, action: InputActionConfig::Click },
    ];
    let table = bindings_from_configs(&configs);
    assert_eq!(table.action_for(NumpadKey::Num1), Some(InputAction::Release));
    assert_eq!(table.action_for(NumpadKey::Num3), None);
    assert_eq!(first_duplicate_key(&configs), Some(NumpadKeyConfig::Num1));
    assert_eq!(first_duplicate_key(&configs[..2]), None);
}

#[test]
fn choice_labels_and_positions() {
    assert_eq!(action_label(None), "Unbound");
    assert_eq!(action_label(Some(InputActionConfig::Hold)), "Hold / drag");
    assert_eq!(action_label(Some(InputActionConfig::SetEnabled(false))), "Disable NumFlow");
    assert_eq!(choice_index(Some(InputActionConfig::ToggleEnabled)), 0);
    assert_eq!(choice_index(Some(InputActionConfig::SetPrecision(false))), 17);
    assert_eq!(key_index(NumpadKeyConfig::Num0), 10);
    assert_eq!(key_from_index(15), None);
}

#[test]
fn stored_and_core_forms_convert_both_ways() {
    for key in BINDING_KEYS {
        assert_eq!(NumpadKeyConfig::from_key(key.to_key()), key);
    }
    let action = InputActionConfig::SelectButton(MouseButtonConfig::Middle);
    assert_eq!(InputActionConfig::from_action(action.to_action()), action);
    assert_eq!(
        InputActionConfig::Move(DirectionConfig::DownLeft).to_action(),
        InputAction::Move(Direction::DownLeft)
    );
}
