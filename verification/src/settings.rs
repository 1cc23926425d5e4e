//! The settings the user edits: named profiles with their button, precision and bindings, the
//! interface preferences, and the active profile. Motion tuning of a profile is kept by the
//! caller beside these.

use vstd::prelude::*;

use crate::action::{CoreEffect, InputAction, MouseButton};
use crate::bindings::{
    Bindings, NUMPAD_KEY_COUNT, NumpadKey, key_at, key_from_slot, lemma_key_index_bijective, lookup,
};
use crate::bindings_ui::{
    action_label, action_label_of, choice_from_index, choice_index, choice_position, edited,
    key_from_index, key_index, listed_choice, listed_key, listed_position, profile_action,
    reset_profile_bindings, set_profile_binding, sorted_by_key, stored_action,
};
use crate::config::{
    BindingConfig, CONFIG_SCHEMA_VERSION, ConfigError, InputActionConfig, MouseButtonConfig,
    NumpadKeyConfig, lemma_config_forms_round_trip,
    bindings_from_configs, button_config_of, button_of, default_binding_at, repeats_earlier_key,
    table_of, validate_profile_bindings,
};
use crate::desktop::str_equal;
use crate::runtime::{RuntimeSetup, RuntimeStateSnapshot, resync_controller, snapshot_changes_profile};
use crate::state::{
    ControllerState, ControllerView, apply_step, controller_invariant, initial_controller, shutdown_step,
};

verus! {

/// A profile as the specifications see it.
pub struct ProfileView {
    pub name: Seq<char>,
    pub precision_enabled: bool,
    pub selected_button: MouseButtonConfig,
    pub bindings: Seq<BindingConfig>,
}

/// A named profile: its precision mode, selected button and stored bindings.
#[derive(Debug, Clone, PartialEq, Eq)]
pub struct ProfileSettings {
    pub name: String,
    pub precision_enabled: bool,
    pub selected_button: MouseButtonConfig,
    pub bindings: Vec<BindingConfig>,
}

impl View for ProfileSettings {
    type V = ProfileView;

    open spec fn view(&self) -> ProfileView {
        ProfileView {
            name: self.name@,
            precision_enabled: self.precision_enabled,
            selected_button: self.selected_button,
            bindings: self.bindings@,
        }
    }
}

/// The stored settings as the specifications see them.
pub struct SettingsView {
    pub schema_version: u32,
    pub active_profile: Seq<char>,
    pub hud_enabled: bool,
    pub start_minimized: bool,
    pub start_with_windows: bool,
    pub profiles: Seq<ProfileView>,
}

/// The stored settings: format version, active profile name, interface preferences and the
/// profiles, in name order.
#[derive(Debug, Clone, PartialEq, Eq)]
pub struct SettingsConfig {
    pub schema_version: u32,
    pub active_profile: String,
    pub hud_enabled: bool,
    pub start_minimized: bool,
    pub start_with_windows: bool,
    pub profiles: Vec<ProfileSettings>,
}

/// The views of a list of profiles.
pub open spec fn profile_views(profiles: Seq<ProfileSettings>) -> Seq<ProfileView> {
    profiles.map_values(|profile: ProfileSettings| profile@)
}

impl View for SettingsConfig {
    type V = SettingsView;

    open spec fn view(&self) -> SettingsView {
        SettingsView {
            schema_version: self.schema_version,
            active_profile: self.active_profile@,
            hud_enabled: self.hud_enabled,
            start_minimized: self.start_minimized,
            start_with_windows: self.start_with_windows,
            profiles: profile_views(self.profiles@),
        }
    }
}

proof fn lemma_profile_view_at(profiles: Seq<ProfileSettings>, i: int)
    requires
        0 <= i < profiles.len(),
    ensures
        profile_views(profiles).len() == profiles.len(),
        profile_views(profiles)[i] == profiles[i]@,
{
}

/// Whether `index` is the first profile with the given name.
pub open spec fn names_profile(profiles: Seq<ProfileView>, name: Seq<char>, index: int) -> bool {
    &&& 0 <= index < profiles.len()
    &&& profiles[index].name == name
    &&& forall|j: int| 0 <= j < index ==> #[trigger] profiles[j].name != name
}

/// Whether some profile has the given name.
pub open spec fn has_profile(profiles: Seq<ProfileView>, name: Seq<char>) -> bool {
    exists|i: int| 0 <= i < profiles.len() && #[trigger] profiles[i].name == name
}

/// Whether a profile binds some key twice.
pub open spec fn has_duplicate_binding(profile: ProfileView) -> bool {
    exists|j: int| 0 <= j < profile.bindings.len() && repeats_earlier_key(profile.bindings, j)
}

/// Whether `i` is the first profile, in list order, that binds some key twice.
pub open spec fn first_duplicate_profile(profiles: Seq<ProfileView>, i: int) -> bool {
    &&& 0 <= i < profiles.len()
    &&& has_duplicate_binding(profiles[i])
    &&& forall|k: int| 0 <= k < i ==> !has_duplicate_binding(#[trigger] profiles[k])
}

/// Whether an error reports a key that a profile binds twice, with the profile's name.
pub open spec fn reports_duplicate(error: ConfigError, profile: ProfileView) -> bool {
    error matches ConfigError::DuplicateBinding { profile: name, key } && name@ == profile.name
        && exists|j: int|
        0 <= j < profile.bindings.len() && repeats_earlier_key(profile.bindings, j)
            && profile.bindings[j].key == key
}

/// Returns the position of the first profile with the given name, if any.
pub fn find_profile(profiles: &Vec<ProfileSettings>, name: &str) -> (index: Option<usize>)
    ensures
        index matches Some(i) ==> names_profile(profile_views(profiles@), name@, i as int),
        index is None <==> !has_profile(profile_views(profiles@), name@),
{
    let ghost views = profile_views(profiles@);
    let mut i: usize = 0;
    while i < profiles.len()
        invariant
            i <= profiles@.len(),
            views == profile_views(profiles@),
            forall|j: int| 0 <= j < i ==> #[trigger] views[j].name != name@,
        decreases profiles@.len() - i,
    {
        proof {
            lemma_profile_view_at(profiles@, i as int);
        }
        if str_equal(profiles[i].name.as_str(), name) {
            assert(views[i as int].name == name@);
            return Some(i);
        }
        i = i + 1;
    }
    None
}

/// Copies a profile.
pub fn copy_profile(profile: &ProfileSettings) -> (copy: ProfileSettings)
    ensures
        copy@ == profile@,
{
    let mut bindings: Vec<BindingConfig> = Vec::new();
    let mut i: usize = 0;
    while i < profile.bindings.len()
        invariant
            i <= profile.bindings@.len(),
            bindings@ == profile.bindings@.take(i as int),
        decreases profile.bindings@.len() - i,
    {
        bindings.push(profile.bindings[i]);
        i = i + 1;
    }
    assert(bindings@ =~= profile.bindings@);
    ProfileSettings {
        name: profile.name.as_str().to_string(),
        precision_enabled: profile.precision_enabled,
        selected_button: profile.selected_button,
        bindings,
    }
}

/// Copies settings.
pub fn copy_settings(config: &SettingsConfig) -> (copy: SettingsConfig)
    ensures
        copy@ == config@,
{
    let mut profiles: Vec<ProfileSettings> = Vec::new();
    let mut i: usize = 0;
    while i < config.profiles.len()
        invariant
            i <= config.profiles@.len(),
            profiles@.len() == i,
            profile_views(profiles@) == profile_views(config.profiles@).take(i as int),
        decreases config.profiles@.len() - i,
    {
        let profile = copy_profile(&config.profiles[i]);
        let ghost before = profiles@;
        profiles.push(profile);
        proof {
            lemma_profile_view_at(config.profiles@, i as int);
            assert(profiles@ == before.push(profile));
            assert forall|k: int| 0 <= k <= i implies #[trigger] profile_views(profiles@)[k]
                == profile_views(config.profiles@)[k] by {
                lemma_profile_view_at(profiles@, k);
                lemma_profile_view_at(config.profiles@, k);
                if k < i {
                    lemma_profile_view_at(before, k);
                    assert(profile_views(before)[k] == profile_views(config.profiles@).take(i as int)[k]);
                }
            }
        }
        assert(profile_views(profiles@) =~= profile_views(config.profiles@).take(i as int + 1));
        i = i + 1;
    }
    assert(profile_views(profiles@) =~= profile_views(config.profiles@));
    SettingsConfig {
        schema_version: config.schema_version,
        active_profile: config.active_profile.as_str().to_string(),
        hud_enabled: config.hud_enabled,
        start_minimized: config.start_minimized,
        start_with_windows: config.start_with_windows,
        profiles,
    }
}

/// Whether one name sorts before another: compared character by character by code point, a
/// proper prefix first. This is the order of text keys in an ordered map.
pub open spec fn name_less(a: Seq<char>, b: Seq<char>) -> bool
    decreases a.len(),
{
    if b.len() == 0 {
        false
    } else if a.len() == 0 {
        true
    } else if a[0] != b[0] {
        (a[0] as u32) < (b[0] as u32)
    } else {
        name_less(a.drop_first(), b.drop_first())
    }
}

/// Whether profiles are listed in name order, each name once, as an ordered map keyed by name
/// holds them.
pub open spec fn in_name_order(profiles: Seq<ProfileView>) -> bool {
    forall|i: int, j: int|
        0 <= i < j < profiles.len() ==> name_less(#[trigger] profiles[i].name, #[trigger] profiles[j].name)
}

/// No name sorts before itself.
pub proof fn lemma_name_less_irreflexive(a: Seq<char>)
    ensures
        !name_less(a, a),
    decreases a.len(),
{
    if a.len() > 0 {
        lemma_name_less_irreflexive(a.drop_first());
    }
}

/// Profiles in name order have distinct names, so a name finds at most one profile.
pub proof fn lemma_name_order_names_once(profiles: Seq<ProfileView>, i: int, j: int)
    requires
        in_name_order(profiles),
        0 <= i < profiles.len(),
        0 <= j < profiles.len(),
        i != j,
    ensures
        profiles[i].name != profiles[j].name,
{
    lemma_name_less_irreflexive(profiles[i].name);
    lemma_name_less_irreflexive(profiles[j].name);
}

/// Returns whether one name sorts before another, as `name_less` says.
pub fn str_less(a: &str, b: &str) -> (less: bool)
    ensures
        less == name_less(a@, b@),
{
    let n = a.unicode_len();
    let m = b.unicode_len();
    let mut i: usize = 0;
    assert(a@.skip(0) =~= a@);
    assert(b@.skip(0) =~= b@);
    while i < n && i < m
        invariant
            n == a@.len(),
            m == b@.len(),
            i <= n,
            i <= m,
            name_less(a@, b@) == name_less(a@.skip(i as int), b@.skip(i as int)),
        decreases n - i,
    {
        let x = a.get_char(i);
        let y = b.get_char(i);
        assert(a@.skip(i as int)[0] == x);
        assert(b@.skip(i as int)[0] == y);
        if x != y {
            return (x as u32) < (y as u32);
        }
        assert(a@.skip(i as int).drop_first() =~= a@.skip(i as int + 1));
        assert(b@.skip(i as int).drop_first() =~= b@.skip(i as int + 1));
        i = i + 1;
    }
    let ghost rest_a = a@.skip(i as int);
    let ghost rest_b = b@.skip(i as int);
    assert(rest_a.len() == n - i);
    assert(rest_b.len() == m - i);
    assert(name_less(rest_a, rest_b) == (rest_b.len() > 0 && rest_a.len() == 0));
    i < m
}

/// Returns whether profiles are listed in name order, each name once, as `in_name_order`
/// says.
pub fn profiles_in_name_order(profiles: &Vec<ProfileSettings>) -> (ordered: bool)
    ensures
        ordered == in_name_order(profile_views(profiles@)),
{
    let ghost views = profile_views(profiles@);
    let mut j: usize = 0;
    while j < profiles.len()
        invariant
            j <= profiles@.len(),
            views == profile_views(profiles@),
            forall|a: int, b: int| 0 <= a < b < j ==> name_less(#[trigger] views[a].name, #[trigger] views[b].name),
        decreases profiles@.len() - j,
    {
        let mut i: usize = 0;
        while i < j
            invariant
                i <= j,
                j < profiles@.len(),
                views == profile_views(profiles@),
                forall|a: int, b: int| 0 <= a < b < j ==> name_less(#[trigger] views[a].name, #[trigger] views[b].name),
                forall|a: int| 0 <= a < i ==> name_less(#[trigger] views[a].name, views[j as int].name),
            decreases j - i,
        {
            proof {
                lemma_profile_view_at(profiles@, i as int);
                lemma_profile_view_at(profiles@, j as int);
            }
            if !str_less(profiles[i].name.as_str(), profiles[j].name.as_str()) {
                assert(!name_less(views[i as int].name, views[j as int].name));
                return false;
            }
            i = i + 1;
        }
        assert forall|a: int, b: int| 0 <= a < b < j + 1 implies name_less(
            #[trigger] views[a].name,
            #[trigger] views[b].name,
        ) by {
            if b == j {
                assert(name_less(views[a].name, views[j as int].name));
            }
        }
        j = j + 1;
    }
    true
}

/// Checks stored settings: the format version is the current one, the active profile exists,
/// and no profile binds a key twice, in that order; profiles are listed, and checked, in name
/// order.
pub fn validate_settings(config: &SettingsConfig) -> (result: Result<(), ConfigError>)
    requires
        in_name_order(config@.profiles),
    ensures
        config.schema_version != CONFIG_SCHEMA_VERSION ==> result == Err::<(), ConfigError>(
            ConfigError::UnsupportedSchema {
                found: config.schema_version,
                expected: CONFIG_SCHEMA_VERSION,
            },
        ),
        config.schema_version == CONFIG_SCHEMA_VERSION && !has_profile(
            config@.profiles,
            config@.active_profile,
        ) ==> (result matches Err(ConfigError::MissingActiveProfile(name)) && name@
            == config@.active_profile),
        config.schema_version == CONFIG_SCHEMA_VERSION && has_profile(
            config@.profiles,
            config@.active_profile,
        ) ==> {
            &&& result is Ok <==> forall|i: int|
                0 <= i < config@.profiles.len() ==> !has_duplicate_binding(
                    #[trigger] config@.profiles[i],
                )
            &&& result matches Err(error) ==> exists|i: int|
                first_duplicate_profile(config@.profiles, i) && reports_duplicate(
                    error,
                    config@.profiles[i],
                )
        },
{
    if config.schema_version != CONFIG_SCHEMA_VERSION {
        return Err(
            ConfigError::UnsupportedSchema {
                found: config.schema_version,
                expected: CONFIG_SCHEMA_VERSION,
            },
        );
    }
    if find_profile(&config.profiles, config.active_profile.as_str()).is_none() {
        return Err(ConfigError::MissingActiveProfile(config.active_profile.as_str().to_string()));
    }
    let ghost views = config@.profiles;
    let mut i: usize = 0;
    while i < config.profiles.len()
        invariant
            i <= config.profiles@.len(),
            views == profile_views(config.profiles@),
            config.schema_version == CONFIG_SCHEMA_VERSION,
            has_profile(views, config@.active_profile),
            forall|k: int| 0 <= k < i ==> !has_duplicate_binding(#[trigger] views[k]),
        decreases config.profiles@.len() - i,
    {
        let profile = &config.profiles[i];
        proof {
            lemma_profile_view_at(config.profiles@, i as int);
        }
        let checked = validate_profile_bindings(profile.name.as_str(), profile.bindings.as_slice());
        if checked.is_err() {
            assert(views[i as int].bindings == profile.bindings@);
            assert(!forall|j: int|
                0 <= j < profile.bindings@.len() ==> !repeats_earlier_key(profile.bindings@, j));
            assert(has_duplicate_binding(views[i as int]));
            assert(first_duplicate_profile(views, i as int));
            assert(views[i as int].name == profile.name@);
            assert(checked matches Err(error) && reports_duplicate(error, views[i as int]));
            return checked;
        }
        i = i + 1;
    }
    Ok(())
}

/// Makes the named profile the active one; settings without such a profile are left as they
/// are and the name is reported missing.
pub fn set_active_profile(config: &mut SettingsConfig, name: &str) -> (result: Result<
    (),
    ConfigError,
>)
    ensures
        result is Ok <==> has_profile(old(config)@.profiles, name@),
        result matches Err(error) ==> error matches ConfigError::MissingActiveProfile(missing)
            && missing@ == name@,
        result is Err ==> final(config)@ == old(config)@,
        result is Ok ==> final(config)@ == (SettingsView {
            active_profile: name@,
            ..old(config)@
        }),
{
    if find_profile(&config.profiles, name).is_none() {
        return Err(ConfigError::MissingActiveProfile(name.to_string()));
    }
    config.active_profile = name.to_string();
    Ok(())
}

/// The default stored bindings, in key order.
pub open spec fn default_binding_list() -> Seq<BindingConfig> {
    Seq::new(NUMPAD_KEY_COUNT as nat, |i: int| default_binding_at(i))
}

/// A built-in profile: left button, default bindings.
pub open spec fn builtin_profile(name: Seq<char>, precision_enabled: bool) -> ProfileView {
    ProfileView {
        name,
        precision_enabled,
        selected_button: MouseButtonConfig::Left,
        bindings: default_binding_list(),
    }
}

/// The default settings: the current format, the HUD on, neither start preference set, and
/// the built-in profiles Fast, Normal (active) and Precision (precision on), in name order.
pub open spec fn default_settings_view() -> SettingsView {
    SettingsView {
        schema_version: CONFIG_SCHEMA_VERSION,
        active_profile: "Normal"@,
        hud_enabled: true,
        start_minimized: false,
        start_with_windows: false,
        profiles: seq![
            builtin_profile("Fast"@, false),
            builtin_profile("Normal"@, false),
            builtin_profile("Precision"@, true),
        ],
    }
}

fn builtin_profile_settings(name: &str, precision_enabled: bool) -> (profile: ProfileSettings)
    ensures
        profile@ == builtin_profile(name@, precision_enabled),
{
    let bindings = BindingConfig::defaults();
    assert(bindings@ =~= default_binding_list());
    ProfileSettings {
        name: name.to_string(),
        precision_enabled,
        selected_button: MouseButtonConfig::Left,
        bindings,
    }
}

/// Returns the default settings, as `default_settings_view` says.
pub fn default_settings() -> (config: SettingsConfig)
    ensures
        config@ == default_settings_view(),
{
    let mut profiles: Vec<ProfileSettings> = Vec::new();
    profiles.push(builtin_profile_settings("Fast", false));
    profiles.push(builtin_profile_settings("Normal", false));
    profiles.push(builtin_profile_settings("Precision", true));
    let config = SettingsConfig {
        schema_version: CONFIG_SCHEMA_VERSION,
        active_profile: "Normal".to_string(),
        hud_enabled: true,
        start_minimized: false,
        start_with_windows: false,
        profiles,
    };
    proof {
        lemma_profile_view_at(config.profiles@, 0);
        lemma_profile_view_at(config.profiles@, 1);
        lemma_profile_view_at(config.profiles@, 2);
        assert(config@.profiles =~= default_settings_view().profiles);
    }
    config
}

/// The default settings are valid, their profiles are listed in name order, and their active
/// profile is the second, Normal.
pub proof fn lemma_default_settings_are_valid()
    ensures
        in_name_order(default_settings_view().profiles),
        names_profile(default_settings_view().profiles, "Normal"@, 1),
        forall|i: int|
            0 <= i < default_settings_view().profiles.len() ==> !has_duplicate_binding(
                #[trigger] default_settings_view().profiles[i],
            ),
{
    reveal_strlit("Fast");
    reveal_strlit("Normal");
    reveal_strlit("Precision");
    assert("Fast"@ != "Normal"@) by {
        assert("Fast"@[0] != "Normal"@[0]);
    }
    assert(name_less("Fast"@, "Normal"@));
    assert(name_less("Fast"@, "Precision"@));
    assert(name_less("Normal"@, "Precision"@));
    assert forall|i: int| 0 <= i < default_settings_view().profiles.len() implies !has_duplicate_binding(
        #[trigger] default_settings_view().profiles[i],
    ) by {
        let bindings = default_binding_list();
        assert forall|j: int| 0 <= j < bindings.len() implies !repeats_earlier_key(bindings, j) by {
            assert forall|k: int| 0 <= k < j implies bindings[k].key != bindings[j].key by {
                lemma_key_index_bijective(key_at(k), k);
                lemma_key_index_bijective(key_at(j), j);
                lemma_config_forms_round_trip(key_at(k), bindings[k].key, InputAction::Click, InputActionConfig::Click);
                lemma_config_forms_round_trip(key_at(j), bindings[j].key, InputAction::Click, InputActionConfig::Click);
            }
        }
    }
}

/// The controller state and effects after a profile's button and precision are applied.
pub open spec fn apply_profile(controller: ControllerView, profile: ProfileView) -> (
    ControllerView,
    Seq<CoreEffect>,
) {
    let (selected, select_effects) = apply_step(
        controller,
        InputAction::SelectButton(button_of(profile.selected_button)),
    );
    let (tuned, precision_effects) = apply_step(
        selected,
        InputAction::SetPrecision(profile.precision_enabled),
    );
    (tuned, select_effects + precision_effects)
}

/// Applying a profile, as switching profiles and restoring the defaults do, keeps whether
/// control is on and the button being held: a drag survives it.
pub proof fn lemma_applying_a_profile_keeps_control_and_drag(
    controller: ControllerView,
    profile: ProfileView,
)
    requires
        controller_invariant(controller),
    ensures
        apply_profile(controller, profile).0.enabled == controller.enabled,
        apply_profile(controller, profile).0.held_button == controller.held_button,
        apply_profile(controller, profile).0.selected_button == button_of(profile.selected_button),
        apply_profile(controller, profile).0.precision == profile.precision_enabled,
{
}

fn apply_profile_to(controller: &mut ControllerState, profile: &ProfileSettings) -> (effects: Vec<
    CoreEffect,
>)
    ensures
        (final(controller)@, effects@) == apply_profile(old(controller)@, profile@),
{
    let mut effects = controller.apply(InputAction::SelectButton(profile.selected_button.to_button()));
    let mut more = controller.apply(InputAction::SetPrecision(profile.precision_enabled));
    effects.append(&mut more);
    effects
}

/// Settings with the profile at `index` replaced.
pub open spec fn with_profile(settings: SettingsView, index: int, profile: ProfileView) -> SettingsView {
    SettingsView { profiles: settings.profiles.update(index, profile), ..settings }
}

/// Editing a profile changes that profile alone: every other profile, the active name and
/// the preferences stay as they were, so a binding edited in one profile never shows up in
/// another.
pub proof fn lemma_edits_touch_only_their_profile(
    settings: SettingsView,
    index: int,
    profile: ProfileView,
    other: int,
)
    requires
        0 <= index < settings.profiles.len(),
        0 <= other < settings.profiles.len(),
        other != index,
    ensures
        with_profile(settings, index, profile).profiles[other] == settings.profiles[other],
        with_profile(settings, index, profile).profiles[index] == profile,
        with_profile(settings, index, profile).profiles.len() == settings.profiles.len(),
        with_profile(settings, index, profile).active_profile == settings.active_profile,
        with_profile(settings, index, profile).hud_enabled == settings.hud_enabled,
        with_profile(settings, index, profile).start_minimized == settings.start_minimized,
        with_profile(settings, index, profile).start_with_windows == settings.start_with_windows,
{
}

proof fn lemma_replace_profile(profiles: Seq<ProfileSettings>, i: int, profile: ProfileSettings)
    requires
        0 <= i < profiles.len(),
    ensures
        profile_views(profiles.remove(i).insert(i, profile)) == profile_views(profiles).update(
            i,
            profile@,
        ),
{
    let replaced = profiles.remove(i).insert(i, profile);
    assert(replaced =~= profiles.update(i, profile));
    assert(profile_views(replaced) =~= profile_views(profiles).update(i, profile@));
}

/// How many of the keys below position `n` a table binds.
pub open spec fn bound_keys_below(table: Map<NumpadKey, InputAction>, n: int) -> nat
    decreases n,
{
    if n <= 0 {
        0
    } else {
        bound_keys_below(table, n - 1) + if table.dom().contains(key_at(n - 1)) {
            1nat
        } else {
            0nat
        }
    }
}

/// The state behind the settings window: the interface's copy of the controller, the
/// settings, the bindings of the active profile, and the key selected in the binding editor.
pub struct UiSettings {
    controller: ControllerState,
    bindings: Bindings,
    config: SettingsConfig,
    active: usize,
    selected_binding_key: NumpadKeyConfig,
}

impl UiSettings {
    /// The interface's controller.
    pub closed spec fn control(&self) -> ControllerView {
        self.controller@
    }

    /// The binding table in force.
    pub closed spec fn table(&self) -> Map<NumpadKey, InputAction> {
        self.bindings@
    }

    /// The settings.
    pub closed spec fn settings(&self) -> SettingsView {
        self.config@
    }

    /// The position of the active profile.
    pub closed spec fn active_index(&self) -> int {
        self.active as int
    }

    /// The key selected in the binding editor.
    pub closed spec fn selected_key(&self) -> NumpadKeyConfig {
        self.selected_binding_key
    }

    /// The active profile.
    pub open spec fn active_profile(&self) -> ProfileView {
        self.settings().profiles[self.active_index()]
    }

    /// The active profile is the first one with the active name, and the binding table is
    /// the one its stored bindings describe.
    pub open spec fn wf(&self) -> bool {
        &&& names_profile(self.settings().profiles, self.settings().active_profile, self.active_index())
        &&& self.table() == table_of(self.active_profile().bindings)
    }

    /// Everything but the controller is as in `other`.
    pub open spec fn keeps_all_but_controller(&self, other: &Self) -> bool {
        &&& self.settings() == other.settings()
        &&& self.table() == other.table()
        &&& self.active_index() == other.active_index()
        &&& self.selected_key() == other.selected_key()
    }

    /// Everything is as in `other`.
    pub open spec fn same_as(&self, other: &Self) -> bool {
        self.keeps_all_but_controller(other) && self.control() == other.control()
    }

    /// The state for stored settings: the active profile's button and precision applied to a
    /// fresh controller, its bindings in force, and 8 selected in the binding editor. The
    /// settings must name an existing profile as active.
    pub fn from_config(config: SettingsConfig) -> (settings: Self)
        requires
            has_profile(config@.profiles, config@.active_profile),
        ensures
            settings.wf(),
            settings.settings() == config@,
            settings.control() == apply_profile(initial_controller(), settings.active_profile()).0,
            settings.selected_key() == NumpadKeyConfig::Num8,
    {
        let active = match find_profile(&config.profiles, config.active_profile.as_str()) {
            Some(index) => index,
            None => 0,
        };
        let mut controller = ControllerState::default();
        let _ = apply_profile_to(&mut controller, &config.profiles[active]);
        let bindings = bindings_from_configs(config.profiles[active].bindings.as_slice());
        proof {
            lemma_profile_view_at(config.profiles@, active as int);
        }
        UiSettings {
            controller,
            bindings,
            config,
            active,
            selected_binding_key: NumpadKeyConfig::Num8,
        }
    }

    /// The interface's controller.
    pub fn controller(&self) -> (controller: &ControllerState)
        ensures
            controller@ == self.control(),
    {
        &self.controller
    }

    /// The binding table in force.
    pub fn bindings(&self) -> (bindings: &Bindings)
        ensures
            bindings@ == self.table(),
    {
        &self.bindings
    }

    /// Whether pointer control is on.
    pub fn enabled(&self) -> (enabled: bool)
        ensures
            enabled == self.control().enabled,
    {
        self.controller.is_enabled()
    }

    /// Applies an action to the interface's controller.
    pub fn apply(&mut self, action: InputAction) -> (effects: Vec<CoreEffect>)
        ensures
            (final(self).control(), effects@) == apply_step(old(self).control(), action),
            final(self).keeps_all_but_controller(&*old(self)),
    {
        self.controller.apply(action)
    }

    /// Turns pointer control on or off.
    pub fn set_enabled(&mut self, enabled: bool) -> (effects: Vec<CoreEffect>)
        ensures
            (final(self).control(), effects@) == apply_step(
                old(self).control(),
                InputAction::SetEnabled(enabled),
            ),
            final(self).keeps_all_but_controller(&*old(self)),
    {
        self.controller.apply(InputAction::SetEnabled(enabled))
    }

    /// Shuts the interface's controller down.
    pub fn shutdown(&mut self) -> (effects: Vec<CoreEffect>)
        ensures
            (final(self).control(), effects@) == shutdown_step(old(self).control()),
            final(self).keeps_all_but_controller(&*old(self)),
    {
        self.controller.shutdown()
    }

    /// Selects a button and stores it in the active profile.
    pub fn set_mouse_button(&mut self, button: MouseButton) -> (effects: Vec<CoreEffect>)
        requires
            old(self).wf(),
        ensures
            final(self).wf(),
            (final(self).control(), effects@) == apply_step(
                old(self).control(),
                InputAction::SelectButton(button),
            ),
            final(self).settings() == with_profile(
                old(self).settings(),
                old(self).active_index(),
                ProfileView { selected_button: button_config_of(button), ..old(self).active_profile() },
            ),
            final(self).table() == old(self).table(),
            final(self).active_index() == old(self).active_index(),
            final(self).selected_key() == old(self).selected_key(),
    {
        proof {
            lemma_profile_view_at(self.config.profiles@, self.active as int);
        }
        let mut profile = self.config.profiles.remove(self.active);
        profile.selected_button = MouseButtonConfig::from_button(button);
        proof {
            lemma_replace_profile(old(self).config.profiles@, self.active as int, profile);
        }
        self.config.profiles.insert(self.active, profile);
        self.controller.apply(InputAction::SelectButton(button))
    }

    /// Turns precision mode on or off and stores it in the active profile.
    pub fn set_precision(&mut self, enabled: bool) -> (effects: Vec<CoreEffect>)
        requires
            old(self).wf(),
        ensures
            final(self).wf(),
            (final(self).control(), effects@) == apply_step(
                old(self).control(),
                InputAction::SetPrecision(enabled),
            ),
            final(self).settings() == with_profile(
                old(self).settings(),
                old(self).active_index(),
                ProfileView { precision_enabled: enabled, ..old(self).active_profile() },
            ),
            final(self).table() == old(self).table(),
            final(self).active_index() == old(self).active_index(),
            final(self).selected_key() == old(self).selected_key(),
    {
        proof {
            lemma_profile_view_at(self.config.profiles@, self.active as int);
        }
        let mut profile = self.config.profiles.remove(self.active);
        profile.precision_enabled = enabled;
        proof {
            lemma_replace_profile(old(self).config.profiles@, self.active as int, profile);
        }
        self.config.profiles.insert(self.active, profile);
        self.controller.apply(InputAction::SetPrecision(enabled))
    }
    /// Turns the on-screen feedback on or off.
    pub fn set_hud_enabled(&mut self, enabled: bool)
        ensures
            final(self).settings() == (SettingsView { hud_enabled: enabled, ..old(self).settings() }),
            final(self).control() == old(self).control(),
            final(self).table() == old(self).table(),
            final(self).active_index() == old(self).active_index(),
            final(self).selected_key() == old(self).selected_key(),
    {
        self.config.hud_enabled = enabled;
    }

    /// Whether the on-screen feedback is on.
    pub fn hud_enabled(&self) -> (enabled: bool)
        ensures
            enabled == self.settings().hud_enabled,
    {
        self.config.hud_enabled
    }

    /// Sets whether the window starts minimized.
    pub fn set_start_minimized(&mut self, enabled: bool)
        ensures
            final(self).settings() == (SettingsView { start_minimized: enabled, ..old(self).settings() }),
            final(self).control() == old(self).control(),
            final(self).table() == old(self).table(),
            final(self).active_index() == old(self).active_index(),
            final(self).selected_key() == old(self).selected_key(),
    {
        self.config.start_minimized = enabled;
    }

    /// Whether the window starts minimized.
    pub fn start_minimized(&self) -> (enabled: bool)
        ensures
            enabled == self.settings().start_minimized,
    {
        self.config.start_minimized
    }

    /// Sets whether the program starts with the session.
    pub fn set_start_with_windows(&mut self, enabled: bool)
        ensures
            final(self).settings() == (SettingsView {
                start_with_windows: enabled,
                ..old(self).settings()
            }),
            final(self).control() == old(self).control(),
            final(self).table() == old(self).table(),
            final(self).active_index() == old(self).active_index(),
            final(self).selected_key() == old(self).selected_key(),
    {
        self.config.start_with_windows = enabled;
    }

    /// Takes the outcome of changing the startup registration as the user asked: the
    /// preference follows the request only when the registration was changed; otherwise it
    /// stays as it was, so the preference keeps telling what is registered. Returns whether
    /// the request was taken, and the settings are to be stored.
    pub fn follow_startup_registration(&mut self, requested: bool, registered: bool) -> (taken: bool)
        ensures
            taken == registered,
            final(self).settings() == (SettingsView {
                start_with_windows: if registered {
                    requested
                } else {
                    old(self).settings().start_with_windows
                },
                ..old(self).settings()
            }),
            final(self).control() == old(self).control(),
            final(self).table() == old(self).table(),
            final(self).active_index() == old(self).active_index(),
            final(self).selected_key() == old(self).selected_key(),
    {
        if !registered {
            return false;
        }
        self.config.start_with_windows = requested;
        true
    }

    /// Whether the program starts with the session.
    pub fn start_with_windows(&self) -> (enabled: bool)
        ensures
            enabled == self.settings().start_with_windows,
    {
        self.config.start_with_windows
    }

    /// Switches to the named profile: its button and precision are applied and its bindings
    /// take force. An unknown name is reported missing and nothing changes.
    pub fn set_profile(&mut self, profile_name: &str) -> (result: Result<Vec<CoreEffect>, ConfigError>)
        requires
            old(self).wf(),
        ensures
            final(self).wf(),
            result is Ok <==> has_profile(old(self).settings().profiles, profile_name@),
            result matches Err(error) ==> error matches ConfigError::MissingActiveProfile(missing)
                && missing@ == profile_name@,
            result is Err ==> final(self).same_as(&*old(self)),
            result matches Ok(effects) ==> {
                &&& final(self).settings() == (SettingsView {
                    active_profile: profile_name@,
                    ..old(self).settings()
                })
                &&& (final(self).control(), effects@) == apply_profile(
                    old(self).control(),
                    final(self).active_profile(),
                )
                &&& final(self).selected_key() == old(self).selected_key()
            },
    {
        let index = match find_profile(&self.config.profiles, profile_name) {
            Some(index) => index,
            None => {
                return Err(ConfigError::MissingActiveProfile(profile_name.to_string()));
            },
        };
        proof {
            lemma_profile_view_at(self.config.profiles@, index as int);
        }
        self.config.active_profile = profile_name.to_string();
        self.active = index;
        let effects = apply_profile_to(&mut self.controller, &self.config.profiles[index]);
        self.bindings = bindings_from_configs(self.config.profiles[index].bindings.as_slice());
        Ok(effects)
    }

    /// The position of the key selected in the binding editor.
    pub fn selected_binding_key_index(&self) -> (index: i32)
        ensures
            index == listed_position(self.selected_key()),
    {
        key_index(self.selected_binding_key)
    }

    /// The position, in the editor's list of choices, of what the selected key is bound to in
    /// the active profile.
    pub fn selected_binding_action_index(&self) -> (index: i32)
        requires
            self.wf(),
        ensures
            index == choice_position(stored_action(self.active_profile().bindings, self.selected_key())),
    {
        proof {
            lemma_profile_view_at(self.config.profiles@, self.active as int);
        }
        choice_index(profile_action(&self.config.profiles[self.active].bindings, self.selected_binding_key))
    }

    /// Selects the key at a position of the binding editor. Returns whether the selection
    /// changed; a position outside the list changes nothing.
    pub fn select_binding_key_index(&mut self, index: i32) -> (changed: bool)
        ensures
            listed_key(index as int) is None ==> !changed && final(self).same_as(&*old(self)),
            listed_key(index as int) matches Some(key) ==> {
                &&& changed == (key != old(self).selected_key())
                &&& final(self).selected_key() == key
                &&& final(self).control() == old(self).control()
                &&& final(self).settings() == old(self).settings()
                &&& final(self).table() == old(self).table()
                &&& final(self).active_index() == old(self).active_index()
            },
    {
        let key = match key_from_index(index) {
            Some(key) => key,
            None => {
                return false;
            },
        };
        if self.selected_binding_key == key {
            return false;
        }
        self.selected_binding_key = key;
        true
    }

    /// Binds the selected key of the active profile to the choice at a position of the
    /// editor's list, as `set_profile_binding` does. Returns whether the profile changed; a
    /// position outside the list changes nothing.
    pub fn set_binding_choice_index(&mut self, index: i32) -> (changed: bool)
        requires
            old(self).wf(),
        ensures
            final(self).wf(),
            listed_choice(index as int) is None ==> !changed && final(self).same_as(&*old(self)),
            listed_choice(index as int) matches Some(choice) ==> {
                &&& changed == (stored_action(old(self).active_profile().bindings, old(self).selected_key())
                    != choice.action_0_opt())
                &&& final(self).settings() == with_profile(
                    old(self).settings(),
                    old(self).active_index(),
                    ProfileView {
                        bindings: if changed {
                            sorted_by_key(
                                edited(
                                    old(self).active_profile().bindings,
                                    old(self).selected_key(),
                                    choice.action_0_opt(),
                                ),
                            )
                        } else {
                            old(self).active_profile().bindings
                        },
                        ..old(self).active_profile()
                    },
                )
                &&& final(self).control() == old(self).control()
                &&& final(self).active_index() == old(self).active_index()
                &&& final(self).selected_key() == old(self).selected_key()
            },
    {
        let choice = match choice_from_index(index) {
            Some(choice) => choice,
            None => {
                return false;
            },
        };
        proof {
            lemma_profile_view_at(self.config.profiles@, self.active as int);
        }
        let mut profile = self.config.profiles.remove(self.active);
        let changed = set_profile_binding(&mut profile.bindings, self.selected_binding_key, choice.action());
        proof {
            lemma_replace_profile(old(self).config.profiles@, self.active as int, profile);
        }
        self.config.profiles.insert(self.active, profile);
        proof {
            lemma_profile_view_at(self.config.profiles@, self.active as int);
        }
        if changed {
            self.bindings = bindings_from_configs(self.config.profiles[self.active].bindings.as_slice());
        }
        changed
    }

    /// Restores the default bindings of the active profile. Returns whether they changed.
    pub fn reset_active_bindings(&mut self) -> (changed: bool)
        requires
            old(self).wf(),
        ensures
            final(self).wf(),
            final(self).settings() == with_profile(
                old(self).settings(),
                old(self).active_index(),
                ProfileView { bindings: default_binding_list(), ..old(self).active_profile() },
            ),
            changed == (old(self).active_profile().bindings != default_binding_list()),
            final(self).control() == old(self).control(),
            final(self).active_index() == old(self).active_index(),
            final(self).selected_key() == old(self).selected_key(),
    {
        proof {
            lemma_profile_view_at(self.config.profiles@, self.active as int);
        }
        let mut profile = self.config.profiles.remove(self.active);
        let changed = reset_profile_bindings(&mut profile.bindings);
        assert(profile.bindings@ =~= default_binding_list());
        proof {
            lemma_replace_profile(old(self).config.profiles@, self.active as int, profile);
        }
        self.config.profiles.insert(self.active, profile);
        proof {
            lemma_profile_view_at(self.config.profiles@, self.active as int);
        }
        if changed {
            self.bindings = bindings_from_configs(self.config.profiles[self.active].bindings.as_slice());
        }
        changed
    }

    /// The label of what a key is bound to in the active profile.
    pub fn binding_label(&self, key: NumpadKeyConfig) -> (label: &'static str)
        requires
            self.wf(),
        ensures
            label == action_label_of(stored_action(self.active_profile().bindings, key)),
    {
        proof {
            lemma_profile_view_at(self.config.profiles@, self.active as int);
        }
        action_label(profile_action(&self.config.profiles[self.active].bindings, key))
    }

    /// The button held by the interface's controller.
    pub fn held_button(&self) -> (button: Option<MouseButton>)
        ensures
            button == self.control().held_button,
    {
        self.controller.held_button()
    }

    /// The name of the active profile.
    pub fn active_profile_name(&self) -> (name: &str)
        ensures
            name@ == self.settings().active_profile,
    {
        self.config.active_profile.as_str()
    }

    /// How many keys are bound.
    pub fn binding_count(&self) -> (count: usize)
        ensures
            count == bound_keys_below(self.table(), NUMPAD_KEY_COUNT as int),
    {
        let mut count: usize = 0;
        let mut i: usize = 0;
        while i < NUMPAD_KEY_COUNT
            invariant
                i <= NUMPAD_KEY_COUNT,
                count == bound_keys_below(self.table(), i as int),
                count <= i,
            decreases NUMPAD_KEY_COUNT - i,
        {
            if self.bindings.action_for(key_from_slot(i)).is_some() {
                count = count + 1;
            }
            i = i + 1;
        }
        count
    }

    /// A copy of the settings.
    pub fn config_snapshot(&self) -> (config: SettingsConfig)
        ensures
            config@ == self.settings(),
    {
        copy_settings(&self.config)
    }

    /// What the runtime starts from: the bindings in force and the controller's button and
    /// precision.
    pub fn runtime_setup(&self) -> (setup: RuntimeSetup)
        requires
            self.wf(),
        ensures
            setup.bindings@ == self.table(),
            setup.selected_button == self.control().selected_button,
            setup.precision == self.control().precision,
    {
        proof {
            lemma_profile_view_at(self.config.profiles@, self.active as int);
        }
        RuntimeSetup {
            bindings: bindings_from_configs(self.config.profiles[self.active].bindings.as_slice()),
            selected_button: self.controller.selected_button(),
            precision: self.controller.is_precision_enabled(),
        }
    }

    /// Restores the default settings and applies the Normal profile's button and precision;
    /// whether control is on, and a held button, are kept. The binding editor selects 8.
    pub fn reset_defaults(&mut self) -> (effects: Vec<CoreEffect>)
        ensures
            final(self).wf(),
            final(self).settings() == default_settings_view(),
            final(self).active_index() == 1,
            (final(self).control(), effects@) == apply_profile(
                old(self).control(),
                builtin_profile("Normal"@, false),
            ),
            final(self).selected_key() == NumpadKeyConfig::Num8,
    {
        self.config = default_settings();
        self.active = 1;
        proof {
            lemma_default_settings_are_valid();
            lemma_profile_view_at(self.config.profiles@, 1);
        }
        let effects = apply_profile_to(&mut self.controller, &self.config.profiles[1]);
        self.bindings = bindings_from_configs(self.config.profiles[1].bindings.as_slice());
        self.selected_binding_key = NumpadKeyConfig::Num8;
        effects
    }

    /// Takes over the runtime's state after events were coalesced: the active profile stores
    /// the runtime's button and precision, and the controller is rebuilt as
    /// `resync_controller` does. Returns whether the stored profile changed.
    pub fn sync_runtime_state(&mut self, state: RuntimeStateSnapshot) -> (changed: bool)
        requires
            old(self).wf(),
        ensures
            final(self).wf(),
            changed == (old(self).active_profile().selected_button != button_config_of(
                state.selected_button,
            ) || old(self).active_profile().precision_enabled != state.precision),
            final(self).settings() == with_profile(
                old(self).settings(),
                old(self).active_index(),
                ProfileView {
                    selected_button: button_config_of(state.selected_button),
                    precision_enabled: state.precision,
                    ..old(self).active_profile()
                },
            ),
            final(self).control().enabled == state.enabled,
            final(self).control().selected_button == state.selected_button,
            final(self).control().precision == state.precision,
            final(self).control().held_button == (if state.enabled {
                state.held_button
            } else {
                None
            }),
            final(self).table() == old(self).table(),
            final(self).active_index() == old(self).active_index(),
            final(self).selected_key() == old(self).selected_key(),
    {
        proof {
            lemma_profile_view_at(self.config.profiles@, self.active as int);
        }
        let mut profile = self.config.profiles.remove(self.active);
        let changed = snapshot_changes_profile(
            profile.selected_button.to_button(),
            profile.precision_enabled,
            state,
        );
        proof {
            lemma_config_forms_round_trip_buttons(profile.selected_button, state.selected_button);
        }
        profile.selected_button = MouseButtonConfig::from_button(state.selected_button);
        profile.precision_enabled = state.precision;
        proof {
            lemma_replace_profile(old(self).config.profiles@, self.active as int, profile);
        }
        self.config.profiles.insert(self.active, profile);
        resync_controller(&mut self.controller, state);
        changed
    }
}

impl Default for UiSettings {
    /// The state for the default settings.
    fn default() -> (settings: Self)
        ensures
            settings.wf(),
            settings.settings() == default_settings_view(),
            settings.active_index() == 1,
            settings.control() == apply_profile(
                initial_controller(),
                builtin_profile("Normal"@, false),
            ).0,
            settings.selected_key() == NumpadKeyConfig::Num8,
    {
        let config = default_settings();
        proof {
            lemma_default_settings_are_valid();
        }
        let settings = UiSettings::from_config(config);
        proof {
            assert(names_profile(settings.settings().profiles, "Normal"@, settings.active_index()));
            if settings.active_index() != 1 {
                if settings.active_index() < 1 {
                    assert(settings.settings().profiles[settings.active_index()].name != "Normal"@);
                } else {
                    assert(settings.settings().profiles[1].name != "Normal"@);
                }
            }
        }
        settings
    }
}

proof fn lemma_config_forms_round_trip_buttons(config: MouseButtonConfig, button: MouseButton)
    ensures
        (button_of(config) != button) == (config != button_config_of(button)),
{
}

} // verus!
