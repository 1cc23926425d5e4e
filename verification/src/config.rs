//! The stored form of bindings in the configuration file, its conversion to and from the
//! binding table, and the check that a profile binds no key twice.

use vstd::prelude::*;

use crate::action::{Direction, InputAction, MouseButton};
use crate::bindings::{
    Bindings, NUMPAD_KEY_COUNT, NumpadKey, default_action, default_action_for, default_bindings_map,
    is_ordered_listing, key_at, key_from_slot, key_index, lemma_default_listing,
    lemma_key_index_bijective, lookup,
};

verus! {

/// Version of the configuration file format.
pub const CONFIG_SCHEMA_VERSION: u32 = 1;

/// How a configuration was obtained.
#[derive(Debug, Clone, PartialEq, Eq)]
pub enum ConfigLoadStatus {
    Loaded,
    Missing,
    Recovered { reason: String },
}

/// Why a configuration was refused or could not be stored.
#[derive(Debug, Clone, PartialEq, Eq)]
pub enum ConfigError {
    MissingConfigDirectory,
    Read(String),
    Serialize(String),
    Write(String),
    UnsupportedSchema { found: u32, expected: u32 },
    MissingActiveProfile(String),
    DuplicateBinding { profile: String, key: NumpadKeyConfig },
}

/// What reading and checking the stored configuration gave.
#[derive(Debug, Clone, PartialEq, Eq)]
pub enum ConfigSource {
    /// No configuration file exists.
    NotFound,
    /// The file exists but could not be read, for the reason given.
    Unreadable(String),
    /// The file was read but does not parse, for the reason given.
    Unparsable(String),
    /// The file parsed but its settings were refused, for the reason given.
    Invalid(String),
    /// The file parsed and its settings are valid.
    Valid,
}

/// How the configuration is obtained from what was read: the parsed settings are used only
/// when they are valid (`Loaded`); a missing file gives the defaults (`Missing`); a file that
/// does not parse or whose settings are refused gives the defaults with the reason
/// (`Recovered`), so an invalid file never stops the program; only a file that cannot be read
/// is an error.
pub open spec fn config_load_outcome(source: ConfigSource) -> Result<ConfigLoadStatus, ConfigError> {
    match source {
        ConfigSource::NotFound => Ok(ConfigLoadStatus::Missing),
        ConfigSource::Unreadable(reason) => Err(ConfigError::Read(reason)),
        ConfigSource::Unparsable(reason) => Ok(ConfigLoadStatus::Recovered { reason }),
        ConfigSource::Invalid(reason) => Ok(ConfigLoadStatus::Recovered { reason }),
        ConfigSource::Valid => Ok(ConfigLoadStatus::Loaded),
    }
}

/// Decides how the configuration is obtained, as `config_load_outcome` says; the parsed
/// settings are in force exactly when the status is `Loaded`, the defaults otherwise.
pub fn config_load_status(source: ConfigSource) -> (result: Result<ConfigLoadStatus, ConfigError>)
    ensures
        result == config_load_outcome(source),
{
    match source {
        ConfigSource::NotFound => Ok(ConfigLoadStatus::Missing),
        ConfigSource::Unreadable(reason) => Err(ConfigError::Read(reason)),
        ConfigSource::Unparsable(reason) => Ok(ConfigLoadStatus::Recovered { reason }),
        ConfigSource::Invalid(reason) => Ok(ConfigLoadStatus::Recovered { reason }),
        ConfigSource::Valid => Ok(ConfigLoadStatus::Loaded),
    }
}

/// A mouse button as the configuration file names it.
#[derive(Debug, Clone, Copy, PartialEq, Eq, Structural)]
pub enum MouseButtonConfig {
    Left,
    Right,
    Middle,
}

/// A NumPad key as the configuration file names it.
#[derive(Debug, Clone, Copy, PartialEq, Eq, Structural)]
pub enum NumpadKeyConfig {
    Num0,
    Num1,
    Num2,
    Num3,
    Num4,
    Num5,
    Num6,
    Num7,
    Num8,
    Num9,
    Add,
    Decimal,
    Divide,
    Multiply,
    Subtract,
}

/// A direction as the configuration file names it.
#[derive(Debug, Clone, Copy, PartialEq, Eq, Structural)]
pub enum DirectionConfig {
    Up,
    Down,
    Left,
    Right,
    UpLeft,
    UpRight,
    DownLeft,
    DownRight,
}

/// An action as the configuration file names it.
#[derive(Debug, Clone, Copy, PartialEq, Eq, Structural)]
pub enum InputActionConfig {
    Move(DirectionConfig),
    Click,
    DoubleClick,
    Hold,
    Release,
    SelectButton(MouseButtonConfig),
    ToggleEnabled,
    SetEnabled(bool),
    SetPrecision(bool),
}

/// One stored binding.
#[derive(Debug, Clone, Copy, PartialEq, Eq, Structural)]
pub struct BindingConfig {
    pub key: NumpadKeyConfig,
    pub action: InputActionConfig,
}

/// The key a stored key name stands for.
pub open spec fn key_of(key: NumpadKeyConfig) -> NumpadKey {
    match key {
        NumpadKeyConfig::Num0 => NumpadKey::Num0,
        NumpadKeyConfig::Num1 => NumpadKey::Num1,
        NumpadKeyConfig::Num2 => NumpadKey::Num2,
        NumpadKeyConfig::Num3 => NumpadKey::Num3,
        NumpadKeyConfig::Num4 => NumpadKey::Num4,
        NumpadKeyConfig::Num5 => NumpadKey::Num5,
        NumpadKeyConfig::Num6 => NumpadKey::Num6,
        NumpadKeyConfig::Num7 => NumpadKey::Num7,
        NumpadKeyConfig::Num8 => NumpadKey::Num8,
        NumpadKeyConfig::Num9 => NumpadKey::Num9,
        NumpadKeyConfig::Add => NumpadKey::Add,
        NumpadKeyConfig::Decimal => NumpadKey::Decimal,
        NumpadKeyConfig::Divide => NumpadKey::Divide,
        NumpadKeyConfig::Multiply => NumpadKey::Multiply,
        NumpadKeyConfig::Subtract => NumpadKey::Subtract,
    }
}

/// The stored name of a key.
pub open spec fn key_config_of(key: NumpadKey) -> NumpadKeyConfig {
    match key {
        NumpadKey::Num0 => NumpadKeyConfig::Num0,
        NumpadKey::Num1 => NumpadKeyConfig::Num1,
        NumpadKey::Num2 => NumpadKeyConfig::Num2,
        NumpadKey::Num3 => NumpadKeyConfig::Num3,
        NumpadKey::Num4 => NumpadKeyConfig::Num4,
        NumpadKey::Num5 => NumpadKeyConfig::Num5,
        NumpadKey::Num6 => NumpadKeyConfig::Num6,
        NumpadKey::Num7 => NumpadKeyConfig::Num7,
        NumpadKey::Num8 => NumpadKeyConfig::Num8,
        NumpadKey::Num9 => NumpadKeyConfig::Num9,
        NumpadKey::Add => NumpadKeyConfig::Add,
        NumpadKey::Decimal => NumpadKeyConfig::Decimal,
        NumpadKey::Divide => NumpadKeyConfig::Divide,
        NumpadKey::Multiply => NumpadKeyConfig::Multiply,
        NumpadKey::Subtract => NumpadKeyConfig::Subtract,
    }
}

/// The button a stored button name stands for.
pub open spec fn button_of(button: MouseButtonConfig) -> MouseButton {
    match button {
        MouseButtonConfig::Left => MouseButton::Left,
        MouseButtonConfig::Right => MouseButton::Right,
        MouseButtonConfig::Middle => MouseButton::Middle,
    }
}

/// The stored name of a button.
pub open spec fn button_config_of(button: MouseButton) -> MouseButtonConfig {
    match button {
        MouseButton::Left => MouseButtonConfig::Left,
        MouseButton::Right => MouseButtonConfig::Right,
        MouseButton::Middle => MouseButtonConfig::Middle,
    }
}

/// The direction a stored direction name stands for.
pub open spec fn direction_of(direction: DirectionConfig) -> Direction {
    match direction {
        DirectionConfig::Up => Direction::Up,
        DirectionConfig::Down => Direction::Down,
        DirectionConfig::Left => Direction::Left,
        DirectionConfig::Right => Direction::Right,
        DirectionConfig::UpLeft => Direction::UpLeft,
        DirectionConfig::UpRight => Direction::UpRight,
        DirectionConfig::DownLeft => Direction::DownLeft,
        DirectionConfig::DownRight => Direction::DownRight,
    }
}

/// The stored name of a direction.
pub open spec fn direction_config_of(direction: Direction) -> DirectionConfig {
    match direction {
        Direction::Up => DirectionConfig::Up,
        Direction::Down => DirectionConfig::Down,
        Direction::Left => DirectionConfig::Left,
        Direction::Right => DirectionConfig::Right,
        Direction::UpLeft => DirectionConfig::UpLeft,
        Direction::UpRight => DirectionConfig::UpRight,
        Direction::DownLeft => DirectionConfig::DownLeft,
        Direction::DownRight => DirectionConfig::DownRight,
    }
}

/// The action a stored action stands for.
pub open spec fn action_of(action: InputActionConfig) -> InputAction {
    match action {
        InputActionConfig::Move(direction) => InputAction::Move(direction_of(direction)),
        InputActionConfig::Click => InputAction::Click,
        InputActionConfig::DoubleClick => InputAction::DoubleClick,
        InputActionConfig::Hold => InputAction::Hold,
        InputActionConfig::Release => InputAction::Release,
        InputActionConfig::SelectButton(button) => InputAction::SelectButton(button_of(button)),
        InputActionConfig::ToggleEnabled => InputAction::ToggleEnabled,
        InputActionConfig::SetEnabled(enabled) => InputAction::SetEnabled(enabled),
        InputActionConfig::SetPrecision(enabled) => InputAction::SetPrecision(enabled),
    }
}

/// The stored form of an action.
pub open spec fn action_config_of(action: InputAction) -> InputActionConfig {
    match action {
        InputAction::Move(direction) => InputActionConfig::Move(direction_config_of(direction)),
        InputAction::Click => InputActionConfig::Click,
        InputAction::DoubleClick => InputActionConfig::DoubleClick,
        InputAction::Hold => InputActionConfig::Hold,
        InputAction::Release => InputActionConfig::Release,
        InputAction::SelectButton(button) => InputActionConfig::SelectButton(button_config_of(button)),
        InputAction::ToggleEnabled => InputActionConfig::ToggleEnabled,
        InputAction::SetEnabled(enabled) => InputActionConfig::SetEnabled(enabled),
        InputAction::SetPrecision(enabled) => InputActionConfig::SetPrecision(enabled),
    }
}

/// The stored and the in-memory forms correspond one to one.
pub proof fn lemma_config_forms_round_trip(
    key: NumpadKey,
    key_config: NumpadKeyConfig,
    action: InputAction,
    action_config: InputActionConfig,
)
    ensures
        key_of(key_config_of(key)) == key,
        key_config_of(key_of(key_config)) == key_config,
        action_of(action_config_of(action)) == action,
        action_config_of(action_of(action_config)) == action_config,
{
    match action {
        InputAction::Move(d) => {},
        InputAction::SelectButton(b) => {},
        _ => {},
    }
    match action_config {
        InputActionConfig::Move(d) => {},
        InputActionConfig::SelectButton(b) => {},
        _ => {},
    }
}

impl MouseButtonConfig {
    /// The button this name stands for.
    pub fn to_button(self) -> (button: MouseButton)
        ensures
            button == button_of(self),
    {
        match self {
            MouseButtonConfig::Left => MouseButton::Left,
            MouseButtonConfig::Right => MouseButton::Right,
            MouseButtonConfig::Middle => MouseButton::Middle,
        }
    }

    /// The stored name of a button.
    pub fn from_button(button: MouseButton) -> (config: Self)
        ensures
            config == button_config_of(button),
    {
        match button {
            MouseButton::Left => MouseButtonConfig::Left,
            MouseButton::Right => MouseButtonConfig::Right,
            MouseButton::Middle => MouseButtonConfig::Middle,
        }
    }
}

impl NumpadKeyConfig {
    /// The key this name stands for.
    pub fn to_key(self) -> (key: NumpadKey)
        ensures
            key == key_of(self),
    {
        match self {
            NumpadKeyConfig::Num0 => NumpadKey::Num0,
            NumpadKeyConfig::Num1 => NumpadKey::Num1,
            NumpadKeyConfig::Num2 => NumpadKey::Num2,
            NumpadKeyConfig::Num3 => NumpadKey::Num3,
            NumpadKeyConfig::Num4 => NumpadKey::Num4,
            NumpadKeyConfig::Num5 => NumpadKey::Num5,
            NumpadKeyConfig::Num6 => NumpadKey::Num6,
            NumpadKeyConfig::Num7 => NumpadKey::Num7,
            NumpadKeyConfig::Num8 => NumpadKey::Num8,
            NumpadKeyConfig::Num9 => NumpadKey::Num9,
            NumpadKeyConfig::Add => NumpadKey::Add,
            NumpadKeyConfig::Decimal => NumpadKey::Decimal,
            NumpadKeyConfig::Divide => NumpadKey::Divide,
            NumpadKeyConfig::Multiply => NumpadKey::Multiply,
            NumpadKeyConfig::Subtract => NumpadKey::Subtract,
        }
    }

    /// The stored name of a key.
    pub fn from_key(key: NumpadKey) -> (config: Self)
        ensures
            config == key_config_of(key),
    {
        match key {
            NumpadKey::Num0 => NumpadKeyConfig::Num0,
            NumpadKey::Num1 => NumpadKeyConfig::Num1,
            NumpadKey::Num2 => NumpadKeyConfig::Num2,
            NumpadKey::Num3 => NumpadKeyConfig::Num3,
            NumpadKey::Num4 => NumpadKeyConfig::Num4,
            NumpadKey::Num5 => NumpadKeyConfig::Num5,
            NumpadKey::Num6 => NumpadKeyConfig::Num6,
            NumpadKey::Num7 => NumpadKeyConfig::Num7,
            NumpadKey::Num8 => NumpadKeyConfig::Num8,
            NumpadKey::Num9 => NumpadKeyConfig::Num9,
            NumpadKey::Add => NumpadKeyConfig::Add,
            NumpadKey::Decimal => NumpadKeyConfig::Decimal,
            NumpadKey::Divide => NumpadKeyConfig::Divide,
            NumpadKey::Multiply => NumpadKeyConfig::Multiply,
            NumpadKey::Subtract => NumpadKeyConfig::Subtract,
        }
    }
}

impl DirectionConfig {
    /// The direction this name stands for.
    pub fn to_direction(self) -> (direction: Direction)
        ensures
            direction == direction_of(self),
    {
        match self {
            DirectionConfig::Up => Direction::Up,
            DirectionConfig::Down => Direction::Down,
            DirectionConfig::Left => Direction::Left,
            DirectionConfig::Right => Direction::Right,
            DirectionConfig::UpLeft => Direction::UpLeft,
            DirectionConfig::UpRight => Direction::UpRight,
            DirectionConfig::DownLeft => Direction::DownLeft,
            DirectionConfig::DownRight => Direction::DownRight,
        }
    }

    /// The stored name of a direction.
    pub fn from_direction(direction: Direction) -> (config: Self)
        ensures
            config == direction_config_of(direction),
    {
        match direction {
            Direction::Up => DirectionConfig::Up,
            Direction::Down => DirectionConfig::Down,
            Direction::Left => DirectionConfig::Left,
            Direction::Right => DirectionConfig::Right,
            Direction::UpLeft => DirectionConfig::UpLeft,
            Direction::UpRight => DirectionConfig::UpRight,
            Direction::DownLeft => DirectionConfig::DownLeft,
            Direction::DownRight => DirectionConfig::DownRight,
        }
    }
}

impl InputActionConfig {
    /// The action this stored form stands for.
    pub fn to_action(self) -> (action: InputAction)
        ensures
            action == action_of(self),
    {
        match self {
            InputActionConfig::Move(direction) => InputAction::Move(direction.to_direction()),
            InputActionConfig::Click => InputAction::Click,
            InputActionConfig::DoubleClick => InputAction::DoubleClick,
            InputActionConfig::Hold => InputAction::Hold,
            InputActionConfig::Release => InputAction::Release,
            InputActionConfig::SelectButton(button) => InputAction::SelectButton(button.to_button()),
            InputActionConfig::ToggleEnabled => InputAction::ToggleEnabled,
            InputActionConfig::SetEnabled(enabled) => InputAction::SetEnabled(enabled),
            InputActionConfig::SetPrecision(enabled) => InputAction::SetPrecision(enabled),
        }
    }

    /// The stored form of an action.
    pub fn from_action(action: InputAction) -> (config: Self)
        ensures
            config == action_config_of(action),
    {
        match action {
            InputAction::Move(direction) => InputActionConfig::Move(
                DirectionConfig::from_direction(direction),
            ),
            InputAction::Click => InputActionConfig::Click,
            InputAction::DoubleClick => InputActionConfig::DoubleClick,
            InputAction::Hold => InputActionConfig::Hold,
            InputAction::Release => InputActionConfig::Release,
            InputAction::SelectButton(button) => InputActionConfig::SelectButton(
                MouseButtonConfig::from_button(button),
            ),
            InputAction::ToggleEnabled => InputActionConfig::ToggleEnabled,
            InputAction::SetEnabled(enabled) => InputActionConfig::SetEnabled(enabled),
            InputAction::SetPrecision(enabled) => InputActionConfig::SetPrecision(enabled),
        }
    }
}

/// The stored default binding of the key at a position in key order.
pub open spec fn default_binding_at(i: int) -> BindingConfig {
    BindingConfig {
        key: key_config_of(key_at(i)),
        action: action_config_of(default_action(key_at(i))),
    }
}

impl BindingConfig {
    /// Returns the default bindings in stored form: every key with its default action, in
    /// key order.
    pub fn defaults() -> (defaults: Vec<BindingConfig>)
        ensures
            defaults@.len() == NUMPAD_KEY_COUNT,
            forall|i: int| 0 <= i < NUMPAD_KEY_COUNT ==> #[trigger] defaults@[i] == default_binding_at(i),
    {
        let mut defaults: Vec<BindingConfig> = Vec::new();
        let mut i: usize = 0;
        while i < NUMPAD_KEY_COUNT
            invariant
                i <= NUMPAD_KEY_COUNT,
                defaults@.len() == i,
                forall|j: int| 0 <= j < i ==> #[trigger] defaults@[j] == default_binding_at(j),
            decreases NUMPAD_KEY_COUNT - i,
        {
            let key = key_from_slot(i);
            defaults.push(
                BindingConfig {
                    key: NumpadKeyConfig::from_key(key),
                    action: InputActionConfig::from_action(default_action_for(key)),
                },
            );
            i = i + 1;
        }
        defaults
    }
}

/// The table that stored bindings describe: each binding in turn binds its key, so a later
/// binding of the same key wins.
pub open spec fn table_of(configs: Seq<BindingConfig>) -> Map<NumpadKey, InputAction>
    decreases configs.len(),
{
    if configs.len() == 0 {
        Map::empty()
    } else {
        table_of(configs.drop_last()).insert(
            key_of(configs.last().key),
            action_of(configs.last().action),
        )
    }
}

/// Returns the binding table of stored bindings, as `table_of` says.
pub fn bindings_from_configs(configs: &[BindingConfig]) -> (bindings: Bindings)
    ensures
        bindings@ == table_of(configs@),
{
    let mut bindings = Bindings::empty();
    let mut i: usize = 0;
    while i < configs.len()
        invariant
            i <= configs@.len(),
            bindings@ == table_of(configs@.take(i as int)),
        decreases configs@.len() - i,
    {
        let binding = configs[i];
        bindings.bind(binding.key.to_key(), binding.action.to_action());
        proof {
            let s = configs@.take(i as int + 1);
            assert(s.drop_last() =~= configs@.take(i as int));
        }
        i = i + 1;
    }
    assert(configs@.take(configs@.len() as int) =~= configs@);
    bindings
}

/// The stored default bindings are the ordered listing of the default table in stored form,
/// entry by entry: the same length, and each entry's key and action in stored form.
pub proof fn lemma_defaults_list_the_default_table(
    defaults: Seq<BindingConfig>,
    listing: Seq<(NumpadKey, InputAction)>,
)
    requires
        defaults.len() == NUMPAD_KEY_COUNT,
        forall|i: int| 0 <= i < NUMPAD_KEY_COUNT ==> #[trigger] defaults[i] == default_binding_at(i),
        is_ordered_listing(listing, default_bindings_map()),
    ensures
        listing.len() == defaults.len(),
        forall|i: int|
            0 <= i < defaults.len() ==> #[trigger] defaults[i] == (BindingConfig {
                key: key_config_of(listing[i].0),
                action: action_config_of(listing[i].1),
            }),
{
    lemma_default_listing(listing);
    assert forall|i: int| 0 <= i < defaults.len() implies #[trigger] defaults[i] == (BindingConfig {
        key: key_config_of(listing[i].0),
        action: action_config_of(listing[i].1),
    }) by {
        assert(listing[i] == (key_at(i), default_action(key_at(i))));
    }
}

/// The stored default bindings describe the default binding table.
pub proof fn lemma_default_configs_describe_default_table(configs: Seq<BindingConfig>)
    requires
        configs.len() == NUMPAD_KEY_COUNT,
        forall|i: int| 0 <= i < NUMPAD_KEY_COUNT ==> #[trigger] configs[i] == default_binding_at(i),
    ensures
        forall|key: NumpadKey| #[trigger] lookup(table_of(configs), key) == Some(default_action(key)),
{
    assert forall|n: int, key: NumpadKey|
        0 <= n <= NUMPAD_KEY_COUNT implies #[trigger] lookup(table_of(configs.take(n)), key) == if key_index(key) < n {
        Some(default_action(key))
    } else {
        None
    } by {
        lemma_table_prefix(configs, n, key);
    }
    assert forall|key: NumpadKey| #[trigger] lookup(table_of(configs), key) == Some(default_action(key)) by {
        assert(configs.take(NUMPAD_KEY_COUNT as int) =~= configs);
        lemma_key_index_bijective(key, 0);
        lemma_table_prefix(configs, NUMPAD_KEY_COUNT as int, key);
    }
}

proof fn lemma_table_prefix(configs: Seq<BindingConfig>, n: int, key: NumpadKey)
    requires
        configs.len() == NUMPAD_KEY_COUNT,
        forall|i: int| 0 <= i < NUMPAD_KEY_COUNT ==> #[trigger] configs[i] == default_binding_at(i),
        0 <= n <= NUMPAD_KEY_COUNT,
    ensures
        lookup(table_of(configs.take(n)), key) == if key_index(key) < n {
            Some(default_action(key))
        } else {
            None
        },
    decreases n,
{
    lemma_key_index_bijective(key, n - 1);
    if n == 0 {
        assert(configs.take(0).len() == 0);
    } else {
        let s = configs.take(n);
        assert(s.drop_last() =~= configs.take(n - 1));
        lemma_table_prefix(configs, n - 1, key);
        let last = configs[n - 1];
        lemma_config_forms_round_trip(key_at(n - 1), last.key, default_action(key_at(n - 1)), last.action);
        assert(key_of(last.key) == key_at(n - 1));
        if key == key_at(n - 1) {
            assert(key_index(key) == n - 1);
        } else {
            assert(key_index(key) != n - 1);
        }
    }
}

/// Whether the binding at `j` repeats a key bound earlier in the list.
pub open spec fn repeats_earlier_key(configs: Seq<BindingConfig>, j: int) -> bool {
    exists|i: int| 0 <= i < j && configs[i].key == #[trigger] configs[j].key
}

/// Returns the first binding, in list order, whose key was bound earlier in the list; none
/// when every key is bound at most once.
pub fn first_duplicate_key(configs: &[BindingConfig]) -> (duplicate: Option<NumpadKeyConfig>)
    ensures
        duplicate is None <==> forall|j: int| 0 <= j < configs@.len() ==> !repeats_earlier_key(configs@, j),
        duplicate matches Some(key) ==> exists|j: int|
            0 <= j < configs@.len() && repeats_earlier_key(configs@, j) && configs@[j].key == key && (
            forall|k: int| 0 <= k < j ==> !repeats_earlier_key(configs@, k)),
{
    let mut seen: Vec<bool> = Vec::new();
    let mut s: usize = 0;
    while s < NUMPAD_KEY_COUNT
        invariant
            s <= NUMPAD_KEY_COUNT,
            seen@.len() == s,
            forall|k: int| 0 <= k < s ==> !#[trigger] seen@[k],
        decreases NUMPAD_KEY_COUNT - s,
    {
        seen.push(false);
        s = s + 1;
    }
    let mut j: usize = 0;
    while j < configs.len()
        invariant
            j <= configs@.len(),
            seen@.len() == NUMPAD_KEY_COUNT,
            forall|k: int| 0 <= k < j ==> !repeats_earlier_key(configs@, k),
            forall|key: NumpadKeyConfig| #[trigger] seen@[key_index(key_of(key))] <==> exists|i: int|
                0 <= i < j && configs@[i].key == key,
        decreases configs@.len() - j,
    {
        let key = configs[j].key;
        let slot = crate::bindings::key_slot(key.to_key());
        if seen[slot] {
            proof {
                assert(repeats_earlier_key(configs@, j as int));
            }
            return Some(key);
        }
        let ghost before = seen@;
        seen.set(slot, true);
        proof {
            assert(!repeats_earlier_key(configs@, j as int));
            assert forall|k: NumpadKeyConfig| #[trigger] seen@[key_index(key_of(k))] <==> exists|i: int|
                0 <= i < j + 1 && configs@[i].key == k by {
                lemma_config_forms_round_trip(key_of(k), k, InputAction::Click, InputActionConfig::Click);
                lemma_config_forms_round_trip(key_of(key), key, InputAction::Click, InputActionConfig::Click);
                lemma_key_index_bijective(key_of(k), 0);
                lemma_key_index_bijective(key_of(key), 0);
                if k == key {
                    assert(configs@[j as int].key == k);
                } else {
                    assert(key_of(k) != key_of(key));
                    assert(key_index(key_of(k)) != key_index(key_of(key)));
                    if exists|i: int| 0 <= i < j + 1 && configs@[i].key == k {
                        let i = choose|i: int| 0 <= i < j + 1 && configs@[i].key == k;
                        assert(i != j);
                    }
                }
            }
        }
        j = j + 1;
    }
    None
}

/// Checks that a profile binds no key twice; the first repeated key is reported with the
/// profile's name.
pub fn validate_profile_bindings(profile_name: &str, configs: &[BindingConfig]) -> (result: Result<
    (),
    ConfigError,
>)
    ensures
        result is Ok <==> forall|j: int| 0 <= j < configs@.len() ==> !repeats_earlier_key(configs@, j),
        result matches Err(error) ==> error matches ConfigError::DuplicateBinding { profile, key }
            && profile@ == profile_name@ && exists|j: int|
            0 <= j < configs@.len() && repeats_earlier_key(configs@, j) && configs@[j].key == key && (
            forall|k: int| 0 <= k < j ==> !repeats_earlier_key(configs@, k)),
{
    match first_duplicate_key(configs) {
        None => Ok(()),
        Some(key) => Err(ConfigError::DuplicateBinding { profile: profile_name.to_string(), key }),
    }
}

/// Where the configuration file is kept.
#[derive(Debug, Clone)]
pub struct ConfigStore {
    path: String,
}

impl View for ConfigStore {
    type V = Seq<char>;

    /// The path of the configuration file.
    closed spec fn view(&self) -> Seq<char> {
        self.path@
    }
}

impl ConfigStore {
    /// A store for the configuration file at a path.
    pub fn new(path: String) -> (store: Self)
        ensures
            store@ == path@,
    {
        ConfigStore { path }
    }

    /// The path of the configuration file.
    pub fn path(&self) -> (path: &str)
        ensures
            path@ == self@,
    {
        self.path.as_str()
    }
}

} // verus!
