//! The assistive-technology side of the Windows build: the numeric codes under which settings
//! are stored for the secure desktop, their strict decoding, and the Ease of Access handshake.

use vstd::prelude::*;

use crate::action::{Direction, InputAction, MouseButton};
use crate::bindings::{
    Bindings, NUMPAD_KEY_COUNT, NumpadKey, key_at, key_from_slot, key_index, lemma_key_index_bijective,
    lookup,
};
use crate::hook::{INPUT_KEYBOARD, KEYEVENTF_KEYUP, KeyboardInput};

verus! {

/// Registry key name of the assistive technology.
pub const AT_KEY_NAME: &'static str = "GendByteMaster_NumFlow_v1";
/// Registry key name of the secure-desktop assistive technology.
pub const SECURE_AT_KEY_NAME: &'static str = "GendByteMaster_NumFlowSecure_v1";
/// Version marker of the stored settings.
pub const SETTINGS_SCHEMA_VERSION: u32 = 1;
/// Session state written when the assistive technology starts.
pub const AT_SESSION_STARTING: u32 = 0x0003;
/// Session state written when the assistive technology exits.
pub const AT_SESSION_EXITING: u32 = 0x0002;
/// Virtual-key code of the left Windows key.
pub const VK_LWIN: u16 = 0x5B;

/// Why stored secure settings could not be used.
#[derive(Debug, Clone, PartialEq, Eq)]
pub enum SecureSettingsError {
    /// A registry operation on the named value failed with a Win32 status.
    Registry { value: &'static str, status: u32 },
    /// The named value holds a value outside its whitelist.
    Invalid(&'static str),
}

/// Why the Ease of Access handshake failed.
#[derive(Debug, Clone, PartialEq, Eq)]
pub enum AssistiveTechnologySessionError {
    /// Writing the session state failed with a Win32 status.
    Registry(u32),
    /// Windows inserted fewer notification inputs than were sent.
    NotificationInput { inserted: u32, expected: u32 },
}

/// The stored code of a mouse button.
pub open spec fn button_code_of(button: MouseButton) -> u32 {
    match button {
        MouseButton::Left => 1,
        MouseButton::Right => 2,
        MouseButton::Middle => 3,
    }
}

/// The mouse button of a stored code, if the code is one.
pub open spec fn button_of_code(value: u32) -> Option<MouseButton> {
    if value == 1 {
        Some(MouseButton::Left)
    } else if value == 2 {
        Some(MouseButton::Right)
    } else if value == 3 {
        Some(MouseButton::Middle)
    } else {
        None
    }
}

/// Returns the stored code of a mouse button.
pub fn encode_button(button: MouseButton) -> (code: u32)
    ensures
        code == button_code_of(button),
{
    match button {
        MouseButton::Left => 1,
        MouseButton::Right => 2,
        MouseButton::Middle => 3,
    }
}

/// Returns the mouse button of a stored code; every other value is refused.
pub fn decode_button(value: u32) -> (button: Option<MouseButton>)
    ensures
        button == button_of_code(value),
{
    if value == 1 {
        Some(MouseButton::Left)
    } else if value == 2 {
        Some(MouseButton::Right)
    } else if value == 3 {
        Some(MouseButton::Middle)
    } else {
        None
    }
}

/// The stored code of an action: the eight moves 1 to 8, then click, double click, hold,
/// release, the three button selections, toggle, disable, enable, precision off, precision on.
pub open spec fn action_code_of(action: InputAction) -> u32 {
    match action {
        InputAction::Move(Direction::Up) => 1,
        InputAction::Move(Direction::Down) => 2,
        InputAction::Move(Direction::Left) => 3,
        InputAction::Move(Direction::Right) => 4,
        InputAction::Move(Direction::UpLeft) => 5,
        InputAction::Move(Direction::UpRight) => 6,
        InputAction::Move(Direction::DownLeft) => 7,
        InputAction::Move(Direction::DownRight) => 8,
        InputAction::Click => 9,
        InputAction::DoubleClick => 10,
        InputAction::Hold => 11,
        InputAction::Release => 12,
        InputAction::SelectButton(MouseButton::Left) => 13,
        InputAction::SelectButton(MouseButton::Right) => 14,
        InputAction::SelectButton(MouseButton::Middle) => 15,
        InputAction::ToggleEnabled => 16,
        InputAction::SetEnabled(false) => 17,
        InputAction::SetEnabled(true) => 18,
        InputAction::SetPrecision(false) => 19,
        InputAction::SetPrecision(true) => 20,
    }
}

/// The action of a stored code, if the code is one (1 to 20).
pub open spec fn action_of_code(value: u32) -> Option<InputAction> {
    if value == 1 {
        Some(InputAction::Move(Direction::Up))
    } else if value == 2 {
        Some(InputAction::Move(Direction::Down))
    } else if value == 3 {
        Some(InputAction::Move(Direction::Left))
    } else if value == 4 {
        Some(InputAction::Move(Direction::Right))
    } else if value == 5 {
        Some(InputAction::Move(Direction::UpLeft))
    } else if value == 6 {
        Some(InputAction::Move(Direction::UpRight))
    } else if value == 7 {
        Some(InputAction::Move(Direction::DownLeft))
    } else if value == 8 {
        Some(InputAction::Move(Direction::DownRight))
    } else if value == 9 {
        Some(InputAction::Click)
    } else if value == 10 {
        Some(InputAction::DoubleClick)
    } else if value == 11 {
        Some(InputAction::Hold)
    } else if value == 12 {
        Some(InputAction::Release)
    } else if value == 13 {
        Some(InputAction::SelectButton(MouseButton::Left))
    } else if value == 14 {
        Some(InputAction::SelectButton(MouseButton::Right))
    } else if value == 15 {
        Some(InputAction::SelectButton(MouseButton::Middle))
    } else if value == 16 {
        Some(InputAction::ToggleEnabled)
    } else if value == 17 {
        Some(InputAction::SetEnabled(false))
    } else if value == 18 {
        Some(InputAction::SetEnabled(true))
    } else if value == 19 {
        Some(InputAction::SetPrecision(false))
    } else if value == 20 {
        Some(InputAction::SetPrecision(true))
    } else {
        None
    }
}

/// Returns the stored code of an action.
pub fn encode_action(action: InputAction) -> (code: u32)
    ensures
        code == action_code_of(action),
{
    match action {
        InputAction::Move(Direction::Up) => 1,
        InputAction::Move(Direction::Down) => 2,
        InputAction::Move(Direction::Left) => 3,
        InputAction::Move(Direction::Right) => 4,
        InputAction::Move(Direction::UpLeft) => 5,
        InputAction::Move(Direction::UpRight) => 6,
        InputAction::Move(Direction::DownLeft) => 7,
        InputAction::Move(Direction::DownRight) => 8,
        InputAction::Click => 9,
        InputAction::DoubleClick => 10,
        InputAction::Hold => 11,
        InputAction::Release => 12,
        InputAction::SelectButton(MouseButton::Left) => 13,
        InputAction::SelectButton(MouseButton::Right) => 14,
        InputAction::SelectButton(MouseButton::Middle) => 15,
        InputAction::ToggleEnabled => 16,
        InputAction::SetEnabled(false) => 17,
        InputAction::SetEnabled(true) => 18,
        InputAction::SetPrecision(false) => 19,
        InputAction::SetPrecision(true) => 20,
    }
}

/// Returns the action of a stored code; every other value is refused.
pub fn decode_action(value: u32) -> (action: Option<InputAction>)
    ensures
        action == action_of_code(value),
{
    if value == 1 {
        Some(InputAction::Move(Direction::Up))
    } else if value == 2 {
        Some(InputAction::Move(Direction::Down))
    } else if value == 3 {
        Some(InputAction::Move(Direction::Left))
    } else if value == 4 {
        Some(InputAction::Move(Direction::Right))
    } else if value == 5 {
        Some(InputAction::Move(Direction::UpLeft))
    } else if value == 6 {
        Some(InputAction::Move(Direction::UpRight))
    } else if value == 7 {
        Some(InputAction::Move(Direction::DownLeft))
    } else if value == 8 {
        Some(InputAction::Move(Direction::DownRight))
    } else if value == 9 {
        Some(InputAction::Click)
    } else if value == 10 {
        Some(InputAction::DoubleClick)
    } else if value == 11 {
        Some(InputAction::Hold)
    } else if value == 12 {
        Some(InputAction::Release)
    } else if value == 13 {
        Some(InputAction::SelectButton(MouseButton::Left))
    } else if value == 14 {
        Some(InputAction::SelectButton(MouseButton::Right))
    } else if value == 15 {
        Some(InputAction::SelectButton(MouseButton::Middle))
    } else if value == 16 {
        Some(InputAction::ToggleEnabled)
    } else if value == 17 {
        Some(InputAction::SetEnabled(false))
    } else if value == 18 {
        Some(InputAction::SetEnabled(true))
    } else if value == 19 {
        Some(InputAction::SetPrecision(false))
    } else if value == 20 {
        Some(InputAction::SetPrecision(true))
    } else {
        None
    }
}

/// Every action and every button has one code, and decoding gives it back; a code decodes to
/// something exactly when it is the code of what it decodes to. Code 0 is never an action,
/// so it can stand for "unbound".
pub proof fn lemma_codes_round_trip(action: InputAction, button: MouseButton, value: u32)
    ensures
        action_of_code(action_code_of(action)) == Some(action),
        action_code_of(action) != 0,
        action_of_code(value) matches Some(a) ==> action_code_of(a) == value,
        button_of_code(button_code_of(button)) == Some(button),
        button_of_code(value) matches Some(b) ==> button_code_of(b) == value,
{
}

/// Decodes a stored boolean: 0 or 1, anything else is refused under the value's name.
pub fn decode_bool(value: u32, name: &'static str) -> (result: Result<bool, SecureSettingsError>)
    ensures
        value == 0 ==> result == Ok::<bool, SecureSettingsError>(false),
        value == 1 ==> result == Ok::<bool, SecureSettingsError>(true),
        value > 1 ==> result == Err::<bool, SecureSettingsError>(SecureSettingsError::Invalid(name)),
{
    if value == 0 {
        Ok(false)
    } else if value == 1 {
        Ok(true)
    } else {
        Err(SecureSettingsError::Invalid(name))
    }
}

/// The name of the stored value that holds a key's binding.
pub open spec fn binding_name_of(key: NumpadKey) -> &'static str {
    match key {
        NumpadKey::Num0 => "BindingNum0",
        NumpadKey::Num1 => "BindingNum1",
        NumpadKey::Num2 => "BindingNum2",
        NumpadKey::Num3 => "BindingNum3",
        NumpadKey::Num4 => "BindingNum4",
        NumpadKey::Num5 => "BindingNum5",
        NumpadKey::Num6 => "BindingNum6",
        NumpadKey::Num7 => "BindingNum7",
        NumpadKey::Num8 => "BindingNum8",
        NumpadKey::Num9 => "BindingNum9",
        NumpadKey::Add => "BindingAdd",
        NumpadKey::Decimal => "BindingDecimal",
        NumpadKey::Divide => "BindingDivide",
        NumpadKey::Multiply => "BindingMultiply",
        NumpadKey::Subtract => "BindingSubtract",
    }
}

/// Returns the name of the stored value that holds a key's binding.
pub fn binding_value_name(key: NumpadKey) -> (name: &'static str)
    ensures
        name == binding_name_of(key),
{
    match key {
        NumpadKey::Num0 => "BindingNum0",
        NumpadKey::Num1 => "BindingNum1",
        NumpadKey::Num2 => "BindingNum2",
        NumpadKey::Num3 => "BindingNum3",
        NumpadKey::Num4 => "BindingNum4",
        NumpadKey::Num5 => "BindingNum5",
        NumpadKey::Num6 => "BindingNum6",
        NumpadKey::Num7 => "BindingNum7",
        NumpadKey::Num8 => "BindingNum8",
        NumpadKey::Num9 => "BindingNum9",
        NumpadKey::Add => "BindingAdd",
        NumpadKey::Decimal => "BindingDecimal",
        NumpadKey::Divide => "BindingDivide",
        NumpadKey::Multiply => "BindingMultiply",
        NumpadKey::Subtract => "BindingSubtract",
    }
}

/// The stored code of a key's binding: the action's code, 0 when unbound.
pub open spec fn binding_code(bindings: Map<NumpadKey, InputAction>, key: NumpadKey) -> u32 {
    match lookup(bindings, key) {
        Some(action) => action_code_of(action),
        None => 0,
    }
}

/// Returns the binding codes of every key, in key order.
pub fn encode_binding_codes(bindings: &Bindings) -> (codes: Vec<u32>)
    ensures
        codes@.len() == NUMPAD_KEY_COUNT,
        forall|i: int| 0 <= i < NUMPAD_KEY_COUNT ==> #[trigger] codes@[i] == binding_code(bindings@, key_at(i)),
{
    let mut codes: Vec<u32> = Vec::new();
    let mut i: usize = 0;
    while i < NUMPAD_KEY_COUNT
        invariant
            i <= NUMPAD_KEY_COUNT,
            codes@.len() == i,
            forall|j: int| 0 <= j < i ==> #[trigger] codes@[j] == binding_code(bindings@, key_at(j)),
        decreases NUMPAD_KEY_COUNT - i,
    {
        let key = key_from_slot(i);
        let code = match bindings.action_for(key) {
            Some(action) => encode_action(action),
            None => 0,
        };
        codes.push(code);
        i = i + 1;
    }
    codes
}

/// Whether a stored binding value is acceptable: present, and 0 or an action code.
pub open spec fn binding_value_ok(value: Option<u32>) -> bool {
    match value {
        Some(code) => code == 0 || action_of_code(code) is Some,
        None => false,
    }
}

/// The bindings that stored values, in key order, describe: code 0 leaves a key unbound.
pub open spec fn bindings_of_values(values: Seq<Option<u32>>) -> Map<NumpadKey, InputAction> {
    Map::new(
        |key: NumpadKey| values[key_index(key)] matches Some(code) && code != 0,
        |key: NumpadKey| action_of_code(values[key_index(key)]->0)->0,
    )
}

/// Decodes the stored binding values of every key, in key order (`None` for a missing value).
/// The values are checked in key order; the first missing or unknown value refuses the whole
/// set under that value's name. Otherwise every key with a non-zero code is bound to its
/// action and every other key is unbound.
pub fn decode_binding_values(values: &[Option<u32>]) -> (result: Result<Bindings, SecureSettingsError>)
    requires
        values@.len() == NUMPAD_KEY_COUNT,
    ensures
        (forall|i: int| 0 <= i < NUMPAD_KEY_COUNT ==> binding_value_ok(#[trigger] values@[i]))
            ==> result is Ok && result->Ok_0@ == bindings_of_values(values@),
        forall|i: int|
            0 <= i < NUMPAD_KEY_COUNT && !binding_value_ok(#[trigger] values@[i]) && (forall|j: int|
                0 <= j < i ==> binding_value_ok(#[trigger] values@[j])) ==> result == Err::<
                Bindings,
                SecureSettingsError,
            >(SecureSettingsError::Invalid(binding_name_of(key_at(i)))),
{
    let mut bindings = Bindings::empty();
    let mut i: usize = 0;
    while i < NUMPAD_KEY_COUNT
        invariant
            i <= NUMPAD_KEY_COUNT,
            values@.len() == NUMPAD_KEY_COUNT,
            forall|j: int| 0 <= j < i ==> binding_value_ok(#[trigger] values@[j]),
            forall|key: NumpadKey| #[trigger]
                lookup(bindings@, key) == if key_index(key) < i {
                    lookup(bindings_of_values(values@), key)
                } else {
                    None
                },
        decreases NUMPAD_KEY_COUNT - i,
    {
        let key = key_from_slot(i);
        proof {
            lemma_key_index_bijective(key, i as int);
        }
        let code = match values[i] {
            Some(code) => code,
            None => return Err(SecureSettingsError::Invalid(binding_value_name(key))),
        };
        if code != 0 {
            let action = match decode_action(code) {
                Some(action) => action,
                None => return Err(SecureSettingsError::Invalid(binding_value_name(key))),
            };
            let ghost before = bindings@;
            bindings.bind(key, action);
            proof {
                assert forall|k: NumpadKey| #[trigger]
                    lookup(bindings@, k) == if key_index(k) < i + 1 {
                        lookup(bindings_of_values(values@), k)
                    } else {
                        None
                    } by {
                    lemma_key_index_bijective(k, 0);
                    if k != key {
                        assert(lookup(bindings@, k) == lookup(before, k));
                    }
                }
            }
        } else {
            proof {
                assert forall|k: NumpadKey| #[trigger]
                    lookup(bindings@, k) == if key_index(k) < i + 1 {
                        lookup(bindings_of_values(values@), k)
                    } else {
                        None
                    } by {
                    lemma_key_index_bijective(k, 0);
                }
            }
        }
        i = i + 1;
    }
    proof {
        assert forall|key: NumpadKey| #[trigger] bindings@.dom().contains(key) == bindings_of_values(
            values@,
        ).dom().contains(key) && (bindings@.dom().contains(key) ==> bindings@[key]
            == bindings_of_values(values@)[key]) by {
            lemma_key_index_bijective(key, 0);
            assert(lookup(bindings@, key) == lookup(bindings_of_values(values@), key));
        }
        assert(bindings@ =~= bindings_of_values(values@));
    }
    Ok(bindings)
}

/// Storing a table of bindings and decoding what was stored gives the same table back.
pub proof fn lemma_binding_codes_round_trip(
    bindings: Map<NumpadKey, InputAction>,
    codes: Seq<u32>,
)
    requires
        bindings.dom().finite(),
        codes.len() == NUMPAD_KEY_COUNT,
        forall|i: int| 0 <= i < NUMPAD_KEY_COUNT ==> #[trigger] codes[i] == binding_code(bindings, key_at(i)),
    ensures
        ({
            let values = codes.map_values(|c: u32| Some(c));
            &&& forall|i: int| 0 <= i < NUMPAD_KEY_COUNT ==> binding_value_ok(#[trigger] values[i])
            &&& bindings_of_values(values) == bindings
        }),
{
    let values = codes.map_values(|c: u32| Some(c));
    assert forall|i: int| 0 <= i < NUMPAD_KEY_COUNT implies binding_value_ok(#[trigger] values[i]) by {
        let key = key_at(i);
        lemma_codes_round_trip(InputAction::Click, MouseButton::Left, codes[i]);
        match lookup(bindings, key) {
            Some(a) => lemma_codes_round_trip(a, MouseButton::Left, 0),
            None => {},
        }
    }
    assert forall|key: NumpadKey| #[trigger] bindings_of_values(values).dom().contains(key)
        == bindings.dom().contains(key) && (bindings.dom().contains(key) ==> bindings_of_values(
        values,
    )[key] == bindings[key]) by {
        lemma_key_index_bijective(key, 0);
        let i = key_index(key);
        assert(codes[i] == binding_code(bindings, key));
        if bindings.dom().contains(key) {
            lemma_codes_round_trip(bindings[key], MouseButton::Left, 0);
        }
    }
    assert(bindings_of_values(values) =~= bindings);
}

/// The outcome of reading one stored DWORD value.
#[derive(Debug, Clone, Copy, PartialEq, Eq, Structural)]
pub enum ValueRead {
    Present(u32),
    Missing,
    /// The read failed with a Win32 status other than "not found".
    Failed(u32),
}

/// Why stored settings are not used: they are absent, so the defaults apply and pointer
/// control stays off, or they fail with an error.
pub enum SettingsRefusal {
    Absent,
    Fails(SecureSettingsError),
}

/// How one stored value read refuses the settings, if it does: a missing value makes them
/// absent, a failed read is a registry error under the value's name.
pub open spec fn read_refusal(read: ValueRead, name: &'static str) -> Option<SettingsRefusal> {
    match read {
        ValueRead::Present(_) => None,
        ValueRead::Missing => Some(SettingsRefusal::Absent),
        ValueRead::Failed(status) => Some(
            SettingsRefusal::Fails(SecureSettingsError::Registry { value: name, status }),
        ),
    }
}

/// Returns a stored value read: the value when present, none when missing, and a registry
/// error under the value's name when the read failed.
pub fn read_value(read: ValueRead, name: &'static str) -> (result: Result<Option<u32>, SecureSettingsError>)
    ensures
        result == match read {
            ValueRead::Present(value) => Ok(Some(value)),
            ValueRead::Missing => Ok(None),
            ValueRead::Failed(status) => Err(SecureSettingsError::Registry { value: name, status }),
        },
{
    match read {
        ValueRead::Present(value) => Ok(Some(value)),
        ValueRead::Missing => Ok(None),
        ValueRead::Failed(status) => Err(SecureSettingsError::Registry { value: name, status }),
    }
}

/// The number of stored motion values.
pub const MOTION_VALUE_COUNT: usize = 5;

/// The name of the stored motion value at a position: base speed, maximum speed,
/// acceleration, precision multiplier, boost multiplier, each in thousandths.
pub open spec fn motion_name_at(i: int) -> &'static str {
    if i == 0 {
        "BaseSpeedMilli"
    } else if i == 1 {
        "MaxSpeedMilli"
    } else if i == 2 {
        "AccelerationMilli"
    } else if i == 3 {
        "PrecisionMultiplierMilli"
    } else {
        "BoostMultiplierMilli"
    }
}

/// Returns the name of the stored motion value at a position.
pub fn motion_value_name(i: usize) -> (name: &'static str)
    requires
        i < MOTION_VALUE_COUNT,
    ensures
        name == motion_name_at(i as int),
{
    if i == 0 {
        "BaseSpeedMilli"
    } else if i == 1 {
        "MaxSpeedMilli"
    } else if i == 2 {
        "AccelerationMilli"
    } else if i == 3 {
        "PrecisionMultiplierMilli"
    } else {
        "BoostMultiplierMilli"
    }
}

/// The first refusal among the first `n` motion values, in order.
pub open spec fn motion_refusal(reads: Seq<ValueRead>, n: int) -> Option<SettingsRefusal>
    decreases n,
{
    if n <= 0 {
        None
    } else {
        match motion_refusal(reads, n - 1) {
            Some(refusal) => Some(refusal),
            None => read_refusal(reads[n - 1], motion_name_at(n - 1)),
        }
    }
}

/// How one stored binding value refuses the settings, if it does: a failed read or a non-zero
/// code that is no action is an error, a missing value makes them absent.
pub open spec fn binding_read_refusal(read: ValueRead, name: &'static str) -> Option<SettingsRefusal> {
    match read {
        ValueRead::Present(code) => if code == 0 || action_of_code(code) is Some {
            None
        } else {
            Some(SettingsRefusal::Fails(SecureSettingsError::Invalid(name)))
        },
        _ => read_refusal(read, name),
    }
}

/// The first refusal among the binding values of the first `n` keys, in key order.
pub open spec fn binding_refusal(reads: Seq<ValueRead>, n: int) -> Option<SettingsRefusal>
    decreases n,
{
    if n <= 0 {
        None
    } else {
        match binding_refusal(reads, n - 1) {
            Some(refusal) => Some(refusal),
            None => binding_read_refusal(reads[n - 1], binding_name_of(key_at(n - 1))),
        }
    }
}

proof fn lemma_motion_refusal_stable(reads: Seq<ValueRead>, a: int, b: int)
    requires
        0 <= a <= b,
        motion_refusal(reads, a) is Some,
    ensures
        motion_refusal(reads, b) == motion_refusal(reads, a),
    decreases b - a,
{
    if b > a {
        lemma_motion_refusal_stable(reads, a, b - 1);
    }
}

proof fn lemma_binding_refusal_stable(reads: Seq<ValueRead>, a: int, b: int)
    requires
        0 <= a <= b,
        binding_refusal(reads, a) is Some,
    ensures
        binding_refusal(reads, b) == binding_refusal(reads, a),
    decreases b - a,
{
    if b > a {
        lemma_binding_refusal_stable(reads, a, b - 1);
    }
}

/// The stored values of the secure settings as they were read.
pub struct SecureSettingsReads {
    pub schema_version: ValueRead,
    pub enabled: ValueRead,
    /// In the order of `motion_name_at`.
    pub motion: [ValueRead; 5],
    pub selected_button: ValueRead,
    pub precision: ValueRead,
    /// In key order.
    pub bindings: [ValueRead; 15],
}

/// What the secure runtime takes from stored settings: whether control may be on, the motion
/// values in thousandths (in the order of `motion_name_at`), the selected button, precision,
/// and the bindings.
pub struct SecureSettingsValues {
    pub enabled: bool,
    pub motion_milli: Vec<u32>,
    pub selected_button: MouseButton,
    pub precision: bool,
    pub bindings: Bindings,
}

/// The present value of a read, if it is present.
pub open spec fn present(read: ValueRead) -> Option<u32> {
    match read {
        ValueRead::Present(value) => Some(value),
        _ => None,
    }
}

/// Whether stored settings are refused, and how, taking the values in the order they are
/// used: the format marker (missing or another marker: absent), the enabled value (missing:
/// absent), the motion values, the selected button (a button code), the precision value
/// (0 or 1), the enabled value again (0 or 1), and the binding values in key order (0 or an
/// action code). The first value that is missing makes the settings absent; the first failed
/// read or value outside its whitelist is the error. `None` when every value is present and
/// valid.
pub open spec fn secure_settings_refusal(reads: SecureSettingsReads) -> Option<SettingsRefusal> {
    match reads.schema_version {
        ValueRead::Failed(status) => Some(
            SettingsRefusal::Fails(SecureSettingsError::Registry { value: "SchemaVersion", status }),
        ),
        ValueRead::Missing => Some(SettingsRefusal::Absent),
        ValueRead::Present(version) => if version != SETTINGS_SCHEMA_VERSION {
            Some(SettingsRefusal::Absent)
        } else {
            match reads.enabled {
                ValueRead::Present(enabled) => if motion_refusal(reads.motion@, MOTION_VALUE_COUNT as int) is Some {
                    motion_refusal(reads.motion@, MOTION_VALUE_COUNT as int)
                } else if read_refusal(reads.selected_button, "SelectedButton") is Some {
                    read_refusal(reads.selected_button, "SelectedButton")
                } else if button_of_code(reads.selected_button->Present_0) is None {
                    Some(SettingsRefusal::Fails(SecureSettingsError::Invalid("SelectedButton")))
                } else if read_refusal(reads.precision, "PrecisionEnabled") is Some {
                    read_refusal(reads.precision, "PrecisionEnabled")
                } else if reads.precision->Present_0 > 1 {
                    Some(SettingsRefusal::Fails(SecureSettingsError::Invalid("PrecisionEnabled")))
                } else if enabled > 1 {
                    Some(SettingsRefusal::Fails(SecureSettingsError::Invalid("Enabled")))
                } else {
                    binding_refusal(reads.bindings@, NUMPAD_KEY_COUNT as int)
                },
                _ => read_refusal(reads.enabled, "Enabled"),
            }
        },
    }
}

/// Decodes the secure settings from the values read, as `secure_settings_refusal` says:
/// `Ok(None)` when the settings are absent and the defaults apply, the error when they fail,
/// and otherwise the decoded values. Nothing read is taken as a command or a path: every
/// value is checked against its whitelist.
pub fn decode_secure_settings(reads: &SecureSettingsReads) -> (result: Result<
    Option<SecureSettingsValues>,
    SecureSettingsError,
>)
    ensures
        secure_settings_refusal(*reads) matches Some(SettingsRefusal::Fails(error)) ==> result
            == Err::<Option<SecureSettingsValues>, SecureSettingsError>(error),
        secure_settings_refusal(*reads) matches Some(SettingsRefusal::Absent) ==> result matches Ok(None),
        secure_settings_refusal(*reads) is None ==> (result matches Ok(Some(values)) && {
            &&& values.enabled == (reads.enabled->Present_0 == 1)
            &&& values.motion_milli@.len() == MOTION_VALUE_COUNT
            &&& forall|i: int|
                0 <= i < MOTION_VALUE_COUNT ==> present(#[trigger] reads.motion@[i]) == Some(
                    values.motion_milli@[i],
                )
            &&& Some(values.selected_button) == button_of_code(reads.selected_button->Present_0)
            &&& values.precision == (reads.precision->Present_0 == 1)
            &&& values.bindings@ == bindings_of_values(reads.bindings@.map_values(|r: ValueRead| present(r)))
        }),
{
    match reads.schema_version {
        ValueRead::Failed(status) => {
            return Err(SecureSettingsError::Registry { value: "SchemaVersion", status });
        },
        ValueRead::Missing => {
            return Ok(None);
        },
        ValueRead::Present(version) => {
            if version != SETTINGS_SCHEMA_VERSION {
                return Ok(None);
            }
        },
    }
    let enabled = match reads.enabled {
        ValueRead::Failed(status) => {
            return Err(SecureSettingsError::Registry { value: "Enabled", status });
        },
        ValueRead::Missing => {
            return Ok(None);
        },
        ValueRead::Present(enabled) => enabled,
    };
    let mut motion_milli: Vec<u32> = Vec::new();
    let mut i: usize = 0;
    while i < MOTION_VALUE_COUNT
        invariant
            i <= MOTION_VALUE_COUNT,
            reads.schema_version == ValueRead::Present(SETTINGS_SCHEMA_VERSION),
            reads.enabled == ValueRead::Present(enabled),
            motion_refusal(reads.motion@, i as int) is None,
            motion_milli@.len() == i,
            forall|j: int| 0 <= j < i ==> present(#[trigger] reads.motion@[j]) == Some(motion_milli@[j]),
        decreases MOTION_VALUE_COUNT - i,
    {
        let read = reads.motion[i];
        let value = match read_value(read, motion_value_name(i)) {
            Ok(Some(value)) => value,
            Ok(None) => {
                proof {
                    lemma_motion_refusal_stable(reads.motion@, i as int + 1, MOTION_VALUE_COUNT as int);
                }
                return Ok(None);
            },
            Err(error) => {
                proof {
                    lemma_motion_refusal_stable(reads.motion@, i as int + 1, MOTION_VALUE_COUNT as int);
                }
                return Err(error);
            },
        };
        motion_milli.push(value);
        i = i + 1;
    }
    let selected_code = match read_value(reads.selected_button, "SelectedButton") {
        Ok(Some(code)) => code,
        Ok(None) => {
            return Ok(None);
        },
        Err(error) => {
            return Err(error);
        },
    };
    let selected_button = match decode_button(selected_code) {
        Some(button) => button,
        None => {
            return Err(SecureSettingsError::Invalid("SelectedButton"));
        },
    };
    let precision_code = match read_value(reads.precision, "PrecisionEnabled") {
        Ok(Some(code)) => code,
        Ok(None) => {
            return Ok(None);
        },
        Err(error) => {
            return Err(error);
        },
    };
    let precision = decode_bool(precision_code, "PrecisionEnabled")?;
    let enabled = decode_bool(enabled, "Enabled")?;
    let mut values: Vec<Option<u32>> = Vec::new();
    let mut k: usize = 0;
    while k < NUMPAD_KEY_COUNT
        invariant
            k <= NUMPAD_KEY_COUNT,
            secure_settings_refusal(*reads) == binding_refusal(reads.bindings@, NUMPAD_KEY_COUNT as int),
            binding_refusal(reads.bindings@, k as int) is None,
            values@.len() == k,
            forall|j: int| 0 <= j < k ==> #[trigger] values@[j] == present(reads.bindings@[j]),
            forall|j: int| 0 <= j < k ==> binding_value_ok(#[trigger] values@[j]),
        decreases NUMPAD_KEY_COUNT - k,
    {
        let name = binding_value_name(key_from_slot(k));
        proof {
            if binding_refusal(reads.bindings@, k as int + 1) is Some {
                lemma_binding_refusal_stable(reads.bindings@, k as int + 1, NUMPAD_KEY_COUNT as int);
            }
        }
        match reads.bindings[k] {
            ValueRead::Failed(status) => {
                return Err(SecureSettingsError::Registry { value: name, status });
            },
            ValueRead::Missing => {
                return Ok(None);
            },
            ValueRead::Present(code) => {
                if code != 0 && decode_action(code).is_none() {
                    return Err(SecureSettingsError::Invalid(name));
                }
                values.push(Some(code));
            },
        }
        k = k + 1;
    }
    let bindings = match decode_binding_values(values.as_slice()) {
        Ok(bindings) => bindings,
        Err(error) => {
            return Err(error);
        },
    };
    proof {
        assert(values@ =~= reads.bindings@.map_values(|r: ValueRead| present(r)));
    }
    Ok(Some(SecureSettingsValues { enabled, motion_milli, selected_button, precision, bindings }))
}

/// The values written when settings are stored for the secure desktop, in order: the format
/// marker cleared, the enabled flag, the motion values in thousandths, the button code, the
/// precision flag, each key's binding code in key order, and finally the format marker. A
/// desktop switch during a partial write therefore leaves a cleared marker, and the secure
/// runtime falls back to the defaults instead of reading a mix.
pub open spec fn secure_settings_writes_of(
    enabled: bool,
    motion_milli: Seq<u32>,
    selected_button: MouseButton,
    precision: bool,
    bindings: Map<NumpadKey, InputAction>,
) -> Seq<(&'static str, u32)> {
    seq![("SchemaVersion", 0u32), ("Enabled", if enabled { 1u32 } else { 0u32 })]
        + Seq::new(MOTION_VALUE_COUNT as nat, |i: int| (motion_name_at(i), motion_milli[i]))
        + seq![
            ("SelectedButton", button_code_of(selected_button)),
            ("PrecisionEnabled", if precision { 1u32 } else { 0u32 }),
        ]
        + Seq::new(NUMPAD_KEY_COUNT as nat, |i: int| (binding_name_of(key_at(i)), binding_code(bindings, key_at(i))))
        + seq![("SchemaVersion", SETTINGS_SCHEMA_VERSION)]
}

/// Returns the writes that store settings for the secure desktop, as
/// `secure_settings_writes_of` lists them.
pub fn secure_settings_writes(
    enabled: bool,
    motion_milli: &[u32; 5],
    selected_button: MouseButton,
    precision: bool,
    bindings: &Bindings,
) -> (writes: Vec<(&'static str, u32)>)
    ensures
        writes@ == secure_settings_writes_of(enabled, motion_milli@, selected_button, precision, bindings@),
{
    let mut writes: Vec<(&'static str, u32)> = Vec::new();
    writes.push(("SchemaVersion", 0));
    writes.push(("Enabled", if enabled { 1 } else { 0 }));
    let ghost head = writes@;
    let mut i: usize = 0;
    while i < MOTION_VALUE_COUNT
        invariant
            i <= MOTION_VALUE_COUNT,
            motion_milli@.len() == MOTION_VALUE_COUNT,
            writes@ == head + Seq::new(i as nat, |j: int| (motion_name_at(j), motion_milli@[j])),
        decreases MOTION_VALUE_COUNT - i,
    {
        writes.push((motion_value_name(i), motion_milli[i]));
        assert(writes@ =~= head + Seq::new(i as nat + 1, |j: int| (motion_name_at(j), motion_milli@[j])));
        i = i + 1;
    }
    writes.push(("SelectedButton", encode_button(selected_button)));
    writes.push(("PrecisionEnabled", if precision { 1 } else { 0 }));
    let codes = encode_binding_codes(bindings);
    let ghost middle = writes@;
    let mut k: usize = 0;
    while k < NUMPAD_KEY_COUNT
        invariant
            k <= NUMPAD_KEY_COUNT,
            codes@.len() == NUMPAD_KEY_COUNT,
            forall|j: int| 0 <= j < NUMPAD_KEY_COUNT ==> #[trigger] codes@[j] == binding_code(bindings@, key_at(j)),
            writes@ == middle + Seq::new(k as nat, |j: int| (binding_name_of(key_at(j)), binding_code(bindings@, key_at(j)))),
        decreases NUMPAD_KEY_COUNT - k,
    {
        writes.push((binding_value_name(key_from_slot(k)), codes[k]));
        assert(writes@ =~= middle + Seq::new(k as nat + 1, |j: int| (binding_name_of(key_at(j)), binding_code(bindings@, key_at(j)))));
        k = k + 1;
    }
    writes.push(("SchemaVersion", SETTINGS_SCHEMA_VERSION));
    assert(writes@ =~= secure_settings_writes_of(enabled, motion_milli@, selected_button, precision, bindings@));
    writes
}

/// Writes DWORD values where the secure desktop reads them.
pub trait DwordWriter {
    /// Writes one named value and returns the Win32 status, 0 on success.
    fn write_dword(&mut self, name: &'static str, value: u32) -> u32;
}

/// Whether write statuses are those of writes made in order up to the first failure: every
/// status but the last is a success, and there are no more statuses than writes.
pub open spec fn written_until_failure(statuses: Seq<u32>, count: int) -> bool {
    &&& statuses.len() <= count
    &&& forall|i: int| 0 <= i < statuses.len() - 1 ==> #[trigger] statuses[i] == 0
}

/// What storing reports for the statuses of the writes made: the first failed write's error
/// under its name, or success once every write succeeded.
pub open spec fn store_outcome(writes: Seq<(&'static str, u32)>, statuses: Seq<u32>) -> Result<
    (),
    SecureSettingsError,
> {
    if statuses.len() > 0 && statuses.last() != 0 {
        Err(
            SecureSettingsError::Registry {
                value: writes[statuses.len() - 1].0,
                status: statuses.last(),
            },
        )
    } else {
        Ok(())
    }
}

/// Makes writes in order and stops at the first that fails. Returns the status of every write
/// made and the outcome: the failed write's error under its name, or success once all were
/// made.
pub fn store_writes<W: DwordWriter>(writer: &mut W, writes: &Vec<(&'static str, u32)>) -> (result: (
    Vec<u32>,
    Result<(), SecureSettingsError>,
))
    ensures
        written_until_failure(result.0@, writes@.len() as int),
        result.1 == store_outcome(writes@, result.0@),
        result.1 is Ok ==> result.0@.len() == writes@.len(),
{
    let mut statuses: Vec<u32> = Vec::new();
    let mut i: usize = 0;
    while i < writes.len()
        invariant
            i <= writes@.len(),
            statuses@.len() == i,
            forall|j: int| 0 <= j < i ==> #[trigger] statuses@[j] == 0,
        decreases writes@.len() - i,
    {
        let (name, value) = writes[i];
        let status = writer.write_dword(name, value);
        statuses.push(status);
        if status != 0 {
            assert(statuses@.last() == status);
            return (statuses, Err(SecureSettingsError::Registry { value: name, status }));
        }
        i = i + 1;
    }
    (statuses, Ok(()))
}

/// Whether a stored value's name is the format marker's.
pub open spec fn is_marker_name(name: &'static str) -> bool {
    name@ == "SchemaVersion"@
}

/// A store for the secure desktop that fails leaves the format marker cleared: the first write
/// clears it, every later write that succeeded is to another value, and the write that sets it
/// again is the last one, so it is made only when everything before it succeeded.
pub proof fn lemma_failed_store_keeps_marker_cleared(
    enabled: bool,
    motion_milli: Seq<u32>,
    selected_button: MouseButton,
    precision: bool,
    bindings: Map<NumpadKey, InputAction>,
    statuses: Seq<u32>,
)
    requires
        motion_milli.len() == MOTION_VALUE_COUNT,
        written_until_failure(
            statuses,
            secure_settings_writes_of(enabled, motion_milli, selected_button, precision, bindings).len() as int,
        ),
        store_outcome(
            secure_settings_writes_of(enabled, motion_milli, selected_button, precision, bindings),
            statuses,
        ) is Err,
    ensures
        ({
            let writes = secure_settings_writes_of(enabled, motion_milli, selected_button, precision, bindings);
            &&& writes[0] == ("SchemaVersion", 0u32)
            &&& is_marker_name(writes[writes.len() - 1].0)
            &&& forall|i: int|
                1 <= i < statuses.len() && #[trigger] statuses[i] == 0 ==> !is_marker_name(writes[i].0)
        }),
{
    let writes = secure_settings_writes_of(enabled, motion_milli, selected_button, precision, bindings);
    reveal_strlit("SchemaVersion");
    reveal_strlit("Enabled");
    reveal_strlit("BaseSpeedMilli");
    reveal_strlit("MaxSpeedMilli");
    reveal_strlit("AccelerationMilli");
    reveal_strlit("PrecisionMultiplierMilli");
    reveal_strlit("BoostMultiplierMilli");
    reveal_strlit("SelectedButton");
    reveal_strlit("PrecisionEnabled");
    reveal_strlit("BindingNum0");
    reveal_strlit("BindingNum1");
    reveal_strlit("BindingNum2");
    reveal_strlit("BindingNum3");
    reveal_strlit("BindingNum4");
    reveal_strlit("BindingNum5");
    reveal_strlit("BindingNum6");
    reveal_strlit("BindingNum7");
    reveal_strlit("BindingNum8");
    reveal_strlit("BindingNum9");
    reveal_strlit("BindingAdd");
    reveal_strlit("BindingDecimal");
    reveal_strlit("BindingDivide");
    reveal_strlit("BindingMultiply");
    reveal_strlit("BindingSubtract");
    let head = seq![("SchemaVersion", 0u32), ("Enabled", if enabled { 1u32 } else { 0u32 })];
    let motion = Seq::new(MOTION_VALUE_COUNT as nat, |i: int| (motion_name_at(i), motion_milli[i]));
    let middle = seq![
        ("SelectedButton", button_code_of(selected_button)),
        ("PrecisionEnabled", if precision { 1u32 } else { 0u32 }),
    ];
    let keys = Seq::new(NUMPAD_KEY_COUNT as nat, |i: int| (binding_name_of(key_at(i)), binding_code(bindings, key_at(i))));
    assert(writes.len() == 25);
    assert(statuses.len() <= 25);
    assert forall|i: int| 1 <= i < statuses.len() && #[trigger] statuses[i] == 0 implies !is_marker_name(writes[i].0) by {
        assert(i < 24);
        if i == 1 {
            assert(writes[i] == head[1]);
            assert("Enabled"@.len() != "SchemaVersion"@.len());
        } else if i < 7 {
            assert(writes[i] == motion[i - 2]);
            let name = motion_name_at(i - 2);
            assert(name@.len() != 13 || name@[0] != 'S');
        } else if i < 9 {
            assert(writes[i] == middle[i - 7]);
            assert(writes[i].0@.len() != 13);
        } else {
            assert(writes[i] == keys[i - 9]);
            let name = binding_name_of(key_at(i - 9));
            assert(name@[0] == 'B');
        }
    }
}

proof fn lemma_present_motion_has_no_failure(reads: Seq<ValueRead>, n: int)
    requires
        0 <= n <= reads.len(),
        forall|i: int| 0 <= i < n ==> #[trigger] reads[i] is Present,
    ensures
        motion_refusal(reads, n) is None,
    decreases n,
{
    if n > 0 {
        lemma_present_motion_has_no_failure(reads, n - 1);
    }
}

/// Whether a binding value read is present and 0 or an action code.
pub open spec fn valid_binding_read(read: ValueRead) -> bool {
    match read {
        ValueRead::Present(code) => code == 0 || action_of_code(code) is Some,
        _ => false,
    }
}

proof fn lemma_valid_bindings_have_no_failure(reads: Seq<ValueRead>, n: int)
    requires
        0 <= n <= reads.len(),
        forall|i: int| 0 <= i < n ==> valid_binding_read(#[trigger] reads[i]),
    ensures
        binding_refusal(reads, n) is None,
    decreases n,
{
    if n > 0 {
        lemma_valid_bindings_have_no_failure(reads, n - 1);
    }
}

/// Settings stored for the secure desktop load back as they were stored: when every value
/// read is the one `secure_settings_writes_of` wrote last under its name, decoding finds no
/// refusal, so no error and no fall-back to the defaults, and gives back the enabled flag, the motion
/// values, the button, the precision flag and the binding table.
pub proof fn lemma_stored_secure_settings_load_back(
    reads: SecureSettingsReads,
    enabled: bool,
    motion_milli: Seq<u32>,
    selected_button: MouseButton,
    precision: bool,
    bindings: Map<NumpadKey, InputAction>,
)
    requires
        motion_milli.len() == MOTION_VALUE_COUNT,
        bindings.dom().finite(),
        reads.schema_version == ValueRead::Present(SETTINGS_SCHEMA_VERSION),
        reads.enabled == ValueRead::Present(if enabled { 1u32 } else { 0u32 }),
        forall|i: int|
            0 <= i < MOTION_VALUE_COUNT ==> #[trigger] reads.motion@[i] == ValueRead::Present(
                motion_milli[i],
            ),
        reads.selected_button == ValueRead::Present(button_code_of(selected_button)),
        reads.precision == ValueRead::Present(if precision { 1u32 } else { 0u32 }),
        forall|k: int|
            0 <= k < NUMPAD_KEY_COUNT ==> #[trigger] reads.bindings@[k] == ValueRead::Present(
                binding_code(bindings, key_at(k)),
            ),
    ensures
        secure_settings_refusal(reads) is None,
        (reads.enabled->Present_0 == 1) == enabled,
        forall|i: int| 0 <= i < MOTION_VALUE_COUNT ==> present(#[trigger] reads.motion@[i]) == Some(motion_milli[i]),
        button_of_code(reads.selected_button->Present_0) == Some(selected_button),
        (reads.precision->Present_0 == 1) == precision,
        bindings_of_values(reads.bindings@.map_values(|r: ValueRead| present(r))) == bindings,
{
    lemma_codes_round_trip(InputAction::Click, selected_button, 0);
    lemma_present_motion_has_no_failure(reads.motion@, MOTION_VALUE_COUNT as int);
    let codes = Seq::new(NUMPAD_KEY_COUNT as nat, |k: int| binding_code(bindings, key_at(k)));
    assert forall|k: int| 0 <= k < NUMPAD_KEY_COUNT implies valid_binding_read(#[trigger] reads.bindings@[k]) by {
        match lookup(bindings, key_at(k)) {
            Some(action) => lemma_codes_round_trip(action, selected_button, 0),
            None => {},
        }
    }
    lemma_valid_bindings_have_no_failure(reads.bindings@, NUMPAD_KEY_COUNT as int);
    lemma_binding_codes_round_trip(bindings, codes);
    assert(reads.bindings@.map_values(|r: ValueRead| present(r)) =~= codes.map_values(|c: u32| Some(c)));
}

/// The keyboard records of the Ease of Access notification: Windows down, U down, U up,
/// Windows up.
pub open spec fn notification_inputs() -> Seq<KeyboardInput> {
    seq![
        KeyboardInput { input_type: INPUT_KEYBOARD, vk: VK_LWIN, scan: 0, flags: 0, time: 0, extra_info: 0 },
        KeyboardInput { input_type: INPUT_KEYBOARD, vk: 0x55, scan: 0, flags: 0, time: 0, extra_info: 0 },
        KeyboardInput { input_type: INPUT_KEYBOARD, vk: 0x55, scan: 0, flags: KEYEVENTF_KEYUP, time: 0, extra_info: 0 },
        KeyboardInput { input_type: INPUT_KEYBOARD, vk: VK_LWIN, scan: 0, flags: KEYEVENTF_KEYUP, time: 0, extra_info: 0 },
    ]
}

/// Returns a key record: a press, or a release when `released` holds.
pub fn keyboard_input(key: u16, released: bool) -> (input: KeyboardInput)
    ensures
        input == (KeyboardInput {
            input_type: INPUT_KEYBOARD,
            vk: key,
            scan: 0,
            flags: if released {
                KEYEVENTF_KEYUP
            } else {
                0
            },
            time: 0,
            extra_info: 0,
        }),
{
    KeyboardInput {
        input_type: INPUT_KEYBOARD,
        vk: key,
        scan: 0,
        flags: if released {
            KEYEVENTF_KEYUP
        } else {
            0
        },
        time: 0,
        extra_info: 0,
    }
}

/// Returns the records of the Ease of Access notification, Windows+U with balanced presses.
pub fn accessibility_notification_inputs() -> (inputs: [KeyboardInput; 4])
    ensures
        inputs@ == notification_inputs(),
{
    let inputs = [
        keyboard_input(VK_LWIN, false),
        keyboard_input(0x55, false),
        keyboard_input(0x55, true),
        keyboard_input(VK_LWIN, true),
    ];
    assert(inputs@ =~= notification_inputs());
    inputs
}

/// Checks that Windows inserted every notification record.
pub fn check_notification_inputs(inserted: u32, expected: u32) -> (result: Result<
    (),
    AssistiveTechnologySessionError,
>)
    ensures
        inserted == expected ==> result is Ok,
        inserted != expected ==> result == Err::<(), AssistiveTechnologySessionError>(
            AssistiveTechnologySessionError::NotificationInput { inserted, expected },
        ),
{
    if inserted == expected {
        Ok(())
    } else {
        Err(AssistiveTechnologySessionError::NotificationInput { inserted, expected })
    }
}

/// An Ease of Access session of a directly started assistive technology.
#[derive(Debug)]
pub struct AssistiveTechnologySession {
    active: bool,
}

impl AssistiveTechnologySession {
    /// The session state to announce when starting: the starting state when the assistive
    /// technology is registered, nothing otherwise.
    pub fn start_notification(registered: bool) -> (state: Option<u32>)
        ensures
            registered ==> state == Some(AT_SESSION_STARTING),
            !registered ==> state is None,
    {
        if registered {
            Some(AT_SESSION_STARTING)
        } else {
            None
        }
    }

    /// The session after starting: inactive when not registered; when registered, active once
    /// the starting announcement succeeded, else its error.
    pub fn start(registered: bool, announcement: Result<(), AssistiveTechnologySessionError>) -> (result:
        Result<Self, AssistiveTechnologySessionError>)
        ensures
            !registered ==> result is Ok && !result->Ok_0.is_active(),
            registered && announcement is Ok ==> result is Ok && result->Ok_0.is_active(),
            registered && announcement is Err ==> result == Err::<
                Self,
                AssistiveTechnologySessionError,
            >(announcement->Err_0),
    {
        if !registered {
            return Ok(AssistiveTechnologySession { active: false });
        }
        match announcement {
            Ok(()) => Ok(AssistiveTechnologySession { active: true }),
            Err(error) => Err(error),
        }
    }

    /// Whether the session was announced and must announce its exit.
    pub closed spec fn is_active(&self) -> bool {
        self.active
    }

    /// The session state to announce when the session ends: the exiting state for an active
    /// session, nothing otherwise.
    pub fn exit_notification(&self) -> (state: Option<u32>)
        ensures
            self.is_active() ==> state == Some(AT_SESSION_EXITING),
            !self.is_active() ==> state is None,
    {
        if self.active {
            Some(AT_SESSION_EXITING)
        } else {
            None
        }
    }
}

} // verus!
