//! The binding editor of the settings window: the order in which keys and choices are listed,
//! and editing the stored bindings of a profile.

use vstd::prelude::*;

use crate::bindings::NUMPAD_KEY_COUNT;
use crate::config::{
    BindingConfig, DirectionConfig, InputActionConfig, MouseButtonConfig, NumpadKeyConfig, key_of,
};

verus! {

/// The keys in the order the editor lists them: the eight directions, the click keys, hold
/// and release, then the button selectors.
pub const BINDING_KEYS: [NumpadKeyConfig; 15] = [
    NumpadKeyConfig::Num8,
    NumpadKeyConfig::Num2,
    NumpadKeyConfig::Num4,
    NumpadKeyConfig::Num6,
    NumpadKeyConfig::Num7,
    NumpadKeyConfig::Num9,
    NumpadKeyConfig::Num1,
    NumpadKeyConfig::Num3,
    NumpadKeyConfig::Num5,
    NumpadKeyConfig::Add,
    NumpadKeyConfig::Num0,
    NumpadKeyConfig::Decimal,
    NumpadKeyConfig::Divide,
    NumpadKeyConfig::Multiply,
    NumpadKeyConfig::Subtract,
];

/// The position of a key in the editor's list.
pub open spec fn listed_position(key: NumpadKeyConfig) -> int {
    match key {
        NumpadKeyConfig::Num8 => 0,
        NumpadKeyConfig::Num2 => 1,
        NumpadKeyConfig::Num4 => 2,
        NumpadKeyConfig::Num6 => 3,
        NumpadKeyConfig::Num7 => 4,
        NumpadKeyConfig::Num9 => 5,
        NumpadKeyConfig::Num1 => 6,
        NumpadKeyConfig::Num3 => 7,
        NumpadKeyConfig::Num5 => 8,
        NumpadKeyConfig::Add => 9,
        NumpadKeyConfig::Num0 => 10,
        NumpadKeyConfig::Decimal => 11,
        NumpadKeyConfig::Divide => 12,
        NumpadKeyConfig::Multiply => 13,
        NumpadKeyConfig::Subtract => 14,
    }
}

/// The key at a position of the editor's list, if the position is in the list.
pub open spec fn listed_key(index: int) -> Option<NumpadKeyConfig> {
    if 0 <= index < 15 {
        Some(BINDING_KEYS@[index])
    } else {
        None
    }
}

/// Returns the key at a position of the editor's list.
pub fn key_from_index(index: i32) -> (key: Option<NumpadKeyConfig>)
    ensures
        key == listed_key(index as int),
{
    if 0 <= index && index < 15 {
        Some(BINDING_KEYS[index as usize])
    } else {
        None
    }
}

/// Returns the position of a key in the editor's list.
pub fn key_index(key: NumpadKeyConfig) -> (index: i32)
    ensures
        index == listed_position(key),
        listed_key(index as int) == Some(key),
{
    match key {
        NumpadKeyConfig::Num8 => 0,
        NumpadKeyConfig::Num2 => 1,
        NumpadKeyConfig::Num4 => 2,
        NumpadKeyConfig::Num6 => 3,
        NumpadKeyConfig::Num7 => 4,
        NumpadKeyConfig::Num9 => 5,
        NumpadKeyConfig::Num1 => 6,
        NumpadKeyConfig::Num3 => 7,
        NumpadKeyConfig::Num5 => 8,
        NumpadKeyConfig::Add => 9,
        NumpadKeyConfig::Num0 => 10,
        NumpadKeyConfig::Decimal => 11,
        NumpadKeyConfig::Divide => 12,
        NumpadKeyConfig::Multiply => 13,
        NumpadKeyConfig::Subtract => 14,
    }
}

/// What the editor offers for a key: no binding, or an action.
#[derive(Debug, Clone, Copy, PartialEq, Eq, Structural)]
pub enum BindingChoice {
    Unbound,
    Action(InputActionConfig),
}

impl BindingChoice {
    /// The action of a choice, if it binds one.
    pub open spec fn action_0_opt(self) -> Option<InputActionConfig> {
        match self {
            BindingChoice::Unbound => None,
            BindingChoice::Action(a) => Some(a),
        }
    }

    /// The action of this choice, if it binds one.
    pub fn action(self) -> (action: Option<InputActionConfig>)
        ensures
            action == self.action_0_opt(),
    {
        match self {
            BindingChoice::Unbound => None,
            BindingChoice::Action(action) => Some(action),
        }
    }
}

/// The choices in the order the editor lists them: unbound, the eight moves, click, double
/// click, hold, release, the three button selections, precision on and off.
pub open spec fn choice_list() -> Seq<BindingChoice> {
    seq![
        BindingChoice::Unbound,
        BindingChoice::Action(InputActionConfig::Move(DirectionConfig::Up)),
        BindingChoice::Action(InputActionConfig::Move(DirectionConfig::Down)),
        BindingChoice::Action(InputActionConfig::Move(DirectionConfig::Left)),
        BindingChoice::Action(InputActionConfig::Move(DirectionConfig::Right)),
        BindingChoice::Action(InputActionConfig::Move(DirectionConfig::UpLeft)),
        BindingChoice::Action(InputActionConfig::Move(DirectionConfig::UpRight)),
        BindingChoice::Action(InputActionConfig::Move(DirectionConfig::DownLeft)),
        BindingChoice::Action(InputActionConfig::Move(DirectionConfig::DownRight)),
        BindingChoice::Action(InputActionConfig::Click),
        BindingChoice::Action(InputActionConfig::DoubleClick),
        BindingChoice::Action(InputActionConfig::Hold),
        BindingChoice::Action(InputActionConfig::Release),
        BindingChoice::Action(InputActionConfig::SelectButton(MouseButtonConfig::Left)),
        BindingChoice::Action(InputActionConfig::SelectButton(MouseButtonConfig::Right)),
        BindingChoice::Action(InputActionConfig::SelectButton(MouseButtonConfig::Middle)),
        BindingChoice::Action(InputActionConfig::SetPrecision(true)),
        BindingChoice::Action(InputActionConfig::SetPrecision(false)),
    ]
}

/// Returns the choices in the order the editor lists them.
pub fn binding_choices() -> (choices: [BindingChoice; 18])
    ensures
        choices@ == choice_list(),
{
    let choices = [
        BindingChoice::Unbound,
        BindingChoice::Action(InputActionConfig::Move(DirectionConfig::Up)),
        BindingChoice::Action(InputActionConfig::Move(DirectionConfig::Down)),
        BindingChoice::Action(InputActionConfig::Move(DirectionConfig::Left)),
        BindingChoice::Action(InputActionConfig::Move(DirectionConfig::Right)),
        BindingChoice::Action(InputActionConfig::Move(DirectionConfig::UpLeft)),
        BindingChoice::Action(InputActionConfig::Move(DirectionConfig::UpRight)),
        BindingChoice::Action(InputActionConfig::Move(DirectionConfig::DownLeft)),
        BindingChoice::Action(InputActionConfig::Move(DirectionConfig::DownRight)),
        BindingChoice::Action(InputActionConfig::Click),
        BindingChoice::Action(InputActionConfig::DoubleClick),
        BindingChoice::Action(InputActionConfig::Hold),
        BindingChoice::Action(InputActionConfig::Release),
        BindingChoice::Action(InputActionConfig::SelectButton(MouseButtonConfig::Left)),
        BindingChoice::Action(InputActionConfig::SelectButton(MouseButtonConfig::Right)),
        BindingChoice::Action(InputActionConfig::SelectButton(MouseButtonConfig::Middle)),
        BindingChoice::Action(InputActionConfig::SetPrecision(true)),
        BindingChoice::Action(InputActionConfig::SetPrecision(false)),
    ];
    assert(choices@ =~= choice_list());
    choices
}

/// The position of a choice's action in the editor's list; actions the list does not offer
/// (toggling and setting the enabled state) fall back to the first entry.
pub open spec fn choice_position(action: Option<InputActionConfig>) -> int {
    match action {
        None => 0,
        Some(InputActionConfig::Move(DirectionConfig::Up)) => 1,
        Some(InputActionConfig::Move(DirectionConfig::Down)) => 2,
        Some(InputActionConfig::Move(DirectionConfig::Left)) => 3,
        Some(InputActionConfig::Move(DirectionConfig::Right)) => 4,
        Some(InputActionConfig::Move(DirectionConfig::UpLeft)) => 5,
        Some(InputActionConfig::Move(DirectionConfig::UpRight)) => 6,
        Some(InputActionConfig::Move(DirectionConfig::DownLeft)) => 7,
        Some(InputActionConfig::Move(DirectionConfig::DownRight)) => 8,
        Some(InputActionConfig::Click) => 9,
        Some(InputActionConfig::DoubleClick) => 10,
        Some(InputActionConfig::Hold) => 11,
        Some(InputActionConfig::Release) => 12,
        Some(InputActionConfig::SelectButton(MouseButtonConfig::Left)) => 13,
        Some(InputActionConfig::SelectButton(MouseButtonConfig::Right)) => 14,
        Some(InputActionConfig::SelectButton(MouseButtonConfig::Middle)) => 15,
        Some(InputActionConfig::SetPrecision(true)) => 16,
        Some(InputActionConfig::SetPrecision(false)) => 17,
        Some(InputActionConfig::ToggleEnabled) => 0,
        Some(InputActionConfig::SetEnabled(_)) => 0,
    }
}

/// The choice at a position of the editor's list, if the position is in the list.
pub open spec fn listed_choice(index: int) -> Option<BindingChoice> {
    if 0 <= index < 18 {
        Some(choice_list()[index])
    } else {
        None
    }
}

/// Returns the choice at a position of the editor's list.
pub fn choice_from_index(index: i32) -> (choice: Option<BindingChoice>)
    ensures
        choice == listed_choice(index as int),
{
    if 0 <= index && index < 18 {
        let choices = binding_choices();
        Some(choices[index as usize])
    } else {
        None
    }
}

/// Returns the position of the first listed choice with the given action, or 0 when none has
/// it.
pub fn choice_index(action: Option<InputActionConfig>) -> (index: i32)
    ensures
        index == choice_position(action),
{
    match action {
        None => 0,
        Some(InputActionConfig::Move(DirectionConfig::Up)) => 1,
        Some(InputActionConfig::Move(DirectionConfig::Down)) => 2,
        Some(InputActionConfig::Move(DirectionConfig::Left)) => 3,
        Some(InputActionConfig::Move(DirectionConfig::Right)) => 4,
        Some(InputActionConfig::Move(DirectionConfig::UpLeft)) => 5,
        Some(InputActionConfig::Move(DirectionConfig::UpRight)) => 6,
        Some(InputActionConfig::Move(DirectionConfig::DownLeft)) => 7,
        Some(InputActionConfig::Move(DirectionConfig::DownRight)) => 8,
        Some(InputActionConfig::Click) => 9,
        Some(InputActionConfig::DoubleClick) => 10,
        Some(InputActionConfig::Hold) => 11,
        Some(InputActionConfig::Release) => 12,
        Some(InputActionConfig::SelectButton(MouseButtonConfig::Left)) => 13,
        Some(InputActionConfig::SelectButton(MouseButtonConfig::Right)) => 14,
        Some(InputActionConfig::SelectButton(MouseButtonConfig::Middle)) => 15,
        Some(InputActionConfig::SetPrecision(true)) => 16,
        Some(InputActionConfig::SetPrecision(false)) => 17,
        Some(InputActionConfig::ToggleEnabled) => 0,
        Some(InputActionConfig::SetEnabled(_)) => 0,
    }
}

/// Positions and listed keys, and positions and listed choices, correspond one to one: a
/// listed item's position leads back to it.
pub proof fn lemma_editor_positions_round_trip(key: NumpadKeyConfig, index: int)
    ensures
        listed_key(listed_position(key)) == Some(key),
        listed_key(index) matches Some(k) ==> listed_position(k) == index,
        listed_choice(index) matches Some(c) ==> listed_choice(choice_position(c.action_0_opt()))
            == Some(c),
{
}

/// The position of the first stored binding of a key.
pub open spec fn first_position(bindings: Seq<BindingConfig>, key: NumpadKeyConfig) -> Option<int>
    decreases bindings.len(),
{
    if bindings.len() == 0 {
        None
    } else {
        match first_position(bindings.drop_last(), key) {
            Some(i) => Some(i),
            None => if bindings.last().key == key {
                Some(bindings.len() - 1)
            } else {
                None
            },
        }
    }
}

proof fn lemma_first_position(bindings: Seq<BindingConfig>, key: NumpadKeyConfig)
    ensures
        first_position(bindings, key) matches Some(i) ==> 0 <= i < bindings.len()
            && bindings[i].key == key && forall|j: int| 0 <= j < i ==> bindings[j].key != key,
        first_position(bindings, key) is None ==> forall|j: int|
            0 <= j < bindings.len() ==> bindings[j].key != key,
    decreases bindings.len(),
{
    if bindings.len() > 0 {
        let d = bindings.drop_last();
        lemma_first_position(d, key);
        assert(forall|j: int| 0 <= j < d.len() ==> d[j] == bindings[j]);
    }
}

/// The action the first stored binding of a key gives, if any.
pub open spec fn stored_action(bindings: Seq<BindingConfig>, key: NumpadKeyConfig) -> Option<
    InputActionConfig,
> {
    match first_position(bindings, key) {
        Some(i) => Some(bindings[i].action),
        None => None,
    }
}

fn position_of(bindings: &Vec<BindingConfig>, key: NumpadKeyConfig) -> (position: Option<usize>)
    ensures
        position matches Some(i) ==> first_position(bindings@, key) == Some(i as int),
        position is None ==> first_position(bindings@, key) is None,
{
    let mut i: usize = 0;
    while i < bindings.len()
        invariant
            i <= bindings@.len(),
            first_position(bindings@.take(i as int), key) is None,
        decreases bindings@.len() - i,
    {
        proof {
            let s = bindings@.take(i as int + 1);
            assert(s.drop_last() =~= bindings@.take(i as int));
        }
        if bindings[i].key == key {
            proof {
                lemma_first_position_of_prefix(bindings@, i as int + 1, key);
            }
            return Some(i);
        }
        i = i + 1;
    }
    assert(bindings@.take(bindings@.len() as int) =~= bindings@);
    None
}

proof fn lemma_first_position_of_prefix(bindings: Seq<BindingConfig>, n: int, key: NumpadKeyConfig)
    requires
        0 <= n <= bindings.len(),
        first_position(bindings.take(n), key) is Some,
    ensures
        first_position(bindings, key) == first_position(bindings.take(n), key),
    decreases bindings.len() - n,
{
    if n < bindings.len() {
        let s = bindings.take(n + 1);
        assert(s.drop_last() =~= bindings.take(n));
        lemma_first_position_of_prefix(bindings, n + 1, key);
    } else {
        assert(bindings.take(n) =~= bindings);
    }
}

/// Returns the action that the first stored binding of a key gives, if any.
pub fn profile_action(bindings: &Vec<BindingConfig>, key: NumpadKeyConfig) -> (action: Option<
    InputActionConfig,
>)
    ensures
        action == stored_action(bindings@, key),
{
    proof {
        lemma_first_position(bindings@, key);
    }
    match position_of(bindings, key) {
        Some(i) => Some(bindings[i].action),
        None => None,
    }
}

/// The stored bindings after setting a key's action: the first binding of the key is
/// replaced, or removed when the key is to be unbound; a key without a binding gets one
/// appended; unbinding a key without a binding changes nothing.
pub open spec fn edited(
    bindings: Seq<BindingConfig>,
    key: NumpadKeyConfig,
    action: Option<InputActionConfig>,
) -> Seq<BindingConfig> {
    match (first_position(bindings, key), action) {
        (Some(i), Some(a)) => bindings.update(i, BindingConfig { key, action: a }),
        (Some(i), None) => bindings.remove(i),
        (None, Some(a)) => bindings.push(BindingConfig { key, action: a }),
        (None, None) => bindings,
    }
}

/// The rank by which stored bindings are ordered: the key's declaration order.
pub open spec fn key_rank(key: NumpadKeyConfig) -> int {
    crate::bindings::key_index(key_of(key))
}

/// The bindings of a given rank, in their order.
pub open spec fn with_rank(bindings: Seq<BindingConfig>, rank: int) -> Seq<BindingConfig>
    decreases bindings.len(),
{
    if bindings.len() == 0 {
        Seq::empty()
    } else if key_rank(bindings.last().key) == rank {
        with_rank(bindings.drop_last(), rank).push(bindings.last())
    } else {
        with_rank(bindings.drop_last(), rank)
    }
}

/// The bindings whose rank is below `n`, ordered by rank; equal ranks keep their order.
pub open spec fn ranked_below(bindings: Seq<BindingConfig>, n: int) -> Seq<BindingConfig>
    decreases n,
{
    if n <= 0 {
        Seq::empty()
    } else {
        ranked_below(bindings, n - 1) + with_rank(bindings, n - 1)
    }
}

/// The bindings sorted by key, stably.
pub open spec fn sorted_by_key(bindings: Seq<BindingConfig>) -> Seq<BindingConfig> {
    ranked_below(bindings, NUMPAD_KEY_COUNT as int)
}

fn rank_of(key: NumpadKeyConfig) -> (rank: usize)
    ensures
        rank == key_rank(key),
        rank < NUMPAD_KEY_COUNT,
{
    crate::bindings::key_slot(key.to_key())
}

fn sort_by_key(bindings: &Vec<BindingConfig>) -> (sorted: Vec<BindingConfig>)
    ensures
        sorted@ == sorted_by_key(bindings@),
{
    let mut sorted: Vec<BindingConfig> = Vec::new();
    let mut rank: usize = 0;
    while rank < NUMPAD_KEY_COUNT
        invariant
            rank <= NUMPAD_KEY_COUNT,
            sorted@ == ranked_below(bindings@, rank as int),
        decreases NUMPAD_KEY_COUNT - rank,
    {
        let ghost base = sorted@;
        let mut i: usize = 0;
        while i < bindings.len()
            invariant
                i <= bindings@.len(),
                rank < NUMPAD_KEY_COUNT,
                base == ranked_below(bindings@, rank as int),
                sorted@ == base + with_rank(bindings@.take(i as int), rank as int),
            decreases bindings@.len() - i,
        {
            let binding = bindings[i];
            proof {
                let s = bindings@.take(i as int + 1);
                assert(s.drop_last() =~= bindings@.take(i as int));
                assert(s.last() == binding);
            }
            if rank_of(binding.key) == rank {
                sorted.push(binding);
            }
            proof {
                let s = bindings@.take(i as int + 1);
                if key_rank(binding.key) == rank as int {
                    assert(sorted@ =~= base + with_rank(s, rank as int));
                } else {
                    assert(sorted@ =~= base + with_rank(s, rank as int));
                }
            }
            i = i + 1;
        }
        assert(bindings@.take(bindings@.len() as int) =~= bindings@);
        rank = rank + 1;
    }
    sorted
}

/// Sets the action of a key in a profile's stored bindings (`None` unbinds it) and keeps them
/// sorted by key. Returns whether anything changed: when the key already gives that action
/// the bindings are left exactly as they were.
pub fn set_profile_binding(
    bindings: &mut Vec<BindingConfig>,
    key: NumpadKeyConfig,
    action: Option<InputActionConfig>,
) -> (changed: bool)
    ensures
        changed == (stored_action(old(bindings)@, key) != action),
        !changed ==> final(bindings)@ == old(bindings)@,
        changed ==> final(bindings)@ == sorted_by_key(edited(old(bindings)@, key, action)),
{
    let current = profile_action(bindings, key);
    if current == action {
        return false;
    }
    let position = position_of(bindings, key);
    proof {
        lemma_first_position(bindings@, key);
    }
    match (position, action) {
        (Some(index), Some(action)) => {
            bindings.set(index, BindingConfig { key, action });
        },
        (Some(index), None) => {
            bindings.remove(index);
        },
        (None, Some(action)) => {
            bindings.push(BindingConfig { key, action });
        },
        (None, None) => {},
    }
    let sorted = sort_by_key(bindings);
    *bindings = sorted;
    true
}

/// Restores the default stored bindings. Returns whether anything changed: bindings that
/// equal the defaults are left as they are.
pub fn reset_profile_bindings(bindings: &mut Vec<BindingConfig>) -> (changed: bool)
    ensures
        final(bindings)@.len() == NUMPAD_KEY_COUNT,
        forall|i: int|
            0 <= i < NUMPAD_KEY_COUNT ==> #[trigger] final(bindings)@[i]
                == crate::config::default_binding_at(i),
        changed == (old(bindings)@ != final(bindings)@),
{
    let defaults = BindingConfig::defaults();
    let mut same = bindings.len() == defaults.len();
    let mut i: usize = 0;
    while same && i < defaults.len()
        invariant
            i <= defaults@.len(),
            same ==> bindings@.len() == defaults@.len(),
            same ==> forall|j: int| 0 <= j < i ==> bindings@[j] == defaults@[j],
            !same ==> bindings@ != defaults@,
        decreases defaults@.len() - i,
    {
        if bindings[i] != defaults[i] {
            same = false;
        }
        i = i + 1;
    }
    if same {
        assert(bindings@ =~= defaults@);
        return false;
    }
    *bindings = defaults;
    true
}

/// No key is bound twice.
pub open spec fn distinct_keys(bindings: Seq<BindingConfig>) -> bool {
    forall|i: int, j: int| 0 <= i < j < bindings.len() ==> #[trigger] bindings[i].key != #[trigger] bindings[j].key
}

proof fn lemma_rank_identifies_key(a: NumpadKeyConfig, b: NumpadKeyConfig)
    ensures
        0 <= key_rank(a) < NUMPAD_KEY_COUNT,
        key_rank(a) == key_rank(b) ==> a == b,
{
    crate::config::lemma_config_forms_round_trip(key_of(a), a, crate::action::InputAction::Click, InputActionConfig::Click);
    crate::config::lemma_config_forms_round_trip(key_of(b), b, crate::action::InputAction::Click, InputActionConfig::Click);
    crate::bindings::lemma_key_index_bijective(key_of(a), 0);
    crate::bindings::lemma_key_index_bijective(key_of(b), 0);
}

proof fn lemma_with_rank(bindings: Seq<BindingConfig>, rank: int)
    ensures
        forall|x: BindingConfig| #[trigger] with_rank(bindings, rank).contains(x) <==> (bindings.contains(x)
            && key_rank(x.key) == rank),
        distinct_keys(bindings) ==> with_rank(bindings, rank).len() <= 1,
    decreases bindings.len(),
{
    if bindings.len() > 0 {
        let d = bindings.drop_last();
        let last = bindings.last();
        lemma_with_rank(d, rank);
        assert(bindings =~= d.push(last));
        assert forall|x: BindingConfig| #[trigger] with_rank(bindings, rank).contains(x) <==> (bindings.contains(x)
            && key_rank(x.key) == rank) by {
            if bindings.contains(x) && x != last {
                let i = choose|i: int| 0 <= i < bindings.len() && bindings[i] == x;
                assert(d[i] == x);
            }
            if key_rank(last.key) == rank {
                assert(with_rank(bindings, rank) == with_rank(d, rank).push(last));
                if with_rank(d, rank).contains(x) {
                    let i = choose|i: int| 0 <= i < with_rank(d, rank).len() && with_rank(d, rank)[i] == x;
                    assert(with_rank(bindings, rank)[i] == x);
                }
                if x == last {
                    assert(with_rank(bindings, rank)[with_rank(d, rank).len() as int] == x);
                }
            }
            if d.contains(x) {
                let i = choose|i: int| 0 <= i < d.len() && d[i] == x;
                assert(bindings[i] == x);
            }
            if x == last {
                assert(bindings[bindings.len() - 1] == x);
            }
        }
        if distinct_keys(bindings) {
            assert(distinct_keys(d)) by {
                assert forall|i: int, j: int| 0 <= i < j < d.len() implies #[trigger] d[i].key != #[trigger] d[j].key by {
                    assert(d[i] == bindings[i] && d[j] == bindings[j]);
                }
            }
            if key_rank(last.key) == rank && with_rank(d, rank).len() > 0 {
                let x = with_rank(d, rank)[0];
                assert(with_rank(d, rank).contains(x));
                let i = choose|i: int| 0 <= i < d.len() && d[i] == x;
                lemma_rank_identifies_key(x.key, last.key);
                assert(bindings[i].key == bindings[bindings.len() - 1].key);
            }
        }
    }
}

proof fn lemma_ranked_below(bindings: Seq<BindingConfig>, n: int)
    requires
        0 <= n <= NUMPAD_KEY_COUNT,
    ensures
        forall|x: BindingConfig| #[trigger] ranked_below(bindings, n).contains(x) <==> (bindings.contains(x)
            && key_rank(x.key) < n),
        distinct_keys(bindings) ==> distinct_keys(ranked_below(bindings, n)),
    decreases n,
{
    if n > 0 {
        lemma_ranked_below(bindings, n - 1);
        lemma_with_rank(bindings, n - 1);
        let a = ranked_below(bindings, n - 1);
        let b = with_rank(bindings, n - 1);
        assert(ranked_below(bindings, n) == a + b);
        assert forall|x: BindingConfig| #[trigger] ranked_below(bindings, n).contains(x) <==> (bindings.contains(x)
            && key_rank(x.key) < n) by {
            let c = a + b;
            if a.contains(x) {
                let i = choose|i: int| 0 <= i < a.len() && a[i] == x;
                assert(c[i] == x);
            }
            if b.contains(x) {
                let i = choose|i: int| 0 <= i < b.len() && b[i] == x;
                assert(c[a.len() + i] == x);
            }
            if c.contains(x) {
                let i = choose|i: int| 0 <= i < c.len() && c[i] == x;
                if i < a.len() {
                    assert(a[i] == x);
                } else {
                    assert(b[i - a.len()] == x);
                }
            }
            if bindings.contains(x) && key_rank(x.key) < n {
                if key_rank(x.key) < n - 1 {
                    assert(a.contains(x));
                } else {
                    assert(b.contains(x));
                }
            }
        }
        if distinct_keys(bindings) {
            let c = a + b;
            assert forall|i: int, j: int| 0 <= i < j < c.len() implies #[trigger] c[i].key != #[trigger] c[j].key by {
                if j < a.len() {
                    assert(c[i] == a[i] && c[j] == a[j]);
                } else if i < a.len() {
                    assert(c[i] == a[i] && a.contains(a[i]));
                    assert(c[j] == b[j - a.len()] && b.contains(b[j - a.len()]));
                } else {
                    assert(false);
                }
            }
        }
    }
}

proof fn lemma_stored_action_of_distinct(bindings: Seq<BindingConfig>, key: NumpadKeyConfig)
    requires
        distinct_keys(bindings),
    ensures
        forall|a: InputActionConfig| stored_action(bindings, key) == Some(a) <==> bindings.contains(
            BindingConfig { key, action: a },
        ),
        stored_action(bindings, key) is None <==> forall|i: int|
            0 <= i < bindings.len() ==> bindings[i].key != key,
{
    lemma_first_position(bindings, key);
    assert forall|a: InputActionConfig| stored_action(bindings, key) == Some(a) <==> bindings.contains(
        BindingConfig { key, action: a },
    ) by {
        if bindings.contains(BindingConfig { key, action: a }) {
            let j = choose|j: int| 0 <= j < bindings.len() && bindings[j] == BindingConfig { key, action: a };
            let i = first_position(bindings, key)->0;
            if i != j {
                assert(bindings[i].key == bindings[j].key);
            }
        }
        if stored_action(bindings, key) == Some(a) {
            let i = first_position(bindings, key)->0;
            assert(bindings[i] == BindingConfig { key, action: a });
        }
    }
}

proof fn lemma_edit_keeps_keys_distinct(
    bindings: Seq<BindingConfig>,
    key: NumpadKeyConfig,
    action: Option<InputActionConfig>,
)
    requires
        distinct_keys(bindings),
    ensures
        distinct_keys(edited(bindings, key, action)),
{
    let e = edited(bindings, key, action);
    lemma_first_position(bindings, key);
    assert(distinct_keys(e)) by {
        match (first_position(bindings, key), action) {
            (Some(p), Some(a)) => {
                assert forall|i: int, j: int| 0 <= i < j < e.len() implies #[trigger] e[i].key != #[trigger] e[j].key by {
                    assert(bindings[i].key != bindings[j].key);
                }
            },
            (Some(p), None) => {
                assert forall|i: int, j: int| 0 <= i < j < e.len() implies #[trigger] e[i].key != #[trigger] e[j].key by {
                    let i0 = if i < p { i } else { i + 1 };
                    let j0 = if j < p { j } else { j + 1 };
                    assert(e[i] == bindings[i0] && e[j] == bindings[j0]);
                    assert(bindings[i0].key != bindings[j0].key);
                }
            },
            (None, Some(a)) => {
                assert forall|i: int, j: int| 0 <= i < j < e.len() implies #[trigger] e[i].key != #[trigger] e[j].key by {
                    if j < bindings.len() {
                        assert(bindings[i].key != bindings[j].key);
                    }
                }
            },
            (None, None) => {},
        }
    }
}

proof fn lemma_sort_keeps_reads(e: Seq<BindingConfig>)
    requires
        distinct_keys(e),
    ensures
        distinct_keys(sorted_by_key(e)),
        forall|k: NumpadKeyConfig| #[trigger] stored_action(sorted_by_key(e), k) == stored_action(e, k),
{
    let s = sorted_by_key(e);
    lemma_ranked_below(e, NUMPAD_KEY_COUNT as int);
    assert forall|x: BindingConfig| #[trigger] s.contains(x) <==> e.contains(x) by {
        lemma_rank_identifies_key(x.key, x.key);
    }
    assert forall|k: NumpadKeyConfig| #[trigger] stored_action(s, k) == stored_action(e, k) by {
        lemma_stored_action_of_distinct(s, k);
        lemma_stored_action_of_distinct(e, k);
        if let Some(a) = stored_action(e, k) {
            assert(e.contains(BindingConfig { key: k, action: a }));
        }
        if let Some(a) = stored_action(s, k) {
            assert(s.contains(BindingConfig { key: k, action: a }));
        }
        if let Some(a) = stored_action(e, k) {
            let j = choose|j: int| 0 <= j < e.len() && e[j] == BindingConfig { key: k, action: a };
            assert(s.contains(e[j]));
            let i = choose|i: int| 0 <= i < s.len() && s[i] == e[j];
            assert(s[i].key == k);
        }
    }
}

proof fn lemma_read_at(t: Seq<BindingConfig>, i: int)
    requires
        distinct_keys(t),
        0 <= i < t.len(),
    ensures
        stored_action(t, t[i].key) == Some(t[i].action),
{
    lemma_first_position(t, t[i].key);
    let j = first_position(t, t[i].key)->0;
    if j != i {
        if j < i {
            assert(t[j].key != t[i].key);
        } else {
            assert(t[i].key != t[j].key);
        }
    }
}

proof fn lemma_read_absent(t: Seq<BindingConfig>, k: NumpadKeyConfig)
    requires
        forall|i: int| 0 <= i < t.len() ==> t[i].key != k,
    ensures
        stored_action(t, k) is None,
{
    lemma_first_position(t, k);
}

proof fn lemma_edit_reads_replace(
    bindings: Seq<BindingConfig>,
    key: NumpadKeyConfig,
    a: InputActionConfig,
    p: int,
    other: NumpadKeyConfig,
)
    requires
        distinct_keys(bindings),
        first_position(bindings, key) == Some(p),
    ensures
        stored_action(edited(bindings, key, Some(a)), key) == Some(a),
        other != key ==> stored_action(edited(bindings, key, Some(a)), other) == stored_action(bindings, other),
{
    let e = edited(bindings, key, Some(a));
    lemma_first_position(bindings, key);
    lemma_edit_keeps_keys_distinct(bindings, key, Some(a));
    assert(e[p] == BindingConfig { key, action: a });
    lemma_read_at(e, p);
    if other != key {
        if exists|i: int| 0 <= i < bindings.len() && bindings[i].key == other {
            let i = choose|i: int| 0 <= i < bindings.len() && bindings[i].key == other;
            assert(e[i] == bindings[i]);
            lemma_read_at(e, i);
            lemma_read_at(bindings, i);
        } else {
            assert forall|i: int| 0 <= i < e.len() implies e[i].key != other by {
                if i != p {
                    assert(e[i] == bindings[i]);
                }
            }
            lemma_read_absent(e, other);
            lemma_read_absent(bindings, other);
        }
    }
}

proof fn lemma_remove_shifts(bindings: Seq<BindingConfig>, p: int)
    requires
        0 <= p < bindings.len(),
    ensures
        bindings.remove(p).len() == bindings.len() - 1,
        forall|i: int| 0 <= i < p ==> #[trigger] bindings.remove(p)[i] == bindings[i],
        forall|i: int| p <= i < bindings.len() - 1 ==> #[trigger] bindings.remove(p)[i] == bindings[i + 1],
{
}

proof fn lemma_edit_remove_clears_key(bindings: Seq<BindingConfig>, key: NumpadKeyConfig, p: int)
    requires
        distinct_keys(bindings),
        first_position(bindings, key) == Some(p),
    ensures
        stored_action(edited(bindings, key, None), key) is None,
{
    let e = edited(bindings, key, None);
    lemma_first_position(bindings, key);
    lemma_remove_shifts(bindings, p);
    assert(e == bindings.remove(p));
    assert forall|i: int| 0 <= i < e.len() implies e[i].key != key by {
        let i0 = if i < p { i } else { i + 1 };
        assert(e[i] == bindings[i0]);
        if i0 < p {
            assert(bindings[i0].key != bindings[p].key);
        } else {
            assert(bindings[p].key != bindings[i0].key);
        }
    }
    lemma_read_absent(e, key);
}

proof fn lemma_edit_remove_keeps_other(
    bindings: Seq<BindingConfig>,
    key: NumpadKeyConfig,
    p: int,
    other: NumpadKeyConfig,
)
    requires
        distinct_keys(bindings),
        first_position(bindings, key) == Some(p),
        other != key,
    ensures
        stored_action(edited(bindings, key, None), other) == stored_action(bindings, other),
{
    let e = edited(bindings, key, None);
    lemma_first_position(bindings, key);
    lemma_edit_keeps_keys_distinct(bindings, key, None);
    lemma_remove_shifts(bindings, p);
    assert(e == bindings.remove(p));
    if exists|i: int| 0 <= i < bindings.len() && bindings[i].key == other {
        let i = choose|i: int| 0 <= i < bindings.len() && bindings[i].key == other;
        let i1 = if i < p { i } else { i - 1 };
        assert(e[i1] == bindings[i]);
        lemma_read_at(e, i1);
        lemma_read_at(bindings, i);
    } else {
        assert forall|i: int| 0 <= i < e.len() implies e[i].key != other by {
            let i0 = if i < p { i } else { i + 1 };
            assert(e[i] == bindings[i0]);
        }
        lemma_read_absent(e, other);
        lemma_read_absent(bindings, other);
    }
}

proof fn lemma_edit_reads_remove(
    bindings: Seq<BindingConfig>,
    key: NumpadKeyConfig,
    p: int,
    other: NumpadKeyConfig,
)
    requires
        distinct_keys(bindings),
        first_position(bindings, key) == Some(p),
    ensures
        stored_action(edited(bindings, key, None), key) is None,
        other != key ==> stored_action(edited(bindings, key, None), other) == stored_action(bindings, other),
{
    lemma_edit_remove_clears_key(bindings, key, p);
    if other != key {
        lemma_edit_remove_keeps_other(bindings, key, p, other);
    }
}

proof fn lemma_edit_reads_append(
    bindings: Seq<BindingConfig>,
    key: NumpadKeyConfig,
    a: InputActionConfig,
    other: NumpadKeyConfig,
)
    requires
        distinct_keys(bindings),
        first_position(bindings, key) is None,
    ensures
        stored_action(edited(bindings, key, Some(a)), key) == Some(a),
        other != key ==> stored_action(edited(bindings, key, Some(a)), other) == stored_action(bindings, other),
{
    let e = edited(bindings, key, Some(a));
    lemma_first_position(bindings, key);
    lemma_edit_keeps_keys_distinct(bindings, key, Some(a));
    let n = bindings.len() as int;
    assert(e[n] == BindingConfig { key, action: a });
    lemma_read_at(e, n);
    if other != key {
        if exists|i: int| 0 <= i < bindings.len() && bindings[i].key == other {
            let i = choose|i: int| 0 <= i < bindings.len() && bindings[i].key == other;
            assert(e[i] == bindings[i]);
            lemma_read_at(e, i);
            lemma_read_at(bindings, i);
        } else {
            assert forall|i: int| 0 <= i < e.len() implies e[i].key != other by {
                if i < n {
                    assert(e[i] == bindings[i]);
                }
            }
            lemma_read_absent(e, other);
            lemma_read_absent(bindings, other);
        }
    }
}

proof fn lemma_edit_reads(
    bindings: Seq<BindingConfig>,
    key: NumpadKeyConfig,
    action: Option<InputActionConfig>,
    other: NumpadKeyConfig,
)
    requires
        distinct_keys(bindings),
    ensures
        stored_action(edited(bindings, key, action), key) == action,
        other != key ==> stored_action(edited(bindings, key, action), other) == stored_action(bindings, other),
{
    lemma_first_position(bindings, key);
    match (first_position(bindings, key), action) {
        (Some(p), Some(a)) => lemma_edit_reads_replace(bindings, key, a, p, other),
        (Some(p), None) => lemma_edit_reads_remove(bindings, key, p, other),
        (None, Some(a)) => lemma_edit_reads_append(bindings, key, a, other),
        (None, None) => {
            lemma_read_absent(bindings, key);
        },
    }
}

/// Editing a profile whose stored bindings bind no key twice: afterwards the key gives the
/// action that was set (none when it was unbound), every other key gives what it gave before,
/// and still no key is bound twice.
pub proof fn lemma_set_binding_then_read(
    bindings: Seq<BindingConfig>,
    key: NumpadKeyConfig,
    action: Option<InputActionConfig>,
    other: NumpadKeyConfig,
)
    requires
        distinct_keys(bindings),
    ensures
        stored_action(sorted_by_key(edited(bindings, key, action)), key) == action,
        other != key ==> stored_action(sorted_by_key(edited(bindings, key, action)), other)
            == stored_action(bindings, other),
        distinct_keys(sorted_by_key(edited(bindings, key, action))),
{
    lemma_edit_keeps_keys_distinct(bindings, key, action);
    lemma_sort_keeps_reads(edited(bindings, key, action));
    lemma_edit_reads(bindings, key, action, other);
}

/// The label the editor shows for a choice.
pub open spec fn action_label_of(action: Option<InputActionConfig>) -> &'static str {
    match action {
        None => "Unbound",
        Some(InputActionConfig::Move(DirectionConfig::Up)) => "Up",
        Some(InputActionConfig::Move(DirectionConfig::Down)) => "Down",
        Some(InputActionConfig::Move(DirectionConfig::Left)) => "Left",
        Some(InputActionConfig::Move(DirectionConfig::Right)) => "Right",
        Some(InputActionConfig::Move(DirectionConfig::UpLeft)) => "Up-left",
        Some(InputActionConfig::Move(DirectionConfig::UpRight)) => "Up-right",
        Some(InputActionConfig::Move(DirectionConfig::DownLeft)) => "Down-left",
        Some(InputActionConfig::Move(DirectionConfig::DownRight)) => "Down-right",
        Some(InputActionConfig::Click) => "Click",
        Some(InputActionConfig::DoubleClick) => "Double click",
        Some(InputActionConfig::Hold) => "Hold / drag",
        Some(InputActionConfig::Release) => "Release",
        Some(InputActionConfig::SelectButton(MouseButtonConfig::Left)) => "Select left",
        Some(InputActionConfig::SelectButton(MouseButtonConfig::Right)) => "Select right",
        Some(InputActionConfig::SelectButton(MouseButtonConfig::Middle)) => "Select middle",
        Some(InputActionConfig::ToggleEnabled) => "Toggle NumFlow",
        Some(InputActionConfig::SetEnabled(true)) => "Enable NumFlow",
        Some(InputActionConfig::SetEnabled(false)) => "Disable NumFlow",
        Some(InputActionConfig::SetPrecision(true)) => "Precision on",
        Some(InputActionConfig::SetPrecision(false)) => "Precision off",
    }
}

/// Returns the label the editor shows for a choice.
pub fn action_label(action: Option<InputActionConfig>) -> (label: &'static str)
    ensures
        label == action_label_of(action),
{
    match action {
        None => "Unbound",
        Some(InputActionConfig::Move(DirectionConfig::Up)) => "Up",
        Some(InputActionConfig::Move(DirectionConfig::Down)) => "Down",
        Some(InputActionConfig::Move(DirectionConfig::Left)) => "Left",
        Some(InputActionConfig::Move(DirectionConfig::Right)) => "Right",
        Some(InputActionConfig::Move(DirectionConfig::UpLeft)) => "Up-left",
        Some(InputActionConfig::Move(DirectionConfig::UpRight)) => "Up-right",
        Some(InputActionConfig::Move(DirectionConfig::DownLeft)) => "Down-left",
        Some(InputActionConfig::Move(DirectionConfig::DownRight)) => "Down-right",
        Some(InputActionConfig::Click) => "Click",
        Some(InputActionConfig::DoubleClick) => "Double click",
        Some(InputActionConfig::Hold) => "Hold / drag",
        Some(InputActionConfig::Release) => "Release",
        Some(InputActionConfig::SelectButton(MouseButtonConfig::Left)) => "Select left",
        Some(InputActionConfig::SelectButton(MouseButtonConfig::Right)) => "Select right",
        Some(InputActionConfig::SelectButton(MouseButtonConfig::Middle)) => "Select middle",
        Some(InputActionConfig::ToggleEnabled) => "Toggle NumFlow",
        Some(InputActionConfig::SetEnabled(true)) => "Enable NumFlow",
        Some(InputActionConfig::SetEnabled(false)) => "Disable NumFlow",
        Some(InputActionConfig::SetPrecision(true)) => "Precision on",
        Some(InputActionConfig::SetPrecision(false)) => "Precision off",
    }
}

} // verus!
