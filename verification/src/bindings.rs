//! NumPad keys and the table that binds each of them to an action.

use vstd::prelude::*;

use crate::action::{Direction, InputAction, MouseButton, direction_vector};

verus! {

/// A key of the numeric keypad.
#[derive(Debug, Clone, Copy, PartialEq, Eq, Hash, PartialOrd, Ord, Structural)]
pub enum NumpadKey {
    Num0,
    Num1,
    Num2,
    Num3,
    Num4,
    Num5,
    Num6,
    Num7,
    Num8,
    Num9,
    Add,
    Decimal,
    Divide,
    Multiply,
    Subtract,
}

/// Number of NumPad keys.
pub const NUMPAD_KEY_COUNT: usize = 15;

/// The position of a key in declaration order, which is also the order in which keys compare.
pub open spec fn key_index(key: NumpadKey) -> int {
    match key {
        NumpadKey::Num0 => 0,
        NumpadKey::Num1 => 1,
        NumpadKey::Num2 => 2,
        NumpadKey::Num3 => 3,
        NumpadKey::Num4 => 4,
        NumpadKey::Num5 => 5,
        NumpadKey::Num6 => 6,
        NumpadKey::Num7 => 7,
        NumpadKey::Num8 => 8,
        NumpadKey::Num9 => 9,
        NumpadKey::Add => 10,
        NumpadKey::Decimal => 11,
        NumpadKey::Divide => 12,
        NumpadKey::Multiply => 13,
        NumpadKey::Subtract => 14,
    }
}

/// The key at a position in declaration order.
pub open spec fn key_at(index: int) -> NumpadKey {
    if index <= 0 {
        NumpadKey::Num0
    } else if index == 1 {
        NumpadKey::Num1
    } else if index == 2 {
        NumpadKey::Num2
    } else if index == 3 {
        NumpadKey::Num3
    } else if index == 4 {
        NumpadKey::Num4
    } else if index == 5 {
        NumpadKey::Num5
    } else if index == 6 {
        NumpadKey::Num6
    } else if index == 7 {
        NumpadKey::Num7
    } else if index == 8 {
        NumpadKey::Num8
    } else if index == 9 {
        NumpadKey::Num9
    } else if index == 10 {
        NumpadKey::Add
    } else if index == 11 {
        NumpadKey::Decimal
    } else if index == 12 {
        NumpadKey::Divide
    } else if index == 13 {
        NumpadKey::Multiply
    } else {
        NumpadKey::Subtract
    }
}

/// Positions and keys correspond one to one.
pub proof fn lemma_key_index_bijective(key: NumpadKey, index: int)
    ensures
        0 <= key_index(key) < 15,
        key_at(key_index(key)) == key,
        0 <= index < 15 ==> key_index(key_at(index)) == index,
{
}

/// Returns the position of a key in declaration order.
pub fn key_slot(key: NumpadKey) -> (index: usize)
    ensures
        index == key_index(key),
        index < NUMPAD_KEY_COUNT,
{
    match key {
        NumpadKey::Num0 => 0,
        NumpadKey::Num1 => 1,
        NumpadKey::Num2 => 2,
        NumpadKey::Num3 => 3,
        NumpadKey::Num4 => 4,
        NumpadKey::Num5 => 5,
        NumpadKey::Num6 => 6,
        NumpadKey::Num7 => 7,
        NumpadKey::Num8 => 8,
        NumpadKey::Num9 => 9,
        NumpadKey::Add => 10,
        NumpadKey::Decimal => 11,
        NumpadKey::Divide => 12,
        NumpadKey::Multiply => 13,
        NumpadKey::Subtract => 14,
    }
}

/// Returns the key at a position in declaration order.
pub fn key_from_slot(index: usize) -> (key: NumpadKey)
    requires
        index < NUMPAD_KEY_COUNT,
    ensures
        key == key_at(index as int),
        key_index(key) == index,
{
    match index {
        0 => NumpadKey::Num0,
        1 => NumpadKey::Num1,
        2 => NumpadKey::Num2,
        3 => NumpadKey::Num3,
        4 => NumpadKey::Num4,
        5 => NumpadKey::Num5,
        6 => NumpadKey::Num6,
        7 => NumpadKey::Num7,
        8 => NumpadKey::Num8,
        9 => NumpadKey::Num9,
        10 => NumpadKey::Add,
        11 => NumpadKey::Decimal,
        12 => NumpadKey::Divide,
        13 => NumpadKey::Multiply,
        _ => NumpadKey::Subtract,
    }
}

/// The value a map holds for a key, if any.
pub open spec fn lookup(map: Map<NumpadKey, InputAction>, key: NumpadKey) -> Option<InputAction> {
    if map.dom().contains(key) {
        Some(map[key])
    } else {
        None
    }
}

/// The action each key has before the user changes anything.
pub open spec fn default_action(key: NumpadKey) -> InputAction {
    match key {
        NumpadKey::Num8 => InputAction::Move(Direction::Up),
        NumpadKey::Num2 => InputAction::Move(Direction::Down),
        NumpadKey::Num4 => InputAction::Move(Direction::Left),
        NumpadKey::Num6 => InputAction::Move(Direction::Right),
        NumpadKey::Num7 => InputAction::Move(Direction::UpLeft),
        NumpadKey::Num9 => InputAction::Move(Direction::UpRight),
        NumpadKey::Num1 => InputAction::Move(Direction::DownLeft),
        NumpadKey::Num3 => InputAction::Move(Direction::DownRight),
        NumpadKey::Num5 => InputAction::Click,
        NumpadKey::Add => InputAction::DoubleClick,
        NumpadKey::Num0 => InputAction::Hold,
        NumpadKey::Decimal => InputAction::Release,
        NumpadKey::Divide => InputAction::SelectButton(MouseButton::Left),
        NumpadKey::Multiply => InputAction::SelectButton(MouseButton::Right),
        NumpadKey::Subtract => InputAction::SelectButton(MouseButton::Middle),
    }
}

/// By default the digit keys around 5 move the pointer the way they lie from 5 on the keypad:
/// a key in column `c` and row `r` of the 7-8-9 / 4-5-6 / 1-2-3 block (columns and rows
/// counted from 0, rows from the bottom) moves by `c - 1` across and, the screen's y axis
/// pointing down, by `1 - r` down; 5 itself clicks.
pub proof fn lemma_default_moves_follow_the_keypad(key: NumpadKey)
    requires
        1 <= key_index(key) <= 9,
    ensures
        key_index(key) == 5 ==> default_action(key) == InputAction::Click,
        key_index(key) != 5 ==> (default_action(key) matches InputAction::Move(direction) && {
            let n = key_index(key) - 1;
            &&& direction_vector(direction).0 as int == n % 3 - 1
            &&& direction_vector(direction).1 as int == 1 - n / 3
        }),
{
}

/// By default each mouse button is selected by exactly one key, in keypad order: / selects
/// the left button, * the right one and - the middle one; no other key selects a button.
pub proof fn lemma_default_selection_covers_each_button_once(key: NumpadKey, button: MouseButton)
    ensures
        default_action(key) == InputAction::SelectButton(button) <==> (
            (key == NumpadKey::Divide && button == MouseButton::Left)
            || (key == NumpadKey::Multiply && button == MouseButton::Right)
            || (key == NumpadKey::Subtract && button == MouseButton::Middle)),
        exists|k: NumpadKey| #[trigger] default_action(k) == InputAction::SelectButton(button),
{
    match button {
        MouseButton::Left => assert(default_action(NumpadKey::Divide) == InputAction::SelectButton(button)),
        MouseButton::Right => assert(default_action(NumpadKey::Multiply) == InputAction::SelectButton(button)),
        MouseButton::Middle => assert(default_action(NumpadKey::Subtract) == InputAction::SelectButton(button)),
    }
}

/// By default 0 latches the selected button, the decimal key releases it, + double clicks
/// and 5 clicks; these are the only keys bound to these actions.
pub proof fn lemma_default_button_keys(key: NumpadKey)
    ensures
        (default_action(key) == InputAction::Hold) <==> key == NumpadKey::Num0,
        (default_action(key) == InputAction::Release) <==> key == NumpadKey::Decimal,
        (default_action(key) == InputAction::DoubleClick) <==> key == NumpadKey::Add,
        (default_action(key) == InputAction::Click) <==> key == NumpadKey::Num5,
{
}

/// The default table: every key bound to its default action.
pub open spec fn default_bindings_map() -> Map<NumpadKey, InputAction> {
    Map::total(|key: NumpadKey| default_action(key))
}

/// Returns the action a key has before the user changes anything.
pub fn default_action_for(key: NumpadKey) -> (action: InputAction)
    ensures
        action == default_action(key),
{
    match key {
        NumpadKey::Num8 => InputAction::Move(Direction::Up),
        NumpadKey::Num2 => InputAction::Move(Direction::Down),
        NumpadKey::Num4 => InputAction::Move(Direction::Left),
        NumpadKey::Num6 => InputAction::Move(Direction::Right),
        NumpadKey::Num7 => InputAction::Move(Direction::UpLeft),
        NumpadKey::Num9 => InputAction::Move(Direction::UpRight),
        NumpadKey::Num1 => InputAction::Move(Direction::DownLeft),
        NumpadKey::Num3 => InputAction::Move(Direction::DownRight),
        NumpadKey::Num5 => InputAction::Click,
        NumpadKey::Add => InputAction::DoubleClick,
        NumpadKey::Num0 => InputAction::Hold,
        NumpadKey::Decimal => InputAction::Release,
        NumpadKey::Divide => InputAction::SelectButton(MouseButton::Left),
        NumpadKey::Multiply => InputAction::SelectButton(MouseButton::Right),
        NumpadKey::Subtract => InputAction::SelectButton(MouseButton::Middle),
    }
}

/// A list that holds every entry of a map exactly once, in increasing key order.
pub open spec fn is_ordered_listing(
    list: Seq<(NumpadKey, InputAction)>,
    map: Map<NumpadKey, InputAction>,
) -> bool {
    &&& forall|a: int, b: int|
        0 <= a < b < list.len() ==> key_index(#[trigger] list[a].0) < key_index(#[trigger] list[b].0)
    &&& forall|a: int| 0 <= a < list.len() ==> lookup(map, #[trigger] list[a].0) == Some(list[a].1)
    &&& forall|key: NumpadKey|
        #[trigger] map.dom().contains(key) ==> exists|a: int|
            0 <= a < list.len() && #[trigger] list[a].0 == key
}

/// An ordered listing of a table has one entry per bound key: its length is the number of
/// keys the table binds.
pub proof fn lemma_listing_counts_bound_keys(
    list: Seq<(NumpadKey, InputAction)>,
    map: Map<NumpadKey, InputAction>,
)
    requires
        is_ordered_listing(list, map),
    ensures
        map.dom().finite(),
        list.len() == map.dom().len(),
{
    let keys = list.map_values(|entry: (NumpadKey, InputAction)| entry.0);
    assert forall|a: int, b: int| 0 <= a < keys.len() && 0 <= b < keys.len() && a != b implies keys[a]
        != keys[b] by {
        if a < b {
            assert(key_index(list[a].0) < key_index(list[b].0));
        } else {
            assert(key_index(list[b].0) < key_index(list[a].0));
        }
    }
    assert(keys.no_duplicates());
    assert forall|key: NumpadKey| keys.to_set().contains(key) <==> map.dom().contains(key) by {
        if map.dom().contains(key) {
            let a = choose|a: int| 0 <= a < list.len() && #[trigger] list[a].0 == key;
            assert(keys[a] == key);
        }
        if keys.to_set().contains(key) {
            let a = choose|a: int| 0 <= a < keys.len() && keys[a] == key;
            assert(lookup(map, list[a].0) == Some(list[a].1));
        }
    }
    assert(keys.to_set() =~= map.dom());
    keys.unique_seq_to_set();
}

/// The ordered listing of the default table holds every key, at its own position, with its
/// default action.
pub proof fn lemma_default_listing(list: Seq<(NumpadKey, InputAction)>)
    requires
        is_ordered_listing(list, default_bindings_map()),
    ensures
        list.len() == NUMPAD_KEY_COUNT,
        forall|i: int| 0 <= i < NUMPAD_KEY_COUNT ==> #[trigger] list[i] == (key_at(i), default_action(key_at(i))),
{
    let map = default_bindings_map();
    assert forall|a: int| 0 <= a < list.len() implies a <= key_index(#[trigger] list[a].0) by {
        lemma_index_at_least_position(list, map, a);
    }
    assert forall|j: int| #![trigger key_at(j)] 0 <= j < NUMPAD_KEY_COUNT implies exists|a: int|
        0 <= a < list.len() && #[trigger] list[a].0 == key_at(j) by {
        assert(map.dom().contains(key_at(j)));
    }
    assert forall|a: int| 0 <= a < list.len() implies key_index(#[trigger] list[a].0) < 15 by {
        lemma_key_index_bijective(list[a].0, 0);
    }
    lemma_listing_position(list, map, 14);
    assert(list.len() <= 15) by {
        if list.len() > 15 {
            assert(15 <= key_index(list[15].0));
        }
    }
    assert forall|i: int| 0 <= i < NUMPAD_KEY_COUNT implies #[trigger] list[i] == (key_at(i), default_action(key_at(i))) by {
        lemma_listing_position(list, map, i);
        lemma_key_index_bijective(list[i].0, i);
        assert(lookup(map, list[i].0) == Some(list[i].1));
    }
}

proof fn lemma_index_at_least_position(
    list: Seq<(NumpadKey, InputAction)>,
    map: Map<NumpadKey, InputAction>,
    a: int,
)
    requires
        is_ordered_listing(list, map),
        0 <= a < list.len(),
    ensures
        a <= key_index(list[a].0),
    decreases a,
{
    lemma_key_index_bijective(list[a].0, 0);
    if a > 0 {
        lemma_index_at_least_position(list, map, a - 1);
        assert(key_index(list[a - 1].0) < key_index(list[a].0));
    }
}

proof fn lemma_listing_position(list: Seq<(NumpadKey, InputAction)>, map: Map<NumpadKey, InputAction>, i: int)
    requires
        is_ordered_listing(list, map),
        forall|a: int| 0 <= a < list.len() ==> a <= key_index(#[trigger] list[a].0),
        forall|j: int|
            #![trigger key_at(j)]
            0 <= j < NUMPAD_KEY_COUNT ==> exists|a: int| 0 <= a < list.len() && #[trigger] list[a].0 == key_at(j),
        0 <= i < NUMPAD_KEY_COUNT,
    ensures
        i < list.len(),
        key_index(list[i].0) == i,
    decreases i,
{
    if i > 0 {
        lemma_listing_position(list, map, i - 1);
    }
    assert forall|c: int| 0 <= c < i implies key_index(#[trigger] list[c].0) == c by {
        lemma_listing_position(list, map, c);
    }
    let b = choose|b: int| 0 <= b < list.len() && #[trigger] list[b].0 == key_at(i);
    lemma_key_index_bijective(key_at(i), i);
    assert(key_index(list[b].0) == i);
    if b < i {
        assert(i <= key_index(list[i].0));
        assert(key_index(list[b].0) < key_index(list[i].0));
    } else if b > i {
        assert(key_index(list[i].0) < key_index(list[b].0));
        assert(i <= key_index(list[i].0));
    }
}

/// Binding a key makes a lookup of that key give back the bound action and leaves every other
/// key as it was.
pub proof fn lemma_bind_then_lookup(
    map: Map<NumpadKey, InputAction>,
    key: NumpadKey,
    action: InputAction,
    other: NumpadKey,
)
    ensures
        lookup(map.insert(key, action), key) == Some(action),
        other != key ==> lookup(map.insert(key, action), other) == lookup(map, other),
{
}

/// Unbinding a key makes a lookup of that key give nothing and leaves every other key as it was.
pub proof fn lemma_unbind_then_lookup(map: Map<NumpadKey, InputAction>, key: NumpadKey, other: NumpadKey)
    ensures
        lookup(map.remove(key), key) == None::<InputAction>,
        other != key ==> lookup(map.remove(key), other) == lookup(map, other),
{
}

/// The table from NumPad keys to actions. A key is bound to at most one action.
#[derive(Debug)]
pub struct Bindings {
    entries: Vec<Option<InputAction>>,
}

impl Default for Bindings {
    /// Returns the default table, in which every key is bound to its default action.
    fn default() -> (bindings: Self)
        ensures
            bindings@ == default_bindings_map(),
    {
        let mut entries: Vec<Option<InputAction>> = Vec::new();
        let mut i: usize = 0;
        while i < NUMPAD_KEY_COUNT
            invariant
                i <= NUMPAD_KEY_COUNT,
                entries@.len() == i,
                forall|j: int| 0 <= j < i ==> #[trigger] entries@[j] == Some(default_action(key_at(j))),
            decreases NUMPAD_KEY_COUNT - i,
        {
            let key = key_from_slot(i);
            entries.push(Some(default_action_for(key)));
            i = i + 1;
        }
        let bindings = Bindings { entries };
        proof {
            assert forall|key: NumpadKey| #[trigger] bindings.entries@[key_index(key)] == Some(
                default_action(key),
            ) by {
                lemma_key_index_bijective(key, 0);
            }
            assert(bindings@ =~= default_bindings_map());
        }
        bindings
    }
}

impl Clone for Bindings {
    /// Returns a table with the same bindings.
    fn clone(&self) -> (copy: Self)
        ensures
            copy@ == self@,
    {
        proof {
            use_type_invariant(self);
        }
        let mut entries: Vec<Option<InputAction>> = Vec::new();
        let mut i: usize = 0;
        while i < NUMPAD_KEY_COUNT
            invariant
                i <= NUMPAD_KEY_COUNT,
                self.entries@.len() == NUMPAD_KEY_COUNT,
                entries@ == self.entries@.take(i as int),
            decreases NUMPAD_KEY_COUNT - i,
        {
            entries.push(self.entries[i]);
            i = i + 1;
            assert(entries@ =~= self.entries@.take(i as int));
        }
        assert(entries@ =~= self.entries@);
        Bindings { entries }
    }
}

impl View for Bindings {
    type V = Map<NumpadKey, InputAction>;

    closed spec fn view(&self) -> Map<NumpadKey, InputAction> {
        Map::new(
            |key: NumpadKey| self.entries@[key_index(key)] is Some,
            |key: NumpadKey| self.entries@[key_index(key)]->0,
        )
    }
}

impl Bindings {
    #[verifier::type_invariant]
    closed spec fn well_formed(self) -> bool {
        self.entries@.len() == NUMPAD_KEY_COUNT
    }

    closed spec fn slot(self, key: NumpadKey) -> Option<InputAction> {
        self.entries@[key_index(key)]
    }

    proof fn lemma_view_is_slots(self)
        requires
            self.well_formed(),
        ensures
            forall|key: NumpadKey| #[trigger] lookup(self@, key) == self.slot(key),
    {
        assert forall|key: NumpadKey| #[trigger] lookup(self@, key) == self.slot(key) by {
            if self.entries@[key_index(key)] is Some {
                assert(self@.dom().contains(key));
            } else {
                assert(!self@.dom().contains(key));
            }
        }
    }

    /// Returns an ordered list of every bound key with its action, in increasing key order.
    pub fn iter(&self) -> (entries: Vec<(NumpadKey, InputAction)>)
        ensures
            is_ordered_listing(entries@, self@),
    {
        proof {
            use_type_invariant(self);
            self.lemma_view_is_slots();
        }
        let mut list: Vec<(NumpadKey, InputAction)> = Vec::new();
        let mut i: usize = 0;
        while i < NUMPAD_KEY_COUNT
            invariant
                i <= NUMPAD_KEY_COUNT,
                self.entries@.len() == NUMPAD_KEY_COUNT,
                forall|key: NumpadKey| #[trigger] lookup(self@, key) == self.slot(key),
                forall|a: int, b: int|
                    0 <= a < b < list@.len() ==> key_index(#[trigger] list@[a].0) < key_index(
                        #[trigger] list@[b].0,
                    ),
                forall|a: int|
                    0 <= a < list@.len() ==> key_index(#[trigger] list@[a].0) < i && self.slot(
                        list@[a].0,
                    ) == Some(list@[a].1),
                forall|j: int|
                    0 <= j < i && #[trigger] self.entries@[j] is Some ==> exists|a: int|
                        0 <= a < list@.len() && #[trigger] list@[a].0 == key_at(j),
            decreases NUMPAD_KEY_COUNT - i,
        {
            let key = key_from_slot(i);
            proof {
                lemma_key_index_bijective(key, i as int);
            }
            match self.entries[i] {
                Some(action) => {
                    let ghost before = list@;
                    list.push((key, action));
                    proof {
                        assert forall|j: int|
                            0 <= j < i + 1 && #[trigger] self.entries@[j] is Some implies exists|a: int|
                            0 <= a < list@.len() && #[trigger] list@[a].0 == key_at(j) by {
                            if j == i {
                                assert(list@[before.len() as int].0 == key_at(j));
                            } else {
                                let a = choose|a: int|
                                    0 <= a < before.len() && #[trigger] before[a].0 == key_at(j);
                                assert(list@[a] == before[a]);
                            }
                        }
                    }
                },
                None => {},
            }
            i = i + 1;
        }
        proof {
            assert forall|key: NumpadKey| #[trigger] self@.dom().contains(key) implies exists|a: int|
                0 <= a < list@.len() && #[trigger] list@[a].0 == key by {
                lemma_key_index_bijective(key, 0);
                assert(self.entries@[key_index(key)] is Some);
            }
            assert forall|a: int| 0 <= a < list@.len() implies lookup(self@, #[trigger] list@[a].0)
                == Some(list@[a].1) by {
                assert(lookup(self@, list@[a].0) == self.slot(list@[a].0));
            }
        }
        list
    }

    /// Returns a copy of the slots with one slot replaced.
    fn entries_with(&self, slot: usize, value: Option<InputAction>) -> (entries: Vec<
        Option<InputAction>,
    >)
        requires
            slot < NUMPAD_KEY_COUNT,
        ensures
            entries@ == self.entries@.update(slot as int, value),
    {
        proof {
            use_type_invariant(self);
        }
        let mut entries: Vec<Option<InputAction>> = Vec::new();
        let mut i: usize = 0;
        while i < NUMPAD_KEY_COUNT
            invariant
                i <= NUMPAD_KEY_COUNT,
                slot < NUMPAD_KEY_COUNT,
                self.entries@.len() == NUMPAD_KEY_COUNT,
                entries@ == self.entries@.update(slot as int, value).take(i as int),
            decreases NUMPAD_KEY_COUNT - i,
        {
            if i == slot {
                entries.push(value);
            } else {
                entries.push(self.entries[i]);
            }
            i = i + 1;
            assert(entries@ =~= self.entries@.update(slot as int, value).take(i as int));
        }
        assert(entries@ =~= self.entries@.update(slot as int, value));
        entries
    }

    /// Returns a table in which no key is bound.
    pub fn empty() -> (bindings: Self)
        ensures
            bindings@ == Map::<NumpadKey, InputAction>::empty(),
    {
        let mut entries: Vec<Option<InputAction>> = Vec::new();
        let mut i: usize = 0;
        while i < NUMPAD_KEY_COUNT
            invariant
                i <= NUMPAD_KEY_COUNT,
                entries@.len() == i,
                forall|j: int| 0 <= j < i ==> entries@[j] is None,
            decreases NUMPAD_KEY_COUNT - i,
        {
            entries.push(None);
            i = i + 1;
        }
        let bindings = Bindings { entries };
        assert(bindings@ =~= Map::<NumpadKey, InputAction>::empty());
        bindings
    }

    /// Returns the action bound to a key, if any.
    pub fn action_for(&self, key: NumpadKey) -> (action: Option<InputAction>)
        ensures
            action == lookup(self@, key),
    {
        proof {
            use_type_invariant(self);
            self.lemma_view_is_slots();
        }
        self.entries[key_slot(key)]
    }

    /// Binds a key to an action and returns the action it was bound to before, if any.
    pub fn bind(&mut self, key: NumpadKey, action: InputAction) -> (previous: Option<InputAction>)
        ensures
            final(self)@ == old(self)@.insert(key, action),
            previous == lookup(old(self)@, key),
    {
        proof {
            use_type_invariant(&*self);
            self.lemma_view_is_slots();
        }
        let slot = key_slot(key);
        let previous = self.entries[slot];
        let ghost before = self@;
        self.entries = self.entries_with(slot, Some(action));
        proof {
            assert forall|k: NumpadKey| #![trigger key_index(k)]
                key_index(k) == key_index(key) ==> k == key by {
                lemma_key_index_bijective(k, 0);
                lemma_key_index_bijective(key, 0);
            }
            assert(self@ =~= before.insert(key, action));
        }
        previous
    }

    /// Removes the binding of a key and returns the action it was bound to, if any.
    pub fn unbind(&mut self, key: NumpadKey) -> (previous: Option<InputAction>)
        ensures
            final(self)@ == old(self)@.remove(key),
            previous == lookup(old(self)@, key),
    {
        proof {
            use_type_invariant(&*self);
            self.lemma_view_is_slots();
        }
        let slot = key_slot(key);
        let previous = self.entries[slot];
        let ghost before = self@;
        self.entries = self.entries_with(slot, None);
        proof {
            assert forall|k: NumpadKey| #![trigger key_index(k)]
                key_index(k) == key_index(key) ==> k == key by {
                lemma_key_index_bijective(k, 0);
                lemma_key_index_bijective(key, 0);
            }
            assert(self@ =~= before.remove(key));
        }
        previous
    }
}

} // verus!
