//! Turns physical key events into bound NumPad actions, keeping track of which keys are down so
//! that auto-repeat is passed on for movement and suppressed for everything else.

use vstd::prelude::*;

use crate::action::InputAction;
use crate::bindings::{
    Bindings, NUMPAD_KEY_COUNT, NumpadKey, key_index, key_slot, lemma_key_index_bijective, lookup,
};
use crate::keymap::{KeyState, PhysicalKeyEvent, map_numpad_key, numpad_key_of};

verus! {

/// A NumPad key event with the action it is bound to.
#[derive(Debug, Clone, Copy, PartialEq, Eq, Structural)]
pub struct NormalizedKeyEvent {
    pub key: NumpadKey,
    pub action: InputAction,
    pub state: KeyState,
    pub repeated: bool,
}

/// The keys held down after an event and the normalized event, if one is passed on.
///
/// Events of keys outside the keypad, and of keys without a binding, are dropped and change
/// nothing. A press marks the key as down; it is a repeat if the key was down already, and a
/// repeat is dropped unless the key moves the pointer. A release marks the key as up and is
/// always passed on.
pub open spec fn normalize_step(
    pressed: Set<NumpadKey>,
    event: PhysicalKeyEvent,
    bindings: Map<NumpadKey, InputAction>,
) -> (Set<NumpadKey>, Option<NormalizedKeyEvent>) {
    match numpad_key_of(event.scan_code, event.extended) {
        None => (pressed, None),
        Some(key) => match lookup(bindings, key) {
            None => (pressed, None),
            Some(action) => match event.state {
                KeyState::Pressed => {
                    let repeated = pressed.contains(key);
                    if repeated && !(action is Move) {
                        (pressed.insert(key), None)
                    } else {
                        (
                            pressed.insert(key),
                            Some(
                                NormalizedKeyEvent {
                                    key,
                                    action,
                                    state: KeyState::Pressed,
                                    repeated,
                                },
                            ),
                        )
                    }
                },
                KeyState::Released => (
                    pressed.remove(key),
                    Some(NormalizedKeyEvent { key, action, state: KeyState::Released, repeated: false }),
                ),
            },
        },
    }
}

/// Tracks which bound NumPad keys are down.
#[derive(Debug)]
pub struct KeyboardEventNormalizer {
    pressed: Vec<bool>,
}

impl View for KeyboardEventNormalizer {
    type V = Set<NumpadKey>;

    closed spec fn view(&self) -> Set<NumpadKey> {
        Set::new(|key: NumpadKey| self.pressed@[key_index(key)])
    }
}

impl Default for KeyboardEventNormalizer {
    /// Returns a normalizer with no key down.
    fn default() -> (normalizer: Self)
        ensures
            normalizer@ == Set::<NumpadKey>::empty(),
    {
        let normalizer = KeyboardEventNormalizer { pressed: Self::all_up() };
        assert(normalizer@ =~= Set::<NumpadKey>::empty());
        normalizer
    }
}

impl KeyboardEventNormalizer {
    #[verifier::type_invariant]
    closed spec fn well_formed(self) -> bool {
        self.pressed@.len() == NUMPAD_KEY_COUNT
    }

    fn all_up() -> (pressed: Vec<bool>)
        ensures
            pressed@.len() == NUMPAD_KEY_COUNT,
            forall|i: int| 0 <= i < NUMPAD_KEY_COUNT ==> !#[trigger] pressed@[i],
    {
        let mut pressed: Vec<bool> = Vec::new();
        let mut i: usize = 0;
        while i < NUMPAD_KEY_COUNT
            invariant
                i <= NUMPAD_KEY_COUNT,
                pressed@.len() == i,
                forall|j: int| 0 <= j < i ==> !#[trigger] pressed@[j],
            decreases NUMPAD_KEY_COUNT - i,
        {
            pressed.push(false);
            i = i + 1;
        }
        pressed
    }

    fn mark(&mut self, key: NumpadKey, down: bool)
        ensures
            down ==> final(self)@ == old(self)@.insert(key),
            !down ==> final(self)@ == old(self)@.remove(key),
    {
        proof {
            use_type_invariant(&*self);
            lemma_key_index_bijective(key, 0);
        }
        let ghost before = self@;
        let slot = key_slot(key);
        let mut pressed = self.pressed.clone();
        pressed.set(slot, down);
        self.pressed = pressed;
        proof {
            assert forall|k: NumpadKey| #![trigger key_index(k)]
                key_index(k) == key_index(key) ==> k == key by {
                lemma_key_index_bijective(k, 0);
            }
            if down {
                assert(self@ =~= before.insert(key));
            } else {
                assert(self@ =~= before.remove(key));
            }
        }
    }

    /// Processes one physical event against the bindings: updates the keys held down and
    /// returns the normalized event to pass on, as `normalize_step` says.
    pub fn process(&mut self, event: PhysicalKeyEvent, bindings: &Bindings) -> (normalized:
        Option<NormalizedKeyEvent>)
        ensures
            (final(self)@, normalized) == normalize_step(old(self)@, event, bindings@),
    {
        let key = match map_numpad_key(event) {
            Some(key) => key,
            None => return None,
        };
        let action = match bindings.action_for(key) {
            Some(action) => action,
            None => return None,
        };
        match event.state {
            KeyState::Pressed => {
                let repeated = self.is_pressed(key);
                self.mark(key, true);
                if repeated && !matches!(action, InputAction::Move(_)) {
                    return None;
                }
                Some(NormalizedKeyEvent { key, action, state: KeyState::Pressed, repeated })
            },
            KeyState::Released => {
                self.mark(key, false);
                Some(NormalizedKeyEvent { key, action, state: KeyState::Released, repeated: false })
            },
        }
    }

    /// Forgets every key held down.
    pub fn reset(&mut self)
        ensures
            final(self)@ == Set::<NumpadKey>::empty(),
    {
        self.pressed = Self::all_up();
        assert(self@ =~= Set::<NumpadKey>::empty());
    }

    /// Whether a key is held down.
    pub fn is_pressed(&self, key: NumpadKey) -> (pressed: bool)
        ensures
            pressed == self@.contains(key),
    {
        proof {
            use_type_invariant(self);
            lemma_key_index_bijective(key, 0);
        }
        self.pressed[key_slot(key)]
    }
}

/// Holding a bound key down passes the first press on as a fresh press; while it stays down, a
/// further press is passed on (as a repeat) exactly when the key moves the pointer; and after
/// its release the key is up again and its next press is fresh.
pub proof fn lemma_repeats_pass_only_for_movement(
    pressed: Set<NumpadKey>,
    event: PhysicalKeyEvent,
    bindings: Map<NumpadKey, InputAction>,
    key: NumpadKey,
    action: InputAction,
)
    requires
        numpad_key_of(event.scan_code, event.extended) == Some(key),
        lookup(bindings, key) == Some(action),
        event.state == KeyState::Pressed,
    ensures
        ({
            let (after, first) = normalize_step(pressed, event, bindings);
            &&& after.contains(key)
            &&& !pressed.contains(key) ==> first == Some(
                NormalizedKeyEvent { key, action, state: KeyState::Pressed, repeated: false },
            )
            &&& normalize_step(after, event, bindings).1 is Some <==> action is Move
            &&& action is Move ==> normalize_step(after, event, bindings).1->0.repeated
        }),
        ({
            let released = PhysicalKeyEvent { state: KeyState::Released, ..event };
            let after = normalize_step(normalize_step(pressed, event, bindings).0, released, bindings).0;
            &&& !after.contains(key)
            &&& normalize_step(after, event, bindings).1 == Some(
                NormalizedKeyEvent { key, action, state: KeyState::Pressed, repeated: false },
            )
        }),
{
}

} // verus!
