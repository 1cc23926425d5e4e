//! Mouse input records for the Windows pointer and the bookkeeping of the buttons it holds, so
//! that a press is never sent twice, a click never lands on a held button, and a release sweep
//! releases exactly the held buttons.

use vstd::prelude::*;

use crate::action::MouseButton;

verus! {

/// Mouse input flag: relative move.
pub const MOUSEEVENTF_MOVE: u32 = 0x0001;
/// Mouse input flag: left button down.
pub const MOUSEEVENTF_LEFTDOWN: u32 = 0x0002;
/// Mouse input flag: left button up.
pub const MOUSEEVENTF_LEFTUP: u32 = 0x0004;
/// Mouse input flag: right button down.
pub const MOUSEEVENTF_RIGHTDOWN: u32 = 0x0008;
/// Mouse input flag: right button up.
pub const MOUSEEVENTF_RIGHTUP: u32 = 0x0010;
/// Mouse input flag: middle button down.
pub const MOUSEEVENTF_MIDDLEDOWN: u32 = 0x0020;
/// Mouse input flag: middle button up.
pub const MOUSEEVENTF_MIDDLEUP: u32 = 0x0040;

/// The press flag of a button.
pub open spec fn down_flag(button: MouseButton) -> u32 {
    match button {
        MouseButton::Left => MOUSEEVENTF_LEFTDOWN,
        MouseButton::Right => MOUSEEVENTF_RIGHTDOWN,
        MouseButton::Middle => MOUSEEVENTF_MIDDLEDOWN,
    }
}

/// The release flag of a button.
pub open spec fn up_flag(button: MouseButton) -> u32 {
    match button {
        MouseButton::Left => MOUSEEVENTF_LEFTUP,
        MouseButton::Right => MOUSEEVENTF_RIGHTUP,
        MouseButton::Middle => MOUSEEVENTF_MIDDLEUP,
    }
}

/// Returns the press flag of a button.
pub fn button_down_flag(button: MouseButton) -> (flag: u32)
    ensures
        flag == down_flag(button),
{
    match button {
        MouseButton::Left => MOUSEEVENTF_LEFTDOWN,
        MouseButton::Right => MOUSEEVENTF_RIGHTDOWN,
        MouseButton::Middle => MOUSEEVENTF_MIDDLEDOWN,
    }
}

/// Returns the release flag of a button.
pub fn button_up_flag(button: MouseButton) -> (flag: u32)
    ensures
        flag == up_flag(button),
{
    match button {
        MouseButton::Left => MOUSEEVENTF_LEFTUP,
        MouseButton::Right => MOUSEEVENTF_RIGHTUP,
        MouseButton::Middle => MOUSEEVENTF_MIDDLEUP,
    }
}

/// One mouse input record: a relative delta and the event flags.
#[derive(Debug, Clone, Copy, PartialEq, Eq, Structural)]
pub struct MouseInput {
    pub dx: i32,
    pub dy: i32,
    pub flags: u32,
}

/// Returns the mouse input record with a delta and flags.
pub fn mouse_input(dx: i32, dy: i32, flags: u32) -> (input: MouseInput)
    ensures
        input == (MouseInput { dx, dy, flags }),
{
    MouseInput { dx, dy, flags }
}

/// A record that only presses or releases a button.
pub open spec fn stationary(flags: u32) -> MouseInput {
    MouseInput { dx: 0, dy: 0, flags }
}

/// Returns one complete click: press, then release.
pub fn click_inputs(button: MouseButton) -> (inputs: [MouseInput; 2])
    ensures
        inputs@ == seq![stationary(down_flag(button)), stationary(up_flag(button))],
{
    let inputs = [mouse_input(0, 0, button_down_flag(button)), mouse_input(0, 0, button_up_flag(button))];
    assert(inputs@ =~= seq![stationary(down_flag(button)), stationary(up_flag(button))]);
    inputs
}

/// Returns two complete clicks in series.
pub fn double_click_inputs(button: MouseButton) -> (inputs: [MouseInput; 4])
    ensures
        inputs@ == seq![
            stationary(down_flag(button)),
            stationary(up_flag(button)),
            stationary(down_flag(button)),
            stationary(up_flag(button)),
        ],
{
    let click = click_inputs(button);
    let inputs = [click[0], click[1], click[0], click[1]];
    assert(inputs@ =~= seq![
        stationary(down_flag(button)),
        stationary(up_flag(button)),
        stationary(down_flag(button)),
        stationary(up_flag(button)),
    ]);
    inputs
}

/// The bit of a button in the set of pressed buttons.
pub open spec fn button_bit(button: MouseButton) -> u8 {
    match button {
        MouseButton::Left => 1u8,
        MouseButton::Right => 2u8,
        MouseButton::Middle => 4u8,
    }
}

fn bit(button: MouseButton) -> (b: u8)
    ensures
        b == button_bit(button),
{
    match button {
        MouseButton::Left => 1,
        MouseButton::Right => 2,
        MouseButton::Middle => 4,
    }
}

proof fn lemma_bits(x: u8, m: u8, n: u8)
    requires
        x < 8,
        m == 1 || m == 2 || m == 4,
        n == 1 || n == 2 || n == 4,
    ensures
        (x | m) < 8,
        (x & !m) < 8,
        ((x | m) & n != 0) <==> (x & n != 0 || m == n),
        ((x & !m) & n != 0) <==> (x & n != 0 && m != n),
        x == 0 <==> (x & 1 == 0 && x & 2 == 0 && x & 4 == 0),
{
    assert((x | m) < 8) by (bit_vector)
        requires
            x < 8,
            m == 1 || m == 2 || m == 4,
    ;
    assert((x & !m) < 8) by (bit_vector)
        requires
            x < 8,
    ;
    assert(((x | m) & n != 0) <==> (x & n != 0 || m == n)) by (bit_vector)
        requires
            m == 1 || m == 2 || m == 4,
            n == 1 || n == 2 || n == 4,
    ;
    assert(((x & !m) & n != 0) <==> (x & n != 0 && m != n)) by (bit_vector)
        requires
            m == 1 || m == 2 || m == 4,
            n == 1 || n == 2 || n == 4,
    ;
    assert(x == 0 <==> (x & 1 == 0 && x & 2 == 0 && x & 4 == 0)) by (bit_vector)
        requires
            x < 8,
    ;
}

/// The mouse buttons that this program holds pressed.
#[derive(Debug, Clone, Copy, PartialEq, Eq)]
pub struct PressedButtons {
    bits: u8,
}

impl View for PressedButtons {
    type V = Set<MouseButton>;

    closed spec fn view(&self) -> Set<MouseButton> {
        Set::new(|b: MouseButton| self.bits & button_bit(b) != 0)
    }
}

impl Default for PressedButtons {
    /// Returns the empty set of pressed buttons.
    fn default() -> (pressed: Self)
        ensures
            pressed@ == Set::<MouseButton>::empty(),
    {
        let pressed = PressedButtons { bits: 0 };
        assert forall|b: MouseButton| !pressed@.contains(b) by {
            assert(0u8 & button_bit(b) == 0) by (bit_vector);
        }
        assert(pressed@ =~= Set::<MouseButton>::empty());
        pressed
    }
}

impl PressedButtons {
    #[verifier::type_invariant]
    closed spec fn well_formed(self) -> bool {
        self.bits < 8
    }

    /// Whether a button is pressed.
    pub fn contains(&self, button: MouseButton) -> (pressed: bool)
        ensures
            pressed == self@.contains(button),
    {
        self.bits & bit(button) != 0
    }

    /// Marks a button as pressed.
    pub fn insert(&mut self, button: MouseButton)
        ensures
            final(self)@ == old(self)@.insert(button),
    {
        proof {
            use_type_invariant(&*self);
        }
        let ghost before = self@;
        let ghost x = self.bits;
        let m = bit(button);
        proof {
            lemma_bits(x, m, 1);
            lemma_bits(x, m, 2);
            lemma_bits(x, m, 4);
        }
        self.bits = self.bits | m;
        proof {
            assert forall|b: MouseButton| self@.contains(b) <==> before.insert(button).contains(b) by {
                lemma_bits(x, m, button_bit(b));
            }
            assert(self@ =~= before.insert(button));
        }
    }

    /// Marks a button as released.
    pub fn remove(&mut self, button: MouseButton)
        ensures
            final(self)@ == old(self)@.remove(button),
    {
        proof {
            use_type_invariant(&*self);
        }
        let ghost before = self@;
        let ghost x = self.bits;
        let m = bit(button);
        proof {
            lemma_bits(x, m, 1);
        }
        self.bits = self.bits & !m;
        proof {
            assert forall|b: MouseButton| self@.contains(b) <==> before.remove(button).contains(b) by {
                lemma_bits(x, m, button_bit(b));
            }
            assert(self@ =~= before.remove(button));
        }
    }

    /// Marks every button as released.
    pub fn clear(&mut self)
        ensures
            final(self)@ == Set::<MouseButton>::empty(),
    {
        self.bits = 0;
        assert forall|b: MouseButton| !self@.contains(b) by {
            assert(0u8 & button_bit(b) == 0) by (bit_vector);
        }
        assert(self@ =~= Set::<MouseButton>::empty());
    }

    /// Whether no button is pressed.
    pub fn is_empty(&self) -> (empty: bool)
        ensures
            empty == (self@ == Set::<MouseButton>::empty()),
    {
        proof {
            use_type_invariant(self);
            lemma_bits(self.bits, 1, 1);
            if self.bits != 0 {
                if self.bits & 1 != 0 {
                    assert(self@.contains(MouseButton::Left));
                } else if self.bits & 2 != 0 {
                    assert(self@.contains(MouseButton::Right));
                } else {
                    assert(self@.contains(MouseButton::Middle));
                }
            } else {
                assert forall|b: MouseButton| !self@.contains(b) by {
                    assert(0u8 & button_bit(b) == 0) by (bit_vector);
                }
                assert(self@ =~= Set::<MouseButton>::empty());
            }
        }
        self.bits == 0
    }
}

/// Tracking a press or a release twice is the same as tracking it once.
pub proof fn lemma_tracking_is_idempotent(pressed: Set<MouseButton>, button: MouseButton)
    ensures
        pressed.insert(button).insert(button) == pressed.insert(button),
        pressed.remove(button).remove(button) == pressed.remove(button),
        pressed.insert(button).contains(button),
        !pressed.remove(button).contains(button),
{
    assert(pressed.insert(button).insert(button) =~= pressed.insert(button));
    assert(pressed.remove(button).remove(button) =~= pressed.remove(button));
}

/// The release records of the pressed buttons, in the order left, right, middle.
pub open spec fn release_inputs_of(pressed: Set<MouseButton>) -> Seq<MouseInput> {
    (if pressed.contains(MouseButton::Left) {
        seq![stationary(up_flag(MouseButton::Left))]
    } else {
        Seq::empty()
    }) + (if pressed.contains(MouseButton::Right) {
        seq![stationary(up_flag(MouseButton::Right))]
    } else {
        Seq::empty()
    }) + (if pressed.contains(MouseButton::Middle) {
        seq![stationary(up_flag(MouseButton::Middle))]
    } else {
        Seq::empty()
    })
}

/// Returns the release records of exactly the pressed buttons.
pub fn release_inputs(pressed: PressedButtons) -> (inputs: Vec<MouseInput>)
    ensures
        inputs@ == release_inputs_of(pressed@),
{
    let mut inputs: Vec<MouseInput> = Vec::new();
    if pressed.contains(MouseButton::Left) {
        inputs.push(mouse_input(0, 0, button_up_flag(MouseButton::Left)));
    }
    if pressed.contains(MouseButton::Right) {
        inputs.push(mouse_input(0, 0, button_up_flag(MouseButton::Right)));
    }
    if pressed.contains(MouseButton::Middle) {
        inputs.push(mouse_input(0, 0, button_up_flag(MouseButton::Middle)));
    }
    assert(inputs@ =~= release_inputs_of(pressed@));
    inputs
}

/// A release sweep releases exactly the pressed buttons, each once; after it nothing is
/// pressed, so a second sweep sends nothing.
pub proof fn lemma_release_sweep_targets_held_buttons(pressed: Set<MouseButton>)
    ensures
        release_inputs_of(Set::<MouseButton>::empty()) == Seq::<MouseInput>::empty(),
        forall|b: MouseButton| #[trigger]
            release_inputs_of(pressed).contains(stationary(up_flag(b))) <==> pressed.contains(b),
        forall|i: int|
            0 <= i < release_inputs_of(pressed).len() ==> exists|b: MouseButton|
                pressed.contains(b) && #[trigger] release_inputs_of(pressed)[i] == stationary(
                    up_flag(b),
                ),
{
    assert(release_inputs_of(Set::<MouseButton>::empty()) =~= Seq::<MouseInput>::empty());
    let l = if pressed.contains(MouseButton::Left) {
        seq![stationary(up_flag(MouseButton::Left))]
    } else {
        Seq::<MouseInput>::empty()
    };
    let r = if pressed.contains(MouseButton::Right) {
        seq![stationary(up_flag(MouseButton::Right))]
    } else {
        Seq::<MouseInput>::empty()
    };
    let m = if pressed.contains(MouseButton::Middle) {
        seq![stationary(up_flag(MouseButton::Middle))]
    } else {
        Seq::<MouseInput>::empty()
    };
    let all = release_inputs_of(pressed);
    assert(all == l + r + m);
    assert forall|i: int| 0 <= i < all.len() implies exists|b: MouseButton|
        pressed.contains(b) && #[trigger] all[i] == stationary(up_flag(b)) by {
        if i < l.len() {
            assert(all[i] == l[i]);
            assert(pressed.contains(MouseButton::Left) && all[i] == stationary(up_flag(MouseButton::Left)));
        } else if i < l.len() + r.len() {
            assert(all[i] == r[i - l.len()]);
            assert(pressed.contains(MouseButton::Right) && all[i] == stationary(up_flag(MouseButton::Right)));
        } else {
            assert(all[i] == m[i - l.len() - r.len()]);
            assert(pressed.contains(MouseButton::Middle) && all[i] == stationary(up_flag(MouseButton::Middle)));
        }
    }
    assert forall|b: MouseButton| #[trigger]
        all.contains(stationary(up_flag(b))) <==> pressed.contains(b) by {
        if pressed.contains(b) {
            match b {
                MouseButton::Left => assert(all[0] == stationary(up_flag(b))),
                MouseButton::Right => assert(all[l.len() as int] == stationary(up_flag(b))),
                MouseButton::Middle => assert(all[(l.len() + r.len()) as int] == stationary(up_flag(b))),
            }
        }
        if all.contains(stationary(up_flag(b))) {
            let i = choose|i: int| 0 <= i < all.len() && all[i] == stationary(up_flag(b));
            let c = choose|c: MouseButton| pressed.contains(c) && all[i] == stationary(up_flag(c));
            assert(up_flag(c) == up_flag(b));
        }
    }
}

/// Why a pointer operation failed.
#[derive(Debug, Clone, PartialEq, Eq)]
pub enum PointerError {
    /// Windows inserted fewer input records than were sent.
    InjectionIncomplete { expected: u32, inserted: u32 },
    /// A click was asked for a button that is held.
    ButtonAlreadyHeld { button: MouseButton },
    /// The input helper failed.
    Helper { reason: String },
}

/// Checks that Windows inserted every record of a batch.
pub fn check_inserted(expected: u32, inserted: u32) -> (result: Result<(), PointerError>)
    ensures
        inserted == expected ==> result is Ok,
        inserted != expected ==> result == Err::<(), PointerError>(
            PointerError::InjectionIncomplete { expected, inserted },
        ),
{
    if inserted == expected {
        Ok(())
    } else {
        Err(PointerError::InjectionIncomplete { expected, inserted })
    }
}

/// A batch of mouse records to send and the pressed buttons to adopt once Windows inserted the
/// whole batch. An empty batch needs no sending.
pub struct WindowsPointerUpdate {
    pub inputs: Vec<MouseInput>,
    pub next: PressedButtons,
}

/// The direct pointer: it sends mouse records itself and remembers what it holds.
#[derive(Debug, Clone, Copy)]
pub struct DirectWindowsPointer {
    pressed: PressedButtons,
}

impl View for DirectWindowsPointer {
    type V = Set<MouseButton>;

    closed spec fn view(&self) -> Set<MouseButton> {
        self.pressed@
    }
}

impl DirectWindowsPointer {
    /// A pointer that holds no button.
    pub fn new() -> (pointer: Self)
        ensures
            pointer@ == Set::<MouseButton>::empty(),
    {
        DirectWindowsPointer { pressed: PressedButtons::default() }
    }

    /// A pointer that holds the given buttons.
    pub fn with_pressed(pressed: PressedButtons) -> (pointer: Self)
        ensures
            pointer@ == pressed@,
    {
        DirectWindowsPointer { pressed }
    }

    /// Settles an update after its records were handed to Windows: the buttons it leads to
    /// are adopted only when a non-empty batch was accepted completely; when sending failed,
    /// or there was nothing to send, the held buttons stay as they were, so a failed release
    /// is tried again by the next sweep.
    pub fn settle(&mut self, update: WindowsPointerUpdate, sent: bool)
        ensures
            final(self)@ == (if sent && update.inputs@.len() > 0 {
                update.next@
            } else {
                old(self)@
            }),
    {
        if sent && update.inputs.len() > 0 {
            self.pressed = update.next;
        }
    }

    /// The buttons this pointer holds.
    pub fn pressed(&self) -> (pressed: PressedButtons)
        ensures
            pressed@ == self@,
    {
        self.pressed
    }

    /// Whether a button is held.
    pub fn is_button_held(&self, button: MouseButton) -> (held: bool)
        ensures
            held == self@.contains(button),
    {
        self.pressed.contains(button)
    }

    /// Whether any button is held.
    pub fn has_held_buttons(&self) -> (held: bool)
        ensures
            held == (self@ != Set::<MouseButton>::empty()),
    {
        !self.pressed.is_empty()
    }

    /// A click may not land on a held button.
    pub fn ensure_clickable(&self, button: MouseButton) -> (result: Result<(), PointerError>)
        ensures
            !self@.contains(button) ==> result is Ok,
            self@.contains(button) ==> result == Err::<(), PointerError>(
                PointerError::ButtonAlreadyHeld { button },
            ),
    {
        if self.pressed.contains(button) {
            return Err(PointerError::ButtonAlreadyHeld { button });
        }
        Ok(())
    }

    /// The records of a relative move; nothing for a zero move.
    pub fn move_relative(&self, dx: i32, dy: i32) -> (inputs: Vec<MouseInput>)
        ensures
            dx == 0 && dy == 0 ==> inputs@ == Seq::<MouseInput>::empty(),
            !(dx == 0 && dy == 0) ==> inputs@ == seq![MouseInput { dx, dy, flags: MOUSEEVENTF_MOVE }],
    {
        let mut inputs: Vec<MouseInput> = Vec::new();
        if dx == 0 && dy == 0 {
            return inputs;
        }
        inputs.push(mouse_input(dx, dy, MOUSEEVENTF_MOVE));
        assert(inputs@ =~= seq![MouseInput { dx, dy, flags: MOUSEEVENTF_MOVE }]);
        inputs
    }

    /// Pressing a button: its press record and the button held, or nothing when it is held.
    pub fn button_down(&self, button: MouseButton) -> (update: WindowsPointerUpdate)
        ensures
            self@.contains(button) ==> update.inputs@ == Seq::<MouseInput>::empty()
                && update.next@ == self@,
            !self@.contains(button) ==> update.inputs@ == seq![stationary(down_flag(button))]
                && update.next@ == self@.insert(button),
    {
        if self.pressed.contains(button) {
            return WindowsPointerUpdate { inputs: Vec::new(), next: self.pressed };
        }
        let mut inputs: Vec<MouseInput> = Vec::new();
        inputs.push(mouse_input(0, 0, button_down_flag(button)));
        let mut next = self.pressed;
        next.insert(button);
        assert(inputs@ =~= seq![stationary(down_flag(button))]);
        WindowsPointerUpdate { inputs, next }
    }

    /// Releasing a button: its release record and the button free, or nothing when it is not
    /// held.
    pub fn button_up(&self, button: MouseButton) -> (update: WindowsPointerUpdate)
        ensures
            !self@.contains(button) ==> update.inputs@ == Seq::<MouseInput>::empty()
                && update.next@ == self@,
            self@.contains(button) ==> update.inputs@ == seq![stationary(up_flag(button))]
                && update.next@ == self@.remove(button),
    {
        if !self.pressed.contains(button) {
            return WindowsPointerUpdate { inputs: Vec::new(), next: self.pressed };
        }
        let mut inputs: Vec<MouseInput> = Vec::new();
        inputs.push(mouse_input(0, 0, button_up_flag(button)));
        let mut next = self.pressed;
        next.remove(button);
        assert(inputs@ =~= seq![stationary(up_flag(button))]);
        WindowsPointerUpdate { inputs, next }
    }

    /// The records of a click, refused for a held button.
    pub fn click(&self, button: MouseButton) -> (result: Result<[MouseInput; 2], PointerError>)
        ensures
            self@.contains(button) ==> result == Err::<[MouseInput; 2], PointerError>(
                PointerError::ButtonAlreadyHeld { button },
            ),
            !self@.contains(button) ==> result is Ok && result->Ok_0@ == seq![
                stationary(down_flag(button)),
                stationary(up_flag(button)),
            ],
    {
        match self.ensure_clickable(button) {
            Err(error) => Err(error),
            Ok(()) => Ok(click_inputs(button)),
        }
    }

    /// The records of a double click, refused for a held button.
    pub fn double_click(&self, button: MouseButton) -> (result: Result<[MouseInput; 4], PointerError>)
        ensures
            self@.contains(button) ==> result == Err::<[MouseInput; 4], PointerError>(
                PointerError::ButtonAlreadyHeld { button },
            ),
            !self@.contains(button) ==> result is Ok && result->Ok_0@ == seq![
                stationary(down_flag(button)),
                stationary(up_flag(button)),
                stationary(down_flag(button)),
                stationary(up_flag(button)),
            ],
    {
        match self.ensure_clickable(button) {
            Err(error) => Err(error),
            Ok(()) => Ok(double_click_inputs(button)),
        }
    }

    /// Releasing every held button: their release records and nothing held, or nothing at
    /// all when no button is held.
    pub fn release_all(&self) -> (update: WindowsPointerUpdate)
        ensures
            update.inputs@ == release_inputs_of(self@),
            update.next@ == Set::<MouseButton>::empty(),
    {
        let inputs = release_inputs(self.pressed);
        let mut next = self.pressed;
        next.clear();
        WindowsPointerUpdate { inputs, next }
    }
}

/// The pointer of the normal runtime: input goes through the UI-access input helper while it
/// is connected, directly otherwise. Buttons held through the helper and those held by direct
/// input are tracked apart. It also keeps whether the helper is connected, whether it is
/// disabled for good, and when a connection was last attempted (milliseconds of a monotonic
/// clock). Each decision below is taken before or after the helper or direct input does its
/// work.
#[derive(Debug, Clone, Copy)]
pub struct WindowsPointer {
    pub direct: DirectWindowsPointer,
    pub helper_pressed: PressedButtons,
    pub helper_connected: bool,
    pub helper_disabled: bool,
    pub last_helper_attempt: Option<u64>,
}

/// Where a pointer operation goes.
#[derive(Debug, Clone, Copy, PartialEq, Eq, Structural)]
pub enum PointerRoute {
    /// Nothing is to be sent; the operation succeeds.
    Skip,
    /// The input helper performs it.
    Helper,
    /// Direct input performs it.
    Direct,
}

/// How an attempt to connect the input helper ended.
#[derive(Debug, Clone, Copy, PartialEq, Eq, Structural)]
pub enum HelperConnection {
    /// Connected, and Windows granted the helper UI access.
    WithUiAccess,
    /// Connected, but without UI access: the helper is of no use.
    WithoutUiAccess,
    /// The helper is not installed.
    Missing,
    /// The helper could not be reached this time.
    Unavailable,
}

/// Whether the helper is disabled for good from the start: outside the normal runtime, or when
/// this process is elevated or has UI access itself, direct input does as well.
pub fn helper_disabled_for(normal_runtime: bool, elevated: bool, ui_access: bool) -> (disabled: bool)
    ensures
        disabled == (!normal_runtime || elevated || ui_access),
{
    !normal_runtime || elevated || ui_access
}

impl WindowsPointer {
    /// A pointer that holds no button on either path, with no helper connected, and the helper
    /// disabled as asked.
    pub fn new_with(helper_disabled: bool) -> (pointer: Self)
        ensures
            pointer.direct@ == Set::<MouseButton>::empty(),
            pointer.helper_pressed@ == Set::<MouseButton>::empty(),
            !pointer.helper_connected,
            pointer.helper_disabled == helper_disabled,
            pointer.last_helper_attempt is None,
    {
        WindowsPointer {
            direct: DirectWindowsPointer::new(),
            helper_pressed: PressedButtons::default(),
            helper_connected: false,
            helper_disabled,
            last_helper_attempt: None,
        }
    }

    /// A pointer that holds no button on either path, with no helper connected.
    pub fn new() -> (pointer: Self)
        ensures
            pointer.direct@ == Set::<MouseButton>::empty(),
            pointer.helper_pressed@ == Set::<MouseButton>::empty(),
            !pointer.helper_connected,
            !pointer.helper_disabled,
            pointer.last_helper_attempt is None,
    {
        Self::new_with(false)
    }

    /// Whether a button is held on either path.
    pub fn is_button_held(&self, button: MouseButton) -> (held: bool)
        ensures
            held == (self.helper_pressed@.contains(button) || self.direct@.contains(button)),
    {
        self.helper_pressed.contains(button) || self.direct.is_button_held(button)
    }

    /// A click may not land on a button held on either path.
    pub fn ensure_clickable(&self, button: MouseButton) -> (result: Result<(), PointerError>)
        ensures
            !(self.helper_pressed@.contains(button) || self.direct@.contains(button)) ==> result is Ok,
            (self.helper_pressed@.contains(button) || self.direct@.contains(button)) ==> result
                == Err::<(), PointerError>(PointerError::ButtonAlreadyHeld { button }),
    {
        if self.is_button_held(button) {
            return Err(PointerError::ButtonAlreadyHeld { button });
        }
        Ok(())
    }

    /// Decides whether to try connecting the helper now, and records the attempt: only when it
    /// is neither disabled nor connected, direct input holds no button (a drag is never moved
    /// between paths), and the cooldown since the last attempt has passed.
    pub fn begin_helper_connect(&mut self, now: u64, cooldown: u64) -> (attempt: bool)
        ensures
            attempt == (!old(self).helper_disabled && !old(self).helper_connected && old(self).direct@
                == Set::<MouseButton>::empty() && match old(self).last_helper_attempt {
                None => true,
                Some(previous) => (if now >= previous {
                    now - previous
                } else {
                    0
                }) >= cooldown,
            }),
            final(self).last_helper_attempt == (if attempt {
                Some(now)
            } else {
                old(self).last_helper_attempt
            }),
            final(self).direct@ == old(self).direct@,
            final(self).helper_pressed@ == old(self).helper_pressed@,
            final(self).helper_connected == old(self).helper_connected,
            final(self).helper_disabled == old(self).helper_disabled,
    {
        if self.helper_disabled || self.helper_connected || self.direct.has_held_buttons() {
            return false;
        }
        let allowed = match self.last_helper_attempt {
            None => true,
            Some(previous) => now.saturating_sub(previous) >= cooldown,
        };
        if allowed {
            self.last_helper_attempt = Some(now);
        }
        allowed
    }

    /// Takes the outcome of a connection attempt: a helper with UI access is used; one without
    /// it is shut down and the helper disabled for good, as when it is not installed; when it
    /// could not be reached nothing changes. Returns whether the connected helper is to be
    /// shut down.
    pub fn finish_helper_connect(&mut self, outcome: HelperConnection) -> (shut_down: bool)
        ensures
            shut_down == (outcome == HelperConnection::WithoutUiAccess),
            final(self).helper_connected == (old(self).helper_connected || outcome
                == HelperConnection::WithUiAccess),
            final(self).helper_disabled == (old(self).helper_disabled || outcome
                == HelperConnection::WithoutUiAccess || outcome == HelperConnection::Missing),
            final(self).direct@ == old(self).direct@,
            final(self).helper_pressed@ == old(self).helper_pressed@,
            final(self).last_helper_attempt == old(self).last_helper_attempt,
    {
        match outcome {
            HelperConnection::WithUiAccess => {
                self.helper_connected = true;
                false
            },
            HelperConnection::WithoutUiAccess => {
                self.helper_disabled = true;
                true
            },
            HelperConnection::Missing => {
                self.helper_disabled = true;
                false
            },
            HelperConnection::Unavailable => false,
        }
    }

    /// Takes the result of a request to the helper: a failed request drops the connection and
    /// forgets the buttons held through it.
    pub fn finish_helper_request(&mut self, succeeded: bool)
        ensures
            final(self).helper_connected == (old(self).helper_connected && succeeded),
            final(self).helper_pressed@ == (if succeeded {
                old(self).helper_pressed@
            } else {
                Set::<MouseButton>::empty()
            }),
            final(self).direct@ == old(self).direct@,
            final(self).helper_disabled == old(self).helper_disabled,
            final(self).last_helper_attempt == old(self).last_helper_attempt,
    {
        if !succeeded {
            self.helper_connected = false;
            self.helper_pressed.clear();
        }
    }

    /// Where a relative move goes: nowhere when it is zero, else through the helper while it
    /// is connected, else directly.
    pub fn route_move(&self, dx: i32, dy: i32) -> (route: PointerRoute)
        ensures
            route == (if dx == 0 && dy == 0 {
                PointerRoute::Skip
            } else if self.helper_connected {
                PointerRoute::Helper
            } else {
                PointerRoute::Direct
            }),
    {
        if dx == 0 && dy == 0 {
            PointerRoute::Skip
        } else if self.helper_connected {
            PointerRoute::Helper
        } else {
            PointerRoute::Direct
        }
    }

    /// Whether a press should try the helper first (and so may connect it): the button is held
    /// on neither path, and the helper is connected, or it is not disabled and direct input
    /// holds nothing.
    pub fn press_wants_helper(&self, button: MouseButton) -> (wants: bool)
        ensures
            wants == (!(self.helper_pressed@.contains(button) || self.direct@.contains(button)) && (
            self.helper_connected || (!self.helper_disabled && self.direct@ == Set::<
                MouseButton,
            >::empty()))),
    {
        !self.is_button_held(button) && (self.helper_connected || (!self.helper_disabled
            && !self.direct.has_held_buttons()))
    }

    /// Where a press goes: nowhere when the button is held already, through the helper while
    /// it is connected, else directly.
    pub fn route_press(&self, button: MouseButton) -> (route: PointerRoute)
        ensures
            route == (if self.helper_pressed@.contains(button) || self.direct@.contains(button) {
                PointerRoute::Skip
            } else if self.helper_connected {
                PointerRoute::Helper
            } else {
                PointerRoute::Direct
            }),
    {
        if self.is_button_held(button) {
            PointerRoute::Skip
        } else if self.helper_connected {
            PointerRoute::Helper
        } else {
            PointerRoute::Direct
        }
    }

    /// Where a release goes: a button held through the helper is released through it, and is
    /// an error when the helper is gone; any other button goes to direct input.
    pub fn route_release(&self, button: MouseButton) -> (route: Result<PointerRoute, PointerError>)
        ensures
            self.helper_pressed@.contains(button) && self.helper_connected ==> route == Ok::<
                PointerRoute,
                PointerError,
            >(PointerRoute::Helper),
            self.helper_pressed@.contains(button) && !self.helper_connected ==> route matches Err(
                PointerError::Helper { .. },
            ),
            !self.helper_pressed@.contains(button) ==> route == Ok::<PointerRoute, PointerError>(
                PointerRoute::Direct,
            ),
    {
        if self.helper_pressed.contains(button) {
            if self.helper_connected {
                Ok(PointerRoute::Helper)
            } else {
                Err(
                    PointerError::Helper {
                        reason: "helper connection disappeared while a button was held".to_string(),
                    },
                )
            }
        } else {
            Ok(PointerRoute::Direct)
        }
    }

    /// Where a click or a double click goes: refused on a held button, through the helper
    /// while it is connected, else directly.
    pub fn route_click(&self, button: MouseButton) -> (route: Result<PointerRoute, PointerError>)
        ensures
            (self.helper_pressed@.contains(button) || self.direct@.contains(button)) ==> route == Err::<
                PointerRoute,
                PointerError,
            >(PointerError::ButtonAlreadyHeld { button }),
            !(self.helper_pressed@.contains(button) || self.direct@.contains(button)) ==> route
                == Ok::<PointerRoute, PointerError>(if self.helper_connected {
                PointerRoute::Helper
            } else {
                PointerRoute::Direct
            }),
    {
        self.ensure_clickable(button)?;
        if self.helper_connected {
            Ok(PointerRoute::Helper)
        } else {
            Ok(PointerRoute::Direct)
        }
    }

    /// Records a press made through the helper.
    pub fn helper_pressed_button(&mut self, button: MouseButton)
        ensures
            final(self).helper_pressed@ == old(self).helper_pressed@.insert(button),
            final(self).direct@ == old(self).direct@,
            final(self).helper_connected == old(self).helper_connected,
            final(self).helper_disabled == old(self).helper_disabled,
            final(self).last_helper_attempt == old(self).last_helper_attempt,
    {
        self.helper_pressed.insert(button);
    }

    /// Records a release made through the helper.
    pub fn helper_released_button(&mut self, button: MouseButton)
        ensures
            final(self).helper_pressed@ == old(self).helper_pressed@.remove(button),
            final(self).direct@ == old(self).direct@,
            final(self).helper_connected == old(self).helper_connected,
            final(self).helper_disabled == old(self).helper_disabled,
            final(self).last_helper_attempt == old(self).last_helper_attempt,
    {
        self.helper_pressed.remove(button);
    }

    /// Settles a release of every button: the helper (when it was asked) and direct input were
    /// both asked. Nothing stays tracked as held through the helper, since a failed helper
    /// request drops the connection; a failed helper request also disconnects. A direct
    /// failure is reported before a helper failure.
    pub fn finish_release_all(
        &mut self,
        helper: Option<Result<(), PointerError>>,
        direct: Result<(), PointerError>,
    ) -> (result: Result<(), PointerError>)
        ensures
            final(self).helper_pressed@ == Set::<MouseButton>::empty(),
            final(self).helper_connected == (old(self).helper_connected && !(helper matches Some(Err(_)))),
            final(self).helper_disabled == old(self).helper_disabled,
            final(self).last_helper_attempt == old(self).last_helper_attempt,
            final(self).direct@ == old(self).direct@,
            direct is Err ==> result == direct,
            direct is Ok ==> result == match helper {
                Some(Err(error)) => Err::<(), PointerError>(error),
                _ => Ok(()),
            },
    {
        let helper_ok = match &helper {
            Some(Err(_)) => false,
            _ => true,
        };
        self.finish_helper_request(helper_ok);
        self.helper_pressed.clear();
        direct?;
        match helper {
            Some(Err(error)) => Err(error),
            _ => Ok(()),
        }
    }
}

} // verus!
