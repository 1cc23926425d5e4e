//! Event batches for the Linux virtual pointer, with tracking of the buttons it holds so that
//! presses are never duplicated and a release sweep releases exactly the held buttons.

use vstd::prelude::*;

use crate::action::MouseButton;
use crate::linux::{BTN_LEFT, BTN_MIDDLE, BTN_RIGHT, EV_KEY, EV_REL, REL_X, REL_Y, RawInputEvent};

verus! {

/// The slot of a button in the held-button record.
pub open spec fn button_slot(button: MouseButton) -> int {
    match button {
        MouseButton::Left => 0,
        MouseButton::Right => 1,
        MouseButton::Middle => 2,
    }
}

/// The evdev key code of a button.
pub open spec fn button_key_code(button: MouseButton) -> u16 {
    match button {
        MouseButton::Left => BTN_LEFT,
        MouseButton::Right => BTN_RIGHT,
        MouseButton::Middle => BTN_MIDDLE,
    }
}

/// The key event of a button with a value: 1 presses, 0 releases.
pub open spec fn button_event_of(button: MouseButton, value: i32) -> RawInputEvent {
    RawInputEvent { event_type: EV_KEY, code: button_key_code(button), value }
}

/// Returns the slot of a button in the held-button record.
pub fn button_index(button: MouseButton) -> (index: usize)
    ensures
        index == button_slot(button),
{
    match button {
        MouseButton::Left => 0,
        MouseButton::Right => 1,
        MouseButton::Middle => 2,
    }
}

/// Returns the evdev key code of a button.
pub fn button_code(button: MouseButton) -> (code: u16)
    ensures
        code == button_key_code(button),
{
    match button {
        MouseButton::Left => BTN_LEFT,
        MouseButton::Right => BTN_RIGHT,
        MouseButton::Middle => BTN_MIDDLE,
    }
}

/// Returns the key event of a button with a value.
pub fn button_event(button: MouseButton, value: i32) -> (event: RawInputEvent)
    ensures
        event == button_event_of(button, value),
{
    RawInputEvent { event_type: EV_KEY, code: button_code(button), value }
}

/// The events of a relative move: an x event unless dx is 0, then a y event unless dy is 0.
pub open spec fn move_events_of(dx: i32, dy: i32) -> Seq<RawInputEvent> {
    (if dx != 0 {
        seq![RawInputEvent { event_type: EV_REL, code: REL_X, value: dx }]
    } else {
        Seq::empty()
    }) + (if dy != 0 {
        seq![RawInputEvent { event_type: EV_REL, code: REL_Y, value: dy }]
    } else {
        Seq::empty()
    })
}

/// Returns the events of a relative move, both axes in one batch; nothing for a zero move.
pub fn move_events(dx: i32, dy: i32) -> (events: Vec<RawInputEvent>)
    ensures
        events@ == move_events_of(dx, dy),
{
    let mut events: Vec<RawInputEvent> = Vec::new();
    if dx != 0 {
        events.push(RawInputEvent { event_type: EV_REL, code: REL_X, value: dx });
    }
    if dy != 0 {
        events.push(RawInputEvent { event_type: EV_REL, code: REL_Y, value: dy });
    }
    assert(events@ =~= move_events_of(dx, dy));
    events
}

/// Returns the events of one complete click: press, then release.
pub fn click_events(button: MouseButton) -> (events: Vec<RawInputEvent>)
    ensures
        events@ == seq![button_event_of(button, 1), button_event_of(button, 0)],
{
    let mut events: Vec<RawInputEvent> = Vec::new();
    events.push(button_event(button, 1));
    events.push(button_event(button, 0));
    assert(events@ =~= seq![button_event_of(button, 1), button_event_of(button, 0)]);
    events
}

/// Returns the events of a double click: two complete clicks in one batch.
pub fn double_click_events(button: MouseButton) -> (events: Vec<RawInputEvent>)
    ensures
        events@ == seq![
            button_event_of(button, 1),
            button_event_of(button, 0),
            button_event_of(button, 1),
            button_event_of(button, 0),
        ],
{
    let mut events: Vec<RawInputEvent> = Vec::new();
    events.push(button_event(button, 1));
    events.push(button_event(button, 0));
    events.push(button_event(button, 1));
    events.push(button_event(button, 0));
    assert(events@ =~= seq![
        button_event_of(button, 1),
        button_event_of(button, 0),
        button_event_of(button, 1),
        button_event_of(button, 0),
    ]);
    events
}

/// Which buttons the virtual pointer holds, in slot order: left, right, middle.
pub struct HeldButtons {
    pub left: bool,
    pub right: bool,
    pub middle: bool,
}

/// Whether a button is held.
pub open spec fn is_held(held: HeldButtons, button: MouseButton) -> bool {
    match button {
        MouseButton::Left => held.left,
        MouseButton::Right => held.right,
        MouseButton::Middle => held.middle,
    }
}

/// The same record with one button's flag set.
pub open spec fn with_held(held: HeldButtons, button: MouseButton, value: bool) -> HeldButtons {
    match button {
        MouseButton::Left => HeldButtons { left: value, ..held },
        MouseButton::Right => HeldButtons { right: value, ..held },
        MouseButton::Middle => HeldButtons { middle: value, ..held },
    }
}

/// The release events of the held buttons, in slot order.
pub open spec fn release_events_of(held: HeldButtons) -> Seq<RawInputEvent> {
    (if held.left {
        seq![button_event_of(MouseButton::Left, 0)]
    } else {
        Seq::empty()
    }) + (if held.right {
        seq![button_event_of(MouseButton::Right, 0)]
    } else {
        Seq::empty()
    }) + (if held.middle {
        seq![button_event_of(MouseButton::Middle, 0)]
    } else {
        Seq::empty()
    })
}

/// A batch to emit and the held-button state to adopt once the batch was emitted completely.
/// An empty batch needs no emission.
pub struct PointerUpdate {
    pub events: Vec<RawInputEvent>,
    pub next: PointerState,
}

/// The buttons that the virtual pointer holds.
#[derive(Debug, Clone, Copy, PartialEq, Eq)]
pub struct PointerState {
    held: [bool; 3],
}

impl View for PointerState {
    type V = HeldButtons;

    closed spec fn view(&self) -> HeldButtons {
        HeldButtons { left: self.held@[0], right: self.held@[1], middle: self.held@[2] }
    }
}

impl PointerState {
    /// Returns a state with no button held.
    pub fn new() -> (state: Self)
        ensures
            state@ == (HeldButtons { left: false, right: false, middle: false }),
    {
        PointerState { held: [false, false, false] }
    }

    /// Whether a button is held.
    pub fn is_button_held(&self, button: MouseButton) -> (held: bool)
        ensures
            held == is_held(self@, button),
    {
        self.held[button_index(button)]
    }

    fn with(&self, button: MouseButton, value: bool) -> (state: Self)
        ensures
            state@ == with_held(self@, button, value),
    {
        let mut held = self.held;
        match button {
            MouseButton::Left => held = [value, held[1], held[2]],
            MouseButton::Right => held = [held[0], value, held[2]],
            MouseButton::Middle => held = [held[0], held[1], value],
        }
        PointerState { held }
    }

    /// Pressing a button: a press event and the button held, or nothing if it is held already.
    pub fn button_down(&self, button: MouseButton) -> (update: PointerUpdate)
        ensures
            is_held(self@, button) ==> update.events@ == Seq::<RawInputEvent>::empty()
                && update.next@ == self@,
            !is_held(self@, button) ==> update.events@ == seq![button_event_of(button, 1)]
                && update.next@ == with_held(self@, button, true),
    {
        if self.is_button_held(button) {
            return PointerUpdate { events: Vec::new(), next: *self };
        }
        let mut events: Vec<RawInputEvent> = Vec::new();
        events.push(button_event(button, 1));
        PointerUpdate { events, next: self.with(button, true) }
    }

    /// Releasing a button: a release event and the button free, or nothing if it is not held.
    pub fn button_up(&self, button: MouseButton) -> (update: PointerUpdate)
        ensures
            !is_held(self@, button) ==> update.events@ == Seq::<RawInputEvent>::empty()
                && update.next@ == self@,
            is_held(self@, button) ==> update.events@ == seq![button_event_of(button, 0)]
                && update.next@ == with_held(self@, button, false),
    {
        if !self.is_button_held(button) {
            return PointerUpdate { events: Vec::new(), next: *self };
        }
        let mut events: Vec<RawInputEvent> = Vec::new();
        events.push(button_event(button, 0));
        PointerUpdate { events, next: self.with(button, false) }
    }

    /// Settles an update after its batch was handed to the device: the state it leads to is
    /// adopted only when a non-empty batch was emitted completely; when emitting failed, or
    /// there was nothing to emit, the held buttons stay as they were, so a failed release is
    /// tried again by the next sweep.
    pub fn settle(&mut self, update: PointerUpdate, emitted: bool)
        ensures
            final(self)@ == (if emitted && update.events@.len() > 0 {
                update.next@
            } else {
                old(self)@
            }),
    {
        if emitted && update.events.len() > 0 {
            *self = update.next;
        }
    }

    /// Releasing every held button: one batch of release events in slot order and no button
    /// held, or nothing when no button is held.
    pub fn release_all(&self) -> (update: PointerUpdate)
        ensures
            update.events@ == release_events_of(self@),
            update.events@.len() == 0 ==> update.next@ == self@,
            update.events@.len() > 0 ==> update.next@ == (HeldButtons {
                left: false,
                right: false,
                middle: false,
            }),
    {
        let mut events: Vec<RawInputEvent> = Vec::new();
        if self.held[0] {
            events.push(button_event(MouseButton::Left, 0));
        }
        if self.held[1] {
            events.push(button_event(MouseButton::Right, 0));
        }
        if self.held[2] {
            events.push(button_event(MouseButton::Middle, 0));
        }
        assert(events@ =~= release_events_of(self@));
        if events.len() == 0 {
            return PointerUpdate { events, next: *self };
        }
        PointerUpdate { events, next: PointerState::new() }
    }
}

/// After a release sweep has been emitted nothing is held, so a second sweep emits nothing;
/// and a sweep emits a release exactly for each held button.
pub proof fn lemma_release_all_is_idempotent(held: HeldButtons)
    ensures
        release_events_of(HeldButtons { left: false, right: false, middle: false }) == Seq::<
            RawInputEvent,
        >::empty(),
        release_events_of(held).len() == (if held.left {
            1int
        } else {
            0
        }) + (if held.right {
            1int
        } else {
            0
        }) + (if held.middle {
            1int
        } else {
            0
        }),
        forall|b: MouseButton| #[trigger]
            release_events_of(held).contains(button_event_of(b, 0)) <==> is_held(held, b),
{
    assert(release_events_of(HeldButtons { left: false, right: false, middle: false })
        =~= Seq::<RawInputEvent>::empty());
    let l = if held.left {
        seq![button_event_of(MouseButton::Left, 0)]
    } else {
        Seq::<RawInputEvent>::empty()
    };
    let r = if held.right {
        seq![button_event_of(MouseButton::Right, 0)]
    } else {
        Seq::<RawInputEvent>::empty()
    };
    let m = if held.middle {
        seq![button_event_of(MouseButton::Middle, 0)]
    } else {
        Seq::<RawInputEvent>::empty()
    };
    let all = release_events_of(held);
    assert(all == l + r + m);
    assert forall|b: MouseButton| #[trigger]
        all.contains(button_event_of(b, 0)) <==> is_held(held, b) by {
        if is_held(held, b) {
            match b {
                MouseButton::Left => assert(all[0] == button_event_of(b, 0)),
                MouseButton::Right => assert(all[l.len() as int] == button_event_of(b, 0)),
                MouseButton::Middle => assert(all[(l.len() + r.len()) as int] == button_event_of(b, 0)),
            }
        }
        if all.contains(button_event_of(b, 0)) {
            let i = choose|i: int| 0 <= i < all.len() && all[i] == button_event_of(b, 0);
            if i < l.len() {
                assert(all[i] == l[i]);
            } else if i < l.len() + r.len() {
                assert(all[i] == r[i - l.len()]);
            } else {
                assert(all[i] == m[i - l.len() - r.len()]);
            }
        }
    }
}

} // verus!
