//! Physical key events of the Windows keyboard hook and the NumPad keys they stand for.

use vstd::prelude::*;

use crate::bindings::NumpadKey;

verus! {

/// Whether a key went down or up.
#[derive(Debug, Clone, Copy, PartialEq, Eq, Structural)]
pub enum KeyState {
    Pressed,
    Released,
}

/// A key event as the low-level keyboard hook reports it.
#[derive(Debug, Clone, Copy, PartialEq, Eq, Structural)]
pub struct PhysicalKeyEvent {
    pub vk_code: u32,
    pub scan_code: u32,
    pub extended: bool,
    pub state: KeyState,
}

impl PhysicalKeyEvent {
    /// Builds an event from its fields.
    pub fn new(vk_code: u32, scan_code: u32, extended: bool, state: KeyState) -> (event: Self)
        ensures
            event == (PhysicalKeyEvent { vk_code, scan_code, extended, state }),
    {
        PhysicalKeyEvent { vk_code, scan_code, extended, state }
    }
}

/// The NumPad key at a scan code. Only the keypad's own keys count: the navigation cluster
/// shares scan codes with the digits but is reported as extended, and the keypad divide key
/// shares its scan code with the main slash but is reported as extended.
pub open spec fn numpad_key_of(scan_code: u32, extended: bool) -> Option<NumpadKey> {
    if !extended {
        if scan_code == 0x52 {
            Some(NumpadKey::Num0)
        } else if scan_code == 0x4F {
            Some(NumpadKey::Num1)
        } else if scan_code == 0x50 {
            Some(NumpadKey::Num2)
        } else if scan_code == 0x51 {
            Some(NumpadKey::Num3)
        } else if scan_code == 0x4B {
            Some(NumpadKey::Num4)
        } else if scan_code == 0x4C {
            Some(NumpadKey::Num5)
        } else if scan_code == 0x4D {
            Some(NumpadKey::Num6)
        } else if scan_code == 0x47 {
            Some(NumpadKey::Num7)
        } else if scan_code == 0x48 {
            Some(NumpadKey::Num8)
        } else if scan_code == 0x49 {
            Some(NumpadKey::Num9)
        } else if scan_code == 0x4E {
            Some(NumpadKey::Add)
        } else if scan_code == 0x53 {
            Some(NumpadKey::Decimal)
        } else if scan_code == 0x37 {
            Some(NumpadKey::Multiply)
        } else if scan_code == 0x4A {
            Some(NumpadKey::Subtract)
        } else {
            None
        }
    } else if scan_code == 0x35 {
        Some(NumpadKey::Divide)
    } else {
        None
    }
}

/// The scan code and extended flag by which the keyboard reports a NumPad key.
pub open spec fn scan_code_of(key: NumpadKey) -> (u32, bool) {
    match key {
        NumpadKey::Num0 => (0x52u32, false),
        NumpadKey::Num1 => (0x4Fu32, false),
        NumpadKey::Num2 => (0x50u32, false),
        NumpadKey::Num3 => (0x51u32, false),
        NumpadKey::Num4 => (0x4Bu32, false),
        NumpadKey::Num5 => (0x4Cu32, false),
        NumpadKey::Num6 => (0x4Du32, false),
        NumpadKey::Num7 => (0x47u32, false),
        NumpadKey::Num8 => (0x48u32, false),
        NumpadKey::Num9 => (0x49u32, false),
        NumpadKey::Add => (0x4Eu32, false),
        NumpadKey::Decimal => (0x53u32, false),
        NumpadKey::Divide => (0x35u32, true),
        NumpadKey::Multiply => (0x37u32, false),
        NumpadKey::Subtract => (0x4Au32, false),
    }
}

/// Returns the NumPad key of a physical event, if it is one; the virtual-key code and the
/// key state play no part.
pub fn map_numpad_key(event: PhysicalKeyEvent) -> (key: Option<NumpadKey>)
    ensures
        key == numpad_key_of(event.scan_code, event.extended),
{
    let scan_code = event.scan_code;
    if !event.extended {
        if scan_code == 0x52 {
            Some(NumpadKey::Num0)
        } else if scan_code == 0x4F {
            Some(NumpadKey::Num1)
        } else if scan_code == 0x50 {
            Some(NumpadKey::Num2)
        } else if scan_code == 0x51 {
            Some(NumpadKey::Num3)
        } else if scan_code == 0x4B {
            Some(NumpadKey::Num4)
        } else if scan_code == 0x4C {
            Some(NumpadKey::Num5)
        } else if scan_code == 0x4D {
            Some(NumpadKey::Num6)
        } else if scan_code == 0x47 {
            Some(NumpadKey::Num7)
        } else if scan_code == 0x48 {
            Some(NumpadKey::Num8)
        } else if scan_code == 0x49 {
            Some(NumpadKey::Num9)
        } else if scan_code == 0x4E {
            Some(NumpadKey::Add)
        } else if scan_code == 0x53 {
            Some(NumpadKey::Decimal)
        } else if scan_code == 0x37 {
            Some(NumpadKey::Multiply)
        } else if scan_code == 0x4A {
            Some(NumpadKey::Subtract)
        } else {
            None
        }
    } else if scan_code == 0x35 {
        Some(NumpadKey::Divide)
    } else {
        None
    }
}

/// Each NumPad key is reported by exactly one scan code and extended flag: the mapping finds
/// a key precisely at that code.
pub proof fn lemma_scan_codes_identify_keys(scan_code: u32, extended: bool, key: NumpadKey)
    ensures
        numpad_key_of(scan_code, extended) == Some(key) <==> scan_code_of(key) == (
            scan_code,
            extended,
        ),
{
}

} // verus!
