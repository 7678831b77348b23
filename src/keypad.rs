//! The 16-key input device. At most one key is held at a time: pressing a key
//! replaces whichever key was held before.
use vstd::prelude::*;

verus! {

/// One of the sixteen keys, `0` to `F`.
#[allow(non_camel_case_types)]
#[derive(Clone, Copy, PartialEq, Eq, Structural, Debug)]
pub enum ChipKey {
    CK_0,
    CK_1,
    CK_2,
    CK_3,
    CK_4,
    CK_5,
    CK_6,
    CK_7,
    CK_8,
    CK_9,
    CK_A,
    CK_B,
    CK_C,
    CK_D,
    CK_E,
    CK_F,
}

impl ChipKey {
    /// The key's ordinal value, 0x0 to 0xF.
    pub open spec fn spec_ordinal(self) -> u8 {
        match self {
            ChipKey::CK_0 => 0x0,
            ChipKey::CK_1 => 0x1,
            ChipKey::CK_2 => 0x2,
            ChipKey::CK_3 => 0x3,
            ChipKey::CK_4 => 0x4,
            ChipKey::CK_5 => 0x5,
            ChipKey::CK_6 => 0x6,
            ChipKey::CK_7 => 0x7,
            ChipKey::CK_8 => 0x8,
            ChipKey::CK_9 => 0x9,
            ChipKey::CK_A => 0xA,
            ChipKey::CK_B => 0xB,
            ChipKey::CK_C => 0xC,
            ChipKey::CK_D => 0xD,
            ChipKey::CK_E => 0xE,
            ChipKey::CK_F => 0xF,
        }
    }

    /// The key whose ordinal is `byte`, if `byte` is below 16.
    pub fn from_byte(byte: u8) -> (r: Option<Self>)
        ensures
            byte < 16 ==> r is Some && r->0.spec_ordinal() == byte,
            byte >= 16 ==> r is None,
    {
        match byte {
            0x0 => Some(ChipKey::CK_0),
            0x1 => Some(ChipKey::CK_1),
            0x2 => Some(ChipKey::CK_2),
            0x3 => Some(ChipKey::CK_3),
            0x4 => Some(ChipKey::CK_4),
            0x5 => Some(ChipKey::CK_5),
            0x6 => Some(ChipKey::CK_6),
            0x7 => Some(ChipKey::CK_7),
            0x8 => Some(ChipKey::CK_8),
            0x9 => Some(ChipKey::CK_9),
            0xA => Some(ChipKey::CK_A),
            0xB => Some(ChipKey::CK_B),
            0xC => Some(ChipKey::CK_C),
            0xD => Some(ChipKey::CK_D),
            0xE => Some(ChipKey::CK_E),
            0xF => Some(ChipKey::CK_F),
            _ => None,
        }
    }

    /// The key's ordinal value.
    pub fn to_byte(self) -> (r: u8)
        ensures
            r == self.spec_ordinal(),
            r < 16,
    {
        match self {
            ChipKey::CK_0 => 0x0,
            ChipKey::CK_1 => 0x1,
            ChipKey::CK_2 => 0x2,
            ChipKey::CK_3 => 0x3,
            ChipKey::CK_4 => 0x4,
            ChipKey::CK_5 => 0x5,
            ChipKey::CK_6 => 0x6,
            ChipKey::CK_7 => 0x7,
            ChipKey::CK_8 => 0x8,
            ChipKey::CK_9 => 0x9,
            ChipKey::CK_A => 0xA,
            ChipKey::CK_B => 0xB,
            ChipKey::CK_C => 0xC,
            ChipKey::CK_D => 0xD,
            ChipKey::CK_E => 0xE,
            ChipKey::CK_F => 0xF,
        }
    }
}

/// Distinct keys have distinct ordinals.
pub proof fn lemma_ordinal_injective(a: ChipKey, b: ChipKey)
    ensures
        a.spec_ordinal() == b.spec_ordinal() <==> a == b,
{
}

/// The input device: the key held, if any.
#[derive(Debug)]
pub struct Keypad {
    pressed_key: Option<ChipKey>,
}

impl View for Keypad {
    type V = Option<ChipKey>;

    /// The key held, if any.
    closed spec fn view(&self) -> Option<ChipKey> {
        self.pressed_key
    }
}

impl Keypad {
    /// A keypad with no key held.
    pub fn new() -> (r: Self)
        ensures
            r@ is None,
    {
        Keypad { pressed_key: None }
    }

    /// Holds `key`, releasing any key held before.
    pub fn press(&mut self, key: ChipKey)
        ensures
            final(self)@ == Some(key),
    {
        self.pressed_key = Some(key);
    }

    /// Releases the held key.
    pub fn release(&mut self)
        ensures
            final(self)@ is None,
    {
        self.pressed_key = None;
    }

    /// Whether `key` is the key held.
    pub fn is_pressed(&self, key: ChipKey) -> (r: bool)
        ensures
            r == (self@ == Some(key)),
    {
        match self.pressed_key {
            Some(k) => k == key,
            None => false,
        }
    }

    /// The key held, if any.
    pub fn get_pressed(&self) -> (r: Option<ChipKey>)
        ensures
            r == self@,
    {
        self.pressed_key
    }
}

impl Default for Keypad {
    fn default() -> (r: Self)
        ensures
            r@ is None,
    {
        Keypad::new()
    }
}

} // verus!
