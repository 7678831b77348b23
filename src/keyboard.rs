//! A keyboard that tracks the state of each of the sixteen keys on its own.
use vstd::prelude::*;

verus! {

/// Number of keys.
pub const KEY_COUNT: usize = 16;

/// One of the sixteen keys, `0` to `F`.
#[derive(Clone, Copy, PartialEq, Eq, Structural, Debug)]
pub enum Key {
    ZERO,
    ONE,
    TWO,
    THREE,
    FOUR,
    FIVE,
    SIX,
    SEVEN,
    EIGHT,
    NINE,
    A,
    B,
    C,
    D,
    E,
    F,
}

impl Key {
    /// The key's position in declaration order, 0 to 15.
    pub open spec fn spec_ordinal(self) -> usize {
        match self {
            Key::ZERO => 0,
            Key::ONE => 1,
            Key::TWO => 2,
            Key::THREE => 3,
            Key::FOUR => 4,
            Key::FIVE => 5,
            Key::SIX => 6,
            Key::SEVEN => 7,
            Key::EIGHT => 8,
            Key::NINE => 9,
            Key::A => 10,
            Key::B => 11,
            Key::C => 12,
            Key::D => 13,
            Key::E => 14,
            Key::F => 15,
        }
    }

    /// The key's position in declaration order.
    pub fn ordinal(self) -> (r: usize)
        ensures
            r == self.spec_ordinal(),
            r < KEY_COUNT,
    {
        match self {
            Key::ZERO => 0,
            Key::ONE => 1,
            Key::TWO => 2,
            Key::THREE => 3,
            Key::FOUR => 4,
            Key::FIVE => 5,
            Key::SIX => 6,
            Key::SEVEN => 7,
            Key::EIGHT => 8,
            Key::NINE => 9,
            Key::A => 10,
            Key::B => 11,
            Key::C => 12,
            Key::D => 13,
            Key::E => 14,
            Key::F => 15,
        }
    }

    /// The key at position `n`, if `n` is below 16.
    pub fn from_ordinal(n: usize) -> (r: Option<Key>)
        ensures
            n < KEY_COUNT ==> r is Some && r->0.spec_ordinal() == n,
            n >= KEY_COUNT ==> r is None,
    {
        match n {
            0 => Some(Key::ZERO),
            1 => Some(Key::ONE),
            2 => Some(Key::TWO),
            3 => Some(Key::THREE),
            4 => Some(Key::FOUR),
            5 => Some(Key::FIVE),
            6 => Some(Key::SIX),
            7 => Some(Key::SEVEN),
            8 => Some(Key::EIGHT),
            9 => Some(Key::NINE),
            10 => Some(Key::A),
            11 => Some(Key::B),
            12 => Some(Key::C),
            13 => Some(Key::D),
            14 => Some(Key::E),
            15 => Some(Key::F),
            _ => None,
        }
    }
}

/// The held-or-not state of every key.
#[derive(Debug)]
pub struct Keyboard {
    keystate: Vec<bool>,
}

impl View for Keyboard {
    type V = Seq<bool>;

    /// Entry `k` tells whether the key of ordinal `k` is held.
    closed spec fn view(&self) -> Seq<bool> {
        self.keystate@
    }
}

impl Keyboard {
    /// There is one entry per key.
    pub open spec fn wf(&self) -> bool {
        self@.len() == KEY_COUNT
    }

    /// A keyboard with no key held.
    pub fn new() -> (r: Self)
        ensures
            r.wf(),
            r@ == Seq::new(KEY_COUNT as nat, |i: int| false),
    {
        let mut keystate: Vec<bool> = Vec::new();
        let mut i: usize = 0;
        while i < KEY_COUNT
            invariant
                i <= KEY_COUNT,
                keystate@ == Seq::new(i as nat, |j: int| false),
            decreases KEY_COUNT - i,
        {
            keystate.push(false);
            i = i + 1;
        }
        Keyboard { keystate }
    }

    /// Holds `key`; the other keys keep their state.
    pub fn press(&mut self, key: Key)
        requires
            old(self).wf(),
        ensures
            final(self).wf(),
            final(self)@ == old(self)@.update(key.spec_ordinal() as int, true),
    {
        self.keystate.set(key.ordinal(), true);
    }

    /// Releases `key`; the other keys keep their state.
    pub fn release(&mut self, key: Key)
        requires
            old(self).wf(),
        ensures
            final(self).wf(),
            final(self)@ == old(self)@.update(key.spec_ordinal() as int, false),
    {
        self.keystate.set(key.ordinal(), false);
    }

    /// Whether `key` is held.
    pub fn is_pressed(&self, key: Key) -> (r: bool)
        requires
            self.wf(),
        ensures
            r == self@[key.spec_ordinal() as int],
    {
        self.keystate[key.ordinal()]
    }

    /// Releases every key.
    pub fn clear(&mut self)
        requires
            old(self).wf(),
        ensures
            final(self).wf(),
            final(self)@ == Seq::new(KEY_COUNT as nat, |i: int| false),
    {
        let mut i: usize = 0;
        while i < KEY_COUNT
            invariant
                self.wf(),
                i <= KEY_COUNT,
                forall|j: int| 0 <= j < i ==> !#[trigger] self@[j],
            decreases KEY_COUNT - i,
        {
            self.keystate.set(i, false);
            i = i + 1;
        }
        assert(self@ =~= Seq::new(KEY_COUNT as nat, |i: int| false));
    }
}

impl Default for Keyboard {
    fn default() -> (r: Self)
        ensures
            r.wf(),
            r@ == Seq::new(KEY_COUNT as nat, |i: int| false),
    {
        Keyboard::new()
    }
}

} // verus!
