//! The sixteen-key hexadecimal keypad and the host keys bound to it.

use vstd::prelude::*;

verus! {

/// A key of the host keyboard that is bound to the keypad.
#[derive(Clone, Copy, Debug, PartialEq, Eq, Structural)]
pub enum Key {
    Key1,
    Key2,
    Key3,
    Key4,
    Q,
    W,
    E,
    R,
    A,
    S,
    D,
    F,
    Z,
    X,
    C,
    V,
}

/// The host key bound to each keypad key, laid out as the keypad is:
/// `1 2 3 C / 4 5 6 D / 7 8 9 E / A 0 B F`.
pub const BINDINGS: [(Key, usize); 16] = [
    (Key::Key1, 0x1),
    (Key::Key2, 0x2),
    (Key::Key3, 0x3),
    (Key::Key4, 0xc),
    (Key::Q, 0x4),
    (Key::W, 0x5),
    (Key::E, 0x6),
    (Key::R, 0xd),
    (Key::A, 0x7),
    (Key::S, 0x8),
    (Key::D, 0x9),
    (Key::F, 0xe),
    (Key::Z, 0xa),
    (Key::X, 0x0),
    (Key::C, 0xb),
    (Key::V, 0xf),
];

/// Every binding names a key of the keypad.
pub proof fn lemma_bindings_in_range()
    ensures
        forall|b: int| 0 <= b < 16 ==> (#[trigger] BINDINGS[b]).1 < 16,
{
}

/// Every key of the keypad has a host key bound to it: the result is the
/// place of that binding in `BINDINGS`.
pub proof fn lemma_key_is_bound(idx: usize) -> (place: int)
    requires
        idx < 16,
    ensures
        0 <= place < 16,
        BINDINGS[place].1 == idx,
{
    if idx == 0x1 {
        0
    } else if idx == 0x2 {
        1
    } else if idx == 0x3 {
        2
    } else if idx == 0xc {
        3
    } else if idx == 0x4 {
        4
    } else if idx == 0x5 {
        5
    } else if idx == 0x6 {
        6
    } else if idx == 0xd {
        7
    } else if idx == 0x7 {
        8
    } else if idx == 0x8 {
        9
    } else if idx == 0x9 {
        10
    } else if idx == 0xe {
        11
    } else if idx == 0xa {
        12
    } else if idx == 0x0 {
        13
    } else if idx == 0xb {
        14
    } else {
        15
    }
}

/// The up/down state of the sixteen keys, indexed `0x0` to `0xF`.
pub struct Keyboard {
    pub state: Vec<bool>,
}

impl Keyboard {
    /// A keypad has one cell per key.
    pub open spec fn wf(&self) -> bool {
        self.state@.len() == 16
    }

    /// A keypad with every key up.
    pub fn new() -> (keyboard: Keyboard)
        ensures
            keyboard.wf(),
            keyboard.state@ == Seq::new(16, |k: int| false),
    {
        let state: Vec<bool> = vec![false; 0x10];
        assert(state@ =~= Seq::new(16, |k: int| false));
        Keyboard { state }
    }

    /// Records key `idx` as down (`true`) or up (`false`).
    pub fn set_key(&mut self, idx: usize, value: bool)
        requires
            idx < old(self).state@.len(),
        ensures
            final(self).state@ == old(self).state@.update(idx as int, value),
    {
        self.state[idx] = value
    }

    /// Whether key `idx` is down.
    pub fn is_down(&self, idx: usize) -> (down: bool)
        requires
            idx < self.state@.len(),
        ensures
            down == self.state@[idx as int],
    {
        self.state[idx]
    }
}

} // verus!
