//! Key-state polling.
//!
//! The device exposes one status word with a bit per physical button; a
//! clear bit means the button is held, so the poll inverts the word before
//! use. [`IO::update`] takes the polled word once per frame and diffs it
//! against the previous state; the queries then tell buttons currently
//! held, changed since the previous poll, newly pressed and newly released
//! apart.

use vstd::prelude::*;

verus! {

/// The physical buttons, one bit each in the key input word.
#[derive(Copy, Clone, Debug, PartialEq, Eq, Structural)]
pub enum Keys {
    A,
    B,
    Start,
    Select,
    Right,
    Left,
    Up,
    Down,
    L,
    R,
}

impl Keys {
    /// The bit this button occupies in the key input word.
    pub open spec fn spec_mask(self) -> u16 {
        match self {
            Keys::A => 0x0001,
            Keys::B => 0x0002,
            Keys::Start => 0x0004,
            Keys::Select => 0x0008,
            Keys::Right => 0x0010,
            Keys::Left => 0x0020,
            Keys::Up => 0x0040,
            Keys::Down => 0x0080,
            Keys::L => 0x0100,
            Keys::R => 0x0200,
        }
    }

    /// The bit this button occupies in the key input word, as a value.
    pub fn mask(self) -> (m: u16)
        ensures
            m == self.spec_mask(),
    {
        match self {
            Keys::A => 0x0001,
            Keys::B => 0x0002,
            Keys::Start => 0x0004,
            Keys::Select => 0x0008,
            Keys::Right => 0x0010,
            Keys::Left => 0x0020,
            Keys::Up => 0x0040,
            Keys::Down => 0x0080,
            Keys::L => 0x0100,
            Keys::R => 0x0200,
        }
    }
}

/// The key interface: the inverted state word of the latest poll, and the
/// bits that changed between the two latest polls.
pub struct IO {
    state: u16,
    changed: u16,
}

impl IO {
    /// The inverted key word of the latest poll: a set bit is a held
    /// button.
    pub closed spec fn spec_state(&self) -> u16 {
        self.state
    }

    /// The buttons whose state differed between the two latest polls.
    pub closed spec fn spec_changed(&self) -> u16 {
        self.changed
    }

    /// A key interface that has seen no poll: nothing held, nothing
    /// changed.
    pub fn new() -> (io: IO)
        ensures
            io.spec_state() == 0,
            io.spec_changed() == 0,
    {
        IO { state: 0, changed: 0 }
    }

    /// Take `raw`, the key input word of this frame's poll, invert it (the
    /// device holds a clear bit for a held button), and record which
    /// buttons changed since the previous poll.
    pub fn update(&mut self, raw: u16)
        ensures
            final(self).spec_state() == !raw,
            final(self).spec_changed() == (!raw ^ old(self).spec_state()),
    {
        let state = !raw;
        self.changed = state ^ self.state;
        self.state = state;
    }

    /// Whether `k` was held at the latest poll.
    pub fn is_pressed(&self, k: Keys) -> (r: bool)
        ensures
            r == (self.spec_state() & k.spec_mask() != 0),
    {
        let i: u16 = k.mask();
        self.state & i != 0
    }

    /// Whether `k` changed state between the two latest polls.
    pub fn toggled(&self, k: Keys) -> (r: bool)
        ensures
            r == (self.spec_changed() & k.spec_mask() != 0),
    {
        let i: u16 = k.mask();
        self.changed & i != 0
    }

    /// Whether `k` was pressed between the two latest polls: held now and
    /// changed.
    pub fn pressed(&self, k: Keys) -> (r: bool)
        ensures
            r == (self.spec_state() & k.spec_mask() != 0 && self.spec_changed() & k.spec_mask()
                != 0),
    {
        self.is_pressed(k) && self.toggled(k)
    }

    /// Whether `k` was released between the two latest polls: not held now
    /// and changed.
    pub fn released(&self, k: Keys) -> (r: bool)
        ensures
            r == (self.spec_state() & k.spec_mask() == 0 && self.spec_changed() & k.spec_mask()
                != 0),
    {
        !self.is_pressed(k) && self.toggled(k)
    }
}

} // verus!
