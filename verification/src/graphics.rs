//! The context that owns the one active video mode.
//!
//! A [`Graphics`] value holds exactly one mode instance at a time. Switching
//! modes discards the previous mode's software state and enables the new
//! one; there is no explicit teardown, the next mode's enable simply
//! overwrites the mode bits in the display control word. Construction of a
//! mode's regions always precedes its enable, never follows it.

use vstd::prelude::*;

use crate::bitmap::{
    BitmapMode, Mode3, Mode4, Mode5, PalletMode, SwapBuffer, DISPCNT_BG2_BIT, DISPCNT_FRAME_BIT,
    DISPCNT_MODE_MASK, DISPCNT_MODE_SHIFT, MODE3_CELLS, MODE3_CODE, MODE4_CELLS, MODE4_CODE,
    MODE4_HEIGHT, MODE4_WIDTH, MODE5_CELLS, MODE5_CODE, PALETTE_LEN,
};
use crate::register::{spec_set_bit, spec_set_masked};

verus! {

/// The rendering modes the display control word can select.
#[derive(Debug, PartialEq, Eq, Structural)]
pub enum Mode {
    MODE0,
    MODE1,
    MODE2,
    MODE3,
    MODE4,
    MODE5,
}

/// Container selecting exactly one active video mode.
pub struct Graphics<T> {
    mode: T,
}

impl<T> Graphics<T> {
    /// The mode instance this context owns.
    pub closed spec fn spec_mode(&self) -> T {
        self.mode
    }

    /// Wrap an already-enabled mode instance.
    fn base(mode: T) -> (g: Graphics<T>)
        ensures
            g.spec_mode() == mode,
    {
        Graphics { mode }
    }

    /// The active mode instance, for drawing calls.
    pub fn active(&mut self) -> (m: &mut T)
        ensures
            *m == old(self).spec_mode(),
            final(self).spec_mode() == *final(m),
    {
        &mut self.mode
    }

    /// Switch to mode 3, discarding the current mode's software state.
    pub fn mode3(self) -> (g: Graphics<Mode3>)
        ensures
            g.spec_mode().wf(),
            enabled_mode3(g.spec_mode()),
    {
        Graphics::<Mode3>::new()
    }

    /// Switch to mode 4, discarding the current mode's software state.
    pub fn mode4(self) -> (g: Graphics<Mode4>)
        ensures
            g.spec_mode().wf(),
            enabled_mode4(g.spec_mode()),
    {
        Graphics::<Mode4>::new()
    }

    /// Switch to mode 5, discarding the current mode's software state.
    pub fn mode5(self) -> (g: Graphics<Mode5>)
        ensures
            g.spec_mode().wf(),
            enabled_mode5(g.spec_mode()),
    {
        Graphics::<Mode5>::new()
    }
}

/// A freshly constructed and enabled mode 3: the control word selects the
/// mode code and the single frame is clear.
pub open spec fn enabled_mode3(m: Mode3) -> bool {
    &&& m.draw() == Seq::new(MODE3_CELLS as nat, |i: int| 0u16)
    &&& m.control().device() == spec_set_masked(
        0u16,
        DISPCNT_MODE_SHIFT,
        DISPCNT_MODE_MASK,
        MODE3_CODE,
    )
    &&& m.control().staged() == m.control().device()
}

/// A freshly constructed and enabled mode 4: the control word selects the
/// mode code, the bitmap layer and frame A, buffer A is presented, and both
/// frames and the palette are clear.
pub open spec fn enabled_mode4(m: Mode4) -> bool {
    &&& m.spec_active() == SwapBuffer::A
    &&& m.draw() == Seq::new((MODE4_WIDTH * MODE4_HEIGHT) as nat, |i: int| 0u8)
    &&& m.frame_a() == Seq::new(MODE4_CELLS as nat, |i: int| 0u16)
    &&& m.palette() == Seq::new(PALETTE_LEN as nat, |i: int| 0u16)
    &&& m.control().device() == spec_set_bit(
        spec_set_bit(
            spec_set_masked(0u16, DISPCNT_MODE_SHIFT, DISPCNT_MODE_MASK, MODE4_CODE),
            DISPCNT_BG2_BIT,
            true,
        ),
        DISPCNT_FRAME_BIT,
        false,
    )
    &&& m.control().staged() == m.control().device()
}

/// A freshly constructed and enabled mode 5: the control word selects the
/// mode code, the bitmap layer and frame A, buffer A is presented, and both
/// frames are clear.
pub open spec fn enabled_mode5(m: Mode5) -> bool {
    &&& m.spec_active() == SwapBuffer::A
    &&& m.draw() == Seq::new(MODE5_CELLS as nat, |i: int| 0u16)
    &&& m.frame_a() == Seq::new(MODE5_CELLS as nat, |i: int| 0u16)
    &&& m.control().device() == spec_set_bit(
        spec_set_bit(
            spec_set_masked(0u16, DISPCNT_MODE_SHIFT, DISPCNT_MODE_MASK, MODE5_CODE),
            DISPCNT_BG2_BIT,
            true,
        ),
        DISPCNT_FRAME_BIT,
        false,
    )
    &&& m.control().staged() == m.control().device()
}

impl Graphics<Mode3> {
    /// Construct a mode 3 instance wired to its fixed addresses, then
    /// enable it.
    pub fn new() -> (g: Graphics<Mode3>)
        ensures
            g.spec_mode().wf(),
            enabled_mode3(g.spec_mode()),
    {
        let mut mode = Mode3::new();
        mode.enable();
        Graphics::base(mode)
    }
}

impl Graphics<Mode4> {
    /// Construct a mode 4 instance wired to its fixed addresses, then
    /// enable it.
    pub fn new() -> (g: Graphics<Mode4>)
        ensures
            g.spec_mode().wf(),
            enabled_mode4(g.spec_mode()),
    {
        let mut mode = Mode4::new();
        mode.enable();
        Graphics::base(mode)
    }
}

impl Graphics<Mode5> {
    /// Construct a mode 5 instance wired to its fixed addresses, then
    /// enable it.
    pub fn new() -> (g: Graphics<Mode5>)
        ensures
            g.spec_mode().wf(),
            enabled_mode5(g.spec_mode()),
    {
        let mut mode = Mode5::new();
        mode.enable();
        Graphics::base(mode)
    }
}

} // verus!
