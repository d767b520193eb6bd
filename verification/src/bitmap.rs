//! The pixel-addressable video modes.
//!
//! Each mode owns one or two [`Region`]s mapped onto video memory and the
//! display control [`Register`]. A mode starts disabled; [`BitmapMode::enable`]
//! commits the mode code (and, for the double-buffered modes, the frame
//! select bit) into the control word in one store. After that,
//! [`BitmapMode::set`] addresses pixels, always in the buffer that is *not*
//! presented, and [`BitmapMode::swap`] flips the presented buffer and the
//! software selector together, so a frame being drawn is never the frame
//! being scanned out.

use vstd::prelude::*;

use crate::memory::{PALRAM_BASE, REG_DISPCNT, REG_DISPSTAT, VRAM_BASE};
use crate::region::Region;
use crate::register::{spec_get_bit, spec_set_bit, spec_set_masked, Register, Word};

verus! {

broadcast use vstd::layout::layout_of_primitives;

/// Pixel columns of mode 3.
pub const MODE3_WIDTH: usize = 240;

/// Pixel rows of mode 3.
pub const MODE3_HEIGHT: usize = 160;

/// Bits per pixel of mode 3.
pub const MODE3_DEPTH: usize = 16;

/// Pixel columns of mode 4.
pub const MODE4_WIDTH: usize = 240;

/// Pixel rows of mode 4.
pub const MODE4_HEIGHT: usize = 160;

/// Bits per pixel of mode 4; each pixel is an index into the palette.
pub const MODE4_DEPTH: usize = 8;

/// Pixel columns of mode 5.
pub const MODE5_WIDTH: usize = 160;

/// Pixel rows of mode 5.
pub const MODE5_HEIGHT: usize = 128;

/// Bits per pixel of mode 5.
pub const MODE5_DEPTH: usize = 16;

/// 16-bit cells in the mode 3 frame.
pub const MODE3_CELLS: usize = MODE3_WIDTH * MODE3_HEIGHT;

/// 16-bit cells in one mode 4 frame: two 8-bit pixels share each cell.
pub const MODE4_CELLS: usize = MODE4_WIDTH * MODE4_HEIGHT / 2;

/// 16-bit cells in one mode 5 frame.
pub const MODE5_CELLS: usize = MODE5_WIDTH * MODE5_HEIGHT;

/// Entries in the palette of the indexed modes.
pub const PALETTE_LEN: usize = 256;

/// Byte offset of the second frame buffer inside video memory.
pub const FRAME_B_OFFSET: usize = 0xA000;

/// Shift of the mode-code field in the display control word.
pub const DISPCNT_MODE_SHIFT: u32 = 0;

/// Mask of the mode-code field, relative to bit zero.
pub const DISPCNT_MODE_MASK: u16 = 0x0007;

/// Bit of the display control word that selects the presented frame:
/// clear presents frame A, set presents frame B.
pub const DISPCNT_FRAME_BIT: u32 = 4;

/// Bit of the display control word that enables the bitmap background
/// layer.
pub const DISPCNT_BG2_BIT: u32 = 10;

/// Bit of the display status word that is set while the display is in its
/// vertical blank interval.
pub const DISPSTAT_VBLANK_BIT: u32 = 0;

/// Mode code of mode 3.
pub const MODE3_CODE: u16 = 3;

/// Mode code of mode 4.
pub const MODE4_CODE: u16 = 4;

/// Mode code of mode 5.
pub const MODE5_CODE: u16 = 5;

/// The two frame buffers of a double-buffered mode. The presented buffer is
/// called the active one; drawing always lands in the other.
#[derive(Clone, Copy, Debug, PartialEq, Eq, Structural)]
pub enum SwapBuffer {
    A,
    B,
}

/// A pixel-addressable rendering mode drawing pixels of type `T`.
///
/// The spec functions give each mode's mathematical face: its fixed bounds,
/// its well-formedness (the wiring of its regions and register to their
/// fixed addresses), and `draw`, the pixels of the buffer that `set`
/// targets. The relations `enabled`, `swapped`, `set_rest`
/// pin down per mode what each transition does to the state outside the
/// drawing buffer.
pub trait BitmapMode<T>: Sized {
    /// Pixel columns of the mode.
    spec fn width() -> usize;

    /// Pixel rows of the mode.
    spec fn height() -> usize;

    /// Bits per pixel of the mode.
    spec fn depth() -> usize;

    /// The pixel value that `clear` writes everywhere.
    spec fn zero_pixel() -> T;

    /// The mode's regions and register are wired to their fixed addresses
    /// and have their fixed lengths, and the software buffer selector
    /// agrees with the frame select bit of the control word.
    spec fn wf(&self) -> bool;

    /// The pixels of the buffer that `set` targets: the single buffer of a
    /// single-buffered mode, the unpresented buffer of a double-buffered
    /// one.
    spec fn draw(&self) -> Seq<T>;

    /// What `enable` does beyond keeping the mode well formed: the control
    /// word the device ends up holding, and what stays untouched.
    spec fn enabled(pre: Self, post: Self) -> bool;

    /// What `swap` does: which buffer becomes the presented one, how the
    /// frame select bit moves with it, and what stays untouched.
    spec fn swapped(pre: Self, post: Self) -> bool;

    /// What `set` and `clear` leave untouched: everything but the drawing
    /// buffer.
    spec fn set_rest(pre: Self, post: Self) -> bool;

    /// A well-formed mode draws on `width() * height()` pixels, and the
    /// bounds are positive.
    proof fn wf_facts(s: Self)
        requires
            s.wf(),
        ensures
            s.draw().len() == Self::width() * Self::height(),
            0 < Self::width(),
            0 < Self::height(),
    ;

    /// Leaving the drawing buffer alone is reflexive: a state is at rest
    /// with itself.
    proof fn set_rest_refl(a: Self)
        ensures
            Self::set_rest(a, a),
    ;

    /// Leaving the rest of the state alone composes across consecutive
    /// drawing calls.
    proof fn set_rest_trans(a: Self, b: Self, c: Self)
        requires
            Self::set_rest(a, b),
            Self::set_rest(b, c),
        ensures
            Self::set_rest(a, c),
    ;

    /// Wire a new instance of the mode to its fixed addresses, not yet
    /// enabled.
    fn new() -> (r: Self)
        ensures
            r.wf(),
    ;

    /// The fixed bounds of the mode, as `(width, height, depth)`.
    fn bounds(&self) -> (b: (usize, usize, usize))
        ensures
            b.0 == Self::width(),
            b.1 == Self::height(),
            b.2 == Self::depth(),
    ;

    /// Commit the mode code, and for double-buffered modes the frame select
    /// bit, into the display control word in one store.
    fn enable(&mut self)
        requires
            old(self).wf(),
        ensures
            final(self).wf(),
            Self::enabled(*old(self), *final(self)),
            final(self).draw() == old(self).draw(),
    ;

    /// Flip the presented buffer and the software selector together. The
    /// two change in one commit of the control word, so software and device
    /// never disagree about which frame is shown. On a single-buffered mode
    /// this is a defined no-op.
    fn swap(&mut self)
        requires
            old(self).wf(),
        ensures
            final(self).wf(),
            Self::swapped(*old(self), *final(self)),
    ;

    /// Set the pixel at `(x, y)` of the drawing buffer to `c`, leaving
    /// every other pixel, the presented buffer and the control state as
    /// they were. Coordinates outside the bounds are a programming error
    /// and are excluded here, since the device itself checks nothing.
    fn set(&mut self, x: usize, y: usize, c: T)
        requires
            old(self).wf(),
            x < Self::width(),
            y < Self::height(),
        ensures
            final(self).wf(),
            final(self).draw() == old(self).draw().update(
                x as int + y as int * Self::width() as int,
                c,
            ),
            Self::set_rest(*old(self), *final(self)),
    ;

    /// The pixel at `(x, y)` of the drawing buffer.
    fn get(&self, x: usize, y: usize) -> (c: T)
        requires
            self.wf(),
            x < Self::width(),
            y < Self::height(),
        ensures
            c == self.draw()[x as int + y as int * Self::width() as int],
    ;

    /// Write the zero pixel to every coordinate of the drawing buffer, one
    /// `set` per coordinate; no bulk path is assumed, since the storage
    /// width need not divide evenly by the pixel width.
    fn clear(&mut self)
        requires
            old(self).wf(),
        ensures
            final(self).wf(),
            final(self).draw() == Seq::new(
                (Self::width() * Self::height()) as nat,
                |i: int| Self::zero_pixel(),
            ),
            Self::set_rest(*old(self), *final(self)),
    ;
}

/// A rendering mode whose pixels are 8-bit indices into a palette of
/// colours of type `T`.
pub trait PalletMode<T>: BitmapMode<u8> {
    /// The palette entries.
    spec fn palette(&self) -> Seq<T>;

    /// What `set_pallet` leaves untouched: everything but the palette.
    spec fn pal_rest(pre: Self, post: Self) -> bool;

    /// What neither drawing nor palette writes touch: the control state of
    /// the mode.
    spec fn shared_rest(pre: Self, post: Self) -> bool;

    /// Set palette entry `i` to the colour `c`, leaving every other entry,
    /// the frame buffers and the control state as they were.
    fn set_pallet(&mut self, i: usize, c: T)
        requires
            old(self).wf(),
            i < old(self).palette().len(),
        ensures
            final(self).wf(),
            final(self).palette() == old(self).palette().update(i as int, c),
            final(self).draw() == old(self).draw(),
            Self::pal_rest(*old(self), *final(self)),
    ;

    /// The colour at palette entry `i`.
    fn get_pallet(&self, i: usize) -> (c: T)
        requires
            i < self.palette().len(),
        ensures
            c == self.palette()[i as int],
    ;

    /// A drawing call also leaves the palette and the control state alone.
    proof fn set_rest_palette(a: Self, b: Self)
        requires
            Self::set_rest(a, b),
        ensures
            Self::shared_rest(a, b),
            b.palette() == a.palette(),
    ;

    /// A palette write also leaves the control state alone.
    proof fn pal_rest_shared(a: Self, b: Self)
        requires
            Self::pal_rest(a, b),
        ensures
            Self::shared_rest(a, b),
    ;

    /// The control state being untouched is reflexive and composes.
    proof fn shared_rest_refl(a: Self)
        ensures
            Self::shared_rest(a, a),
    ;

    /// The control state being untouched composes across consecutive
    /// calls.
    proof fn shared_rest_trans(a: Self, b: Self, c: Self)
        requires
            Self::shared_rest(a, b),
            Self::shared_rest(b, c),
        ensures
            Self::shared_rest(a, c),
    ;
}

/// The 8-bit pixels held by a sequence of 16-bit cells: the pixel at an
/// even index sits in the low byte of its cell, the pixel at an odd index
/// in the high byte of the same cell.
pub open spec fn unpack_cells(cells: Seq<u16>) -> Seq<u8> {
    Seq::new(
        cells.len() * 2,
        |i: int|
            if i % 2 == 0 {
                (cells[i / 2] & 0xFF) as u8
            } else {
                ((cells[i / 2] >> 8) & 0xFF) as u8
            },
    )
}

/// How writing one byte of a 16-bit cell moves the bytes: the byte written
/// comes back out of its half, and the other half keeps its value.
proof fn lemma_cell_halves(v: u16, c: u8)
    ensures
        (((v & 0xFF00) | (c as u16)) & 0xFF) as u8 == c,
        ((((v & 0xFF00) | (c as u16)) >> 8) & 0xFF) as u8 == ((v >> 8) & 0xFF) as u8,
        ((((v & 0x00FF) | ((c as u16) << 8)) >> 8) & 0xFF) as u8 == c,
        (((v & 0x00FF) | ((c as u16) << 8)) & 0xFF) as u8 == (v & 0xFF) as u8,
{
    assert((((v & 0xFF00) | (c as u16)) & 0xFF) as u8 == c && ((((v & 0xFF00) | (c as u16)) >> 8)
        & 0xFF) as u8 == ((v >> 8) & 0xFF) as u8 && ((((v & 0x00FF) | ((c as u16) << 8)) >> 8)
        & 0xFF) as u8 == c && (((v & 0x00FF) | ((c as u16) << 8)) & 0xFF) as u8 == (v
        & 0xFF) as u8) by (bit_vector);
}

/// Writing one byte into the cell that holds pixel `i` updates exactly
/// pixel `i` of the unpacked view and no other, in particular not the
/// sibling pixel sharing the cell.
proof fn lemma_unpack_update(cells: Seq<u16>, i: int, c: u8, w: u16)
    requires
        0 <= i < cells.len() * 2,
        i % 2 == 0 ==> w == (cells[i / 2] & 0xFF00) | (c as u16),
        i % 2 == 1 ==> w == (cells[i / 2] & 0x00FF) | ((c as u16) << 8),
    ensures
        unpack_cells(cells.update(i / 2, w)) == unpack_cells(cells).update(i, c),
{
    let l = unpack_cells(cells.update(i / 2, w));
    let r = unpack_cells(cells).update(i, c);
    assert forall|j: int| 0 <= j < cells.len() * 2 implies l[j] == r[j] by {
        lemma_cell_halves(cells[i / 2], c);
        assert(j == 2 * (j / 2) + (j % 2));
        assert(i == 2 * (i / 2) + (i % 2));
    }
    assert(l =~= r);
}

/// Graphics mode 4: 240 by 160 pixels of 8 bits, each pixel an index into
/// a 256-entry palette, double-buffered.
///
/// The device addresses video memory in 16-bit cells, so two pixels share
/// each cell and writing one pixel is a read-modify-write of its cell; the
/// sibling pixel is untouched, which [`BitmapMode::set`]'s contract states
/// through the unpacked view.
pub struct Mode4 {
    dispcnt: Register<u16>,
    dispstat: Register<u16>,
    vram_a: Region<u16>,
    vram_b: Region<u16>,
    pallet: Region<u16>,
    active: SwapBuffer,
}

impl Mode4 {
    /// The display control register of this mode.
    pub closed spec fn control(&self) -> Register<u16> {
        self.dispcnt
    }

    /// The display status register of this mode.
    pub closed spec fn status(&self) -> Register<u16> {
        self.dispstat
    }

    /// The cells of frame buffer A.
    pub closed spec fn frame_a(&self) -> Seq<u16> {
        self.vram_a@
    }

    /// The cells of frame buffer B.
    pub closed spec fn frame_b(&self) -> Seq<u16> {
        self.vram_b@
    }

    /// The buffer currently presented; drawing lands in the other one.
    pub closed spec fn spec_active(&self) -> SwapBuffer {
        self.active
    }

    /// The entries of the palette region.
    pub closed spec fn palette_entries(&self) -> Seq<u16> {
        self.pallet@
    }

    /// The buffer currently presented, as a value.
    pub fn active_buffer(&self) -> (b: SwapBuffer)
        ensures
            b == self.spec_active(),
    {
        self.active
    }

    /// Whether the display is in its vertical blank interval: one load of
    /// the status word, then its vertical blank bit. On the device the bit
    /// follows the scanline, so a caller polls this until it turns; the
    /// model answers from the status word it holds.
    pub fn vblank(&mut self) -> (r: bool)
        requires
            old(self).wf(),
        ensures
            final(self).wf(),
            r == spec_get_bit(old(self).status().device(), DISPSTAT_VBLANK_BIT),
            final(self).status().device() == old(self).status().device(),
            final(self).status().staged() == old(self).status().device(),
            final(self).control() == old(self).control(),
            final(self).frame_a() == old(self).frame_a(),
            final(self).frame_b() == old(self).frame_b(),
            final(self).palette_entries() == old(self).palette_entries(),
            final(self).spec_active() == old(self).spec_active(),
    {
        self.dispstat = self.dispstat.read();
        self.dispstat.get_bit(DISPSTAT_VBLANK_BIT)
    }
}

impl BitmapMode<u8> for Mode4 {
    open spec fn width() -> usize {
        MODE4_WIDTH
    }

    open spec fn height() -> usize {
        MODE4_HEIGHT
    }

    open spec fn depth() -> usize {
        MODE4_DEPTH
    }

    open spec fn zero_pixel() -> u8 {
        0
    }

    closed spec fn wf(&self) -> bool {
        &&& self.vram_a@.len() == MODE4_CELLS
        &&& self.vram_b@.len() == MODE4_CELLS
        &&& self.vram_a.spec_base() == VRAM_BASE
        &&& self.vram_b.spec_base() == VRAM_BASE + FRAME_B_OFFSET
        &&& self.pallet@.len() == PALETTE_LEN
        &&& self.pallet.spec_base() == PALRAM_BASE
        &&& self.dispcnt.spec_addr() == REG_DISPCNT
        &&& self.dispstat.spec_addr() == REG_DISPSTAT
        &&& spec_get_bit(self.dispcnt.device(), DISPCNT_FRAME_BIT) == (self.active
            == SwapBuffer::B)
    }

    closed spec fn draw(&self) -> Seq<u8> {
        if self.active == SwapBuffer::A {
            unpack_cells(self.vram_b@)
        } else {
            unpack_cells(self.vram_a@)
        }
    }

    open spec fn enabled(pre: Mode4, post: Mode4) -> bool {
        &&& post.control().device() == spec_set_bit(
            spec_set_bit(
                spec_set_masked(0u16, DISPCNT_MODE_SHIFT, DISPCNT_MODE_MASK, MODE4_CODE),
                DISPCNT_BG2_BIT,
                true,
            ),
            DISPCNT_FRAME_BIT,
            pre.spec_active() == SwapBuffer::B,
        )
        &&& post.control().staged() == post.control().device()
        &&& post.spec_active() == pre.spec_active()
        &&& post.frame_a() == pre.frame_a()
        &&& post.frame_b() == pre.frame_b()
        &&& post.palette_entries() == pre.palette_entries()
        &&& post.status() == pre.status()
    }

    open spec fn swapped(pre: Mode4, post: Mode4) -> bool {
        &&& post.spec_active() == (if pre.spec_active() == SwapBuffer::A {
            SwapBuffer::B
        } else {
            SwapBuffer::A
        })
        &&& post.control().device() == spec_set_bit(
            pre.control().device(),
            DISPCNT_FRAME_BIT,
            post.spec_active() == SwapBuffer::B,
        )
        &&& post.control().staged() == post.control().device()
        &&& post.frame_a() == pre.frame_a()
        &&& post.frame_b() == pre.frame_b()
        &&& post.palette_entries() == pre.palette_entries()
        &&& post.status() == pre.status()
    }

    open spec fn set_rest(pre: Mode4, post: Mode4) -> bool {
        &&& post.control() == pre.control()
        &&& post.status() == pre.status()
        &&& post.spec_active() == pre.spec_active()
        &&& post.palette_entries() == pre.palette_entries()
        &&& (pre.spec_active() == SwapBuffer::A ==> post.frame_a() == pre.frame_a())
        &&& (pre.spec_active() == SwapBuffer::B ==> post.frame_b() == pre.frame_b())
    }

    proof fn wf_facts(s: Mode4) {
    }

    proof fn set_rest_refl(a: Mode4) {
    }

    proof fn set_rest_trans(a: Mode4, b: Mode4, c: Mode4) {
    }

    fn new() -> (r: Mode4)
        ensures
            r.draw() == Seq::new((MODE4_WIDTH * MODE4_HEIGHT) as nat, |i: int| 0u8),
            r.frame_a() == Seq::new(MODE4_CELLS as nat, |i: int| 0u16),
            r.frame_b() == Seq::new(MODE4_CELLS as nat, |i: int| 0u16),
            r.palette_entries() == Seq::new(PALETTE_LEN as nat, |i: int| 0u16),
            r.spec_active() == SwapBuffer::A,
            r.control().staged() == 0u16,
            r.control().device() == 0u16,
            r.status().staged() == 0u16,
            r.status().device() == 0u16,
    {
        let m = Mode4 {
            dispcnt: Register::new(REG_DISPCNT),
            dispstat: Register::new(REG_DISPSTAT),
            vram_a: Region::new(VRAM_BASE, MODE4_CELLS, 0u16),
            vram_b: Region::new(VRAM_BASE + FRAME_B_OFFSET, MODE4_CELLS, 0u16),
            pallet: Region::new(PALRAM_BASE, PALETTE_LEN, 0u16),
            active: SwapBuffer::A,
        };
        proof {
            assert(((0u16 >> DISPCNT_FRAME_BIT) & 1u16) != 1u16) by (bit_vector);
            assert((0u16 & 0xFF) as u8 == 0 && ((0u16 >> 8) & 0xFF) as u8 == 0) by (bit_vector);
            assert(m.draw() =~= Seq::new((MODE4_WIDTH * MODE4_HEIGHT) as nat, |i: int| 0u8));
        }
        m
    }

    fn bounds(&self) -> (usize, usize, usize) {
        (MODE4_WIDTH, MODE4_HEIGHT, MODE4_DEPTH)
    }

    fn enable(&mut self) {
        let frame_b = self.active == SwapBuffer::B;
        self.dispcnt = self.dispcnt.zero().set_masked(
            DISPCNT_MODE_SHIFT,
            DISPCNT_MODE_MASK,
            MODE4_CODE,
        ).set_bit(DISPCNT_BG2_BIT, true).set_bit(DISPCNT_FRAME_BIT, frame_b).write();
        proof {
            crate::register::lemma_bit_round_trip(
                spec_set_bit(
                    spec_set_masked(0u16, DISPCNT_MODE_SHIFT, DISPCNT_MODE_MASK, MODE4_CODE),
                    DISPCNT_BG2_BIT,
                    true,
                ),
                DISPCNT_FRAME_BIT,
                frame_b,
                DISPCNT_FRAME_BIT,
            );
        }
    }

    fn swap(&mut self) {
        let d = self.dispcnt.read();
        match self.active {
            SwapBuffer::A => {
                self.dispcnt = d.set_bit(DISPCNT_FRAME_BIT, true).write();
                self.active = SwapBuffer::B;
            },
            SwapBuffer::B => {
                self.dispcnt = d.set_bit(DISPCNT_FRAME_BIT, false).write();
                self.active = SwapBuffer::A;
            },
        }
        proof {
            crate::register::lemma_bit_round_trip(
                old(self).control().device(),
                DISPCNT_FRAME_BIT,
                self.active == SwapBuffer::B,
                DISPCNT_FRAME_BIT,
            );
        }
    }

    fn set(&mut self, x: usize, y: usize, c: u8) {
        let i = x + y * MODE4_WIDTH;
        let cell = i / 2;
        match self.active {
            SwapBuffer::A => {
                let ghost cells = self.vram_b@;
                let v = self.vram_b.read_index(cell);
                let w = if i % 2 == 0 {
                    (v & 0xFF00) | (c as u16)
                } else {
                    (v & 0x00FF) | ((c as u16) << 8)
                };
                self.vram_b.write_index(cell, w);
                proof {
                    lemma_unpack_update(cells, i as int, c, w);
                }
            },
            SwapBuffer::B => {
                let ghost cells = self.vram_a@;
                let v = self.vram_a.read_index(cell);
                let w = if i % 2 == 0 {
                    (v & 0xFF00) | (c as u16)
                } else {
                    (v & 0x00FF) | ((c as u16) << 8)
                };
                self.vram_a.write_index(cell, w);
                proof {
                    lemma_unpack_update(cells, i as int, c, w);
                }
            },
        }
    }

    fn get(&self, x: usize, y: usize) -> (c: u8) {
        let i = x + y * MODE4_WIDTH;
        let cell = i / 2;
        let v = match self.active {
            SwapBuffer::A => self.vram_b.read_index(cell),
            SwapBuffer::B => self.vram_a.read_index(cell),
        };
        if i % 2 == 0 {
            (v & 0xFF) as u8
        } else {
            ((v >> 8) & 0xFF) as u8
        }
    }

    fn clear(&mut self) {
        let mut y: usize = 0;
        while y < MODE4_HEIGHT
            invariant
                y <= MODE4_HEIGHT,
                self.wf(),
                Self::set_rest(*old(self), *self),
                self.draw() == Seq::new(
                    (MODE4_WIDTH * MODE4_HEIGHT) as nat,
                    |i: int|
                        if i < y * MODE4_WIDTH {
                            0u8
                        } else {
                            old(self).draw()[i]
                        },
                ),
            decreases MODE4_HEIGHT - y,
        {
            let mut x: usize = 0;
            while x < MODE4_WIDTH
                invariant
                    y < MODE4_HEIGHT,
                    x <= MODE4_WIDTH,
                    self.wf(),
                    Self::set_rest(*old(self), *self),
                    self.draw() == Seq::new(
                        (MODE4_WIDTH * MODE4_HEIGHT) as nat,
                        |i: int|
                            if i < y * MODE4_WIDTH + x {
                                0u8
                            } else {
                                old(self).draw()[i]
                            },
                    ),
                decreases MODE4_WIDTH - x,
            {
                self.set(x, y, 0);
                proof {
                    assert(self.draw() =~= Seq::new(
                        (MODE4_WIDTH * MODE4_HEIGHT) as nat,
                        |i: int|
                            if i < y * MODE4_WIDTH + x + 1 {
                                0u8
                            } else {
                                old(self).draw()[i]
                            },
                    ));
                }
                x = x + 1;
            }
            y = y + 1;
        }
        proof {
            assert(self.draw() =~= Seq::new(
                (MODE4_WIDTH * MODE4_HEIGHT) as nat,
                |i: int| 0u8,
            ));
        }
    }
}

impl PalletMode<u16> for Mode4 {
    open spec fn palette(&self) -> Seq<u16> {
        self.palette_entries()
    }

    open spec fn pal_rest(pre: Mode4, post: Mode4) -> bool {
        &&& post.control() == pre.control()
        &&& post.status() == pre.status()
        &&& post.spec_active() == pre.spec_active()
        &&& post.frame_a() == pre.frame_a()
        &&& post.frame_b() == pre.frame_b()
    }

    open spec fn shared_rest(pre: Mode4, post: Mode4) -> bool {
        &&& post.control() == pre.control()
        &&& post.status() == pre.status()
        &&& post.spec_active() == pre.spec_active()
    }

    fn set_pallet(&mut self, i: usize, c: u16) {
        self.pallet.write_index(i, c);
    }

    fn get_pallet(&self, i: usize) -> u16 {
        self.pallet.read_index(i)
    }

    proof fn set_rest_palette(a: Mode4, b: Mode4) {
    }

    proof fn pal_rest_shared(a: Mode4, b: Mode4) {
    }

    proof fn shared_rest_refl(a: Mode4) {
    }

    proof fn shared_rest_trans(a: Mode4, b: Mode4, c: Mode4) {
    }
}

/// Graphics mode 5: 160 by 128 pixels of 16 bits, double-buffered.
pub struct Mode5 {
    dispcnt: Register<u16>,
    vram_a: Region<u16>,
    vram_b: Region<u16>,
    active: SwapBuffer,
}

impl Mode5 {
    /// The display control register of this mode.
    pub closed spec fn control(&self) -> Register<u16> {
        self.dispcnt
    }

    /// The cells of frame buffer A.
    pub closed spec fn frame_a(&self) -> Seq<u16> {
        self.vram_a@
    }

    /// The cells of frame buffer B.
    pub closed spec fn frame_b(&self) -> Seq<u16> {
        self.vram_b@
    }

    /// The buffer currently presented; drawing lands in the other one.
    pub closed spec fn spec_active(&self) -> SwapBuffer {
        self.active
    }

    /// The buffer currently presented, as a value.
    pub fn active_buffer(&self) -> (b: SwapBuffer)
        ensures
            b == self.spec_active(),
    {
        self.active
    }
}

impl BitmapMode<u16> for Mode5 {
    open spec fn width() -> usize {
        MODE5_WIDTH
    }

    open spec fn height() -> usize {
        MODE5_HEIGHT
    }

    open spec fn depth() -> usize {
        MODE5_DEPTH
    }

    open spec fn zero_pixel() -> u16 {
        0
    }

    closed spec fn wf(&self) -> bool {
        &&& self.vram_a@.len() == MODE5_CELLS
        &&& self.vram_b@.len() == MODE5_CELLS
        &&& self.vram_a.spec_base() == VRAM_BASE
        &&& self.vram_b.spec_base() == VRAM_BASE + FRAME_B_OFFSET
        &&& self.dispcnt.spec_addr() == REG_DISPCNT
        &&& spec_get_bit(self.dispcnt.device(), DISPCNT_FRAME_BIT) == (self.active
            == SwapBuffer::B)
    }

    closed spec fn draw(&self) -> Seq<u16> {
        if self.active == SwapBuffer::A {
            self.vram_b@
        } else {
            self.vram_a@
        }
    }

    open spec fn enabled(pre: Mode5, post: Mode5) -> bool {
        &&& post.control().device() == spec_set_bit(
            spec_set_bit(
                spec_set_masked(0u16, DISPCNT_MODE_SHIFT, DISPCNT_MODE_MASK, MODE5_CODE),
                DISPCNT_BG2_BIT,
                true,
            ),
            DISPCNT_FRAME_BIT,
            pre.spec_active() == SwapBuffer::B,
        )
        &&& post.control().staged() == post.control().device()
        &&& post.spec_active() == pre.spec_active()
        &&& post.frame_a() == pre.frame_a()
        &&& post.frame_b() == pre.frame_b()
    }

    open spec fn swapped(pre: Mode5, post: Mode5) -> bool {
        &&& post.spec_active() == (if pre.spec_active() == SwapBuffer::A {
            SwapBuffer::B
        } else {
            SwapBuffer::A
        })
        &&& post.control().device() == spec_set_bit(
            pre.control().device(),
            DISPCNT_FRAME_BIT,
            post.spec_active() == SwapBuffer::B,
        )
        &&& post.control().staged() == post.control().device()
        &&& post.frame_a() == pre.frame_a()
        &&& post.frame_b() == pre.frame_b()
    }

    open spec fn set_rest(pre: Mode5, post: Mode5) -> bool {
        &&& post.control() == pre.control()
        &&& post.spec_active() == pre.spec_active()
        &&& (pre.spec_active() == SwapBuffer::A ==> post.frame_a() == pre.frame_a())
        &&& (pre.spec_active() == SwapBuffer::B ==> post.frame_b() == pre.frame_b())
    }

    proof fn wf_facts(s: Mode5) {
    }

    proof fn set_rest_refl(a: Mode5) {
    }

    proof fn set_rest_trans(a: Mode5, b: Mode5, c: Mode5) {
    }

    fn new() -> (r: Mode5)
        ensures
            r.draw() == Seq::new(MODE5_CELLS as nat, |i: int| 0u16),
            r.frame_a() == Seq::new(MODE5_CELLS as nat, |i: int| 0u16),
            r.frame_b() == Seq::new(MODE5_CELLS as nat, |i: int| 0u16),
            r.spec_active() == SwapBuffer::A,
            r.control().staged() == 0u16,
            r.control().device() == 0u16,
    {
        let m = Mode5 {
            dispcnt: Register::new(REG_DISPCNT),
            vram_a: Region::new(VRAM_BASE, MODE5_CELLS, 0u16),
            vram_b: Region::new(VRAM_BASE + FRAME_B_OFFSET, MODE5_CELLS, 0u16),
            active: SwapBuffer::A,
        };
        proof {
            assert(((0u16 >> DISPCNT_FRAME_BIT) & 1u16) != 1u16) by (bit_vector);
        }
        m
    }

    fn bounds(&self) -> (usize, usize, usize) {
        (MODE5_WIDTH, MODE5_HEIGHT, MODE5_DEPTH)
    }

    fn enable(&mut self) {
        let frame_b = self.active == SwapBuffer::B;
        self.dispcnt = self.dispcnt.zero().set_masked(
            DISPCNT_MODE_SHIFT,
            DISPCNT_MODE_MASK,
            MODE5_CODE,
        ).set_bit(DISPCNT_BG2_BIT, true).set_bit(DISPCNT_FRAME_BIT, frame_b).write();
        proof {
            crate::register::lemma_bit_round_trip(
                spec_set_bit(
                    spec_set_masked(0u16, DISPCNT_MODE_SHIFT, DISPCNT_MODE_MASK, MODE5_CODE),
                    DISPCNT_BG2_BIT,
                    true,
                ),
                DISPCNT_FRAME_BIT,
                frame_b,
                DISPCNT_FRAME_BIT,
            );
        }
    }

    fn swap(&mut self) {
        let d = self.dispcnt.read();
        match self.active {
            SwapBuffer::A => {
                self.dispcnt = d.set_bit(DISPCNT_FRAME_BIT, true).write();
                self.active = SwapBuffer::B;
            },
            SwapBuffer::B => {
                self.dispcnt = d.set_bit(DISPCNT_FRAME_BIT, false).write();
                self.active = SwapBuffer::A;
            },
        }
        proof {
            crate::register::lemma_bit_round_trip(
                old(self).control().device(),
                DISPCNT_FRAME_BIT,
                self.active == SwapBuffer::B,
                DISPCNT_FRAME_BIT,
            );
        }
    }

    fn set(&mut self, x: usize, y: usize, c: u16) {
        let i = x + y * MODE5_WIDTH;
        match self.active {
            SwapBuffer::A => {
                self.vram_b.write_index(i, c);
            },
            SwapBuffer::B => {
                self.vram_a.write_index(i, c);
            },
        }
    }

    fn get(&self, x: usize, y: usize) -> (c: u16) {
        let i = x + y * MODE5_WIDTH;
        match self.active {
            SwapBuffer::A => self.vram_b.read_index(i),
            SwapBuffer::B => self.vram_a.read_index(i),
        }
    }

    fn clear(&mut self) {
        let mut y: usize = 0;
        while y < MODE5_HEIGHT
            invariant
                y <= MODE5_HEIGHT,
                self.wf(),
                Self::set_rest(*old(self), *self),
                self.draw() == Seq::new(
                    (MODE5_WIDTH * MODE5_HEIGHT) as nat,
                    |i: int|
                        if i < y * MODE5_WIDTH {
                            0u16
                        } else {
                            old(self).draw()[i]
                        },
                ),
            decreases MODE5_HEIGHT - y,
        {
            let mut x: usize = 0;
            while x < MODE5_WIDTH
                invariant
                    y < MODE5_HEIGHT,
                    x <= MODE5_WIDTH,
                    self.wf(),
                    Self::set_rest(*old(self), *self),
                    self.draw() == Seq::new(
                        (MODE5_WIDTH * MODE5_HEIGHT) as nat,
                        |i: int|
                            if i < y * MODE5_WIDTH + x {
                                0u16
                            } else {
                                old(self).draw()[i]
                            },
                    ),
                decreases MODE5_WIDTH - x,
            {
                self.set(x, y, 0);
                proof {
                    assert(self.draw() =~= Seq::new(
                        (MODE5_WIDTH * MODE5_HEIGHT) as nat,
                        |i: int|
                            if i < y * MODE5_WIDTH + x + 1 {
                                0u16
                            } else {
                                old(self).draw()[i]
                            },
                    ));
                }
                x = x + 1;
            }
            y = y + 1;
        }
        proof {
            assert(self.draw() =~= Seq::new(
                (MODE5_WIDTH * MODE5_HEIGHT) as nat,
                |i: int| 0u16,
            ));
        }
    }
}

/// Law: on the indexed mode, a pixel write lands exactly where it was
/// aimed. After a `set` at `(x, y)` — whose contract says the drawing
/// buffer is the old one updated at `x + y * width` — reading that
/// coordinate back gives the value written, and every other pixel of the
/// buffer, in particular the sibling sharing the written pixel's 16-bit
/// cell, keeps its value.
pub proof fn lemma_mode4_set_then_get(pre: Mode4, post: Mode4, x: int, y: int, c: u8)
    requires
        pre.wf(),
        0 <= x < MODE4_WIDTH,
        0 <= y < MODE4_HEIGHT,
        post.draw() == pre.draw().update(x + y * (MODE4_WIDTH as int), c),
    ensures
        post.draw()[x + y * (MODE4_WIDTH as int)] == c,
        forall|j: int|
            0 <= j < pre.draw().len() && j != x + y * (MODE4_WIDTH as int)
                ==> post.draw()[j] == pre.draw()[j],
{
    Mode4::wf_facts(pre);
}

/// Law: swapping twice returns the buffer selector to its original value,
/// and with it the drawing target. After one swap the buffer that `set`
/// targets is the formerly presented frame, not the frame just drawn;
/// after the second swap the first frame, pixels intact, is the drawing
/// target again.
pub proof fn lemma_mode4_swap_twice(s0: Mode4, s1: Mode4, s2: Mode4)
    requires
        s0.wf(),
        s1.wf(),
        s2.wf(),
        Mode4::swapped(s0, s1),
        Mode4::swapped(s1, s2),
    ensures
        s2.spec_active() == s0.spec_active(),
        s1.draw() == (if s0.spec_active() == SwapBuffer::A {
            unpack_cells(s0.frame_a())
        } else {
            unpack_cells(s0.frame_b())
        }),
        s2.draw() == s0.draw(),
        spec_get_bit(s2.control().device(), DISPCNT_FRAME_BIT) == spec_get_bit(
            s0.control().device(),
            DISPCNT_FRAME_BIT,
        ),
{
}

/// Law: as [`lemma_mode4_swap_twice`], for mode 5.
pub proof fn lemma_mode5_swap_twice(s0: Mode5, s1: Mode5, s2: Mode5)
    requires
        s0.wf(),
        s1.wf(),
        s2.wf(),
        Mode5::swapped(s0, s1),
        Mode5::swapped(s1, s2),
    ensures
        s2.spec_active() == s0.spec_active(),
        s1.draw() == (if s0.spec_active() == SwapBuffer::A {
            s0.frame_a()
        } else {
            s0.frame_b()
        }),
        s2.draw() == s0.draw(),
        spec_get_bit(s2.control().device(), DISPCNT_FRAME_BIT) == spec_get_bit(
            s0.control().device(),
            DISPCNT_FRAME_BIT,
        ),
{
}

/// Graphics mode 3: 240 by 160 pixels of 16 bits, one buffer.
///
/// The single buffer is both drawn and presented, so `swap` is a defined
/// no-op.
pub struct Mode3 {
    dispcnt: Register<u16>,
    vram: Region<u16>,
}

impl Mode3 {
    /// The display control register of this mode.
    pub closed spec fn control(&self) -> Register<u16> {
        self.dispcnt
    }
}

impl BitmapMode<u16> for Mode3 {
    open spec fn width() -> usize {
        MODE3_WIDTH
    }

    open spec fn height() -> usize {
        MODE3_HEIGHT
    }

    open spec fn depth() -> usize {
        MODE3_DEPTH
    }

    open spec fn zero_pixel() -> u16 {
        0
    }

    open spec fn wf(&self) -> bool {
        &&& self.draw().len() == MODE3_CELLS
        &&& self.control().spec_addr() == REG_DISPCNT
    }

    closed spec fn draw(&self) -> Seq<u16> {
        self.vram@
    }

    open spec fn enabled(pre: Mode3, post: Mode3) -> bool {
        &&& post.control().device() == spec_set_masked(
            0u16,
            DISPCNT_MODE_SHIFT,
            DISPCNT_MODE_MASK,
            MODE3_CODE,
        )
        &&& post.control().staged() == post.control().device()
    }

    open spec fn swapped(pre: Mode3, post: Mode3) -> bool {
        post == pre
    }

    open spec fn set_rest(pre: Mode3, post: Mode3) -> bool {
        post.control() == pre.control()
    }

    proof fn wf_facts(s: Mode3) {
    }

    proof fn set_rest_refl(a: Mode3) {
    }

    proof fn set_rest_trans(a: Mode3, b: Mode3, c: Mode3) {
    }

    fn new() -> (r: Mode3)
        ensures
            r.draw() == Seq::new(MODE3_CELLS as nat, |i: int| 0u16),
            r.control().staged() == 0u16,
            r.control().device() == 0u16,
    {
        Mode3 {
            dispcnt: Register::new(REG_DISPCNT),
            vram: Region::new(VRAM_BASE, MODE3_CELLS, 0u16),
        }
    }

    fn bounds(&self) -> (usize, usize, usize) {
        (MODE3_WIDTH, MODE3_HEIGHT, MODE3_DEPTH)
    }

    fn enable(&mut self) {
        self.dispcnt = self.dispcnt.zero().set_masked(
            DISPCNT_MODE_SHIFT,
            DISPCNT_MODE_MASK,
            MODE3_CODE,
        ).write();
    }

    fn swap(&mut self) {
        // Mode 3 has no second buffer.
    }

    fn set(&mut self, x: usize, y: usize, c: u16) {
        self.vram.write_index(x + y * MODE3_WIDTH, c);
    }

    fn get(&self, x: usize, y: usize) -> u16 {
        self.vram.read_index(x + y * MODE3_WIDTH)
    }

    fn clear(&mut self) {
        let mut y: usize = 0;
        while y < MODE3_HEIGHT
            invariant
                y <= MODE3_HEIGHT,
                self.wf(),
                Self::set_rest(*old(self), *self),
                self.draw() == Seq::new(
                    MODE3_CELLS as nat,
                    |i: int|
                        if i < y * MODE3_WIDTH {
                            0u16
                        } else {
                            old(self).draw()[i]
                        },
                ),
            decreases MODE3_HEIGHT - y,
        {
            let mut x: usize = 0;
            while x < MODE3_WIDTH
                invariant
                    y < MODE3_HEIGHT,
                    x <= MODE3_WIDTH,
                    self.wf(),
                    Self::set_rest(*old(self), *self),
                    self.draw() == Seq::new(
                        MODE3_CELLS as nat,
                        |i: int|
                            if i < y * MODE3_WIDTH + x {
                                0u16
                            } else {
                                old(self).draw()[i]
                            },
                    ),
                decreases MODE3_WIDTH - x,
            {
                self.set(x, y, 0);
                proof {
                    assert(self.draw() =~= Seq::new(
                        MODE3_CELLS as nat,
                        |i: int|
                            if i < y * MODE3_WIDTH + x + 1 {
                                0u16
                            } else {
                                old(self).draw()[i]
                            },
                    ));
                }
                x = x + 1;
            }
            y = y + 1;
        }
        proof {
            assert(self.draw() =~= Seq::new(
                (MODE3_WIDTH * MODE3_HEIGHT) as nat,
                |i: int| 0u16,
            ));
        }
    }
}

} // verus!
