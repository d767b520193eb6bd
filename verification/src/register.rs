//! Memory-mapped control and status words with staged bit-field operations.
//!
//! A [`Register`] models one hardware word whose bits carry independent
//! meanings. It is distinct from a region: the word is not an array cell but
//! a control surface, and some of its bits take effect the instant they are
//! stored. All bit-field operations are therefore staged on a held copy of
//! the word, and the device word is touched only by [`Register::read`] (one
//! load) and [`Register::write`] (one store). A caller composes several
//! field changes and commits them in exactly one store, so the device never
//! observes a half-updated word.
//!
//! The registers of the device come in two widths, so the bit-field logic is
//! written once over the [`Word`] interface, which both `u16` and `u32`
//! provide.

use vstd::prelude::*;

verus! {

/// The numeric capability a register word needs: fixed width, zero and one
/// constants, bitwise complement, and, or, shifts, wrapping sum and
/// difference, and equality. `u16` and `u32` provide it; the register logic
/// is written once over this interface.
pub trait Word: Copy + Sized {
    /// The number of bits in the word.
    spec fn bits() -> u32;

    /// The all-zero word.
    spec fn w_zero() -> Self;

    /// The word holding one.
    spec fn w_one() -> Self;

    /// Bitwise complement.
    spec fn w_not(self) -> Self;

    /// Bitwise and.
    spec fn w_and(self, other: Self) -> Self;

    /// Bitwise or.
    spec fn w_or(self, other: Self) -> Self;

    /// Left shift by `n`, dropping bits shifted past the width.
    spec fn w_shl(self, n: u32) -> Self;

    /// Right shift by `n`.
    spec fn w_shr(self, n: u32) -> Self;

    /// Sum modulo the width.
    spec fn w_add(self, other: Self) -> Self;

    /// Difference modulo the width.
    spec fn w_sub(self, other: Self) -> Self;

    /// The all-zero word, as a value.
    fn zero() -> (r: Self)
        ensures
            r == Self::w_zero(),
    ;

    /// The word holding one, as a value.
    fn one() -> (r: Self)
        ensures
            r == Self::w_one(),
    ;

    /// Bitwise complement.
    fn bnot(self) -> (r: Self)
        ensures
            r == self.w_not(),
    ;

    /// Bitwise and.
    fn band(self, other: Self) -> (r: Self)
        ensures
            r == self.w_and(other),
    ;

    /// Bitwise or.
    fn bor(self, other: Self) -> (r: Self)
        ensures
            r == self.w_or(other),
    ;

    /// Left shift by `n`, which must be inside the width.
    fn shl(self, n: u32) -> (r: Self)
        requires
            n < Self::bits(),
        ensures
            r == self.w_shl(n),
    ;

    /// Right shift by `n`, which must be inside the width.
    fn shr(self, n: u32) -> (r: Self)
        requires
            n < Self::bits(),
        ensures
            r == self.w_shr(n),
    ;

    /// Wrapping sum.
    fn wadd(self, other: Self) -> (r: Self)
        ensures
            r == self.w_add(other),
    ;

    /// Wrapping difference.
    fn wsub(self, other: Self) -> (r: Self)
        ensures
            r == self.w_sub(other),
    ;

    /// Equality of two words.
    fn eq_word(self, other: Self) -> (r: bool)
        ensures
            r == (self == other),
    ;

    /// A masked field written into a word at a shift comes back out intact:
    /// reading the field of the word that the masked write built returns the
    /// masked value written, whatever the word held before. The mask must
    /// survive the shift, that is, no bit of it may fall off the top of the
    /// word.
    proof fn masked_round_trip(w: Self, shift: u32, mask: Self, v: Self)
        requires
            shift < Self::bits(),
            mask.w_shl(shift).w_shr(shift) == mask,
        ensures
            w.w_and(mask.w_shl(shift).w_not()).w_or(v.w_and(mask).w_shl(shift)).w_shr(
                shift,
            ).w_and(mask) == v.w_and(mask),
    ;

    /// Writing one bit leaves exactly that bit set or cleared and every
    /// other bit of the word as it was.
    proof fn bit_round_trip(w: Self, i: u32, j: u32)
        requires
            i < Self::bits(),
            j < Self::bits(),
        ensures
            w.w_or(Self::w_one().w_shl(i)).w_shr(i).w_and(Self::w_one()) == Self::w_one(),
            w.w_and(Self::w_one().w_shl(i).w_not()).w_shr(i).w_and(Self::w_one())
                != Self::w_one(),
            i != j ==> w.w_or(Self::w_one().w_shl(i)).w_shr(j).w_and(Self::w_one())
                == w.w_shr(j).w_and(Self::w_one()),
            i != j ==> w.w_and(Self::w_one().w_shl(i).w_not()).w_shr(j).w_and(Self::w_one())
                == w.w_shr(j).w_and(Self::w_one()),
    ;
}

/// Whether bit `i` of `w` is set.
pub open spec fn spec_get_bit<W: Word>(w: W, i: u32) -> bool {
    w.w_shr(i).w_and(W::w_one()) == W::w_one()
}

/// `w` with bit `i` set to `v` and every other bit unchanged.
pub open spec fn spec_set_bit<W: Word>(w: W, i: u32, v: bool) -> W {
    if v {
        w.w_or(W::w_one().w_shl(i))
    } else {
        w.w_and(W::w_one().w_shl(i).w_not())
    }
}

/// The field of `w` that sits under `mask` once the word is shifted right by
/// `shift`. The shift is applied before the mask: masks are expressed
/// relative to bit zero, not relative to their final position in the word.
pub open spec fn spec_get_masked<W: Word>(w: W, shift: u32, mask: W) -> W {
    w.w_shr(shift).w_and(mask)
}

/// `w` with the field under `mask << shift` cleared and `(v & mask) << shift`
/// or-ed in. As in `spec_get_masked`, the mask is relative to bit zero.
pub open spec fn spec_set_masked<W: Word>(w: W, shift: u32, mask: W, v: W) -> W {
    w.w_and(mask.w_shl(shift).w_not()).w_or(v.w_and(mask).w_shl(shift))
}

impl Word for u16 {
    open spec fn bits() -> u32 {
        16
    }

    open spec fn w_zero() -> u16 {
        0
    }

    open spec fn w_one() -> u16 {
        1
    }

    open spec fn w_not(self) -> u16 {
        !self
    }

    open spec fn w_and(self, other: u16) -> u16 {
        self & other
    }

    open spec fn w_or(self, other: u16) -> u16 {
        self | other
    }

    open spec fn w_shl(self, n: u32) -> u16 {
        self << n
    }

    open spec fn w_shr(self, n: u32) -> u16 {
        self >> n
    }

    open spec fn w_add(self, other: u16) -> u16 {
        if self + other > u16::MAX {
            (self + other - 0x1_0000) as u16
        } else {
            (self + other) as u16
        }
    }

    open spec fn w_sub(self, other: u16) -> u16 {
        if self - other < 0 {
            (self - other + 0x1_0000) as u16
        } else {
            (self - other) as u16
        }
    }

    fn zero() -> u16 {
        0
    }

    fn one() -> u16 {
        1
    }

    fn bnot(self) -> u16 {
        !self
    }

    fn band(self, other: u16) -> u16 {
        self & other
    }

    fn bor(self, other: u16) -> u16 {
        self | other
    }

    fn shl(self, n: u32) -> u16 {
        self << n
    }

    fn shr(self, n: u32) -> u16 {
        self >> n
    }

    fn wadd(self, other: u16) -> u16 {
        self.wrapping_add(other)
    }

    fn wsub(self, other: u16) -> u16 {
        self.wrapping_sub(other)
    }

    fn eq_word(self, other: u16) -> bool {
        self == other
    }

    proof fn masked_round_trip(w: u16, shift: u32, mask: u16, v: u16) {
        assert((((w & !(mask << shift)) | ((v & mask) << shift)) >> shift) & mask == (v
            & mask)) by (bit_vector)
            requires
                shift < 16,
                (mask << shift) >> shift == mask,
        ;
    }

    proof fn bit_round_trip(w: u16, i: u32, j: u32) {
        assert((((w | (1u16 << i)) >> i) & 1u16) == 1u16) by (bit_vector)
            requires
                i < 16,
        ;
        assert((((w & !(1u16 << i)) >> i) & 1u16) != 1u16) by (bit_vector)
            requires
                i < 16,
        ;
        assert(i != j ==> (((w | (1u16 << i)) >> j) & 1u16) == ((w >> j) & 1u16)) by (bit_vector)
            requires
                i < 16,
                j < 16,
        ;
        assert(i != j ==> (((w & !(1u16 << i)) >> j) & 1u16) == ((w >> j) & 1u16)) by (bit_vector)
            requires
                i < 16,
                j < 16,
        ;
    }
}

impl Word for u32 {
    open spec fn bits() -> u32 {
        32
    }

    open spec fn w_zero() -> u32 {
        0
    }

    open spec fn w_one() -> u32 {
        1
    }

    open spec fn w_not(self) -> u32 {
        !self
    }

    open spec fn w_and(self, other: u32) -> u32 {
        self & other
    }

    open spec fn w_or(self, other: u32) -> u32 {
        self | other
    }

    open spec fn w_shl(self, n: u32) -> u32 {
        self << n
    }

    open spec fn w_shr(self, n: u32) -> u32 {
        self >> n
    }

    open spec fn w_add(self, other: u32) -> u32 {
        if self + other > u32::MAX {
            (self + other - 0x1_0000_0000) as u32
        } else {
            (self + other) as u32
        }
    }

    open spec fn w_sub(self, other: u32) -> u32 {
        if self - other < 0 {
            (self - other + 0x1_0000_0000) as u32
        } else {
            (self - other) as u32
        }
    }

    fn zero() -> u32 {
        0
    }

    fn one() -> u32 {
        1
    }

    fn bnot(self) -> u32 {
        !self
    }

    fn band(self, other: u32) -> u32 {
        self & other
    }

    fn bor(self, other: u32) -> u32 {
        self | other
    }

    fn shl(self, n: u32) -> u32 {
        self << n
    }

    fn shr(self, n: u32) -> u32 {
        self >> n
    }

    fn wadd(self, other: u32) -> u32 {
        self.wrapping_add(other)
    }

    fn wsub(self, other: u32) -> u32 {
        self.wrapping_sub(other)
    }

    fn eq_word(self, other: u32) -> bool {
        self == other
    }

    proof fn masked_round_trip(w: u32, shift: u32, mask: u32, v: u32) {
        assert((((w & !(mask << shift)) | ((v & mask) << shift)) >> shift) & mask == (v
            & mask)) by (bit_vector)
            requires
                shift < 32,
                (mask << shift) >> shift == mask,
        ;
    }

    proof fn bit_round_trip(w: u32, i: u32, j: u32) {
        assert((((w | (1u32 << i)) >> i) & 1u32) == 1u32) by (bit_vector)
            requires
                i < 32,
        ;
        assert((((w & !(1u32 << i)) >> i) & 1u32) != 1u32) by (bit_vector)
            requires
                i < 32,
        ;
        assert(i != j ==> (((w | (1u32 << i)) >> j) & 1u32) == ((w >> j) & 1u32)) by (bit_vector)
            requires
                i < 32,
                j < 32,
        ;
        assert(i != j ==> (((w & !(1u32 << i)) >> j) & 1u32) == ((w >> j) & 1u32)) by (bit_vector)
            requires
                i < 32,
                j < 32,
        ;
    }
}

/// One memory-mapped control or status word, with the word's address, a held
/// copy that the bit-field operations stage their changes on, and the model
/// of the word as the device holds it.
///
/// The device word of the model starts at zero, as the boot sequence leaves
/// the control words it has cleared, and changes only through
/// [`Register::write`]. On the device itself every load and store of the
/// word is a single volatile access at the register's address, never elided,
/// reordered or split; the model keeps the same shape by touching the device
/// word in exactly those two operations. Two registers constructed over one
/// address would each keep their own model of the word, so distinct
/// registers must cover distinct addresses; that is a precondition on the
/// caller, as the address space has no ownership tracking.
#[derive(Clone, Copy)]
pub struct Register<W: Word> {
    addr: usize,
    value: W,
    device: W,
}

impl<W: Word> Register<W> {
    /// The address this register is mapped at.
    pub closed spec fn spec_addr(self) -> usize {
        self.addr
    }

    /// The held word that the staged operations work on.
    pub closed spec fn staged(self) -> W {
        self.value
    }

    /// The model of the word as the device holds it.
    pub closed spec fn device(self) -> W {
        self.device
    }

    /// Map a register at `addr`, with the held copy and the device word of
    /// the model at zero.
    pub fn new(addr: usize) -> (r: Register<W>)
        ensures
            r.spec_addr() == addr,
            r.staged() == W::w_zero(),
            r.device() == W::w_zero(),
    {
        Register { addr, value: W::zero(), device: W::zero() }
    }

    /// Issue the one load of the device word; the result holds the word
    /// read.
    pub fn read(self) -> (r: Register<W>)
        ensures
            r.spec_addr() == self.spec_addr(),
            r.staged() == self.device(),
            r.device() == self.device(),
    {
        Register { value: self.device, ..self }
    }

    /// Issue the one store of the held word to the device. This is the only
    /// operation that changes the device word: every staged change becomes
    /// visible in this single commit.
    pub fn write(self) -> (r: Register<W>)
        ensures
            r.spec_addr() == self.spec_addr(),
            r.staged() == self.staged(),
            r.device() == self.staged(),
    {
        Register { device: self.value, ..self }
    }

    /// Replace the held word with zero, without touching the device.
    pub fn zero(self) -> (r: Register<W>)
        ensures
            r.spec_addr() == self.spec_addr(),
            r.staged() == W::w_zero(),
            r.device() == self.device(),
    {
        Register { value: W::zero(), ..self }
    }

    /// Replace the held word with `v`, without touching the device.
    pub fn set(self, v: W) -> (r: Register<W>)
        ensures
            r.spec_addr() == self.spec_addr(),
            r.staged() == v,
            r.device() == self.device(),
    {
        Register { value: v, ..self }
    }

    /// Keep only the bits of the held word that `mask` keeps.
    pub fn and(self, mask: W) -> (r: Register<W>)
        ensures
            r.spec_addr() == self.spec_addr(),
            r.staged() == self.staged().w_and(mask),
            r.device() == self.device(),
    {
        Register { value: self.value.band(mask), ..self }
    }

    /// Set the bits of the held word that `mask` sets.
    pub fn or(self, mask: W) -> (r: Register<W>)
        ensures
            r.spec_addr() == self.spec_addr(),
            r.staged() == self.staged().w_or(mask),
            r.device() == self.device(),
    {
        Register { value: self.value.bor(mask), ..self }
    }

    /// Clear the bits of the held word that `mask` sets.
    pub fn clear(self, mask: W) -> (r: Register<W>)
        ensures
            r.spec_addr() == self.spec_addr(),
            r.staged() == self.staged().w_and(mask.w_not()),
            r.device() == self.device(),
    {
        Register { value: self.value.band(mask.bnot()), ..self }
    }

    /// Whether bit `i` of the held word is set.
    pub fn get_bit(&self, i: u32) -> (r: bool)
        requires
            i < W::bits(),
        ensures
            r == spec_get_bit(self.staged(), i),
    {
        self.value.shr(i).band(W::one()).eq_word(W::one())
    }

    /// Set bit `i` of the held word to `v`, leaving every other bit as it
    /// was, without touching the device.
    pub fn set_bit(self, i: u32, v: bool) -> (r: Register<W>)
        requires
            i < W::bits(),
        ensures
            r.spec_addr() == self.spec_addr(),
            r.staged() == spec_set_bit(self.staged(), i, v),
            r.device() == self.device(),
    {
        if v {
            Register { value: self.value.bor(W::one().shl(i)), ..self }
        } else {
            Register { value: self.value.band(W::one().shl(i).bnot()), ..self }
        }
    }

    /// The field of the held word that sits under `mask` after shifting
    /// right by `shift`; the shift is applied before the mask.
    pub fn get_masked(&self, shift: u32, mask: W) -> (r: W)
        requires
            shift < W::bits(),
        ensures
            r == spec_get_masked(self.staged(), shift, mask),
    {
        self.value.shr(shift).band(mask)
    }

    /// Clear the field of the held word under `mask << shift` and or in
    /// `(v & mask) << shift`, without touching the device; the mask is
    /// expressed relative to bit zero.
    pub fn set_masked(self, shift: u32, mask: W, v: W) -> (r: Register<W>)
        requires
            shift < W::bits(),
        ensures
            r.spec_addr() == self.spec_addr(),
            r.staged() == spec_set_masked(self.staged(), shift, mask, v),
            r.device() == self.device(),
    {
        Register {
            value: self.value.band(mask.shl(shift).bnot()).bor(v.band(mask).shl(shift)),
            ..self
        }
    }
}

/// Law: a masked field round-trips through the builder. For every word `w`,
/// field value `v`, shift and mask whose bits survive the shift, reading the
/// field back out of the word that `set_masked` built returns exactly
/// `v & mask`.
pub proof fn lemma_masked_round_trip<W: Word>(w: W, shift: u32, mask: W, v: W)
    requires
        shift < W::bits(),
        mask.w_shl(shift).w_shr(shift) == mask,
    ensures
        spec_get_masked(spec_set_masked(w, shift, mask, v), shift, mask) == v.w_and(mask),
{
    W::masked_round_trip(w, shift, mask, v);
}

/// Law: setting a bit and reading it back gives the value set, and no other
/// bit of the word is disturbed by either operation.
pub proof fn lemma_bit_round_trip<W: Word>(w: W, i: u32, v: bool, j: u32)
    requires
        i < W::bits(),
        j < W::bits(),
    ensures
        spec_get_bit(spec_set_bit(w, i, v), i) == v,
        i != j ==> spec_get_bit(spec_set_bit(w, i, v), j) == spec_get_bit(w, j),
{
    W::bit_round_trip(w, i, j);
}

} // verus!
