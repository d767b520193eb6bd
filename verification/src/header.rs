//! The cartridge header and its integrity rule.
//!
//! A fixed 192-byte header sits at the start of every cartridge image: a
//! 4-byte entry branch, the fixed 156-byte logo pattern the device checks
//! at boot, a 12-byte title, game and maker codes, a fixed byte, unit and
//! device type bytes, and two integrity fields. The checksum byte is
//! unused by the device and conventionally zero. The complement byte is
//! what the device validates: the bytes from offset 0xA0 through 0xBC are
//! summed with 8-bit wrapping addition, and the complement must equal
//! `NOT(0x19 + sum) + 1`, again 8-bit wrapping.
//!
//! [`Header::fix`] is the repair rule of the header utility: it restores
//! the logo, fixed and device type bytes to their known-good values,
//! zeroes the checksum and recomputes the complement.

use vstd::prelude::*;

verus! {

/// Bytes in the whole header.
pub const HEADER_SIZE: usize = 192;

/// Bytes in the logo pattern.
pub const LOGO_SIZE: usize = 156;

/// Bytes in the title field.
pub const TITLE_SIZE: usize = 12;

/// The known-good value of the fixed byte.
pub const FIXED_VALUE: u8 = 0x96;

/// The known-good value of the device type byte.
pub const DEVICE_TYPE_VALUE: u8 = 0x80;

/// The fixed logo pattern the device compares against at boot.
#[verifier::opaque]
pub open spec fn spec_logo() -> Seq<u8> {
    Seq::empty()
        .push(0x24u8).push(0xFFu8).push(0xAEu8).push(0x51u8).push(0x69u8).push(0x9Au8)
        .push(0xA2u8).push(0x21u8).push(0x3Du8).push(0x84u8).push(0x82u8).push(0x0Au8)
        .push(0x84u8).push(0xE4u8).push(0x09u8).push(0xADu8).push(0x11u8).push(0x24u8)
        .push(0x8Bu8).push(0x98u8).push(0xC0u8).push(0x81u8).push(0x7Fu8).push(0x21u8)
        .push(0xA3u8).push(0x52u8).push(0xBEu8).push(0x19u8).push(0x93u8).push(0x09u8)
        .push(0xCEu8).push(0x20u8).push(0x10u8).push(0x46u8).push(0x4Au8).push(0x4Au8)
        .push(0xF8u8).push(0x27u8).push(0x31u8).push(0xECu8).push(0x58u8).push(0xC7u8)
        .push(0xE8u8).push(0x33u8).push(0x82u8).push(0xE3u8).push(0xCEu8).push(0xBFu8)
        .push(0x85u8).push(0xF4u8).push(0xDFu8).push(0x94u8).push(0xCEu8).push(0x4Bu8)
        .push(0x09u8).push(0xC1u8).push(0x94u8).push(0x56u8).push(0x8Au8).push(0xC0u8)
        .push(0x13u8).push(0x72u8).push(0xA7u8).push(0xFCu8).push(0x9Fu8).push(0x84u8)
        .push(0x4Du8).push(0x73u8).push(0xA3u8).push(0xCAu8).push(0x9Au8).push(0x61u8)
        .push(0x58u8).push(0x97u8).push(0xA3u8).push(0x27u8).push(0xFCu8).push(0x03u8)
        .push(0x98u8).push(0x76u8).push(0x23u8).push(0x1Du8).push(0xC7u8).push(0x61u8)
        .push(0x03u8).push(0x04u8).push(0xAEu8).push(0x56u8).push(0xBFu8).push(0x38u8)
        .push(0x84u8).push(0x00u8).push(0x40u8).push(0xA7u8).push(0x0Eu8).push(0xFDu8)
        .push(0xFFu8).push(0x52u8).push(0xFEu8).push(0x03u8).push(0x6Fu8).push(0x95u8)
        .push(0x30u8).push(0xF1u8).push(0x97u8).push(0xFBu8).push(0xC0u8).push(0x85u8)
        .push(0x60u8).push(0xD6u8).push(0x80u8).push(0x25u8).push(0xA9u8).push(0x63u8)
        .push(0xBEu8).push(0x03u8).push(0x01u8).push(0x4Eu8).push(0x38u8).push(0xE2u8)
        .push(0xF9u8).push(0xA2u8).push(0x34u8).push(0xFFu8).push(0xBBu8).push(0x3Eu8)
        .push(0x03u8).push(0x44u8).push(0x78u8).push(0x00u8).push(0x90u8).push(0xCBu8)
        .push(0x88u8).push(0x11u8).push(0x3Au8).push(0x94u8).push(0x65u8).push(0xC0u8)
        .push(0x7Cu8).push(0x63u8).push(0x87u8).push(0xF0u8).push(0x3Cu8).push(0xAFu8)
        .push(0xD6u8).push(0x25u8).push(0xE4u8).push(0x8Bu8).push(0x38u8).push(0x0Au8)
        .push(0xACu8).push(0x72u8).push(0x21u8).push(0xD4u8).push(0xF8u8).push(0x07u8)
}

/// The fixed 192-byte cartridge header.
///
/// The fields lie in the header image in declaration order: entry at
/// offset 0, logo at 0x04, title at 0xA0, game code at 0xAC, maker code
/// at 0xB0, then the fixed, unit code and device type bytes, seven
/// reserved bytes, the checksum at 0xBC, the complement at 0xBD, and two
/// reserved bytes at 0xBE.
pub struct Header {
    /// The entry branch, 4 bytes.
    pub entry: Vec<u8>,
    /// The logo pattern, 156 bytes.
    pub logo: Vec<u8>,
    /// The title, 12 bytes.
    pub title: Vec<u8>,
    /// The game code, 4 bytes.
    pub game_code: Vec<u8>,
    /// The maker code, 2 bytes.
    pub maker_code: Vec<u8>,
    /// The fixed byte, 0x96 on a valid header.
    pub fixed: u8,
    /// The unit code.
    pub unit_code: u8,
    /// The device type.
    pub device_type: u8,
    /// Seven reserved bytes.
    pub reserved: Vec<u8>,
    /// The checksum, unused by the device and conventionally zero.
    pub checksum: u8,
    /// The complement the device validates.
    pub complement: u8,
    /// Two reserved bytes.
    pub reserved2: Vec<u8>,
}

impl Header {
    /// Every field spans exactly its place in the 192-byte image.
    pub open spec fn wf(&self) -> bool {
        &&& self.entry@.len() == 4
        &&& self.logo@.len() == LOGO_SIZE
        &&& self.title@.len() == TITLE_SIZE
        &&& self.game_code@.len() == 4
        &&& self.maker_code@.len() == 2
        &&& self.reserved@.len() == 7
        &&& self.reserved2@.len() == 2
    }
}

/// The 192-byte image of a header, fields in offset order.
pub open spec fn spec_bytes(h: Header) -> Seq<u8> {
    h.entry@ + h.logo@ + h.title@ + h.game_code@ + h.maker_code@ + seq![
        h.fixed,
        h.unit_code,
        h.device_type,
    ] + h.reserved@ + seq![h.checksum, h.complement] + h.reserved2@
}

/// Sum of two bytes with 8-bit wrapping.
pub open spec fn wrap_add(a: u8, b: u8) -> u8 {
    if a + b > 255 {
        (a + b - 256) as u8
    } else {
        (a + b) as u8
    }
}

/// The wrapping 8-bit sum of a byte sequence.
pub open spec fn sum_bytes(s: Seq<u8>) -> u8
    decreases s.len(),
{
    if s.len() == 0 {
        0
    } else {
        wrap_add(sum_bytes(s.drop_last()), s.last())
    }
}

/// The complement demanded for a span summing to `sum`:
/// `NOT(0x19 + sum) + 1`, each step wrapping at 8 bits.
pub open spec fn complement_of(sum: u8) -> u8 {
    wrap_add(!wrap_add(0x19, sum), 1)
}

/// The header bytes the complement rule sums: offsets 0xA0 through 0xBC
/// of the image, with the checksum byte taken as zero, as the fixer
/// leaves it.
pub open spec fn summed_span(h: Header) -> Seq<u8> {
    h.title@ + h.game_code@ + h.maker_code@ + seq![h.fixed, h.unit_code, h.device_type]
        + h.reserved@ + seq![0u8]
}

/// The complement a header's bytes demand.
pub open spec fn spec_complement(h: Header) -> u8 {
    complement_of(sum_bytes(summed_span(h)))
}

/// Law: the span the complement rule sums is exactly the header image
/// from offset 0xA0 through 0xBC, with the checksum byte at 0xBC taken as
/// zero.
pub proof fn lemma_summed_span_is_image_span(h: Header)
    requires
        h.wf(),
    ensures
        summed_span(h) == spec_bytes(h).subrange(0xA0, 0xBD).update(28, 0u8),
{
    assert(summed_span(h) =~= spec_bytes(h).subrange(0xA0, 0xBD).update(28, 0u8));
}

/// The known-good logo pattern, as a value.
pub fn logo() -> (l: Vec<u8>)
    ensures
        l@ == spec_logo(),
        l@.len() == LOGO_SIZE,
{
    let mut l: Vec<u8> = Vec::new();
    l.push(0x24);
    l.push(0xFF);
    l.push(0xAE);
    l.push(0x51);
    l.push(0x69);
    l.push(0x9A);
    l.push(0xA2);
    l.push(0x21);
    l.push(0x3D);
    l.push(0x84);
    l.push(0x82);
    l.push(0x0A);
    proof {
        assert(l@.len() == 12);
    }
    l.push(0x84);
    l.push(0xE4);
    l.push(0x09);
    l.push(0xAD);
    l.push(0x11);
    l.push(0x24);
    l.push(0x8B);
    l.push(0x98);
    l.push(0xC0);
    l.push(0x81);
    l.push(0x7F);
    l.push(0x21);
    proof {
        assert(l@.len() == 24);
    }
    l.push(0xA3);
    l.push(0x52);
    l.push(0xBE);
    l.push(0x19);
    l.push(0x93);
    l.push(0x09);
    l.push(0xCE);
    l.push(0x20);
    l.push(0x10);
    l.push(0x46);
    l.push(0x4A);
    l.push(0x4A);
    proof {
        assert(l@.len() == 36);
    }
    l.push(0xF8);
    l.push(0x27);
    l.push(0x31);
    l.push(0xEC);
    l.push(0x58);
    l.push(0xC7);
    l.push(0xE8);
    l.push(0x33);
    l.push(0x82);
    l.push(0xE3);
    l.push(0xCE);
    l.push(0xBF);
    proof {
        assert(l@.len() == 48);
    }
    l.push(0x85);
    l.push(0xF4);
    l.push(0xDF);
    l.push(0x94);
    l.push(0xCE);
    l.push(0x4B);
    l.push(0x09);
    l.push(0xC1);
    l.push(0x94);
    l.push(0x56);
    l.push(0x8A);
    l.push(0xC0);
    proof {
        assert(l@.len() == 60);
    }
    l.push(0x13);
    l.push(0x72);
    l.push(0xA7);
    l.push(0xFC);
    l.push(0x9F);
    l.push(0x84);
    l.push(0x4D);
    l.push(0x73);
    l.push(0xA3);
    l.push(0xCA);
    l.push(0x9A);
    l.push(0x61);
    proof {
        assert(l@.len() == 72);
    }
    l.push(0x58);
    l.push(0x97);
    l.push(0xA3);
    l.push(0x27);
    l.push(0xFC);
    l.push(0x03);
    l.push(0x98);
    l.push(0x76);
    l.push(0x23);
    l.push(0x1D);
    l.push(0xC7);
    l.push(0x61);
    proof {
        assert(l@.len() == 84);
    }
    l.push(0x03);
    l.push(0x04);
    l.push(0xAE);
    l.push(0x56);
    l.push(0xBF);
    l.push(0x38);
    l.push(0x84);
    l.push(0x00);
    l.push(0x40);
    l.push(0xA7);
    l.push(0x0E);
    l.push(0xFD);
    proof {
        assert(l@.len() == 96);
    }
    l.push(0xFF);
    l.push(0x52);
    l.push(0xFE);
    l.push(0x03);
    l.push(0x6F);
    l.push(0x95);
    l.push(0x30);
    l.push(0xF1);
    l.push(0x97);
    l.push(0xFB);
    l.push(0xC0);
    l.push(0x85);
    proof {
        assert(l@.len() == 108);
    }
    l.push(0x60);
    l.push(0xD6);
    l.push(0x80);
    l.push(0x25);
    l.push(0xA9);
    l.push(0x63);
    l.push(0xBE);
    l.push(0x03);
    l.push(0x01);
    l.push(0x4E);
    l.push(0x38);
    l.push(0xE2);
    proof {
        assert(l@.len() == 120);
    }
    l.push(0xF9);
    l.push(0xA2);
    l.push(0x34);
    l.push(0xFF);
    l.push(0xBB);
    l.push(0x3E);
    l.push(0x03);
    l.push(0x44);
    l.push(0x78);
    l.push(0x00);
    l.push(0x90);
    l.push(0xCB);
    proof {
        assert(l@.len() == 132);
    }
    l.push(0x88);
    l.push(0x11);
    l.push(0x3A);
    l.push(0x94);
    l.push(0x65);
    l.push(0xC0);
    l.push(0x7C);
    l.push(0x63);
    l.push(0x87);
    l.push(0xF0);
    l.push(0x3C);
    l.push(0xAF);
    proof {
        assert(l@.len() == 144);
    }
    l.push(0xD6);
    l.push(0x25);
    l.push(0xE4);
    l.push(0x8B);
    l.push(0x38);
    l.push(0x0A);
    l.push(0xAC);
    l.push(0x72);
    l.push(0x21);
    l.push(0xD4);
    l.push(0xF8);
    l.push(0x07);
    proof {
        assert(l@.len() == 156);
    }
    proof {
        reveal(spec_logo);
        assert(l@ == spec_logo());
        assert(l@.len() == 156);
    }
    l
}

/// A vector of `n` zero bytes.
fn zero_bytes(n: usize) -> (v: Vec<u8>)
    ensures
        v@ == Seq::new(n as nat, |i: int| 0u8),
{
    let mut v: Vec<u8> = Vec::new();
    let mut i: usize = 0;
    while i < n
        invariant
            i <= n,
            v@ == Seq::new(i as nat, |j: int| 0u8),
        decreases n - i,
    {
        v.push(0);
        proof {
            assert(v@ =~= Seq::new((i + 1) as nat, |j: int| 0u8));
        }
        i = i + 1;
    }
    v
}

impl Default for Header {
    /// The known-good header: the fixed logo, fixed and device type
    /// bytes at their required values, and every other field zero.
    fn default() -> (h: Header)
        ensures
            h.wf(),
            h.logo@ == spec_logo(),
            h.fixed == FIXED_VALUE,
            h.device_type == DEVICE_TYPE_VALUE,
            h.entry@ == Seq::new(4, |i: int| 0u8),
            h.title@ == Seq::new(TITLE_SIZE as nat, |i: int| 0u8),
            h.game_code@ == Seq::new(4, |i: int| 0u8),
            h.maker_code@ == Seq::new(2, |i: int| 0u8),
            h.unit_code == 0,
            h.reserved@ == Seq::new(7, |i: int| 0u8),
            h.checksum == 0,
            h.complement == 0,
            h.reserved2@ == Seq::new(2, |i: int| 0u8),
    {
        Header {
            entry: zero_bytes(4),
            logo: logo(),
            title: zero_bytes(12),
            game_code: zero_bytes(4),
            maker_code: zero_bytes(2),
            fixed: FIXED_VALUE,
            unit_code: 0,
            device_type: DEVICE_TYPE_VALUE,
            reserved: zero_bytes(7),
            checksum: 0,
            complement: 0,
            reserved2: zero_bytes(2),
        }
    }
}

/// Compute the complement a header demands: sum the bytes from offset
/// 0xA0 through 0xBC with the checksum taken as zero, then take
/// `NOT(0x19 + sum) + 1`, wrapping at 8 bits throughout.
pub fn header_complement(header: &Header) -> (r: u8)
    requires
        header.wf(),
    ensures
        r == spec_complement(*header),
{
    let mut span: Vec<u8> = Vec::new();
    let mut i: usize = 0;
    while i < 12
        invariant
            header.wf(),
            i <= 12,
            span@ == header.title@.take(i as int),
        decreases 12 - i,
    {
        span.push(header.title[i]);
        proof {
            assert(span@ =~= header.title@.take(i + 1));
        }
        i = i + 1;
    }
    let mut i: usize = 0;
    while i < 4
        invariant
            header.wf(),
            i <= 4,
            span@ == header.title@ + header.game_code@.take(i as int),
        decreases 4 - i,
    {
        span.push(header.game_code[i]);
        proof {
            assert(span@ =~= header.title@ + header.game_code@.take(i + 1));
        }
        i = i + 1;
    }
    let mut i: usize = 0;
    while i < 2
        invariant
            header.wf(),
            i <= 2,
            span@ == header.title@ + header.game_code@ + header.maker_code@.take(i as int),
        decreases 2 - i,
    {
        span.push(header.maker_code[i]);
        proof {
            assert(span@ =~= header.title@ + header.game_code@ + header.maker_code@.take(
                i + 1,
            ));
        }
        i = i + 1;
    }
    span.push(header.fixed);
    span.push(header.unit_code);
    span.push(header.device_type);
    let mut i: usize = 0;
    while i < 7
        invariant
            header.wf(),
            i <= 7,
            span@ == header.title@ + header.game_code@ + header.maker_code@ + seq![
                header.fixed,
                header.unit_code,
                header.device_type,
            ] + header.reserved@.take(i as int),
        decreases 7 - i,
    {
        span.push(header.reserved[i]);
        proof {
            assert(span@ =~= header.title@ + header.game_code@ + header.maker_code@ + seq![
                header.fixed,
                header.unit_code,
                header.device_type,
            ] + header.reserved@.take(i + 1));
        }
        i = i + 1;
    }
    span.push(0);
    proof {
        assert(span@ =~= summed_span(*header));
    }
    let n = span.len();
    let mut sum: u8 = 0;
    let mut i: usize = 0;
    while i < n
        invariant
            n == span@.len(),
            i <= n,
            span@ == summed_span(*header),
            sum == sum_bytes(span@.take(i as int)),
        decreases n - i,
    {
        proof {
            assert(span@.take(i + 1).drop_last() =~= span@.take(i as int));
        }
        sum = sum.wrapping_add(span[i]);
        i = i + 1;
    }
    proof {
        assert(span@.take(n as int) =~= span@);
    }
    let t = 0x19u8.wrapping_add(sum);
    (!t).wrapping_add(1)
}

impl Header {
    /// Repair the header in place: restore the logo, fixed and device
    /// type bytes to their known-good values, zero the checksum, and
    /// store the complement the corrected bytes demand.
    pub fn fix(&mut self)
        requires
            old(self).wf(),
        ensures
            final(self).wf(),
            final(self).logo@ == spec_logo(),
            final(self).fixed == FIXED_VALUE,
            final(self).device_type == DEVICE_TYPE_VALUE,
            final(self).checksum == 0,
            final(self).complement == spec_complement(*final(self)),
            final(self).entry@ == old(self).entry@,
            final(self).title@ == old(self).title@,
            final(self).game_code@ == old(self).game_code@,
            final(self).maker_code@ == old(self).maker_code@,
            final(self).unit_code == old(self).unit_code,
            final(self).reserved@ == old(self).reserved@,
            final(self).reserved2@ == old(self).reserved2@,
    {
        self.logo = logo();
        self.fixed = FIXED_VALUE;
        self.device_type = DEVICE_TYPE_VALUE;
        self.checksum = 0;
        let c = header_complement(self);
        self.complement = c;
    }

    /// The 192-byte image of this header.
    pub fn to_bytes(&self) -> (v: Vec<u8>)
        requires
            self.wf(),
        ensures
            v@ == spec_bytes(*self),
            v@.len() == HEADER_SIZE,
    {
        let mut v: Vec<u8> = Vec::new();
        append_bytes(&mut v, &self.entry);
        append_bytes(&mut v, &self.logo);
        append_bytes(&mut v, &self.title);
        append_bytes(&mut v, &self.game_code);
        append_bytes(&mut v, &self.maker_code);
        v.push(self.fixed);
        v.push(self.unit_code);
        v.push(self.device_type);
        append_bytes(&mut v, &self.reserved);
        v.push(self.checksum);
        v.push(self.complement);
        append_bytes(&mut v, &self.reserved2);
        proof {
            assert(v@ =~= spec_bytes(*self));
        }
        v
    }

    /// Read a header out of the first 192 bytes of an image.
    pub fn from_bytes(bytes: &Vec<u8>) -> (h: Header)
        requires
            bytes@.len() >= HEADER_SIZE,
        ensures
            h.wf(),
            h.entry@ == bytes@.subrange(0x00, 0x04),
            h.logo@ == bytes@.subrange(0x04, 0xA0),
            h.title@ == bytes@.subrange(0xA0, 0xAC),
            h.game_code@ == bytes@.subrange(0xAC, 0xB0),
            h.maker_code@ == bytes@.subrange(0xB0, 0xB2),
            h.fixed == bytes@[0xB2],
            h.unit_code == bytes@[0xB3],
            h.device_type == bytes@[0xB4],
            h.reserved@ == bytes@.subrange(0xB5, 0xBC),
            h.checksum == bytes@[0xBC],
            h.complement == bytes@[0xBD],
            h.reserved2@ == bytes@.subrange(0xBE, 0xC0),
    {
        Header {
            entry: copy_bytes(bytes, 0x00, 4),
            logo: copy_bytes(bytes, 0x04, LOGO_SIZE),
            title: copy_bytes(bytes, 0xA0, TITLE_SIZE),
            game_code: copy_bytes(bytes, 0xAC, 4),
            maker_code: copy_bytes(bytes, 0xB0, 2),
            fixed: bytes[0xB2],
            unit_code: bytes[0xB3],
            device_type: bytes[0xB4],
            reserved: copy_bytes(bytes, 0xB5, 7),
            checksum: bytes[0xBC],
            complement: bytes[0xBD],
            reserved2: copy_bytes(bytes, 0xBE, 2),
        }
    }
}

/// Append every byte of `src` to `v`.
fn append_bytes(v: &mut Vec<u8>, src: &Vec<u8>)
    ensures
        final(v)@ == old(v)@ + src@,
{
    let mut i: usize = 0;
    while i < src.len()
        invariant
            i <= src@.len(),
            v@ == old(v)@ + src@.take(i as int),
        decreases src@.len() - i,
    {
        v.push(src[i]);
        proof {
            assert(v@ =~= old(v)@ + src@.take(i + 1));
        }
        i = i + 1;
    }
    proof {
        assert(v@ =~= old(v)@ + src@);
    }
}

/// Copy `n` bytes of `src` starting at `at` into a fresh vector.
fn copy_bytes(src: &Vec<u8>, at: usize, n: usize) -> (v: Vec<u8>)
    requires
        at + n <= src@.len(),
    ensures
        v@ == src@.subrange(at as int, at as int + n as int),
{
    let total = src.len();
    let mut v: Vec<u8> = Vec::new();
    let mut i: usize = 0;
    while i < n
        invariant
            i <= n,
            at + n <= src@.len(),
            src@.len() <= usize::MAX,
            v@ == src@.subrange(at as int, at as int + i as int),
        decreases n - i,
    {
        v.push(src[at + i]);
        proof {
            assert(v@ =~= src@.subrange(at as int, at as int + i + 1));
        }
        i = i + 1;
    }
    v
}

} // verus!
