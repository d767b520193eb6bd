use gba_core::header::{header_complement, logo, Header, HEADER_SIZE, LOGO_SIZE};
use gba_core::input::{Keys, IO};

fn blank_image() -> Vec<u8> {
    vec![0u8; HEADER_SIZE]
}

#[test]
fn complement_of_single_byte_span() {
    // All-zero bytes from offset 0xA0 through 0xBC except 0x10 at 0xA0:
    // the complement must be NOT(0x19 + 0x10) + 1 = 0xD7.
    let mut image = blank_image();
    image[0xA0] = 0x10;
    let header = Header::from_bytes(&image);
    assert_eq!(header_complement(&header), 0xD7);
}

#[test]
fn complement_of_blank_header() {
    let header = Header::from_bytes(&blank_image());
    // NOT(0x19) + 1 over a zero sum.
    assert_eq!(header_complement(&header), (!0x19u8).wrapping_add(1));
}

#[test]
fn complement_ignores_checksum_byte() {
    let mut image = blank_image();
    image[0xA0] = 0x42;
    let plain = Header::from_bytes(&image);
    image[0xBC] = 0x99;
    let with_checksum = Header::from_bytes(&image);
    assert_eq!(header_complement(&plain), header_complement(&with_checksum));
}

#[test]
fn fix_restores_known_good_fields() {
    let mut image = Vec::new();
    for i in 0..HEADER_SIZE {
        image.push((i as u8).wrapping_mul(31).wrapping_add(7));
    }
    let mut header = Header::from_bytes(&image);
    header.fix();
    assert_eq!(header.logo, logo());
    assert_eq!(header.fixed, 0x96);
    assert_eq!(header.device_type, 0x80);
    assert_eq!(header.checksum, 0);
    // The title and codes keep their original bytes.
    assert_eq!(header.title.as_slice(), &image[0xA0..0xAC]);
    assert_eq!(header.game_code.as_slice(), &image[0xAC..0xB0]);
    assert_eq!(header.maker_code.as_slice(), &image[0xB0..0xB2]);
    // The complement matches a recomputation over the corrected bytes.
    let bytes = header.to_bytes();
    let mut sum: u8 = 0;
    for i in 0xA0..0xBD {
        if i != 0xBC {
            sum = sum.wrapping_add(bytes[i]);
        }
    }
    let expect = (!(0x19u8.wrapping_add(sum))).wrapping_add(1);
    assert_eq!(header.complement, expect);
}

#[test]
fn default_header_is_well_formed() {
    let header = Header::default();
    assert_eq!(header.logo, logo());
    assert_eq!(header.logo.len(), LOGO_SIZE);
    assert_eq!(header.fixed, 0x96);
    assert_eq!(header.device_type, 0x80);
    assert_eq!(header.checksum, 0);
    assert_eq!(header.complement, 0);
    assert!(header.title.iter().all(|&b| b == 0));
}

#[test]
fn header_bytes_round_trip() {
    let mut image = Vec::new();
    for i in 0..HEADER_SIZE {
        image.push((i as u8).wrapping_mul(13).wrapping_add(5));
    }
    let header = Header::from_bytes(&image);
    assert_eq!(header.to_bytes(), image);
}

#[test]
fn header_image_layout() {
    let header = Header::default();
    let bytes = header.to_bytes();
    assert_eq!(bytes.len(), HEADER_SIZE);
    assert_eq!(&bytes[0x04..0xA0], logo().as_slice());
    assert_eq!(bytes[0xB2], 0x96);
    assert_eq!(bytes[0xB4], 0x80);
}

#[test]
fn logo_has_fixed_length() {
    assert_eq!(logo().len(), LOGO_SIZE);
    assert_eq!(logo()[0], 0x24);
    assert_eq!(logo()[LOGO_SIZE - 1], 0x07);
}

#[test]
fn input_press_and_release() {
    let mut io = IO::new();
    assert!(!io.is_pressed(Keys::A));
    // The device holds a clear bit for a held button: press A.
    io.update(0xFFFF & !0x0001);
    assert!(io.is_pressed(Keys::A));
    assert!(io.toggled(Keys::A));
    assert!(io.pressed(Keys::A));
    assert!(!io.released(Keys::A));
    assert!(!io.is_pressed(Keys::B));
    // Hold A across the next poll: still pressed, no longer toggled.
    io.update(0xFFFF & !0x0001);
    assert!(io.is_pressed(Keys::A));
    assert!(!io.toggled(Keys::A));
    assert!(!io.pressed(Keys::A));
    // Let go: released exactly once.
    io.update(0xFFFF);
    assert!(!io.is_pressed(Keys::A));
    assert!(io.toggled(Keys::A));
    assert!(io.released(Keys::A));
    assert!(!io.pressed(Keys::A));
}

#[test]
fn input_distinguishes_keys() {
    let mut io = IO::new();
    // Press Start and L together.
    io.update(0xFFFF & !(0x0004 | 0x0100));
    assert!(io.pressed(Keys::Start));
    assert!(io.pressed(Keys::L));
    assert!(!io.pressed(Keys::A));
    assert!(!io.pressed(Keys::R));
    assert!(io.is_pressed(Keys::Start));
    assert!(!io.is_pressed(Keys::Select));
}
