use gba_core::bitmap::{BitmapMode, Mode3, Mode4, Mode5, PalletMode, SwapBuffer};
use gba_core::colour::{self, Colour};
use gba_core::graphics::Graphics;
use gba_core::helpers::{rainbow, rainbow2};
use gba_core::register::{Register, Word};

#[test]
fn register_masked_round_trip() {
    let r: Register<u16> = Register::new(0x0400_0000);
    let r = r.zero().set_masked(5, 0x1F, 0x07);
    assert_eq!(r.get_masked(5, 0x1F), 0x07);
    assert_eq!(r.get_masked(0, 0x1F), 0);
    let r = r.set_masked(5, 0x1F, 0xFF);
    assert_eq!(r.get_masked(5, 0x1F), 0x1F);
}

#[test]
fn register_masked_round_trip_wide() {
    let r: Register<u32> = Register::new(0x0400_0000);
    let r = r.zero().set_masked(16, 0xFFFF, 0xABCD);
    assert_eq!(r.get_masked(16, 0xFFFF), 0xABCD);
    assert_eq!(r.get_masked(0, 0xFFFF), 0);
}

#[test]
fn register_bit_round_trip() {
    let r: Register<u16> = Register::new(0x0400_0000);
    let r = r.set(0x0A0A);
    let set = r.set_bit(4, true);
    assert!(set.get_bit(4));
    assert!(set.get_bit(1));
    assert!(!set.get_bit(0));
    let cleared = r.set_bit(1, false);
    assert!(!cleared.get_bit(1));
    assert!(cleared.get_bit(3));
    assert!(!cleared.get_bit(0));
}

#[test]
fn register_stages_until_write() {
    let r: Register<u16> = Register::new(0x0400_0000);
    let staged = r.set(0x1234);
    assert_eq!(staged.read().get_masked(0, 0xFFFF), 0);
    let written = staged.write();
    assert_eq!(written.read().get_masked(0, 0xFFFF), 0x1234);
}

#[test]
fn register_word_operations() {
    let r: Register<u16> = Register::new(0x0400_0000);
    let r = r.set(0xFF00).and(0x0F0F);
    assert_eq!(r.get_masked(0, 0xFFFF), 0x0F00);
    let r = r.or(0x0011);
    assert_eq!(r.get_masked(0, 0xFFFF), 0x0F11);
    let r = r.clear(0x0F00);
    assert_eq!(r.get_masked(0, 0xFFFF), 0x0011);
}

#[test]
fn word_wrapping_arithmetic() {
    assert_eq!(0xFFFFu16.wadd(1), 0);
    assert_eq!(0u16.wsub(1), 0xFFFF);
    assert_eq!(0xFFFF_FFFFu32.wadd(2), 1);
    assert!(5u16.eq_word(5));
    assert!(!5u16.eq_word(6));
}

#[test]
fn colour_packs_channels() {
    assert_eq!(Colour::rgb(0x1F, 0, 0).u16(), 0x001F);
    assert_eq!(Colour::rgb(0, 0x1F, 0).u16(), 0x03E0);
    assert_eq!(Colour::rgb(0, 0, 0x1F).u16(), 0x7C00);
    assert_eq!(Colour::rgb(0x1F, 0x1F, 0x1F).u16(), 0x7FFF);
    assert_eq!(Colour::rgb(0, 0, 0).u16(), 0);
}

#[test]
fn colour_formula_holds_for_wide_inputs() {
    for &r in &[0u8, 1, 31, 32, 100, 255] {
        for &g in &[0u8, 15, 31, 64, 200] {
            for &b in &[0u8, 7, 31, 33, 255] {
                let expect = ((r & 0x1F) as u16)
                    | (((g & 0x1F) as u16) << 5)
                    | (((b & 0x1F) as u16) << 10);
                assert_eq!(Colour::rgb(r, g, b).u16(), expect);
            }
        }
    }
}

#[test]
fn colour_new_wraps_raw_word() {
    assert_eq!(Colour::new(0x1234).u16(), 0x1234);
}

#[test]
fn colour_constants() {
    assert_eq!(colour::red().u16(), 0x001F);
    assert_eq!(colour::green().u16(), 0x03E0);
    assert_eq!(colour::blue().u16(), 0x7C00);
    assert_eq!(colour::white().u16(), 0x7FFF);
    assert_eq!(colour::black().u16(), 0x0000);
    assert_eq!(colour::orange().u16(), 0x01FF);
    assert_eq!(colour::yellow().u16(), 0x03FF);
    assert_eq!(colour::violet().u16(), 0x7C0F);
}

#[test]
fn mode3_bounds_and_pixels() {
    let mut m = Mode3::new();
    m.enable();
    assert_eq!(m.bounds(), (240, 160, 16));
    m.set(0, 0, 0x7FFF);
    m.set(239, 159, 0x001F);
    assert_eq!(m.get(0, 0), 0x7FFF);
    assert_eq!(m.get(239, 159), 0x001F);
    assert_eq!(m.get(1, 0), 0);
    m.swap();
    assert_eq!(m.get(0, 0), 0x7FFF);
}

#[test]
fn mode3_clear_zeroes_every_pixel() {
    let mut m = Mode3::new();
    m.set(7, 9, 0x1234);
    m.clear();
    assert_eq!(m.get(7, 9), 0);
    assert_eq!(m.get(0, 0), 0);
    assert_eq!(m.get(239, 159), 0);
}

#[test]
fn mode4_bounds() {
    let m = Mode4::new();
    assert_eq!(m.bounds(), (240, 160, 8));
}

#[test]
fn mode4_set_then_get_and_sibling_unchanged() {
    let mut m = Mode4::new();
    m.enable();
    m.set(11, 20, 9);
    m.set(10, 20, 7);
    assert_eq!(m.get(10, 20), 7);
    assert_eq!(m.get(11, 20), 9);
    m.set(11, 20, 5);
    assert_eq!(m.get(10, 20), 7);
    assert_eq!(m.get(11, 20), 5);
}

#[test]
fn mode4_swap_twice_restores_selector() {
    let mut m = Mode4::new();
    m.enable();
    assert_eq!(m.active_buffer(), SwapBuffer::A);
    m.set(5, 5, 3);
    m.swap();
    assert_eq!(m.active_buffer(), SwapBuffer::B);
    assert_eq!(m.get(5, 5), 0);
    m.swap();
    assert_eq!(m.active_buffer(), SwapBuffer::A);
    assert_eq!(m.get(5, 5), 3);
}

#[test]
fn mode4_palette() {
    let mut m = Mode4::new();
    m.set_pallet(1, 0x7FFF);
    m.set_pallet(255, 0x001F);
    assert_eq!(m.get_pallet(1), 0x7FFF);
    assert_eq!(m.get_pallet(255), 0x001F);
    assert_eq!(m.get_pallet(0), 0);
}

#[test]
fn mode4_vblank_reads_status_bit() {
    let mut m = Mode4::new();
    assert!(!m.vblank());
}

#[test]
fn mode4_clear_zeroes_drawing_buffer() {
    let mut m = Mode4::new();
    m.set(0, 0, 1);
    m.set(239, 159, 2);
    m.clear();
    assert_eq!(m.get(0, 0), 0);
    assert_eq!(m.get(239, 159), 0);
}

#[test]
fn mode5_bounds_and_swap() {
    let mut m = Mode5::new();
    m.enable();
    assert_eq!(m.bounds(), (160, 128, 16));
    assert_eq!(m.active_buffer(), SwapBuffer::A);
    m.set(159, 127, 0x1234);
    assert_eq!(m.get(159, 127), 0x1234);
    m.swap();
    assert_eq!(m.active_buffer(), SwapBuffer::B);
    assert_eq!(m.get(159, 127), 0);
    m.swap();
    assert_eq!(m.get(159, 127), 0x1234);
}

#[test]
fn graphics_owns_one_mode() {
    let mut g = Graphics::<Mode3>::new();
    g.active().set(3, 4, 0x7FFF);
    assert_eq!(g.active().get(3, 4), 0x7FFF);
    let mut g = g.mode4();
    assert_eq!(g.active().bounds(), (240, 160, 8));
    assert_eq!(g.active().active_buffer(), SwapBuffer::A);
    let mut g = g.mode5();
    assert_eq!(g.active().bounds(), (160, 128, 16));
}

#[test]
fn rainbow_paints_centred_bands() {
    let mut m = Mode3::new();
    rainbow(&mut m, 10);
    // 160 rows, six bands of 10: rows 50 through 109.
    assert_eq!(m.get(0, 49), 0);
    assert_eq!(m.get(0, 50), 0x001F);
    assert_eq!(m.get(120, 59), 0x001F);
    assert_eq!(m.get(0, 60), 0x01FF);
    assert_eq!(m.get(0, 70), 0x03FF);
    assert_eq!(m.get(0, 80), 0x03E0);
    assert_eq!(m.get(0, 90), 0x7C00);
    assert_eq!(m.get(239, 109), 0x7C0F);
    assert_eq!(m.get(0, 110), 0);
}

#[test]
fn rainbow2_loads_palette_and_paints_indices() {
    let mut m = Mode4::new();
    rainbow2(&mut m, 5);
    assert_eq!(m.get_pallet(1), 0x001F);
    assert_eq!(m.get_pallet(2), 0x01FF);
    assert_eq!(m.get_pallet(3), 0x03FF);
    assert_eq!(m.get_pallet(4), 0x03E0);
    assert_eq!(m.get_pallet(5), 0x7C00);
    assert_eq!(m.get_pallet(6), 0x7C0F);
    assert_eq!(m.get_pallet(0), 0);
    // 160 rows, six bands of 5: rows 65 through 94.
    assert_eq!(m.get(0, 64), 0);
    assert_eq!(m.get(0, 65), 1);
    assert_eq!(m.get(10, 70), 2);
    assert_eq!(m.get(10, 75), 3);
    assert_eq!(m.get(10, 80), 4);
    assert_eq!(m.get(10, 85), 5);
    assert_eq!(m.get(10, 94), 6);
    assert_eq!(m.get(10, 95), 0);
}
