//! Drawing routines that consume the video-mode contract.
//!
//! A rainbow is six horizontal bands of equal thickness, centred
//! vertically: red, orange, yellow, green, blue, violet, top to bottom.
//! [`rainbow`] paints it with direct colours on any 16-bit mode;
//! [`rainbow2`] paints it on a palette mode, loading the band colours into
//! palette entries one through six and writing the entry numbers as
//! pixels.

use vstd::prelude::*;

use crate::bitmap::{BitmapMode, PalletMode};
use crate::colour::{blue, green, orange, packed, red, violet, yellow, Colour, MAX};

verus! {

/// The number of bands in the rainbow.
pub const RAINBOW_LEN: usize = 6;

/// The packed colour of rainbow band `c`: red, orange, yellow, green,
/// blue, violet, top to bottom.
pub open spec fn rainbow_colour(c: int) -> u16 {
    if c == 0 {
        packed(MAX, 0, 0)
    } else if c == 1 {
        packed(MAX, MAX / 2, 0)
    } else if c == 2 {
        packed(MAX, MAX, 0)
    } else if c == 3 {
        packed(0, MAX, 0)
    } else if c == 4 {
        packed(0, 0, MAX)
    } else {
        packed(MAX / 2, 0, MAX)
    }
}

/// The first banded row: the six bands of thickness `t` are centred in `h`
/// rows.
pub open spec fn rainbow_start(h: int, t: int) -> int {
    h / 2 - 3 * t
}

/// The image left by painting a rainbow of band thickness `t` over `base`,
/// an image of `w` columns and `h` rows stored row-major: each banded row
/// carries its band's colour, every other pixel keeps its value.
pub open spec fn rainbow_pattern(base: Seq<u16>, w: int, h: int, t: int) -> Seq<u16> {
    Seq::new(
        base.len(),
        |i: int|
            if rainbow_start(h, t) <= i / w < rainbow_start(h, t) + 6 * t {
                rainbow_colour((i / w - rainbow_start(h, t)) / t)
            } else {
                base[i]
            },
    )
}

/// As `rainbow_pattern`, but each banded row carries its band's palette
/// entry number, one through six.
pub open spec fn rainbow_index_pattern(base: Seq<u8>, w: int, h: int, t: int) -> Seq<u8> {
    Seq::new(
        base.len(),
        |i: int|
            if rainbow_start(h, t) <= i / w < rainbow_start(h, t) + 6 * t {
                ((i / w - rainbow_start(h, t)) / t + 1) as u8
            } else {
                base[i]
            },
    )
}

/// The palette left by loading the band colours: entries one through six
/// hold the rainbow, every other entry keeps its value.
pub open spec fn rainbow_palette(base: Seq<u16>) -> Seq<u16> {
    Seq::new(
        base.len(),
        |j: int|
            if 1 <= j <= 6 {
                rainbow_colour(j - 1)
            } else {
                base[j]
            },
    )
}

/// The image while the rainbow is being painted: pixels before the
/// frontier `f` that lie in a banded row already carry their band's
/// colour; everything else keeps its value. Painting proceeds row-major,
/// top band first, so the banded pixels below `f` are exactly the painted
/// ones.
spec fn rainbow_prefix(base: Seq<u16>, w: int, h: int, t: int, f: int) -> Seq<u16> {
    Seq::new(
        base.len(),
        |i: int|
            if i < f && rainbow_start(h, t) <= i / w {
                rainbow_colour((i / w - rainbow_start(h, t)) / t)
            } else {
                base[i]
            },
    )
}

/// As `rainbow_prefix`, with palette entry numbers for pixels.
spec fn rainbow_index_prefix(base: Seq<u8>, w: int, h: int, t: int, f: int) -> Seq<u8> {
    Seq::new(
        base.len(),
        |i: int|
            if i < f && rainbow_start(h, t) <= i / w {
                ((i / w - rainbow_start(h, t)) / t + 1) as u8
            } else {
                base[i]
            },
    )
}

/// The index `r * w + x` sits in row `r` of a `w`-column image.
proof fn lemma_row_of_index(r: int, x: int, w: int)
    requires
        0 < w,
        0 <= x < w,
    ensures
        (r * w + x) / w == r,
{
    vstd::arithmetic::div_mod::lemma_fundamental_div_mod_converse(r * w + x, w, r, x);
}

/// A row offset inside band `c` divides down to `c`.
proof fn lemma_band_of_row(c: int, d: int, t: int)
    requires
        0 < t,
        0 <= d < t,
    ensures
        (c * t + d) / t == c,
{
    vstd::arithmetic::div_mod::lemma_fundamental_div_mod_converse(c * t + d, t, c, d);
}

/// An index below the first cell of row `r` sits in an earlier row, and an
/// index in an earlier row sits below the first cell of row `r`.
proof fn lemma_row_frontier(i: int, r: int, w: int)
    requires
        0 < w,
        0 <= i,
    ensures
        i < r * w ==> i / w < r,
        i / w < r ==> i < r * w,
{
    vstd::arithmetic::div_mod::lemma_fundamental_div_mod(i, w);
    vstd::arithmetic::div_mod::lemma_mod_bound(i, w);
    let q = i / w;
    let m = i % w;
    assert((i < r * w ==> q < r) && (q < r ==> i < r * w)) by (nonlinear_arith)
        requires
            i == w * q + m,
            0 <= m < w,
            0 < w,
    ;
}

/// Build the band colours, brightest to violet, as six values.
fn rainbow_colours() -> (v: Vec<Colour>)
    ensures
        v@.len() == 6,
        forall|c: int| 0 <= c < 6 ==> v@[c]@ == rainbow_colour(c),
{
    let mut v: Vec<Colour> = Vec::new();
    v.push(red());
    v.push(orange());
    v.push(yellow());
    v.push(green());
    v.push(blue());
    v.push(violet());
    v
}

/// Draw a rainbow with the given band `thickness` on `g`, painting the
/// band colours directly. The six bands must fit the mode's rows.
pub fn rainbow<T: BitmapMode<u16>>(g: &mut T, thickness: usize)
    requires
        old(g).wf(),
        6 * thickness <= T::height(),
    ensures
        final(g).wf(),
        final(g).draw() == rainbow_pattern(
            old(g).draw(),
            T::width() as int,
            T::height() as int,
            thickness as int,
        ),
        T::set_rest(*old(g), *final(g)),
{
    let colours = rainbow_colours();
    let b = g.bounds();
    let w = b.0;
    let h = b.1;
    proof {
        T::wf_facts(*old(g));
        T::set_rest_refl(*old(g));
    }
    let start = h / 2 - colours.len() * thickness / 2;
    let ghost w_i = w as int;
    let ghost h_i = h as int;
    let ghost t_i = thickness as int;
    let ghost base = old(g).draw();
    proof {
        assert(start == rainbow_start(h_i, t_i));
        assert(base =~= rainbow_prefix(base, w_i, h_i, t_i, start as int * w_i)) by {
            assert forall|i: int| 0 <= i < base.len() implies #[trigger] rainbow_prefix(
                base,
                w_i,
                h_i,
                t_i,
                start as int * w_i,
            )[i] == base[i] by {
                lemma_row_frontier(i, start as int, w_i);
            }
        }
    }
    let mut c: usize = 0;
    while c < 6
        invariant
            old(g).wf(),
            g.wf(),
            c <= 6,
            6 * thickness <= h,
            w == T::width(),
            h == T::height(),
            w_i == w as int,
            h_i == h as int,
            t_i == thickness as int,
            base == old(g).draw(),
            base.len() == w_i * h_i,
            start as int == rainbow_start(h_i, t_i),
            0 <= start as int,
            start + 6 * thickness <= h,
            colours@.len() == 6,
            forall|k: int| 0 <= k < 6 ==> colours@[k]@ == rainbow_colour(k),
            T::set_rest(*old(g), *g),
            g.draw() == rainbow_prefix(base, w_i, h_i, t_i, (start + c * thickness) as int * w_i),
        decreases 6 - c,
    {
        let mut dy: usize = 0;
        while dy < thickness
            invariant
                old(g).wf(),
                g.wf(),
                c < 6,
                dy <= thickness,
                6 * thickness <= h,
                w == T::width(),
                h == T::height(),
                w_i == w as int,
                h_i == h as int,
                t_i == thickness as int,
                base == old(g).draw(),
                base.len() == w_i * h_i,
                start as int == rainbow_start(h_i, t_i),
                0 <= start as int,
                start + 6 * thickness <= h,
                colours@.len() == 6,
                forall|k: int| 0 <= k < 6 ==> colours@[k]@ == rainbow_colour(k),
                T::set_rest(*old(g), *g),
                g.draw() == rainbow_prefix(
                    base,
                    w_i,
                    h_i,
                    t_i,
                    (start + c * thickness + dy) as int * w_i,
                ),
            decreases thickness - dy,
        {
            proof {
                vstd::arithmetic::mul::lemma_mul_inequality(c as int, 5, thickness as int);
            }
            let row = start + c * thickness + dy;
            let mut x: usize = 0;
            while x < w
                invariant
                    old(g).wf(),
                    g.wf(),
                    c < 6,
                    dy < thickness,
                    x <= w,
                    6 * thickness <= h,
                    w == T::width(),
                    h == T::height(),
                    w_i == w as int,
                    h_i == h as int,
                    t_i == thickness as int,
                    base == old(g).draw(),
                    base.len() == w_i * h_i,
                    start as int == rainbow_start(h_i, t_i),
                    0 <= start as int,
                    start + 6 * thickness <= h,
                    row == start + c * thickness + dy,
                    colours@.len() == 6,
                    forall|k: int| 0 <= k < 6 ==> colours@[k]@ == rainbow_colour(k),
                    T::set_rest(*old(g), *g),
                    g.draw() == rainbow_prefix(base, w_i, h_i, t_i, row as int * w_i + x as int),
                decreases w - x,
            {
                let ghost pre = *g;
                let ghost f = row as int * w_i + x as int;
                proof {
                    vstd::arithmetic::mul::lemma_mul_inequality(c as int, 5, thickness as int);
                }
                g.set(x, row, colours[c].u16());
                proof {
                    T::set_rest_trans(*old(g), pre, *g);
                    vstd::arithmetic::mul::lemma_mul_inequality(c as int, 5, thickness as int);
                    lemma_row_of_index(row as int, x as int, w_i);
                    lemma_row_frontier(f, h_i, w_i);
                    lemma_band_of_row(c as int, dy as int, t_i);
                    assert forall|i: int| 0 <= i < base.len() implies #[trigger] rainbow_prefix(
                        base,
                        w_i,
                        h_i,
                        t_i,
                        f + 1,
                    )[i] == pre.draw().update(f, rainbow_colour(c as int))[i] by {
                        if i != f {
                            assert(rainbow_prefix(base, w_i, h_i, t_i, f + 1)[i] == rainbow_prefix(
                                base,
                                w_i,
                                h_i,
                                t_i,
                                f,
                            )[i]);
                        }
                    }
                    assert(g.draw() =~= rainbow_prefix(base, w_i, h_i, t_i, f + 1));
                }
                x = x + 1;
            }
            proof {
                assert((row as int + 1) * w_i == row as int * w_i + w_i) by (nonlinear_arith);
                assert((start + c * thickness + (dy + 1)) as int * w_i == row as int * w_i
                    + w_i);
            }
            dy = dy + 1;
        }
        proof {
            assert((c as int + 1) * t_i == c as int * t_i + t_i) by (nonlinear_arith);
        }
        c = c + 1;
    }
    proof {
        let f = (start + 6 * thickness) as int * w_i;
        assert forall|i: int| 0 <= i < base.len() implies #[trigger] rainbow_prefix(
            base,
            w_i,
            h_i,
            t_i,
            f,
        )[i] == rainbow_pattern(base, w_i, h_i, t_i)[i] by {
            lemma_row_frontier(i, (start + 6 * thickness) as int, w_i);
        }
        assert(g.draw() =~= rainbow_pattern(base, w_i, h_i, t_i));
    }
}

/// Draw a rainbow with the given band `thickness` on the palette mode `g`:
/// load the band colours into palette entries one through six, then paint
/// each band with its entry number. The six bands must fit the mode's
/// rows, and the palette must reach entry six.
pub fn rainbow2<T: BitmapMode<u8> + PalletMode<u16>>(g: &mut T, thickness: usize)
    requires
        old(g).wf(),
        6 * thickness <= T::height(),
        7 <= old(g).palette().len(),
    ensures
        final(g).wf(),
        final(g).palette() == rainbow_palette(old(g).palette()),
        final(g).draw() == rainbow_index_pattern(
            old(g).draw(),
            T::width() as int,
            T::height() as int,
            thickness as int,
        ),
        T::shared_rest(*old(g), *final(g)),
{
    let colours = rainbow_colours();
    proof {
        T::shared_rest_refl(*old(g));
    }
    let ghost pal_base = old(g).palette();
    let mut i: usize = 0;
    while i < 6
        invariant
            old(g).wf(),
            g.wf(),
            i <= 6,
            pal_base == old(g).palette(),
            7 <= pal_base.len(),
            colours@.len() == 6,
            forall|k: int| 0 <= k < 6 ==> colours@[k]@ == rainbow_colour(k),
            T::shared_rest(*old(g), *g),
            g.draw() == old(g).draw(),
            g.palette() == Seq::new(
                pal_base.len(),
                |j: int|
                    if 1 <= j < i + 1 {
                        rainbow_colour(j - 1)
                    } else {
                        pal_base[j]
                    },
            ),
        decreases 6 - i,
    {
        let ghost pre = *g;
        g.set_pallet(i + 1, colours[i].u16());
        proof {
            T::pal_rest_shared(pre, *g);
            T::shared_rest_trans(*old(g), pre, *g);
            assert(g.palette() =~= Seq::new(
                pal_base.len(),
                |j: int|
                    if 1 <= j < i + 2 {
                        rainbow_colour(j - 1)
                    } else {
                        pal_base[j]
                    },
            ));
        }
        i = i + 1;
    }
    proof {
        assert(g.palette() =~= rainbow_palette(pal_base));
    }
    let ghost mid = *g;
    let b = g.bounds();
    let w = b.0;
    let h = b.1;
    proof {
        T::wf_facts(mid);
        T::set_rest_refl(mid);
    }
    let start = h / 2 - colours.len() * thickness / 2;
    let ghost w_i = w as int;
    let ghost h_i = h as int;
    let ghost t_i = thickness as int;
    let ghost base = old(g).draw();
    proof {
        assert(start == rainbow_start(h_i, t_i));
        assert(base =~= rainbow_index_prefix(base, w_i, h_i, t_i, start as int * w_i)) by {
            assert forall|k: int| 0 <= k < base.len() implies #[trigger] rainbow_index_prefix(
                base,
                w_i,
                h_i,
                t_i,
                start as int * w_i,
            )[k] == base[k] by {
                lemma_row_frontier(k, start as int, w_i);
            }
        }
    }
    let mut c: usize = 0;
    while c < 6
        invariant
            old(g).wf(),
            g.wf(),
            mid.wf(),
            c <= 6,
            6 * thickness <= h,
            w == T::width(),
            h == T::height(),
            w_i == w as int,
            h_i == h as int,
            t_i == thickness as int,
            base == old(g).draw(),
            base == mid.draw(),
            base.len() == w_i * h_i,
            start as int == rainbow_start(h_i, t_i),
            0 <= start as int,
            start + 6 * thickness <= h,
            T::set_rest(mid, *g),
            T::shared_rest(*old(g), mid),
            g.palette() == rainbow_palette(old(g).palette()),
            g.draw() == rainbow_index_prefix(
                base,
                w_i,
                h_i,
                t_i,
                (start + c * thickness) as int * w_i,
            ),
        decreases 6 - c,
    {
        let mut dy: usize = 0;
        while dy < thickness
            invariant
                old(g).wf(),
                g.wf(),
                mid.wf(),
                c < 6,
                dy <= thickness,
                6 * thickness <= h,
                w == T::width(),
                h == T::height(),
                w_i == w as int,
                h_i == h as int,
                t_i == thickness as int,
                base == old(g).draw(),
                base == mid.draw(),
                base.len() == w_i * h_i,
                start as int == rainbow_start(h_i, t_i),
                0 <= start as int,
                start + 6 * thickness <= h,
                T::set_rest(mid, *g),
                T::shared_rest(*old(g), mid),
                g.palette() == rainbow_palette(old(g).palette()),
                g.draw() == rainbow_index_prefix(
                    base,
                    w_i,
                    h_i,
                    t_i,
                    (start + c * thickness + dy) as int * w_i,
                ),
            decreases thickness - dy,
        {
            proof {
                vstd::arithmetic::mul::lemma_mul_inequality(c as int, 5, thickness as int);
            }
            let row = start + c * thickness + dy;
            let mut x: usize = 0;
            while x < w
                invariant
                    old(g).wf(),
                    g.wf(),
                    mid.wf(),
                    c < 6,
                    dy < thickness,
                    x <= w,
                    6 * thickness <= h,
                    w == T::width(),
                    h == T::height(),
                    w_i == w as int,
                    h_i == h as int,
                    t_i == thickness as int,
                    base == old(g).draw(),
                    base == mid.draw(),
                    base.len() == w_i * h_i,
                    start as int == rainbow_start(h_i, t_i),
                    0 <= start as int,
                    start + 6 * thickness <= h,
                    row == start + c * thickness + dy,
                    T::set_rest(mid, *g),
                    T::shared_rest(*old(g), mid),
                    g.palette() == rainbow_palette(old(g).palette()),
                    g.draw() == rainbow_index_prefix(
                        base,
                        w_i,
                        h_i,
                        t_i,
                        row as int * w_i + x as int,
                    ),
                decreases w - x,
            {
                let ghost pre = *g;
                let ghost f = row as int * w_i + x as int;
                proof {
                    vstd::arithmetic::mul::lemma_mul_inequality(c as int, 5, thickness as int);
                }
                let ix = c + 1;
                g.set(x, row, ix as u8);
                proof {
                    T::set_rest_trans(mid, pre, *g);
                    T::set_rest_palette(pre, *g);
                    vstd::arithmetic::mul::lemma_mul_inequality(c as int, 5, thickness as int);
                    lemma_row_of_index(row as int, x as int, w_i);
                    lemma_row_frontier(f, h_i, w_i);
                    lemma_band_of_row(c as int, dy as int, t_i);
                    assert forall|k: int| 0 <= k < base.len()
                        implies #[trigger] rainbow_index_prefix(
                        base,
                        w_i,
                        h_i,
                        t_i,
                        f + 1,
                    )[k] == pre.draw().update(f, (c + 1) as u8)[k] by {
                        if k != f {
                            assert(rainbow_index_prefix(base, w_i, h_i, t_i, f + 1)[k]
                                == rainbow_index_prefix(base, w_i, h_i, t_i, f)[k]);
                        }
                    }
                    assert(g.draw() =~= rainbow_index_prefix(base, w_i, h_i, t_i, f + 1));
                }
                x = x + 1;
            }
            proof {
                assert((row as int + 1) * w_i == row as int * w_i + w_i) by (nonlinear_arith);
                assert((start + c * thickness + (dy + 1)) as int * w_i == row as int * w_i
                    + w_i);
            }
            dy = dy + 1;
        }
        proof {
            assert((c as int + 1) * t_i == c as int * t_i + t_i) by (nonlinear_arith);
        }
        c = c + 1;
    }
    proof {
        let f = (start + 6 * thickness) as int * w_i;
        assert forall|k: int| 0 <= k < base.len() implies #[trigger] rainbow_index_prefix(
            base,
            w_i,
            h_i,
            t_i,
            f,
        )[k] == rainbow_index_pattern(base, w_i, h_i, t_i)[k] by {
            lemma_row_frontier(k, (start + 6 * thickness) as int, w_i);
        }
        assert(g.draw() =~= rainbow_index_pattern(base, w_i, h_i, t_i));
        T::set_rest_palette(mid, *g);
        T::shared_rest_trans(*old(g), mid, *g);
    }
}

} // verus!
