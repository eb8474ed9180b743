//! Masks the usual face area of a selfie frame, so that the skin of the face is not
//! taken for a hand.
//!
//! The face area is the ellipse centred at `(0.5·w, 0.22·h)` with radii `0.36·w` and
//! `0.30·h`; a pixel `(x, y)` is tested at its centre `(x + 0.5, y + 0.5)`. The test is
//! done exactly in integers, scaled by 100.
use vstd::prelude::*;

verus! {

/// Largest frame area, in pixels, for which the exact ellipse test fits in 128 bits
/// (a mask of that many cells would take petabytes).
pub open spec fn max_area() -> int {
    0x10_0000_0000_0000
}

/// Whether the centre of pixel `(x, y)` of a `w`×`h` frame lies in the face ellipse.
/// Frames whose radii are below one pixel have no face area.
pub open spec fn face_ellipse_contains(x: int, y: int, w: int, h: int) -> bool {
    let dx = 100 * x + 50 - 50 * w;
    let dy = 100 * y + 50 - 22 * h;
    let rx = 36 * w;
    let ry = 30 * h;
    if rx < 100 || ry < 100 {
        false
    } else {
        dx * dx * (ry * ry) + dy * dy * (rx * rx) <= rx * rx * (ry * ry)
    }
}

/// The face-ellipse test for one pixel.
fn in_face_ellipse(x: usize, y: usize, w: usize, h: usize) -> (r: bool)
    requires
        x < w,
        y < h,
        w * h <= max_area(),
    ensures
        r == face_ellipse_contains(x as int, y as int, w as int, h as int),
{
    let rx: i128 = 36 * (w as i128);
    let ry: i128 = 30 * (h as i128);
    if rx < 100 || ry < 100 {
        return false;
    }
    let dx: i128 = 100 * (x as i128) + 50 - 50 * (w as i128);
    let dy: i128 = 100 * (y as i128) + 50 - 22 * (h as i128);
    let ax: i128 = if dx < 0 {
        -dx
    } else {
        dx
    };
    let ay: i128 = if dy < 0 {
        -dy
    } else {
        dy
    };
    if ax > rx || ay > ry {
        proof {
            lemma_outside_box(dx as int, dy as int, rx as int, ry as int);
        }
        return false;
    }
    proof {
        lemma_ellipse_terms_fit(ax as int, ay as int, rx as int, ry as int, w as int, h as int);
        assert(dx * dx == ax * ax) by (nonlinear_arith)
            requires
                ax == dx || ax == -dx,
        ;
        assert(dy * dy == ay * ay) by (nonlinear_arith)
            requires
                ay == dy || ay == -dy,
        ;
    }
    let a: i128 = ax * ry;
    let b: i128 = ay * rx;
    let c: i128 = rx * ry;
    a * a + b * b <= c * c
}

proof fn lemma_outside_box(dx: int, dy: int, rx: int, ry: int)
    requires
        rx >= 100,
        ry >= 100,
        dx > rx || -dx > rx || dy > ry || -dy > ry,
    ensures
        !(dx * dx * (ry * ry) + dy * dy * (rx * rx) <= rx * rx * (ry * ry)),
{
    assert(dx * dx * (ry * ry) >= 0) by (nonlinear_arith);
    assert(dy * dy * (rx * rx) >= 0) by (nonlinear_arith);
    if dx > rx || -dx > rx {
        assert(dx * dx > rx * rx) by (nonlinear_arith)
            requires
                dx > rx || -dx > rx,
                rx >= 100,
        ;
        assert(dx * dx * (ry * ry) > rx * rx * (ry * ry)) by (nonlinear_arith)
            requires
                dx * dx > rx * rx,
                ry >= 100,
        ;
    } else {
        assert(dy * dy > ry * ry) by (nonlinear_arith)
            requires
                dy > ry || -dy > ry,
                ry >= 100,
        ;
        assert(dy * dy * (rx * rx) > ry * ry * (rx * rx)) by (nonlinear_arith)
            requires
                dy * dy > ry * ry,
                rx >= 100,
        ;
        assert(ry * ry * (rx * rx) == rx * rx * (ry * ry)) by (nonlinear_arith);
    }
}

/// Within the bounding box of the ellipse the products `ax·ry`, `ay·rx`, `rx·ry` and
/// their squares fit in 128 bits, and the squared products are the terms of the test.
proof fn lemma_ellipse_terms_fit(ax: int, ay: int, rx: int, ry: int, w: int, h: int)
    requires
        0 <= ax <= rx,
        0 <= ay <= ry,
        rx == 36 * w,
        ry == 30 * h,
        0 <= w,
        0 <= h,
        w * h <= max_area(),
    ensures
        0 <= ax * ry <= rx * ry,
        0 <= ay * rx <= rx * ry,
        rx * ry < 0x7FFF_FFFF_FFFF_FFFF,
        (rx * ry) * (rx * ry) < 0x3FFF_FFFF_FFFF_FFFF_FFFF_FFFF_FFFF_FFFF,
        (ax * ry) * (ax * ry) <= (rx * ry) * (rx * ry),
        (ay * rx) * (ay * rx) <= (rx * ry) * (rx * ry),
        (ax * ry) * (ax * ry) == ax * ax * (ry * ry),
        (ay * rx) * (ay * rx) == ay * ay * (rx * rx),
        (rx * ry) * (rx * ry) == rx * rx * (ry * ry),
{
    assert(rx * ry == 1080 * (w * h)) by (nonlinear_arith)
        requires
            rx == 36 * w,
            ry == 30 * h,
    ;
    assert(0 <= ax * ry <= rx * ry) by (nonlinear_arith)
        requires
            0 <= ax <= rx,
            0 <= ry,
    ;
    assert(0 <= ay * rx <= rx * ry) by (nonlinear_arith)
        requires
            0 <= ay <= ry,
            0 <= rx,
    ;
    let c = rx * ry;
    assert(0 <= c <= 1080 * 0x10_0000_0000_0000) by (nonlinear_arith)
        requires
            c == 1080 * (w * h),
            0 <= w,
            0 <= h,
            w * h <= 0x10_0000_0000_0000,
    ;
    assert(c * c <= (1080 * 0x10_0000_0000_0000) * (1080 * 0x10_0000_0000_0000)) by (nonlinear_arith)
        requires
            0 <= c <= 1080 * 0x10_0000_0000_0000,
    ;
    assert((1080int * 0x10_0000_0000_0000) * (1080int * 0x10_0000_0000_0000)
        < 0x3FFF_FFFF_FFFF_FFFF_FFFF_FFFF_FFFF_FFFF);
    let a = ax * ry;
    let b = ay * rx;
    assert(a * a <= c * c) by (nonlinear_arith)
        requires
            0 <= a <= c,
    ;
    assert(b * b <= c * c) by (nonlinear_arith)
        requires
            0 <= b <= c,
    ;
    assert(a * a == ax * ax * (ry * ry)) by (nonlinear_arith)
        requires
            a == ax * ry,
    ;
    assert(b * b == ay * ay * (rx * rx)) by (nonlinear_arith)
        requires
            b == ay * rx,
    ;
    assert(c * c == rx * rx * (ry * ry)) by (nonlinear_arith)
        requires
            c == rx * ry,
    ;
}

/// The skin mask `m` (row-major, `w`×`h`) with the face area cleared.
pub open spec fn masked(m: Seq<bool>, w: int, h: int) -> Seq<bool> {
    Seq::new(
        m.len(),
        |i: int|
            if i < w * h {
                m[i] && !face_ellipse_contains(i % w, i / w, w, h)
            } else {
                m[i]
            },
    )
}

/// The RGB888 buffer `b` of a `w`×`h` frame with the face area blacked out.
pub open spec fn blacked_out(b: Seq<u8>, w: int, h: int) -> Seq<u8> {
    Seq::new(
        b.len(),
        |i: int|
            if blackout_pixel(i / 3, w, h, b.len() as int) {
                0u8
            } else {
                b[i]
            },
    )
}

/// Masking the face area twice is the same as masking it once.
pub proof fn lemma_masking_idempotent(m: Seq<bool>, w: int, h: int)
    ensures
        masked(masked(m, w, h), w, h) == masked(m, w, h),
{
    assert(masked(masked(m, w, h), w, h) =~= masked(m, w, h));
}

/// Blacking out the face area twice is the same as doing it once.
pub proof fn lemma_blackout_idempotent(b: Seq<u8>, w: int, h: int)
    ensures
        blacked_out(blacked_out(b, w, h), w, h) == blacked_out(b, w, h),
{
    assert(blacked_out(blacked_out(b, w, h), w, h) =~= blacked_out(b, w, h));
}

/// Whether a `w`×`h` frame has a face area at all: both radii reach one pixel.
pub open spec fn has_face_area(w: int, h: int) -> bool {
    36 * w >= 100 && 30 * h >= 100
}

/// Every pixel of the face area of a `w`×`h` frame has its cell among the first
/// `len` cells.
pub open spec fn face_cells_within(w: int, h: int, len: int) -> bool {
    forall|x: int, y: int|
        0 <= x < w && 0 <= y < h && #[trigger] face_ellipse_contains(x, y, w, h) ==> y * w + x < len
}

/// Clears the skin mask (row-major, `w`×`h`) inside the face area. The mask needs
/// to hold the cells of the face area only.
pub fn apply_to_skin_mask(mask: &mut [bool], w: usize, h: usize)
    requires
        has_face_area(w as int, h as int) ==> w * h <= max_area() && w * h <= usize::MAX,
        face_cells_within(w as int, h as int, old(mask)@.len() as int),
    ensures
        final(mask)@ == masked(old(mask)@, w as int, h as int),
{
    let ghost len = old(mask)@.len() as int;
    if w < 3 || h < 4 {
        assert(mask@ =~= masked(old(mask)@, w as int, h as int));
        return;
    }
    assert(has_face_area(w as int, h as int));
    let mut y: usize = 0;
    while y < h
        invariant
            y <= h,
            3 <= w,
            w * h <= max_area(),
            w * h <= usize::MAX,
            face_cells_within(w as int, h as int, len),
            len == old(mask)@.len(),
            mask@.len() == len,
            forall|i: int|
                0 <= i < len ==> #[trigger] mask@[i] == if i < w * y && face_ellipse_contains(
                    i % (w as int),
                    i / (w as int),
                    w as int,
                    h as int,
                ) {
                    false
                } else {
                    old(mask)@[i]
                },
        decreases h - y,
    {
        proof {
            lemma_row_bounds(w as int, h as int, y as int);
        }
        let mut x: usize = 0;
        while x < w
            invariant
                x <= w,
                y < h,
                3 <= w,
                w * h <= max_area(),
                w * h <= usize::MAX,
                face_cells_within(w as int, h as int, len),
                w * (y + 1) <= w * h,
                w * y + w == w * (y + 1),
                w * y >= 0,
                len == old(mask)@.len(),
                mask@.len() == len,
                forall|i: int|
                    0 <= i < len ==> #[trigger] mask@[i] == if i < w * y + x && face_ellipse_contains(
                        i % (w as int),
                        i / (w as int),
                        w as int,
                        h as int,
                    ) {
                        false
                    } else {
                        old(mask)@[i]
                    },
            decreases w - x,
        {
            proof {
                lemma_index_parts(w as int, y as int, x as int);
            }
            let inside = in_face_ellipse(x, y, w, h);
            if inside {
                assert(y * w + x < w * h);
                let idx = y * w + x;
                assert(face_ellipse_contains(x as int, y as int, w as int, h as int));
                mask[idx] = false;
            }
            proof {
                assert forall|i: int| 0 <= i < len implies #[trigger] mask@[i] == if i < w * y + x + 1
                    && face_ellipse_contains(i % (w as int), i / (w as int), w as int, h as int) {
                    false
                } else {
                    old(mask)@[i]
                } by {
                    if i == w * y + x {
                        assert(i % (w as int) == x && i / (w as int) == y);
                    }
                }
            }
            x += 1;
        }
        assert(w * y + w == w * (y + 1)) by (nonlinear_arith);
        y += 1;
    }
    assert(mask@ =~= masked(old(mask)@, w as int, h as int));
}

proof fn lemma_row_bounds(w: int, h: int, y: int)
    requires
        0 <= y < h,
        0 <= w,
    ensures
        w * (y + 1) <= w * h,
        w * y <= w * h,
        w * y + w == w * (y + 1),
        w * y >= 0,
{
    assert(w * y + w == w * (y + 1)) by (nonlinear_arith);
    assert(w * y >= 0) by (nonlinear_arith)
        requires
            0 <= y,
            0 <= w,
    ;
    assert(w * (y + 1) <= w * h) by (nonlinear_arith)
        requires
            0 <= y < h,
            0 <= w,
    ;
    assert(w * y <= w * (y + 1)) by (nonlinear_arith)
        requires
            0 <= w,
    ;
}

proof fn lemma_index_parts(w: int, y: int, x: int)
    requires
        0 <= x < w,
        0 <= y,
    ensures
        (y * w + x) % w == x,
        (y * w + x) / w == y,
        y * w + x == w * y + x,
{
    assert(y * w == w * y) by (nonlinear_arith);
    vstd::arithmetic::div_mod::lemma_fundamental_div_mod_converse(y * w + x, w, y, x);
}

/// Pixel `p` of a `w`×`h` frame lies in the face area and its three bytes lie within
/// a buffer of `len` bytes.
pub open spec fn blackout_pixel(p: int, w: int, h: int, len: int) -> bool {
    &&& 0 <= p < w * h
    &&& face_ellipse_contains(p % w, p / w, w, h)
    &&& 3 * p + 2 < len
}

/// Blacks out the pixels of an RGB888 frame (`w`×`h`, row-major) inside the face
/// area; pixels that lie beyond the end of the buffer are skipped.
pub fn apply_to_rgb8_blackout(rgb: &mut [u8], w: usize, h: usize)
    requires
        has_face_area(w as int, h as int) ==> w * h <= max_area() && w * h * 3 <= usize::MAX,
    ensures
        final(rgb)@ == blacked_out(old(rgb)@, w as int, h as int),
{
    let ghost len = old(rgb)@.len() as int;
    if w < 3 || h < 4 {
        assert(rgb@ =~= blacked_out(old(rgb)@, w as int, h as int));
        return;
    }
    assert(has_face_area(w as int, h as int));
    let mut y: usize = 0;
    while y < h
        invariant
            y <= h,
            w * h <= max_area(),
            w * h * 3 <= usize::MAX,
            len == old(rgb)@.len(),
            rgb@.len() == len,
            forall|i: int|
                0 <= i < len ==> #[trigger] rgb@[i] == if i / 3 < w * y && blackout_pixel(
                    i / 3,
                    w as int,
                    h as int,
                    len,
                ) {
                    0u8
                } else {
                    old(rgb)@[i]
                },
        decreases h - y,
    {
        proof {
            lemma_row_bounds(w as int, h as int, y as int);
        }
        let mut x: usize = 0;
        while x < w
            invariant
                x <= w,
                y < h,
                w * h <= max_area(),
                w * h * 3 <= usize::MAX,
                w * (y + 1) <= w * h,
                w * y + w == w * (y + 1),
                w * y >= 0,
                len == old(rgb)@.len(),
                rgb@.len() == len,
                forall|i: int|
                    0 <= i < len ==> #[trigger] rgb@[i] == if i / 3 < w * y + x && blackout_pixel(
                        i / 3,
                        w as int,
                        h as int,
                        len,
                    ) {
                        0u8
                    } else {
                        old(rgb)@[i]
                    },
            decreases w - x,
        {
            proof {
                lemma_index_parts(w as int, y as int, x as int);
            }
            let p = y * w + x;
            let inside = in_face_ellipse(x, y, w, h);
            if inside {
                let i = p * 3;
                if i + 2 < rgb.len() {
                    rgb[i] = 0;
                    rgb[i + 1] = 0;
                    rgb[i + 2] = 0;
                }
            }
            proof {
                assert forall|k: int| 0 <= k < len implies #[trigger] rgb@[k] == if k / 3 < w * y + x + 1
                    && blackout_pixel(k / 3, w as int, h as int, len) {
                    0u8
                } else {
                    old(rgb)@[k]
                } by {
                    if k / 3 == p {
                        assert(3 * p <= k <= 3 * p + 2);
                        assert((p as int) % (w as int) == x && (p as int) / (w as int) == y);
                        assert(p < w * h);
                    }
                }
            }
            x += 1;
        }
        assert(w * y + w == w * (y + 1)) by (nonlinear_arith);
        y += 1;
    }
    assert forall|i: int| 0 <= i < len implies (i / 3 < w * h || !#[trigger] blackout_pixel(i / 3, w as int, h as int, len)) by {}
    assert(rgb@ =~= blacked_out(old(rgb)@, w as int, h as int));
}

} // verus!
