//! Integer image operations on RGB888 buffers and boolean masks (row-major).
use vstd::prelude::*;

verus! {

/// Source coordinate sampled for target coordinate `t` when a side of `s` pixels is
/// scaled to `ts` pixels. Plain sampling takes `⌊t·s / ts⌋`; centred sampling takes
/// the pixel under the centre of the target pixel, `⌊(t + ½)·s / ts⌋`, clamped to
/// the last pixel.
pub open spec fn source_coord(t: int, s: int, ts: int, centred: bool) -> int {
    if centred {
        let c = ((2 * t + 1) * s) / (2 * ts);
        if c < s - 1 {
            c
        } else {
            s - 1
        }
    } else {
        (t * s) / ts
    }
}

/// Byte `d` of the `tw`×`th` nearest-neighbour resampling of the `w`×`h` image `rgb`.
/// A target pixel whose source pixel lies beyond the end of `rgb` stays black.
pub open spec fn resampled_byte(
    rgb: Seq<u8>,
    w: int,
    h: int,
    tw: int,
    th: int,
    centred: bool,
    d: int,
) -> u8 {
    let q = d / 3;
    let sx = source_coord(q % tw, w, tw, centred);
    let sy = source_coord(q / tw, h, th, centred);
    let si = (sy * w + sx) * 3;
    if si + 2 < rgb.len() {
        rgb[si + d % 3]
    } else {
        0u8
    }
}

/// The `tw`×`th` nearest-neighbour resampling of the `w`×`h` image `rgb`.
pub open spec fn resampled(rgb: Seq<u8>, w: int, h: int, tw: int, th: int, centred: bool) -> Seq<u8> {
    Seq::new((tw * th * 3) as nat, |d: int| resampled_byte(rgb, w, h, tw, th, centred, d))
}

proof fn lemma_grid_index(w: int, y: int, x: int)
    requires
        0 <= x < w,
        0 <= y,
    ensures
        (y * w + x) % w == x,
        (y * w + x) / w == y,
        y * w + x == w * y + x,
        w * y + w == w * (y + 1),
{
    assert(y * w == w * y) by (nonlinear_arith);
    assert(w * y + w == w * (y + 1)) by (nonlinear_arith);
    vstd::arithmetic::div_mod::lemma_fundamental_div_mod_converse(y * w + x, w, y, x);
}

proof fn lemma_row_fits(w: int, y: int, h: int)
    requires
        0 <= y < h,
        0 <= w,
    ensures
        w * (y + 1) <= w * h,
        0 <= w * y,
{
    assert(w * (y + 1) <= w * h) by (nonlinear_arith)
        requires
            0 <= y < h,
            0 <= w,
    ;
    assert(0 <= w * y) by (nonlinear_arith)
        requires
            0 <= y,
            0 <= w,
    ;
}

fn source_coord_exec(t: usize, s: usize, ts: usize, centred: bool) -> (r: usize)
    requires
        t < ts,
        ts * 3 <= usize::MAX,
        centred ==> s > 0,
    ensures
        r == source_coord(t as int, s as int, ts as int, centred),
        r < s || (s == 0 && r == 0),
{
    proof {
        lemma_product_fits((2 * t + 1) as int, s as int);
    }
    if centred {
        let num: u128 = (2 * (t as u128) + 1) * (s as u128);
        let c: u128 = num / (2 * (ts as u128));
        proof {
            assert((2 * t + 1) * s >= 0) by (nonlinear_arith)
                requires
                    s > 0,
            ;
        }
        if c < (s as u128) - 1 {
            c as usize
        } else {
            s - 1
        }
    } else {
        if s == 0 {
            assert(t * s == 0) by (nonlinear_arith)
                requires
                    s == 0,
            ;
            return 0;
        }
        proof {
            lemma_product_fits(t as int, s as int);
        }
        let num: u128 = (t as u128) * (s as u128);
        proof {
            assert(t * s < ts * s) by (nonlinear_arith)
                requires
                    t < ts,
                    s > 0,
            ;
            assert(ts * s == s * ts) by (nonlinear_arith);
            vstd::arithmetic::div_mod::lemma_multiply_divide_lt((t * s) as int, ts as int, s as int);
            assert(t * s >= 0) by (nonlinear_arith)
                requires
                    s > 0,
            ;
        }
        (num / (ts as u128)) as usize
    }
}

proof fn lemma_product_fits(a: int, b: int)
    requires
        0 <= a <= 0x1_0000_0000_0000_0000,
        0 <= b <= 0xFFFF_FFFF_FFFF_FFFF,
    ensures
        0 <= a * b < 0x1_0000_0000_0000_0000_0000_0000_0000_0000,
{
    assert(0 <= a * b <= 0x1_0000_0000_0000_0000 * 0xFFFF_FFFF_FFFF_FFFF) by (nonlinear_arith)
        requires
            0 <= a <= 0x1_0000_0000_0000_0000,
            0 <= b <= 0xFFFF_FFFF_FFFF_FFFF,
    ;
}

proof fn lemma_pixel_index_fits(sy: int, sx: int, w: int, h: int)
    requires
        0 <= sy < h || (h == 0 && sy == 0),
        0 <= sx < w || (w == 0 && sx == 0),
        0 <= w <= 0xFFFF_FFFF_FFFF_FFFF,
        0 <= h <= 0xFFFF_FFFF_FFFF_FFFF,
    ensures
        0 <= sy * w + sx < 0x1_0000_0000_0000_0000_0000_0000_0000_0000,
        0 <= sy * w,
{
    assert(0 <= sy * w) by (nonlinear_arith)
        requires
            0 <= sy,
            0 <= w,
    ;
    if w > 0 && h > 0 {
        assert(sy * w + sx <= (h - 1) * w + (w - 1)) by (nonlinear_arith)
            requires
                0 <= sy <= h - 1,
                0 <= sx <= w - 1,
                w > 0,
        ;
        assert((h - 1) * w + (w - 1) == h * w - 1) by (nonlinear_arith);
        assert(h * w <= 0xFFFF_FFFF_FFFF_FFFF * 0xFFFF_FFFF_FFFF_FFFF) by (nonlinear_arith)
            requires
                0 <= w <= 0xFFFF_FFFF_FFFF_FFFF,
                0 <= h <= 0xFFFF_FFFF_FFFF_FFFF,
        ;
    } else if w == 0 {
        assert(sy * w == 0) by (nonlinear_arith)
            requires
                w == 0,
        ;
    } else {
        assert(sy * w == 0) by (nonlinear_arith)
            requires
                sy == 0,
        ;
    }
}

/// Nearest-neighbour resampling of a `w`×`h` RGB888 image to `tw`×`th`.
pub fn resample_rgb(rgb: &[u8], w: usize, h: usize, tw: usize, th: usize, centred: bool) -> (r: Vec<u8>)
    requires
        tw * th * 3 <= usize::MAX,
        centred ==> w > 0 && h > 0,
    ensures
        r@ == resampled(rgb@, w as int, h as int, tw as int, th as int, centred),
{
    let len = tw * th * 3;
    let mut out: Vec<u8> = Vec::new();
    let mut k: usize = 0;
    while k < len
        invariant
            k <= len,
            out@.len() == k,
            forall|d: int| 0 <= d < k ==> #[trigger] out@[d] == 0u8,
        decreases len - k,
    {
        out.push(0u8);
        k += 1;
    }
    let n = rgb.len();
    let mut ty: usize = 0;
    while ty < th
        invariant
            ty <= th,
            centred ==> w > 0 && h > 0,
            n == rgb@.len(),
            len == tw * th * 3,
            tw * th * 3 <= usize::MAX,
            out@.len() == len,
            forall|d: int|
                0 <= d < len ==> #[trigger] out@[d] == if d / 3 < tw * ty {
                    resampled_byte(rgb@, w as int, h as int, tw as int, th as int, centred, d)
                } else {
                    0u8
                },
        decreases th - ty,
    {
        proof {
            lemma_row_fits(tw as int, ty as int, th as int);
        }
        let mut tx: usize = 0;
        while tx < tw
            invariant
                tx <= tw,
                ty < th,
                centred ==> w > 0 && h > 0,
                n == rgb@.len(),
                len == tw * th * 3,
                tw * th * 3 <= usize::MAX,
                tw * (ty + 1) <= tw * th,
                0 <= tw * ty,
                out@.len() == len,
                forall|d: int|
                    0 <= d < len ==> #[trigger] out@[d] == if d / 3 < tw * ty + tx {
                        resampled_byte(rgb@, w as int, h as int, tw as int, th as int, centred, d)
                    } else {
                        0u8
                    },
            decreases tw - tx,
        {
            proof {
                lemma_grid_index(tw as int, ty as int, tx as int);
            }
            proof {
                assert(tw * 3 <= tw * th * 3) by (nonlinear_arith)
                    requires
                        ty < th,
                        tw >= 0,
                ;
                assert(th * 3 <= tw * th * 3) by (nonlinear_arith)
                    requires
                        tx < tw,
                        th >= 0,
                ;
            }
            let sx = source_coord_exec(tx, w, tw, centred);
            let sy = source_coord_exec(ty, h, th, centred);
            let q: usize = ty * tw + tx;
            let di: usize = q * 3;
            proof {
                lemma_pixel_index_fits(sy as int, sx as int, w as int, h as int);
            }
            let p: u128 = (sy as u128) * (w as u128) + (sx as u128);
            proof {
                assert((p * 3 + 2 < n) == (p < n / 3));
            }
            if p < (n as u128) / 3 {
                let s = (p as usize) * 3;
                let b0 = rgb[s];
                let b1 = rgb[s + 1];
                let b2 = rgb[s + 2];
                out.set(di, b0);
                out.set(di + 1, b1);
                out.set(di + 2, b2);
            }
            proof {
                assert forall|d: int| 0 <= d < len implies #[trigger] out@[d] == if d / 3 < tw * ty
                    + tx + 1 {
                    resampled_byte(rgb@, w as int, h as int, tw as int, th as int, centred, d)
                } else {
                    0u8
                } by {
                    if d / 3 == q {
                        assert(3 * q <= d <= 3 * q + 2);
                    }
                }
            }
            tx += 1;
        }
        assert(tw * ty + tw == tw * (ty + 1)) by (nonlinear_arith);
        ty += 1;
    }
    proof {
        assert forall|d: int| 0 <= d < len implies #[trigger] out@[d] == resampled_byte(
            rgb@,
            w as int,
            h as int,
            tw as int,
            th as int,
            centred,
            d,
        ) by {
            assert(d / 3 < tw * th);
        }
        assert(out@ =~= resampled(rgb@, w as int, h as int, tw as int, th as int, centred));
    }
    out
}


/// Downsamples a `w`×`h` RGB888 image to `tw`×`th` by plain nearest-neighbour sampling.
pub fn downsample_rgb(rgb: &[u8], w: usize, h: usize, tw: usize, th: usize) -> (r: Vec<u8>)
    requires
        tw * th * 3 <= usize::MAX,
    ensures
        r@ == resampled(rgb@, w as int, h as int, tw as int, th as int, false),
{
    resample_rgb(rgb, w, h, tw, th, false)
}

/// The bytes of a `w`×`h` RGB888 image mirrored left to right; bytes beyond the image
/// are kept.
pub open spec fn mirrored(b: Seq<u8>, w: int, h: int) -> Seq<u8> {
    Seq::new(
        b.len(),
        |i: int|
            if i < w * h * 3 {
                let p = i / 3;
                b[((p / w) * w + (w - 1 - p % w)) * 3 + i % 3]
            } else {
                b[i]
            },
    )
}

/// Mirrors a `w`×`h` RGB888 image left to right in place.
pub fn mirror_rgb_in_place(rgb: &mut [u8], width: usize, height: usize)
    requires
        width * height * 3 <= old(rgb)@.len(),
    ensures
        final(rgb)@ == mirrored(old(rgb)@, width as int, height as int),
{
    let ghost w = width as int;
    let ghost len = old(rgb)@.len() as int;
    let n = rgb.len();
    let mut y: usize = 0;
    while y < height
        invariant
            y <= height,
            n == len,
            len == old(rgb)@.len(),
            w == width,
            width * height * 3 <= len,
            rgb@.len() == len,
            forall|i: int|
                0 <= i < len ==> #[trigger] rgb@[i] == if i < w * y * 3 {
                    mirrored(old(rgb)@, w, height as int)[i]
                } else {
                    old(rgb)@[i]
                },
        decreases height - y,
    {
        proof {
            lemma_row_fits(width as int, y as int, height as int);
            assert(width * (y + 1) * 3 <= width * height * 3) by (nonlinear_arith)
                requires
                    width * (y + 1) <= width * height,
            ;
            assert(width * y * 3 + width * 3 == width * (y + 1) * 3) by (nonlinear_arith);
            assert(width * 3 <= width * y * 3 + width * 3) by (nonlinear_arith)
                requires
                    0 <= width * y,
            ;
            assert(y * (width * 3) == width * y * 3) by (nonlinear_arith);
        }
        let row_stride = width * 3;
        let row_start = y * row_stride;
        assert(row_start == w * y * 3) by (nonlinear_arith)
            requires
                row_start == y * row_stride,
                row_stride == width * 3,
                w == width,
        ;
        let half = width / 2;
        let mut x: usize = 0;
        while x < half
            invariant
                x <= half,
                half == width / 2,
                y < height,
                n == len,
                w == width,
                row_start == w * y * 3,
                row_start + width * 3 <= len,
                width * height * 3 <= len,
                len == old(rgb)@.len(),
                rgb@.len() == len,
                forall|i: int|
                    0 <= i < len ==> #[trigger] rgb@[i] == if i < row_start || (row_start <= i
                        < row_start + width * 3 && ((i - row_start) / 3 < x || (i - row_start) / 3
                        >= width - x)) {
                        mirrored(old(rgb)@, w, height as int)[i]
                    } else {
                        old(rgb)@[i]
                    },
            decreases half - x,
        {
            let a = row_start + x * 3;
            let b = row_start + (width - 1 - x) * 3;
            let mut c: usize = 0;
            while c < 3
                invariant
                    c <= 3,
                    x < half,
                    half == width / 2,
                    y < height,
                    n == len,
                    w == width,
                    row_start == w * y * 3,
                    row_start + width * 3 <= len,
                    a == row_start + x * 3,
                    b == row_start + (width - 1 - x) * 3,
                    width * height * 3 <= len,
                    len == old(rgb)@.len(),
                    rgb@.len() == len,
                    forall|i: int|
                        0 <= i < len ==> #[trigger] rgb@[i] == if i < row_start || (row_start <= i
                            < row_start + width * 3 && ((i - row_start) / 3 < x || (i - row_start)
                            / 3 >= width - x || ((i == a + 0 || i == b + 0) && 0 < c) || ((i == a
                            + 1 || i == b + 1) && 1 < c) || ((i == a + 2 || i == b + 2) && 2 < c))) {
                            mirrored(old(rgb)@, w, height as int)[i]
                        } else {
                            old(rgb)@[i]
                        },
                decreases 3 - c,
            {
                let t = rgb[a + c];
                let u = rgb[b + c];
                rgb[a + c] = u;
                rgb[b + c] = t;
                proof {
                    lemma_mirror_pair(old(rgb)@, w, height as int, y as int, x as int, c as int);
                }
                c += 1;
            }
            proof {
                assert forall|i: int| 0 <= i < len implies #[trigger] rgb@[i] == if i < row_start || (
                row_start <= i < row_start + width * 3 && ((i - row_start) / 3 < x + 1 || (i
                    - row_start) / 3 >= width - (x + 1))) {
                    mirrored(old(rgb)@, w, height as int)[i]
                } else {
                    old(rgb)@[i]
                } by {
                    if row_start <= i < row_start + width * 3 {
                        if (i - row_start) / 3 == x {
                            assert(a <= i < a + 3);
                        }
                        if (i - row_start) / 3 == width - 1 - x {
                            assert(b <= i < b + 3);
                        }
                    }
                }
            }
            x += 1;
        }
        proof {
            assert forall|i: int| 0 <= i < len implies #[trigger] rgb@[i] == if i < w * (y + 1) * 3 {
                mirrored(old(rgb)@, w, height as int)[i]
            } else {
                old(rgb)@[i]
            } by {
                if row_start <= i < row_start + width * 3 {
                    let k = (i - row_start) / 3;
                    if !(k < half || k >= width - half) {
                        lemma_mirror_middle(old(rgb)@, w, height as int, y as int, i);
                    }
                }
            }
        }
        y += 1;
    }
    assert(rgb@ =~= mirrored(old(rgb)@, width as int, height as int));
}

proof fn lemma_mirror_pair(b: Seq<u8>, w: int, h: int, y: int, x: int, c: int)
    requires
        0 <= y < h,
        0 <= x < w / 2,
        0 <= c < 3,
        w * h * 3 <= b.len(),
    ensures
        mirrored(b, w, h)[w * y * 3 + x * 3 + c] == b[w * y * 3 + (w - 1 - x) * 3 + c],
        mirrored(b, w, h)[w * y * 3 + (w - 1 - x) * 3 + c] == b[w * y * 3 + x * 3 + c],
{
    let i = w * y * 3 + x * 3 + c;
    let j = w * y * 3 + (w - 1 - x) * 3 + c;
    lemma_grid_index(w, y, x);
    lemma_grid_index(w, y, w - 1 - x);
    lemma_row_fits(w, y, h);
    assert(w * y * 3 + x * 3 + c == (y * w + x) * 3 + c) by (nonlinear_arith)
        requires
            y * w == w * y,
    ;
    assert(w * y * 3 + (w - 1 - x) * 3 + c == (y * w + (w - 1 - x)) * 3 + c) by (nonlinear_arith)
        requires
            y * w == w * y,
    ;
    assert(w * (y + 1) * 3 <= w * h * 3) by (nonlinear_arith)
        requires
            w * (y + 1) <= w * h,
    ;
    assert(w * y * 3 + w * 3 == w * (y + 1) * 3) by (nonlinear_arith);
    assert(i / 3 == y * w + x);
    assert(i % 3 == c);
    assert(j / 3 == y * w + (w - 1 - x));
    assert(j % 3 == c);
}

proof fn lemma_mirror_middle(b: Seq<u8>, w: int, h: int, y: int, i: int)
    requires
        0 <= y < h,
        w * h * 3 <= b.len(),
        w * y * 3 <= i < w * y * 3 + w * 3,
        !((i - w * y * 3) / 3 < w / 2 || (i - w * y * 3) / 3 >= w - w / 2),
    ensures
        mirrored(b, w, h)[i] == b[i],
{
    let x = (i - w * y * 3) / 3;
    let c = (i - w * y * 3) % 3;
    assert(x == w - 1 - x);
    lemma_grid_index(w, y, x);
    lemma_row_fits(w, y, h);
    assert(w * (y + 1) * 3 <= w * h * 3) by (nonlinear_arith)
        requires
            w * (y + 1) <= w * h,
    ;
    assert(w * y * 3 + w * 3 == w * (y + 1) * 3) by (nonlinear_arith);
    assert(i == (y * w + x) * 3 + c) by (nonlinear_arith)
        requires
            y * w == w * y,
            x == (i - w * y * 3) / 3,
            c == (i - w * y * 3) % 3,
    ;
}

/// Mirroring twice gives back the same image.
pub proof fn lemma_mirror_involution(b: Seq<u8>, w: int, h: int)
    requires
        w >= 0,
        h >= 0,
        w * h * 3 <= b.len(),
    ensures
        mirrored(mirrored(b, w, h), w, h) == b,
{
    assert forall|i: int| 0 <= i < b.len() implies #[trigger] mirrored(mirrored(b, w, h), w, h)[i] == b[i] by {
        if i < w * h * 3 {
            let p = i / 3;
            let y = p / w;
            let x = p % w;
            let c = i % 3;
            assert(w > 0) by {
                if w == 0 {
                    assert(w * h * 3 == 0) by (nonlinear_arith)
                        requires
                            w == 0,
                    ;
                }
            }
            assert(p < w * h);
            vstd::arithmetic::div_mod::lemma_fundamental_div_mod(p, w);
            assert(0 <= x < w);
            assert(y < h) by {
                if y >= h {
                    assert(w * y >= w * h) by (nonlinear_arith)
                        requires
                            y >= h,
                            w > 0,
                    ;
                }
            }
            let q = y * w + (w - 1 - x);
            lemma_grid_index(w, y, w - 1 - x);
            lemma_grid_index(w, y, x);
            lemma_row_fits(w, y, h);
            assert(q * 3 + c < w * h * 3) by (nonlinear_arith)
                requires
                    q == y * w + (w - 1 - x),
                    y * w + (w - 1 - x) == w * y + (w - 1 - x),
                    w * (y + 1) <= w * h,
                    w * y + w == w * (y + 1),
                    0 <= x,
                    0 <= c < 3,
            ;
            assert((q * 3 + c) / 3 == q);
            assert((q * 3 + c) % 3 == c);
            assert(q / w == y && q % w == w - 1 - x);
            assert(y * w + x == p);
        }
    }
    assert(mirrored(mirrored(b, w, h), w, h) =~= b);
}

} // verus!
