//! Frames scaled down for the preview and for the hand-landmark helper, and the
//! raw recognition result of a frame.
use vstd::prelude::*;
use crate::gesture::{GestureResult, GestureType};
use crate::gesture_id::GestureId;
use crate::image::{resample_rgb, resampled};
use crate::ports::FrameDto;

verus! {

/// `n / d` rounded to the nearest integer, halves up (`d > 0`, `n >= 0`).
pub open spec fn round_div(n: int, d: int) -> int {
    (2 * n + d) / (2 * d)
}

/// A side of at least one pixel.
pub open spec fn at_least_one(x: int) -> int {
    if x < 1 {
        1
    } else {
        x
    }
}

/// The size of a `w`×`h` frame scaled so that its longer side is at most
/// `max_side`, keeping the aspect ratio with sides rounded to the nearest pixel;
/// a side of zero counts as one pixel, and a frame that fits keeps its size.
pub open spec fn fitted_size(w: int, h: int, max_side: int) -> (int, int) {
    let fw = at_least_one(w);
    let fh = at_least_one(h);
    let m = if fw >= fh {
        fw
    } else {
        fh
    };
    if m <= max_side {
        (fw, fh)
    } else {
        (at_least_one(round_div(fw * max_side, m)), at_least_one(round_div(fh * max_side, m)))
    }
}

proof fn lemma_scaled_side_fits(f: int, m: int, max_side: int)
    requires
        1 <= f <= m,
        0 <= max_side < m,
    ensures
        0 <= round_div(f * max_side, m) <= f,
{
    assert(0 <= f * max_side) by (nonlinear_arith)
        requires
            1 <= f,
            0 <= max_side,
    ;
    assert(2 * (f * max_side) + m < 2 * m * (f + 1)) by (nonlinear_arith)
        requires
            1 <= f <= m,
            0 <= max_side < m,
    ;
    assert((2 * (f * max_side) + m) / (2 * m) < f + 1) by (nonlinear_arith)
        requires
            2 * (f * max_side) + m < 2 * m * (f + 1),
            m >= 1,
            2 * (f * max_side) + m >= 0,
    ;
    assert((2 * (f * max_side) + m) / (2 * m) >= 0) by (nonlinear_arith)
        requires
            m >= 1,
            2 * (f * max_side) + m >= 0,
    ;
}

proof fn lemma_scaled_side_at_most(f: int, m: int, max_side: int)
    requires
        1 <= f <= m,
        0 <= max_side,
    ensures
        round_div(f * max_side, m) <= max_side,
{
    assert(f * max_side <= m * max_side) by (nonlinear_arith)
        requires
            1 <= f <= m,
            0 <= max_side,
    ;
    assert((2 * (f * max_side) + m) / (2 * m) <= max_side) by (nonlinear_arith)
        requires
            f * max_side <= m * max_side,
            m >= 1,
            0 <= f * max_side,
    ;
}

/// A scaled frame has sides of at least one pixel and none longer than the
/// allowed side (one pixel when the allowed side is zero).
pub proof fn lemma_fitted_size_bounds(w: int, h: int, max_side: int)
    requires
        0 <= max_side,
    ensures
        1 <= fitted_size(w, h, max_side).0 <= at_least_one(max_side),
        1 <= fitted_size(w, h, max_side).1 <= at_least_one(max_side),
{
    let fw = at_least_one(w);
    let fh = at_least_one(h);
    let m = if fw >= fh {
        fw
    } else {
        fh
    };
    if m > max_side {
        lemma_scaled_side_at_most(fw, m, max_side);
        lemma_scaled_side_at_most(fh, m, max_side);
    }
}

fn fitted_size_exec(w: u32, h: u32, max_side: u32) -> (r: (u32, u32))
    ensures
        r.0 as int == fitted_size(w as int, h as int, max_side as int).0,
        r.1 as int == fitted_size(w as int, h as int, max_side as int).1,
        1 <= r.0 <= at_least_one(w as int),
        1 <= r.1 <= at_least_one(h as int),
{
    let fw: u32 = if w < 1 {
        1
    } else {
        w
    };
    let fh: u32 = if h < 1 {
        1
    } else {
        h
    };
    let m: u32 = if fw >= fh {
        fw
    } else {
        fh
    };
    if m <= max_side {
        return (fw, fh);
    }
    proof {
        lemma_scaled_side_fits(fw as int, m as int, max_side as int);
        lemma_scaled_side_fits(fh as int, m as int, max_side as int);
        assert(fw * max_side <= 0xFFFF_FFFF * 0xFFFF_FFFF) by (nonlinear_arith)
            requires
                fw <= 0xFFFF_FFFF,
                max_side <= 0xFFFF_FFFF,
        ;
        assert(fh * max_side <= 0xFFFF_FFFF * 0xFFFF_FFFF) by (nonlinear_arith)
            requires
                fh <= 0xFFFF_FFFF,
                max_side <= 0xFFFF_FFFF,
        ;
    }
    let nw: u128 = (2 * ((fw as u128) * (max_side as u128)) + (m as u128)) / (2 * (m as u128));
    let nh: u128 = (2 * ((fh as u128) * (max_side as u128)) + (m as u128)) / (2 * (m as u128));
    let nw32: u32 = if nw < 1 {
        1
    } else {
        nw as u32
    };
    let nh32: u32 = if nh < 1 {
        1
    } else {
        nh as u32
    };
    (nw32, nh32)
}

proof fn lemma_area_fits(tw: int, th: int, fw: int, fh: int)
    requires
        1 <= tw <= fw,
        1 <= th <= fh,
        fw * fh * 3 <= usize::MAX,
    ensures
        tw * th * 3 <= usize::MAX,
{
    assert(tw * th <= fw * fh) by (nonlinear_arith)
        requires
            1 <= tw <= fw,
            1 <= th <= fh,
    ;
}

/// The frame scaled down for the preview: longer side at most `max_side`, plain
/// nearest-neighbour sampling. Returns the preview's width, height and RGB888 bytes.
pub fn rgb_preview_downsample(frame: &FrameDto, max_side: u32) -> (r: (u32, u32, Vec<u8>))
    requires
        at_least_one(frame.width as int) * at_least_one(frame.height as int) * 3 <= usize::MAX,
    ensures
        r.0 as int == fitted_size(frame.width as int, frame.height as int, max_side as int).0,
        r.1 as int == fitted_size(frame.width as int, frame.height as int, max_side as int).1,
        r.2@ == resampled(
            frame.rgb8@,
            at_least_one(frame.width as int),
            at_least_one(frame.height as int),
            r.0 as int,
            r.1 as int,
            false,
        ),
{
    let fw: u32 = if frame.width < 1 {
        1
    } else {
        frame.width
    };
    let fh: u32 = if frame.height < 1 {
        1
    } else {
        frame.height
    };
    let (nw, nh) = fitted_size_exec(frame.width, frame.height, max_side);
    proof {
        lemma_area_fits(nw as int, nh as int, fw as int, fh as int);
    }
    let out = resample_rgb(&frame.rgb8, fw as usize, fh as usize, nw as usize, nh as usize, false);
    (nw, nh, out)
}

/// The longest side of the frames sent to the hand-landmark helper.
pub const MEDIAPIPE_HELPER_MAX_SIDE: u32 = 320;

/// The frame as sent to the hand-landmark helper: unchanged when its longer side is
/// at most 320 pixels, otherwise scaled down to that side with each target pixel
/// taken from under its centre. Returns width, height and RGB888 bytes.
pub fn mediapipe_downscaled_rgb(frame: &FrameDto) -> (r: (u32, u32, Vec<u8>))
    requires
        at_least_one(frame.width as int) * at_least_one(frame.height as int) * 3 <= usize::MAX,
    ensures
        r.0 as int == fitted_size(frame.width as int, frame.height as int, 320).0,
        r.1 as int == fitted_size(frame.width as int, frame.height as int, 320).1,
        at_least_one(frame.width as int) <= 320 && at_least_one(frame.height as int) <= 320
            ==> r.2@ == frame.rgb8@,
        !(at_least_one(frame.width as int) <= 320 && at_least_one(frame.height as int) <= 320)
            ==> r.2@ == resampled(
            frame.rgb8@,
            at_least_one(frame.width as int),
            at_least_one(frame.height as int),
            r.0 as int,
            r.1 as int,
            true,
        ),
{
    let w: u32 = if frame.width < 1 {
        1
    } else {
        frame.width
    };
    let h: u32 = if frame.height < 1 {
        1
    } else {
        frame.height
    };
    let m = if w >= h {
        w
    } else {
        h
    };
    if m <= MEDIAPIPE_HELPER_MAX_SIDE {
        let mut copy: Vec<u8> = Vec::new();
        let mut i: usize = 0;
        while i < frame.rgb8.len()
            invariant
                i <= frame.rgb8@.len(),
                copy@ == frame.rgb8@.subrange(0, i as int),
            decreases frame.rgb8@.len() - i,
        {
            copy.push(frame.rgb8[i]);
            i += 1;
        }
        assert(copy@ =~= frame.rgb8@);
        return (w, h, copy);
    }
    let (nw, nh) = fitted_size_exec(frame.width, frame.height, MEDIAPIPE_HELPER_MAX_SIDE);
    proof {
        lemma_area_fits(nw as int, nh as int, w as int, h as int);
    }
    let out = resample_rgb(&frame.rgb8, w as usize, h as usize, nw as usize, nh as usize, true);
    (nw, nh, out)
}

/// The four little-endian bytes of `x`.
pub open spec fn le_bytes(x: int) -> Seq<u8> {
    seq![(x % 256) as u8, ((x / 256) % 256) as u8, ((x / 65536) % 256) as u8, ((x / 16777216) % 256) as u8]
}

fn push_le_u32(out: &mut Vec<u8>, x: u32)
    ensures
        final(out)@ == old(out)@ + le_bytes(x as int),
{
    out.push((x % 256) as u8);
    out.push(((x / 256) % 256) as u8);
    out.push(((x / 65536) % 256) as u8);
    out.push(((x / 16777216) % 256) as u8);
    assert(final(out)@ =~= old(out)@ + le_bytes(x as int));
}

/// The message that hands a frame to the hand-landmark helper: width, height and
/// byte count as little-endian 32-bit numbers, then the RGB888 bytes.
pub fn helper_frame_message(width: u32, height: u32, rgb: &[u8]) -> (r: Vec<u8>)
    requires
        rgb@.len() <= u32::MAX,
    ensures
        r@ == le_bytes(width as int) + le_bytes(height as int) + le_bytes(rgb@.len() as int) + rgb@,
{
    let mut out: Vec<u8> = Vec::new();
    push_le_u32(&mut out, width);
    push_le_u32(&mut out, height);
    push_le_u32(&mut out, rgb.len() as u32);
    let ghost head = out@;
    let mut i: usize = 0;
    while i < rgb.len()
        invariant
            i <= rgb@.len(),
            out@ == head + rgb@.subrange(0, i as int),
        decreases rgb@.len() - i,
    {
        out.push(rgb[i]);
        i += 1;
        assert(out@ =~= head + rgb@.subrange(0, i as int));
    }
    assert(rgb@.subrange(0, rgb@.len() as int) =~= rgb@);
    out
}

/// Recognition of one frame, without the temporal filter and commands.
pub struct RecognizeGestureUseCase;

impl RecognizeGestureUseCase {
    /// The raw result of a frame in which nothing was recognised.
    pub fn empty_raw(frame: &FrameDto) -> (r: GestureResult)
        ensures
            r.gesture == GestureId::NoGesture,
            r.confidence_pm == 0,
            r.gesture_type == GestureType::NoType,
            r.timestamp_ms == frame.timestamp_ms,
    {
        GestureResult::empty(frame.timestamp_ms)
    }

    /// The raw result of a frame: the gesture the backend recognised directly, else
    /// the one classified from its landmarks, else none.
    pub fn pick_raw(
        frame: &FrameDto,
        direct: Option<GestureResult>,
        classified: Option<GestureResult>,
    ) -> (r: GestureResult)
        ensures
            direct matches Some(d) ==> r == d,
            direct is None ==> match classified {
                Some(c) => r == c,
                None => r.gesture == GestureId::NoGesture && r.confidence_pm == 0 && r.gesture_type
                    == GestureType::NoType && r.timestamp_ms == frame.timestamp_ms,
            },
    {
        match direct {
            Some(d) => d,
            None => match classified {
                Some(c) => c,
                None => Self::empty_raw(frame),
            },
        }
    }
}

} // verus!
