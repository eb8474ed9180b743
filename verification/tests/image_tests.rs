use gesture_os_control::face_exclusion::{apply_to_rgb8_blackout, apply_to_skin_mask};
use gesture_os_control::frames::{
    helper_frame_message, mediapipe_downscaled_rgb, rgb_preview_downsample, RecognizeGestureUseCase,
};
use gesture_os_control::gesture::{GestureResult, GestureType};
use gesture_os_control::gesture_id::GestureId;
use gesture_os_control::image::{downsample_rgb, mirror_rgb_in_place, resample_rgb};
use gesture_os_control::ports::FrameDto;
use gesture_os_control::skin::{
    bounding_box, enumerate_skin_components, skin_cells_to_mask, skin_mask_classic,
    skin_mask_preferred,
};

fn frame(w: u32, h: u32) -> FrameDto {
    let mut rgb8 = Vec::new();
    for i in 0..(w as usize * h as usize * 3) {
        rgb8.push((i % 251) as u8);
    }
    FrameDto { frame_index: 0, timestamp_ms: 42, width: w, height: h, rgb8 }
}

#[test]
fn mirror_swaps_pixels_of_each_row() {
    let mut rgb = vec![1, 2, 3, 4, 5, 6, 7, 8, 9, 10, 11, 12, 13, 14, 15, 16, 17, 18, 99];
    mirror_rgb_in_place(&mut rgb, 3, 2);
    assert_eq!(rgb, vec![7, 8, 9, 4, 5, 6, 1, 2, 3, 16, 17, 18, 13, 14, 15, 10, 11, 12, 99]);
}

#[test]
fn mirror_twice_restores_the_image() {
    let original: Vec<u8> = (0..60u8).collect();
    let mut rgb = original.clone();
    mirror_rgb_in_place(&mut rgb, 4, 5);
    assert_ne!(rgb, original);
    mirror_rgb_in_place(&mut rgb, 4, 5);
    assert_eq!(rgb, original);
}

#[test]
fn downsample_takes_nearest_pixels() {
    // 4×2 image, pixel p has bytes (p, p, p)
    let mut rgb = Vec::new();
    for p in 0..8u8 {
        rgb.extend_from_slice(&[p, p, p]);
    }
    let out = downsample_rgb(&rgb, 4, 2, 2, 1);
    assert_eq!(out, vec![0, 0, 0, 2, 2, 2]);
    let out = downsample_rgb(&rgb, 4, 2, 2, 2);
    assert_eq!(out, vec![0, 0, 0, 2, 2, 2, 4, 4, 4, 6, 6, 6]);
}

#[test]
fn downsample_leaves_missing_pixels_black() {
    let rgb = vec![9, 9, 9];
    let out = downsample_rgb(&rgb, 2, 1, 2, 1);
    assert_eq!(out, vec![9, 9, 9, 0, 0, 0]);
}

#[test]
fn centred_sampling_takes_the_middle_pixel() {
    let mut rgb = Vec::new();
    for p in 0..4u8 {
        rgb.extend_from_slice(&[p, p, p]);
    }
    // 4×1 to 2×1: centres at 1.0 and 3.0 of the source
    let out = resample_rgb(&rgb, 4, 1, 2, 1, true);
    assert_eq!(out, vec![1, 1, 1, 3, 3, 3]);
    let plain = resample_rgb(&rgb, 4, 1, 2, 1, false);
    assert_eq!(plain, vec![0, 0, 0, 2, 2, 2]);
}

#[test]
fn face_area_is_cleared_from_mask() {
    let mut mask = vec![true; 100 * 100];
    apply_to_skin_mask(&mut mask, 100, 100);
    assert!(!mask[22 * 100 + 50]);
    assert!(mask[99 * 100]);
    assert!(mask[99 * 100 + 99]);
    let once = mask.clone();
    apply_to_skin_mask(&mut mask, 100, 100);
    assert_eq!(mask, once);
}

#[test]
fn tiny_frames_have_no_face_area() {
    let mut mask = vec![true; 2 * 2];
    apply_to_skin_mask(&mut mask, 2, 2);
    assert_eq!(mask, vec![true; 4]);
}

#[test]
fn face_area_is_blacked_out() {
    let mut rgb = vec![200u8; 100 * 100 * 3];
    apply_to_rgb8_blackout(&mut rgb, 100, 100);
    let c = (22 * 100 + 50) * 3;
    assert_eq!(&rgb[c..c + 3], &[0, 0, 0]);
    let corner = (99 * 100 + 99) * 3;
    assert_eq!(&rgb[corner..corner + 3], &[200, 200, 200]);
}

#[test]
fn classic_skin_rule() {
    let rgb = vec![200, 100, 50, 100, 100, 100, 96, 85, 21, 220, 210, 60];
    let mask = skin_mask_classic(&rgb, 2, 2);
    assert_eq!(mask, vec![true, false, false, false]);
    let short = skin_mask_classic(&[200, 100], 1, 1);
    assert_eq!(short, vec![false]);
    assert_eq!(skin_mask_preferred(&rgb, 2, 2), mask);
}

#[test]
fn cells_become_a_mask() {
    let m = skin_cells_to_mask(&[0, 3, 3], 5);
    assert_eq!(m, vec![true, false, false, true, false]);
}

#[test]
fn bounding_box_of_set_cells() {
    // 4 wide: cells (1,0), (3,1), (2,2)
    let mut m = vec![false; 12];
    m[1] = true;
    m[7] = true;
    m[10] = true;
    assert_eq!(bounding_box(&m, 4, 3), Some((1, 0, 3, 3)));
    assert_eq!(bounding_box(&vec![false; 12], 4, 3), None);
    assert_eq!(bounding_box(&[], 0, 0), None);
}

#[test]
fn regions_are_found_in_order_of_lowest_cell() {
    // 5×3 grid:
    // X X . . X
    // . X . . X
    // . . . X X
    let rows = ["XX..X", ".X..X", "...XX"];
    let mut mask = Vec::new();
    for r in rows {
        for c in r.chars() {
            mask.push(c == 'X');
        }
    }
    let regions = enumerate_skin_components(&mask, 5, 3, 1);
    assert_eq!(regions.len(), 2);
    let mut first = regions[0].clone();
    first.sort();
    assert_eq!(first, vec![0, 1, 6]);
    assert_eq!(regions[0][0], 0);
    let mut second = regions[1].clone();
    second.sort();
    assert_eq!(second, vec![4, 9, 13, 14]);
    assert_eq!(regions[1][0], 4);
}

#[test]
fn small_regions_are_dropped() {
    let rows = ["XX..X", ".X..X", "...XX"];
    let mut mask = Vec::new();
    for r in rows {
        for c in r.chars() {
            mask.push(c == 'X');
        }
    }
    let regions = enumerate_skin_components(&mask, 5, 3, 4);
    assert_eq!(regions.len(), 1);
    assert_eq!(regions[0][0], 4);
    assert!(enumerate_skin_components(&mask, 5, 3, 5).is_empty());
    assert!(enumerate_skin_components(&[], 0, 0, 1).is_empty());
}

#[test]
fn regions_do_not_wrap_around_rows() {
    // the last cell of row 0 and the first of row 1 are not neighbours
    let mask = vec![false, true, true, false];
    let regions = enumerate_skin_components(&mask, 2, 2, 1);
    assert_eq!(regions.len(), 2);
}

#[test]
fn preview_fits_the_longer_side() {
    let f = frame(640, 480);
    let (w, h, buf) = rgb_preview_downsample(&f, 480);
    assert_eq!((w, h), (480, 360));
    assert_eq!(buf.len(), 480 * 360 * 3);
    assert_eq!(&buf[0..3], &f.rgb8[0..3]);
    let small = frame(100, 50);
    let (w, h, buf) = rgb_preview_downsample(&small, 480);
    assert_eq!((w, h), (100, 50));
    assert_eq!(buf, small.rgb8);
}

#[test]
fn preview_rounds_sides() {
    let f = frame(1000, 3);
    let (w, h, _) = rgb_preview_downsample(&f, 480);
    // 3 × 480 / 1000 = 1.44 → 1
    assert_eq!((w, h), (480, 1));
    let g = frame(1000, 5);
    let (_, h, _) = rgb_preview_downsample(&g, 480);
    // 5 × 480 / 1000 = 2.4 → 2
    assert_eq!(h, 2);
}

#[test]
fn empty_frame_previews_as_one_black_pixel() {
    let f = FrameDto { frame_index: 0, timestamp_ms: 0, width: 0, height: 0, rgb8: vec![] };
    let (w, h, buf) = rgb_preview_downsample(&f, 480);
    assert_eq!((w, h), (1, 1));
    assert_eq!(buf, vec![0, 0, 0]);
}

#[test]
fn helper_frames_are_at_most_320_pixels() {
    let f = frame(640, 480);
    let (w, h, buf) = mediapipe_downscaled_rgb(&f);
    assert_eq!((w, h), (320, 240));
    assert_eq!(buf.len(), 320 * 240 * 3);
    // target (0, 0) samples source (1, 1)
    let s = (640 + 1) * 3;
    assert_eq!(&buf[0..3], &f.rgb8[s..s + 3]);
    let small = frame(320, 200);
    let (w, h, buf) = mediapipe_downscaled_rgb(&small);
    assert_eq!((w, h), (320, 200));
    assert_eq!(buf, small.rgb8);
}

#[test]
fn raw_result_prefers_direct_gesture() {
    let f = frame(2, 2);
    let direct = GestureResult { gesture: GestureId::Victory, confidence_pm: 700, gesture_type: GestureType::Static, timestamp_ms: 1 };
    let classified = GestureResult { gesture: GestureId::OpenPalm, confidence_pm: 800, gesture_type: GestureType::Static, timestamp_ms: 2 };
    assert_eq!(RecognizeGestureUseCase::pick_raw(&f, Some(direct), Some(classified)), direct);
    assert_eq!(RecognizeGestureUseCase::pick_raw(&f, None, Some(classified)), classified);
    let empty = RecognizeGestureUseCase::pick_raw(&f, None, None);
    assert_eq!(empty.gesture, GestureId::NoGesture);
    assert_eq!(empty.timestamp_ms, 42);
    assert_eq!(RecognizeGestureUseCase::empty_raw(&f), empty);
}

#[test]
fn helper_message_frames_the_bytes() {
    let msg = helper_frame_message(320, 240, &[1, 2, 3]);
    assert_eq!(msg, vec![64, 1, 0, 0, 240, 0, 0, 0, 3, 0, 0, 0, 1, 2, 3]);
    let big = helper_frame_message(0x0102_0304, 0, &[]);
    assert_eq!(&big[0..4], &[4, 3, 2, 1]);
    assert_eq!(big.len(), 12);
}

#[test]
fn wide_frame_face_area() {
    let (w, h) = (200usize, 10usize);
    let mut mask = vec![true; w * h];
    apply_to_skin_mask(&mut mask, w, h);
    assert!(!mask[2 * w + 100]);
    assert!(mask[0]);
    assert!(mask[9 * w + 199]);
    assert!(mask[2 * w + 20]);
}

#[test]
fn mask_needs_only_the_face_rows() {
    let mut full = vec![true; 100 * 100];
    apply_to_skin_mask(&mut full, 100, 100);
    let mut part = vec![true; 60 * 100];
    apply_to_skin_mask(&mut part, 100, 100);
    assert_eq!(&part[..], &full[..60 * 100]);
    assert!(full[60 * 100..].iter().all(|&c| c));
}

#[test]
fn strip_without_face_area_is_untouched() {
    let mut mask = vec![true; 3 * 1000];
    apply_to_skin_mask(&mut mask, 1000, 3);
    assert!(mask.iter().all(|&c| c));
    let mut rgb = vec![9u8; 2 * 50 * 3];
    apply_to_rgb8_blackout(&mut rgb, 2, 50);
    assert!(rgb.iter().all(|&b| b == 9));
}
