use bit_vec::BitVec;

use healslut::config::{Channel, Target, TargetSpec};
use healslut::plug::{Capture, FromPixbufError, MatchError};

/// A frame of uniform BGRA pixels.
fn uniform_frame(width: usize, height: usize, b: u8, g: u8, r: u8) -> Capture {
    let mut bytes = Vec::new();
    for _ in 0..width * height {
        bytes.push(b);
        bytes.push(g);
        bytes.push(r);
        bytes.push(255);
    }
    Capture { width, height, rowstride: 4 * width, bytes }
}

fn spec(x: usize, y: usize, size: usize, channel: Channel, threshold: u8, count: usize) -> TargetSpec {
    TargetSpec { x, y, size, channel, threshold, count }
}

#[test]
fn corner_target_is_clipped_not_shifted() {
    let frame = uniform_frame(100, 80, 0, 0, 0);
    let d = frame.dims(&spec(0, 0, 50, Channel::Red, 128, 0));
    assert_eq!(d.x0, 0);
    assert_eq!(d.y0, 0);
    assert_eq!(d.x1, 26);
    assert_eq!(d.y1, 26);
}

#[test]
fn narrow_frame_clips_to_its_width() {
    let frame = uniform_frame(10, 80, 0, 0, 0);
    let d = frame.dims(&spec(0, 0, 50, Channel::Red, 128, 0));
    assert_eq!(d.x0, 0);
    assert_eq!(d.x1, 10);
    assert_eq!(d.y1, 26);
}

#[test]
fn interior_target_is_symmetric() {
    let frame = uniform_frame(100, 100, 0, 0, 0);
    let d = frame.dims(&spec(50, 40, 10, Channel::Red, 128, 0));
    assert_eq!((d.x0, d.x1, d.y0, d.y1), (45, 56, 35, 46));
}

#[test]
fn at_reads_components_in_bgra_order() {
    let frame = uniform_frame(2, 1, 1, 2, 3);
    assert_eq!(frame.at(0, 0), Some((3, 2, 1, 255)));
    assert_eq!(frame.at(1, 0), Some((3, 2, 1, 255)));
    assert_eq!(frame.at(2, 0), None);
    assert_eq!(frame.at(0, 1), None);
}

#[test]
fn all_red_frame_extracts_all_ones() {
    let frame = uniform_frame(4, 4, 0, 0, 255);
    let t = spec(2, 2, 2, Channel::Red, 128, 0);
    let bits = frame.extract(&t);
    assert_eq!(bits.len(), 9);
    assert!(bits.iter().all(|b| b));
}

#[test]
fn uniform_region_is_all_ones_or_all_zeros_by_raw_threshold() {
    let frame = uniform_frame(4, 4, 0, 0, 77);
    let at_value = frame.extract(&spec(1, 1, 2, Channel::Red, 77, 0));
    assert!(at_value.iter().all(|b| b));
    let above_value = frame.extract(&spec(1, 1, 2, Channel::Red, 78, 0));
    assert!(above_value.iter().all(|b| !b));
}

/// One row, red 100 then red 200: the range rescales to 0 and 255.
fn gradient_frame() -> Capture {
    Capture {
        width: 2,
        height: 1,
        rowstride: 8,
        bytes: vec![0, 0, 100, 255, 0, 0, 200, 255],
    }
}

#[test]
fn extract_rescales_over_the_region_range() {
    let frame = gradient_frame();
    let bits = frame.extract(&spec(0, 0, 2, Channel::Red, 128, 0));
    assert_eq!(bits.len(), 2);
    assert_eq!(bits.get(0), Some(false));
    assert_eq!(bits.get(1), Some(true));
}

#[test]
fn identical_mask_with_zero_tolerance_is_no_match() {
    let frame = gradient_frame();
    let t = spec(0, 0, 2, Channel::Red, 128, 0);
    let mask = frame.extract(&t);
    let target = Target { spec: t, mask };
    // Distance 0, tolerance 0: 0 < 0 is false.
    assert_eq!(frame.check(&target), Ok(false));
}

#[test]
fn identical_mask_with_any_tolerance_matches() {
    let frame = gradient_frame();
    let t = spec(0, 0, 2, Channel::Red, 128, 1);
    let mask = frame.extract(&t);
    let target = Target { spec: t, mask };
    assert_eq!(frame.check(&target), Ok(true));
}

#[test]
fn distance_equal_to_tolerance_is_no_match() {
    let frame = gradient_frame();
    let t = spec(0, 0, 2, Channel::Red, 128, 1);
    let mut mask = frame.extract(&t);
    let flipped = !mask.get(0).unwrap();
    mask.set(0, flipped);
    let target = Target { spec: t, mask };
    // Distance 1, tolerance 1: 1 < 1 is false.
    assert_eq!(frame.check(&target), Ok(false));

    let looser = Target { spec: spec(0, 0, 2, Channel::Red, 128, 2), mask: target.mask };
    assert_eq!(frame.check(&looser), Ok(true));
}

#[test]
fn wrong_mask_length_is_a_structured_error() {
    let frame = gradient_frame();
    let t = spec(0, 0, 2, Channel::Red, 128, 0);
    let target = Target { spec: t, mask: BitVec::from_elem(5, true) };
    assert_eq!(
        frame.check(&target),
        Err(MatchError::LengthMismatch { expected: 2, actual: 5 })
    );
}

#[test]
fn target_off_the_frame_is_a_structured_error() {
    let frame = gradient_frame();
    let t = spec(7, 0, 2, Channel::Red, 128, 0);
    let target = Target { spec: t, mask: BitVec::from_elem(2, true) };
    assert_eq!(frame.check(&target), Err(MatchError::OutOfBounds));
}

#[test]
fn from_raw_checks_the_source_format() {
    let bytes = vec![0u8; 16];
    assert_eq!(
        Capture::from_raw(false, true, 4, 2, 2, 8, bytes.clone()).err(),
        Some(FromPixbufError::Colorspace)
    );
    assert_eq!(
        Capture::from_raw(true, true, 3, 2, 2, 8, bytes.clone()).err(),
        Some(FromPixbufError::ChannelCount)
    );
    assert_eq!(
        Capture::from_raw(true, false, 4, 2, 2, 8, bytes.clone()).err(),
        Some(FromPixbufError::NoAlpha)
    );
    assert_eq!(
        Capture::from_raw(true, true, 4, 2, 3, 8, bytes.clone()).err(),
        Some(FromPixbufError::Layout)
    );
    let frame = Capture::from_raw(true, true, 4, 2, 2, 8, bytes).unwrap();
    assert_eq!(frame.width, 2);
    assert_eq!(frame.height, 2);
    assert_eq!(frame.rowstride, 8);
}
