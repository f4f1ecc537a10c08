use flight_control::error::TaskError;
use flight_control::messages::{Detection, Pose};
use flight_control::threshold::{adaptive_threshold, BLACK, WHITE};
use flight_control::vision::{
    extract_luma, keep_confident, DetectorOutcome, VisionProcessor, FRAME_HEIGHT, FRAME_WIDTH,
    MIN_CONFIDENCE, NEIGHBORHOOD,
};

fn with_confidence(id: u64, confidence: i64) -> Detection {
    Detection { id, pose: Pose { x: 1, y: 2, z: 3, rotation: [0; 9] }, confidence }
}

/// The mean test written out pixel by pixel, in floating point.
fn slow_threshold(pixels: &[u8], width: usize, height: usize, radius: usize) -> Vec<u8> {
    let mut out = Vec::new();
    for y in 0..height {
        for x in 0..width {
            let mut sum = 0.0_f64;
            let mut count = 0.0_f64;
            for yy in y.saturating_sub(radius)..=(y + radius).min(height - 1) {
                for xx in x.saturating_sub(radius)..=(x + radius).min(width - 1) {
                    sum += pixels[yy * width + xx] as f64;
                    count += 1.0;
                }
            }
            out.push(if pixels[y * width + x] as f64 * count > sum { 255 } else { 0 });
        }
    }
    out
}

#[test]
fn reference_processor() {
    let vision = VisionProcessor::reference();
    assert_eq!(vision.get_width(), 1920);
    assert_eq!(vision.get_height(), 1080);
    assert_eq!(vision.get_radius(), 53);
    assert_eq!(vision.get_min_confidence(), 200_000_000);
    assert_eq!((FRAME_WIDTH, FRAME_HEIGHT, NEIGHBORHOOD, MIN_CONFIDENCE), (1920, 1080, 107, 200_000_000));
}

#[test]
fn processor_is_refused_beyond_the_table_limit() {
    assert!(VisionProcessor::new(0, 0, 1, 0).is_some());
    assert!(VisionProcessor::new(65_534, 65_534, 1, 0).is_some());
    assert!(VisionProcessor::new(65_535, 65_535, 1, 0).is_none());
    assert!(VisionProcessor::new(u32::MAX as usize - 1, 0, 1, 0).is_some());
    assert!(VisionProcessor::new(u32::MAX as usize, 0, 1, 0).is_none());
    assert!(VisionProcessor::new(0, u32::MAX as usize - 1, 1, 0).is_some());
    assert!(VisionProcessor::new(0, u32::MAX as usize, 1, 0).is_none());
    assert!(VisionProcessor::new(usize::MAX, usize::MAX, 1, 0).is_none());
}

#[test]
fn luma_is_the_first_plane() {
    let frame: Vec<u8> = (0..20).collect();
    assert_eq!(extract_luma(&frame, 4, 3), Ok((0..12).collect::<Vec<u8>>()));
    assert_eq!(extract_luma(&frame, 5, 4), Ok(frame.clone()));
    assert_eq!(extract_luma(&frame, 0, 7), Ok(vec![]));
}

#[test]
fn short_frames_are_invalid() {
    let frame: Vec<u8> = (0..20).collect();
    assert_eq!(extract_luma(&frame, 7, 3), Err(TaskError::InvalidFrame));
    assert_eq!(extract_luma(&frame[..11].to_vec(), 4, 3), Err(TaskError::InvalidFrame));
    assert_eq!(extract_luma(&frame, usize::MAX, 2), Err(TaskError::InvalidFrame));
    assert_eq!(extract_luma(&vec![], 1, 1), Err(TaskError::InvalidFrame));
}

#[test]
fn two_tone_image_splits_at_the_edge() {
    let input = vec![
        128, 128, 130, 130, //
        128, 128, 130, 130, //
        128, 128, 130, 130, //
        128, 128, 130, 130, //
    ];
    let expected = vec![
        0, 0, 255, 255, //
        0, 0, 255, 255, //
        0, 0, 255, 255, //
        0, 0, 255, 255, //
    ];
    assert_eq!(adaptive_threshold(&input, 4, 4, 2), expected);
}

#[test]
fn uniform_image_turns_black() {
    let input = vec![200u8; 35];
    assert_eq!(adaptive_threshold(&input, 7, 5, 2), vec![BLACK; 35]);
    assert_eq!(adaptive_threshold(&input, 7, 5, 0), vec![BLACK; 35]);
    assert_eq!(adaptive_threshold(&input, 7, 5, usize::MAX), vec![BLACK; 35]);
}

#[test]
fn a_bright_pixel_stands_out_locally() {
    let mut input = vec![10u8; 25];
    input[12] = 11;
    let out = adaptive_threshold(&input, 5, 5, 1);
    let mut expected = vec![BLACK; 25];
    expected[12] = WHITE;
    assert_eq!(out, expected);
}

#[test]
fn threshold_agrees_with_the_mean_test() {
    let width = 13;
    let height = 9;
    let mut seed: u32 = 12345;
    let mut input = Vec::new();
    for _ in 0..width * height {
        seed = seed.wrapping_mul(1_103_515_245).wrapping_add(12_345);
        input.push((seed >> 16) as u8);
    }
    for radius in [0usize, 1, 2, 3, 6, 20] {
        assert_eq!(
            adaptive_threshold(&input, width, height, radius),
            slow_threshold(&input, width, height, radius)
        );
    }
}

#[test]
fn threshold_keeps_the_dimensions() {
    for (width, height) in [(0usize, 0usize), (1, 1), (1, 17), (17, 1), (31, 8), (0, 5), (5, 0)] {
        let input = vec![7u8; width * height];
        assert_eq!(adaptive_threshold(&input, width, height, 3).len(), width * height);
    }
}

#[test]
fn full_frame_is_binarised_at_its_resolution() {
    let vision = VisionProcessor::reference();
    let mut frame = vec![0u8; FRAME_WIDTH * FRAME_HEIGHT * 3 / 2];
    for (i, px) in frame.iter_mut().enumerate() {
        *px = ((i % FRAME_WIDTH) / 8 + (i / FRAME_WIDTH) / 8) as u8;
    }
    let image = vision.binarize(&frame).unwrap();
    assert_eq!(image.len(), FRAME_WIDTH * FRAME_HEIGHT);
    assert!(image.iter().all(|p| *p == BLACK || *p == WHITE));
    assert!(image.iter().any(|p| *p == WHITE));
}

#[test]
fn frame_one_byte_short_is_invalid() {
    let vision = VisionProcessor::reference();
    let frame = vec![0u8; FRAME_WIDTH * FRAME_HEIGHT - 1];
    assert_eq!(vision.binarize(&frame), Err(TaskError::InvalidFrame));
}

#[test]
fn small_processor_binarises_only_the_luma_plane() {
    let vision = VisionProcessor::new(4, 4, 2, 0).unwrap();
    let mut frame = vec![
        128, 128, 130, 130, //
        128, 128, 130, 130, //
        128, 128, 130, 130, //
        128, 128, 130, 130, //
    ];
    let expected = adaptive_threshold(&frame, 4, 4, 2);
    frame.extend_from_slice(&[255, 0, 255, 0, 9, 9, 9, 9]);
    assert_eq!(vision.binarize(&frame), Ok(expected));
}

#[test]
fn low_confidence_detections_are_dropped() {
    let found = vec![
        with_confidence(1, 199_999_999),
        with_confidence(4, 200_000_000),
        with_confidence(2, 0),
        with_confidence(3, 250_500_000),
        with_confidence(5, -1),
        with_confidence(4, 200_000_001),
    ];
    let kept = keep_confident(&found, MIN_CONFIDENCE);
    assert_eq!(
        kept,
        vec![
            with_confidence(4, 200_000_000),
            with_confidence(3, 250_500_000),
            with_confidence(4, 200_000_001),
        ]
    );
    assert!(kept.iter().all(|d| d.confidence >= 200_000_000));
    assert_eq!(keep_confident(&vec![], MIN_CONFIDENCE), vec![]);
}

#[test]
fn detector_outcome_is_filtered_or_surfaced() {
    let vision = VisionProcessor::reference();
    let found = vec![with_confidence(4, 150_000_000), with_confidence(4, 300_000_000)];
    assert_eq!(
        vision.accept(&DetectorOutcome::Detections(found)),
        Ok(vec![with_confidence(4, 300_000_000)])
    );
    assert_eq!(vision.accept(&DetectorOutcome::Detections(vec![])), Ok(vec![]));
    assert_eq!(vision.accept(&DetectorOutcome::Failed), Err(TaskError::DetectorFailure));
}
