use moshi_asr::FRAME_SIZE;
use moshi_asr::chunk::TimingConfig;
use moshi_asr::chunk::frame_chunks;

fn expected_frames(n: usize, prefix: usize, delay: usize) -> usize {
    let total = n + prefix + delay + 24000;
    (total + FRAME_SIZE - 1) / FRAME_SIZE
}

#[test]
fn frame_count_matches_ceiling_formula() {
    let samples: Vec<i16> = vec![1; 1000];
    let cfg = TimingConfig { silence_prefix_samples: 0, model_delay_samples: 0 };
    let frames = frame_chunks(&samples, &cfg);
    // ceil((1000 + 0 + 0 + 24000) / 1920) = ceil(25000 / 1920) = 14
    assert_eq!(frames.len(), 14);
    assert_eq!(frames.len(), expected_frames(1000, 0, 0));
}

#[test]
fn frame_count_with_prefix_and_delay() {
    let samples: Vec<i16> = vec![3; 10];
    let cfg = TimingConfig { silence_prefix_samples: 100, model_delay_samples: 50 };
    let frames = frame_chunks(&samples, &cfg);
    // ceil((10 + 100 + 50 + 24000) / 1920) = ceil(24160 / 1920) = 13
    assert_eq!(frames.len(), 13);
    assert_eq!(frames.len(), expected_frames(10, 100, 50));
}

#[test]
fn every_frame_is_full_size() {
    let samples: Vec<i16> = vec![9; 4321];
    let cfg = TimingConfig { silence_prefix_samples: 7, model_delay_samples: 11 };
    let frames = frame_chunks(&samples, &cfg);
    for frame in &frames {
        assert_eq!(frame.len(), FRAME_SIZE);
    }
}

#[test]
fn padding_layout_prefix_samples_suffix() {
    let samples: Vec<i16> = vec![5, -6, 7];
    let cfg = TimingConfig { silence_prefix_samples: 2, model_delay_samples: 0 };
    let frames = frame_chunks(&samples, &cfg);
    let flat: Vec<i16> = frames.iter().flat_map(|f| f.iter().copied()).collect();
    // Two leading zeros, then the samples, then silence to the end.
    assert_eq!(&flat[..5], &[0, 0, 5, -6, 7]);
    assert!(flat[5..].iter().all(|s| *s == 0));
    // Total length after padding is 2 + 3 + 24000 = 24005; the last frame
    // is zero-padded out to a multiple of the frame size.
    assert_eq!(flat.len(), 13 * FRAME_SIZE);
}

#[test]
fn empty_buffer_still_gets_the_flush_second() {
    let samples: Vec<i16> = Vec::new();
    let cfg = TimingConfig { silence_prefix_samples: 0, model_delay_samples: 0 };
    let frames = frame_chunks(&samples, &cfg);
    // ceil(24000 / 1920) = 13 frames (12.5 rounded up).
    assert_eq!(frames.len(), 13);
    assert!(frames.iter().all(|f| f.iter().all(|s| *s == 0)));
}

#[test]
fn exact_multiple_needs_no_extra_frame() {
    // 24000 + 14400 = 38400 = 20 * 1920 exactly.
    let samples: Vec<i16> = vec![1; 14400];
    let cfg = TimingConfig { silence_prefix_samples: 0, model_delay_samples: 0 };
    let frames = frame_chunks(&samples, &cfg);
    assert_eq!(frames.len(), 20);
}
