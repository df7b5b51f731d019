use mono16k::downmix::Downmixer;
use mono16k::errors::PipelineError;

/// One f32 sample as the signed 32-bit word the library carries.
fn to_word(x: f32) -> i32 {
    (x as f64 * 2147483647.0).round() as i32
}

/// Back from the library's word to an f32 sample.
fn from_word(v: i32) -> f32 {
    (v as f64 / 2147483647.0) as f32
}

#[test]
fn downmix_stereo_constants_exact() {
    let mut mixer = Downmixer::new();
    let mut frame: Vec<i32> = Vec::new();
    for _ in 0..64 {
        frame.push(1000);
        frame.push(2000);
    }
    mixer.append_frame(&frame, 2).unwrap();
    let mono = mixer.finish().unwrap();
    assert_eq!(mono.len(), 64);
    for s in mono {
        assert_eq!(s, 1500);
    }
}

#[test]
fn downmix_stereo_float_mean_within_tolerance() {
    let a: f32 = 0.25;
    let b: f32 = 0.5;
    let mut mixer = Downmixer::new();
    let mut frame: Vec<i32> = Vec::new();
    for _ in 0..100 {
        frame.push(to_word(a));
        frame.push(to_word(b));
    }
    mixer.append_frame(&frame, 2).unwrap();
    let mono = mixer.finish().unwrap();
    assert_eq!(mono.len(), 100);
    for s in mono {
        assert!((from_word(s) - (a + b) / 2.0).abs() < 1e-6);
    }
}

#[test]
fn downmix_single_channel_unchanged() {
    let mut mixer = Downmixer::new();
    let frame: Vec<i32> = vec![5, -7, 0, 2147483647, -2147483648, 13];
    mixer.append_frame(&frame, 1).unwrap();
    let mono = mixer.finish().unwrap();
    assert_eq!(mono, frame);
}

#[test]
fn downmix_truncates_toward_zero() {
    let mut mixer = Downmixer::new();
    // (-3 + 0) / 2 is -1.5: truncated toward zero it is -1, as Rust divides.
    // (3 + 0) / 2 is 1.5: truncated it is 1.
    mixer.append_frame(&vec![-3, 0, 3, 0], 2).unwrap();
    let mono = mixer.finish().unwrap();
    assert_eq!(mono, vec![-1, 1]);
}

#[test]
fn downmix_concatenation_preserves_order() {
    // Feeding packets one after the other equals downmixing the single
    // continuous stream: no reordering, duplication or drop.
    let first: Vec<i32> = vec![10, 20, 30, 40];
    let second: Vec<i32> = vec![50, 60, 70, 80, 90, 100];

    let mut split = Downmixer::new();
    split.append_frame(&first, 2).unwrap();
    split.append_frame(&second, 2).unwrap();
    let split_mono = split.finish().unwrap();

    let mut joined_frame = first.clone();
    joined_frame.extend_from_slice(&second);
    let mut joined = Downmixer::new();
    joined.append_frame(&joined_frame, 2).unwrap();
    let joined_mono = joined.finish().unwrap();

    assert_eq!(split_mono, vec![15, 35, 55, 75, 95]);
    assert_eq!(split_mono, joined_mono);
}

#[test]
fn downmix_rejects_zero_channels() {
    let mut mixer = Downmixer::new();
    let r = mixer.append_frame(&vec![1, 2, 3], 0);
    assert_eq!(r, Err(PipelineError::DecodeError));
    assert_eq!(mixer.len(), 0);
}

#[test]
fn downmix_rejects_ragged_frame() {
    let mut mixer = Downmixer::new();
    let r = mixer.append_frame(&vec![1, 2, 3], 2);
    assert_eq!(r, Err(PipelineError::DecodeError));
    assert_eq!(mixer.len(), 0);
}

#[test]
fn zero_decoded_samples_is_empty_audio_error() {
    let mixer = Downmixer::new();
    assert_eq!(mixer.finish(), Err(PipelineError::EmptyAudioError));
}

#[test]
fn zero_samples_across_several_empty_frames_is_empty_audio_error() {
    let mut mixer = Downmixer::new();
    mixer.append_frame(&Vec::new(), 2).unwrap();
    mixer.append_frame(&Vec::new(), 2).unwrap();
    assert_eq!(mixer.finish(), Err(PipelineError::EmptyAudioError));
}

#[test]
fn nonempty_decode_is_not_an_error() {
    let mut mixer = Downmixer::new();
    mixer.append_frame(&vec![4, 6], 2).unwrap();
    assert_eq!(mixer.finish().unwrap(), vec![5]);
}
