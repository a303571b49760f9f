use live_speech::audio::{
    downmix_to_mono, drain_samples, grid_fits, pcm16_le_bytes, push_frames, resample_to_pcm16,
    resample_to_pcm16le, GridPoint,
};

fn mean(frame: &[f32]) -> f32 {
    frame.iter().sum::<f32>() / frame.len() as f32
}

fn blend(left: f32, right: f32, frac: f32) -> f32 {
    left * (1.0 - frac) + right * frac
}

fn quantize(sample: f32) -> i16 {
    (sample.clamp(-1.0, 1.0) * i16::MAX as f32) as i16
}

fn grid(points: &[(usize, f32)]) -> Vec<GridPoint<f32>> {
    points.iter().map(|&(left, frac)| GridPoint { left, frac }).collect()
}

#[test]
fn mono_stays_mono() {
    assert_eq!(downmix_to_mono(&[0.5f32, 0.25], 1, mean), vec![0.5, 0.25]);
    assert_eq!(downmix_to_mono(&[0.5f32, 0.25], 0, mean), vec![0.5, 0.25]);
}

#[test]
fn incomplete_frames_are_dropped() {
    assert_eq!(downmix_to_mono(&[0.0f32, 1.0, 0.5, 0.5, 0.25], 2, mean), vec![0.5, 0.5]);
    assert_eq!(downmix_to_mono(&[1.0f32], 2, mean), Vec::<f32>::new());
}

#[test]
fn incomplete_frames_are_pushed() {
    let mut samples = vec![9.0f32];
    let mix = |frame: &[i16]| frame.iter().map(|&s| s as f32).sum::<f32>() / 2.0;
    push_frames(&[2i16, 4, 6, 8, 10], 2, &mut samples, mix);
    assert_eq!(samples, vec![9.0, 3.0, 7.0, 5.0]);
}

#[test]
fn no_channels_give_no_frames() {
    let mut samples = vec![1u8];
    push_frames(&[1u8, 2], 0, &mut samples, |_: &[u8]| 7u8);
    assert_eq!(samples, vec![1]);
}

#[test]
fn frames_make_up_the_input() {
    for length in 0..9usize {
        for channels in 1..5usize {
            let input: Vec<usize> = (0..length).collect();
            let mut frames: Vec<Vec<usize>> = Vec::new();
            push_frames(&input, channels, &mut frames, |frame: &[usize]| frame.to_vec());
            assert_eq!(frames.concat(), input);
            assert!(frames.iter().all(|f| f.len() <= channels));
        }
    }
}

#[test]
fn buffer_is_drained() {
    let mut samples = vec![1, 2, 3];
    assert_eq!(drain_samples(&mut samples), vec![1, 2, 3]);
    assert!(samples.is_empty());
    assert!(drain_samples(&mut samples).is_empty());
}

#[test]
fn low_byte_comes_first() {
    assert_eq!(
        pcm16_le_bytes(&[0, 1, -1, 256, i16::MAX, i16::MIN, -2]),
        vec![0, 0, 1, 0, 255, 255, 0, 1, 255, 127, 0, 128, 254, 255]
    );
}

#[test]
fn bytes_can_be_read_back() {
    let pcm: Vec<i16> = (i16::MIN..=i16::MAX).collect();
    let bytes = pcm16_le_bytes(&pcm);
    let read: Vec<i16> = bytes.chunks(2).map(|b| i16::from_le_bytes([b[0], b[1]])).collect();
    assert_eq!(read, pcm);
}

#[test]
fn grid_must_lie_in_the_input() {
    assert!(grid_fits(&grid(&[(0, 0.0), (1, 0.5)]), 2));
    assert!(!grid_fits(&grid(&[(0, 0.0), (2, 0.0)]), 2));
    assert!(grid_fits(&grid(&[]), 0));
}

#[test]
fn samples_are_blended() {
    let points = grid(&[(0, 0.5), (1, 0.5), (2, 0.5)]);
    let bytes = resample_to_pcm16(&[0.0f32, 1.0, 0.0], 48_000, 16_000, &points, blend, quantize);
    assert_eq!(bytes, pcm16_le_bytes(&[16383, 16383, 0]));
    assert_eq!(resample_to_pcm16le(&[0.0f32, 1.0, 0.0], &points, blend, quantize), bytes);
}

#[test]
fn last_sample_has_no_right_neighbour() {
    let points = grid(&[(1, 0.75)]);
    let bytes = resample_to_pcm16le(&[0.0f32, 1.0], &points, blend, quantize);
    assert_eq!(bytes, vec![255, 127]);
}

#[test]
fn equal_rates_need_no_grid() {
    let bytes =
        resample_to_pcm16(&[1.0f32, -1.0, 2.0], 16_000, 16_000, &grid(&[]), blend, quantize);
    assert_eq!(bytes, pcm16_le_bytes(&[32767, -32767, 32767]));
}

#[test]
fn no_input_gives_no_bytes() {
    let points = grid(&[(3, 0.0)]);
    assert!(resample_to_pcm16(&[], 8_000, 16_000, &points, blend, quantize).is_empty());
    assert!(resample_to_pcm16le(&[], &points, blend, quantize).is_empty());
}
