use koe_voice::gate::{downmix_into, is_speech};
use koe_voice::resample::resample;

fn sine(n: usize, rate: f32, freq: f32, amp: f32) -> Vec<i16> {
    (0..n)
        .map(|i| {
            let x = (2.0 * std::f32::consts::PI * freq * i as f32 / rate).sin() * amp;
            (x * 32767.0).clamp(-32768.0, 32767.0) as i16
        })
        .collect()
}

#[test]
fn resample_equal_rates_is_identity() {
    let s = vec![5i16, -7, 32767, -32768, 0];
    assert_eq!(resample(&s, 44100, 44100), s);
}

#[test]
fn resample_48k_to_16k_keeps_a_third() {
    let s: Vec<i16> = (0..10).map(|i| i as i16 * 10).collect();
    let r = resample(&s, 48000, 16000);
    assert_eq!(r.len(), 3);
    assert_eq!(r, vec![0, 30, 60]);
    assert_eq!(resample(&vec![0i16; 48000], 48000, 16000).len(), 16000);
}

#[test]
fn resample_interpolates_and_clamps_last_index() {
    let r = resample(&vec![0i16, 100], 1, 2);
    assert_eq!(r, vec![0, 50, 100, 100]);
}

#[test]
fn resample_interpolation_rounds_down() {
    let r = resample(&vec![0i16, -1], 1, 2);
    assert_eq!(r, vec![0, -1, -1, -1]);
}

#[test]
fn resample_empty_input() {
    assert!(resample(&vec![], 44100, 16000).is_empty());
}

#[test]
fn zero_segment_is_silence() {
    assert!(!is_speech(&vec![0i16; 16000]));
    assert!(!is_speech(&vec![0i16; 1]));
    assert!(!is_speech(&vec![]));
}

#[test]
fn full_scale_sine_is_speech() {
    assert!(is_speech(&sine(16000, 16000.0, 440.0, 1.0)));
}

#[test]
fn gate_threshold_boundary() {
    // 0.01 of full scale is 327.67.
    assert!(is_speech(&vec![328i16; 100]));
    assert!(!is_speech(&vec![327i16; 100]));
    assert!(is_speech(&vec![-328i16; 100]));
}

#[test]
fn downmix_mono_stereo_and_more() {
    let mut out = vec![9i16];
    downmix_into(&mut out, &vec![1, 2, 3], 1);
    assert_eq!(out, vec![9, 1, 2, 3]);

    let mut out = Vec::new();
    downmix_into(&mut out, &vec![10, 20, -3, 0, 7], 2);
    assert_eq!(out, vec![15, -2]);

    let mut out = Vec::new();
    downmix_into(&mut out, &vec![1, 2, 3, 4, 5, 6, 7], 3);
    assert_eq!(out, vec![1, 4, 7]);
}
