use naad::acoustics::fdn_reverb::hadamard_sign;
use naad::dsp_util::{is_power_of_two, stft_frame_count};
use naad::dynamics::gate_hold_step;
use naad::modulation::{lfo_shape_for, LfoShape};
use naad::synth::granular::{advance_grain, first_inactive, MAX_GRAINS};
use naad::noise::NoiseType;
use naad::oscillator::unison::{clamp_voice_count, default_ratios_dirty};
use naad::oscillator::{SubOctave, Waveform};

#[test]
fn stft_frame_counts() {
    // 4096 samples, window 1024, hop 256 -> (4096-1024)/256 + 1 = 13 frames.
    assert_eq!(stft_frame_count(4096, 1024, 256), 13);
    assert_eq!(stft_frame_count(4096, 1000, 256), 0);
    assert_eq!(stft_frame_count(4096, 1024, 0), 0);
    assert_eq!(stft_frame_count(100, 1024, 256), 0);
    assert_eq!(stft_frame_count(1024, 1024, 7), 1);
    assert_eq!(stft_frame_count(0, 0, 1), 0);
}

#[test]
fn power_of_two_check() {
    assert!(is_power_of_two(1));
    assert!(is_power_of_two(2048));
    assert!(!is_power_of_two(0));
    assert!(!is_power_of_two(1000));
    assert!(!is_power_of_two(6));
}

#[test]
fn gate_hold_counts_down() {
    let mut hold = 0u32;
    assert!(!gate_hold_step(false, &mut hold, 3));
    assert!(gate_hold_step(true, &mut hold, 3));
    assert_eq!(hold, 3);
    assert!(gate_hold_step(false, &mut hold, 3));
    assert!(gate_hold_step(false, &mut hold, 3));
    assert!(gate_hold_step(false, &mut hold, 3));
    assert_eq!(hold, 0);
    assert!(!gate_hold_step(false, &mut hold, 3));
}

#[test]
fn waveform_noise_kinds() {
    assert!(Waveform::WhiteNoise.is_noise());
    assert!(!Waveform::Saw.is_noise());
    assert_eq!(Waveform::PinkNoise.noise_type(), Some(NoiseType::Pink));
    assert_eq!(Waveform::BrownNoise.noise_type(), Some(NoiseType::Brown));
    assert_eq!(Waveform::WhiteNoise.noise_type(), Some(NoiseType::White));
    assert_eq!(Waveform::Sine.noise_type(), None);
}

#[test]
fn sub_octave_divisors() {
    assert_eq!(SubOctave::Down1.divisor(), 2);
    assert_eq!(SubOctave::Down2.divisor(), 4);
}

#[test]
fn unison_voice_clamp() {
    assert_eq!(clamp_voice_count(0), 1);
    assert_eq!(clamp_voice_count(5), 5);
    assert_eq!(clamp_voice_count(100), 8);
    assert!(default_ratios_dirty());
}

#[test]
fn hadamard_rows_match_sylvester_pattern() {
    let expected: [[i8; 8]; 8] = [
        [1, 1, 1, 1, 1, 1, 1, 1],
        [1, -1, 1, -1, 1, -1, 1, -1],
        [1, 1, -1, -1, 1, 1, -1, -1],
        [1, -1, -1, 1, 1, -1, -1, 1],
        [1, 1, 1, 1, -1, -1, -1, -1],
        [1, -1, 1, -1, -1, 1, -1, 1],
        [1, 1, -1, -1, -1, -1, 1, 1],
        [1, -1, -1, 1, -1, 1, 1, -1],
    ];
    for i in 0..8 {
        for j in 0..8 {
            assert_eq!(hadamard_sign(i, j), expected[i][j], "entry ({i}, {j})");
        }
    }
    for i in 0..8 {
        for j in 0..8 {
            let dot: i32 = (0..8)
                .map(|k| hadamard_sign(i, k) as i32 * hadamard_sign(j, k) as i32)
                .sum();
            assert_eq!(dot, if i == j { 8 } else { 0 });
        }
    }
}

#[test]
fn lfo_shapes_for_waveforms() {
    assert_eq!(lfo_shape_for(Waveform::Sine), LfoShape::Sine);
    assert_eq!(lfo_shape_for(Waveform::Triangle), LfoShape::Triangle);
    assert_eq!(lfo_shape_for(Waveform::Square), LfoShape::Square);
    assert_eq!(lfo_shape_for(Waveform::Saw), LfoShape::SawDown);
    assert_eq!(lfo_shape_for(Waveform::Pulse), LfoShape::Sine);
    assert_eq!(lfo_shape_for(Waveform::WhiteNoise), LfoShape::Sine);
}

#[test]
fn stft_frames_fit_the_signal() {
    for &(len, window, hop) in &[(4096usize, 1024usize, 256usize), (5000, 512, 333), (2048, 2048, 1), (3000, 64, 64)] {
        let n = stft_frame_count(len, window, hop);
        assert!(n > 0);
        for f in 0..n {
            assert!(f * hop + window <= len);
        }
        assert!(n * hop + window > len);
    }
}

#[test]
fn grain_slots_and_lifetime() {
    assert_eq!(first_inactive(&[true, true, false, false]), Some(2));
    assert_eq!(first_inactive(&[false]), Some(0));
    assert_eq!(first_inactive(&[true; MAX_GRAINS]), None);
    assert_eq!(first_inactive(&[]), None);
    // A grain of duration 3 sounds for 3 samples.
    let mut counter = 0u32;
    assert!(advance_grain(&mut counter, 3));
    assert!(advance_grain(&mut counter, 3));
    assert!(!advance_grain(&mut counter, 3));
    assert_eq!(counter, 3);
    // A grain of duration 0 sounds once.
    let mut c0 = 0u32;
    assert!(!advance_grain(&mut c0, 0));
}
