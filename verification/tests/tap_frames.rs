use chanem::taps::{clamp_tap, TapVector, MAX_TAPS, TAP_FRAME_LEN};

/// The floating-point half of the tap synthesizer, exactly as the shell
/// runs it: sample-indexed delay bucketing, carrier phase, the lossless
/// reference phasor, accumulation, truncation toward zero.
fn synthesize(paths: &[(f32, f32, f32)], sample_rate: f32, kappa: f32) -> Vec<(i32, i32)> {
    let delay_per_tap = 1.0f32 / sample_rate;
    let mut acc = vec![(0.0f32, 0.0f32); MAX_TAPS];
    for &(loss, delay, phase_add) in paths {
        let idx = (delay / delay_per_tap).floor() as usize;
        if idx < MAX_TAPS {
            let phase = 2.0 * std::f32::consts::PI * delay * 2.45e9 + phase_add;
            let (re, im) = if loss == 0.0 {
                (32767.0 * phase.cos(), 32767.0 * phase.sin())
            } else {
                (32767.0 / loss * kappa, 0.0)
            };
            acc[idx].0 += re;
            acc[idx].1 += im;
        }
    }
    acc.iter().map(|&(re, im)| (re as i32, im as i32)).collect()
}

#[test]
fn clamp_tap_saturates() {
    assert_eq!(clamp_tap(0), 0);
    assert_eq!(clamp_tap(32760), 32760);
    assert_eq!(clamp_tap(32761), 32760);
    assert_eq!(clamp_tap(i32::MAX), 32760);
    assert_eq!(clamp_tap(-32760), -32760);
    assert_eq!(clamp_tap(-32761), -32760);
    assert_eq!(clamp_tap(i32::MIN), -32760);
    assert_eq!(clamp_tap(1234), 1234);
    assert_eq!(clamp_tap(-1234), -1234);
}

#[test]
fn frame_is_exactly_164_bytes() {
    assert_eq!(TapVector::zero().to_bytes().len(), TAP_FRAME_LEN);
    assert_eq!(TapVector::manual(12345).to_bytes().len(), TAP_FRAME_LEN);
    let components = vec![(7, -7); MAX_TAPS];
    assert_eq!(TapVector::from_components(&components).to_bytes().len(), 164);
}

#[test]
fn frame_bytes_are_big_endian_reals_then_imaginaries() {
    let mut components = vec![(0i32, 0i32); MAX_TAPS];
    components[0] = (0x1234, -2);
    components[40] = (-32761, 32800);
    let t = TapVector::from_components(&components);
    let b = t.to_bytes();
    assert_eq!(&b[0..2], &0x1234i16.to_be_bytes());
    assert_eq!(&b[80..82], &(-32760i16).to_be_bytes());
    assert_eq!(&b[82..84], &(-2i16).to_be_bytes());
    assert_eq!(&b[162..164], &32760i16.to_be_bytes());
    for i in 1..40 {
        assert_eq!(&b[2 * i..2 * i + 2], &[0, 0]);
        assert_eq!(&b[82 + 2 * i..82 + 2 * i + 2], &[0, 0]);
    }
}

#[test]
fn manual_vector_has_one_live_component() {
    let t = TapVector::manual(9561);
    let b = t.to_bytes();
    assert_eq!(&b[0..2], &9561i16.to_be_bytes());
    for i in 1..2 * MAX_TAPS {
        assert_eq!(&b[2 * i..2 * i + 2], &[0, 0]);
    }
}

#[test]
fn near_field_pass_through_saturates_tap_zero() {
    // Free-space position (0.1, 0, 1.5) is inside the far-field distance, so
    // the pipeline substitutes the lossless single path (1, 0, 0); with the
    // default scaling coefficient the only live component saturates.
    let components = synthesize(&[(1.0, 0.0, 0.0)], 200e6, 30000.0);
    let t = TapVector::from_components(&components);
    let b = t.to_bytes();
    assert_eq!(&b[0..2], &32760i16.to_be_bytes());
    for i in 1..2 * MAX_TAPS {
        assert_eq!(&b[2 * i..2 * i + 2], &[0, 0]);
    }
}

#[test]
fn far_field_free_space_has_one_tap_at_the_los_delay() {
    // Free-space position (1000, 0, 50): one path at zero excess delay with
    // loss 4·pi·d/lambda.
    let d = (1000.0f32 * 1000.0 + 48.5f32 * 48.5).sqrt();
    let lambda = 299_792_458.0f32 / 2.45e9;
    let loss = 4.0 * std::f32::consts::PI * (d / lambda);
    let components = synthesize(&[(loss, 0.0, 0.0)], 200e6, 30000.0);
    let expected = (32767.0f32 / loss * 30000.0) as i32;
    assert!(expected > 0 && expected < 32760);
    let t = TapVector::from_components(&components);
    let b = t.to_bytes();
    assert_eq!(&b[0..2], &(expected as i16).to_be_bytes());
    for i in 1..2 * MAX_TAPS {
        assert_eq!(&b[2 * i..2 * i + 2], &[0, 0]);
    }
}

#[test]
fn tap_norms_are_conserved_by_saturation() {
    // Even for extreme raw components, saturation bounds the sum of squared
    // tap norms by MAX_TAPS · 2 · 32760².
    let components = vec![(i32::MAX, i32::MIN); MAX_TAPS];
    let t = TapVector::from_components(&components);
    let b = t.to_bytes();
    assert_eq!(b.len(), TAP_FRAME_LEN);
    let mut sum: i64 = 0;
    for i in 0..MAX_TAPS {
        let re = i16::from_be_bytes([b[2 * i], b[2 * i + 1]]) as i64;
        let im = i16::from_be_bytes([b[82 + 2 * i], b[82 + 2 * i + 1]]) as i64;
        sum += re * re + im * im;
    }
    assert_eq!(sum, 41 * 2 * 32760 * 32760);
    assert!(sum <= 41 * 2 * 32760 * 32760);
}

#[test]
fn paths_beyond_the_fir_window_are_discarded() {
    // 41 taps at 200 MHz cover 205 ns of excess delay; a 300 ns path is out.
    let components = synthesize(&[(100.0, 300e-9, 0.0)], 200e6, 30000.0);
    let t = TapVector::from_components(&components);
    for b in t.to_bytes() {
        assert_eq!(b, 0);
    }
}

#[test]
fn lossless_reference_path_carries_the_phasor() {
    // A zero-loss path contributes 32767·e^{j phase}; at 10 ns excess delay
    // it lands in tap 2 (10 ns / 5 ns per tap).
    let delay = 10e-9f32;
    let phase = 2.0 * std::f32::consts::PI * delay * 2.45e9;
    let components = synthesize(&[(0.0, delay, 0.0)], 200e6, 30000.0);
    let expected_re = (32767.0 * phase.cos()) as i32;
    let expected_im = (32767.0 * phase.sin()) as i32;
    assert_eq!(components[2], (expected_re, expected_im));
    let t = TapVector::from_components(&components);
    let b = t.to_bytes();
    assert_eq!(&b[4..6], &(clamp_tap(expected_re)).to_be_bytes());
    assert_eq!(&b[86..88], &(clamp_tap(expected_im)).to_be_bytes());
}
