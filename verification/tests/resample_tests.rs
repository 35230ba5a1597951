use potato_voice::resample;

#[test]
fn resample_equal_rates_is_identity() {
    let input: Vec<i16> = vec![0, 1, -1, 32767, -32768, 500];
    let out = resample(&input, 44100, 44100);
    assert_eq!(out, input);
}

#[test]
fn resample_equal_rates_identity_on_empty() {
    let input: Vec<i16> = vec![];
    let out = resample(&input, 8000, 8000);
    assert_eq!(out, input);
}

#[test]
fn resample_downsample_selects_nearest_lower_index() {
    let input: Vec<i16> = vec![10, 11, 12, 13, 14, 15, 16, 17, 18, 19];
    // Ratio 2: output index i reads input index 2 * i.
    let out = resample(&input, 32000, 16000);
    assert_eq!(out, vec![10, 12, 14, 16, 18]);
}

#[test]
fn resample_upsample_repeats_samples() {
    let input: Vec<i16> = vec![1, 2];
    // Ratio 1/2: output index i reads input index i / 2.
    let out = resample(&input, 8000, 16000);
    assert_eq!(out, vec![1, 1, 2, 2]);
}

#[test]
fn resample_non_integral_ratio() {
    let input: Vec<i16> = vec![100, 200, 300];
    // 3 samples at 48 kHz make floor(3 * 16 / 48) = 1 sample at 16 kHz.
    let out = resample(&input, 48000, 16000);
    assert_eq!(out, vec![100]);
}

#[test]
fn resample_length_within_scaled_bound() {
    let cases: &[(usize, u32, u32)] = &[
        (10, 44100, 16000),
        (10, 16000, 44100),
        (7, 3, 2),
        (7, 2, 3),
        (1, 48000, 16000),
        (0, 8000, 16000),
    ];
    for &(len, src, dst) in cases {
        let input: Vec<i16> = (0..len as i16).collect();
        let out = resample(&input, src, dst);
        // ceil(len * dst / src), computed exactly in wide integers.
        let bound = (len as u64 * dst as u64).div_ceil(src as u64);
        assert!((out.len() as u64) <= bound, "len {} src {} dst {}", len, src, dst);
    }
}
