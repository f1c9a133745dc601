use fft_spectrum::fft_shift_frequencies;
use fft_spectrum::generate_frequencies;
use fft_spectrum::SpectrumError;

#[test]
fn four_bins_unshifted_order() {
    let numerators = generate_frequencies(4).unwrap();
    assert_eq!(numerators, vec![0, 1, -2, -1]);
    // With a sampling interval of one second the axis is numerator / 4.
    let bins: Vec<f64> = numerators.iter().map(|k| *k as f64 / 4.0).collect();
    assert_eq!(bins, vec![0.0, 0.25, -0.5, -0.25]);
}

#[test]
fn four_bins_shifted_are_centered() {
    let numerators = generate_frequencies(4).unwrap();
    let bins: Vec<f64> = numerators.iter().map(|k| *k as f64 / 4.0).collect();
    let shifted = fft_shift_frequencies(bins).unwrap();
    assert_eq!(shifted, vec![-0.5, -0.25, 0.0, 0.25]);
}

#[test]
fn five_bins_split_at_integer_half() {
    let numerators = generate_frequencies(5).unwrap();
    assert_eq!(numerators, vec![0, 1, -3, -2, -1]);
}

#[test]
fn single_bin() {
    assert_eq!(generate_frequencies(1).unwrap(), vec![-1]);
}

#[test]
fn zero_length_is_rejected() {
    let err = generate_frequencies(0).unwrap_err();
    assert!(matches!(err, SpectrumError::InvalidLength));
}
