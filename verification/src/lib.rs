//! A small numeric toolkit around the spectrum of a sampled signal: CSV
//! ingestion of a two-column time series, FFT shift, and frequency-bin
//! generation, with the index and ordering logic verified. The floating-point
//! stages that surround these (the transform itself, magnitudes, plotting)
//! live with the host embedding.

mod csv_data;
mod error;
mod freq;
mod shift;

pub use csv_data::csv_records;
pub use csv_data::first_fields;
pub use csv_data::read_csv;
pub use csv_data::second_fields;
pub use error::SpectrumError;
pub use freq::freq_numerator;
pub use freq::generate_frequencies;
pub use shift::fft_shift;
pub use shift::fft_shift_frequencies;
pub use shift::lemma_rotate_half_twice;
pub use shift::lemma_rotate_half_twice_odd_fixed;
pub use shift::rotate_half;
