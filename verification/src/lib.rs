//! Perceptual image fingerprinting by directional gradient (dHash-style)
//! hashing, with Hamming-distance comparison of the resulting bit sequences.

pub mod distance;
pub mod grid;
pub mod hash;
pub mod source;

pub use distance::hamming_distance;
pub use distance::HashError;
pub use grid::NormalizedImage;
pub use hash::compute_fingerprint;
pub use hash::get_image_hash;
pub use hash::horizontal_hash;
pub use hash::vertical_hash;
pub use source::normalize;
pub use source::reduce_size;
