use image::DynamicImage;
use image::GrayImage;
use seraph::NormalizedImage;

fn gray_image(width: u32, height: u32, pixels: Vec<u8>) -> DynamicImage {
    DynamicImage::ImageLuma8(GrayImage::from_raw(width, height, pixels).unwrap())
}

#[test]
fn one_by_one_image_normalizes_to_full_grid() {
    // A degenerate 1x1 source must still produce the 9x8 grid: the single
    // intensity is spread over all 72 cells, every gradient ties, and the
    // fingerprint is all zeros.
    let img = gray_image(1, 1, vec![42]);
    let normalized = seraph::normalize(&img);
    for y in 0..8 {
        for x in 0..9 {
            assert_eq!(normalized.pixel(x, y), 42);
        }
    }
    let fp = seraph::compute_fingerprint(&img);
    assert_eq!(fp, vec![0u8; 128]);
}

#[test]
fn grid_sized_image_normalizes_to_its_own_pixels() {
    // A 9x8 grayscale source needs no resampling, so normalization must
    // hand back exactly the source intensities.
    let pixels: Vec<u8> = (0..72u8).map(|i| i.wrapping_mul(3)).collect();
    let img = gray_image(9, 8, pixels.clone());
    let normalized = seraph::normalize(&img);
    for y in 0..8 {
        for x in 0..9 {
            assert_eq!(normalized.pixel(x, y), pixels[y * 9 + x]);
        }
    }
    let direct = NormalizedImage::from_pixels(pixels).unwrap();
    assert_eq!(
        seraph::compute_fingerprint(&img),
        seraph::get_image_hash(&direct)
    );
}

#[test]
fn fingerprint_is_repeatable() {
    let pixels: Vec<u8> = (0..72u8).map(|i| 255 - i.wrapping_mul(5)).collect();
    let img = gray_image(9, 8, pixels);
    let first = seraph::compute_fingerprint(&img);
    let second = seraph::compute_fingerprint(&img);
    assert_eq!(first, second);
    assert_eq!(seraph::hamming_distance(&first, &second), Ok(0));
}

#[test]
fn wrong_pixel_count_is_rejected() {
    assert!(NormalizedImage::from_pixels(vec![0; 71]).is_none());
    assert!(NormalizedImage::from_pixels(vec![0; 73]).is_none());
    assert!(NormalizedImage::from_pixels(vec![0; 72]).is_some());
}

#[test]
fn batch_reduction_keeps_order_and_count() {
    let bright = gray_image(3, 2, vec![200; 6]);
    let dark = gray_image(1, 1, vec![10]);
    let grids = seraph::reduce_size(vec![bright, dark]);
    assert_eq!(grids.len(), 2);
    assert_eq!(grids[0].pixel(0, 0), 200);
    assert_eq!(grids[1].pixel(8, 7), 10);
}
