use wallrus::capture::{capture_buffer_len, flip_rows};

#[test]
fn flip_two_rows() {
    // A 1x2 RGBA buffer: the two rows swap.
    let pixels: Vec<u8> = vec![1, 2, 3, 4, 5, 6, 7, 8];
    let flipped = flip_rows(&pixels, 1, 2);
    assert_eq!(flipped, vec![5, 6, 7, 8, 1, 2, 3, 4]);
}

#[test]
fn flip_square() {
    // A 2x2 RGBA buffer: row order reverses, column order within a row is
    // kept.
    let row0: Vec<u8> = vec![0, 1, 2, 3, 4, 5, 6, 7];
    let row1: Vec<u8> = vec![10, 11, 12, 13, 14, 15, 16, 17];
    let mut pixels = row0.clone();
    pixels.extend(row1.clone());
    let flipped = flip_rows(&pixels, 2, 2);
    let mut expected = row1;
    expected.extend(row0);
    assert_eq!(flipped, expected);
}

#[test]
fn flip_single_row_is_identity() {
    let pixels: Vec<u8> = vec![9, 8, 7, 6, 5, 4, 3, 2];
    assert_eq!(flip_rows(&pixels, 2, 1), pixels);
}

#[test]
fn flip_twice_is_identity() {
    let pixels: Vec<u8> = (0u8..48).collect();
    let twice = flip_rows(&flip_rows(&pixels, 3, 4), 3, 4);
    assert_eq!(twice, pixels);
}

#[test]
fn flip_empty() {
    let pixels: Vec<u8> = Vec::new();
    assert!(flip_rows(&pixels, 0, 17).is_empty());
}

#[test]
fn capture_len_counts_four_bytes_per_pixel() {
    assert_eq!(capture_buffer_len(64, 64), Some(64 * 64 * 4));
    assert_eq!(capture_buffer_len(1920, 1080), Some(1920 * 1080 * 4));
    assert_eq!(capture_buffer_len(0, 100), Some(0));
}

#[test]
fn capture_len_rejects_negative_sizes() {
    assert_eq!(capture_buffer_len(-1, 64), None);
    assert_eq!(capture_buffer_len(64, -1), None);
}
