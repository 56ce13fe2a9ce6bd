use wallrus::palette::{
    extract_colors_from_image, is_image_file, list_palette_categories, PaletteEntry,
    PaletteError,
};
use wallrus::text::{capitalize_first, eq_ignore_ascii_case, str_eq, str_lt};

fn entry(category: Option<&str>, file_name: &str, extension: &str, path: &str) -> PaletteEntry {
    PaletteEntry {
        category: category.map(|c| c.to_string()),
        file_name: file_name.to_string(),
        extension: extension.to_string(),
        path: path.to_string(),
    }
}

#[test]
fn extract_from_one_by_four_palette() {
    // A 1x4 image: one pixel per color, top to bottom.
    let raw: Vec<u8> = vec![10, 11, 12, 20, 21, 22, 30, 31, 32, 40, 41, 42];
    let colors = extract_colors_from_image(1, 4, raw).expect("well-formed palette image");
    assert_eq!(colors.c1, (10, 11, 12));
    assert_eq!(colors.c2, (20, 21, 22));
    assert_eq!(colors.c3, (30, 31, 32));
    assert_eq!(colors.c4, (40, 41, 42));
}

#[test]
fn extract_samples_band_centers_of_larger_images() {
    // A 2x4 image: the center column is x = 1.
    let mut raw: Vec<u8> = Vec::new();
    for y in 0..4u8 {
        raw.extend([100 + y, 0, 0]); // x = 0
        raw.extend([y, 1, 2]); // x = 1, the sampled column
    }
    let colors = extract_colors_from_image(2, 4, raw).expect("well-formed palette image");
    assert_eq!(colors.c1, (0, 1, 2));
    assert_eq!(colors.c2, (1, 1, 2));
    assert_eq!(colors.c3, (2, 1, 2));
    assert_eq!(colors.c4, (3, 1, 2));
}

#[test]
fn extract_rejects_zero_dimensions() {
    assert_eq!(
        extract_colors_from_image(0, 4, vec![]),
        Err(PaletteError::ZeroDimensions)
    );
    assert_eq!(
        extract_colors_from_image(4, 0, vec![]),
        Err(PaletteError::ZeroDimensions)
    );
}

#[test]
fn extract_rejects_short_buffers() {
    assert_eq!(
        extract_colors_from_image(2, 2, vec![1, 2, 3]),
        Err(PaletteError::BufferTooSmall)
    );
}

#[test]
fn image_file_extensions() {
    assert!(is_image_file("png"));
    assert!(is_image_file("PNG"));
    assert!(is_image_file("jpg"));
    assert!(is_image_file("JpEg"));
    assert!(is_image_file("webp"));
    assert!(!is_image_file("txt"));
    assert!(!is_image_file(""));
    assert!(!is_image_file("pngx"));
}

#[test]
fn capitalize_first_letters() {
    assert_eq!(capitalize_first("warm"), "Warm");
    assert_eq!(capitalize_first("Warm"), "Warm");
    assert_eq!(capitalize_first(""), "");
    // The German sharp s upper-cases to two characters.
    assert_eq!(capitalize_first("ße"), "SSe");
}

#[test]
fn text_comparisons() {
    assert!(str_eq("abc", "abc"));
    assert!(!str_eq("abc", "abd"));
    assert!(!str_eq("abc", "ab"));
    assert!(str_lt("abc", "abd"));
    assert!(str_lt("ab", "abc"));
    assert!(!str_lt("abc", "abc"));
    assert!(!str_lt("b", "abc"));
    assert!(eq_ignore_ascii_case("WeBp", "webp"));
    assert!(!eq_ignore_ascii_case("webp", "webq"));
}

#[test]
fn categories_are_grouped_and_sorted() {
    let entries = vec![
        entry(Some("warm"), "b.png", "png", "/p/warm/b.png"),
        entry(None, "z.jpg", "jpg", "/p/z.jpg"),
        entry(Some("cool"), "a.png", "png", "/p/cool/a.png"),
        entry(Some("warm"), "a.png", "png", "/p/warm/a.png"),
        entry(Some("warm"), "notes.txt", "txt", "/p/warm/notes.txt"),
    ];
    let cats = list_palette_categories(&entries);
    assert_eq!(cats.len(), 3);
    assert_eq!(cats[0].name, "Cool");
    assert_eq!(cats[1].name, "Uncategorized");
    assert_eq!(cats[2].name, "Warm");
    assert_eq!(cats[0].images.len(), 1);
    assert_eq!(cats[0].images[0].path, "/p/cool/a.png");
    assert_eq!(cats[1].images.len(), 1);
    assert_eq!(cats[1].images[0].path, "/p/z.jpg");
    // Images within a category are ordered by file name; the text file
    // was skipped.
    assert_eq!(cats[2].images.len(), 2);
    assert_eq!(cats[2].images[0].file_name, "a.png");
    assert_eq!(cats[2].images[1].file_name, "b.png");
}

#[test]
fn categories_of_no_image_entries_are_empty() {
    let entries = vec![entry(Some("warm"), "notes.txt", "txt", "/p/warm/notes.txt")];
    let cats = list_palette_categories(&entries);
    assert!(cats.is_empty());
}
