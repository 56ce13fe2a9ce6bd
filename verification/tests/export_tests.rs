use wallrus::export::{rgba_to_rgb, ExportFormat, ExportResolution};

#[test]
fn resolution_dimensions() {
    assert_eq!(ExportResolution::Hd.dimensions(), (1920, 1080));
    assert_eq!(ExportResolution::Qhd.dimensions(), (2560, 1440));
    assert_eq!(ExportResolution::Uhd4k.dimensions(), (3840, 2160));
}

#[test]
fn resolution_labels() {
    assert_eq!(ExportResolution::Hd.label(), "1080p (1920x1080)");
    assert_eq!(ExportResolution::Qhd.label(), "1440p (2560x1440)");
    assert_eq!(ExportResolution::Uhd4k.label(), "4K (3840x2160)");
}

#[test]
fn resolution_from_index() {
    assert!(matches!(ExportResolution::from_index(0), ExportResolution::Hd));
    assert!(matches!(ExportResolution::from_index(1), ExportResolution::Qhd));
    assert!(matches!(ExportResolution::from_index(2), ExportResolution::Uhd4k));
    assert!(matches!(ExportResolution::from_index(7), ExportResolution::Hd));
}

#[test]
fn best_index_exact_matches() {
    assert_eq!(ExportResolution::best_index_for_display(1920, 1080), 0);
    assert_eq!(ExportResolution::best_index_for_display(2560, 1440), 1);
    assert_eq!(ExportResolution::best_index_for_display(3840, 2160), 2);
}

#[test]
fn best_index_small_and_large_displays() {
    assert_eq!(ExportResolution::best_index_for_display(100, 100), 0);
    assert_eq!(ExportResolution::best_index_for_display(0, 0), 0);
    assert_eq!(ExportResolution::best_index_for_display(10000, 10000), 2);
    // 2048x1152 is closer to 1920x1080 than to 2560x1440.
    assert_eq!(ExportResolution::best_index_for_display(2048, 1152), 0);
}

#[test]
fn format_extensions() {
    assert_eq!(ExportFormat::Png.extension(), "png");
    assert_eq!(ExportFormat::Jpeg.extension(), "jpg");
}

#[test]
fn rgba_to_rgb_drops_alpha() {
    let rgba: Vec<u8> = vec![1, 2, 3, 255, 4, 5, 6, 128];
    assert_eq!(rgba_to_rgb(&rgba), vec![1, 2, 3, 4, 5, 6]);
}

#[test]
fn rgba_to_rgb_empty() {
    let rgba: Vec<u8> = Vec::new();
    assert!(rgba_to_rgb(&rgba).is_empty());
}
