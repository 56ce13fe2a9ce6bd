use wallrus::wallpaper::{file_uri, set_gnome_wallpaper, WallpaperMode};

#[test]
fn file_uri_prefixes_the_scheme() {
    assert_eq!(file_uri("/home/user/w.png"), "file:///home/user/w.png");
}

#[test]
fn both_mode_sets_light_then_dark() {
    let settings = set_gnome_wallpaper("file:///l.png", "file:///d.png", WallpaperMode::Both);
    assert_eq!(settings.len(), 2);
    assert!(!settings[0].dark);
    assert_eq!(settings[0].uri, "file:///l.png");
    assert_eq!(settings[0].key(), "picture-uri");
    assert!(settings[1].dark);
    assert_eq!(settings[1].uri, "file:///d.png");
    assert_eq!(settings[1].key(), "picture-uri-dark");
}

#[test]
fn light_only_sets_one_key() {
    let settings =
        set_gnome_wallpaper("file:///l.png", "file:///d.png", WallpaperMode::LightOnly);
    assert_eq!(settings.len(), 1);
    assert!(!settings[0].dark);
    assert_eq!(settings[0].uri, "file:///l.png");
}

#[test]
fn dark_only_sets_one_key() {
    let settings =
        set_gnome_wallpaper("file:///l.png", "file:///d.png", WallpaperMode::DarkOnly);
    assert_eq!(settings.len(), 1);
    assert!(settings[0].dark);
    assert_eq!(settings[0].uri, "file:///d.png");
}
