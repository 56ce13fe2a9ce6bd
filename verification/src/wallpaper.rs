//! Desktop wallpaper settings: which background keys a wallpaper
//! application sets, and the file URI each key receives. The driver runs
//! the settings tool on each returned assignment.

use vstd::prelude::*;

verus! {

/// Which appearance(s) to set the wallpaper for.
#[derive(Debug, Clone, Copy, PartialEq, Eq, Structural)]
pub enum WallpaperMode {
    Both,
    LightOnly,
    DarkOnly,
}

/// One background assignment: the dark-appearance key or the light one,
/// and the file URI to set it to.
#[derive(Debug, Clone, PartialEq, Eq)]
pub struct WallpaperSetting {
    pub dark: bool,
    pub uri: String,
}

impl WallpaperSetting {
    /// The desktop background key this assignment writes.
    pub fn key(&self) -> (r: &'static str)
        ensures
            self.dark ==> r@ == "picture-uri-dark"@,
            !self.dark ==> r@ == "picture-uri"@,
    {
        if self.dark {
            "picture-uri-dark"
        } else {
            "picture-uri"
        }
    }
}

/// The file URI of an absolute filesystem path.
pub fn file_uri(abs_path: &str) -> (r: String)
    ensures
        r@ == "file://"@ + abs_path@,
{
    "file://".to_owned().concat(abs_path)
}

/// Decides the background assignments of a wallpaper application: separate
/// URIs for light and dark appearance, so the desktop treats them as
/// distinct files. `Both` sets the light key first, then the dark one.
pub fn set_gnome_wallpaper(light_uri: &str, dark_uri: &str, mode: WallpaperMode) -> (r: Vec<
    WallpaperSetting,
>)
    ensures
        mode == WallpaperMode::Both ==> r@.len() == 2 && !r@[0].dark && r@[0].uri@ == light_uri@
            && r@[1].dark && r@[1].uri@ == dark_uri@,
        mode == WallpaperMode::LightOnly ==> r@.len() == 1 && !r@[0].dark && r@[0].uri@
            == light_uri@,
        mode == WallpaperMode::DarkOnly ==> r@.len() == 1 && r@[0].dark && r@[0].uri@
            == dark_uri@,
{
    let mut r: Vec<WallpaperSetting> = Vec::new();
    match mode {
        WallpaperMode::Both => {
            r.push(WallpaperSetting { dark: false, uri: light_uri.to_owned() });
            r.push(WallpaperSetting { dark: true, uri: dark_uri.to_owned() });
        },
        WallpaperMode::LightOnly => {
            r.push(WallpaperSetting { dark: false, uri: light_uri.to_owned() });
        },
        WallpaperMode::DarkOnly => {
            r.push(WallpaperSetting { dark: true, uri: dark_uri.to_owned() });
        },
    }
    r
}

} // verus!
