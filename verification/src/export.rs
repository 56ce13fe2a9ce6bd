//! Export resolutions and formats for high-resolution still exports.

use vstd::prelude::*;

verus! {

/// Export resolution presets.
#[derive(Debug, Clone, Copy, PartialEq, Eq, Structural)]
pub enum ExportResolution {
    Hd,
    Qhd,
    Uhd4k,
}

/// Pixel count of the resolution preset at `i` in display order.
pub open spec fn spec_res_pixels(i: int) -> int {
    if i == 0 {
        1920int * 1080
    } else if i == 1 {
        2560int * 1440
    } else {
        3840int * 2160
    }
}

/// Distance between a display's pixel count and preset `i`'s pixel count.
pub open spec fn spec_res_diff(display_pixels: int, i: int) -> int {
    let d = display_pixels - spec_res_pixels(i);
    if d < 0 {
        -d
    } else {
        d
    }
}

impl ExportResolution {
    pub fn dimensions(self) -> (r: (u32, u32))
        ensures
            self == ExportResolution::Hd ==> r == (1920u32, 1080u32),
            self == ExportResolution::Qhd ==> r == (2560u32, 1440u32),
            self == ExportResolution::Uhd4k ==> r == (3840u32, 2160u32),
    {
        match self {
            ExportResolution::Hd => (1920, 1080),
            ExportResolution::Qhd => (2560, 1440),
            ExportResolution::Uhd4k => (3840, 2160),
        }
    }

    pub fn label(self) -> (r: &'static str)
        ensures
            self == ExportResolution::Hd ==> r@ == "1080p (1920x1080)"@,
            self == ExportResolution::Qhd ==> r@ == "1440p (2560x1440)"@,
            self == ExportResolution::Uhd4k ==> r@ == "4K (3840x2160)"@,
    {
        match self {
            ExportResolution::Hd => "1080p (1920x1080)",
            ExportResolution::Qhd => "1440p (2560x1440)",
            ExportResolution::Uhd4k => "4K (3840x2160)",
        }
    }

    pub fn from_index(index: u32) -> (r: Self)
        ensures
            index == 0 ==> r == ExportResolution::Hd,
            index == 1 ==> r == ExportResolution::Qhd,
            index == 2 ==> r == ExportResolution::Uhd4k,
            index > 2 ==> r == ExportResolution::Hd,
    {
        match index {
            0 => ExportResolution::Hd,
            1 => ExportResolution::Qhd,
            2 => ExportResolution::Uhd4k,
            _ => ExportResolution::Hd,
        }
    }

    /// Index of the resolution preset closest to the given display
    /// dimensions by total pixel count; ties go to the earlier preset.
    pub fn best_index_for_display(width: i32, height: i32) -> (r: u32)
        requires
            0 <= width,
            0 <= height,
        ensures
            r < 3,
            forall|i: int|
                0 <= i < 3 ==> spec_res_diff(width * height, r as int) <= #[trigger] spec_res_diff(
                    width * height,
                    i,
                ),
            forall|i: int|
                0 <= i < r ==> #[trigger] spec_res_diff(width * height, i) > spec_res_diff(
                    width * height,
                    r as int,
                ),
    {
        let wp: u64 = width as u64;
        let hp: u64 = height as u64;
        proof {
            assert(wp * hp <= 0x7fffffffu64 * 0x7fffffffu64) by (nonlinear_arith)
                requires
                    wp <= 0x7fffffff,
                    hp <= 0x7fffffff,
            ;
        }
        let display_pixels: u64 = wp * hp;
        let resolutions: [ExportResolution; 3] = [
            ExportResolution::Hd,
            ExportResolution::Qhd,
            ExportResolution::Uhd4k,
        ];
        let mut best_idx: u32 = 0;
        let mut best_diff: u64 = u64::MAX;
        let mut i: usize = 0;
        while i < 3
            invariant
                0 <= width,
                0 <= height,
                display_pixels == width * height,
                i <= 3,
                i == 0 ==> best_diff == u64::MAX,
                i > 0 ==> best_idx < i && best_diff == spec_res_diff(
                    display_pixels as int,
                    best_idx as int,
                ),
                forall|j: int|
                    0 <= j < i ==> best_diff <= #[trigger] spec_res_diff(display_pixels as int, j),
                forall|j: int|
                    0 <= j < best_idx ==> #[trigger] spec_res_diff(display_pixels as int, j)
                        > best_diff,
            decreases 3 - i,
        {
            let res = if i == 0 {
                ExportResolution::Hd
            } else if i == 1 {
                ExportResolution::Qhd
            } else {
                ExportResolution::Uhd4k
            };
            let (w, h) = res.dimensions();
            let pixels: u64 = (w as u64) * (h as u64);
            assert(pixels == spec_res_pixels(i as int));
            let diff: u64 = if display_pixels >= pixels {
                display_pixels - pixels
            } else {
                pixels - display_pixels
            };
            assert(diff == spec_res_diff(display_pixels as int, i as int));
            if diff < best_diff {
                best_diff = diff;
                best_idx = i as u32;
            }
            i += 1;
        }
        best_idx
    }
}

/// The RGB bytes of a tightly packed RGBA buffer: the alpha byte dropped
/// from each pixel, which is how an RGBA capture converts to RGB for a
/// format without transparency.
pub open spec fn spec_rgb_of_rgba(p: Seq<u8>) -> Seq<u8> {
    Seq::new(p.len() / 4 * 3, |i: int| p[i / 3 * 4 + i % 3])
}

/// Drops the alpha byte of each pixel of a tightly packed RGBA buffer.
pub fn rgba_to_rgb(pixels: &Vec<u8>) -> (r: Vec<u8>)
    ensures
        r@ == spec_rgb_of_rgba(pixels@),
{
    let n: usize = pixels.len();
    let count: usize = n / 4;
    proof {
        assert(4 * count <= pixels@.len()) by (nonlinear_arith)
            requires
                count == pixels@.len() / 4,
        ;
    }
    let mut out: Vec<u8> = Vec::new();
    let mut j: usize = 0;
    while j < count
        invariant
            count == pixels@.len() / 4,
            4 * count <= pixels@.len(),
            pixels@.len() <= usize::MAX,
            j <= count,
            out@.len() == 3 * j,
            forall|i: int|
                0 <= i < out@.len() ==> out@[i] == pixels@[i / 3 * 4 + i % 3],
        decreases count - j,
    {
        out.push(pixels[4 * j]);
        out.push(pixels[4 * j + 1]);
        out.push(pixels[4 * j + 2]);
        proof {
            let base = 3 * (j as int);
            vstd::arithmetic::div_mod::lemma_fundamental_div_mod_converse_div(base, 3, j as int, 0);
            vstd::arithmetic::div_mod::lemma_fundamental_div_mod_converse_mod(base, 3, j as int, 0);
            vstd::arithmetic::div_mod::lemma_fundamental_div_mod_converse_div(
                base + 1,
                3,
                j as int,
                1,
            );
            vstd::arithmetic::div_mod::lemma_fundamental_div_mod_converse_mod(
                base + 1,
                3,
                j as int,
                1,
            );
            vstd::arithmetic::div_mod::lemma_fundamental_div_mod_converse_div(
                base + 2,
                3,
                j as int,
                2,
            );
            vstd::arithmetic::div_mod::lemma_fundamental_div_mod_converse_mod(
                base + 2,
                3,
                j as int,
                2,
            );
        }
        j += 1;
    }
    proof {
        assert(out@ =~= spec_rgb_of_rgba(pixels@));
    }
    out
}

/// Export image format.
#[derive(Debug, Clone, Copy, PartialEq, Eq, Structural)]
pub enum ExportFormat {
    Png,
    Jpeg,
}

impl ExportFormat {
    pub fn extension(self) -> (r: &'static str)
        ensures
            self == ExportFormat::Png ==> r@ == "png"@,
            self == ExportFormat::Jpeg ==> r@ == "jpg"@,
    {
        match self {
            ExportFormat::Png => "png",
            ExportFormat::Jpeg => "jpg",
        }
    }
}

} // verus!
