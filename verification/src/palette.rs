//! Palette handling: extracting four colors from a decoded palette image,
//! recognizing palette image files, and organizing scanned palette files
//! into sorted categories.

use vstd::prelude::*;

use crate::image_buffers::{decoded_from_raw, rgb_pixel_at};
use crate::image_buffers::{rgb_image_dims, rgb_image_pixels};
use crate::text::{
    capitalize_first, eq_ignore_ascii_case, lemma_str_le_not_gt, lemma_str_le_trans,
    lemma_str_lt_total, lemma_str_lt_trans, spec_capitalize_first, spec_is_image_extension,
    spec_lower_ascii, spec_str_lt, str_eq, str_lt,
};

verus! {

/// The four palette colors read from a palette image, top band first.
#[derive(Debug, Clone, Copy, PartialEq, Eq)]
pub struct PaletteColors {
    pub c1: (u8, u8, u8),
    pub c2: (u8, u8, u8),
    pub c3: (u8, u8, u8),
    pub c4: (u8, u8, u8),
}

/// Why a palette image yielded no colors.
#[derive(Debug, Clone, Copy, PartialEq, Eq, Structural)]
pub enum PaletteError {
    /// The image has a zero dimension.
    ZeroDimensions,
    /// The byte buffer is smaller than three bytes per pixel.
    BufferTooSmall,
}

/// The sampling row of band `i` out of four: the band's center row,
/// clamped to the bottom row.
pub open spec fn spec_sample_y(height: u32, i: int) -> int {
    let bh = height as int / 4;
    let cy = bh * i + bh / 2;
    if cy <= height - 1 {
        cy
    } else {
        height as int - 1
    }
}

/// The RGB bytes of the pixel at the center column of band `i`, read from
/// a tightly packed row-major RGB buffer.
pub open spec fn spec_sampled_color(raw: Seq<u8>, width: u32, height: u32, i: int) -> (
    u8,
    u8,
    u8,
) {
    let x = width as int / 2;
    let y = spec_sample_y(height, i);
    let base = 3 * (y * width + x);
    (raw[base], raw[base + 1], raw[base + 2])
}

/// The sampling row of band `i`, as `spec_sample_y` gives it.
fn sample_y(height: u32, i: u32) -> (r: u32)
    requires
        height > 0,
        i < 4,
    ensures
        r == spec_sample_y(height, i as int),
        r < height,
{
    let bh = height / 4;
    proof {
        assert(bh <= 0x3fffffffu32) by (nonlinear_arith)
            requires
                bh == height as int / 4,
                height <= 0xffffffffu32,
        ;
        assert(bh * i <= bh * 3) by (nonlinear_arith)
            requires
                i <= 3,
                0 <= bh,
        ;
    }
    let cy = bh * i + bh / 2;
    if cy <= height - 1 {
        cy
    } else {
        height - 1
    }
}

/// Extracts four palette colors from a decoded image given as tightly
/// packed row-major RGB bytes.
///
/// The image is divided into four horizontal bands and the pixel at the
/// center of each band is sampled, top band first — a 1 by 4 palette
/// image yields its four pixels. Zero-sized images and too-short buffers
/// are errors.
pub fn extract_colors_from_image(width: u32, height: u32, raw: Vec<u8>) -> (r: Result<
    PaletteColors,
    PaletteError,
>)
    ensures
        (r is Ok) == (width > 0 && height > 0 && 3 * width * height <= raw@.len() && 3 * width
            * height <= usize::MAX),
        r is Ok ==> r->Ok_0.c1 == spec_sampled_color(raw@, width, height, 0),
        r is Ok ==> r->Ok_0.c2 == spec_sampled_color(raw@, width, height, 1),
        r is Ok ==> r->Ok_0.c3 == spec_sampled_color(raw@, width, height, 2),
        r is Ok ==> r->Ok_0.c4 == spec_sampled_color(raw@, width, height, 3),
        width == 0 || height == 0 ==> r == Err::<PaletteColors, PaletteError>(
            PaletteError::ZeroDimensions,
        ),
{
    if width == 0 || height == 0 {
        return Err(PaletteError::ZeroDimensions);
    }
    let ghost raw0 = raw@;
    let img = match decoded_from_raw(width, height, raw) {
        Some(img) => img,
        None => {
            return Err(PaletteError::BufferTooSmall);
        },
    };
    let cx = width / 2;
    let y0 = sample_y(height, 0);
    let y1 = sample_y(height, 1);
    let y2 = sample_y(height, 2);
    let y3 = sample_y(height, 3);
    proof {
        assert(rgb_image_dims(img) == (width, height));
    }
    let c1 = rgb_pixel_at(&img, cx, y0);
    let c2 = rgb_pixel_at(&img, cx, y1);
    let c3 = rgb_pixel_at(&img, cx, y2);
    let c4 = rgb_pixel_at(&img, cx, y3);
    proof {
        assert(rgb_image_pixels(img)[(cx, y0)] == spec_sampled_color(raw0, width, height, 0));
        assert(rgb_image_pixels(img)[(cx, y1)] == spec_sampled_color(raw0, width, height, 1));
        assert(rgb_image_pixels(img)[(cx, y2)] == spec_sampled_color(raw0, width, height, 2));
        assert(rgb_image_pixels(img)[(cx, y3)] == spec_sampled_color(raw0, width, height, 3));
    }
    Ok(PaletteColors { c1, c2, c3, c4 })
}

/// Whether a file extension names a supported palette image format,
/// compared without regard to ASCII case.
pub fn is_image_file(extension: &str) -> (r: bool)
    ensures
        r == spec_is_image_extension(extension@),
{
    proof {
        lemma_image_extension_literals();
    }
    eq_ignore_ascii_case(extension, "png") || eq_ignore_ascii_case(extension, "jpg")
        || eq_ignore_ascii_case(extension, "jpeg") || eq_ignore_ascii_case(extension, "webp")
}

/// One scanned file from a palette directory, as the driver hands it in.
#[derive(Debug, Clone)]
pub struct PaletteEntry {
    /// The subfolder the file sits in, or `None` for a file in the root.
    pub category: Option<String>,
    /// The file's name, used for ordering within a category.
    pub file_name: String,
    /// The file's extension, or an empty string where it has none.
    pub extension: String,
    /// The full path, carried through to the result.
    pub path: String,
}

/// One palette image in a category.
#[derive(Debug, Clone)]
pub struct PaletteImage {
    pub file_name: String,
    pub path: String,
}

/// A named category of palette images.
#[derive(Debug, Clone)]
pub struct PaletteCategory {
    pub name: String,
    pub images: Vec<PaletteImage>,
}

/// Whether a scanned file is a palette image.
pub open spec fn spec_entry_is_image(e: PaletteEntry) -> bool {
    spec_is_image_extension(e.extension@)
}

/// The category a scanned file lands in: its subfolder's name with the
/// first letter capitalized, or `Uncategorized` for files in the root.
pub open spec fn spec_entry_category(e: PaletteEntry) -> Seq<char> {
    match e.category {
        Some(c) => spec_capitalize_first(c@),
        None => "Uncategorized"@,
    }
}

/// An image with the category it belongs to, before grouping.
#[derive(Debug, Clone)]
struct FlatImage {
    cat: String,
    file_name: String,
    path: String,
}

/// Order on (category, file name) keys: by category first, then by file
/// name, equal keys allowed.
pub open spec fn spec_key_le(c1: Seq<char>, f1: Seq<char>, c2: Seq<char>, f2: Seq<char>) -> bool {
    spec_str_lt(c1, c2) || (c1 == c2 && (spec_str_lt(f1, f2) || f1 == f2))
}

/// The key order is total.
proof fn lemma_key_le_total(c1: Seq<char>, f1: Seq<char>, c2: Seq<char>, f2: Seq<char>)
    requires
        !spec_key_le(c1, f1, c2, f2),
    ensures
        spec_key_le(c2, f2, c1, f1),
{
    if !spec_str_lt(c2, c1) {
        lemma_str_lt_total(c1, c2);
        if !spec_str_lt(f2, f1) {
            lemma_str_lt_total(f1, f2);
        }
    }
}

/// The key order is transitive.
proof fn lemma_key_le_trans(
    c1: Seq<char>,
    f1: Seq<char>,
    c2: Seq<char>,
    f2: Seq<char>,
    c3: Seq<char>,
    f3: Seq<char>,
)
    requires
        spec_key_le(c1, f1, c2, f2),
        spec_key_le(c2, f2, c3, f3),
    ensures
        spec_key_le(c1, f1, c3, f3),
{
    if spec_str_lt(c1, c2) && spec_str_lt(c2, c3) {
        lemma_str_lt_trans(c1, c2, c3);
    }
    if c1 == c2 && c2 == c3 {
        if spec_str_lt(f1, f2) && spec_str_lt(f2, f3) {
            lemma_str_lt_trans(f1, f2, f3);
        }
    }
}

/// A flat image list sorted by (category, file name).
spec fn spec_flat_sorted(s: Seq<FlatImage>) -> bool {
    forall|a: int, b: int|
        0 <= a < b < s.len() ==> spec_key_le(
            (#[trigger] s[a]).cat@,
            s[a].file_name@,
            (#[trigger] s[b]).cat@,
            s[b].file_name@,
        )
}

/// Compares two flat images in the key order.
fn key_le(a: &FlatImage, b: &FlatImage) -> (r: bool)
    ensures
        r == spec_key_le(a.cat@, a.file_name@, b.cat@, b.file_name@),
{
    if str_lt(a.cat.as_str(), b.cat.as_str()) {
        true
    } else if str_eq(a.cat.as_str(), b.cat.as_str()) {
        str_lt(a.file_name.as_str(), b.file_name.as_str()) || str_eq(
            a.file_name.as_str(),
            b.file_name.as_str(),
        )
    } else {
        false
    }
}

/// Inserts an image into a sorted flat list, keeping it sorted; the result
/// is the old list with the item inserted at one position.
#[verifier::rlimit(100)]
#[verifier::spinoff_prover]
fn insert_flat(v: &mut Vec<FlatImage>, item: FlatImage)
    requires
        spec_flat_sorted(old(v)@),
    ensures
        spec_flat_sorted(final(v)@),
        exists|p: int| 0 <= p <= old(v)@.len() && final(v)@ == old(v)@.insert(p, item),
{
    let ghost v0 = v@;
    let n = v.len();
    let mut p: usize = 0;
    while p < n && key_le(&v[p], &item)
        invariant
            spec_flat_sorted(v@),
            v@ == v0,
            n == v@.len(),
            p <= v@.len(),
            forall|j: int|
                0 <= j < p ==> spec_key_le(
                    (#[trigger] v@[j]).cat@,
                    v@[j].file_name@,
                    item.cat@,
                    item.file_name@,
                ),
        decreases v@.len() - p,
    {
        p += 1;
    }
    proof {
        if (p as int) < v@.len() {
            lemma_key_le_total(v@[p as int].cat@, v@[p as int].file_name@, item.cat@, item.file_name@);
        }
    }
    let ghost item0 = item;
    v.insert(p, item);
    proof {
        v0.insert_ensures(p as int, item0);
        let w = v@;
        assert forall|a: int, b: int| 0 <= a < b < w.len() implies spec_key_le(
            (#[trigger] w[a]).cat@,
            w[a].file_name@,
            (#[trigger] w[b]).cat@,
            w[b].file_name@,
        ) by {
            let p0 = p as int;
            if b < p0 {
                assert(w[a] == v0[a] && w[b] == v0[b]);
            } else if a < p0 && b == p0 {
                assert(w[a] == v0[a] && w[b] == item0);
            } else if a < p0 && b > p0 {
                assert(w[a] == v0[a] && w[b] == v0[b - 1]);
                if p0 <= b - 1 {
                    if a < b - 1 {
                        assert(spec_key_le(
                            v0[a].cat@,
                            v0[a].file_name@,
                            v0[b - 1].cat@,
                            v0[b - 1].file_name@,
                        ));
                    } else {
                        assert(a == b - 1 && a < p0 && p0 <= a);
                    }
                }
            } else if a == p0 && b > p0 {
                assert(w[a] == item0 && w[b] == v0[b - 1]);
                if b - 1 > p0 {
                    assert(spec_key_le(
                        v0[p0].cat@,
                        v0[p0].file_name@,
                        v0[b - 1].cat@,
                        v0[b - 1].file_name@,
                    ));
                    lemma_key_le_trans(
                        item0.cat@,
                        item0.file_name@,
                        v0[p0].cat@,
                        v0[p0].file_name@,
                        v0[b - 1].cat@,
                        v0[b - 1].file_name@,
                    );
                }
            } else {
                assert(a > p0 && b > p0);
                assert(w[a] == v0[a - 1] && w[b] == v0[b - 1]);
            }
        }
        assert(exists|q: int| 0 <= q <= v0.len() && w == v0.insert(q, item0)) by {
            assert(0 <= p as int <= v0.len() && w == v0.insert(p as int, item0));
        }
    }
}

/// Whether a flat image records entry `e`.
spec fn spec_flat_matches(f: FlatImage, e: PaletteEntry) -> bool {
    &&& spec_entry_is_image(e)
    &&& f.cat@ == spec_entry_category(e)
    &&& f.file_name@ == e.file_name@
    &&& f.path@ == e.path@
}

/// Whether entry `e` is listed in the categories under its own category
/// name, with its file name and path.
pub open spec fn spec_listed(r: Seq<PaletteCategory>, e: PaletteEntry) -> bool {
    exists|k: int, m: int|
        0 <= k < r.len() && 0 <= m < r[k].images@.len() && r[k].name@ == spec_entry_category(e)
            && (#[trigger] r[k].images@[m]).file_name@ == e.file_name@ && r[k].images@[m].path@
            == e.path@
}

/// Whether `(cat, file, path)` is listed in the categories under
/// category name `cat`.
pub open spec fn spec_listed_item(
    r: Seq<PaletteCategory>,
    cat: Seq<char>,
    file: Seq<char>,
    path: Seq<char>,
) -> bool {
    exists|k: int, m: int|
        0 <= k < r.len() && 0 <= m < r[k].images@.len() && r[k].name@ == cat && (
        #[trigger] r[k].images@[m]).file_name@ == file && r[k].images@[m].path@ == path
}

/// Whether one of the first `i` flat images is `(cat, file, path)`.
spec fn spec_from_flat(
    flat: Seq<FlatImage>,
    i: int,
    cat: Seq<char>,
    file: Seq<char>,
    path: Seq<char>,
) -> bool {
    exists|k0: int|
        0 <= k0 < i && (#[trigger] flat[k0]).cat@ == cat && flat[k0].file_name@ == file
            && flat[k0].path@ == path
}

/// Every listed image comes from the first `i` flat images.
spec fn spec_cats_sound(r: Seq<PaletteCategory>, flat: Seq<FlatImage>, i: int) -> bool {
    forall|k: int, m: int|
        0 <= k < r.len() && 0 <= m < r[k].images@.len() ==> spec_from_flat(
            flat,
            i,
            r[k].name@,
            (#[trigger] r[k].images@[m]).file_name@,
            r[k].images@[m].path@,
        )
}

/// Each of the first `i` flat images is listed under its category.
spec fn spec_cats_complete(r: Seq<PaletteCategory>, flat: Seq<FlatImage>, i: int) -> bool {
    forall|k0: int|
        0 <= k0 < i ==> spec_listed_item(
            r,
            (#[trigger] flat[k0]).cat@,
            flat[k0].file_name@,
            flat[k0].path@,
        )
}

/// A source seen among the first `i1` flat images is seen among the first
/// `i2` whenever `i1 <= i2`.
proof fn lemma_from_flat_mono(
    flat: Seq<FlatImage>,
    i1: int,
    i2: int,
    cat: Seq<char>,
    file: Seq<char>,
    path: Seq<char>,
)
    requires
        spec_from_flat(flat, i1, cat, file, path),
        i1 <= i2,
    ensures
        spec_from_flat(flat, i2, cat, file, path),
{
    let k0 = choose|k0: int|
        0 <= k0 < i1 && (#[trigger] flat[k0]).cat@ == cat && flat[k0].file_name@ == file
            && flat[k0].path@ == path;
    assert(0 <= k0 < i2 && flat[k0].cat@ == cat && flat[k0].file_name@ == file && flat[k0].path@
        == path);
}

/// A category's images in nondecreasing file-name order, neighbor by
/// neighbor.
pub open spec fn spec_images_ordered(images: Seq<PaletteImage>) -> bool {
    forall|m: int|
        0 <= m < images.len() - 1 ==> !spec_str_lt(
            (#[trigger] images[m + 1]).file_name@,
            images[m].file_name@,
        )
}

/// Neighbor-by-neighbor order gives order between any two positions.
pub proof fn lemma_images_ordered_pairwise(images: Seq<PaletteImage>, a: int, b: int)
    requires
        spec_images_ordered(images),
        0 <= a < b < images.len(),
    ensures
        !spec_str_lt(images[b].file_name@, images[a].file_name@),
    decreases b - a,
{
    if b == a + 1 {
    } else {
        lemma_images_ordered_pairwise(images, a, b - 1);
        assert(!spec_str_lt(images[(b - 1) + 1].file_name@, images[b - 1].file_name@));
        lemma_str_le_trans(
            images[a].file_name@,
            images[b - 1].file_name@,
            images[b].file_name@,
        );
    }
}

/// Groups a sorted flat image list into categories: one category per run
/// of equal category names, in order.
#[verifier::rlimit(100)]
#[verifier::spinoff_prover]
fn group_flat(flat: &Vec<FlatImage>) -> (r: Vec<PaletteCategory>)
    requires
        spec_flat_sorted(flat@),
    ensures
        forall|a: int, b: int|
            #![trigger r@[a], r@[b]]
            0 <= a < b < r@.len() ==> spec_str_lt(r@[a].name@, r@[b].name@),
        forall|k: int| 0 <= k < r@.len() ==> (#[trigger] r@[k]).images@.len() > 0,
        forall|k: int| 0 <= k < r@.len() ==> spec_images_ordered((#[trigger] r@[k]).images@),
        spec_cats_sound(r@, flat@, flat@.len() as int),
        spec_cats_complete(r@, flat@, flat@.len() as int),
{
    let mut r: Vec<PaletteCategory> = Vec::new();
    let n = flat.len();
    let mut i: usize = 0;
    while i < n
        invariant
            spec_flat_sorted(flat@),
            n == flat@.len(),
            i <= n,
            (i == 0) == (r@.len() == 0),
            i > 0 ==> r@[r@.len() - 1].name@ == flat@[i - 1].cat@,
            i > 0 ==> r@[r@.len() - 1].images@.last().file_name@ == flat@[i - 1].file_name@,
            forall|k: int|
                0 <= k < r@.len() ==> spec_images_ordered((#[trigger] r@[k]).images@),
            forall|a: int, b: int|
                #![trigger r@[a], r@[b]]
                0 <= a < b < r@.len() ==> spec_str_lt(r@[a].name@, r@[b].name@),
            forall|k: int| 0 <= k < r@.len() ==> (#[trigger] r@[k]).images@.len() > 0,
            spec_cats_sound(r@, flat@, i as int),
            spec_cats_complete(r@, flat@, i as int),
        decreases n - i,
    {
        let img = PaletteImage {
            file_name: flat[i].file_name.clone(),
            path: flat[i].path.clone(),
        };
        let same = if r.len() == 0 {
            false
        } else {
            str_eq(flat[i].cat.as_str(), r[r.len() - 1].name.as_str())
        };
        let ghost old_r = r@;
        proof {
            if i > 0 {
                assert(spec_key_le(
                    flat@[i - 1].cat@,
                    flat@[i - 1].file_name@,
                    flat@[i as int].cat@,
                    flat@[i as int].file_name@,
                ));
            }
        }
        if same {
            let mut last = match r.pop() {
                Some(c) => c,
                None => {
                    proof {
                        assert(false);
                    }
                    PaletteCategory { name: String::new(), images: Vec::new() }
                },
            };
            last.images.push(img);
            r.push(last);
            proof {
                let w = r@;
                let li = w.len() - 1;
                assert(flat@[i as int].cat@ == flat@[i - 1].cat@);
                assert(!spec_str_lt(flat@[i as int].file_name@, flat@[i - 1].file_name@)) by {
                    crate::text::lemma_str_lt_irrefl(flat@[i - 1].cat@);
                    lemma_str_le_not_gt(flat@[i - 1].file_name@, flat@[i as int].file_name@);
                }
                assert forall|k: int|
                    0 <= k < w.len() implies spec_images_ordered(
                    (#[trigger] w[k]).images@,
                ) by {
                    if k < li {
                        assert(w[k] == old_r[k]);
                    } else {
                        let imgs = w[li].images@;
                        assert forall|m: int|
                            0 <= m < imgs.len() - 1 implies !spec_str_lt(
                            (#[trigger] imgs[m + 1]).file_name@,
                            imgs[m].file_name@,
                        ) by {
                            if m + 1 < imgs.len() - 1 {
                                assert(imgs[m] == old_r[li].images@[m]);
                                assert(imgs[m + 1] == old_r[li].images@[m + 1]);
                                assert(spec_images_ordered(old_r[li].images@));
                            } else {
                                assert(imgs[m] == old_r[li].images@.last());
                            }
                        }
                    }
                }
                assert forall|k: int, m: int|
                    0 <= k < w.len() && 0 <= m < w[k].images@.len() implies spec_from_flat(
                    flat@,
                    i + 1,
                    w[k].name@,
                    (#[trigger] w[k].images@[m]).file_name@,
                    w[k].images@[m].path@,
                ) by {
                    if k < li {
                        assert(w[k] == old_r[k]);
                        assert(spec_from_flat(
                            flat@,
                            i as int,
                            old_r[k].name@,
                            (#[trigger] old_r[k].images@[m]).file_name@,
                            old_r[k].images@[m].path@,
                        ));
                        lemma_from_flat_mono(
                            flat@,
                            i as int,
                            i + 1,
                            w[k].name@,
                            w[k].images@[m].file_name@,
                            w[k].images@[m].path@,
                        );
                    } else if m < w[k].images@.len() - 1 {
                        assert(w[li].images@[m] == old_r[li].images@[m]);
                        assert(w[li].name@ == old_r[li].name@);
                        assert(spec_from_flat(
                            flat@,
                            i as int,
                            old_r[li].name@,
                            (#[trigger] old_r[li].images@[m]).file_name@,
                            old_r[li].images@[m].path@,
                        ));
                        lemma_from_flat_mono(
                            flat@,
                            i as int,
                            i + 1,
                            w[k].name@,
                            w[k].images@[m].file_name@,
                            w[k].images@[m].path@,
                        );
                    } else {
                        assert(0 <= i < i + 1 && flat@[i as int].cat@ == w[k].name@
                            && flat@[i as int].file_name@ == w[k].images@[m].file_name@
                            && flat@[i as int].path@ == w[k].images@[m].path@);
                    }
                }
                assert forall|k0: int| 0 <= k0 < i + 1 implies spec_listed_item(
                    w,
                    (#[trigger] flat@[k0]).cat@,
                    flat@[k0].file_name@,
                    flat@[k0].path@,
                ) by {
                    if k0 < i {
                        let (k, m) = choose|k: int, m: int|
                            0 <= k < old_r.len() && 0 <= m < old_r[k].images@.len()
                                && old_r[k].name@ == flat@[k0].cat@ && (
                            #[trigger] old_r[k].images@[m]).file_name@ == flat@[k0].file_name@
                                && old_r[k].images@[m].path@ == flat@[k0].path@;
                        assert(w[k].images@[m] == old_r[k].images@[m]);
                        assert(w[k].name@ == old_r[k].name@);
                        assert(0 <= k < w.len() && 0 <= m < w[k].images@.len() && w[k].name@
                            == flat@[k0].cat@ && w[k].images@[m].file_name@
                            == flat@[k0].file_name@ && w[k].images@[m].path@
                            == flat@[k0].path@);
                    } else {
                        let m = w[li].images@.len() - 1;
                        assert(0 <= li < w.len() && 0 <= m < w[li].images@.len() && w[li].name@
                            == flat@[k0].cat@ && w[li].images@[m].file_name@
                            == flat@[k0].file_name@ && w[li].images@[m].path@
                            == flat@[k0].path@);
                    }
                }
            }
        } else {
            let mut images: Vec<PaletteImage> = Vec::new();
            images.push(img);
            r.push(PaletteCategory { name: flat[i].cat.clone(), images });
            proof {
                let w = r@;
                let li = w.len() - 1;
                assert forall|k: int|
                    0 <= k < w.len() implies spec_images_ordered(
                    (#[trigger] w[k]).images@,
                ) by {
                    if k < li {
                        assert(w[k] == old_r[k]);
                    }
                }
                if i > 0 {
                    assert(flat@[i as int].cat@ != old_r[old_r.len() - 1].name@);
                    assert(spec_str_lt(flat@[i - 1].cat@, flat@[i as int].cat@));
                    assert forall|a: int|
                        0 <= a < li implies spec_str_lt(
                        (#[trigger] w[a]).name@,
                        w[li].name@,
                    ) by {
                        if a < li - 1 {
                            assert(w[a] == old_r[a]);
                            lemma_str_lt_trans(
                                w[a].name@,
                                old_r[old_r.len() - 1].name@,
                                w[li].name@,
                            );
                        }
                    }
                }
                assert forall|k: int, m: int|
                    0 <= k < w.len() && 0 <= m < w[k].images@.len() implies spec_from_flat(
                    flat@,
                    i + 1,
                    w[k].name@,
                    (#[trigger] w[k].images@[m]).file_name@,
                    w[k].images@[m].path@,
                ) by {
                    if k < li {
                        assert(w[k] == old_r[k]);
                        assert(spec_from_flat(
                            flat@,
                            i as int,
                            old_r[k].name@,
                            (#[trigger] old_r[k].images@[m]).file_name@,
                            old_r[k].images@[m].path@,
                        ));
                        lemma_from_flat_mono(
                            flat@,
                            i as int,
                            i + 1,
                            w[k].name@,
                            w[k].images@[m].file_name@,
                            w[k].images@[m].path@,
                        );
                    } else {
                        assert(m == 0);
                        assert(0 <= i < i + 1 && flat@[i as int].cat@ == w[k].name@
                            && flat@[i as int].file_name@ == w[k].images@[m].file_name@
                            && flat@[i as int].path@ == w[k].images@[m].path@);
                    }
                }
                assert forall|k0: int| 0 <= k0 < i + 1 implies spec_listed_item(
                    w,
                    (#[trigger] flat@[k0]).cat@,
                    flat@[k0].file_name@,
                    flat@[k0].path@,
                ) by {
                    if k0 < i {
                        let (k, m) = choose|k: int, m: int|
                            0 <= k < old_r.len() && 0 <= m < old_r[k].images@.len()
                                && old_r[k].name@ == flat@[k0].cat@ && (
                            #[trigger] old_r[k].images@[m]).file_name@ == flat@[k0].file_name@
                                && old_r[k].images@[m].path@ == flat@[k0].path@;
                        assert(w[k] == old_r[k]);
                        assert(w[k].images@[m] == old_r[k].images@[m]);
                        assert(0 <= k < w.len() && 0 <= m < w[k].images@.len() && w[k].name@
                            == flat@[k0].cat@ && w[k].images@[m].file_name@
                            == flat@[k0].file_name@ && w[k].images@[m].path@
                            == flat@[k0].path@);
                    } else {
                        assert(0 <= li < w.len() && 0 < w[li].images@.len() && w[li].name@
                            == flat@[k0].cat@ && w[li].images@[0].file_name@
                            == flat@[k0].file_name@ && w[li].images@[0].path@
                            == flat@[k0].path@);
                    }
                }
            }
        }
        i += 1;
    }
    r
}

/// Whether entry `e` is recorded somewhere in the flat list.
spec fn spec_recorded(flat: Seq<FlatImage>, e: PaletteEntry) -> bool {
    exists|k: int| 0 <= k < flat.len() && spec_flat_matches(#[trigger] flat[k], e)
}

/// Every flat image records one of the first `i` entries.
spec fn spec_flat_sound(flat: Seq<FlatImage>, entries: Seq<PaletteEntry>, i: int) -> bool {
    forall|k: int|
        0 <= k < flat.len() ==> exists|j: int|
            0 <= j < i && spec_flat_matches(#[trigger] flat[k], entries[j])
}

/// Each image file among the first `i` entries is recorded.
spec fn spec_flat_complete(flat: Seq<FlatImage>, entries: Seq<PaletteEntry>, i: int) -> bool {
    forall|j: int|
        0 <= j < i && spec_entry_is_image(#[trigger] entries[j]) ==> spec_recorded(
            flat,
            entries[j],
        )
}

/// Whether some scanned image file has this category, file name and path.
pub open spec fn spec_image_from_entries(
    entries: Seq<PaletteEntry>,
    cat: Seq<char>,
    file: Seq<char>,
    path: Seq<char>,
) -> bool {
    exists|j: int|
        0 <= j < entries.len() && spec_entry_is_image(#[trigger] entries[j])
            && spec_entry_category(entries[j]) == cat && entries[j].file_name@ == file
            && entries[j].path@ == path
}

/// Organizes scanned palette files into categories.
///
/// A file's category is its subfolder's name with the first letter
/// capitalized, or `Uncategorized` for files in the root; only files with
/// a supported image extension are kept, ordered by file name within each
/// category. Categories come back sorted by name, each non-empty; every
/// listed image is a scanned file and every scanned image file is listed.
#[verifier::rlimit(100)]
#[verifier::spinoff_prover]
pub fn list_palette_categories(entries: &Vec<PaletteEntry>) -> (r: Vec<PaletteCategory>)
    ensures
        forall|a: int, b: int|
            #![trigger r@[a], r@[b]]
            0 <= a < b < r@.len() ==> spec_str_lt(r@[a].name@, r@[b].name@),
        forall|k: int| 0 <= k < r@.len() ==> (#[trigger] r@[k]).images@.len() > 0,
        forall|k: int| 0 <= k < r@.len() ==> spec_images_ordered((#[trigger] r@[k]).images@),
        forall|k: int, m: int|
            0 <= k < r@.len() && 0 <= m < r@[k].images@.len() ==> spec_image_from_entries(
                entries@,
                r@[k].name@,
                (#[trigger] r@[k].images@[m]).file_name@,
                r@[k].images@[m].path@,
            ),
        forall|j: int|
            0 <= j < entries@.len() && spec_entry_is_image(#[trigger] entries@[j])
                ==> spec_listed_item(
                r@,
                spec_entry_category(entries@[j]),
                entries@[j].file_name@,
                entries@[j].path@,
            ),
{
    let mut flat: Vec<FlatImage> = Vec::new();
    let n = entries.len();
    let mut i: usize = 0;
    while i < n
        invariant
            n == entries@.len(),
            i <= n,
            spec_flat_sorted(flat@),
            spec_flat_sound(flat@, entries@, i as int),
            spec_flat_complete(flat@, entries@, i as int),
        decreases n - i,
    {
        let e = &entries[i];
        if is_image_file(e.extension.as_str()) {
            let cat = match &e.category {
                Some(c) => capitalize_first(c.as_str()),
                None => "Uncategorized".to_owned(),
            };
            let item = FlatImage {
                cat,
                file_name: e.file_name.clone(),
                path: e.path.clone(),
            };
            proof {
                assert(spec_flat_matches(item, entries@[i as int]));
            }
            let ghost old_flat = flat@;
            let ghost item0 = item;
            insert_flat(&mut flat, item);
            proof {
                let p = choose|p: int|
                    0 <= p <= old_flat.len() && flat@ == old_flat.insert(p, item0);
                old_flat.insert_ensures(p, item0);
                assert forall|k: int| 0 <= k < flat@.len() implies exists|j: int|
                    0 <= j < i + 1 && spec_flat_matches(#[trigger] flat@[k], entries@[j]) by {
                    if k < p {
                        assert(flat@[k] == old_flat[k]);
                        let j = choose|j: int|
                            0 <= j < i && spec_flat_matches(#[trigger] old_flat[k], entries@[j]);
                        assert(0 <= j < i + 1 && spec_flat_matches(flat@[k], entries@[j]));
                    } else if k == p {
                        assert(0 <= i < i + 1 && spec_flat_matches(
                            flat@[k],
                            entries@[i as int],
                        ));
                    } else {
                        assert(flat@[k] == old_flat[k - 1]);
                        let j = choose|j: int|
                            0 <= j < i && spec_flat_matches(
                                #[trigger] old_flat[k - 1],
                                entries@[j],
                            );
                        assert(0 <= j < i + 1 && spec_flat_matches(flat@[k], entries@[j]));
                    }
                }
                assert forall|j: int|
                    0 <= j < i + 1 && spec_entry_is_image(#[trigger] entries@[j])
                    implies spec_recorded(flat@, entries@[j]) by {
                    if j < i {
                        let k = choose|k: int|
                            0 <= k < old_flat.len() && spec_flat_matches(
                                #[trigger] old_flat[k],
                                entries@[j],
                            );
                        if k < p {
                            assert(flat@[k] == old_flat[k]);
                            assert(spec_flat_matches(flat@[k], entries@[j]));
                        } else {
                            assert(flat@[k + 1] == old_flat[k]);
                            assert(spec_flat_matches(flat@[k + 1], entries@[j]));
                        }
                    } else {
                        assert(flat@[p] == item0);
                        assert(spec_flat_matches(flat@[p], entries@[j]));
                    }
                }
            }
        } else {
            proof {
                assert(!spec_entry_is_image(entries@[i as int]));
            }
        }
        i += 1;
    }
    let r = group_flat(&flat);
    proof {
        assert forall|k: int, m: int|
            0 <= k < r@.len() && 0 <= m < r@[k].images@.len() implies spec_image_from_entries(
            entries@,
            r@[k].name@,
            (#[trigger] r@[k].images@[m]).file_name@,
            r@[k].images@[m].path@,
        ) by {
            assert(spec_from_flat(
                flat@,
                flat@.len() as int,
                r@[k].name@,
                r@[k].images@[m].file_name@,
                r@[k].images@[m].path@,
            ));
            let k0 = choose|k0: int|
                0 <= k0 < flat@.len() && (#[trigger] flat@[k0]).cat@ == r@[k].name@
                    && flat@[k0].file_name@ == r@[k].images@[m].file_name@ && flat@[k0].path@
                    == r@[k].images@[m].path@;
            let j = choose|j: int|
                0 <= j < n && spec_flat_matches(#[trigger] flat@[k0], entries@[j]);
            assert(0 <= j < entries@.len() && spec_entry_is_image(entries@[j])
                && spec_entry_category(entries@[j]) == r@[k].name@ && entries@[j].file_name@
                == r@[k].images@[m].file_name@ && entries@[j].path@ == r@[k].images@[m].path@);
        }
        assert forall|j: int|
            0 <= j < entries@.len() && spec_entry_is_image(#[trigger] entries@[j])
                implies spec_listed_item(
            r@,
            spec_entry_category(entries@[j]),
            entries@[j].file_name@,
            entries@[j].path@,
        ) by {
            assert(spec_recorded(flat@, entries@[j]));
            let k0 = choose|k0: int|
                0 <= k0 < flat@.len() && spec_flat_matches(#[trigger] flat@[k0], entries@[j]);
            assert(spec_listed_item(
                r@,
                flat@[k0].cat@,
                flat@[k0].file_name@,
                flat@[k0].path@,
            ));
        }
    }
    r
}

/// The four supported extensions are already lower case.
proof fn lemma_image_extension_literals()
    ensures
        spec_lower_ascii("png"@) == "png"@,
        spec_lower_ascii("jpg"@) == "jpg"@,
        spec_lower_ascii("jpeg"@) == "jpeg"@,
        spec_lower_ascii("webp"@) == "webp"@,
{
    reveal_strlit("png");
    reveal_strlit("jpg");
    reveal_strlit("jpeg");
    reveal_strlit("webp");
    assert(spec_lower_ascii("png"@) =~= "png"@);
    assert(spec_lower_ascii("jpg"@) =~= "jpg"@);
    assert(spec_lower_ascii("jpeg"@) =~= "jpeg"@);
    assert(spec_lower_ascii("webp"@) =~= "webp"@);
}

} // verus!
