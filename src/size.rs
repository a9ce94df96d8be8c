use vstd::prelude::*;

use crate::config::Target;

verus! {

/// Resolution in thousandths of a dot per inch, per axis.
#[derive(Clone, Copy, Debug, PartialEq, Eq, Structural)]
pub struct Dpi {
    pub horizontal: u32,
    pub vertical: u32,
}

/// 72 dots per inch, in thousandths.
pub const DEFAULT_DPI_MILLI: u32 = 72000;

/// The resolution used when the page gives none: 72 DPI on both axes.
pub open spec fn default_dpi() -> Dpi {
    Dpi { horizontal: DEFAULT_DPI_MILLI, vertical: DEFAULT_DPI_MILLI }
}

/// Thousandths of a point times thousandths of a dot per inch, per pixel:
/// a point is 1/72 inch.
pub const MILLI_POINT_MILLI_DPI_PER_PIXEL: u64 = 72000000;

/// What the size policy reads of a page: its size in thousandths of a point
/// and the resolution of each embedded image object, in page order.
pub struct PageGeometry {
    pub width: u32,
    pub height: u32,
    pub image_dpis: Vec<Dpi>,
}

/// A pixel count clamped to what an `i32` holds.
pub open spec fn saturate(v: int) -> i32 {
    if v > i32::MAX {
        i32::MAX
    } else {
        v as i32
    }
}

/// The DPI to render at: that of the page's only image when asked for and when
/// there is exactly one, else the 72 DPI default.
pub open spec fn resolve_dpi_spec(original_image_size: bool, image_dpis: Seq<Dpi>) -> Dpi {
    if original_image_size && image_dpis.len() == 1 {
        image_dpis[0]
    } else {
        default_dpi()
    }
}

/// A length in thousandths of a point, as pixels at `dpi` thousandths of a DPI,
/// truncated toward zero.
pub open spec fn native_pixels_spec(points: int, dpi: int) -> i32 {
    saturate((points * dpi) / (MILLI_POINT_MILLI_DPI_PER_PIXEL as int))
}

/// The unset dimension scaled to keep the native aspect ratio:
/// `native_other * set / native_set`, truncated. A zero native dimension gives an
/// unbounded ratio: the result is then the largest size, or 0 for a zero `native_other`.
pub open spec fn scaled_spec(native_other: int, set: int, native_set: int) -> i32 {
    if native_set == 0 {
        if native_other == 0 || set == 0 {
            0
        } else {
            i32::MAX
        }
    } else {
        saturate((native_other * set) / native_set)
    }
}

/// The pixel size to render a page at, under an explicit width and height policy.
pub open spec fn page_size_spec(
    width_pt: int,
    height_pt: int,
    dpi: Dpi,
    width: Option<i32>,
    height: Option<i32>,
) -> (i32, i32) {
    let native_w = native_pixels_spec(width_pt, dpi.horizontal as int);
    let native_h = native_pixels_spec(height_pt, dpi.vertical as int);
    match (width, height) {
        (Some(w), Some(h)) => (w, h),
        (Some(w), None) => (w, scaled_spec(native_h as int, w as int, native_w as int)),
        (None, Some(h)) => (scaled_spec(native_w as int, h as int, native_h as int), h),
        (None, None) => (native_w, native_h),
    }
}

/// Picks the DPI of the page's single embedded image when `original_image_size`
/// is set; with no image or several, falls back to 72 DPI.
pub fn resolve_dpi(original_image_size: bool, image_dpis: &Vec<Dpi>) -> (r: Dpi)
    ensures
        r == resolve_dpi_spec(original_image_size, image_dpis@),
{
    if original_image_size && image_dpis.len() == 1 {
        image_dpis[0]
    } else {
        Dpi { horizontal: DEFAULT_DPI_MILLI, vertical: DEFAULT_DPI_MILLI }
    }
}

/// Converts a length in thousandths of a point to pixels at `dpi` (thousandths),
/// truncating toward zero.
pub fn native_pixels(points: u32, dpi: u32) -> (r: i32)
    ensures
        r == native_pixels_spec(points as int, dpi as int),
        r >= 0,
{
    proof {
        assert(0 <= (points as int) * (dpi as int) <= (u32::MAX as int) * (u32::MAX as int)) by (nonlinear_arith)
            requires
                0 <= points <= u32::MAX,
                0 <= dpi <= u32::MAX,
        ;
    }
    let product: u64 = (points as u64) * (dpi as u64);
    let pixels: u64 = product / MILLI_POINT_MILLI_DPI_PER_PIXEL;
    if pixels > i32::MAX as u64 {
        i32::MAX
    } else {
        pixels as i32
    }
}

/// Scales `native_other` by `set / native_set`, truncating toward zero.
pub fn scale_dimension(native_other: i32, set: i32, native_set: i32) -> (r: i32)
    requires
        native_other >= 0,
        set >= 0,
        native_set >= 0,
    ensures
        r == scaled_spec(native_other as int, set as int, native_set as int),
{
    if native_set == 0 {
        if native_other == 0 || set == 0 {
            0
        } else {
            i32::MAX
        }
    } else {
        proof {
            assert(0 <= (native_other as int) * (set as int) <= (i32::MAX as int) * (i32::MAX as int))
                by (nonlinear_arith)
                requires
                    0 <= native_other <= i32::MAX,
                    0 <= set <= i32::MAX,
            ;
        }
        let product: u64 = (native_other as u64) * (set as u64);
        let scaled: u64 = product / (native_set as u64);
        if scaled > i32::MAX as u64 {
            i32::MAX
        } else {
            scaled as i32
        }
    }
}

/// The pixel size a page is rendered at: explicit width and height as given;
/// one of them with the other scaled to the native aspect ratio; neither, the
/// native size at the resolved DPI.
pub fn get_page_size(page: &PageGeometry, target: &Target) -> (r: (i32, i32))
    requires
        target.wf(),
    ensures
        r == page_size_spec(
            page.width as int,
            page.height as int,
            resolve_dpi_spec(target.original_image_size_spec(), page.image_dpis@),
            target.width_spec(),
            target.height_spec(),
        ),
{
    let width = target.width();
    let height = target.height();
    let dpi = resolve_dpi(target.original_image_size(), &page.image_dpis);
    let std_width = native_pixels(page.width, dpi.horizontal);
    let std_height = native_pixels(page.height, dpi.vertical);
    match (width, height) {
        (Some(w), Some(h)) => (w, h),
        (Some(w), None) => (w, scale_dimension(std_height, w, std_width)),
        (None, Some(h)) => (scale_dimension(std_width, h, std_height), h),
        (None, None) => (std_width, std_height),
    }
}

/// With both an explicit width and height, a page is rendered at exactly that
/// size, whatever its own size, its images and the DPI.
pub proof fn lemma_explicit_size_wins(width_pt: int, height_pt: int, dpi: Dpi, width: i32, height: i32)
    ensures
        page_size_spec(width_pt, height_pt, dpi, Some(width), Some(height)) == (width, height),
{
}

} // verus!
