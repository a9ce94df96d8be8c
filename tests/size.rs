use pdf_to_images::config::{PdfImageFormat, Target};
use pdf_to_images::size::{get_page_size, native_pixels, resolve_dpi, scale_dimension, Dpi, PageGeometry};

fn letter(image_dpis: Vec<Dpi>) -> PageGeometry {
    PageGeometry { width: 612_000, height: 792_000, image_dpis }
}

fn target(width: Option<i32>, height: Option<i32>, original: bool) -> Target {
    Target::new(width, height, PdfImageFormat::Png, original, false, false).unwrap()
}

#[test]
fn letter_page_at_default_dpi() {
    assert_eq!(get_page_size(&letter(vec![]), &target(None, None, false)), (612, 792));
}

#[test]
fn explicit_width_scales_height() {
    assert_eq!(get_page_size(&letter(vec![]), &target(Some(300), None, false)), (300, 388));
}

#[test]
fn explicit_height_scales_width() {
    assert_eq!(get_page_size(&letter(vec![]), &target(None, Some(400), false)), (309, 400));
}

#[test]
fn explicit_width_and_height_are_kept() {
    assert_eq!(get_page_size(&letter(vec![]), &target(Some(300), Some(400), false)), (300, 400));
    let odd = PageGeometry { width: 1, height: 9_999_999, image_dpis: vec![] };
    assert_eq!(get_page_size(&odd, &target(Some(300), Some(400), true)), (300, 400));
}

#[test]
fn native_size_truncates() {
    let a4 = PageGeometry { width: 595_276, height: 841_890, image_dpis: vec![] };
    assert_eq!(get_page_size(&a4, &target(None, None, false)), (595, 841));
    assert_eq!(native_pixels(999, 72_000), 0);
    assert_eq!(native_pixels(1_999, 72_000), 1);
}

#[test]
fn single_embedded_image_sets_dpi() {
    let dpi = Dpi { horizontal: 150_000, vertical: 300_000 };
    assert_eq!(get_page_size(&letter(vec![dpi]), &target(None, None, true)), (1275, 3300));
}

#[test]
fn embedded_image_ignored_without_flag() {
    let dpi = Dpi { horizontal: 150_000, vertical: 150_000 };
    assert_eq!(get_page_size(&letter(vec![dpi]), &target(None, None, false)), (612, 792));
}

#[test]
fn several_embedded_images_fall_back_to_default() {
    let a = Dpi { horizontal: 150_000, vertical: 150_000 };
    let b = Dpi { horizontal: 300_000, vertical: 300_000 };
    assert_eq!(get_page_size(&letter(vec![a, b]), &target(None, None, true)), (612, 792));
    assert_eq!(resolve_dpi(true, &vec![]), Dpi { horizontal: 72_000, vertical: 72_000 });
    assert_eq!(resolve_dpi(true, &vec![a]), a);
}

#[test]
fn scaling_from_zero_native_size() {
    assert_eq!(scale_dimension(792, 300, 0), i32::MAX);
    assert_eq!(scale_dimension(0, 300, 0), 0);
    assert_eq!(scale_dimension(792, 300, 612), 388);
}

#[test]
fn native_size_saturates() {
    assert_eq!(native_pixels(u32::MAX, u32::MAX), i32::MAX);
    assert_eq!(scale_dimension(i32::MAX, i32::MAX, 1), i32::MAX);
}

#[test]
fn target_rejects_non_positive_dimensions() {
    assert!(Target::new(Some(0), None, PdfImageFormat::Png, false, false, false).is_none());
    assert!(Target::new(None, Some(-3), PdfImageFormat::Png, false, false, false).is_none());
    let t = Target::new(Some(1), Some(2), PdfImageFormat::Webp, true, true, false).unwrap();
    assert_eq!(t.width(), Some(1));
    assert_eq!(t.height(), Some(2));
    assert_eq!(t.image_format(), PdfImageFormat::Webp);
    assert!(t.original_image_size());
    assert!(t.normalize_image());
    assert!(!t.threshold_image());
}
