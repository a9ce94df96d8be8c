use pdf_to_images::config::{PdfImageFormat, Target};
use pdf_to_images::filter::{apply_filters, apply_filters_multiply, normalize, threshold, LumaImage};

fn target(normalize: bool, threshold: bool) -> Target {
    Target::new(None, None, PdfImageFormat::Png, false, normalize, threshold).unwrap()
}

#[test]
fn normalize_stretches_to_full_range() {
    let mut s = vec![50u8, 200, 125, 100];
    normalize(&mut s);
    assert_eq!(s, vec![0, 255, 127, 85]);
}

#[test]
fn normalize_flat_image_is_all_zero() {
    let mut s = vec![77u8; 6];
    normalize(&mut s);
    assert_eq!(s, vec![0u8; 6]);
}

#[test]
fn normalize_empty_and_twice() {
    let mut e: Vec<u8> = vec![];
    normalize(&mut e);
    assert!(e.is_empty());
    let mut s = vec![3u8, 9, 4, 200, 17];
    normalize(&mut s);
    let once = s.clone();
    normalize(&mut s);
    assert_eq!(s, once);
}

#[test]
fn threshold_white_and_black() {
    let mut white = vec![255u8; 4];
    threshold(&mut white);
    assert_eq!(white, vec![255u8; 4]);
    let mut black = vec![0u8; 4];
    threshold(&mut black);
    assert_eq!(black, vec![0u8; 4]);
}

#[test]
fn threshold_cutoff_is_128() {
    let mut s = vec![126u8, 127, 128, 129];
    threshold(&mut s);
    assert_eq!(s, vec![0, 0, 255, 255]);
}

#[test]
fn filters_normalize_then_threshold() {
    let mut img = LumaImage { width: 2, height: 2, samples: vec![50, 200, 125, 130] };
    apply_filters(&mut img, &target(true, true));
    // normalized: 0, 255, 127, 136
    assert_eq!(img.samples, vec![0, 255, 0, 255]);
    assert_eq!((img.width, img.height), (2, 2));
}

#[test]
fn filters_threshold_alone_differs() {
    let mut img = LumaImage { width: 2, height: 2, samples: vec![50, 200, 125, 130] };
    apply_filters(&mut img, &target(false, true));
    assert_eq!(img.samples, vec![0, 255, 0, 255]);
    let mut img = LumaImage { width: 2, height: 1, samples: vec![100, 110] };
    apply_filters(&mut img, &target(false, true));
    assert_eq!(img.samples, vec![0, 0]);
    let mut img = LumaImage { width: 2, height: 1, samples: vec![100, 110] };
    apply_filters(&mut img, &target(true, true));
    assert_eq!(img.samples, vec![0, 255]);
}

#[test]
fn filters_off_leave_image() {
    let mut img = LumaImage { width: 3, height: 1, samples: vec![1, 2, 3] };
    apply_filters(&mut img, &target(false, false));
    assert_eq!(img.samples, vec![1, 2, 3]);
}

#[test]
fn filters_each_image_of_window() {
    let mut imgs = vec![
        LumaImage { width: 1, height: 2, samples: vec![10, 20] },
        LumaImage { width: 1, height: 2, samples: vec![5, 5] },
    ];
    apply_filters_multiply(&mut imgs, &target(true, false));
    assert_eq!(imgs[0].samples, vec![0, 255]);
    assert_eq!(imgs[1].samples, vec![0, 0]);
}
