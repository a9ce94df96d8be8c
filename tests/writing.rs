use pdf_to_images::config::PdfImageFormat;
use pdf_to_images::naming::image_name;
use pdf_to_images::window::windows;
use pdf_to_images::writer::{ItemState, WriteBatch};

#[test]
fn failure_skips_unstarted_items_and_counts_all() {
    let mut b = WriteBatch::new(0, 10);
    for i in 0..4 {
        assert!(b.begin(i));
    }
    for i in 0..3 {
        b.finish(i, true);
    }
    b.finish(3, false);
    assert!(b.in_error());
    for i in 4..10 {
        assert!(!b.begin(i));
        assert_eq!(b.state(i), ItemState::Skipped);
    }
    assert_eq!(b.completed(), 10);
    assert_eq!(b.outcome(), Err(3));
}

#[test]
fn items_in_flight_still_finish_after_failure() {
    let mut b = WriteBatch::new(20, 3);
    assert!(b.begin(0));
    assert!(b.begin(1));
    b.finish(1, false);
    b.finish(0, false);
    assert!(!b.begin(2));
    assert_eq!(b.outcome(), Err(1));
    assert_eq!(b.completed(), 3);
    assert_eq!(b.state(0), ItemState::Failed);
}

#[test]
fn batch_without_failure_succeeds() {
    let mut b = WriteBatch::new(4, 2);
    assert_eq!(b.len(), 2);
    assert!(b.begin(1));
    assert_eq!(b.state(1), ItemState::Running);
    b.finish(1, true);
    assert!(b.begin(0));
    b.finish(0, true);
    assert_eq!(b.completed(), 2);
    assert_eq!(b.outcome(), Ok(()));
    assert_eq!(b.global_index(1), 5);
}

#[test]
fn empty_batch_succeeds() {
    let b = WriteBatch::new(0, 0);
    assert_eq!(b.completed(), 0);
    assert_eq!(b.outcome(), Ok(()));
}

#[test]
fn names_continue_across_windows() {
    let mut names = Vec::new();
    for w in windows(5, 2) {
        let b = WriteBatch::new(w.start, (w.end - w.start) as usize);
        for k in 0..b.len() {
            names.push(b.file_name(k, PdfImageFormat::Png));
        }
    }
    assert_eq!(names, vec!["0.png", "1.png", "2.png", "3.png", "4.png"]);
}

#[test]
fn image_names_per_format() {
    assert_eq!(image_name(0, PdfImageFormat::Png), "0.png");
    assert_eq!(image_name(12, PdfImageFormat::Jpeg), "12.jpg");
    assert_eq!(image_name(u16::MAX, PdfImageFormat::Webp), "65535.webp");
}

#[test]
fn same_plan_twice_gives_same_names() {
    let run = || {
        let mut names = Vec::new();
        for w in windows(7, 3) {
            let b = WriteBatch::new(w.start, (w.end - w.start) as usize);
            for k in 0..b.len() {
                names.push(b.file_name(k, PdfImageFormat::Jpeg));
            }
        }
        names
    };
    assert_eq!(run(), run());
}
