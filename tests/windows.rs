use pdf_to_images::scheduler::{Action, Phase, Scheduler};
use pdf_to_images::window::{next_window, windows, PageWindow};

fn pairs(ws: &[PageWindow]) -> Vec<(u16, u16)> {
    ws.iter().map(|w| (w.start, w.end)).collect()
}

#[test]
fn windows_of_five_pages_by_two() {
    assert_eq!(pairs(&windows(5, 2)), vec![(0, 2), (2, 4), (4, 5)]);
}

#[test]
fn windows_capacity_one_is_page_by_page() {
    assert_eq!(pairs(&windows(3, 1)), vec![(0, 1), (1, 2), (2, 3)]);
}

#[test]
fn windows_of_empty_document() {
    assert!(windows(0, 25).is_empty());
}

#[test]
fn windows_capacity_larger_than_document() {
    assert_eq!(pairs(&windows(7, 25)), vec![(0, 7)]);
}

#[test]
fn windows_exact_multiple() {
    assert_eq!(pairs(&windows(50, 25)), vec![(0, 25), (25, 50)]);
}

#[test]
fn windows_largest_page_count() {
    let ws = windows(u16::MAX, u16::MAX);
    assert_eq!(pairs(&ws), vec![(0, u16::MAX)]);
    let ws = windows(u16::MAX, 1000);
    assert_eq!(ws.len(), 66);
    assert_eq!(ws[65], PageWindow { start: 65000, end: u16::MAX });
}

#[test]
fn windows_cover_every_page_once_in_order() {
    for p in 0u16..40 {
        for c in 1u16..12 {
            let ws = windows(p, c);
            let mut next = 0u16;
            for w in &ws {
                assert_eq!(w.start, next);
                assert!(w.start < w.end);
                assert!(w.end - w.start <= c);
                next = w.end;
            }
            assert_eq!(next, p);
        }
    }
}

#[test]
fn next_window_at_the_end() {
    assert_eq!(next_window(5, 5, 2), None);
    assert_eq!(next_window(4, 5, 2), Some(PageWindow { start: 4, end: 5 }));
    assert_eq!(next_window(65534, 65535, 65535), Some(PageWindow { start: 65534, end: 65535 }));
}

#[test]
fn scheduler_runs_every_window_in_order() {
    let mut s = Scheduler::new(5, 2);
    let mut actions = Vec::new();
    let mut a = s.step(true);
    loop {
        actions.push(a);
        if a == Action::Finish || a == Action::Abort {
            break;
        }
        a = s.step(true);
    }
    let w = |start, end| PageWindow { start, end };
    assert_eq!(
        actions,
        vec![
            Action::Render(w(0, 2)),
            Action::Filter(w(0, 2)),
            Action::Write(w(0, 2)),
            Action::Render(w(2, 4)),
            Action::Filter(w(2, 4)),
            Action::Write(w(2, 4)),
            Action::Render(w(4, 5)),
            Action::Filter(w(4, 5)),
            Action::Write(w(4, 5)),
            Action::Finish,
        ]
    );
    assert_eq!(s.phase, Phase::Done);
    assert_eq!(s.current, 5);
}

#[test]
fn scheduler_empty_document_finishes_at_once() {
    let mut s = Scheduler::new(0, 25);
    assert_eq!(s.step(true), Action::Finish);
    assert_eq!(s.step(true), Action::Finish);
}

#[test]
fn scheduler_aborts_on_render_failure() {
    let mut s = Scheduler::new(10, 4);
    assert_eq!(s.step(true), Action::Render(PageWindow { start: 0, end: 4 }));
    assert_eq!(s.step(false), Action::Abort);
    assert_eq!(s.phase, Phase::Aborted);
    assert_eq!(s.step(true), Action::Abort);
}

#[test]
fn scheduler_aborts_on_write_failure_after_first_window() {
    let mut s = Scheduler::new(10, 4);
    s.step(true);
    s.step(true);
    s.step(true);
    assert_eq!(s.step(true), Action::Render(PageWindow { start: 4, end: 8 }));
    assert_eq!(s.step(true), Action::Filter(PageWindow { start: 4, end: 8 }));
    assert_eq!(s.step(false), Action::Abort);
    assert_eq!(s.current, 4);
}
