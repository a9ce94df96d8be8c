use vstd::prelude::*;

verus! {

/// A half-open range `[start, end)` of page indices rendered and written as one batch.
#[derive(Clone, Copy, Debug, PartialEq, Eq, Structural)]
pub struct PageWindow {
    pub start: u16,
    pub end: u16,
}

/// Whether page `k` lies in window `w`.
pub open spec fn contains_page(w: PageWindow, k: int) -> bool {
    w.start <= k < w.end
}

/// The number of windows of capacity `capacity` over `page_count` pages.
pub open spec fn window_count(page_count: int, capacity: int) -> int
    recommends
        capacity >= 1,
{
    if page_count <= 0 {
        0
    } else {
        (page_count + capacity - 1) / capacity
    }
}

/// The `i`-th window: it starts at `i * capacity` and is cut short by the last page.
pub open spec fn window_at(page_count: int, capacity: int, i: int) -> PageWindow {
    let start = i * capacity;
    let end = if start + capacity <= page_count { start + capacity } else { page_count };
    PageWindow { start: start as u16, end: end as u16 }
}

/// All windows of a document, in order.
pub open spec fn windows_spec(page_count: int, capacity: int) -> Seq<PageWindow> {
    Seq::new(window_count(page_count, capacity) as nat, |i: int| window_at(page_count, capacity, i))
}

/// The window that starts at `current`: `None` once every page has been scheduled.
pub fn next_window(current: u16, page_count: u16, capacity: u16) -> (r: Option<PageWindow>)
    requires
        capacity >= 1,
    ensures
        current >= page_count ==> r.is_none(),
        current < page_count ==> r == Some(PageWindow {
            start: current,
            end: if current + capacity <= page_count { (current + capacity) as u16 } else { page_count },
        }),
{
    if current >= page_count {
        None
    } else if capacity <= page_count - current {
        Some(PageWindow { start: current, end: current + capacity })
    } else {
        Some(PageWindow { start: current, end: page_count })
    }
}

pub(crate) proof fn lemma_window_count(page_count: int, capacity: int, n: int)
    requires
        capacity >= 1,
        0 <= n,
        n * capacity < page_count,
    ensures
        n < window_count(page_count, capacity),
{
    assert((n + 1) * capacity <= page_count + capacity - 1) by (nonlinear_arith)
        requires
            n * capacity < page_count,
            capacity >= 1,
    ;
    assert(n + 1 <= (page_count + capacity - 1) / capacity) by (nonlinear_arith)
        requires
            (n + 1) * capacity <= page_count + capacity - 1,
            capacity >= 1,
            n >= 0,
    ;
}

proof fn lemma_window_count_end(page_count: int, capacity: int, n: int)
    requires
        capacity >= 1,
        0 <= n,
        n * capacity >= page_count,
    ensures
        n >= window_count(page_count, capacity),
{
    if page_count > 0 {
        assert((page_count + capacity - 1) / capacity <= n) by (nonlinear_arith)
            requires
                n * capacity >= page_count,
                capacity >= 1,
                page_count > 0,
        ;
    }
}

/// Splits `[0, page_count)` into consecutive windows of at most `capacity` pages.
pub fn windows(page_count: u16, capacity: u16) -> (r: Vec<PageWindow>)
    requires
        capacity >= 1,
    ensures
        r@ == windows_spec(page_count as int, capacity as int),
{
    let mut r: Vec<PageWindow> = Vec::new();
    let mut current: u16 = 0;
    assert(r@.len() * capacity == 0);
    while current < page_count
        invariant
            capacity >= 1,
            current <= page_count,
            current < page_count ==> current as int == r@.len() * capacity,
            current == page_count ==> r@.len() * capacity >= page_count,
            r@.len() <= window_count(page_count as int, capacity as int),
            forall|i: int| 0 <= i < r@.len() ==> r@[i] == window_at(page_count as int, capacity as int, i),
        decreases page_count - current,
    {
        let w = next_window(current, page_count, capacity);
        let w = match w {
            Some(w) => w,
            None => {
                assert(false);
                PageWindow { start: 0, end: 0 }
            },
        };
        proof {
            lemma_window_count(page_count as int, capacity as int, r@.len() as int);
            assert((r@.len() + 1) * capacity == r@.len() * capacity + capacity) by (nonlinear_arith);
        }
        r.push(w);
        current = w.end;
    }
    proof {
        lemma_window_count_end(page_count as int, capacity as int, r@.len() as int);
    }
    assert(r@ =~= windows_spec(page_count as int, capacity as int));
    r
}

/// Windows cover `[0, page_count)` exactly once, in ascending contiguous order,
/// each non-empty and of at most `capacity` pages: the first starts at 0, each
/// starts where the previous ended, the last ends at `page_count`, and page `k`
/// lies in window `k / capacity` and in no other.
pub proof fn lemma_windows_partition(page_count: u16, capacity: u16)
    requires
        capacity >= 1,
    ensures
        ({
            let ws = windows_spec(page_count as int, capacity as int);
            &&& page_count == 0 <==> ws.len() == 0
            &&& ws.len() > 0 ==> ws[0].start == 0 && ws[ws.len() - 1].end == page_count
            &&& forall|i: int| 0 <= i < ws.len() ==> ws[i].start < ws[i].end
                && ws[i].end - ws[i].start <= capacity
                && ws[i].end <= page_count
            &&& forall|i: int| 0 <= i < ws.len() - 1 ==> ws[i].end == #[trigger] ws[i + 1].start
            &&& forall|k: int, i: int| 0 <= k < page_count && 0 <= i < ws.len() ==>
                (#[trigger] contains_page(ws[i], k) <==> i == k / (capacity as int))
        }),
{
    let p = page_count as int;
    let c = capacity as int;
    let ws = windows_spec(p, c);
    let n = window_count(p, c);
    assert forall|i: int| 0 <= i < n implies i * c < p && (#[trigger] window_at(p, c, i)).start == i * c
        && window_at(p, c, i).end as int == if i * c + c <= p { i * c + c } else { p } by {
        if p > 0 {
            assert(i * c < p) by (nonlinear_arith)
                requires
                    0 <= i < (p + c - 1) / c,
                    c >= 1,
            ;
        }
        assert(0 <= i * c) by (nonlinear_arith)
            requires
                0 <= i,
                c >= 1,
        ;
    }
    if p > 0 {
        assert(n >= 1) by (nonlinear_arith)
            requires
                n == (p + c - 1) / c,
                p >= 1,
                c >= 1,
        ;
        assert(window_at(p, c, 0).start == 0);
        let l = n - 1;
        assert(l * c + c >= p) by (nonlinear_arith)
            requires
                l == (p + c - 1) / c - 1,
                c >= 1,
        ;
        assert(window_at(p, c, l).end == p);
    }
    assert forall|i: int| 0 <= i < ws.len() - 1 implies ws[i].end == #[trigger] ws[i + 1].start by {
        assert((i + 1) * c == i * c + c) by (nonlinear_arith);
        assert(window_at(p, c, i + 1).start == i * c + c);
        assert(i * c + c <= p);
    }
    assert forall|k: int, i: int| 0 <= k < p && 0 <= i < ws.len() implies
        (#[trigger] contains_page(ws[i], k) <==> i == k / c) by {
        assert(window_at(p, c, i).start == i * c);
        if i * c <= k < i * c + c {
            assert(i == k / c) by (nonlinear_arith)
                requires
                    i * c <= k < i * c + c,
                    c >= 1,
            ;
        }
        if i == k / c {
            assert(i * c <= k < i * c + c) by (nonlinear_arith)
                requires
                    i == k / c,
                    c >= 1,
                    k >= 0,
            ;
        }
    }
}

} // verus!
