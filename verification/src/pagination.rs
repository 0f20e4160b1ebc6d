//! Which page buttons a pagination bar shows.
use core::ops::Range;
use vstd::prelude::*;

verus! {

/// A button of the pagination bar: a page, or an ellipsis standing for a
/// run of hidden pages.
#[derive(Debug, PartialEq, Eq)]
pub enum PageItem {
    Page(usize),
    Ellipsis(Range<usize>),
}

impl Clone for PageItem {
    fn clone(&self) -> (r: Self)
        ensures
            r == *self,
    {
        match self {
            PageItem::Page(p) => PageItem::Page(*p),
            PageItem::Ellipsis(range) => PageItem::Ellipsis(range.start..range.end),
        }
    }
}

/// Pages `from..=to` as page items.
pub open spec fn pages(from: int, to: int) -> Seq<PageItem>
    decreases to - from + 1,
{
    if to < from {
        Seq::empty()
    } else {
        pages(from, to - 1).push(PageItem::Page(to as usize))
    }
}

/// The number of pages on each side of the current one.
pub open spec fn pages_each_side(max_visible: usize) -> int {
    (max_usize_spec(max_visible, 5) - 3) / 2
}

pub open spec fn max_usize_spec(a: usize, b: usize) -> int {
    if a >= b {
        a as int
    } else {
        b as int
    }
}

/// First page shown after page 1 (when pages are hidden).
pub open spec fn window_start(current: int, total: int, side: int) -> int {
    if current <= side + 1 {
        2
    } else if current > total - side - 1 {
        total - side - 1
    } else {
        current - side
    }
}

/// Last page shown before the last page (when pages are hidden).
pub open spec fn window_end(current: int, total: int, side: int) -> int {
    if current >= total - side {
        total - 1
    } else if current <= side + 1 {
        side + 2
    } else {
        current + side
    }
}

/// The items of the bar: none for a single page; every page when they fit
/// in `max_visible` (at least 5); else the first page, a window around the
/// current page, the last page, and an ellipsis for each hidden run.
pub open spec fn page_range(current: usize, total: usize, max_visible: usize) -> Seq<PageItem> {
    if total <= 1 {
        Seq::empty()
    } else if total <= max_usize_spec(max_visible, 5) {
        pages(1, total as int)
    } else {
        let side = pages_each_side(max_visible);
        let start = window_start(current as int, total as int, side);
        let end = window_end(current as int, total as int, side);
        seq![PageItem::Page(1)] + (if start > 2 {
            seq![PageItem::Ellipsis(2..start as usize)]
        } else {
            Seq::empty()
        }) + pages(start, end) + (if end < total - 1 {
            seq![PageItem::Ellipsis((end + 1) as usize..total)]
        } else {
            Seq::empty()
        }) + seq![PageItem::Page(total)]
    }
}

proof fn lemma_pages_len(from: int, to: int)
    ensures
        pages(from, to).len() == if to < from {
            0
        } else {
            to - from + 1
        },
        forall|i: int|
            0 <= i < pages(from, to).len() ==> #[trigger] pages(from, to)[i] == PageItem::Page(
                (from + i) as usize,
            ),
    decreases to - from + 1,
{
    if to >= from {
        lemma_pages_len(from, to - 1);
    }
}

/// Appends pages `from..=to` to `out`.
fn push_pages(out: &mut Vec<PageItem>, from: usize, to: usize)
    requires
        from >= 1,
    ensures
        final(out)@ == old(out)@ + pages(from as int, to as int),
{
    let ghost start = old(out)@;
    if from > to {
        assert(pages(from as int, to as int) =~= Seq::<PageItem>::empty());
        assert(start + Seq::<PageItem>::empty() =~= start);
        return;
    }
    let mut p = from;
    proof {
        assert(pages(from as int, from - 1) =~= Seq::<PageItem>::empty());
        assert(start + Seq::<PageItem>::empty() =~= start);
    }
    while p < to
        invariant
            from <= p <= to,
            out@ == start + pages(from as int, p - 1),
        decreases to - p,
    {
        out.push(PageItem::Page(p));
        proof {
            assert(pages(from as int, p as int) == pages(from as int, p - 1).push(
                PageItem::Page(p),
            ));
        }
        p += 1;
    }
    out.push(PageItem::Page(to));
    proof {
        assert(pages(from as int, to as int) == pages(from as int, to - 1).push(
            PageItem::Page(to),
        ));
    }
}

/// Page items for the bar at page `current` of `total`.
pub fn calculate_page_range(current: usize, total: usize, max_visible: usize) -> (r: Vec<
    PageItem,
>)
    ensures
        r@ == page_range(current, total, max_visible),
{
    let mut out: Vec<PageItem> = Vec::new();
    if total <= 1 {
        return out;
    }
    let max_visible = if max_visible > 5 {
        max_visible
    } else {
        5
    };
    if total <= max_visible {
        push_pages(&mut out, 1, total);
        assert(out@ =~= pages(1, total as int));
        return out;
    }
    let side_pages = (max_visible - 3) / 2;
    out.push(PageItem::Page(1));
    let start = if current <= side_pages + 1 {
        2
    } else if current > total - side_pages - 1 {
        total - side_pages - 1
    } else {
        current - side_pages
    };
    let ghost mid_start = out@;
    if start > 2 {
        out.push(PageItem::Ellipsis(2..start));
    }
    let end = if current >= total - side_pages {
        total - 1
    } else if current <= side_pages + 1 {
        side_pages + 2
    } else {
        current + side_pages
    };
    let ghost before_pages = out@;
    push_pages(&mut out, start, end);
    let ghost after_pages = out@;
    if end < total - 1 {
        out.push(PageItem::Ellipsis(end + 1..total));
    }
    let ghost after_tail = out@;
    out.push(PageItem::Page(total));
    proof {
        let side = pages_each_side(max_visible);
        assert(side == side_pages as int);
        let head = seq![PageItem::Page(1)];
        let e1: Seq<PageItem> = if start > 2 {
            seq![PageItem::Ellipsis(2..start)]
        } else {
            Seq::empty()
        };
        let e2: Seq<PageItem> = if end < total - 1 {
            seq![PageItem::Ellipsis((end + 1) as usize..total)]
        } else {
            Seq::empty()
        };
        assert(before_pages =~= head + e1);
        assert(after_tail =~= head + e1 + pages(start as int, end as int) + e2);
    }
    out
}

/// Flattens page items to the pages they stand for, in order.
pub open spec fn covered(items: Seq<PageItem>) -> Seq<int>
    decreases items.len(),
{
    if items.len() == 0 {
        Seq::empty()
    } else {
        covered(items.drop_last()) + match items.last() {
            PageItem::Page(p) => seq![p as int],
            PageItem::Ellipsis(r) => Seq::new(
                (if r.end >= r.start {
                    r.end - r.start
                } else {
                    0
                }) as nat,
                |i: int| r.start + i,
            ),
        }
    }
}

/// The pages `from..=to` in order.
pub open spec fn page_numbers(from: int, to: int) -> Seq<int> {
    Seq::new(
        (if to >= from {
            to - from + 1
        } else {
            0
        }) as nat,
        |i: int| from + i,
    )
}

proof fn lemma_covered_concat(a: Seq<PageItem>, b: Seq<PageItem>)
    ensures
        covered(a + b) == covered(a) + covered(b),
    decreases b.len(),
{
    if b.len() == 0 {
        assert(a + b =~= a);
        assert(covered(b) =~= Seq::<int>::empty());
        assert(covered(a) + covered(b) =~= covered(a));
    } else {
        lemma_covered_concat(a, b.drop_last());
        assert((a + b).drop_last() =~= a + b.drop_last());
        assert((a + b).last() == b.last());
        assert(covered(a + b) =~= covered(a) + covered(b));
    }
}

proof fn lemma_covered_pages(from: int, to: int)
    requires
        from >= 0,
        to <= usize::MAX,
    ensures
        covered(pages(from, to)) == page_numbers(from, to),
    decreases to - from + 1,
{
    if to < from {
        assert(covered(pages(from, to)) =~= page_numbers(from, to));
    } else {
        lemma_covered_pages(from, to - 1);
        assert(pages(from, to).drop_last() =~= pages(from, to - 1));
        assert(covered(pages(from, to)) =~= page_numbers(from, to));
    }
}

/// The bar stands for every page from the first to the last, in order and
/// once each: shown pages and ellipses together cover `1..=total` when
/// there is more than one page.
pub proof fn law_pages_are_covered_in_order(current: usize, total: usize, max_visible: usize)
    requires
        2 <= total,
    ensures
        covered(page_range(current, total, max_visible)) == page_numbers(1, total as int),
{
    if total <= max_usize_spec(max_visible, 5) {
        lemma_covered_pages(1, total as int);
    } else {
        let side = pages_each_side(max_visible);
        let start = window_start(current as int, total as int, side);
        let end = window_end(current as int, total as int, side);
        let head: Seq<PageItem> = seq![PageItem::Page(1)];
        let e1: Seq<PageItem> = if start > 2 {
            seq![PageItem::Ellipsis(2..start as usize)]
        } else {
            Seq::empty()
        };
        let mid = pages(start, end);
        let e2: Seq<PageItem> = if end < total - 1 {
            seq![PageItem::Ellipsis((end + 1) as usize..total)]
        } else {
            Seq::empty()
        };
        let tail: Seq<PageItem> = seq![PageItem::Page(total)];
        lemma_covered_concat(head, e1);
        lemma_covered_concat(head + e1, mid);
        lemma_covered_concat(head + e1 + mid, e2);
        lemma_covered_concat(head + e1 + mid + e2, tail);
        lemma_covered_pages(start, end);
        assert(covered(head) =~= seq![1int]) by {
            assert(head.drop_last() =~= Seq::<PageItem>::empty());
            assert(covered(head.drop_last()) =~= Seq::<int>::empty());
        }
        assert(covered(tail) =~= seq![total as int]) by {
            assert(tail.drop_last() =~= Seq::<PageItem>::empty());
            assert(covered(tail.drop_last()) =~= Seq::<int>::empty());
        }
        assert(covered(e1) =~= page_numbers(2, start - 1)) by {
            if start > 2 {
                assert(e1.drop_last() =~= Seq::<PageItem>::empty());
            assert(covered(e1.drop_last()) =~= Seq::<int>::empty());
            }
        }
        assert(covered(e2) =~= page_numbers(end + 1, total - 1)) by {
            if end < total - 1 {
                assert(e2.drop_last() =~= Seq::<PageItem>::empty());
            assert(covered(e2.drop_last()) =~= Seq::<int>::empty());
            }
        }
        assert(covered(page_range(current, total, max_visible)) =~= page_numbers(1, total as int));
    }
}

} // verus!
