//! Markers on the editor's vertical scrollbar track: their rows, and which
//! marker wins each pixel of the track.
use vstd::prelude::*;
use std::ops::Range;

verus! {

/// The shape of a scrollbar marker.
#[derive(Debug, Clone, Copy, PartialEq, Eq, Structural)]
#[non_exhaustive]
pub enum ScrollbarMarkerKind {
    /// A small filled dot centered on the marker row.
    Dot,
    /// A thin vertical pill centered on the marker row.
    Tick,
    /// A short horizontal pill centered on the marker row.
    Dash,
    /// A vertical bar spanning `row..=end_row`.
    Bar,
}

/// A marker on the scrollbar track, anchored to document rows; `C` is its
/// color.
#[derive(Debug, Clone, Copy, PartialEq, Eq)]
pub struct ScrollbarMarker<C> {
    /// First document row the marker refers to.
    pub row: u64,
    /// Last document row the marker covers (inclusive).
    pub end_row: u64,
    /// Shape of the marker.
    pub kind: ScrollbarMarkerKind,
    /// Color of the marker.
    pub color: C,
    /// Stacking priority; the higher wins pixel conflicts.
    pub priority: u32,
}

impl<C> ScrollbarMarker<C> {
    /// A small filled dot centered on `row`.
    pub fn dot(row: u64, color: C) -> (r: Self)
        ensures
            r == (ScrollbarMarker { row, end_row: row, kind: ScrollbarMarkerKind::Dot, color, priority: 0 }),
    {
        ScrollbarMarker { row, end_row: row, kind: ScrollbarMarkerKind::Dot, color, priority: 0 }
    }

    /// A thin vertical pill centered on `row`.
    pub fn tick(row: u64, color: C) -> (r: Self)
        ensures
            r == (ScrollbarMarker { row, end_row: row, kind: ScrollbarMarkerKind::Tick, color, priority: 0 }),
    {
        ScrollbarMarker { row, end_row: row, kind: ScrollbarMarkerKind::Tick, color, priority: 0 }
    }

    /// A short horizontal pill centered on `row`.
    pub fn dash(row: u64, color: C) -> (r: Self)
        ensures
            r == (ScrollbarMarker { row, end_row: row, kind: ScrollbarMarkerKind::Dash, color, priority: 0 }),
    {
        ScrollbarMarker { row, end_row: row, kind: ScrollbarMarkerKind::Dash, color, priority: 0 }
    }

    /// A vertical bar over the rows `range.start..range.end`; an empty range
    /// covers its first row.
    pub fn bar(range: Range<u64>, color: C) -> (r: Self)
        ensures
            r == (ScrollbarMarker {
                row: range.start,
                end_row: if range.end >= 1 && range.end - 1 >= range.start {
                    (range.end - 1) as u64
                } else {
                    range.start
                },
                kind: ScrollbarMarkerKind::Bar,
                color,
                priority: 0,
            }),
    {
        let last = range.end.saturating_sub(1);
        let end_row = if last >= range.start {
            last
        } else {
            range.start
        };
        ScrollbarMarker { row: range.start, end_row, kind: ScrollbarMarkerKind::Bar, color, priority: 0 }
    }

    /// The marker extended to cover the rows up to `end_row` (never before
    /// its first row).
    pub fn with_end_row(self, end_row: u64) -> (r: Self)
        ensures
            r == (ScrollbarMarker {
                end_row: if end_row >= self.row {
                    end_row
                } else {
                    self.row
                },
                ..self
            }),
    {
        let end_row = if end_row >= self.row {
            end_row
        } else {
            self.row
        };
        ScrollbarMarker { end_row, ..self }
    }

    /// The marker with stacking priority `priority`.
    pub fn with_priority(self, priority: u32) -> (r: Self)
        ensures
            r == (ScrollbarMarker { priority, ..self }),
    {
        ScrollbarMarker { priority, ..self }
    }
}

/// The track pixels `top..bottom` a marker covers, with what decides who
/// wins them; `color` names the marker's color.
#[derive(Debug, Clone, Copy, PartialEq, Eq, Structural)]
pub struct MarkerSpan {
    pub top: usize,
    pub bottom: usize,
    pub priority: u32,
    pub kind: ScrollbarMarkerKind,
    pub color: u64,
}

/// Consecutive track pixels `start..start + len` won by markers of one kind
/// and color.
#[derive(Debug, Clone, Copy, PartialEq, Eq, Structural)]
pub struct MarkerSegment {
    pub start: usize,
    pub len: usize,
    pub kind: ScrollbarMarkerKind,
    pub color: u64,
}

/// Whether span `s` covers pixel `p` of a track `height` pixels high.
pub open spec fn covers(s: MarkerSpan, p: int, height: int) -> bool {
    s.top <= p && p < s.bottom && p < height
}

/// The span among the first `n` that wins pixel `p`: the highest
/// priority, and of equal priorities the later span.
pub open spec fn winner_upto(spans: Seq<MarkerSpan>, n: int, p: int, height: int) -> Option<int>
    decreases n,
{
    if n <= 0 {
        None
    } else {
        let w = winner_upto(spans, n - 1, p, height);
        if covers(spans[n - 1], p, height) && (w is None || spans[n - 1].priority
            >= spans[w->0].priority) {
            Some(n - 1)
        } else {
            w
        }
    }
}

/// The kind and color that win pixel `p`, if any marker covers it.
pub open spec fn owner(spans: Seq<MarkerSpan>, p: int, height: int) -> Option<
    (ScrollbarMarkerKind, u64),
> {
    match winner_upto(spans, spans.len() as int, p, height) {
        Some(w) => Some((spans[w].kind, spans[w].color)),
        None => None,
    }
}

/// Segment `g` is a maximal run of pixels owned by its kind and color.
pub open spec fn segment_is_run(
    spans: Seq<MarkerSpan>,
    height: int,
    g: MarkerSegment,
) -> bool {
    &&& g.len > 0
    &&& g.start + g.len <= height
    &&& forall|p: int|
        g.start <= p < g.start + g.len ==> owner(spans, p, height) == Some((g.kind, g.color))
    &&& g.start == 0 || owner(spans, g.start - 1, height) != Some((g.kind, g.color))
    &&& g.start + g.len == height || owner(spans, g.start + g.len, height) != Some(
        (g.kind, g.color),
    )
}

/// The segments are the maximal runs of owned pixels, top to bottom, and
/// every owned pixel lies in one of them.
pub open spec fn segments_of(
    spans: Seq<MarkerSpan>,
    height: int,
    segs: Seq<MarkerSegment>,
) -> bool {
    &&& forall|k: int| 0 <= k < segs.len() ==> segment_is_run(spans, height, #[trigger] segs[k])
    &&& forall|k: int, l: int|
        0 <= k < l < segs.len() ==> segs[k].start + segs[k].len <= segs[l].start
    &&& forall|p: int|
        0 <= p < height && (#[trigger] owner(spans, p, height)) is Some ==> exists|k: int|
            0 <= k < segs.len() && (#[trigger] segs[k]).start <= p < segs[k].start + segs[k].len
}

/// What a pixel holds while the winners are worked out.
pub open spec fn slot_of(spans: Seq<MarkerSpan>, n: int, p: int, height: int) -> Option<
    (u32, usize, ScrollbarMarkerKind, u64),
> {
    match winner_upto(spans, n, p, height) {
        Some(w) => Some((spans[w].priority, w as usize, spans[w].kind, spans[w].color)),
        None => None,
    }
}

/// Lays the marker spans onto a track `height` pixels high: each pixel goes
/// to the covering span of highest priority (the later one on a tie), and
/// consecutive pixels won by the same kind and color make one segment.
pub fn resolve_marker_pixels(spans: &Vec<MarkerSpan>, height: usize) -> (r: Vec<MarkerSegment>)
    ensures
        segments_of(spans@, height as int, r@),
{
    let ghost sp = spans@;
    let mut winners: Vec<Option<(u32, usize, ScrollbarMarkerKind, u64)>> = Vec::new();
    let mut i: usize = 0;
    while i < height
        invariant
            i <= height,
            winners@.len() == i,
            forall|p: int| 0 <= p < i ==> #[trigger] winners@[p] is None,
        decreases height - i,
    {
        winners.push(None);
        i += 1;
    }
    let mut idx: usize = 0;
    while idx < spans.len()
        invariant
            sp == spans@,
            idx <= sp.len(),
            winners@.len() == height,
            forall|p: int|
                0 <= p < height ==> #[trigger] winners@[p] == slot_of(sp, idx as int, p, height as int),
        decreases sp.len() - idx,
    {
        let span = spans[idx];
        let bottom = if span.bottom < height {
            span.bottom
        } else {
            height
        };
        let mut p: usize = span.top;
        if p < bottom {
            while p < bottom
                invariant
                    sp == spans@,
                    idx < sp.len(),
                    span == sp[idx as int],
                    span.top <= p <= bottom,
                    bottom <= height,
                    bottom == if span.bottom < height { span.bottom as int } else { height as int },
                    winners@.len() == height,
                    forall|q: int|
                        0 <= q < height && !(span.top <= q < p) ==> #[trigger] winners@[q]
                            == slot_of(sp, idx as int, q, height as int),
                    forall|q: int|
                        span.top <= q < p ==> #[trigger] winners@[q] == slot_of(
                            sp,
                            idx + 1,
                            q,
                            height as int,
                        ),
                decreases bottom - p,
            {
                let better = match winners[p] {
                    None => true,
                    Some((priority, order, _, _)) => span.priority > priority || (span.priority
                        == priority && idx > order),
                };
                proof {
                    let w = winner_upto(sp, idx as int, p as int, height as int);
                    if let Some(wi) = w {
                        lemma_winner_in_range(sp, idx as int, p as int, height as int);
                    }
                }
                if better {
                    winners.set(p, Some((span.priority, idx, span.kind, span.color)));
                }
                p += 1;
            }
        }
        proof {
            assert forall|q: int| 0 <= q < height implies #[trigger] winners@[q] == slot_of(
                sp,
                idx + 1,
                q,
                height as int,
            ) by {
                if !(span.top <= q < p) {
                    assert(!covers(sp[idx as int], q, height as int));
                }
            }
        }
        idx += 1;
    }
    let ghost owners = Seq::new(height as nat, |p: int| owner(sp, p, height as int));
    assert forall|p: int| 0 <= p < height implies match #[trigger] winners@[p] {
        Some((_, _, k, c)) => owners[p] == Some((k, c)),
        None => owners[p] is None,
    } by {
        assert(winners@[p] == slot_of(sp, sp.len() as int, p, height as int));
    }
    let mut segments: Vec<MarkerSegment> = Vec::new();
    let mut pixel: usize = 0;
    while pixel < height
        invariant
            pixel <= height,
            winners@.len() == height,
            owners.len() == height,
            forall|p: int| 0 <= p < height ==> match #[trigger] winners@[p] {
                Some((_, _, k, c)) => owners[p] == Some((k, c)),
                None => owners[p] is None,
            },
            forall|p: int| 0 <= p < height ==> #[trigger] owners[p] == owner(sp, p, height as int),
            forall|k: int| 0 <= k < segments@.len() ==> segment_is_run(sp, height as int, #[trigger] segments@[k]),
            forall|k: int| 0 <= k < segments@.len() ==> #[trigger] segments@[k].start + segments@[k].len <= pixel,
            forall|k: int, l: int|
                0 <= k < l < segments@.len() ==> segments@[k].start + segments@[k].len
                    <= segments@[l].start,
            forall|p: int|
                0 <= p < pixel && (#[trigger] owners[p]) is Some ==> exists|k: int|
                    0 <= k < segments@.len() && (#[trigger] segments@[k]).start <= p < segments@[k].start
                        + segments@[k].len,
            0 < pixel < height && owners[pixel - 1] is Some ==> owners[pixel as int] != owners[pixel - 1],
        decreases height - pixel,
    {
        match winners[pixel] {
            None => {
                pixel += 1;
            },
            Some((_, _, kind, color)) => {
                let start = pixel;
                pixel += 1;
                while pixel < height && slot_owned_by(&winners, pixel, kind, color)
                    invariant
                        start < pixel <= height,
                        winners@.len() == height,
                        owners.len() == height,
                        forall|p: int| 0 <= p < height ==> match #[trigger] winners@[p] {
                            Some((_, _, k, c)) => owners[p] == Some((k, c)),
                            None => owners[p] is None,
                        },
                        forall|p: int| start <= p < pixel ==> #[trigger] owners[p] == Some((kind, color)),
                    decreases height - pixel,
                {
                    pixel += 1;
                }
                let seg = MarkerSegment { start, len: pixel - start, kind, color };
                proof {
                    assert forall|p: int| seg.start <= p < seg.start + seg.len implies owner(
                        sp,
                        p,
                        height as int,
                    ) == Some((seg.kind, seg.color)) by {
                        assert(owners[p] == Some((kind, color)));
                    }
                    if start > 0 {
                        assert(owners[start - 1] == owner(sp, start - 1, height as int));
                    }
                    if pixel < height {
                        assert(owners[pixel as int] == owner(sp, pixel as int, height as int));
                    }
                }
                let ghost old_segs = segments@;
                assert(forall|p: int|
                    0 <= p < start && (#[trigger] owners[p]) is Some ==> exists|k: int|
                        0 <= k < old_segs.len() && (#[trigger] old_segs[k]).start <= p
                            < old_segs[k].start + old_segs[k].len);
                segments.push(seg);
                proof {
                    assert forall|p: int|
                        0 <= p < pixel && (#[trigger] owners[p]) is Some implies exists|k: int|
                            0 <= k < segments@.len() && (#[trigger] segments@[k]).start <= p
                                < segments@[k].start + segments@[k].len by {
                        if p >= start {
                            assert(segments@[segments@.len() - 1] == seg);
                        } else {
                            let k = choose|k: int|
                                0 <= k < old_segs.len() && (#[trigger] old_segs[k]).start <= p
                                    < old_segs[k].start + old_segs[k].len;
                            assert(segments@[k] == old_segs[k]);
                        }
                    }
                }
            },
        }
    }
    proof {
        assert forall|p: int|
            0 <= p < height && (#[trigger] owner(sp, p, height as int)) is Some implies exists|k: int|
                0 <= k < segments@.len() && (#[trigger] segments@[k]).start <= p < segments@[k].start
                    + segments@[k].len by {
            assert(owners[p] == owner(sp, p, height as int));
        }
    }
    segments
}

/// Whether the pixel's winner has this kind and color.
fn slot_owned_by(
    winners: &Vec<Option<(u32, usize, ScrollbarMarkerKind, u64)>>,
    pixel: usize,
    kind: ScrollbarMarkerKind,
    color: u64,
) -> (r: bool)
    requires
        pixel < winners@.len(),
    ensures
        r == match winners@[pixel as int] {
            Some((_, _, k, c)) => k == kind && c == color,
            None => false,
        },
{
    match winners[pixel] {
        Some((_, _, k, c)) => k == kind && c == color,
        None => false,
    }
}

proof fn lemma_winner_in_range(spans: Seq<MarkerSpan>, n: int, p: int, height: int)
    requires
        0 <= n <= spans.len(),
    ensures
        winner_upto(spans, n, p, height) matches Some(w) ==> 0 <= w < n && covers(
            spans[w],
            p,
            height,
        ),
    decreases n,
{
    if n > 0 {
        lemma_winner_in_range(spans, n - 1, p, height);
    }
}

/// The marker that wins a pixel covers it, and every other marker covering
/// it has a lower priority, or the same priority and comes earlier; a pixel
/// no marker covers has no winner.
pub proof fn law_highest_priority_then_latest_wins(spans: Seq<MarkerSpan>, p: int, height: int)
    ensures
        match winner_upto(spans, spans.len() as int, p, height) {
            Some(w) => {
                &&& 0 <= w < spans.len()
                &&& covers(spans[w], p, height)
                &&& forall|i: int|
                    0 <= i < spans.len() && covers(#[trigger] spans[i], p, height) ==> spans[i].priority
                        < spans[w].priority || (spans[i].priority == spans[w].priority && i <= w)
            },
            None => forall|i: int| 0 <= i < spans.len() ==> !covers(#[trigger] spans[i], p, height),
        },
{
    lemma_winner_best(spans, spans.len() as int, p, height);
}

proof fn lemma_winner_best(spans: Seq<MarkerSpan>, n: int, p: int, height: int)
    requires
        0 <= n <= spans.len(),
    ensures
        match winner_upto(spans, n, p, height) {
            Some(w) => {
                &&& 0 <= w < n
                &&& covers(spans[w], p, height)
                &&& forall|i: int|
                    0 <= i < n && covers(#[trigger] spans[i], p, height) ==> spans[i].priority
                        < spans[w].priority || (spans[i].priority == spans[w].priority && i <= w)
            },
            None => forall|i: int| 0 <= i < n ==> !covers(#[trigger] spans[i], p, height),
        },
    decreases n,
{
    if n > 0 {
        lemma_winner_best(spans, n - 1, p, height);
    }
}

} // verus!
