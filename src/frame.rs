//! One frame of the interface: what to draw where, computed from the state
//! between frames.

use vstd::prelude::*;
use crate::geometry::{clamp_i32, saturate_i32, Rect, SIZE_MAX};
use crate::widget::{decoration_of, sub0, Decoration, Widget, TIMER_NEVER};

verus! {

/// The y-position after the first `n` rows of a list that starts at `start`,
/// each row being `pad`, a label of height `heights[k]`, and `pad` again.
pub open spec fn rows_end(heights: Seq<int>, pad: int, start: int, n: int) -> int
    decreases n,
{
    if n <= 0 {
        start
    } else {
        let top = clamp_i32(rows_end(heights, pad, start, n - 1) + pad);
        clamp_i32(clamp_i32(top + heights[n - 1]) + pad)
    }
}

/// The y-position of the label of row `i`.
pub open spec fn row_top(heights: Seq<int>, pad: int, start: int, i: int) -> int {
    clamp_i32(rows_end(heights, pad, start, i) + pad)
}

/// The label heights of a list of widgets.
pub open spec fn widget_heights(ws: Seq<Widget>) -> Seq<int> {
    Seq::new(ws.len(), |i: int| ws[i].label_h as int)
}

/// A widget after a frame: what it displays has moved one step, and a due
/// timer is disarmed.
pub open spec fn framed(w: Widget, now: u64) -> Widget {
    let a = Widget { state: w.state.animated(), ..w };
    if timer_due(w, now) { Widget { next_callback: TIMER_NEVER, ..a } } else { a }
}

/// Whether the widget's timer is due at `now`.
pub open spec fn timer_due(w: Widget, now: u64) -> bool {
    w.state.uses_timer() && now > w.next_callback
}

/// A widget's row in the widget panel.
#[derive(Debug, Clone, Copy, PartialEq, Eq, Structural)]
pub struct WidgetRow {
    /// Where the row is drawn; the label goes at its top left.
    pub rect: Rect,
    /// What is drawn beside the label, relative to the row.
    pub decoration: Decoration,
    /// Whether the widget's callback is to run for its timer.
    pub timer_due: bool,
}

/// Where row `i` of `ws` goes in the panel `right`, shifted right by `offset`.
pub open spec fn row_rect(ws: Seq<Widget>, right: Rect, offset: int, pad: int, i: int) -> Rect {
    Rect::spec_new(offset + pad, row_top(widget_heights(ws), pad, right.y as int, i), right.w as int, ws[i].label_h as int)
}

/// The row drawn for widget `i` of `ws` at time `now`.
pub open spec fn row_of(ws: Seq<Widget>, right: Rect, offset: int, pad: int, i: int, now: u64) -> WidgetRow {
    let rect = row_rect(ws, right, offset, pad, i);
    WidgetRow {
        rect,
        decoration: decoration_of(ws[i].state.animated(), ws[i].label_w as int, rect.w as int, rect.h as int),
        timer_due: timer_due(ws[i], now),
    }
}

/// The highlight around row `i`: the row with its padding.
pub open spec fn row_highlight(ws: Seq<Widget>, right: Rect, offset: int, pad: int, i: int) -> Rect {
    Rect::spec_new(
        offset,
        row_top(widget_heights(ws), pad, right.y as int, i) - pad,
        sub0(right.w as int, 1),
        ws[i].label_h + 2 * pad,
    )
}

/// Lays out the widgets `ws` in the panel `right`, steps their animations and
/// polls their timers. Returns the rows, the y-position after the last row,
/// and the highlight around row `cw`.
pub fn layout_rows(ws: &mut Vec<Widget>, right: Rect, offset: i32, pad: i32, now: u64, cw: usize) -> (r: (
    Vec<WidgetRow>,
    i32,
    Rect,
))
    requires
        right.wf(),
        0 <= offset <= SIZE_MAX,
        0 <= pad <= 1_000_000,
        cw < old(ws)@.len(),
        forall|k: int| 0 <= k < old(ws)@.len() ==> #[trigger] old(ws)@[k].wf(),
    ensures
        final(ws)@.len() == old(ws)@.len(),
        forall|k: int| 0 <= k < old(ws)@.len() ==> #[trigger] final(ws)@[k] == framed(old(ws)@[k], now),
        r.0@.len() == old(ws)@.len(),
        forall|k: int|
            0 <= k < old(ws)@.len() ==> #[trigger] r.0@[k] == row_of(old(ws)@, right, offset as int, pad as int, k, now),
        r.1 == rows_end(widget_heights(old(ws)@), pad as int, right.y as int, old(ws)@.len() as int),
        r.2 == row_highlight(old(ws)@, right, offset as int, pad as int, cw as int),
{
    let ghost ws0 = ws@;
    let ghost hs = widget_heights(ws0);
    let mut rows: Vec<WidgetRow> = Vec::new();
    let mut y: i32 = right.y;
    let mut highlight = Rect { x: 0, y: 0, w: 1, h: 1 };
    let mut i: usize = 0;
    while i < ws.len()
        invariant
            right.wf(),
            0 <= offset <= SIZE_MAX,
            0 <= pad <= 1_000_000,
            cw < ws0.len(),
            forall|k: int| 0 <= k < ws0.len() ==> #[trigger] ws0[k].wf(),
            hs == widget_heights(ws0),
            i <= ws@.len(),
            ws@.len() == ws0.len(),
            rows@.len() == i,
            forall|k: int| 0 <= k < i ==> #[trigger] ws@[k] == framed(ws0[k], now),
            forall|k: int| i <= k < ws0.len() ==> #[trigger] ws@[k] == ws0[k],
            forall|k: int| 0 <= k < i ==> #[trigger] rows@[k] == row_of(ws0, right, offset as int, pad as int, k, now),
            y == rows_end(hs, pad as int, right.y as int, i as int),
            i > cw ==> highlight == row_highlight(ws0, right, offset as int, pad as int, cw as int),
        decreases ws0.len() - i,
    {
        let top = saturate_i32(y as i64 + pad as i64);
        let h = ws[i].height();
        let rect = Rect::new_wide(offset as i64 + pad as i64, top as i64, right.w as u64, h as u64);
        if i == cw {
            highlight = Rect::new_wide(
                offset as i64,
                top as i64 - pad as i64,
                right.w.saturating_sub(1) as u64,
                h as u64 + 2 * pad as u64,
            );
        }
        let decoration = ws[i].draw_step(rect.w, rect.h);
        let due = ws[i].poll_timer(now);
        rows.push(WidgetRow { rect, decoration, timer_due: due });
        y = saturate_i32(saturate_i32(top as i64 + h as i64) as i64 + pad as i64);
        proof {
            assert(hs[i as int] == h);
        }
        i += 1;
    }
    (rows, y, highlight)
}

/// The scroll target after bringing the highlight `sel` into the panel
/// `right`: up by what sticks out below, down by what sticks out above.
pub open spec fn scroll_toward(want: int, sel: Rect, right: Rect) -> int {
    let w1 = if sel.y + sel.h > right.h { clamp_i32(want - (sel.y + sel.h - right.h)) } else { want };
    if sel.y < 0 { clamp_i32(w1 - sel.y) } else { w1 }
}

/// The scroll target kept, when the rows end below the panel at `end`,
/// between showing the last row at the bottom and no shift at all.
pub open spec fn scroll_bounded(want: int, end: int, right: Rect) -> int {
    if end > right.h {
        let lo = right.h + right.y - end;
        if want < lo { lo } else if want > 0 { 0 } else { want }
    } else {
        want
    }
}

/// Moves the scroll target so that the highlight `sel` lies in `right`.
pub fn scroll_into_view(want: i32, sel: Rect, right: Rect) -> (r: i32)
    requires
        sel.wf(),
        right.wf(),
    ensures
        r == scroll_toward(want as int, sel, right),
{
    let mut w: i32 = want;
    if sel.bottom() > right.h as i32 {
        w = saturate_i32(w as i64 - (sel.bottom() as i64 - right.h as i64));
    }
    if sel.y < 0 {
        w = saturate_i32(w as i64 - sel.y as i64);
    }
    w
}

/// Bounds the scroll target by where the rows end (see `scroll_bounded`).
pub fn bound_scroll(want: i32, end: i32, right: Rect) -> (r: i32)
    requires
        right.wf(),
    ensures
        r == scroll_bounded(want as int, end as int, right),
{
    if end > right.h as i32 {
        let lo: i64 = right.h as i64 + right.y as i64 - end as i64;
        if (want as i64) < lo {
            lo as i32
        } else if want > 0 {
            0
        } else {
            want
        }
    } else {
        want
    }
}

} // verus!
