//! Where the tab list and the widget list go on the surface.

use vstd::prelude::*;
use crate::focus::Focus;
use crate::geometry::{Rect, SIZE_MAX};
use crate::theme::PADDING;

verus! {

/// Surfaces narrower than this show one panel at a time.
pub const TWO_PANEL_MIN_WIDTH: u32 = 641;

/// Whether a `w` by `h` surface shows one panel only: when it is taller than
/// wide, or narrower than `TWO_PANEL_MIN_WIDTH`.
pub open spec fn one_panel(w: u32, h: u32) -> bool {
    h > w || w < TWO_PANEL_MIN_WIDTH
}

/// The tab panel and the widget panel of a `w` by `h` surface. With one
/// panel, the focus picks which, and it fills the surface; with two, the tab
/// panel takes the left fifth and the widget panel the rest. The widget panel
/// is shifted down by `scroll`.
pub open spec fn panels(w: u32, h: u32, focus: Focus, scroll: i32) -> (Option<Rect>, Option<Rect>) {
    if one_panel(w, h) {
        if focus == Focus::TabBar {
            (Some(Rect::spec_new(0, 0, w as int, h as int)), None)
        } else {
            (None, Some(Rect::spec_new(0, scroll as int, w as int, h as int)))
        }
    } else {
        let sep = w / 5;
        (
            Some(Rect::spec_new(0, 0, sep as int, h as int)),
            Some(Rect::spec_new(sep as int, scroll as int, (w - sep) as int, h as int)),
        )
    }
}

/// Picks the panels for a surface of `width` by `height` (see `panels`).
pub fn layout_panels(width: u32, height: u32, focus: Focus, widget_scroll: i32) -> (r: (
    Option<Rect>,
    Option<Rect>,
))
    ensures
        r == panels(width, height, focus, widget_scroll),
{
    if height > width || width < TWO_PANEL_MIN_WIDTH {
        match focus {
            Focus::TabBar => (Some(Rect::new(0, 0, width, height)), None),
            Focus::Widgets | Focus::WidgetSingle => (
                None,
                Some(Rect::new(0, widget_scroll, width, height)),
            ),
        }
    } else {
        let sep = width / 5;
        let r_width = width - sep;
        let l_width = width - r_width;
        (Some(Rect::new(0, 0, l_width, height)), Some(Rect::new(sep as i32, widget_scroll, r_width, height)))
    }
}

/// With two panels the tab panel starts at the left edge, the widget panel
/// starts where it ends, and together they span the surface's width; both
/// span its height.
pub proof fn lemma_two_panel_split(w: u32, h: u32, focus: Focus, scroll: i32)
    requires
        !one_panel(w, h),
        w <= SIZE_MAX,
        1 <= h <= SIZE_MAX,
    ensures
        ({
            let (l, r) = panels(w, h, focus, scroll);
            &&& l is Some && r is Some
            &&& l.unwrap().x == 0 && l.unwrap().y == 0
            &&& r.unwrap().x == l.unwrap().w
            &&& l.unwrap().w + r.unwrap().w == w
            &&& l.unwrap().h == h && r.unwrap().h == h
        }),
{
}

/// The padding in pixels for a font `font_height` pixels high.
pub open spec fn pad_of(font_height: int) -> int {
    PADDING * font_height / 100
}

/// How far a label wider than its panel is scrolled left: the scroll
/// counter, up to 128, as a share of 128 of the overflow plus the padding.
pub open spec fn marquee(tab_scroll: u8, label_w: int, panel_w: int, pad: int) -> int {
    if label_w > panel_w {
        (if tab_scroll > 128 { 128 } else { tab_scroll as int }) * (label_w - panel_w + pad) / 128
    } else {
        0
    }
}

/// Scroll offset of a tab label (see `marquee`); it lies between 0 and the
/// label's overflow plus the padding.
pub fn marquee_offset(tab_scroll: u8, label_w: u32, panel_w: u32, pad: i32) -> (r: i32)
    requires
        label_w <= SIZE_MAX,
        0 <= pad <= 1_000_000,
    ensures
        r == marquee(tab_scroll, label_w as int, panel_w as int, pad as int),
        0 <= r,
        label_w > panel_w ==> r <= label_w - panel_w + pad,
        label_w <= panel_w ==> r == 0,
{
    if label_w > panel_w {
        let max: u64 = (label_w - panel_w) as u64 + pad as u64;
        let s: u64 = if tab_scroll > 128 { 128 } else { tab_scroll as u64 };
        assert(s * max / 128 <= max) by (nonlinear_arith)
            requires s <= 128, max >= 0;
        assert(s * max <= 128 * (SIZE_MAX + 1_000_000)) by (nonlinear_arith)
            requires s <= 128, max <= SIZE_MAX + 1_000_000;
        (s * max / 128) as i32
    } else {
        0
    }
}

} // verus!
