//! The look of the interface: colours, padding and timing.

use vstd::prelude::*;

verus! {

/// Padding before and after each entry, in percent of the font's line height.
pub const PADDING: u8 = 20;

/// How long without input before idle animations start, in nanoseconds.
pub const IDLE_TIMEOUT: u64 = 2_000_000_000;

/// A set of colours and measures for drawing the interface.
#[derive(Debug, Clone, Copy)]
pub struct Theme {
    pub bg_tabs: (u8, u8, u8),
    pub bg_widgets: (u8, u8, u8),
    pub fg_widgets: (u8, u8, u8),
    pub selection_style: SelectionStyle,
    pub padding: u8,
    pub idle_timeout: u64,
}

/// How the selected entry is marked.
#[derive(Debug, Clone, Copy, PartialEq, Eq, Structural)]
pub enum SelectionStyle {
    Outline(u8, u8, u8),
    BackgroundDiff,
    TextHighlight(u8, u8, u8),
}

impl Theme {
    /// The path of the font that labels are rendered with.
    pub fn font() -> (r: &'static str)
        ensures
            r@ == "/usr/share/fonts/liberation/LiberationSans-Regular.ttf"@,
    {
        "/usr/share/fonts/liberation/LiberationSans-Regular.ttf"
    }

    /// Background of the tab list.
    pub fn bg_tabs() -> (r: (u8, u8, u8))
        ensures
            r == (50u8, 50u8, 50u8),
    {
        (50, 50, 50)
    }

    /// Background of the widget list.
    pub fn bg_widgets() -> (r: (u8, u8, u8))
        ensures
            r == (30u8, 30u8, 30u8),
    {
        (30, 30, 30)
    }

    /// Colour of widget decorations.
    pub fn fg_widgets() -> (r: (u8, u8, u8))
        ensures
            r == (250u8, 250u8, 250u8),
    {
        (250, 250, 250)
    }

    /// How the selected entry is marked.
    pub fn selection_style() -> (r: SelectionStyle)
        ensures
            r == SelectionStyle::Outline(200, 200, 200),
    {
        SelectionStyle::Outline(200, 200, 200)
    }

    /// Padding around entries, in percent of the font's line height.
    pub fn padding() -> (r: u8)
        ensures
            r == PADDING,
    {
        PADDING
    }

    /// Time without input before idle animations start, in nanoseconds.
    pub fn idle_timeout() -> (r: u64)
        ensures
            r == IDLE_TIMEOUT,
    {
        IDLE_TIMEOUT
    }

    /// The theme these functions describe.
    pub fn current() -> (r: Theme)
        ensures
            r.bg_tabs == (50u8, 50u8, 50u8),
            r.bg_widgets == (30u8, 30u8, 30u8),
            r.fg_widgets == (250u8, 250u8, 250u8),
            r.selection_style == SelectionStyle::Outline(200, 200, 200),
            r.padding == PADDING,
            r.idle_timeout == IDLE_TIMEOUT,
    {
        Theme {
            bg_tabs: Theme::bg_tabs(),
            bg_widgets: Theme::bg_widgets(),
            fg_widgets: Theme::fg_widgets(),
            selection_style: Theme::selection_style(),
            padding: Theme::padding(),
            idle_timeout: Theme::idle_timeout(),
        }
    }
}

} // verus!
