//! The interface's state between frames: its tabs, the cursor, the focus
//! level, scrolling and the selection highlight, and how an action changes
//! them.

use vstd::prelude::*;
use crate::anim::{closer, closerize};
use crate::focus::Focus;
use crate::frame::{
    bound_scroll, framed, layout_rows, row_highlight, row_of, rows_end, row_top, scroll_bounded,
    scroll_into_view, scroll_toward, widget_heights, WidgetRow,
};
use crate::geometry::{saturate_i32, Rect, SelectionWindow, SIZE_MAX};
use crate::layout::{layout_panels, marquee, marquee_offset, pad_of, panels};
use crate::theme::{Theme, IDLE_TIMEOUT};
use crate::widget::{sub0, ActionKey, Widget, WidgetState};

verus! {

/// What a frame reports to the loop that drives the interface.
#[derive(Debug, Clone, Copy, PartialEq, Eq, Structural)]
pub enum GuiEvent {
    Quit,
}

/// Largest font line height the layout accepts, in pixels.
pub const FONT_HEIGHT_MAX: i32 = 10000;

/// A tab: the size of its rendered label and its widgets, in order.
pub struct Tab {
    pub label_w: u32,
    pub label_h: u32,
    pub widgets: Vec<Widget>,
}

/// What a tab holds, as values.
pub struct TabView {
    pub label_w: u32,
    pub label_h: u32,
    pub widgets: Seq<Widget>,
}

impl TabView {
    pub open spec fn wf(self) -> bool {
        self.label_w <= SIZE_MAX && self.label_h <= SIZE_MAX && forall|j: int|
            0 <= j < self.widgets.len() ==> #[trigger] self.widgets[j].wf()
    }
}

impl View for Tab {
    type V = TabView;

    open spec fn view(&self) -> TabView {
        TabView { label_w: self.label_w, label_h: self.label_h, widgets: self.widgets@ }
    }
}

impl Tab {
    /// A tab with a label of the given size and these widgets.
    pub fn new(label_w: u32, label_h: u32, widgets: Vec<Widget>) -> (r: Tab)
        ensures
            r@ == (TabView { label_w, label_h, widgets: widgets@ }),
    {
        Tab { label_w, label_h, widgets }
    }

    /// Whether the label and every widget's label are within the size limits.
    pub fn is_valid(&self) -> (r: bool)
        ensures
            r == self@.wf(),
    {
        if self.label_w > SIZE_MAX || self.label_h > SIZE_MAX {
            return false;
        }
        let mut j: usize = 0;
        while j < self.widgets.len()
            invariant
                j <= self.widgets@.len(),
                forall|k: int| 0 <= k < j ==> #[trigger] self.widgets@[k].wf(),
            decreases self.widgets@.len() - j,
        {
            if self.widgets[j].label_w > SIZE_MAX || self.widgets[j].label_h > SIZE_MAX {
                assert(!self@.widgets[j as int].wf());
                return false;
            }
            j += 1;
        }
        true
    }
}

/// The tab collection as values; `None` is a separator.
pub open spec fn tabs_view(tabs: Seq<Option<Tab>>) -> Seq<Option<TabView>> {
    tabs.map_values(
        |t: Option<Tab>|
            match t {
                Some(t) => Some(t@),
                None => None,
            },
    )
}

/// The nearest tab at or before index `i`.
pub open spec fn prev_selectable(tabs: Seq<Option<TabView>>, i: int) -> Option<int>
    decreases i + 1,
{
    if i < 0 || i >= tabs.len() {
        None
    } else if tabs[i] is Some {
        Some(i)
    } else {
        prev_selectable(tabs, i - 1)
    }
}

/// The nearest tab at or after index `i`.
pub open spec fn next_selectable(tabs: Seq<Option<TabView>>, i: int) -> Option<int>
    decreases tabs.len() - i,
{
    if i < 0 || i >= tabs.len() {
        None
    } else if tabs[i] is Some {
        Some(i)
    } else {
        next_selectable(tabs, i + 1)
    }
}

/// The state of the interface, as values.
pub struct GuiView {
    pub tabs: Seq<Option<TabView>>,
    pub current_tab: int,
    pub current_widget: int,
    pub font_height: int,
    pub window_size: (u32, u32),
    pub focus: Focus,
    pub last_interaction: u64,
    pub tab_scroll: u8,
    pub selection: SelectionWindow,
    pub want_widget_scroll: i32,
    pub widget_scroll: i32,
}

impl GuiView {
    /// The widgets of the active tab.
    pub open spec fn cur_widgets(self) -> Seq<Widget> {
        self.tabs[self.current_tab].unwrap().widgets
    }

    /// The active tab is a tab, not a separator; the widget cursor points at a
    /// widget, or is 0, and it points at one whenever the tab bar is left.
    pub open spec fn wf(self) -> bool {
        &&& 0 <= self.current_tab < self.tabs.len()
        &&& self.tabs[self.current_tab] is Some
        &&& forall|i: int|
            0 <= i < self.tabs.len() && #[trigger] self.tabs[i] is Some ==> self.tabs[i].unwrap().wf()
        &&& 0 <= self.font_height <= FONT_HEIGHT_MAX
        &&& self.selection.wf()
        &&& 0 <= self.current_widget
        &&& (self.current_widget == 0 || self.current_widget < self.cur_widgets().len())
        &&& (self.focus != Focus::TabBar ==> self.current_widget < self.cur_widgets().len())
    }

    /// This state with widget `w` in place of widget `i` of the active tab.
    pub open spec fn with_widget_at(self, i: int, w: Widget) -> GuiView {
        let t = self.tabs[self.current_tab].unwrap();
        GuiView {
            tabs: self.tabs.update(self.current_tab, Some(TabView { widgets: t.widgets.update(i, w), ..t })),
            ..self
        }
    }

    /// This state with widget `w` in place of the one under the cursor.
    pub open spec fn with_widget(self, w: Widget) -> GuiView {
        self.with_widget_at(self.current_widget, w)
    }

    /// Any action counts as an interaction: the idle clock restarts and the
    /// tab label scroll goes back to its start.
    pub open spec fn touched(self, a: ActionKey, now: u64) -> GuiView {
        if a != ActionKey::NoAction {
            GuiView { last_interaction: now, tab_scroll: 0, ..self }
        } else {
            self
        }
    }

    /// The state after action `a` at time `now`, and the index in the active
    /// tab of the widget whose callback fires, if any.
    pub open spec fn after_action(self, a: ActionKey, now: u64) -> (GuiView, Option<int>) {
        let g0 = self.touched(a, now);
        let ws = self.cur_widgets();
        let cw = self.current_widget;
        if a == ActionKey::NoAction {
            (self, None)
        } else if a == ActionKey::Press {
            if self.focus == Focus::TabBar {
                (if ws.len() > 0 { GuiView { focus: Focus::Widgets, ..g0 } } else { g0 }, None)
            } else if cw < ws.len() {
                let w = ws[cw];
                let f = if w.state.grabs() && self.focus == Focus::Widgets {
                    Focus::WidgetSingle
                } else {
                    self.focus
                };
                (
                    GuiView { focus: f, ..g0 }.with_widget(w.acted(a)),
                    if w.state.fires(a) { Some(cw) } else { None },
                )
            } else {
                (g0, None)
            }
        } else if a == ActionKey::Back {
            (GuiView { focus: self.focus.bumped_up(), ..g0 }, None)
        } else {
            match self.focus {
                Focus::TabBar => {
                    let t = if a == ActionKey::Up {
                        prev_selectable(self.tabs, self.current_tab - 1)
                    } else if a == ActionKey::Down {
                        next_selectable(self.tabs, self.current_tab + 1)
                    } else {
                        None
                    };
                    (
                        match t {
                            Some(i) => GuiView { current_tab: i, current_widget: 0, ..g0 },
                            None => g0,
                        },
                        None,
                    )
                },
                Focus::Widgets => {
                    let n = if a == ActionKey::Up {
                        if cw > 0 { cw - 1 } else { 0 }
                    } else if a == ActionKey::Down {
                        cw + 1
                    } else {
                        cw
                    };
                    (if n < ws.len() { GuiView { current_widget: n, ..g0 } } else { g0 }, None)
                },
                Focus::WidgetSingle => {
                    if cw < ws.len() && ws[cw].state.grabs() {
                        (
                            g0.with_widget(ws[cw].acted(a)),
                            if ws[cw].state.fires(a) { Some(cw) } else { None },
                        )
                    } else {
                        (g0, None)
                    }
                },
            }
        }
    }
}


/// The label heights of the tab list; a separator has none.
pub open spec fn tab_heights(tabs: Seq<Option<TabView>>) -> Seq<int> {
    Seq::new(
        tabs.len(),
        |i: int|
            match tabs[i] {
                Some(t) => t.label_h as int,
                None => 0,
            },
    )
}

/// What a frame hands over for drawing.
pub struct Frame {
    /// The tab panel, if shown.
    pub left: Option<Rect>,
    /// The widget panel, if shown.
    pub right: Option<Rect>,
    /// Where each tab label goes, `None` for separators; empty when the tab
    /// panel is hidden.
    pub tab_rects: Vec<Option<Rect>>,
    /// The rows of the active tab's widgets; empty when the widget panel is
    /// hidden.
    pub widget_rows: Vec<WidgetRow>,
    /// The highlight rectangle to outline.
    pub selection: Rect,
    /// The highlight's colour.
    pub selection_colors: (u8, u8, u8),
}

impl GuiView {
    /// After the idle step at `now`: once no action has come for longer than
    /// `timeout`, the tab label scroll counts up by one per frame, and when it
    /// wraps around the idle clock restarts.
    pub open spec fn idled(self, now: u64, timeout: u64) -> GuiView {
        if sub0(now as int, self.last_interaction as int) > timeout {
            if self.tab_scroll == 255 {
                GuiView { tab_scroll: 0, last_interaction: now, ..self }
            } else {
                GuiView { tab_scroll: (self.tab_scroll + 1) as u8, ..self }
            }
        } else {
            self
        }
    }

    /// The padding in pixels.
    pub open spec fn pad(self) -> int {
        pad_of(self.font_height)
    }

    /// Where the label of entry `i` goes in the tab panel `left`. The active
    /// tab's label, while the tab bar has focus, scrolls left by its marquee
    /// offset.
    pub open spec fn tab_rect(self, left: Rect, i: int) -> Option<Rect> {
        match self.tabs[i] {
            None => None,
            Some(t) => {
                let off = if i == self.current_tab && self.focus == Focus::TabBar {
                    marquee(self.tab_scroll, t.label_w as int, left.w as int, self.pad())
                } else {
                    0
                };
                Some(
                    Rect::spec_new(
                        self.pad() - off,
                        row_top(tab_heights(self.tabs), self.pad(), 0, i),
                        t.label_w as int,
                        t.label_h as int,
                    ),
                )
            },
        }
    }

    /// The highlight around the active tab in the tab panel `left`.
    pub open spec fn tab_highlight(self, left: Rect) -> Rect {
        Rect::spec_new(
            left.x + self.pad() / 2,
            left.y + row_top(tab_heights(self.tabs), self.pad(), 0, self.current_tab) - self.pad() / 2,
            sub0(left.w as int, self.pad()),
            self.tabs[self.current_tab].unwrap().label_h + self.pad(),
        )
    }

    /// After laying out the tab panel `left`: the highlight heads for the
    /// active tab while the tab bar has focus.
    pub open spec fn after_tabs(self, left: Rect) -> GuiView {
        if self.focus == Focus::TabBar {
            GuiView { selection: SelectionWindow { desired: self.tab_highlight(left), ..self.selection }, ..self }
        } else {
            self
        }
    }

    /// After laying out the widget panel `right` at `now`: the widgets have
    /// stepped their animations and polled their timers; away from the tab
    /// bar the highlight heads for the widget under the cursor and the scroll
    /// target brings it into view; the scroll target is then bounded.
    pub open spec fn after_widgets(self, right: Rect, offset: int, now: u64) -> GuiView {
        let t = self.tabs[self.current_tab].unwrap();
        let ws = t.widgets;
        let hl = row_highlight(ws, right, offset, self.pad(), self.current_widget);
        let end = rows_end(widget_heights(ws), self.pad(), right.y as int, ws.len() as int);
        let selected = self.focus != Focus::TabBar;
        let want1 = if selected { scroll_toward(self.want_widget_scroll as int, hl, right) } else { self.want_widget_scroll as int };
        GuiView {
            tabs: self.tabs.update(
                self.current_tab,
                Some(TabView { widgets: Seq::new(ws.len(), |k: int| framed(ws[k], now)), ..t }),
            ),
            want_widget_scroll: scroll_bounded(want1, end, right) as i32,
            selection: if selected { SelectionWindow { desired: hl, ..self.selection } } else { self.selection },
            ..self
        }
    }

    /// The panels of a frame at `now`.
    pub open spec fn frame_panels(self, now: u64) -> (Option<Rect>, Option<Rect>) {
        let g = self.idled(now, IDLE_TIMEOUT);
        panels(g.window_size.0, g.window_size.1, g.focus, g.widget_scroll)
    }

    /// The state after the tab panel of a frame at `now`.
    pub open spec fn frame_tabs(self, now: u64) -> GuiView {
        let g = self.idled(now, IDLE_TIMEOUT);
        match self.frame_panels(now).0 {
            Some(l) => g.after_tabs(l),
            None => g,
        }
    }

    /// How far the widget panel's rows are shifted right: the tab panel's
    /// width when it is shown.
    pub open spec fn frame_offset(self, now: u64) -> int {
        match self.frame_panels(now).0 {
            Some(l) => l.w as int,
            None => 0,
        }
    }

    /// The state after the widget panel of a frame at `now`.
    pub open spec fn frame_widgets(self, now: u64) -> GuiView {
        let g = self.frame_tabs(now);
        match self.frame_panels(now).1 {
            Some(r) => g.after_widgets(r, self.frame_offset(now), now),
            None => g,
        }
    }

    /// The state after a frame at `now`: the widget panel's scroll and the
    /// highlight have moved one step toward their targets.
    pub open spec fn after_frame(self, now: u64) -> GuiView {
        let g = self.frame_widgets(now);
        GuiView {
            widget_scroll: closer(g.widget_scroll as int, g.want_widget_scroll as int) as i32,
            selection: SelectionWindow { rect: g.selection.stepped(), ..g.selection },
            ..g
        }
    }
}

/// The interface's state between frames.
pub struct Gui {
    tabs: Vec<Option<Tab>>,
    current_tab: usize,
    current_widget: usize,
    font_height: i32,
    window_size: (u32, u32),
    focus: Focus,
    last_interaction: u64,
    tab_scroll: u8,
    selection: SelectionWindow,
    want_widget_scroll: i32,
    widget_scroll: i32,
}

impl View for Gui {
    type V = GuiView;

    closed spec fn view(&self) -> GuiView {
        GuiView {
            tabs: tabs_view(self.tabs@),
            current_tab: self.current_tab as int,
            current_widget: self.current_widget as int,
            font_height: self.font_height as int,
            window_size: self.window_size,
            focus: self.focus,
            last_interaction: self.last_interaction,
            tab_scroll: self.tab_scroll,
            selection: self.selection,
            want_widget_scroll: self.want_widget_scroll,
            widget_scroll: self.widget_scroll,
        }
    }
}

/// The index of the nearest tab before `cur`, if there is one.
fn prev_tab(tabs: &Vec<Option<Tab>>, cur: usize) -> (r: Option<usize>)
    requires
        cur < tabs@.len(),
    ensures
        match r {
            Some(i) => prev_selectable(tabs_view(tabs@), cur - 1) == Some(i as int),
            None => prev_selectable(tabs_view(tabs@), cur - 1) is None,
        },
{
    let ghost tv = tabs_view(tabs@);
    let mut i: usize = cur;
    while i > 0
        invariant
            i <= cur < tabs@.len(),
            tv == tabs_view(tabs@),
            prev_selectable(tv, cur - 1) == prev_selectable(tv, i - 1),
        decreases i,
    {
        i -= 1;
        if tabs[i].is_some() {
            return Some(i);
        }
    }
    None
}

/// The index of the nearest tab after `cur`, if there is one.
fn next_tab(tabs: &Vec<Option<Tab>>, cur: usize) -> (r: Option<usize>)
    requires
        cur < tabs.len(),
    ensures
        match r {
            Some(i) => next_selectable(tabs_view(tabs@), cur + 1) == Some(i as int),
            None => next_selectable(tabs_view(tabs@), cur + 1) is None,
        },
{
    let ghost tv = tabs_view(tabs@);
    let mut i: usize = cur + 1;
    while i < tabs.len()
        invariant
            cur < i <= tabs@.len(),
            tv == tabs_view(tabs@),
            next_selectable(tv, cur + 1) == next_selectable(tv, i as int),
        decreases tabs@.len() - i,
    {
        if tabs[i].is_some() {
            return Some(i);
        }
        i += 1;
    }
    None
}

impl Gui {
    pub open spec fn wf(&self) -> bool {
        self@.wf()
    }

    /// The number of widgets of the active tab.
    fn cur_len(&self) -> (r: usize)
        requires
            self.wf(),
        ensures
            r == self@.cur_widgets().len(),
    {
        match &self.tabs[self.current_tab] {
            Some(t) => t.widgets.len(),
            None => 0,
        }
    }

    /// Hands `action` to the widget under the cursor and returns whether its
    /// callback fires.
    fn act_on_widget(&mut self, action: &ActionKey) -> (fire: bool)
        requires
            old(self).wf(),
            old(self)@.current_widget < old(self)@.cur_widgets().len(),
        ensures
            final(self)@ == old(self)@.with_widget(
                old(self)@.cur_widgets()[old(self)@.current_widget].acted(*action),
            ),
            fire == old(self)@.cur_widgets()[old(self)@.current_widget].state.fires(*action),
    {
        let ghost g = self@;
        let ct = self.current_tab;
        let cw = self.current_widget;
        let ghost old_tabs = self.tabs@;
        let slot = &mut self.tabs[ct];
        match slot {
            Some(tab) => {
                let fire = tab.widgets[cw].process_action(action);
                proof {
                    let t = g.tabs[ct as int].unwrap();
                    let nt = TabView {
                        widgets: t.widgets.update(cw as int, t.widgets[cw as int].acted(*action)),
                        ..t
                    };
                    assert(tabs_view(self.tabs@) =~= g.tabs.update(ct as int, Some(nt)));
                }
                fire
            },
            None => false,
        }
    }

    /// Whether the widget under the cursor takes directional input.
    fn cur_grabs(&self) -> (r: bool)
        requires
            self.wf(),
            self@.current_widget < self@.cur_widgets().len(),
        ensures
            r == self@.cur_widgets()[self@.current_widget].state.grabs(),
    {
        match &self.tabs[self.current_tab] {
            Some(t) => t.widgets[self.current_widget].grabs_input(),
            None => false,
        }
    }

    /// A state at the first tab with the tab bar focused, or `None` unless
    /// the first entry is a tab, every label is within the size limits and
    /// `font_height` lies in `[0, FONT_HEIGHT_MAX]`.
    pub fn new(tabs: Vec<Option<Tab>>, font_height: i32, window_size: (u32, u32), now: u64) -> (r:
        Option<Gui>)
        ensures
            r is Some <==> (tabs@.len() > 0 && tabs@[0] is Some && (forall|i: int|
                0 <= i < tabs@.len() && #[trigger] tabs@[i] is Some ==> tabs@[i].unwrap()@.wf())
                && 0 <= font_height <= FONT_HEIGHT_MAX),
            r is Some ==> r.unwrap().wf() && r.unwrap()@ == (GuiView {
                tabs: tabs_view(tabs@),
                current_tab: 0,
                current_widget: 0,
                font_height: font_height as int,
                window_size,
                focus: Focus::TabBar,
                last_interaction: now,
                tab_scroll: 0,
                selection: SelectionWindow {
                    rect: Rect { x: 0, y: 0, w: 1, h: 1 },
                    desired: Rect { x: 0, y: 0, w: 1, h: 1 },
                    colors: (255, 255, 255),
                },
                want_widget_scroll: 0,
                widget_scroll: 0,
            }),
    {
        if tabs.len() == 0 || tabs[0].is_none() || font_height < 0 || font_height > FONT_HEIGHT_MAX {
            return None;
        }
        let mut i: usize = 0;
        while i < tabs.len()
            invariant
                i <= tabs@.len(),
                forall|k: int| 0 <= k < i && #[trigger] tabs@[k] is Some ==> tabs@[k].unwrap()@.wf(),
            decreases tabs@.len() - i,
        {
            match &tabs[i] {
                Some(t) => {
                    if !t.is_valid() {
                        return None;
                    }
                },
                None => {},
            }
            i += 1;
        }
        let ghost tv = tabs_view(tabs@);
        assert forall|k: int| 0 <= k < tv.len() && #[trigger] tv[k] is Some implies tv[k].unwrap().wf() by {
            assert(tabs@[k] is Some);
        }
        Some(Gui {
            tabs,
            current_tab: 0,
            current_widget: 0,
            font_height,
            window_size,
            focus: Focus::TabBar,
            last_interaction: now,
            tab_scroll: 0,
            selection: SelectionWindow::new((255, 255, 255)),
            want_widget_scroll: 0,
            widget_scroll: 0,
        })
    }

    /// The index of the active tab.
    pub fn current_tab(&self) -> (r: usize)
        ensures
            r == self@.current_tab,
    {
        self.current_tab
    }

    /// The index of the widget under the cursor in the active tab.
    pub fn current_widget(&self) -> (r: usize)
        ensures
            r == self@.current_widget,
    {
        self.current_widget
    }

    /// The focus level.
    pub fn focus(&self) -> (r: Focus)
        ensures
            r == self@.focus,
    {
        self.focus
    }

    /// The tab label scroll counter.
    pub fn tab_scroll(&self) -> (r: u8)
        ensures
            r == self@.tab_scroll,
    {
        self.tab_scroll
    }

    /// The widget panel's vertical shift, and the shift it heads for.
    pub fn widget_scroll(&self) -> (r: (i32, i32))
        ensures
            r == (self@.widget_scroll, self@.want_widget_scroll),
    {
        (self.widget_scroll, self.want_widget_scroll)
    }

    /// The number of entries of the tab list, separators included.
    pub fn tab_count(&self) -> (r: usize)
        ensures
            r == self@.tabs.len(),
    {
        self.tabs.len()
    }

    /// Widget `i` of the active tab, if there is one.
    pub fn widget(&self, i: usize) -> (r: Option<Widget>)
        requires
            self.wf(),
        ensures
            i < self@.cur_widgets().len() ==> r == Some(self@.cur_widgets()[i as int]),
            i >= self@.cur_widgets().len() ==> r is None,
    {
        match &self.tabs[self.current_tab] {
            Some(t) => {
                if i < t.widgets.len() {
                    Some(t.widgets[i])
                } else {
                    None
                }
            },
            None => None,
        }
    }

    /// Stores what a callback left of widget `i` of the active tab: its state
    /// and when its timer is next due. Does nothing where there is no such
    /// widget.
    pub fn set_widget(&mut self, i: usize, state: WidgetState, next_callback: u64)
        requires
            old(self).wf(),
        ensures
            final(self).wf(),
            i < old(self)@.cur_widgets().len() ==> final(self)@ == old(self)@.with_widget_at(
                i as int,
                Widget { state, next_callback, ..old(self)@.cur_widgets()[i as int] },
            ),
            i >= old(self)@.cur_widgets().len() ==> final(self)@ == old(self)@,
    {
        let ghost g = self@;
        let ghost tabs0 = self.tabs@;
        let ct = self.current_tab;
        let slot = &mut self.tabs[ct];
        match slot {
            Some(tab) => {
                if i < tab.widgets.len() {
                    let w = tab.widgets[i];
                    tab.widgets.set(i, Widget { state, next_callback, ..w });
                    proof {
                        let t = g.tabs[ct as int].unwrap();
                        let nw = Widget { state, next_callback, ..t.widgets[i as int] };
                        let nt = TabView { widgets: t.widgets.update(i as int, nw), ..t };
                        assert(tabs_view(self.tabs@) =~= g.tabs.update(ct as int, Some(nt)));
                        assert(t.wf());
                        assert forall|j: int| 0 <= j < nt.widgets.len() implies #[trigger] nt.widgets[j].wf() by {
                            assert(t.widgets[j].wf());
                        }
                    }
                }
            },
            None => {},
        }
        proof {
            if i >= g.cur_widgets().len() {
                assert(self.tabs@ =~= tabs0);
            }
        }
    }

    /// Records a new surface size.
    pub fn resize(&mut self, width: u32, height: u32)
        requires
            old(self).wf(),
        ensures
            final(self).wf(),
            final(self)@ == (GuiView { window_size: (width, height), ..old(self)@ }),
    {
        self.window_size = (width, height);
    }

    /// The idle step at `now` (see `GuiView::idled`).
    pub fn idle_step(&mut self, now: u64, timeout: u64)
        requires
            old(self).wf(),
        ensures
            final(self).wf(),
            final(self)@ == old(self)@.idled(now, timeout),
    {
        if now.saturating_sub(self.last_interaction) > timeout {
            if self.tab_scroll == 255 {
                self.tab_scroll = 0;
                self.last_interaction = now;
            } else {
                self.tab_scroll = self.tab_scroll + 1;
            }
        }
    }

    /// Where each tab label goes in the tab panel `left`, and the top of the
    /// active tab's label.
    fn tab_layout(&self, left: Rect, pad: i32) -> (r: (Vec<Option<Rect>>, i32))
        requires
            self.wf(),
            left.wf(),
            pad == self@.pad(),
        ensures
            r.0@.len() == self@.tabs.len(),
            forall|i: int| 0 <= i < self@.tabs.len() ==> #[trigger] r.0@[i] == self@.tab_rect(left, i),
            r.1 == row_top(tab_heights(self@.tabs), pad as int, 0, self@.current_tab),
    {
        let ghost g = self@;
        let ghost hs = tab_heights(g.tabs);
        let mut out: Vec<Option<Rect>> = Vec::new();
        let mut y: i32 = 0;
        let mut cur_top: i32 = 0;
        let mut i: usize = 0;
        while i < self.tabs.len()
            invariant
                self.wf(),
                g == self@,
                hs == tab_heights(g.tabs),
                left.wf(),
                pad == g.pad(),
                0 <= pad <= 2000,
                i <= self.tabs@.len(),
                out@.len() == i,
                forall|k: int| 0 <= k < i ==> #[trigger] out@[k] == g.tab_rect(left, k),
                y == rows_end(hs, pad as int, 0, i as int),
                i > self.current_tab ==> cur_top == row_top(hs, pad as int, 0, g.current_tab),
            decreases self.tabs@.len() - i,
        {
            let top = saturate_i32(y as i64 + pad as i64);
            if i == self.current_tab {
                cur_top = top;
            }
            match &self.tabs[i] {
                Some(t) => {
                    proof {
                        assert(g.tabs[i as int] == Some(t@));
                        assert(g.tabs[i as int].unwrap().wf());
                    }
                    let off: i32 = if i == self.current_tab && self.focus == Focus::TabBar {
                        marquee_offset(self.tab_scroll, t.label_w, left.w, pad)
                    } else {
                        0
                    };
                    out.push(Some(Rect::new_wide(pad as i64 - off as i64, top as i64, t.label_w as u64, t.label_h as u64)));
                    y = saturate_i32(top as i64 + t.label_h as i64);
                },
                None => {
                    out.push(None);
                    y = saturate_i32(top as i64);
                },
            }
            y = saturate_i32(y as i64 + pad as i64);
            i += 1;
        }
        (out, cur_top)
    }

    /// Lays out the widget panel `right`, shifted right by `offset`, at `now`
    /// (see `GuiView::after_widgets`), and returns its rows.
    fn widget_layout(&mut self, right: Rect, offset: i32, pad: i32, now: u64) -> (rows: Vec<WidgetRow>)
        requires
            old(self).wf(),
            right.wf(),
            0 <= offset <= SIZE_MAX,
            pad == old(self)@.pad(),
        ensures
            final(self).wf(),
            final(self)@ == old(self)@.after_widgets(right, offset as int, now),
            rows@ == Seq::new(
                old(self)@.cur_widgets().len(),
                |k: int| row_of(old(self)@.cur_widgets(), right, offset as int, pad as int, k, now),
            ),
    {
        let ghost g = self@;
        let ct = self.current_tab;
        let cw = self.current_widget;
        let focus = self.focus;
        let slot = &mut self.tabs[ct];
        let (rows, end, hl) = match slot {
            Some(tab) => {
                proof {
                    assert(g.tabs[ct as int].unwrap().wf());
                }
                if tab.widgets.len() == 0 {
                    (Vec::new(), right.y, Rect { x: 0, y: 0, w: 1, h: 1 })
                } else {
                    let c = if cw < tab.widgets.len() { cw } else { 0 };
                    layout_rows(&mut tab.widgets, right, offset, pad, now, c)
                }
            },
            None => (Vec::new(), 0, Rect { x: 0, y: 0, w: 1, h: 1 }),
        };
        let selected = focus != Focus::TabBar;
        let mut want = self.want_widget_scroll;
        if selected {
            want = scroll_into_view(want, hl, right);
            self.selection.move_to(hl);
        }
        self.want_widget_scroll = bound_scroll(want, end, right);
        proof {
            let t = g.tabs[ct as int].unwrap();
            let nt = TabView { widgets: Seq::new(t.widgets.len(), |k: int| framed(t.widgets[k], now)), ..t };
            assert(nt.widgets =~= self.tabs@[ct as int].unwrap().widgets@);
            assert(tabs_view(self.tabs@) =~= g.tabs.update(ct as int, Some(nt)));
            assert forall|j: int| 0 <= j < nt.widgets.len() implies #[trigger] nt.widgets[j].wf() by {
                assert(t.widgets[j].wf());
            }
            assert(rows@ =~= Seq::new(t.widgets.len(), |k: int| row_of(t.widgets, right, offset as int, pad as int, k, now)));
        }
        rows
    }

    /// Computes one frame at `now`: the idle step, the panels, the tab and
    /// widget layouts, then one step of the scroll and the highlight.
    pub fn frame(&mut self, now: u64) -> (r: Frame)
        requires
            old(self).wf(),
        ensures
            final(self).wf(),
            final(self)@ == old(self)@.after_frame(now),
            r.left == old(self)@.frame_panels(now).0,
            r.right == old(self)@.frame_panels(now).1,
            r.left is Some ==> r.tab_rects@ == Seq::new(
                old(self)@.tabs.len(),
                |i: int| old(self)@.idled(now, IDLE_TIMEOUT).tab_rect(r.left.unwrap(), i),
            ),
            r.left is None ==> r.tab_rects@.len() == 0,
            r.right is Some ==> r.widget_rows@ == Seq::new(
                old(self)@.cur_widgets().len(),
                |k: int|
                    row_of(
                        old(self)@.cur_widgets(),
                        r.right.unwrap(),
                        old(self)@.frame_offset(now),
                        old(self)@.pad(),
                        k,
                        now,
                    ),
            ),
            r.right is None ==> r.widget_rows@.len() == 0,
            r.selection == final(self)@.selection.rect,
            r.selection_colors == final(self)@.selection.colors,
    {
        self.idle_step(now, Theme::idle_timeout());
        let (left, right) = layout_panels(self.window_size.0, self.window_size.1, self.focus, self.widget_scroll);
        let pad: i32 = (Theme::padding() as i32 * self.font_height) / 100;
        let mut tab_rects: Vec<Option<Rect>> = Vec::new();
        match left {
            Some(l) => {
                let (rects, top) = self.tab_layout(l, pad);
                assert(rects@ =~= Seq::new(self@.tabs.len(), |i: int| self@.tab_rect(l, i)));
                tab_rects = rects;
                if self.focus == Focus::TabBar {
                    let h: u32 = match &self.tabs[self.current_tab] {
                        Some(t) => t.label_h,
                        None => 0,
                    };
                    let hl = Rect::new_wide(
                        l.x as i64 + (pad / 2) as i64,
                        l.y as i64 + top as i64 - (pad / 2) as i64,
                        l.w.saturating_sub(pad as u32) as u64,
                        h as u64 + pad as u64,
                    );
                    self.selection.move_to(hl);
                }
            },
            None => {},
        }
        let mut widget_rows: Vec<WidgetRow> = Vec::new();
        match right {
            Some(r) => {
                let offset: i32 = match left {
                    Some(l) => l.w as i32,
                    None => 0,
                };
                widget_rows = self.widget_layout(r, offset, pad, now);
            },
            None => {},
        }
        self.widget_scroll = closerize(self.widget_scroll, self.want_widget_scroll);
        self.selection.tick();
        Frame {
            left,
            right,
            tab_rects,
            widget_rows,
            selection: self.selection.rect,
            selection_colors: self.selection.colors,
        }
    }

    /// Feeds one action into the focus machine at time `now`. Returns the
    /// index, in the active tab, of the widget whose callback is to run.
    pub fn apply_action(&mut self, action: ActionKey, now: u64) -> (fired: Option<usize>)
        requires
            old(self).wf(),
        ensures
            final(self).wf(),
            (final(self)@, as_index(fired)) == old(self)@.after_action(action, now),
    {
        let ghost g = self@;
        if action != ActionKey::NoAction {
            self.last_interaction = now;
            self.tab_scroll = 0;
        }
        let fired = match action {
            ActionKey::Press => {
                if self.focus == Focus::TabBar {
                    if self.cur_len() > 0 {
                        self.focus.bump_down();
                    }
                    None
                } else if self.current_widget < self.cur_len() {
                    if self.cur_grabs() && self.focus == Focus::Widgets {
                        self.focus.bump_down();
                    }
                    let cw = self.current_widget;
                    let fire = self.act_on_widget(&action);
                    proof {
                        lemma_with_widget_wf(g.touched(action, now), action);
                    }
                    if fire { Some(cw) } else { None }
                } else {
                    None
                }
            },
            ActionKey::Back => {
                self.focus.bump_up();
                None
            },
            ActionKey::NoAction => None,
            _ => {
                match self.focus {
                    Focus::TabBar => {
                        let t = if action == ActionKey::Up {
                            prev_tab(&self.tabs, self.current_tab)
                        } else if action == ActionKey::Down {
                            next_tab(&self.tabs, self.current_tab)
                        } else {
                            None
                        };
                        proof {
                            lemma_prev_selectable(g.tabs, g.current_tab - 1);
                            lemma_next_selectable(g.tabs, g.current_tab + 1);
                        }
                        match t {
                            Some(i) => {
                                self.current_tab = i;
                                self.current_widget = 0;
                            },
                            None => {},
                        }
                        None
                    },
                    Focus::Widgets => {
                        let cw = self.current_widget;
                        let len = self.cur_len();
                        let n: usize = if action == ActionKey::Up {
                            if cw > 0 { cw - 1 } else { 0 }
                        } else if action == ActionKey::Down {
                            cw + 1
                        } else {
                            cw
                        };
                        if n < len {
                            self.current_widget = n;
                        }
                        None
                    },
                    Focus::WidgetSingle => {
                        if self.current_widget < self.cur_len() && self.cur_grabs() {
                            let cw = self.current_widget;
                            let fire = self.act_on_widget(&action);
                            proof {
                                lemma_with_widget_wf(g.touched(action, now), action);
                            }
                            if fire { Some(cw) } else { None }
                        } else {
                            None
                        }
                    },
                }
            },
        };
        fired
    }
}

/// What the backward search finds: the nearest tab at or before `i`, with
/// only separators between; or nothing but separators from `i` down.
pub proof fn lemma_prev_selectable(tabs: Seq<Option<TabView>>, i: int)
    requires
        i < tabs.len(),
    ensures
        match prev_selectable(tabs, i) {
            Some(k) => 0 <= k <= i && tabs[k] is Some && forall|j: int|
                k < j <= i ==> #[trigger] tabs[j] is None,
            None => forall|j: int| 0 <= j <= i ==> #[trigger] tabs[j] is None,
        },
    decreases i + 1,
{
    if i >= 0 && tabs[i] is None {
        lemma_prev_selectable(tabs, i - 1);
    }
}

/// What the forward search finds: the nearest tab at or after `i`, with only
/// separators between; or nothing but separators from `i` on.
pub proof fn lemma_next_selectable(tabs: Seq<Option<TabView>>, i: int)
    requires
        0 <= i,
    ensures
        match next_selectable(tabs, i) {
            Some(k) => i <= k < tabs.len() && tabs[k] is Some && forall|j: int|
                i <= j < k ==> #[trigger] tabs[j] is None,
            None => forall|j: int| i <= j < tabs.len() ==> #[trigger] tabs[j] is None,
        },
    decreases tabs.len() - i,
{
    if i < tabs.len() && tabs[i] is None {
        lemma_next_selectable(tabs, i + 1);
    }
}

/// Moving past either end does nothing: on the tab bar, `Up` at the first tab
/// and `Down` at the last leave both cursors as they are; in the widget list,
/// `Up` at the first widget and `Down` at the last leave the cursor there.
pub proof fn lemma_navigation_boundaries(g: GuiView, now: u64)
    requires
        g.wf(),
    ensures
        g.focus == Focus::TabBar && (forall|j: int| 0 <= j < g.current_tab ==> #[trigger] g.tabs[j] is None)
            ==> g.after_action(ActionKey::Up, now).0.current_tab == g.current_tab
            && g.after_action(ActionKey::Up, now).0.current_widget == g.current_widget,
        g.focus == Focus::TabBar && (forall|j: int|
            g.current_tab < j < g.tabs.len() ==> #[trigger] g.tabs[j] is None)
            ==> g.after_action(ActionKey::Down, now).0.current_tab == g.current_tab
            && g.after_action(ActionKey::Down, now).0.current_widget == g.current_widget,
        g.focus == Focus::Widgets && g.current_widget == 0
            ==> g.after_action(ActionKey::Up, now).0.current_widget == 0,
        g.focus == Focus::Widgets && g.current_widget == g.cur_widgets().len() - 1
            ==> g.after_action(ActionKey::Down, now).0.current_widget == g.current_widget,
{
    lemma_prev_selectable(g.tabs, g.current_tab - 1);
    lemma_next_selectable(g.tabs, g.current_tab + 1);
}

/// Separators are skipped: on the tab bar, from a tab followed by a
/// separator and then a tab, `Down` selects that tab, and `Up` from the later
/// tab comes back; an arrow on the tab bar never selects a separator.
pub proof fn lemma_separator_skipped(g: GuiView, now: u64, a: ActionKey)
    requires
        g.wf(),
        g.focus == Focus::TabBar,
    ensures
        g.current_tab + 2 < g.tabs.len() && g.tabs[g.current_tab + 1] is None
            && g.tabs[g.current_tab + 2] is Some
            ==> g.after_action(ActionKey::Down, now).0.current_tab == g.current_tab + 2,
        g.current_tab >= 2 && g.tabs[g.current_tab - 1] is None && g.tabs[g.current_tab - 2] is Some
            ==> g.after_action(ActionKey::Up, now).0.current_tab == g.current_tab - 2,
        g.after_action(a, now).0.tabs[g.after_action(a, now).0.current_tab] is Some,
{
    lemma_prev_selectable(g.tabs, g.current_tab - 1);
    lemma_next_selectable(g.tabs, g.current_tab + 1);
    if g.current_tab + 2 < g.tabs.len() && g.tabs[g.current_tab + 1] is None {
        assert(next_selectable(g.tabs, g.current_tab + 1) == next_selectable(g.tabs, g.current_tab + 2));
    }
    if g.current_tab >= 2 && g.tabs[g.current_tab - 1] is None {
        assert(prev_selectable(g.tabs, g.current_tab - 1) == prev_selectable(g.tabs, g.current_tab - 2));
    }
}

/// On any tab whose widget under the cursor is a toggle: `Press` on the tab
/// bar enters the widget list, a second `Press` flips the toggle and fires its
/// callback once, and `Back` returns to the tab bar.
pub proof fn lemma_toggle_round_trip(g: GuiView, on: bool, o: u8, t1: u64, t2: u64, t3: u64)
    requires
        g.wf(),
        g.focus == Focus::TabBar,
        g.cur_widgets().len() > 0,
        g.cur_widgets()[g.current_widget].state == WidgetState::Toggle(on, o),
    ensures
        ({
            let (g1, f1) = g.after_action(ActionKey::Press, t1);
            let (g2, f2) = g1.after_action(ActionKey::Press, t2);
            let (g3, f3) = g2.after_action(ActionKey::Back, t3);
            &&& g1.focus == Focus::Widgets && f1 is None
            &&& g2.focus == Focus::Widgets
            &&& g2.cur_widgets()[g.current_widget].state == WidgetState::Toggle(!on, o)
            &&& f2 == Some(g.current_widget)
            &&& g3.focus == Focus::TabBar && f3 is None
        }),
{
}

/// An optional index as an integer.
pub open spec fn as_index(o: Option<usize>) -> Option<int> {
    match o {
        Some(i) => Some(i as int),
        None => None,
    }
}

/// Acting on the widget under the cursor keeps a state well formed.
proof fn lemma_with_widget_wf(g: GuiView, a: ActionKey)
    requires
        g.wf(),
        g.current_widget < g.cur_widgets().len(),
    ensures
        forall|f: Focus| (GuiView { focus: f, ..g }).with_widget(g.cur_widgets()[g.current_widget].acted(a)).wf(),
{
    let t = g.tabs[g.current_tab].unwrap();
    let nt = TabView { widgets: t.widgets.update(g.current_widget, t.widgets[g.current_widget].acted(a)), ..t };
    assert(t.wf());
    assert forall|j: int| 0 <= j < nt.widgets.len() implies #[trigger] nt.widgets[j].wf() by {
        assert(t.widgets[j].wf());
    }
}

} // verus!
