//! Assembling tabs and widgets before the interface runs.

use vstd::prelude::*;
use crate::geometry::SIZE_MAX;
use crate::gui::{Tab, TabView};
use crate::widget::{Widget, WidgetState};

verus! {

/// The interface's title and its entries in order; `None` is a separator.
pub struct GuiBuilder {
    pub name: String,
    pub tabs: Vec<Option<TabBuilder>>,
}

/// A tab's name and its widgets in order.
pub struct TabBuilder {
    pub name: String,
    pub widgets: Vec<WidgetData>,
}

/// A widget's label and initial state.
pub struct WidgetData {
    pub name: String,
    pub w_type: WidgetState,
}

impl GuiBuilder {
    /// An interface titled `name`, with no entries yet.
    pub fn new(name: &str) -> (r: GuiBuilder)
        ensures
            r.name@ == name@,
            r.tabs@.len() == 0,
    {
        GuiBuilder { name: name.to_string(), tabs: Vec::new() }
    }

    /// Appends what `tab` holds as the next tab, leaving `tab` empty.
    pub fn tab(&mut self, tab: &mut TabBuilder) -> (r: &mut GuiBuilder)
        ensures
            r.name == old(self).name,
            r.tabs@ == old(self).tabs@.push(Some(*old(tab))),
            final(tab).name@.len() == 0,
            final(tab).widgets@.len() == 0,
            *final(self) == *final(r),
    {
        let mut taken = TabBuilder::new("");
        proof {
            reveal_strlit("");
        }
        std::mem::swap(tab, &mut taken);
        self.tabs.push(Some(taken));
        self
    }

    /// Appends a separator: a gap in the tab list that cannot be selected.
    pub fn tab_separator(&mut self) -> (r: &mut GuiBuilder)
        ensures
            r.name == old(self).name,
            r.tabs@ == old(self).tabs@.push(None),
            *final(self) == *final(r),
    {
        self.tabs.push(None);
        self
    }
}

impl TabBuilder {
    /// A tab named `name`, with no widgets yet.
    pub fn new(name: &str) -> (r: TabBuilder)
        ensures
            r.name@ == name@,
            r.widgets@.len() == 0,
    {
        TabBuilder { name: name.to_string(), widgets: Vec::new() }
    }

    /// Appends a widget.
    pub fn widget(&mut self, data: WidgetData) -> (r: &mut TabBuilder)
        ensures
            r.name == old(self).name,
            r.widgets@ == old(self).widgets@.push(data),
            *final(self) == *final(r),
    {
        self.widgets.push(data);
        self
    }

    /// The tab, given the size of its rendered label and of each widget's.
    /// Every widget's timer is due from `now` on.
    pub fn build(self, label_w: u32, label_h: u32, widget_labels: &Vec<(u32, u32)>, now: u64) -> (r: Tab)
        requires
            widget_labels@.len() == self.widgets@.len(),
        ensures
            r@.label_w == label_w,
            r@.label_h == label_h,
            r@.widgets.len() == self.widgets@.len(),
            forall|k: int|
                0 <= k < r@.widgets.len() ==> #[trigger] r@.widgets[k] == (Widget {
                    label_w: widget_labels@[k].0,
                    label_h: widget_labels@[k].1,
                    state: self.widgets@[k].w_type,
                    next_callback: now,
                }),
    {
        let mut widgets: Vec<Widget> = Vec::new();
        let mut k: usize = 0;
        while k < self.widgets.len()
            invariant
                widget_labels@.len() == self.widgets@.len(),
                k <= self.widgets@.len(),
                widgets@.len() == k,
                forall|j: int|
                    0 <= j < k ==> #[trigger] widgets@[j] == (Widget {
                        label_w: widget_labels@[j].0,
                        label_h: widget_labels@[j].1,
                        state: self.widgets@[j].w_type,
                        next_callback: now,
                    }),
            decreases self.widgets@.len() - k,
        {
            let (w, h) = widget_labels[k];
            widgets.push(Widget { label_w: w, label_h: h, state: self.widgets[k].w_type, next_callback: now });
            k += 1;
        }
        Tab::new(label_w, label_h, widgets)
    }
}

impl WidgetData {
    /// A button labelled `name`.
    pub fn btn(name: &str) -> (r: WidgetData)
        ensures
            r.name@ == name@,
            r.w_type == WidgetState::Button,
    {
        WidgetData { name: name.to_string(), w_type: WidgetState::Button }
    }

    /// A toggle labelled `name`, on or off as `state` says, drawn fully
    /// opaque when on and transparent when off.
    pub fn toggle(name: &str, state: bool) -> (r: WidgetData)
        ensures
            r.name@ == name@,
            r.w_type == WidgetState::Toggle(state, if state { 255 } else { 0 }),
    {
        WidgetData { name: name.to_string(), w_type: WidgetState::Toggle(state, if state { 255 } else { 0 }) }
    }

    /// A slider labelled `name` at value `state`, displayed there.
    pub fn slider(name: &str, state: u8) -> (r: WidgetData)
        ensures
            r.name@ == name@,
            r.w_type == WidgetState::Slider(state, state),
    {
        WidgetData { name: name.to_string(), w_type: WidgetState::Slider(state, state) }
    }

    /// The widget, given the size of its rendered label; its timer is due
    /// from `now` on.
    pub fn draw(self, label_w: u32, label_h: u32, now: u64) -> (r: Widget)
        requires
            label_w <= SIZE_MAX,
            label_h <= SIZE_MAX,
        ensures
            r == (Widget { label_w, label_h, state: self.w_type, next_callback: now }),
    {
        Widget::new(label_w, label_h, self.w_type, now)
    }
}

} // verus!
