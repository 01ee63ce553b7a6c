//! Widgets: their state, how they react to actions, their self-driven timer
//! and the geometry of their decorations.

use vstd::prelude::*;
use crate::anim::{closer, closerize, lemma_closer_step};
use crate::geometry::{Rect, SIZE_MAX};

verus! {

/// How much one `Left` or `Right` moves a slider.
pub const SLIDER_STEP: u8 = 12;

/// The timestamp of a timer that is never due.
pub const TIMER_NEVER: u64 = 0xFFFF_FFFF_FFFF_FFFF;

/// One logical input signal of a frame.
#[derive(Debug, Clone, Copy, PartialEq, Eq, Structural)]
pub enum ActionKey {
    NoAction,
    Press,
    Back,
    Up,
    Down,
    Left,
    Right,
}

/// The state of a widget. A toggle holds whether it is on and the opacity
/// it is drawn with; a slider holds its value and the value it displays.
#[derive(Debug, Clone, Copy, PartialEq, Eq, Structural)]
pub enum WidgetState {
    Button,
    Toggle(bool, u8),
    Slider(u8, u8),
}

/// `a - b`, or 0 where `b` is larger.
pub open spec fn sub0(a: int, b: int) -> int {
    if a >= b { a - b } else { 0 }
}

impl WidgetState {
    /// Whether activating the widget hands it directional input.
    pub open spec fn grabs(self) -> bool {
        self is Slider
    }

    /// Whether the widget runs a self-driven timer.
    pub open spec fn uses_timer(self) -> bool {
        !(self is Button)
    }

    /// The state after `a`.
    pub open spec fn after(self, a: ActionKey) -> WidgetState {
        match self {
            WidgetState::Button => WidgetState::Button,
            WidgetState::Toggle(on, o) => {
                if a == ActionKey::Press { WidgetState::Toggle(!on, o) } else { self }
            },
            WidgetState::Slider(v, d) => {
                if a == ActionKey::Left {
                    WidgetState::Slider(sub0(v as int, SLIDER_STEP as int) as u8, d)
                } else if a == ActionKey::Right {
                    WidgetState::Slider(
                        (if v + SLIDER_STEP > u8::MAX { u8::MAX as int } else { v + SLIDER_STEP }) as u8,
                        d,
                    )
                } else {
                    self
                }
            },
        }
    }

    /// Whether `a` fires the widget's callback.
    pub open spec fn fires(self, a: ActionKey) -> bool {
        match self {
            WidgetState::Slider(..) => a == ActionKey::Left || a == ActionKey::Right,
            _ => a == ActionKey::Press,
        }
    }

    /// The state after one animation step of what it displays: a toggle's
    /// opacity heads for 255 when on and 0 when off, a slider's displayed
    /// value heads for its value.
    pub open spec fn animated(self) -> WidgetState {
        match self {
            WidgetState::Button => WidgetState::Button,
            WidgetState::Toggle(on, o) => WidgetState::Toggle(
                on,
                closer(o as int, if on { 255 } else { 0 }) as u8,
            ),
            WidgetState::Slider(v, d) => WidgetState::Slider(v, closer(d as int, v as int) as u8),
        }
    }
}

/// What a widget draws beside its label, in its own row's coordinates.
#[derive(Debug, Clone, Copy, PartialEq, Eq, Structural)]
pub enum Decoration {
    Label,
    Toggle { frame: Rect, opacity: u8 },
    Slider { frame: Rect, fill: Rect },
}

/// The margin above and below a decoration in a row of height `bh`.
pub open spec fn margin_of(bh: int) -> int {
    bh / 4
}

/// The side of a toggle's box in a row of height `bh`.
pub open spec fn box_of(bh: int) -> int {
    bh - 2 * margin_of(bh)
}

/// A toggle's box: a square at the right end of the row.
pub open spec fn toggle_frame(bw: int, bh: int) -> Rect {
    let m = margin_of(bh);
    let b = box_of(bh);
    Rect::spec_new(sub0(bw, 2 * m + b), m, b, b)
}

/// The width of a slider's bar: what the label leaves of the row, or the
/// right half of it, less the margins.
pub open spec fn slider_width(label_w: int, bw: int, bh: int) -> int {
    let m = margin_of(bh);
    if label_w > bw / 2 { sub0(sub0(bw, label_w), 4 * m) } else { sub0(bw / 2, 4 * m) }
}

/// A slider's bar, and the part of it filled for the displayed value.
pub open spec fn slider_rects(label_w: int, bw: int, bh: int, display: int) -> (Rect, Rect) {
    let m = margin_of(bh);
    let whole = slider_width(label_w, bw, bh);
    let x = sub0(bw, whole + 2 * m);
    (Rect::spec_new(x, m, whole, box_of(bh)), Rect::spec_new(x, m, display * whole / 255, box_of(bh)))
}

/// The decoration drawn for `s` beside a label `label_w` wide.
pub open spec fn decoration_of(s: WidgetState, label_w: int, bw: int, bh: int) -> Decoration {
    match s {
        WidgetState::Button => Decoration::Label,
        WidgetState::Toggle(_, o) => Decoration::Toggle { frame: toggle_frame(bw, bh), opacity: o },
        WidgetState::Slider(_, d) => {
            let r = slider_rects(label_w, bw, bh, d as int);
            Decoration::Slider { frame: r.0, fill: r.1 }
        },
    }
}

/// A widget: the size of its rendered label, its state, and when its timer
/// is next due (in nanoseconds of the caller's clock).
#[derive(Debug, Clone, Copy, PartialEq, Eq, Structural)]
pub struct Widget {
    pub label_w: u32,
    pub label_h: u32,
    pub state: WidgetState,
    pub next_callback: u64,
}

impl Widget {
    pub open spec fn wf(self) -> bool {
        self.label_w <= SIZE_MAX && self.label_h <= SIZE_MAX
    }

    /// The widget after `a`.
    pub open spec fn acted(self, a: ActionKey) -> Widget {
        Widget { state: self.state.after(a), ..self }
    }

    /// A widget whose timer is due from `now` on, so that its first frame
    /// starts what it drives itself.
    pub fn new(label_w: u32, label_h: u32, state: WidgetState, now: u64) -> (r: Widget)
        requires
            label_w <= SIZE_MAX,
            label_h <= SIZE_MAX,
        ensures
            r == (Widget { label_w, label_h, state, next_callback: now }),
            r.wf(),
    {
        Widget { label_w, label_h, state, next_callback: now }
    }

    /// The height of the widget's row: that of its label.
    pub fn height(&self) -> (r: u32)
        ensures
            r == self.label_h,
    {
        self.label_h
    }

    /// Whether activating the widget should hand it directional input.
    pub fn grabs_input(&self) -> (r: bool)
        ensures
            r == self.state.grabs(),
    {
        match self.state {
            WidgetState::Button | WidgetState::Toggle(..) => false,
            WidgetState::Slider(..) => true,
        }
    }

    /// Whether the widget runs a self-driven timer.
    pub fn uses_timer(&self) -> (r: bool)
        ensures
            r == self.state.uses_timer(),
    {
        match self.state {
            WidgetState::Button => false,
            WidgetState::Slider(..) | WidgetState::Toggle(..) => true,
        }
    }

    /// Applies `code` to the state; returns whether the callback fires.
    pub fn process_action(&mut self, code: &ActionKey) -> (fire: bool)
        ensures
            *final(self) == old(self).acted(*code),
            fire == old(self).state.fires(*code),
    {
        let mut fire_callback = false;
        match self.state {
            WidgetState::Button => {
                if *code == ActionKey::Press {
                    fire_callback = true;
                }
            },
            WidgetState::Toggle(on, o) => {
                if *code == ActionKey::Press {
                    self.state = WidgetState::Toggle(!on, o);
                    fire_callback = true;
                }
            },
            WidgetState::Slider(v, d) => {
                if *code == ActionKey::Left {
                    self.state = WidgetState::Slider(v.saturating_sub(SLIDER_STEP), d);
                    fire_callback = true;
                } else if *code == ActionKey::Right {
                    self.state = WidgetState::Slider(v.saturating_add(SLIDER_STEP), d);
                    fire_callback = true;
                }
            },
        }
        fire_callback
    }

    /// Whether the timer is due at `now`. A due timer is disarmed before its
    /// callback runs, so a callback that does not set it again stops it.
    pub fn poll_timer(&mut self, now: u64) -> (fire: bool)
        ensures
            fire == (old(self).state.uses_timer() && now > old(self).next_callback),
            *final(self) == if fire {
                Widget { next_callback: TIMER_NEVER, ..*old(self) }
            } else {
                *old(self)
            },
    {
        if self.uses_timer() && now > self.next_callback {
            self.next_callback = TIMER_NEVER;
            true
        } else {
            false
        }
    }

    /// Advances what the widget displays one step and returns the decoration
    /// to draw in a row `bw` wide and `bh` high.
    pub fn draw_step(&mut self, bw: u32, bh: u32) -> (r: Decoration)
        requires
            bw <= SIZE_MAX,
            bh <= SIZE_MAX,
            old(self).wf(),
        ensures
            *final(self) == (Widget { state: old(self).state.animated(), ..*old(self) }),
            r == decoration_of(final(self).state, old(self).label_w as int, bw as int, bh as int),
    {
        let margin: u32 = bh / 4;
        let box_size: u32 = bh - margin * 2;
        match self.state {
            WidgetState::Toggle(on, o) => {
                let target: i32 = if on { 255 } else { 0 };
                proof {
                    lemma_closer_step(o as int, target as int);
                }
                let o2 = closerize(o as i32, target) as u8;
                self.state = WidgetState::Toggle(on, o2);
                let x = bw.saturating_sub(margin * 2 + box_size);
                let frame = Rect::new(x as i32, margin as i32, box_size, box_size);
                Decoration::Toggle { frame, opacity: o2 }
            },
            WidgetState::Slider(v, d) => {
                proof {
                    lemma_closer_step(d as int, v as int);
                }
                let d2 = closerize(d as i32, v as i32) as u8;
                self.state = WidgetState::Slider(v, d2);
                let whole: u32 = if self.label_w > bw / 2 {
                    bw.saturating_sub(self.label_w).saturating_sub(margin * 4)
                } else {
                    (bw / 2).saturating_sub(margin * 4)
                };
                let x = bw.saturating_sub(whole + margin * 2);
                assert(d2 as u64 * whole as u64 <= 255 * SIZE_MAX) by (nonlinear_arith)
                    requires d2 <= 255, whole <= SIZE_MAX;
                let fill_w: u64 = d2 as u64 * whole as u64 / 255;
                assert(fill_w <= whole) by (nonlinear_arith)
                    requires fill_w == d2 as int * whole as int / 255, d2 <= 255, whole >= 0;
                let frame = Rect::new(x as i32, margin as i32, whole, box_size);
                let fill = Rect::new(x as i32, margin as i32, fill_w as u32, box_size);
                Decoration::Slider { frame, fill }
            },
            WidgetState::Button => Decoration::Label,
        }
    }
}

/// The state after `n` applications of `a`.
pub open spec fn after_n(s: WidgetState, a: ActionKey, n: nat) -> WidgetState
    decreases n,
{
    if n == 0 { s } else { after_n(s.after(a), a, (n - 1) as nat) }
}

/// `n` presses of `Right` move a slider's value up by `n` steps, saturating
/// at 255, and `n` of `Left` move it down, saturating at 0; the displayed value
/// is untouched, and every press fires the callback.
pub proof fn lemma_slider_presses(v: u8, d: u8, n: nat)
    ensures
        after_n(WidgetState::Slider(v, d), ActionKey::Right, n) == WidgetState::Slider(
            (if v + SLIDER_STEP * n > 255 { 255 } else { v + SLIDER_STEP * n }) as u8,
            d,
        ),
        after_n(WidgetState::Slider(v, d), ActionKey::Left, n) == WidgetState::Slider(
            (if v - SLIDER_STEP * n < 0 { 0 } else { v - SLIDER_STEP * n }) as u8,
            d,
        ),
        WidgetState::Slider(v, d).fires(ActionKey::Right),
        WidgetState::Slider(v, d).fires(ActionKey::Left),
    decreases n,
{
    if n > 0 {
        let r = WidgetState::Slider(v, d).after(ActionKey::Right);
        let l = WidgetState::Slider(v, d).after(ActionKey::Left);
        match r {
            WidgetState::Slider(v1, _) => lemma_slider_presses(v1, d, (n - 1) as nat),
            _ => {},
        }
        match l {
            WidgetState::Slider(v2, _) => lemma_slider_presses(v2, d, (n - 1) as nat),
            _ => {},
        }
    }
}

} // verus!
