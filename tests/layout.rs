use sgui2::layout::{layout_panels, marquee_offset};
use sgui2::widget::TIMER_NEVER;
use sgui2::{Decoration, Focus, Gui, Rect, Tab, Widget, WidgetState};

#[test]
fn wide_surface_uses_two_panels() {
    let (l, r) = layout_panels(1920, 1080, Focus::TabBar, 0);
    assert_eq!(l, Some(Rect::new(0, 0, 384, 1080)));
    assert_eq!(r, Some(Rect::new(384, 0, 1536, 1080)));
    let (_, r) = layout_panels(1920, 1080, Focus::Widgets, -30);
    assert_eq!(r, Some(Rect::new(384, -30, 1536, 1080)));
}

#[test]
fn tall_surface_uses_one_panel() {
    assert_eq!(layout_panels(400, 800, Focus::TabBar, 0), (Some(Rect::new(0, 0, 400, 800)), None));
    assert_eq!(layout_panels(400, 800, Focus::Widgets, 0), (None, Some(Rect::new(0, 0, 400, 800))));
    assert_eq!(
        layout_panels(400, 800, Focus::WidgetSingle, 5),
        (None, Some(Rect::new(0, 5, 400, 800)))
    );
}

#[test]
fn narrow_surface_breakpoint() {
    assert!(layout_panels(640, 480, Focus::TabBar, 0).1.is_none());
    assert!(layout_panels(641, 480, Focus::TabBar, 0).1.is_some());
}

#[test]
fn marquee_offset_values() {
    assert_eq!(marquee_offset(64, 300, 200, 8), 54);
    assert_eq!(marquee_offset(200, 300, 200, 8), 108);
    assert_eq!(marquee_offset(0, 300, 200, 8), 0);
    assert_eq!(marquee_offset(100, 150, 200, 8), 0);
}

fn sample_gui(size: (u32, u32)) -> Gui {
    let widgets = vec![
        Widget::new(80, 20, WidgetState::Toggle(true, 0), 0),
        Widget::new(80, 20, WidgetState::Slider(100, 100), 0),
    ];
    Gui::new(vec![Some(Tab::new(100, 20, widgets))], 20, size, 0).unwrap()
}

#[test]
fn frame_two_panel_layout() {
    let mut g = sample_gui((1920, 1080));
    let f = g.frame(10);
    assert_eq!(f.left, Some(Rect::new(0, 0, 384, 1080)));
    assert_eq!(f.right, Some(Rect::new(384, 0, 1536, 1080)));
    assert_eq!(f.tab_rects, vec![Some(Rect::new(4, 4, 100, 20))]);
    assert_eq!(f.widget_rows.len(), 2);
    assert_eq!(f.widget_rows[0].rect, Rect::new(388, 4, 1536, 20));
    assert_eq!(
        f.widget_rows[0].decoration,
        Decoration::Toggle { frame: Rect::new(1516, 5, 10, 10), opacity: 63 }
    );
    assert!(f.widget_rows[0].timer_due);
    assert_eq!(f.widget_rows[1].rect, Rect::new(388, 32, 1536, 20));
    assert_eq!(
        f.widget_rows[1].decoration,
        Decoration::Slider { frame: Rect::new(778, 5, 748, 10), fill: Rect::new(778, 5, 293, 10) }
    );
    assert_eq!(f.selection, Rect::new(2, 2, 95, 6));
    let w = g.widget(0).unwrap();
    assert_eq!(w.state, WidgetState::Toggle(true, 63));
    assert_eq!(w.next_callback, TIMER_NEVER);
    let f2 = g.frame(11);
    assert!(!f2.widget_rows[0].timer_due);
    assert!(f2.widget_rows[1].timer_due == false);
}

#[test]
fn frame_single_panel_shows_tabs_only() {
    let mut g = sample_gui((400, 800));
    let f = g.frame(10);
    assert_eq!(f.left, Some(Rect::new(0, 0, 400, 800)));
    assert_eq!(f.right, None);
    assert!(f.widget_rows.is_empty());
    assert_eq!(f.tab_rects.len(), 1);
}

#[test]
fn frame_scrolls_selected_widget_into_view() {
    let widgets: Vec<Widget> = (0..10).map(|_| Widget::new(80, 20, WidgetState::Button, 0)).collect();
    let mut g = Gui::new(vec![Some(Tab::new(100, 20, widgets))], 20, (1920, 100), 0).unwrap();
    g.apply_action(sgui2::ActionKey::Press, 1);
    for t in 0..9 {
        g.apply_action(sgui2::ActionKey::Down, 2 + t);
    }
    assert_eq!(g.current_widget(), 9);
    g.frame(20);
    let (scroll, want) = g.widget_scroll();
    // rows are 28 pixels; the last one ends at 280, the panel is 100 high
    assert_eq!(want, -180);
    assert_eq!(scroll, -45);
}
