use sgui2::builders::{GuiBuilder, TabBuilder, WidgetData};
use sgui2::WidgetState;

#[test]
fn widget_data_constructors() {
    let b = WidgetData::btn("Example button");
    assert_eq!(b.name, "Example button");
    assert_eq!(b.w_type, WidgetState::Button);
    assert_eq!(WidgetData::toggle("t", true).w_type, WidgetState::Toggle(true, 255));
    assert_eq!(WidgetData::toggle("t", false).w_type, WidgetState::Toggle(false, 0));
    assert_eq!(WidgetData::slider("s", 128).w_type, WidgetState::Slider(128, 128));
}

#[test]
fn gui_builder_chains_tabs_and_separators() {
    let mut gb = GuiBuilder::new("Test program");
    let mut t1 = TabBuilder::new("A tab");
    t1.widget(WidgetData::btn("b")).widget(WidgetData::slider("s", 3));
    gb.tab(&mut t1).tab_separator().tab(TabBuilder::new("Second").widget(WidgetData::btn("c")));
    assert_eq!(gb.name, "Test program");
    assert_eq!(gb.tabs.len(), 3);
    assert!(gb.tabs[1].is_none());
    let first = gb.tabs[0].as_ref().unwrap();
    assert_eq!(first.name, "A tab");
    assert_eq!(first.widgets.len(), 2);
    assert_eq!(gb.tabs[2].as_ref().unwrap().widgets.len(), 1);
    assert_eq!(t1.name, "");
    assert!(t1.widgets.is_empty());
}

#[test]
fn tab_builder_build_sizes_widgets() {
    let mut tb = TabBuilder::new("x");
    tb.widget(WidgetData::toggle("a", true)).widget(WidgetData::btn("b"));
    let tb = std::mem::replace(&mut tb, TabBuilder::new(""));
    let tab = tb.build(50, 10, &vec![(30, 12), (40, 14)], 7);
    assert_eq!(tab.label_w, 50);
    assert_eq!(tab.widgets.len(), 2);
    assert_eq!(tab.widgets[0].state, WidgetState::Toggle(true, 255));
    assert_eq!(tab.widgets[1].label_h, 14);
    assert_eq!(tab.widgets[1].next_callback, 7);
}

#[test]
fn widget_data_draw_seeds_timer() {
    let w = WidgetData::slider("s", 9).draw(10, 11, 5);
    assert_eq!(w.label_w, 10);
    assert_eq!(w.label_h, 11);
    assert_eq!(w.state, WidgetState::Slider(9, 9));
    assert_eq!(w.next_callback, 5);
}
