use sgui2::{ActionKey, Focus, Gui, Tab, Widget, WidgetState};

fn tab(states: &[WidgetState]) -> Tab {
    Tab::new(100, 20, states.iter().map(|s| Widget::new(80, 20, *s, 0)).collect())
}

fn buttons(n: usize) -> Tab {
    tab(&vec![WidgetState::Button; n])
}

fn gui(tabs: Vec<Option<Tab>>) -> Gui {
    Gui::new(tabs, 20, (1920, 1080), 0).unwrap()
}

#[test]
fn new_refuses_separator_first_or_empty() {
    assert!(Gui::new(vec![], 20, (1920, 1080), 0).is_none());
    assert!(Gui::new(vec![None, Some(buttons(1))], 20, (1920, 1080), 0).is_none());
    assert!(Gui::new(vec![Some(buttons(1))], -1, (1920, 1080), 0).is_none());
    assert!(Gui::new(vec![Some(Tab::new(u32::MAX, 20, vec![]))], 20, (1920, 1080), 0).is_none());
    let g = gui(vec![Some(buttons(1))]);
    assert_eq!(g.focus(), Focus::TabBar);
    assert_eq!(g.current_tab(), 0);
    assert_eq!(g.current_widget(), 0);
}

#[test]
fn down_skips_separator() {
    let mut g = gui(vec![Some(buttons(1)), None, Some(buttons(1))]);
    assert_eq!(g.apply_action(ActionKey::Down, 1), None);
    assert_eq!(g.current_tab(), 2);
    g.apply_action(ActionKey::Up, 2);
    assert_eq!(g.current_tab(), 0);
}

#[test]
fn tab_bar_boundaries_do_not_wrap() {
    let mut g = gui(vec![Some(buttons(1)), None, Some(buttons(1)), None]);
    g.apply_action(ActionKey::Up, 1);
    assert_eq!(g.current_tab(), 0);
    g.apply_action(ActionKey::Down, 2);
    assert_eq!(g.current_tab(), 2);
    g.apply_action(ActionKey::Down, 3);
    assert_eq!(g.current_tab(), 2);
}

#[test]
fn widget_boundaries_do_not_wrap() {
    let mut g = gui(vec![Some(buttons(3))]);
    g.apply_action(ActionKey::Press, 1);
    assert_eq!(g.focus(), Focus::Widgets);
    g.apply_action(ActionKey::Up, 2);
    assert_eq!(g.current_widget(), 0);
    g.apply_action(ActionKey::Down, 3);
    g.apply_action(ActionKey::Down, 4);
    assert_eq!(g.current_widget(), 2);
    g.apply_action(ActionKey::Down, 5);
    assert_eq!(g.current_widget(), 2);
    g.apply_action(ActionKey::Up, 6);
    assert_eq!(g.current_widget(), 1);
}

#[test]
fn tab_change_resets_widget_cursor() {
    let mut g = gui(vec![Some(buttons(3)), Some(buttons(3))]);
    g.apply_action(ActionKey::Press, 1);
    g.apply_action(ActionKey::Down, 2);
    assert_eq!(g.current_widget(), 1);
    g.apply_action(ActionKey::Back, 3);
    g.apply_action(ActionKey::Down, 4);
    assert_eq!(g.current_tab(), 1);
    assert_eq!(g.current_widget(), 0);
}

#[test]
fn press_on_empty_tab_keeps_tab_bar() {
    let mut g = gui(vec![Some(buttons(0))]);
    assert_eq!(g.apply_action(ActionKey::Press, 1), None);
    assert_eq!(g.focus(), Focus::TabBar);
}

#[test]
fn toggle_scenario() {
    let mut g = gui(vec![Some(tab(&[WidgetState::Toggle(false, 0)]))]);
    assert_eq!(g.apply_action(ActionKey::Press, 1), None);
    assert_eq!(g.focus(), Focus::Widgets);
    assert_eq!(g.apply_action(ActionKey::Press, 2), Some(0));
    assert_eq!(g.widget(0).unwrap().state, WidgetState::Toggle(true, 0));
    assert_eq!(g.apply_action(ActionKey::Back, 3), None);
    assert_eq!(g.focus(), Focus::TabBar);
}

#[test]
fn slider_press_grabs_and_arrows_go_to_it() {
    let mut g = gui(vec![Some(tab(&[WidgetState::Slider(200, 200)]))]);
    g.apply_action(ActionKey::Press, 1);
    assert_eq!(g.apply_action(ActionKey::Press, 2), None);
    assert_eq!(g.focus(), Focus::WidgetSingle);
    assert_eq!(g.apply_action(ActionKey::Right, 3), Some(0));
    assert_eq!(g.apply_action(ActionKey::Right, 4), Some(0));
    assert_eq!(g.apply_action(ActionKey::Right, 5), Some(0));
    assert_eq!(g.widget(0).unwrap().state, WidgetState::Slider(236, 200));
    assert_eq!(g.apply_action(ActionKey::Up, 6), None);
    assert_eq!(g.current_widget(), 0);
    g.apply_action(ActionKey::Back, 7);
    assert_eq!(g.focus(), Focus::Widgets);
}

#[test]
fn action_resets_tab_scroll_and_idle_counts() {
    let mut g = gui(vec![Some(buttons(1))]);
    g.idle_step(3_000_000_000, 2_000_000_000);
    assert_eq!(g.tab_scroll(), 1);
    g.idle_step(3_000_000_001, 2_000_000_000);
    assert_eq!(g.tab_scroll(), 2);
    g.apply_action(ActionKey::Up, 3_000_000_002);
    assert_eq!(g.tab_scroll(), 0);
    g.idle_step(3_000_000_003, 2_000_000_000);
    assert_eq!(g.tab_scroll(), 0);
}

#[test]
fn idle_scroll_wraps_and_restarts_clock() {
    let mut g = gui(vec![Some(buttons(1))]);
    for _ in 0..255 {
        g.idle_step(5_000_000_000, 2_000_000_000);
    }
    assert_eq!(g.tab_scroll(), 255);
    g.idle_step(5_000_000_000, 2_000_000_000);
    assert_eq!(g.tab_scroll(), 0);
    g.idle_step(5_000_000_001, 2_000_000_000);
    assert_eq!(g.tab_scroll(), 0);
}

#[test]
fn set_widget_stores_callback_result() {
    let mut g = gui(vec![Some(tab(&[WidgetState::Slider(200, 200)]))]);
    g.set_widget(0, WidgetState::Slider(170, 200), 42);
    let w = g.widget(0).unwrap();
    assert_eq!(w.state, WidgetState::Slider(170, 200));
    assert_eq!(w.next_callback, 42);
    g.set_widget(5, WidgetState::Button, 1);
    assert!(g.widget(5).is_none());
}
